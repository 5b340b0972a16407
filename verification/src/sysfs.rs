//! Attribute store primitives: resolution of a reference to the location
//! that currently exists, text and integer reads and writes over a resolved
//! location, and the closed error taxonomy they produce.

use vstd::prelude::*;

use crate::store::{find_node, spec_write, NodeV, Store};
use crate::text::{
    fmt_i32, parse_i32, spec_fmt_i32, spec_parse_i32, spec_trim, trim,
};

verus! {

/// Failure of a single store primitive.  `NotFound` means the location is
/// absent, `Io` any other read or write failure, `Parse` text that is not a
/// valid integer where one was expected.
#[derive(Debug)]
pub enum Error {
    NotFound { path: String },
    Io { path: String },
    Parse { path: String, content: String },
}

/// What reading the raw text at a concrete location yields.
pub enum TextRead {
    Val(Seq<char>),
    Missing,
    Unreadable,
}

/// Reading at a location: absent, unreadable, or the trimmed text.
pub open spec fn spec_read_text(nodes: Seq<NodeV>, loc: Seq<char>) -> TextRead {
    match find_node(nodes, loc) {
        Option::None => TextRead::Missing,
        Option::Some(n) => if n.readable {
            TextRead::Val(spec_trim(n.content))
        } else {
            TextRead::Unreadable
        },
    }
}

/// What reading an integer at a concrete location yields.
pub enum IntRead {
    Val(i32),
    Missing,
    Unreadable,
    Unparsable(Seq<char>),
}

/// Reading an integer at a location: the trimmed text parsed as a 32-bit
/// integer.
pub open spec fn spec_read_int(nodes: Seq<NodeV>, loc: Seq<char>) -> IntRead {
    match spec_read_text(nodes, loc) {
        TextRead::Missing => IntRead::Missing,
        TextRead::Unreadable => IntRead::Unreadable,
        TextRead::Val(t) => match spec_parse_i32(t) {
            Option::Some(v) => IntRead::Val(v),
            Option::None => IntRead::Unparsable(t),
        },
    }
}

/// Reads the text at a concrete location, trimmed of surrounding whitespace.
pub fn read_string(st: &Store, path: &str) -> (r: Result<String, Error>)
    ensures
        match spec_read_text(st@.nodes, path@) {
            TextRead::Val(t) => r matches Ok(s) && s@ == t,
            TextRead::Missing => r matches Err(Error::NotFound { path: p }) && p@ == path@,
            TextRead::Unreadable => r matches Err(Error::Io { path: p }) && p@ == path@,
        },
{
    match st.index_of(path) {
        Option::None => Err(Error::NotFound { path: String::from_str(path) }),
        Option::Some(i) => {
            if st.nodes[i].readable {
                Ok(trim(st.nodes[i].content.as_str()))
            } else {
                Err(Error::Io { path: String::from_str(path) })
            }
        },
    }
}

/// Reads the text at a concrete location and parses it as an integer.
pub fn read_int(st: &Store, path: &str) -> (r: Result<i32, Error>)
    ensures
        match spec_read_int(st@.nodes, path@) {
            IntRead::Val(v) => r matches Ok(x) && x == v,
            IntRead::Missing => r matches Err(Error::NotFound { path: p }) && p@ == path@,
            IntRead::Unreadable => r matches Err(Error::Io { path: p }) && p@ == path@,
            IntRead::Unparsable(t) => r matches Err(Error::Parse { path: p, content: c }) && p@
                == path@ && c@ == t,
        },
{
    let s = match read_string(st, path) {
        Ok(s) => s,
        Err(e) => {
            return Err(e);
        },
    };
    match parse_i32(s.as_str()) {
        Option::Some(v) => Ok(v),
        Option::None => Err(Error::Parse { path: String::from_str(path), content: s }),
    }
}

/// Writes raw text to a concrete location.
pub fn write_string(st: &mut Store, path: &str, value: &str) -> (r: Result<(), Error>)
    ensures
        match find_node(old(st)@.nodes, path@) {
            Option::None => r matches Err(Error::NotFound { path: p }) && p@ == path@ && final(st)@
                == old(st)@,
            Option::Some(n) => if n.writable {
                r is Ok && final(st)@ == spec_write(old(st)@, path@, value@)
            } else {
                r matches Err(Error::Io { path: p }) && p@ == path@ && final(st)@ == old(st)@
            },
        },
{
    match st.index_of(path) {
        Option::None => Err(Error::NotFound { path: String::from_str(path) }),
        Option::Some(i) => {
            if st.nodes[i].writable {
                st.set_at(i, path, value);
                Ok(())
            } else {
                Err(Error::Io { path: String::from_str(path) })
            }
        },
    }
}

/// Spec-level image of an attribute reference.
pub struct SysfsPathV {
    pub primary: Seq<char>,
    pub alternate: Option<Seq<char>>,
}

/// A reference to a backing attribute: a primary location and an optional
/// alternate used by other hardware revisions.
#[derive(Clone, Copy)]
pub struct SysfsPath {
    pub primary: &'static str,
    pub alternate: Option<&'static str>,
}

impl View for SysfsPath {
    type V = SysfsPathV;

    open spec fn view(&self) -> SysfsPathV {
        SysfsPathV {
            primary: self.primary@,
            alternate: match self.alternate {
                Option::Some(a) => Option::Some(a@),
                Option::None => Option::None,
            },
        }
    }
}

/// The location a reference currently resolves to: the primary if it exists,
/// else the alternate if present and existing, else none.
pub open spec fn spec_resolve(nodes: Seq<NodeV>, p: SysfsPathV) -> Option<Seq<char>> {
    if find_node(nodes, p.primary) is Some {
        Option::Some(p.primary)
    } else {
        match p.alternate {
            Option::Some(a) => if find_node(nodes, a) is Some {
                Option::Some(a)
            } else {
                Option::None
            },
            Option::None => Option::None,
        }
    }
}

/// Reading an integer through a reference: resolve, then read there.
pub open spec fn spec_path_read_int(nodes: Seq<NodeV>, p: SysfsPathV) -> IntRead {
    match spec_resolve(nodes, p) {
        Option::None => IntRead::Missing,
        Option::Some(loc) => spec_read_int(nodes, loc),
    }
}

/// The forgiving integer read: any failure is replaced by the caller's
/// default.
pub open spec fn spec_read_int_or(nodes: Seq<NodeV>, p: SysfsPathV, default: i32) -> i32 {
    match spec_path_read_int(nodes, p) {
        IntRead::Val(v) => v,
        _ => default,
    }
}

/// Resolution falls back to the alternate exactly when the primary location
/// is absent and the alternate is present; with neither, nothing resolves.
pub proof fn lemma_resolve_fallback(nodes: Seq<NodeV>, p: SysfsPathV)
    ensures
        find_node(nodes, p.primary) is Some ==> spec_resolve(nodes, p) == Option::Some(p.primary),
        (find_node(nodes, p.primary) is None && p.alternate is Some && find_node(
            nodes,
            p.alternate.unwrap(),
        ) is Some) ==> spec_resolve(nodes, p) == p.alternate,
        (find_node(nodes, p.primary) is None && (p.alternate is Some ==> find_node(
            nodes,
            p.alternate.unwrap(),
        ) is None)) ==> spec_resolve(nodes, p) is None,
{
}

impl SysfsPath {
    /// A reference with a single location.
    pub fn new(primary: &'static str) -> (p: SysfsPath)
        ensures
            p@ == (SysfsPathV { primary: primary@, alternate: Option::None }),
    {
        SysfsPath { primary, alternate: None }
    }

    /// A reference with a hardware-revision alternate location.
    pub fn with_alt(primary: &'static str, alternate: &'static str) -> (p: SysfsPath)
        ensures
            p@ == (SysfsPathV { primary: primary@, alternate: Option::Some(alternate@) }),
    {
        SysfsPath { primary, alternate: Some(alternate) }
    }

    /// The first location that currently exists, or none.  Resolution is
    /// recomputed on every call: existence can change between calls.
    pub fn resolve(&self, st: &Store) -> (r: Option<&'static str>)
        ensures
            match r {
                Option::Some(loc) => spec_resolve(st@.nodes, self@) == Option::Some(loc@),
                Option::None => spec_resolve(st@.nodes, self@) is None,
            },
    {
        if st.index_of(self.primary).is_some() {
            Some(self.primary)
        } else {
            match self.alternate {
                Some(a) => {
                    if st.index_of(a).is_some() {
                        Some(a)
                    } else {
                        None
                    }
                },
                None => None,
            }
        }
    }

    /// Whether some location of this reference currently exists.
    pub fn is_present(&self, st: &Store) -> (r: bool)
        ensures
            r == (spec_resolve(st@.nodes, self@) is Some),
    {
        self.resolve(st).is_some()
    }

    /// Reads the trimmed text behind the reference; `NotFound` names the
    /// primary location when nothing resolves.
    pub fn read_string(&self, st: &Store) -> (r: Result<String, Error>)
        ensures
            match spec_resolve(st@.nodes, self@) {
                Option::None => r matches Err(Error::NotFound { path: p }) && p@ == self@.primary,
                Option::Some(loc) => match spec_read_text(st@.nodes, loc) {
                    TextRead::Val(t) => r matches Ok(s) && s@ == t,
                    TextRead::Unreadable => r matches Err(Error::Io { path: p }) && p@ == loc,
                    TextRead::Missing => false,
                },
            },
    {
        match self.resolve(st) {
            None => Err(Error::NotFound { path: String::from_str(self.primary) }),
            Some(loc) => read_string(st, loc),
        }
    }

    /// Reads the integer behind the reference.
    pub fn read_int(&self, st: &Store) -> (r: Result<i32, Error>)
        ensures
            match spec_resolve(st@.nodes, self@) {
                Option::None => r matches Err(Error::NotFound { path: p }) && p@ == self@.primary,
                Option::Some(loc) => match spec_read_int(st@.nodes, loc) {
                    IntRead::Val(v) => r matches Ok(x) && x == v,
                    IntRead::Unreadable => r matches Err(Error::Io { path: p }) && p@ == loc,
                    IntRead::Unparsable(t) => r matches Err(Error::Parse { path: p, content: c })
                        && p@ == loc && c@ == t,
                    IntRead::Missing => false,
                },
            },
    {
        match self.resolve(st) {
            None => Err(Error::NotFound { path: String::from_str(self.primary) }),
            Some(loc) => read_int(st, loc),
        }
    }

    /// Writes raw text behind the reference; fails with `NotFound` when
    /// nothing resolves.
    pub fn write_string(&self, st: &mut Store, value: &str) -> (r: Result<(), Error>)
        ensures
            match spec_resolve(old(st)@.nodes, self@) {
                Option::None => r matches Err(Error::NotFound { path: p }) && p@ == self@.primary
                    && final(st)@ == old(st)@,
                Option::Some(loc) => match find_node(old(st)@.nodes, loc) {
                    Option::Some(n) => if n.writable {
                        r is Ok && final(st)@ == spec_write(old(st)@, loc, value@)
                    } else {
                        r matches Err(Error::Io { path: p }) && p@ == loc && final(st)@ == old(
                            st,
                        )@
                    },
                    Option::None => false,
                },
            },
    {
        match self.resolve(st) {
            None => Err(Error::NotFound { path: String::from_str(self.primary) }),
            Some(loc) => write_string(st, loc, value),
        }
    }

    /// Writes an integer behind the reference, formatted in canonical
    /// decimal.
    pub fn write_int(&self, st: &mut Store, value: i32) -> (r: Result<(), Error>)
        ensures
            match spec_resolve(old(st)@.nodes, self@) {
                Option::None => r matches Err(Error::NotFound { path: p }) && p@ == self@.primary
                    && final(st)@ == old(st)@,
                Option::Some(loc) => match find_node(old(st)@.nodes, loc) {
                    Option::Some(n) => if n.writable {
                        r is Ok && final(st)@ == spec_write(
                            old(st)@,
                            loc,
                            spec_fmt_i32(value as int),
                        )
                    } else {
                        r matches Err(Error::Io { path: p }) && p@ == loc && final(st)@ == old(
                            st,
                        )@
                    },
                    Option::None => false,
                },
            },
    {
        let text = fmt_i32(value);
        self.write_string(st, text.as_str())
    }

    /// Reads the integer behind the reference, substituting the default for
    /// any failure.
    pub fn read_int_or(&self, st: &Store, default: i32) -> (r: i32)
        ensures
            r == spec_read_int_or(st@.nodes, self@, default),
    {
        match self.read_int(st) {
            Ok(v) => v,
            Err(_) => default,
        }
    }
}

} // verus!
