//! Parsing of the health statistics blob: a multi-line text where each line
//! is an algorithm identifier, a colon, and comma-or-whitespace-separated
//! integers.  The first line whose identifier matches the requested algorithm
//! decides; it must carry at least ten numeric fields, which map positionally
//! onto the named statistics.  A missing or malformed blob degrades to no
//! record, never to an error.

use vstd::prelude::*;

use crate::text::{is_space, is_space_char, parse_i32, spec_parse_i32, spec_trim, trim};

verus! {

/// The named health statistics record.
#[allow(non_snake_case)]
#[derive(Clone, Copy, PartialEq, Eq, Structural, Debug)]
pub struct HealthStats {
    pub algo: i32,
    pub healthIndex: i32,
    pub capacityFcc: i32,
    pub capacityRaw: i32,
    pub capacityDesign: i32,
    pub impedanceRaw: i32,
    pub impedanceAvg: i32,
    pub impedanceDesign: i32,
    pub cycleCount: i32,
    pub cycleCountDesign: i32,
    pub tempBucket: i32,
}

impl HealthStats {
    /// The all-default record returned when no usable line matches.
    pub fn empty() -> (r: HealthStats)
        ensures
            r == spec_empty_stats(),
    {
        HealthStats {
            algo: 0,
            healthIndex: 0,
            capacityFcc: 0,
            capacityRaw: 0,
            capacityDesign: 0,
            impedanceRaw: 0,
            impedanceAvg: 0,
            impedanceDesign: 0,
            cycleCount: 0,
            cycleCountDesign: 0,
            tempBucket: 0,
        }
    }
}

pub open spec fn spec_empty_stats() -> HealthStats {
    HealthStats {
        algo: 0,
        healthIndex: 0,
        capacityFcc: 0,
        capacityRaw: 0,
        capacityDesign: 0,
        impedanceRaw: 0,
        impedanceAvg: 0,
        impedanceDesign: 0,
        cycleCount: 0,
        cycleCountDesign: 0,
        tempBucket: 0,
    }
}

/// The views of a sequence of owned strings.
pub open spec fn strings_view(v: Seq<String>) -> Seq<Seq<char>> {
    Seq::new(v.len(), |i: int| v[i]@)
}

/// One trailing carriage return is stripped from a newline-terminated line.
pub open spec fn strip_tail_cr(l: Seq<char>) -> Seq<char> {
    if l.len() > 0 && l.last() == '\r' {
        l.drop_last()
    } else {
        l
    }
}

/// Splitting into lines, the way the text is iterated: lines end at a
/// newline, a carriage return before the newline is stripped, and a final
/// unterminated line is kept as it stands.  `cur` is the part of the current
/// line already seen.
pub open spec fn lines_from(s: Seq<char>, cur: Seq<char>) -> Seq<Seq<char>>
    decreases s.len(),
{
    if s.len() == 0 {
        if cur.len() == 0 {
            Seq::empty()
        } else {
            seq![cur]
        }
    } else if s[0] == '\n' {
        seq![strip_tail_cr(cur)] + lines_from(s.drop_first(), Seq::empty())
    } else {
        lines_from(s.drop_first(), cur.push(s[0]))
    }
}

pub open spec fn spec_lines(s: Seq<char>) -> Seq<Seq<char>> {
    lines_from(s, Seq::empty())
}

/// A field separator within a line: a comma or whitespace.
pub open spec fn is_sep(c: char) -> bool {
    c == ',' || is_space(c)
}

/// What one completed token contributes: its integer value, or nothing when
/// it is empty or not numeric — such tokens are skipped, not errors.
pub open spec fn close_token(cur: Seq<char>) -> Seq<i32> {
    match spec_parse_i32(cur) {
        Option::Some(v) => seq![v],
        Option::None => Seq::empty(),
    }
}

/// The numeric fields of a line tail: maximal separator-free runs, each
/// parsed as an integer, non-numeric runs skipped.
pub open spec fn fields_from(s: Seq<char>, cur: Seq<char>) -> Seq<i32>
    decreases s.len(),
{
    if s.len() == 0 {
        close_token(cur)
    } else if is_sep(s[0]) {
        close_token(cur) + fields_from(s.drop_first(), Seq::empty())
    } else {
        fields_from(s.drop_first(), cur.push(s[0]))
    }
}

pub open spec fn spec_fields(s: Seq<char>) -> Seq<i32> {
    fields_from(s, Seq::empty())
}

/// The first position of a character, or -1.
pub open spec fn first_index(s: Seq<char>, c: char) -> int
    decreases s.len(),
{
    if s.len() == 0 {
        -1
    } else if s[0] == c {
        0
    } else {
        let r = first_index(s.drop_first(), c);
        if r < 0 {
            -1
        } else {
            r + 1
        }
    }
}

proof fn lemma_first_index_at(s: Seq<char>, c: char, j: int)
    requires
        0 <= j <= s.len(),
        forall|k: int| 0 <= k < j ==> s[k] != c,
        j == s.len() || s[j] == c,
    ensures
        first_index(s, c) == (if j == s.len() {
            -1int
        } else {
            j
        }),
    decreases s.len(),
{
    if s.len() == 0 {
    } else if s[0] == c {
    } else {
        lemma_first_index_at(s.drop_first(), c, j - 1);
    }
}

/// What one line says for a requested algorithm: malformed (no colon, or an
/// identifier that is not an integer — the whole scan then yields nothing),
/// not this algorithm, or a match with its parsed fields.
pub enum LineScan {
    Malformed,
    NoMatch,
    Match(Seq<i32>),
}

pub open spec fn scan_line(line: Seq<char>, algo: i32) -> LineScan {
    let i = first_index(line, ':');
    if i < 0 {
        LineScan::Malformed
    } else {
        match spec_parse_i32(spec_trim(line.take(i))) {
            Option::None => LineScan::Malformed,
            Option::Some(a) => if a == algo {
                LineScan::Match(spec_fields(line.skip(i + 1)))
            } else {
                LineScan::NoMatch
            },
        }
    }
}

/// The first matching line decides: its fields when it carries at least ten,
/// nothing otherwise; a malformed line aborts the scan.
pub open spec fn scan_lines(ls: Seq<Seq<char>>, algo: i32) -> Option<Seq<i32>>
    decreases ls.len(),
{
    if ls.len() == 0 {
        Option::None
    } else {
        match scan_line(ls[0], algo) {
            LineScan::Malformed => Option::None,
            LineScan::NoMatch => scan_lines(ls.drop_first(), algo),
            LineScan::Match(v) => if v.len() >= 10 {
                Option::Some(v)
            } else {
                Option::None
            },
        }
    }
}

/// The record the blob yields for an algorithm, if any.
pub open spec fn spec_health_stats(content: Seq<char>, algo: i32) -> Option<HealthStats> {
    match scan_lines(spec_lines(content), algo) {
        Option::Some(v) => Option::Some(
            HealthStats {
                algo,
                healthIndex: v[0],
                capacityFcc: v[1],
                capacityRaw: v[2],
                capacityDesign: v[3],
                impedanceRaw: v[4],
                impedanceAvg: v[5],
                impedanceDesign: v[6],
                cycleCount: v[7],
                cycleCountDesign: v[8],
                tempBucket: v[9],
            },
        ),
        Option::None => Option::None,
    }
}

/// Splits text into lines as the blob is iterated.
pub fn split_lines(s: &str) -> (r: Vec<String>)
    ensures
        strings_view(r@) == spec_lines(s@),
{
    let n = s.unicode_len();
    let mut out: Vec<String> = Vec::new();
    let mut start: usize = 0;
    let mut k: usize = 0;
    proof {
        assert(s@.skip(0) =~= s@);
        assert(s@.subrange(0, 0) =~= Seq::<char>::empty());
    }
    while k < n
        invariant
            start <= k <= n,
            n == s@.len(),
            spec_lines(s@) == strings_view(out@) + lines_from(
                s@.skip(k as int),
                s@.subrange(start as int, k as int),
            ),
        decreases n - k,
    {
        let c = s.get_char(k);
        proof {
            assert(s@.skip(k as int)[0] == s@[k as int]);
            assert(s@.skip(k as int).drop_first() =~= s@.skip(k as int + 1));
        }
        if c == '\n' {
            let line_end: usize = if k > start && s.get_char(k - 1) == '\r' {
                k - 1
            } else {
                k
            };
            proof {
                assert(strip_tail_cr(s@.subrange(start as int, k as int)) =~= s@.subrange(
                    start as int,
                    line_end as int,
                ));
            }
            out.push(String::from_str(s.substring_char(start, line_end)));
            proof {
                assert(strings_view(out@) =~= strings_view(out@.drop_last()).push(
                    out@.last()@,
                ));
                assert(strings_view(out@.drop_last()).push(out@.last()@) + lines_from(
                    s@.skip(k as int + 1),
                    Seq::<char>::empty(),
                ) =~= strings_view(out@.drop_last()) + (seq![
                    strip_tail_cr(s@.subrange(start as int, k as int)),
                ] + lines_from(s@.skip(k as int + 1), Seq::<char>::empty())));
            }
            start = k + 1;
            proof {
                assert(s@.subrange(start as int, start as int) =~= Seq::<char>::empty());
            }
        } else {
            proof {
                assert(s@.subrange(start as int, k as int).push(s@[k as int]) =~= s@.subrange(
                    start as int,
                    k as int + 1,
                ));
            }
        }
        k = k + 1;
    }
    if start < n {
        proof {
            assert(s@.skip(n as int) =~= Seq::<char>::empty());
        }
        out.push(String::from_str(s.substring_char(start, n)));
        proof {
            assert(strings_view(out@) =~= strings_view(out@.drop_last()).push(out@.last()@));
            assert(strings_view(out@.drop_last()).push(out@.last()@) =~= strings_view(
                out@.drop_last(),
            ) + seq![s@.subrange(start as int, n as int)]);
        }
    } else {
        proof {
            assert(s@.skip(n as int) =~= Seq::<char>::empty());
            assert(s@.subrange(start as int, n as int) =~= Seq::<char>::empty());
            assert(strings_view(out@) + Seq::<Seq<char>>::empty() =~= strings_view(out@));
        }
    }
    out
}

/// Exec mirror of [`is_sep`].
fn is_sep_char(c: char) -> (r: bool)
    ensures
        r == is_sep(c),
{
    c == ',' || is_space_char(c)
}

/// The numeric fields of a line tail.
pub fn fields(s: &str) -> (r: Vec<i32>)
    ensures
        r@ == spec_fields(s@),
{
    let n = s.unicode_len();
    let mut out: Vec<i32> = Vec::new();
    let mut start: usize = 0;
    let mut k: usize = 0;
    proof {
        assert(s@.skip(0) =~= s@);
        assert(s@.subrange(0, 0) =~= Seq::<char>::empty());
    }
    while k < n
        invariant
            start <= k <= n,
            n == s@.len(),
            spec_fields(s@) == out@ + fields_from(
                s@.skip(k as int),
                s@.subrange(start as int, k as int),
            ),
        decreases n - k,
    {
        let c = s.get_char(k);
        proof {
            assert(s@.skip(k as int)[0] == s@[k as int]);
            assert(s@.skip(k as int).drop_first() =~= s@.skip(k as int + 1));
        }
        if is_sep_char(c) {
            match parse_i32(s.substring_char(start, k)) {
                Option::Some(v) => {
                    out.push(v);
                    proof {
                        assert(out@.drop_last() + (close_token(
                            s@.subrange(start as int, k as int),
                        ) + fields_from(s@.skip(k as int + 1), Seq::<char>::empty())) =~= out@
                            + fields_from(s@.skip(k as int + 1), Seq::<char>::empty()));
                    }
                },
                Option::None => {
                    proof {
                        assert(out@ + (close_token(s@.subrange(start as int, k as int))
                            + fields_from(s@.skip(k as int + 1), Seq::<char>::empty())) =~= out@
                            + fields_from(s@.skip(k as int + 1), Seq::<char>::empty()));
                    }
                },
            }
            start = k + 1;
            proof {
                assert(s@.subrange(start as int, start as int) =~= Seq::<char>::empty());
            }
        } else {
            proof {
                assert(s@.subrange(start as int, k as int).push(s@[k as int]) =~= s@.subrange(
                    start as int,
                    k as int + 1,
                ));
            }
        }
        k = k + 1;
    }
    proof {
        assert(s@.skip(n as int) =~= Seq::<char>::empty());
    }
    match parse_i32(s.substring_char(start, n)) {
        Option::Some(v) => {
            out.push(v);
            proof {
                assert(out@.drop_last() + close_token(s@.subrange(start as int, n as int))
                    =~= out@);
            }
        },
        Option::None => {
            proof {
                assert(out@ + close_token(s@.subrange(start as int, n as int)) =~= out@);
            }
        },
    }
    out
}

/// The position of the first colon of a line, if any.
fn find_colon(s: &str) -> (r: Option<usize>)
    ensures
        match r {
            Option::Some(j) => j < s@.len() && first_index(s@, ':') == j,
            Option::None => first_index(s@, ':') == -1,
        },
{
    let n = s.unicode_len();
    let mut k: usize = 0;
    while k < n
        invariant
            k <= n,
            n == s@.len(),
            forall|i: int| 0 <= i < k ==> s@[i] != ':',
        decreases n - k,
    {
        if s.get_char(k) == ':' {
            proof {
                lemma_first_index_at(s@, ':', k as int);
            }
            return Some(k);
        }
        k = k + 1;
    }
    proof {
        lemma_first_index_at(s@, ':', n as int);
    }
    None
}

/// Parses the health statistics blob for the requested algorithm code.
pub fn parse_health_stats(content: &str, algo: i32) -> (r: Option<HealthStats>)
    ensures
        r == spec_health_stats(content@, algo),
{
    let lines = split_lines(content);
    let ghost ls = spec_lines(content@);
    let n = lines.len();
    let mut idx: usize = 0;
    proof {
        assert(ls.skip(0) =~= ls);
    }
    while idx < n
        invariant
            idx <= n,
            n == ls.len(),
            ls == spec_lines(content@),
            strings_view(lines@) == ls,
            scan_lines(ls, algo) == scan_lines(ls.skip(idx as int), algo),
        decreases n - idx,
    {
        let line = &lines[idx];
        proof {
            assert(ls.skip(idx as int)[0] == ls[idx as int]);
            assert(ls[idx as int] == line@);
            assert(ls.skip(idx as int).drop_first() =~= ls.skip(idx as int + 1));
        }
        let j = match find_colon(line.as_str()) {
            Option::None => {
                proof {
                    assert(scan_line(line@, algo) is Malformed);
                    assert(scan_lines(ls.skip(idx as int), algo) is None);
                }
                return None;
            },
            Option::Some(j) => j,
        };
        proof {
            assert(line@.subrange(0, j as int) =~= line@.take(j as int));
        }
        let head = trim(line.as_str().substring_char(0, j));
        let a = match parse_i32(head.as_str()) {
            Option::None => {
                proof {
                    assert(scan_line(line@, algo) is Malformed);
                    assert(scan_lines(ls.skip(idx as int), algo) is None);
                }
                return None;
            },
            Option::Some(a) => a,
        };
        if a == algo {
            let line_len = line.as_str().unicode_len();
            proof {
                assert(line@.subrange(j as int + 1, line@.len() as int) =~= line@.skip(
                    j as int + 1,
                ));
            }
            let v = fields(line.as_str().substring_char(j + 1, line_len));
            proof {
                assert(scan_line(line@, algo) == LineScan::Match(v@));
            }
            if v.len() >= 10 {
                return Some(
                    HealthStats {
                        algo,
                        healthIndex: v[0],
                        capacityFcc: v[1],
                        capacityRaw: v[2],
                        capacityDesign: v[3],
                        impedanceRaw: v[4],
                        impedanceAvg: v[5],
                        impedanceDesign: v[6],
                        cycleCount: v[7],
                        cycleCountDesign: v[8],
                        tempBucket: v[9],
                    },
                );
            } else {
                return None;
            }
        }
        idx = idx + 1;
    }
    proof {
        assert(ls.skip(n as int) =~= Seq::<Seq<char>>::empty());
    }
    None
}

} // verus!
