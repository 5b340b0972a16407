//! Snapshot model of the backing attribute store: the set of scalar text
//! nodes that currently exist, each with its content and with whether reads
//! and writes on it succeed, plus an ordered log of the writes performed on
//! the snapshot.
//!
//! Nodes are looked up by path; when two nodes carry the same path the first
//! one shadows the rest, so no well-formedness condition is needed.

use vstd::prelude::*;

use crate::text::str_eq;

verus! {

/// Spec-level image of one attribute node.
pub struct NodeV {
    pub path: Seq<char>,
    pub readable: bool,
    pub writable: bool,
    pub content: Seq<char>,
}

/// One attribute node: its path, whether reads and writes on it currently
/// succeed, and its current raw text.
pub struct Node {
    pub path: String,
    pub readable: bool,
    pub writable: bool,
    pub content: String,
}

impl View for Node {
    type V = NodeV;

    open spec fn view(&self) -> NodeV {
        NodeV {
            path: self.path@,
            readable: self.readable,
            writable: self.writable,
            content: self.content@,
        }
    }
}

/// Spec-level image of one performed write.
pub struct LogV {
    pub path: Seq<char>,
    pub value: Seq<char>,
}

/// One performed write: the path it went to and the raw text written.
pub struct LogEntry {
    pub path: String,
    pub value: String,
}

impl View for LogEntry {
    type V = LogV;

    open spec fn view(&self) -> LogV {
        LogV { path: self.path@, value: self.value@ }
    }
}

/// Spec-level image of the whole snapshot.
pub struct StoreV {
    pub nodes: Seq<NodeV>,
    pub log: Seq<LogV>,
}

/// A snapshot of the backing attribute store.
pub struct Store {
    pub nodes: Vec<Node>,
    pub log: Vec<LogEntry>,
}

impl View for Store {
    type V = StoreV;

    open spec fn view(&self) -> StoreV {
        StoreV {
            nodes: Seq::new(self.nodes@.len(), |i: int| self.nodes@[i]@),
            log: Seq::new(self.log@.len(), |i: int| self.log@[i]@),
        }
    }
}

/// The first node carrying the given path, if any: existence of an attribute
/// is exactly this returning `Some`.
pub open spec fn find_node(nodes: Seq<NodeV>, path: Seq<char>) -> Option<NodeV>
    decreases nodes.len(),
{
    if nodes.len() == 0 {
        None
    } else if nodes[0].path == path {
        Some(nodes[0])
    } else {
        find_node(nodes.drop_first(), path)
    }
}

/// The node as it stands after a write replaces its content.
pub open spec fn node_written(n: NodeV, value: Seq<char>) -> NodeV {
    NodeV { path: n.path, readable: n.readable, writable: n.writable, content: value }
}

/// The node sequence after a write to the first node carrying `path`; the
/// sequence is unchanged when no node carries it.
pub open spec fn write_nodes(nodes: Seq<NodeV>, path: Seq<char>, value: Seq<char>) -> Seq<NodeV>
    decreases nodes.len(),
{
    if nodes.len() == 0 {
        nodes
    } else if nodes[0].path == path {
        nodes.update(0, node_written(nodes[0], value))
    } else {
        seq![nodes[0]] + write_nodes(nodes.drop_first(), path, value)
    }
}

/// Whether a write to `path` succeeds on this snapshot: the node exists and
/// accepts writes.
pub open spec fn write_ok(nodes: Seq<NodeV>, path: Seq<char>) -> bool {
    match find_node(nodes, path) {
        Some(n) => n.writable,
        None => false,
    }
}

/// The snapshot after a successful write: the node's content is replaced and
/// the write is appended to the log.
pub open spec fn spec_write(s: StoreV, path: Seq<char>, value: Seq<char>) -> StoreV {
    StoreV { nodes: write_nodes(s.nodes, path, value), log: s.log.push(LogV { path, value }) }
}

/// A write at the first index carrying the path is exactly `write_nodes`.
proof fn lemma_write_nodes_update(nodes: Seq<NodeV>, path: Seq<char>, value: Seq<char>, i: int)
    requires
        0 <= i < nodes.len(),
        nodes[i].path == path,
        forall|k: int| 0 <= k < i ==> nodes[k].path != path,
    ensures
        write_nodes(nodes, path, value) =~= nodes.update(i, node_written(nodes[i], value)),
    decreases i,
{
    if i == 0 {
    } else {
        lemma_write_nodes_update(nodes.drop_first(), path, value, i - 1);
        assert(write_nodes(nodes, path, value) == seq![nodes[0]] + write_nodes(
            nodes.drop_first(),
            path,
            value,
        ));
        assert(seq![nodes[0]] + nodes.drop_first().update(i - 1, node_written(nodes[i], value))
            =~= nodes.update(i, node_written(nodes[i], value)));
    }
}

/// How lookup reads through a write: the written path now carries the written
/// content, every other path is untouched, and no node appears or vanishes.
pub proof fn lemma_find_write_nodes(
    nodes: Seq<NodeV>,
    path: Seq<char>,
    value: Seq<char>,
    q: Seq<char>,
)
    ensures
        find_node(write_nodes(nodes, path, value), q) == (if q == path {
            match find_node(nodes, path) {
                Some(n) => Some(node_written(n, value)),
                None => None,
            }
        } else {
            find_node(nodes, q)
        }),
    decreases nodes.len(),
{
    if nodes.len() == 0 {
    } else if nodes[0].path == path {
        let w = nodes.update(0, node_written(nodes[0], value));
        assert(w[0] == node_written(nodes[0], value));
        if q != path {
            assert(w.drop_first() =~= nodes.drop_first());
        }
    } else {
        let w = seq![nodes[0]] + write_nodes(nodes.drop_first(), path, value);
        assert(write_nodes(nodes, path, value) == w);
        assert(w[0] == nodes[0]);
        assert(w.drop_first() =~= write_nodes(nodes.drop_first(), path, value));
        lemma_find_write_nodes(nodes.drop_first(), path, value, q);
    }
}

impl Store {
    /// An empty snapshot: no nodes, no writes performed.
    pub fn new() -> (s: Store)
        ensures
            s@.nodes =~= Seq::<NodeV>::empty(),
            s@.log =~= Seq::<LogV>::empty(),
    {
        Store { nodes: Vec::new(), log: Vec::new() }
    }

    /// Appends a node to the snapshot.
    pub fn add(&mut self, n: Node)
        ensures
            final(self)@.nodes =~= old(self)@.nodes.push(n@),
            final(self)@.log == old(self)@.log,
    {
        self.nodes.push(n);
        proof {
            assert(final(self)@.log =~= old(self)@.log);
        }
    }

    /// Index of the first node carrying the path, the node lookup returns.
    pub(crate) fn index_of(&self, path: &str) -> (r: Option<usize>)
        ensures
            match r {
                Some(i) => i < self@.nodes.len() && self@.nodes[i as int].path == path@
                    && find_node(self@.nodes, path@) == Some(self@.nodes[i as int]) && (forall|
                    k: int,
                |
                    0 <= k < i ==> self@.nodes[k].path != path@),
                None => find_node(self@.nodes, path@) is None,
            },
    {
        let ghost all = self@.nodes;
        let n = self.nodes.len();
        let mut j: usize = 0;
        proof {
            assert(all.skip(0) =~= all);
        }
        while j < n
            invariant
                j <= n,
                n == all.len(),
                all == self@.nodes,
                find_node(all, path@) == find_node(all.skip(j as int), path@),
                forall|k: int| 0 <= k < j ==> all[k].path != path@,
            decreases n - j,
        {
            if str_eq(self.nodes[j].path.as_str(), path) {
                proof {
                    assert(all.skip(j as int)[0] == all[j as int]);
                }
                return Some(j);
            }
            proof {
                assert(all.skip(j as int)[0] == all[j as int]);
                assert(all.skip(j as int).drop_first() =~= all.skip(j as int + 1));
            }
            j = j + 1;
        }
        proof {
            assert(all.skip(n as int) =~= Seq::<NodeV>::empty());
        }
        None
    }

    /// Performs the write at a located node: replaces its content and logs
    /// the write.
    pub(crate) fn set_at(&mut self, i: usize, path: &str, value: &str)
        requires
            i < old(self)@.nodes.len(),
            old(self)@.nodes[i as int].path == path@,
            forall|k: int| 0 <= k < i ==> old(self)@.nodes[k].path != path@,
        ensures
            final(self)@ == spec_write(old(self)@, path@, value@),
    {
        let updated = Node {
            path: self.nodes[i].path.clone(),
            readable: self.nodes[i].readable,
            writable: self.nodes[i].writable,
            content: String::from_str(value),
        };
        self.nodes.set(i, updated);
        self.log.push(LogEntry { path: String::from_str(path), value: String::from_str(value) });
        proof {
            lemma_write_nodes_update(old(self)@.nodes, path@, value@, i as int);
            assert(self@.nodes =~= old(self)@.nodes.update(
                i as int,
                node_written(old(self)@.nodes[i as int], value@),
            ));
            assert(self@.log =~= old(self)@.log.push(LogV { path: path@, value: value@ }));
        }
    }
}

impl Node {
    /// A node that exists and accepts both reads and writes.
    pub fn present(path: &str, content: &str) -> (n: Node)
        ensures
            n@ == (NodeV { path: path@, readable: true, writable: true, content: content@ }),
    {
        Node {
            path: String::from_str(path),
            readable: true,
            writable: true,
            content: String::from_str(content),
        }
    }

    /// A node that exists but fails every read, as a node with unreadable
    /// content does.
    pub fn unreadable(path: &str) -> (n: Node)
        ensures
            n@ == (NodeV { path: path@, readable: false, writable: true, content: ""@ }),
    {
        Node {
            path: String::from_str(path),
            readable: false,
            writable: true,
            content: String::from_str(""),
        }
    }

    /// A node that exists and reads fine but rejects every write.
    pub fn read_only(path: &str, content: &str) -> (n: Node)
        ensures
            n@ == (NodeV { path: path@, readable: true, writable: false, content: content@ }),
    {
        Node {
            path: String::from_str(path),
            readable: true,
            writable: false,
            content: String::from_str(content),
        }
    }
}

} // verus!
