//! The files and directories of a wiki as a tree, in the order in which they are shown.
//!
//! The entries of a directory are shown with the directories first and, among directories
//! and among files, by name; names are ordered as their UTF-8 bytes are. Entries that this
//! order does not tell apart stay in the order in which they came.

use vstd::prelude::*;
use vstd::seq_lib::to_multiset_build;
use vstd::string::*;
use vstd::utf8::encode_utf8;

verus! {

/// A file or a directory below a wiki.
#[derive(Debug)]
pub struct FileNode {
    /// The entry's name.
    pub name: String,
    /// Whether the entry is a directory.
    pub is_directory: bool,
    /// The entry's path.
    pub path: String,
    /// The entries of a directory, in the order in which they are shown; `None` for a file.
    pub children: Option<Vec<FileNode>>,
}

/// Whether `a` stands before `b` in the order of byte strings: at the first place where
/// they differ `a` has the smaller byte, or `a` ends there and `b` does not.
pub open spec fn bytes_before(a: Seq<u8>, b: Seq<u8>) -> bool
    decreases a.len(),
{
    if b.len() == 0 {
        false
    } else if a.len() == 0 {
        true
    } else if a[0] != b[0] {
        a[0] < b[0]
    } else {
        bytes_before(a.drop_first(), b.drop_first())
    }
}

/// The bytes by which a node's name is ordered.
pub open spec fn name_bytes(node: FileNode) -> Seq<u8> {
    encode_utf8(node.name@)
}

/// Whether `a` is shown before `b`: a directory before a file, and of two directories or
/// two files the one whose name stands before the other's.
pub open spec fn node_before(a: FileNode, b: FileNode) -> bool {
    if a.is_directory != b.is_directory {
        a.is_directory
    } else {
        bytes_before(name_bytes(a), name_bytes(b))
    }
}

/// `sorted` with `node` put in: behind every node that it is not shown before, as far
/// back as that allows.
pub open spec fn inserted(sorted: Seq<FileNode>, node: FileNode) -> Seq<FileNode>
    decreases sorted.len(),
{
    if sorted.len() == 0 {
        seq![node]
    } else if node_before(node, sorted.last()) {
        inserted(sorted.drop_last(), node).push(sorted.last())
    } else {
        sorted.push(node)
    }
}

/// `nodes` in the order in which they are shown: each put in among those that came
/// before it.
pub open spec fn arranged(nodes: Seq<FileNode>) -> Seq<FileNode>
    decreases nodes.len(),
{
    if nodes.len() == 0 {
        nodes
    } else {
        inserted(arranged(nodes.drop_last()), nodes.last())
    }
}

/// Whether no node of `nodes` is shown before one that stands before it.
pub open spec fn in_order(nodes: Seq<FileNode>) -> bool {
    forall|i: int, j: int| 0 <= i < j < nodes.len() ==> !node_before(nodes[j], nodes[i])
}

/// Byte strings that agree up to a place are ordered as what follows that place.
proof fn lemma_skip_common(a: Seq<u8>, b: Seq<u8>, i: int)
    requires
        0 <= i <= a.len(),
        i <= b.len(),
        forall|k: int| 0 <= k < i ==> a[k] == b[k],
    ensures
        bytes_before(a, b) == bytes_before(
            a.subrange(i, a.len() as int),
            b.subrange(i, b.len() as int),
        ),
    decreases i,
{
    if i == 0 {
        assert(a.subrange(0, a.len() as int) =~= a);
        assert(b.subrange(0, b.len() as int) =~= b);
    } else {
        assert(a[0] == b[0]);
        let a1 = a.drop_first();
        let b1 = b.drop_first();
        assert forall|k: int| 0 <= k < i - 1 implies a1[k] == b1[k] by {
            assert(a1[k] == a[k + 1]);
            assert(b1[k] == b[k + 1]);
        }
        lemma_skip_common(a1, b1, i - 1);
        assert(a1.subrange(i - 1, a1.len() as int) =~= a.subrange(i, a.len() as int));
        assert(b1.subrange(i - 1, b1.len() as int) =~= b.subrange(i, b.len() as int));
    }
}

/// Of two byte strings at most one stands before the other.
proof fn lemma_bytes_one_way(a: Seq<u8>, b: Seq<u8>)
    ensures
        !(bytes_before(a, b) && bytes_before(b, a)),
    decreases a.len(),
{
    if a.len() > 0 && b.len() > 0 && a[0] == b[0] {
        lemma_bytes_one_way(a.drop_first(), b.drop_first());
    }
}

/// "Does not stand before" carries over: where `a` does not stand before `b`, nor `b`
/// before `c`, `a` does not stand before `c`.
proof fn lemma_bytes_not_before(a: Seq<u8>, b: Seq<u8>, c: Seq<u8>)
    requires
        !bytes_before(a, b),
        !bytes_before(b, c),
    ensures
        !bytes_before(a, c),
    decreases a.len(),
{
    if c.len() > 0 {
        assert(b.len() > 0);
        assert(a.len() > 0);
        if a[0] == c[0] {
            assert(a[0] == b[0]);
            lemma_bytes_not_before(a.drop_first(), b.drop_first(), c.drop_first());
        }
    }
}

/// Of two nodes at most one is shown before the other.
pub proof fn lemma_node_one_way(a: FileNode, b: FileNode)
    ensures
        !(node_before(a, b) && node_before(b, a)),
{
    lemma_bytes_one_way(name_bytes(a), name_bytes(b));
}

/// Where `a` is not shown before `b`, nor `b` before `c`, `a` is not shown before `c`.
pub proof fn lemma_node_not_before(a: FileNode, b: FileNode, c: FileNode)
    requires
        !node_before(a, b),
        !node_before(b, c),
    ensures
        !node_before(a, c),
{
    if a.is_directory == b.is_directory && b.is_directory == c.is_directory {
        lemma_bytes_not_before(name_bytes(a), name_bytes(b), name_bytes(c));
    }
}

/// Where `node` goes in at place `at`: it is shown before every node from there on, and
/// not before the node right before that place.
proof fn lemma_inserted_at(sorted: Seq<FileNode>, node: FileNode, at: int)
    requires
        0 <= at <= sorted.len(),
        forall|k: int| at <= k < sorted.len() ==> node_before(node, #[trigger] sorted[k]),
        at == 0 || !node_before(node, sorted[at - 1]),
    ensures
        inserted(sorted, node) == sorted.insert(at, node),
    decreases sorted.len(),
{
    if sorted.len() == 0 {
        assert(sorted.insert(at, node) =~= seq![node]);
    } else if at == sorted.len() {
        assert(sorted.insert(at, node) =~= sorted.push(node));
    } else {
        let shorter = sorted.drop_last();
        assert(node_before(node, sorted[sorted.len() - 1]));
        assert forall|k: int| at <= k < shorter.len() implies node_before(
            node,
            #[trigger] shorter[k],
        ) by {
            assert(shorter[k] == sorted[k]);
        }
        lemma_inserted_at(shorter, node, at);
        assert(shorter.insert(at, node).push(sorted.last()) =~= sorted.insert(at, node));
    }
}

/// Putting a node in among nodes that are in order leaves them in order.
proof fn lemma_inserted_in_order(sorted: Seq<FileNode>, node: FileNode)
    requires
        in_order(sorted),
    ensures
        in_order(inserted(sorted, node)),
        inserted(sorted, node).len() == sorted.len() + 1,
        inserted(sorted, node).to_multiset() == sorted.to_multiset().insert(node),
        forall|k: int|
            0 <= k < inserted(sorted, node).len() ==> #[trigger] inserted(sorted, node)[k] == node
                || sorted.contains(inserted(sorted, node)[k]),
    decreases sorted.len(),
{
    let result = inserted(sorted, node);
    if sorted.len() == 0 {
        to_multiset_build(sorted, node);
        assert(sorted.push(node) =~= seq![node]);
    } else if node_before(node, sorted.last()) {
        let shorter = sorted.drop_last();
        let last = sorted.last();
        assert(sorted =~= shorter.push(last));
        assert(in_order(shorter)) by {
            assert forall|i: int, j: int| 0 <= i < j < shorter.len() implies !node_before(
                shorter[j],
                shorter[i],
            ) by {
                assert(shorter[i] == sorted[i] && shorter[j] == sorted[j]);
            }
        }
        lemma_inserted_in_order(shorter, node);
        let inner = inserted(shorter, node);
        to_multiset_build(inner, last);
        to_multiset_build(shorter, last);
        assert(result.to_multiset() =~= sorted.to_multiset().insert(node));
        assert forall|k: int| 0 <= k < result.len() implies #[trigger] result[k] == node
            || sorted.contains(result[k]) by {
            if k < inner.len() {
                assert(result[k] == inner[k]);
                if inner[k] != node {
                    assert(shorter.contains(inner[k]));
                    let w = choose|w: int| 0 <= w < shorter.len() && shorter[w] == inner[k];
                    assert(sorted[w] == inner[k]);
                }
            } else {
                assert(result[k] == sorted[sorted.len() - 1]);
            }
        }
        assert forall|i: int, j: int| 0 <= i < j < result.len() implies !node_before(
            result[j],
            result[i],
        ) by {
            if j < inner.len() {
                assert(result[i] == inner[i] && result[j] == inner[j]);
            } else {
                assert(result[j] == last);
                assert(result[i] == inner[i]);
                if inner[i] == node {
                    lemma_node_one_way(node, last);
                } else {
                    assert(shorter.contains(inner[i]));
                    let w = choose|w: int| 0 <= w < shorter.len() && shorter[w] == inner[i];
                    assert(sorted[w] == inner[i]);
                    assert(!node_before(sorted[sorted.len() - 1], sorted[w]));
                }
            }
        }
    } else {
        to_multiset_build(sorted, node);
        assert forall|k: int| 0 <= k < result.len() implies #[trigger] result[k] == node
            || sorted.contains(result[k]) by {
            if k < sorted.len() {
                assert(result[k] == sorted[k]);
            }
        }
        assert forall|i: int, j: int| 0 <= i < j < result.len() implies !node_before(
            result[j],
            result[i],
        ) by {
            if j < sorted.len() {
                assert(result[i] == sorted[i] && result[j] == sorted[j]);
            } else {
                assert(result[j] == node);
                assert(result[i] == sorted[i]);
                if i < sorted.len() - 1 {
                    assert(!node_before(sorted[sorted.len() - 1], sorted[i]));
                    lemma_node_not_before(node, sorted.last(), sorted[i]);
                }
            }
        }
    }
}

/// The order in which nodes are shown holds the nodes that came, each as often as it came,
/// and no node in it is shown before one that stands before it.
pub proof fn law_arranged(nodes: Seq<FileNode>)
    ensures
        arranged(nodes).len() == nodes.len(),
        arranged(nodes).to_multiset() == nodes.to_multiset(),
        in_order(arranged(nodes)),
    decreases nodes.len(),
{
    if nodes.len() == 0 {
    } else {
        let shorter = nodes.drop_last();
        law_arranged(shorter);
        lemma_inserted_in_order(arranged(shorter), nodes.last());
        to_multiset_build(shorter, nodes.last());
        assert(nodes =~= shorter.push(nodes.last()));
    }
}

/// Nodes that are in order already are shown as they came.
pub proof fn law_arranged_keeps_order(nodes: Seq<FileNode>)
    requires
        in_order(nodes),
    ensures
        arranged(nodes) == nodes,
    decreases nodes.len(),
{
    if nodes.len() == 0 {
    } else {
        let shorter = nodes.drop_last();
        assert forall|i: int, j: int| 0 <= i < j < shorter.len() implies !node_before(
            shorter[j],
            shorter[i],
        ) by {
            assert(shorter[i] == nodes[i] && shorter[j] == nodes[j]);
        }
        law_arranged_keeps_order(shorter);
        if shorter.len() > 0 {
            assert(shorter.last() == nodes[nodes.len() - 2]);
            assert(!node_before(nodes[nodes.len() - 1], nodes[nodes.len() - 2]));
        }
        assert(shorter.push(nodes.last()) =~= nodes);
    }
}

/// Whether `a` stands before `b` in the order of byte strings.
pub fn bytes_less(a: &[u8], b: &[u8]) -> (r: bool)
    ensures
        r == bytes_before(a@, b@),
{
    let mut i: usize = 0;
    while i < a.len() && i < b.len()
        invariant
            i <= a.len(),
            i <= b.len(),
            forall|k: int| 0 <= k < i ==> a@[k] == b@[k],
        decreases a.len() - i,
    {
        if a[i] != b[i] {
            proof {
                lemma_skip_common(a@, b@, i as int);
            }
            return a[i] < b[i];
        }
        i = i + 1;
    }
    proof {
        lemma_skip_common(a@, b@, i as int);
    }
    i < b.len()
}

impl FileNode {
    /// Whether `self` is shown before `other`.
    pub fn comes_before(&self, other: &FileNode) -> (r: bool)
        ensures
            r == node_before(*self, *other),
    {
        if self.is_directory != other.is_directory {
            self.is_directory
        } else {
            bytes_less(self.name.as_str().as_bytes(), other.name.as_str().as_bytes())
        }
    }

    /// The node of a file.
    pub fn file(name: String, path: String) -> (r: FileNode)
        ensures
            r == (FileNode { name, is_directory: false, path, children: None }),
    {
        FileNode { name, is_directory: false, path, children: None }
    }

    /// The node of a directory that holds `children`, which it shows in their order.
    pub fn directory(name: String, path: String, children: Vec<FileNode>) -> (r: FileNode)
        ensures
            r.name == name,
            r.is_directory,
            r.path == path,
            r.children matches Some(shown) && shown@ == arranged(children@),
    {
        let mut rest = children;
        let mut shown: Vec<FileNode> = Vec::new();
        let ghost mut done: int = 0;
        while rest.len() > 0
            invariant
                0 <= done <= children@.len(),
                rest@ == children@.subrange(done, children@.len() as int),
                shown@ == arranged(children@.subrange(0, done)),
            decreases rest.len(),
        {
            let node = rest.remove(0);
            proof {
                let upto = children@.subrange(0, done + 1);
                assert(node == children@[done]);
                assert(upto.drop_last() =~= children@.subrange(0, done));
                assert(upto.last() == node);
                assert(rest@ =~= children@.subrange(done + 1, children@.len() as int));
            }
            put_in(&mut shown, node);
            proof {
                done = done + 1;
            }
        }
        assert(children@.subrange(0, done) =~= children@);
        FileNode { name, is_directory: true, path, children: Some(shown) }
    }
}

/// Puts `node` in among `sorted`.
fn put_in(sorted: &mut Vec<FileNode>, node: FileNode)
    ensures
        final(sorted)@ == inserted(old(sorted)@, node),
{
    let mut at: usize = sorted.len();
    while at > 0 && node.comes_before(&sorted[at - 1])
        invariant
            at <= sorted.len(),
            sorted@ == old(sorted)@,
            forall|k: int| at <= k < sorted.len() ==> node_before(node, #[trigger] sorted@[k]),
        decreases at,
    {
        at = at - 1;
    }
    proof {
        lemma_inserted_at(sorted@, node, at as int);
    }
    sorted.insert(at, node);
}

} // verus!
