use vstd::prelude::*;
use std::path::PathBuf;

verus! {

#[verifier::external_type_specification]
#[verifier::external_body]
pub struct ExPathBuf(PathBuf);

/// Whether a relative path names a directory: the root (empty) or a path ending in `/`.
pub open spec fn is_dir_path(p: Seq<char>) -> bool {
    p.len() == 0 || p.last() == '/'
}

#[derive(Debug)]
/// A tree of the notable files and directories of a project.
///
/// The root has the empty relative path; every directory's relative path ends
/// with `/`, and a file has no children.
pub struct FileSystemTree {
    relative_path: String,
    absolute_path: PathBuf,
    children: Vec<FileSystemTree>,
}

impl FileSystemTree {
    /// The relative path of this node.
    pub closed spec fn rel(self) -> Seq<char> {
        self.relative_path@
    }

    /// The absolute path of this node.
    pub closed spec fn abs(self) -> PathBuf {
        self.absolute_path
    }

    /// The direct children of this node, in the order they were given.
    pub closed spec fn kids(self) -> Seq<FileSystemTree> {
        self.children@
    }

    /// Every node of the tree below this one, in pre-order.
    pub open spec fn descendants(self) -> Seq<FileSystemTree> {
        forest_preorder(self.kids())
    }

    /// This node and every node below it obey the node rule; every tree
    /// keeps it.
    #[verifier::type_invariant]
    spec fn wf(self) -> bool {
        &&& node_ok(self)
        &&& all_nodes_ok(self.descendants())
    }
}

/// A file node has no children.
pub open spec fn node_ok(n: FileSystemTree) -> bool {
    !is_dir_path(n.rel()) ==> n.kids().len() == 0
}

pub open spec fn all_nodes_ok(nodes: Seq<FileSystemTree>) -> bool {
    forall|i: int| 0 <= i < nodes.len() ==> #[trigger] node_ok(nodes[i])
}

spec fn all_wf(nodes: Seq<FileSystemTree>) -> bool {
    forall|i: int| 0 <= i < nodes.len() ==> #[trigger] nodes[i].wf()
}

/// Every node of the given forest and below it, in pre-order: each tree is
/// followed by the nodes below it before its next sibling.
pub open spec fn forest_preorder(nodes: Seq<FileSystemTree>) -> Seq<FileSystemTree>
    decreases nodes,
{
    if nodes.len() == 0 {
        Seq::empty()
    } else {
        seq![nodes[0]] + forest_preorder(nodes[0].kids()) + forest_preorder(
            nodes.subrange(1, nodes.len() as int),
        )
    }
}

proof fn lemma_all_nodes_ok_concat(a: Seq<FileSystemTree>, b: Seq<FileSystemTree>)
    ensures
        all_nodes_ok(a + b) <==> (all_nodes_ok(a) && all_nodes_ok(b)),
{
    if all_nodes_ok(a + b) {
        assert forall|i: int| 0 <= i < a.len() implies #[trigger] node_ok(a[i]) by {
            assert((a + b)[i] == a[i]);
        }
        assert forall|i: int| 0 <= i < b.len() implies #[trigger] node_ok(b[i]) by {
            assert((a + b)[a.len() + i] == b[i]);
        }
    }
    if all_nodes_ok(a) && all_nodes_ok(b) {
        assert forall|i: int| 0 <= i < (a + b).len() implies #[trigger] node_ok((a + b)[i]) by {
            if i < a.len() {
                assert((a + b)[i] == a[i]);
            } else {
                assert((a + b)[i] == b[i - a.len()]);
            }
        }
    }
}

/// A forest of well-formed trees has only well-formed nodes.
proof fn lemma_forest_all_ok(nodes: Seq<FileSystemTree>)
    requires
        all_wf(nodes),
    ensures
        all_nodes_ok(forest_preorder(nodes)),
    decreases nodes.len(),
{
    if nodes.len() > 0 {
        let rest = nodes.subrange(1, nodes.len() as int);
        assert(nodes[0].wf());
        assert forall|i: int| 0 <= i < rest.len() implies #[trigger] rest[i].wf() by {
            assert(rest[i] == nodes[i + 1]);
        }
        lemma_forest_all_ok(rest);
        let head = seq![nodes[0]];
        assert(all_nodes_ok(head));
        lemma_all_nodes_ok_concat(head, forest_preorder(nodes[0].kids()));
        lemma_all_nodes_ok_concat(head + forest_preorder(nodes[0].kids()), forest_preorder(rest));
    }
}

impl FileSystemTree {
    /// A file node: `relative_path` is not empty and does not end with `/`.
    pub fn new_file(relative_path: String, absolute_path: PathBuf) -> (r: Self)
        requires
            !is_dir_path(relative_path@),
        ensures
            r.rel() == relative_path@,
            r.abs() == absolute_path,
            r.kids() == Seq::<FileSystemTree>::empty(),
    {
        let r = FileSystemTree { relative_path, absolute_path, children: Vec::new() };
        assert(r.descendants() =~= Seq::<FileSystemTree>::empty());
        r
    }

    /// A directory node: `relative_path` is empty (the root) or ends with `/`.
    pub fn new_dir(relative_path: String, absolute_path: PathBuf, children: Vec<FileSystemTree>) -> (r: Self)
        requires
            is_dir_path(relative_path@),
        ensures
            r.rel() == relative_path@,
            r.abs() == absolute_path,
            r.kids() == children@,
    {
        let mut i: usize = 0;
        while i < children.len()
            invariant
                i <= children@.len(),
                forall|j: int| 0 <= j < i ==> #[trigger] children@[j].wf(),
            decreases children@.len() - i,
        {
            let child = &children[i];
            proof {
                use_type_invariant(child);
            }
            i = i + 1;
        }
        proof {
            lemma_forest_all_ok(children@);
        }
        FileSystemTree { relative_path, absolute_path, children }
    }

    /// Whether this node is a directory.
    pub fn is_dir(&self) -> (r: bool)
        ensures
            r == is_dir_path(self.rel()),
    {
        let s = self.relative_path.as_str();
        let n = s.unicode_len();
        if n == 0 {
            true
        } else {
            s.get_char(n - 1) == '/'
        }
    }

    /// The path of this node relative to the root; empty for the root.
    pub fn relative_path(&self) -> (r: &str)
        ensures
            r@ == self.rel(),
    {
        self.relative_path.as_str()
    }

    /// The absolute path of this node.
    pub fn absolute_path(&self) -> (r: &PathBuf)
        ensures
            *r == self.abs(),
    {
        &self.absolute_path
    }

    /// A walk over every node below this one, depth first, in pre-order.
    pub fn recursive(&self) -> (r: FileSystemTreeRecursive<'_>)
        ensures
            r.remaining() == self.descendants(),
    {
        let mut stack: Vec<(&FileSystemTree, usize)> = Vec::new();
        stack.push((self, 0));
        let r = FileSystemTreeRecursive { stack };
        proof {
            assert(r.stack@.drop_last() =~= Seq::<(&FileSystemTree, usize)>::empty());
            assert(stack_rest(r.stack@.drop_last()) == Seq::<FileSystemTree>::empty());
            assert(r.stack@.last() == (self, 0usize));
            if self.kids().len() > 0 {
                assert(self.kids().subrange(0, self.kids().len() as int) =~= self.kids());
            } else {
                assert(self.kids() =~= Seq::<FileSystemTree>::empty());
            }
        }
        r
    }

    /// A walk over the direct children of this node.
    pub fn iter(&self) -> (r: FileSystemTreeIter<'_>)
        ensures
            r.remaining() == self.kids(),
    {
        let r = FileSystemTreeIter { tree: self, index: 0 };
        proof {
            if self.kids().len() > 0 {
                assert(self.kids().subrange(0, self.kids().len() as int) =~= self.kids());
            } else {
                assert(self.kids() =~= Seq::<FileSystemTree>::empty());
            }
        }
        r
    }

    /// The number of files and directories in the tree, the root excluded.
    pub fn count_all(&self) -> (r: usize)
        requires
            self.descendants().len() <= usize::MAX,
        ensures
            r == self.descendants().len(),
    {
        let mut walk = self.recursive();
        let mut count: usize = 0;
        loop
            invariant
                count + walk.remaining().len() == self.descendants().len(),
                self.descendants().len() <= usize::MAX,
            decreases walk.remaining().len(),
        {
            match walk.next() {
                Some(_) => {
                    count = count + 1;
                },
                None => {
                    return count;
                },
            }
        }
    }
}

/// One call of a walk's `next`: it yields the first node left and drops it,
/// or, with nothing left, yields nothing.
pub open spec fn walk_step(before: Seq<FileSystemTree>, after: Seq<FileSystemTree>, r: Option<FileSystemTree>) -> bool {
    match r {
        Some(n) => before.len() > 0 && n == before[0] && after == before.drop_first(),
        None => before.len() == 0 && after.len() == 0,
    }
}

/// Successive calls of a walk's `next`, from a walk with `start` left:
/// `states[k]` is what is left before call `k`, `results[k]` what it yields.
pub open spec fn walk_trace(start: Seq<FileSystemTree>, states: Seq<Seq<FileSystemTree>>, results: Seq<Option<FileSystemTree>>) -> bool {
    &&& states.len() == results.len() + 1
    &&& states[0] == start
    &&& forall|k: int| 0 <= k < results.len() ==> walk_step(states[k], states[k + 1], #[trigger] results[k])
}

proof fn lemma_trace_state(start: Seq<FileSystemTree>, states: Seq<Seq<FileSystemTree>>, results: Seq<Option<FileSystemTree>>, k: int)
    requires
        walk_trace(start, states, results),
        0 <= k < states.len(),
    ensures
        states[k] == (if k <= start.len() {
            start.subrange(k, start.len() as int)
        } else {
            Seq::<FileSystemTree>::empty()
        }),
        k < results.len() ==> results[k] == (if k < start.len() {
            Some(start[k])
        } else {
            None::<FileSystemTree>
        }),
    decreases k,
{
    if k == 0 {
        assert(start.subrange(0, start.len() as int) =~= start);
    } else {
        lemma_trace_state(start, states, results, k - 1);
        assert(walk_step(states[k - 1], states[k], results[k - 1]));
        if k - 1 < start.len() {
            assert(states[k - 1].drop_first() =~= start.subrange(k, start.len() as int));
        }
    }
    if k < results.len() {
        assert(walk_step(states[k], states[k + 1], results[k]));
        if k < start.len() {
            assert(states[k][0] == start[k]);
        }
    }
}

/// A walk yields what it has left one node per call, in order: call `k`
/// yields node `k` while there is one, and every later call yields nothing.
/// For the walk `recursive` starts, that is the `k`-th node below the root in
/// pre-order, so exactly `count_all` calls yield a node before the first
/// `None`, and every call after a `None` yields `None` too.
pub proof fn lemma_walk_yields_in_order(start: Seq<FileSystemTree>, states: Seq<Seq<FileSystemTree>>, results: Seq<Option<FileSystemTree>>)
    requires
        walk_trace(start, states, results),
    ensures
        forall|k: int| 0 <= k < results.len() ==> #[trigger] results[k] == (if k < start.len() {
            Some(start[k])
        } else {
            None::<FileSystemTree>
        }),
        forall|k: int| 0 <= k < states.len() ==> #[trigger] states[k] == (if k <= start.len() {
            start.subrange(k, start.len() as int)
        } else {
            Seq::<FileSystemTree>::empty()
        }),
{
    assert forall|k: int| 0 <= k < results.len() implies #[trigger] results[k] == (if k < start.len() {
        Some(start[k])
    } else {
        None::<FileSystemTree>
    }) by {
        lemma_trace_state(start, states, results, k);
    }
    assert forall|k: int| 0 <= k < states.len() implies #[trigger] states[k] == (if k <= start.len() {
        start.subrange(k, start.len() as int)
    } else {
        Seq::<FileSystemTree>::empty()
    }) by {
        lemma_trace_state(start, states, results, k);
    }
}

/// The number of nodes in the trees of a forest, each tree counted with the
/// nodes below it.
pub open spec fn forest_size(nodes: Seq<FileSystemTree>) -> int
    decreases nodes.len(),
{
    if nodes.len() == 0 {
        0
    } else {
        1 + nodes[0].descendants().len() + forest_size(nodes.subrange(1, nodes.len() as int))
    }
}

proof fn lemma_forest_len(nodes: Seq<FileSystemTree>)
    ensures
        forest_preorder(nodes).len() == forest_size(nodes),
    decreases nodes.len(),
{
    if nodes.len() > 0 {
        lemma_forest_len(nodes.subrange(1, nodes.len() as int));
    }
}

/// What `count_all` counts is, over the children, one for each child and
/// what is below it; a node with no children has nothing below it.
pub proof fn lemma_count_is_sum_over_children(tree: FileSystemTree)
    ensures
        tree.descendants().len() == forest_size(tree.kids()),
        tree.kids().len() == 0 ==> tree.descendants().len() == 0,
{
    lemma_forest_len(tree.kids());
}

/// What is left to walk of one stack entry: the subtrees of the entry's
/// children from its index on.
pub open spec fn entry_rest(entry: (&FileSystemTree, usize)) -> Seq<FileSystemTree> {
    let kids = entry.0.kids();
    if entry.1 < kids.len() {
        forest_preorder(kids.subrange(entry.1 as int, kids.len() as int))
    } else {
        Seq::empty()
    }
}

/// What is left to walk of a stack: its top entry first.
pub open spec fn stack_rest(stack: Seq<(&FileSystemTree, usize)>) -> Seq<FileSystemTree>
    decreases stack.len(),
{
    if stack.len() == 0 {
        Seq::empty()
    } else {
        entry_rest(stack.last()) + stack_rest(stack.drop_last())
    }
}

/// A depth-first walk over the nodes below a tree's root.
pub struct FileSystemTreeRecursive<'a> {
    stack: Vec<(&'a FileSystemTree, usize)>,
}

impl<'a> FileSystemTreeRecursive<'a> {
    /// The nodes that the walk has yet to yield, in order.
    pub closed spec fn remaining(self) -> Seq<FileSystemTree> {
        stack_rest(self.stack@)
    }

    /// The next node of the walk, or `None` once every node was yielded.
    pub fn next(&mut self) -> (r: Option<&'a FileSystemTree>)
        ensures
            walk_step(
                old(self).remaining(),
                final(self).remaining(),
                match r {
                    Some(n) => Some(*n),
                    None => None,
                },
            ),
    {
        loop
            invariant
                self.remaining() == old(self).remaining(),
            decreases self.stack.len(),
        {
            let ghost before = self.stack@;
            match self.stack.pop() {
                None => {
                    return None;
                },
                Some(entry) => {
                    let (tree, index) = entry;
                    assert(before.drop_last() == self.stack@);
                    if index < tree.children.len() {
                        let ghost rest = stack_rest(self.stack@);
                        let ghost kids = tree.kids();
                        let ghost tail = kids.subrange(index as int, kids.len() as int);
                        proof {
                            assert(tail[0] == kids[index as int]);
                            assert(tail.subrange(1, tail.len() as int) =~= kids.subrange(
                                index + 1,
                                kids.len() as int,
                            ));
                        }
                        self.stack.push((tree, index + 1));
                        let new_ent = &tree.children[index];
                        self.stack.push((new_ent, 0));
                        proof {
                            let s = self.stack@;
                            assert(s.drop_last().drop_last() == before.drop_last());
                            assert(s.last() == (new_ent, 0usize));
                            assert(s.drop_last().last() == (tree, (index + 1) as usize));
                            let ck = new_ent.kids();
                            if ck.len() > 0 {
                                assert(ck.subrange(0, ck.len() as int) =~= ck);
                            } else {
                                assert(ck =~= Seq::<FileSystemTree>::empty());
                            }
                            if index + 1 >= kids.len() {
                                assert(kids.subrange(index + 1, kids.len() as int)
                                    =~= Seq::<FileSystemTree>::empty());
                                assert(forest_preorder(kids.subrange(index + 1, kids.len() as int))
                                    == Seq::<FileSystemTree>::empty());
                            }
                            assert(stack_rest(s) == entry_rest(s.last()) + stack_rest(s.drop_last()));
                            assert(stack_rest(s.drop_last()) == entry_rest(s.drop_last().last())
                                + stack_rest(s.drop_last().drop_last()));
                            assert(entry_rest(s.last()) == forest_preorder(ck));
                            assert(entry_rest(s.drop_last().last()) == forest_preorder(
                                kids.subrange(index + 1, kids.len() as int)));
                            assert(old(self).remaining() =~= seq![*new_ent] + forest_preorder(ck)
                                + forest_preorder(kids.subrange(index + 1, kids.len() as int))
                                + rest);
                            assert(self.remaining() =~= forest_preorder(ck) + forest_preorder(
                                kids.subrange(index + 1, kids.len() as int),
                            ) + rest);
                            assert(old(self).remaining()[0] == *new_ent);
                            assert(old(self).remaining().drop_first() =~= self.remaining());
                        }
                        return Some(new_ent);
                    }
                },
            }
        }
    }
}

/// A walk over the direct children of a tree node.
pub struct FileSystemTreeIter<'a> {
    tree: &'a FileSystemTree,
    index: usize,
}

impl<'a> FileSystemTreeIter<'a> {
    /// The children that the walk has yet to yield, in order.
    pub closed spec fn remaining(self) -> Seq<FileSystemTree> {
        let kids = self.tree.kids();
        if self.index < kids.len() {
            kids.subrange(self.index as int, kids.len() as int)
        } else {
            Seq::empty()
        }
    }

    /// The next child, or `None` once every child was yielded.
    pub fn next(&mut self) -> (r: Option<&'a FileSystemTree>)
        ensures
            walk_step(
                old(self).remaining(),
                final(self).remaining(),
                match r {
                    Some(n) => Some(*n),
                    None => None,
                },
            ),
    {
        if self.index < self.tree.children.len() {
            let i = self.index;
            self.index = i + 1;
            assert(old(self).remaining().drop_first() =~= self.remaining());
            Some(&self.tree.children[i])
        } else {
            None
        }
    }
}

} // verus!
