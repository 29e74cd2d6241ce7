//! The files of a torrent as a tree of folders.

use vstd::prelude::*;

verus! {

/// A folder or a file of the tree. A file has a size; a folder has
/// children, each under its own name.
#[derive(Debug)]
pub struct TreeNode {
    pub children: Vec<(String, TreeNode)>,
    pub file_size: Option<u64>,
}

impl TreeNode {
    /// Whether child `i` has the name `name`.
    pub open spec fn names_child(&self, i: int, name: Seq<char>) -> bool {
        0 <= i < self.children@.len() && self.children@[i].0@ == name
    }

    /// No two children of a node have the same name, anywhere in the tree.
    pub open spec fn well_formed(&self) -> bool
        decreases self,
    {
        &&& forall|i: int, j: int|
            0 <= i < j < self.children@.len() ==> self.children@[i].0@ != self.children@[j].0@
        &&& forall|i: int| 0 <= i < self.children@.len() ==> (#[trigger] self.children@[i]).1.well_formed()
    }

    /// The node that the path leads to from here, one name per level.
    pub open spec fn node_at(&self, path: Seq<Seq<char>>) -> Option<TreeNode>
        decreases path.len(),
    {
        if path.len() == 0 {
            Some(*self)
        } else if exists|i: int| self.names_child(i, path[0]) {
            let i = choose|i: int| self.names_child(i, path[0]);
            self.children@[i].1.node_at(path.skip(1))
        } else {
            None
        }
    }

    /// The size of the file at the path; none where the path leads to no
    /// node, or to one that is no file.
    pub open spec fn size_at(&self, path: Seq<Seq<char>>) -> Option<u64> {
        match self.node_at(path) {
            Some(node) => node.file_size,
            None => None,
        }
    }

    /// What lies at the path: nothing, or a node with the size it records.
    pub open spec fn entry_at(&self, path: Seq<Seq<char>>) -> Option<Option<u64>> {
        match self.node_at(path) {
            Some(node) => Some(node.file_size),
            None => None,
        }
    }

    /// What lies at a path after a file of the given size was recorded at
    /// `target`: the file at the target itself, a folder on the way to it,
    /// and what was there before everywhere else.
    pub open spec fn entry_after(&self, target: Seq<Seq<char>>, size: u64, path: Seq<Seq<char>>) -> Option<
        Option<u64>,
    > {
        if path == target {
            Some(Some(size))
        } else if path.is_prefix_of(target) {
            Some(self.size_at(path))
        } else {
            self.entry_at(path)
        }
    }

    /// A node without children and without a size.
    pub fn new() -> (node: TreeNode)
        ensures
            node.well_formed(),
            node.children@.len() == 0,
            node.file_size is None,
    {
        TreeNode { children: Vec::new(), file_size: None }
    }

    /// From a node without children no path but the empty one leads on.
    pub proof fn lemma_leaf(&self, path: Seq<Seq<char>>)
        requires
            self.children@.len() == 0,
            path.len() > 0,
        ensures
            self.node_at(path) is None,
    {
    }

    /// In a well-formed node a name picks its child.
    pub proof fn lemma_child(&self, i: int, path: Seq<Seq<char>>)
        requires
            self.well_formed(),
            path.len() > 0,
            self.names_child(i, path[0]),
        ensures
            self.node_at(path) == self.children@[i].1.node_at(path.skip(1)),
    {
        let chosen = choose|j: int| self.names_child(j, path[0]);
        assert(self.names_child(chosen, path[0]));
        if chosen < i {
            assert(self.children@[chosen].0@ != self.children@[i].0@);
        } else if i < chosen {
            assert(self.children@[i].0@ != self.children@[chosen].0@);
        }
    }

    /// The index of the child with the given name, if there is one.
    fn find_child(&self, name: &String) -> (found: Option<usize>)
        ensures
            match found {
                Some(i) => self.names_child(i as int, name@),
                None => forall|j: int| !self.names_child(j, name@),
            },
    {
        let mut i: usize = 0;
        while i < self.children.len()
            invariant
                i <= self.children.len(),
                forall|j: int| 0 <= j < i ==> self.children@[j].0@ != name@,
            decreases self.children.len() - i,
        {
            if self.children[i].0 == *name {
                return Some(i);
            }
            i = i + 1;
        }
        None
    }

    /// Records a file of the given size at the end of the path that the
    /// components from position `from` on spell out. Folders on the way are
    /// made where they are missing; a size recorded there before is
    /// replaced; nothing else changes.
    fn insert(self, components: &Vec<String>, from: usize, size: u64) -> (tree: TreeNode)
        requires
            self.well_formed(),
            from <= components.len(),
        ensures
            tree.well_formed(),
            forall|path: Seq<Seq<char>>| #[trigger]
                tree.entry_at(path) == self.entry_after(
                    components.deep_view().skip(from as int),
                    size,
                    path,
                ),
        decreases components.len() - from,
    {
        let ghost rest = components.deep_view().skip(from as int);
        if from == components.len() {
            let tree = TreeNode { children: self.children, file_size: Some(size) };
            proof {
                assert(rest =~= Seq::<Seq<char>>::empty());
                assert forall|path: Seq<Seq<char>>| #[trigger]
                    tree.entry_at(path) == self.entry_after(rest, size, path) by {
                    if path.len() == 0 {
                        assert(path =~= rest);
                    } else {
                        assert(path != rest);
                        assert(!path.is_prefix_of(rest));
                        if exists|i: int| self.names_child(i, path[0]) {
                            let i = choose|i: int| self.names_child(i, path[0]);
                            assert(tree.names_child(i, path[0]));
                            self.lemma_child(i, path);
                            tree.lemma_child(i, path);
                        } else {
                            assert forall|i: int| !tree.names_child(i, path[0]) by {
                                assert(!self.names_child(i, path[0]));
                            }
                        }
                    }
                }
            }
            return tree;
        }
        let name = &components[from];
        let ghost tail = components.deep_view().skip(from + 1);
        proof {
            assert(rest.len() > 0);
            assert(rest[0] == name@);
            assert(rest.skip(1) =~= tail);
        }
        let found = self.find_child(name);
        let file_size = self.file_size;
        let mut children = self.children;
        let ghost before = children@;
        match found {
            Some(i) => {
                let entry = children.remove(i);
                let ghost old_child = entry.1;
                let new_child = entry.1.insert(components, from + 1, size);
                children.insert(i, (entry.0, new_child));
                let tree = TreeNode { children, file_size };
                proof {
                    assert(tree.children@.len() == before.len());
                    assert forall|j: int| 0 <= j < before.len() implies (#[trigger] tree.children@[j]).0@
                        == before[j].0@ by {}
                    assert forall|j: int| 0 <= j < before.len() && j != i implies (
                    #[trigger] tree.children@[j]).1 == before[j].1 by {}
                    assert(tree.children@[i as int].1 == new_child);
                    assert(tree.well_formed());
                    assert forall|path: Seq<Seq<char>>| #[trigger]
                        tree.entry_at(path) == self.entry_after(rest, size, path) by {
                        if path.len() == 0 {
                            assert(path.is_prefix_of(rest));
                        } else if path[0] == name@ {
                            self.lemma_child(i as int, path);
                            tree.lemma_child(i as int, path);
                            assert(new_child.entry_at(path.skip(1)) == old_child.entry_after(
                                tail,
                                size,
                                path.skip(1),
                            ));
                            lemma_same_head_and_tail(path, rest);
                        } else {
                            assert(path != rest);
                            assert(!path.is_prefix_of(rest)) by {
                                if path.is_prefix_of(rest) {
                                    assert(rest.subrange(0, path.len() as int)[0] == path[0]);
                                }
                            }
                            if exists|j: int| self.names_child(j, path[0]) {
                                let j = choose|j: int| self.names_child(j, path[0]);
                                assert(tree.names_child(j, path[0]));
                                self.lemma_child(j, path);
                                tree.lemma_child(j, path);
                            } else {
                                assert forall|j: int| !tree.names_child(j, path[0]) by {
                                    assert(!self.names_child(j, path[0]));
                                }
                            }
                        }
                    }
                }
                tree
            },
            None => {
                let fresh = TreeNode::new();
                let new_child = fresh.insert(components, from + 1, size);
                children.push((name.clone(), new_child));
                let tree = TreeNode { children, file_size };
                proof {
                    let last = before.len() as int;
                    assert(tree.children@.len() == before.len() + 1);
                    assert forall|j: int| 0 <= j < before.len() implies #[trigger] tree.children@[j]
                        == before[j] by {}
                    assert(tree.children@[last].0@ == name@);
                    assert(tree.children@[last].1 == new_child);
                    assert forall|a: int, b: int|
                        0 <= a < b < tree.children@.len() implies tree.children@[a].0@
                        != tree.children@[b].0@ by {
                        if b == last {
                            assert(!self.names_child(a, name@));
                        }
                    }
                    assert(tree.well_formed());
                    assert forall|path: Seq<Seq<char>>| #[trigger]
                        tree.entry_at(path) == self.entry_after(rest, size, path) by {
                        if path.len() == 0 {
                            assert(path.is_prefix_of(rest));
                        } else if path[0] == name@ {
                            tree.lemma_child(last, path);
                            assert(!(exists|j: int| self.names_child(j, path[0])));
                            assert(self.node_at(path) is None);
                            if path.skip(1).len() > 0 {
                                fresh.lemma_leaf(path.skip(1));
                            } else {
                                assert(path.skip(1).is_prefix_of(tail));
                            }
                            assert(fresh.size_at(path.skip(1)) is None);
                            assert(new_child.entry_at(path.skip(1)) == fresh.entry_after(
                                tail,
                                size,
                                path.skip(1),
                            ));
                            lemma_same_head_and_tail(path, rest);
                        } else {
                            assert(path != rest);
                            assert(!path.is_prefix_of(rest)) by {
                                if path.is_prefix_of(rest) {
                                    assert(rest.subrange(0, path.len() as int)[0] == path[0]);
                                }
                            }
                            if exists|j: int| self.names_child(j, path[0]) {
                                let j = choose|j: int| self.names_child(j, path[0]);
                                assert(tree.names_child(j, path[0]));
                                self.lemma_child(j, path);
                                tree.lemma_child(j, path);
                            } else {
                                assert forall|j: int| !tree.names_child(j, path[0]) by {
                                    if j == last {
                                    } else {
                                        assert(!self.names_child(j, path[0]));
                                    }
                                }
                            }
                        }
                    }
                }
                tree
            },
        }
    }
}

/// Of two paths that start with the same name, one equals or begins the
/// other exactly if the same holds of what follows the name.
proof fn lemma_same_head_and_tail(a: Seq<Seq<char>>, b: Seq<Seq<char>>)
    requires
        a.len() > 0,
        b.len() > 0,
        a[0] == b[0],
    ensures
        a == b <==> a.skip(1) == b.skip(1),
        a.is_prefix_of(b) <==> a.skip(1).is_prefix_of(b.skip(1)),
{
    assert(a.skip(1).len() == a.len() - 1);
    assert(b.skip(1).len() == b.len() - 1);
    if a.skip(1) == b.skip(1) {
        assert forall|k: int| 0 <= k < a.len() implies a[k] == b[k] by {
            if k > 0 {
                assert(a.skip(1)[k - 1] == a[k]);
                assert(b.skip(1)[k - 1] == b[k]);
            }
        }
        assert(a =~= b);
    }
    if a.is_prefix_of(b) {
        let n = a.len() as int;
        assert forall|k: int| 0 <= k < n - 1 implies a.skip(1)[k] == b.skip(1).subrange(0, n - 1)[k] by {
            assert(a[k + 1] == b.subrange(0, n)[k + 1]);
        }
        assert(a.skip(1) =~= b.skip(1).subrange(0, n - 1));
    }
    if a.skip(1).is_prefix_of(b.skip(1)) {
        let n = a.len() as int;
        assert forall|k: int| 0 <= k < n implies a[k] == b.subrange(0, n)[k] by {
            if k > 0 {
                assert(a.skip(1)[k - 1] == b.skip(1).subrange(0, n - 1)[k - 1]);
            }
        }
        assert(a =~= b.subrange(0, n));
    }
}

/// The size that a list of files records for a path: that of the last file
/// with this path, none where no file has it.
pub open spec fn recorded(files: Seq<(Seq<Seq<char>>, u64)>, path: Seq<Seq<char>>) -> Option<u64>
    decreases files.len(),
{
    if files.len() == 0 {
        None
    } else if files.last().0 == path {
        Some(files.last().1)
    } else {
        recorded(files.drop_last(), path)
    }
}

/// Whether the path is one of the files of the list or a folder on the way
/// to one.
pub open spec fn leads_to_a_file(files: Seq<(Seq<Seq<char>>, u64)>, path: Seq<Seq<char>>) -> bool {
    exists|i: int| 0 <= i < files.len() && path.is_prefix_of(#[trigger] files[i].0)
}

impl Default for TreeNode {
    fn default() -> (node: TreeNode)
        ensures
            node.well_formed(),
            node.children@.len() == 0,
            node.file_size is None,
    {
        TreeNode::new()
    }
}

impl TreeNode {
    /// Builds the tree of the given files, each given by the components of its
    /// path and its size. The tree has a node for every file and for every
    /// folder on the way to one, and for nothing else; a path that occurs
    /// twice keeps the size given last.
    pub fn build_tree(files: &Vec<(Vec<String>, u64)>) -> (root: TreeNode)
        ensures
            root.well_formed(),
            forall|path: Seq<Seq<char>>| #[trigger] root.size_at(path) == recorded(files.deep_view(), path),
            forall|path: Seq<Seq<char>>|
                path.len() > 0 ==> (#[trigger] root.node_at(path) is Some <==> leads_to_a_file(
                    files.deep_view(),
                    path,
                )),
    {
        let mut root = TreeNode::new();
        let mut i: usize = 0;
        proof {
            assert forall|path: Seq<Seq<char>>| #[trigger]
                root.size_at(path) == recorded(files.deep_view().take(0), path) by {
                if path.len() > 0 {
                    root.lemma_leaf(path);
                }
            }
            assert forall|path: Seq<Seq<char>>| path.len() > 0 implies (#[trigger] root.node_at(path)
                is Some <==> leads_to_a_file(files.deep_view().take(0), path)) by {
                root.lemma_leaf(path);
            }
        }
        while i < files.len()
            invariant
                i <= files.len(),
                root.well_formed(),
                forall|path: Seq<Seq<char>>| #[trigger]
                    root.size_at(path) == recorded(files.deep_view().take(i as int), path),
                forall|path: Seq<Seq<char>>|
                    path.len() > 0 ==> (#[trigger] root.node_at(path) is Some <==> leads_to_a_file(
                        files.deep_view().take(i as int),
                        path,
                    )),
            decreases files.len() - i,
        {
            let ghost before = root;
            root = root.insert(&files[i].0, 0, files[i].1);
            proof {
                let earlier = files.deep_view().take(i as int);
                let taken = files.deep_view().take(i + 1);
                let target = files[i as int].0.deep_view();
                assert(taken.drop_last() =~= earlier);
                assert(taken.last() == files.deep_view()[i as int]);
                assert(files.deep_view()[i as int].0 == target);
                assert(target.skip(0) =~= target);
                assert forall|path: Seq<Seq<char>>| #[trigger]
                    root.size_at(path) == recorded(taken, path) by {
                    assert(root.entry_at(path) == before.entry_after(target, files[i as int].1, path));
                    assert(before.size_at(path) == recorded(earlier, path));
                }
                assert forall|path: Seq<Seq<char>>| path.len() > 0 implies (#[trigger] root.node_at(path)
                    is Some <==> leads_to_a_file(taken, path)) by {
                    assert(root.entry_at(path) == before.entry_after(target, files[i as int].1, path));
                    assert(before.node_at(path) is Some <==> leads_to_a_file(earlier, path));
                    if leads_to_a_file(earlier, path) {
                        let k = choose|k: int|
                            0 <= k < earlier.len() && path.is_prefix_of(#[trigger] earlier[k].0);
                        assert(taken[k] == earlier[k]);
                    }
                    if path.is_prefix_of(target) {
                        assert(taken[i as int].0 == target);
                    }
                    if leads_to_a_file(taken, path) {
                        let k = choose|k: int|
                            0 <= k < taken.len() && path.is_prefix_of(#[trigger] taken[k].0);
                        if k < i {
                            assert(earlier[k] == taken[k]);
                        }
                    }
                }
            }
            i = i + 1;
        }
        proof {
            assert(files.deep_view().take(files.len() as int) =~= files.deep_view());
        }
        root
    }
}

} // verus!
