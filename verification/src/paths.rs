//! Paths as `/`-separated strings, and sets of them.
//!
//! A relative path is the sequence of its components joined by `/`. The
//! library never touches the file system, so a path is nothing more than its
//! text.

use vstd::prelude::*;
use crate::text::{join_strings, join_with};
use vstd::hash_set::StringHashSet;

verus! {

/// The text between two components of a path.
pub open spec fn separator() -> Seq<char> {
    seq!['/']
}

/// The components joined by `/`; no components give the empty path.
pub open spec fn join_components(parts: Seq<Seq<char>>) -> Seq<char> {
    join_with(parts, separator())
}

/// The path `rel` below the directory `root`. An empty root gives `rel`
/// itself, and a root that already ends in `/` gets no second separator.
pub open spec fn join_path(root: Seq<char>, rel: Seq<char>) -> Seq<char> {
    if root.len() == 0 {
        rel
    } else if root.last() == '/' {
        root + rel
    } else {
        root + separator() + rel
    }
}

/// Joins the components of a relative path.
pub fn path_from_components(parts: &Vec<String>) -> (path: String)
    ensures
        path@ == join_components(parts.deep_view()),
{
    proof {
        reveal_strlit("/");
        assert("/"@ == separator());
    }
    join_strings(parts, "/")
}

/// The path `rel` below the directory `root`.
pub fn path_below(root: &String, rel: &String) -> (path: String)
    ensures
        path@ == join_path(root@, rel@),
{
    let n = root.as_str().unicode_len();
    if n == 0 {
        rel.clone()
    } else if root.as_str().get_char(n - 1) == '/' {
        root.clone().concat(rel.as_str())
    } else {
        proof {
            reveal_strlit("/");
            assert("/"@ == separator());
        }
        root.clone().concat("/").concat(rel.as_str())
    }
}

/// A copy of a list of strings.
pub fn copy_strings(list: &Vec<String>) -> (copy: Vec<String>)
    ensures
        copy.deep_view() == list.deep_view(),
{
    let mut copy: Vec<String> = Vec::new();
    let mut i: usize = 0;
    while i < list.len()
        invariant
            i <= list.len(),
            copy.deep_view() == list.deep_view().take(i as int),
        decreases list.len() - i,
    {
        let ghost before = copy.deep_view();
        copy.push(list[i].clone());
        proof {
            assert(copy.deep_view() == before.push(list[i as int]@));
            assert(list.deep_view().take(i + 1) == before.push(list[i as int]@));
        }
        i = i + 1;
    }
    proof {
        assert(list.deep_view().take(list.len() as int) == list.deep_view());
    }
    copy
}

/// A finite set of paths.
#[derive(Debug)]
pub struct PathSet {
    paths: Vec<String>,
}

impl View for PathSet {
    type V = Set<Seq<char>>;

    closed spec fn view(&self) -> Set<Seq<char>> {
        self.paths.deep_view().to_set()
    }
}

impl DeepView for PathSet {
    type V = Set<Seq<char>>;

    open spec fn deep_view(&self) -> Set<Seq<char>> {
        self@
    }
}

impl Clone for PathSet {
    fn clone(&self) -> (copy: PathSet)
        ensures
            copy@ == self@,
    {
        proof {
            use_type_invariant(self);
        }
        let paths = copy_strings(&self.paths);
        PathSet { paths }
    }
}

impl PathSet {
    #[verifier::type_invariant]
    spec fn holds_no_path_twice(self) -> bool {
        self.paths.deep_view().no_duplicates()
    }

    /// Every path set is finite.
    pub proof fn lemma_finite(&self)
        ensures
            self@.finite(),
    {
        vstd::seq_lib::seq_to_set_is_finite(self.paths.deep_view());
    }

    /// The empty set.
    pub fn new() -> (set: PathSet)
        ensures
            set@ == Set::<Seq<char>>::empty(),
    {
        let paths: Vec<String> = Vec::new();
        proof {
            assert(paths.deep_view().to_set() =~= Set::<Seq<char>>::empty());
        }
        PathSet { paths }
    }

    /// The set of the given paths, which must be pairwise different.
    pub(crate) fn from_distinct(paths: Vec<String>) -> (set: PathSet)
        requires
            paths.deep_view().no_duplicates(),
        ensures
            set@ == paths.deep_view().to_set(),
    {
        PathSet { paths }
    }

    /// The set of the given paths; a path that occurs twice counts once.
    pub fn from_paths(paths: Vec<String>) -> (set: PathSet)
        ensures
            set@ == paths.deep_view().to_set(),
    {
        let mut seen = StringHashSet::new();
        let mut kept: Vec<String> = Vec::new();
        let mut i: usize = 0;
        proof {
            assert(kept.deep_view().to_set() =~= Set::<Seq<char>>::empty());
            assert(paths.deep_view().take(0).to_set() =~= Set::<Seq<char>>::empty());
        }
        while i < paths.len()
            invariant
                i <= paths.len(),
                kept.deep_view().no_duplicates(),
                seen@ == kept.deep_view().to_set(),
                kept.deep_view().to_set() == paths.deep_view().take(i as int).to_set(),
            decreases paths.len() - i,
        {
            let path = paths[i].clone();
            let ghost before = kept.deep_view();
            let ghost taken = paths.deep_view().take(i as int);
            proof {
                assert(paths.deep_view().take(i + 1) == taken.push(path@));
                taken.lemma_push_to_set_commute(path@);
            }
            if seen.insert(path.clone()) {
                kept.push(path);
                proof {
                    assert(kept.deep_view() == before.push(path@));
                    before.lemma_push_to_set_commute(path@);
                    assert(!before.contains(path@));
                }
            } else {
                proof {
                    assert(before.to_set().insert(path@) == before.to_set());
                }
            }
            i = i + 1;
        }
        proof {
            assert(paths.deep_view().take(paths.len() as int) == paths.deep_view());
        }
        PathSet { paths: kept }
    }

    /// The paths of the set, each once.
    pub fn paths(&self) -> (paths: &Vec<String>)
        ensures
            paths.deep_view().no_duplicates(),
            paths.deep_view().to_set() == self@,
    {
        proof {
            use_type_invariant(self);
        }
        &self.paths
    }

    /// The paths of the set, each once, as an owned list.
    pub fn into_paths(self) -> (paths: Vec<String>)
        ensures
            paths.deep_view().no_duplicates(),
            paths.deep_view().to_set() == self@,
    {
        proof {
            use_type_invariant(&self);
        }
        self.paths
    }

    /// How many paths the set holds.
    pub fn len(&self) -> (n: usize)
        ensures
            n == self@.len(),
    {
        proof {
            use_type_invariant(self);
            self.paths.deep_view().unique_seq_to_set();
        }
        self.paths.len()
    }

    /// Whether the set holds no path.
    pub fn is_empty(&self) -> (empty: bool)
        ensures
            empty == (self@ == Set::<Seq<char>>::empty()),
    {
        proof {
            if self.paths.len() == 0 {
                assert(self.paths.deep_view().to_set() =~= Set::<Seq<char>>::empty());
            } else {
                assert(self.paths.deep_view().to_set().contains(self.paths.deep_view()[0]));
            }
        }
        self.paths.len() == 0
    }

    /// Whether `path` is in the set.
    pub fn contains(&self, path: &String) -> (found: bool)
        ensures
            found == self@.contains(path@),
    {
        let mut i: usize = 0;
        while i < self.paths.len()
            invariant
                i <= self.paths.len(),
                forall|j: int| 0 <= j < i ==> self.paths.deep_view()[j] != path@,
            decreases self.paths.len() - i,
        {
            if self.paths[i] == *path {
                proof {
                    assert(self.paths.deep_view()[i as int] == path@);
                }
                return true;
            }
            i = i + 1;
        }
        false
    }

    /// The same set as a hash set, for repeated lookups.
    pub fn index(&self) -> (index: StringHashSet)
        ensures
            index@ == self@,
    {
        let mut index = StringHashSet::new();
        let mut i: usize = 0;
        while i < self.paths.len()
            invariant
                i <= self.paths.len(),
                index@ == self.paths.deep_view().take(i as int).to_set(),
            decreases self.paths.len() - i,
        {
            let ghost taken = self.paths.deep_view().take(i as int);
            proof {
                assert(self.paths.deep_view().take(i + 1) == taken.push(self.paths[i as int]@));
                taken.lemma_push_to_set_commute(self.paths[i as int]@);
            }
            index.insert(self.paths[i].clone());
            i = i + 1;
        }
        proof {
            assert(self.paths.deep_view().take(self.paths.len() as int) == self.paths.deep_view());
        }
        index
    }

    /// The set with `path` added.
    pub fn with(self, path: String) -> (set: PathSet)
        ensures
            set@ == self@.insert(path@),
    {
        proof {
            use_type_invariant(&self);
        }
        let ghost before = self.paths.deep_view();
        if self.contains(&path) {
            proof {
                assert(before.to_set().insert(path@) == before.to_set());
            }
            self
        } else {
            let mut paths = self.paths;
            paths.push(path);
            proof {
                assert(paths.deep_view() == before.push(path@));
                before.lemma_push_to_set_commute(path@);
            }
            PathSet { paths }
        }
    }
}

} // verus!
