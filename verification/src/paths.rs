//! Paths of media files, and sets of them.

use std::path::PathBuf;
use vstd::prelude::*;

verus! {

/// `std::path::PathBuf`, seen from outside only: a path is compared and cloned, and
/// nothing else is read of it. So the value of a path is what `==` on `PathBuf` sees of
/// it, and that is its components: two paths with the same components are one value,
/// however they are written.
#[verifier::external_type_specification]
#[verifier::external_body]
pub struct ExPathBuf(std::path::PathBuf);

/// `clone` of a `PathBuf` gives a path that is equal to it.
pub assume_specification[ <PathBuf as Clone>::clone ](path: &PathBuf) -> (r: PathBuf)
    ensures
        r == *path,
;

/// `==` on `PathBuf`, an equivalence relation, tells whether two paths are the same
/// value.
pub assume_specification[ <PathBuf as PartialEq>::eq ](path: &PathBuf, other: &PathBuf) -> (r: bool)
    ensures
        r == (*path == *other),
;

/// A set of paths. No path is held twice.
#[derive(Debug)]
pub struct PathSet {
    paths: Vec<PathBuf>,
}

impl View for PathSet {
    type V = Set<PathBuf>;

    closed spec fn view(&self) -> Set<PathBuf> {
        self.paths@.to_set()
    }
}

impl PathSet {
    #[verifier::type_invariant]
    spec fn no_path_twice(self) -> bool {
        self.paths@.no_duplicates()
    }

    /// The empty set.
    pub fn new() -> (set: PathSet)
        ensures
            set@ == Set::<PathBuf>::empty(),
    {
        let set = PathSet { paths: Vec::new() };
        proof {
            assert(set@ =~= Set::<PathBuf>::empty());
        }
        set
    }

    /// The position of `path`, if the set holds it.
    fn position(&self, path: &PathBuf) -> (r: Option<usize>)
        ensures
            r is Some <==> self@.contains(*path),
            r matches Some(i) ==> i < self.paths@.len() && self.paths@[i as int] == *path,
    {
        let mut i: usize = 0;
        while i < self.paths.len()
            invariant
                i <= self.paths@.len(),
                forall|j: int| 0 <= j < i ==> self.paths@[j] != *path,
            decreases self.paths@.len() - i,
        {
            if self.paths[i] == *path {
                assert(self.paths@.contains(self.paths@[i as int]));
                return Some(i);
            }
            i += 1;
        }
        None
    }

    /// Whether the set holds `path`.
    pub fn contains(&self, path: &PathBuf) -> (r: bool)
        ensures
            r == self@.contains(*path),
    {
        self.position(path).is_some()
    }

    /// Adds `path` to the set.
    pub fn insert(&mut self, path: PathBuf)
        ensures
            final(self)@ == old(self)@.insert(path),
    {
        proof {
            use_type_invariant(&*self);
        }
        if self.position(&path).is_some() {
            assert(self@ =~= self@.insert(path));
            return;
        }
        let mut paths: Vec<PathBuf> = Vec::new();
        std::mem::swap(&mut paths, &mut self.paths);
        let ghost before = paths@;
        paths.push(path);
        assert(paths@.no_duplicates()) by {
            assert(!before.contains(path));
        }
        assert(paths@.to_set() =~= before.to_set().insert(path)) by {
            assert forall|p: PathBuf| before.to_set().insert(path).contains(p) implies
                paths@.to_set().contains(p) by {
                if p == path {
                    assert(paths@[before.len() as int] == p);
                } else {
                    let k = choose|k: int| 0 <= k < before.len() && before[k] == p;
                    assert(paths@[k] == p);
                }
            }
        }
        self.paths = paths;
    }

    /// Takes `path` out of the set, if it is there.
    pub fn remove(&mut self, path: &PathBuf)
        ensures
            final(self)@ == old(self)@.remove(*path),
    {
        proof {
            use_type_invariant(&*self);
        }
        match self.position(path) {
            None => {
                assert(self@ =~= self@.remove(*path));
            },
            Some(i) => {
                let mut paths: Vec<PathBuf> = Vec::new();
                std::mem::swap(&mut paths, &mut self.paths);
                let ghost before = paths@;
                paths.remove(i);
                assert(paths@.to_set() =~= before.to_set().remove(*path)) by {
                    assert forall|p: PathBuf| before.to_set().remove(*path).contains(p) implies
                        paths@.to_set().contains(p) by {
                        let k = choose|k: int| 0 <= k < before.len() && before[k] == p;
                        if k < i {
                            assert(paths@[k] == p);
                        } else {
                            assert(paths@[k - 1] == p);
                        }
                    }
                }
                self.paths = paths;
            },
        }
    }
}

impl Default for PathSet {
    fn default() -> (set: PathSet)
        ensures
            set@ == Set::<PathBuf>::empty(),
    {
        PathSet::new()
    }
}

} // verus!
