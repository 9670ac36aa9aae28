//! The directory-traversal policy: which roots are walked, which paths are
//! skipped, whether ignore files are honored, and how many worker threads
//! run. The walk itself is filesystem work done outside the library, by a
//! parallel walker that consults the decisions here for every entry.

use vstd::prelude::*;

verus! {

/// The traversal policy one search run is built from: pure configuration,
/// no state.
#[derive(Debug, Clone)]
pub struct TraversalPolicy {
    pub roots: Vec<String>,
    pub excluded_paths: Vec<String>,
    pub respect_gitignore: bool,
    pub thread_count: usize,
    pub type_filter: Vec<String>,
}

impl TraversalPolicy {
    /// What every policy satisfies: at least one root to walk.
    pub open spec fn wf(&self) -> bool {
        self.roots@.len() > 0
    }

    /// Compose a policy. The walked tree is the union of the roots'
    /// subtrees; `excluded_paths` are matched by exact path equality, not by
    /// prefix or glob; an empty `type_filter` means every known type. A name
    /// in `type_filter` that the walker's type catalog does not know is a
    /// fatal configuration error, reported when the walker is assembled,
    /// before any traversal starts.
    pub fn build(
        roots: Vec<String>,
        excluded_paths: Vec<String>,
        respect_gitignore: bool,
        thread_count: usize,
        type_filter: Vec<String>,
    ) -> (p: TraversalPolicy)
        requires
            roots@.len() > 0,
        ensures
            p.wf(),
            p.roots == roots,
            p.excluded_paths == excluded_paths,
            p.respect_gitignore == respect_gitignore,
            p.thread_count == thread_count,
            p.type_filter == type_filter,
    {
        TraversalPolicy { roots, excluded_paths, respect_gitignore, thread_count, type_filter }
    }

    /// Whether the walk visits an entry: it does unless the entry's path is
    /// one of the excluded paths, letter for letter.
    pub fn keeps_entry(&self, path: &String) -> (keep: bool)
        ensures
            keep <==> !self.excluded_paths.deep_view().contains(path@),
    {
        !is_excluded(path, &self.excluded_paths)
    }
}

/// Whether `path` equals one of the excluded paths exactly — the conscious
/// simplification the walk filter makes: no prefix and no glob matching.
pub fn is_excluded(path: &String, excluded_paths: &Vec<String>) -> (r: bool)
    ensures
        r <==> excluded_paths.deep_view().contains(path@),
{
    let mut i: usize = 0;
    while i < excluded_paths.len()
        invariant
            i <= excluded_paths@.len(),
            forall|j: int| 0 <= j < i ==> excluded_paths.deep_view()[j] != path@,
        decreases excluded_paths@.len() - i,
    {
        if excluded_paths[i] == *path {
            proof {
                assert(excluded_paths.deep_view()[i as int] == path@);
            }
            return true;
        }
        i = i + 1;
    }
    proof {
        assert forall|j: int| 0 <= j < excluded_paths.deep_view().len() implies excluded_paths.deep_view()[j]
            != path@ by {}
    }
    false
}

} // verus!
