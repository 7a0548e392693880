use vstd::prelude::*;

verus! {

/// Tracks whether the temporary worktree exists and so must be removed when
/// the run ends, however it ends.
#[derive(Debug)]
pub struct Cleanup {
    pub worktree_created: bool,
}

impl Cleanup {
    pub fn new() -> (r: Self)
        ensures
            !r.worktree_created,
    {
        Cleanup { worktree_created: false }
    }

    /// Records that the worktree has been created.
    pub fn mark_worktree(&mut self)
        ensures
            final(self).worktree_created,
    {
        self.worktree_created = true;
    }

    /// The finalizer's decision: `true` when the worktree must be removed.
    /// It is handed out once; a second call finds nothing left to remove.
    pub fn release(&mut self) -> (r: bool)
        ensures
            r == old(self).worktree_created,
            !final(self).worktree_created,
    {
        let due = self.worktree_created;
        self.worktree_created = false;
        due
    }
}

} // verus!
