use vstd::prelude::*;

verus! {

/// How a path of the working tree differs from the last commit.
#[derive(Clone, Copy, Debug, PartialEq, Eq, Structural)]
pub enum ChangeKind {
    Added,
    Modified,
    Deleted,
    Untracked,
}

/// One changed path of the working tree.
#[derive(Debug)]
pub struct PathChange {
    pub path: String,
    pub kind: ChangeKind,
}

/// The changed paths of the working tree, in the order they were reported.
/// It is read anew for every synchronization.
#[derive(Debug)]
pub struct WorkingTreeStatus {
    pub changes: Vec<PathChange>,
}

impl WorkingTreeStatus {
    /// The status of a working tree without changes.
    pub fn clean() -> (status: WorkingTreeStatus)
        ensures
            status.changes@.len() == 0,
    {
        WorkingTreeStatus { changes: Vec::new() }
    }

    /// Adds one changed path at the end.
    pub fn record(&mut self, path: &str, kind: ChangeKind)
        ensures
            final(self).changes@.len() == old(self).changes@.len() + 1,
            final(self).changes@.last().path@ == path@,
            final(self).changes@.last().kind == kind,
            final(self).changes@.drop_last() == old(self).changes@,
    {
        self.changes.push(PathChange { path: String::from_str(path), kind });
        assert(self.changes@.drop_last() =~= old(self).changes@);
    }

    /// The number of changed paths.
    pub fn len(&self) -> (count: usize)
        ensures
            count == self.changes@.len(),
    {
        self.changes.len()
    }

    /// Whether nothing is waiting to be committed.
    pub fn is_clean(&self) -> (clean: bool)
        ensures
            clean == (self.changes@.len() == 0),
    {
        self.changes.len() == 0
    }
}

} // verus!
