//! The shared slot holding the currently published tree: one writer (the
//! poller) replaces it wholesale each cycle, any number of readers take
//! snapshots. Built on vstd's verified reader-writer lock, so a reader
//! always sees a complete tree — either the one before an in-flight write
//! or the one after it, never a mix. The slot carries the publish history
//! in ghost state, anchored at the startup tree: a write extends it by the
//! tree it publishes, and a snapshot is the history's last entry as of the
//! read.

use vstd::prelude::*;
use vstd::rwlock::{RwLock, RwLockPredicate};

use crate::tree::{tree_of, ServiceStatus, StatusTree};

verus! {

/// The state behind the lock: the tree now current and, in ghost, the
/// models of every tree published so far, the current one last.
pub struct Published {
    pub tree: ServiceStatus,
    pub history: Ghost<Seq<StatusTree>>,
}

/// The lock invariant: the publish history starts at the holder's startup
/// tree, ends at the current tree, and holds only well-formed trees.
pub struct HolderInv {
    pub first: StatusTree,
}

impl RwLockPredicate<Published> for HolderInv {
    open spec fn inv(self, p: Published) -> bool {
        &&& p.history@.len() > 0
        &&& p.history@.first() == self.first
        &&& p.history@.last() == tree_of(p.tree)
        &&& forall|j: int| 0 <= j < p.history@.len() ==> (#[trigger] p.history@[j]).wf()
    }
}

/// Concurrency-safe container for the current health tree.
pub struct TreeHolder {
    lock: RwLock<Published, HolderInv>,
}

impl TreeHolder {
    /// The model of the tree this holder started with: the first entry of
    /// every publish history it ever hands out.
    pub closed spec fn initial(&self) -> StatusTree {
        self.lock.pred().first
    }

    /// Creates the holder; its startup tree is the first publication.
    pub fn new(initial: ServiceStatus) -> (h: TreeHolder)
        requires
            tree_of(initial).wf(),
        ensures
            h.initial() == tree_of(initial),
    {
        let ghost history = seq![tree_of(initial)];
        let p = Published { tree: initial, history: Ghost(history) };
        TreeHolder { lock: RwLock::new(p, Ghost(HolderInv { first: tree_of(initial) })) }
    }

    /// A snapshot of the currently published tree together with the
    /// publish history as of the read: the snapshot is the history's last
    /// entry in full — never an older or partial one — and the history
    /// starts at this holder's startup tree.
    pub fn read(&self) -> (r: (ServiceStatus, Ghost<Seq<StatusTree>>))
        ensures
            r.1@.len() > 0,
            r.1@.first() == self.initial(),
            r.0@ == r.1@.last(),
            r.1@.len() == 1 ==> r.0@ == self.initial(),
            forall|j: int| 0 <= j < r.1@.len() ==> (#[trigger] r.1@[j]).wf(),
            r.0@.wf(),
    {
        let handle = self.lock.acquire_read();
        let p = handle.borrow();
        let tree = p.tree.clone();
        let ghost history = p.history@;
        handle.release_read();
        (tree, Ghost(history))
    }

    /// Publishes a new tree, replacing the previous one wholesale and
    /// extending the publish history: the histories before and after the
    /// write are returned in ghost, the new tree appended as the latest
    /// entry. Called once per completed poll cycle.
    pub fn write(&self, t: ServiceStatus) -> (h: Ghost<(Seq<StatusTree>, Seq<StatusTree>)>)
        requires
            tree_of(t).wf(),
        ensures
            h@.1 == h@.0.push(tree_of(t)),
            h@.0.len() > 0,
            h@.0.first() == self.initial(),
            h@.1.last() == tree_of(t),
    {
        let (stale, handle) = self.lock.acquire_write();
        let ghost pre = stale.history@;
        let p = Published { tree: t, history: Ghost(pre.push(tree_of(t))) };
        handle.release_write(p);
        Ghost((pre, pre.push(tree_of(t))))
    }
}

} // verus!
