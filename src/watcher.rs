//! Decisions of the change watcher: when to rebuild the OS watcher and which batches
//! of changes end a wait.
use crate::entities::{path_key, RepoRoot};
use crate::ignored_path::{batch_ignored, is_ignored, IgnoredPath};
use vstd::prelude::*;

verus! {

/// Where a wait for a change stands.
#[derive(Debug, Clone, Copy, PartialEq, Eq, Structural)]
pub enum WatchPhase {
    /// No wait in progress.
    Idle,
    /// The OS watcher is being rebuilt for another root.
    Reattaching,
    /// Waiting for a batch of changes that is not ignored.
    Blocked,
}

/// The state of a change watcher apart from its OS handles: the root it follows, the
/// phase of the current wait, and the ignored path patterns fixed at configuration.
#[derive(Debug)]
pub struct WatchState {
    root: RepoRoot,
    phase: WatchPhase,
    ignored_paths: Vec<IgnoredPath>,
}

impl WatchState {
    /// The root the OS watcher follows.
    pub closed spec fn watched(&self) -> Seq<char> {
        self.root@
    }

    pub closed spec fn phase(&self) -> WatchPhase {
        self.phase
    }

    pub closed spec fn patterns(&self) -> Seq<IgnoredPath> {
        self.ignored_paths@
    }

    /// A wait under `root` must first rebuild the OS watcher: `root` is another path
    /// than the one followed.
    pub open spec fn needs_reattach(&self, root: Seq<char>) -> bool {
        path_key(self.watched()) != path_key(root)
    }

    /// A watcher that follows `root` and ignores changes matched by `ignored_paths`.
    pub fn make(root: RepoRoot, ignored_paths: Vec<IgnoredPath>) -> (r: Self)
        ensures
            r.watched() == root@,
            r.phase() == WatchPhase::Idle,
            r.patterns() == ignored_paths@,
    {
        WatchState { root, phase: WatchPhase::Idle, ignored_paths }
    }

    pub fn watched_root(&self) -> (r: &RepoRoot)
        ensures
            r@ == self.watched(),
    {
        &self.root
    }

    pub fn current_phase(&self) -> (r: WatchPhase)
        ensures
            r == self.phase(),
    {
        self.phase
    }

    /// A wait for a change under `root` begins. Returns whether the OS watcher has to be
    /// rebuilt for `root` first; if not, the wait blocks at once. Waiting again under the
    /// root already followed (however it is written) never rebuilds the watcher.
    pub fn begin_wait(&mut self, root: &RepoRoot) -> (reattach: bool)
        ensures
            reattach == old(self).needs_reattach(root@),
            path_key(old(self).watched()) == path_key(root@) ==> !reattach,
            final(self).watched() == old(self).watched(),
            final(self).patterns() == old(self).patterns(),
            final(self).phase() == (if reattach {
                WatchPhase::Reattaching
            } else {
                WatchPhase::Blocked
            }),
    {
        let reattach = !(self.root == *root);
        self.phase = if reattach {
            WatchPhase::Reattaching
        } else {
            WatchPhase::Blocked
        };
        reattach
    }

    /// The OS watcher was rebuilt for `root`; the wait now blocks.
    pub fn reattached(&mut self, root: RepoRoot)
        ensures
            final(self).watched() == root@,
            final(self).patterns() == old(self).patterns(),
            final(self).phase() == WatchPhase::Blocked,
    {
        self.root = root;
        self.phase = WatchPhase::Blocked;
    }

    /// The wait ended with an error; the watcher keeps the root it had.
    pub fn abort_wait(&mut self)
        ensures
            final(self).watched() == old(self).watched(),
            final(self).patterns() == old(self).patterns(),
            final(self).phase() == WatchPhase::Idle,
    {
        self.phase = WatchPhase::Idle;
    }

    /// Whether every path of a batch is matched by some ignored pattern.
    pub fn is_ignored(&self, paths: &Vec<String>) -> (r: bool)
        ensures
            r == batch_ignored(self.patterns(), paths@),
    {
        is_ignored(&self.ignored_paths, paths)
    }

    /// A coalesced batch of changed paths arrived during a wait. It ends the wait
    /// exactly when some path in it is matched by no ignored pattern; a batch whose
    /// every path is ignored is dropped and the wait goes on.
    pub fn on_batch(&mut self, paths: &Vec<String>) -> (accepted: bool)
        ensures
            accepted == !batch_ignored(old(self).patterns(), paths@),
            final(self).watched() == old(self).watched(),
            final(self).patterns() == old(self).patterns(),
            final(self).phase() == (if accepted {
                WatchPhase::Idle
            } else {
                WatchPhase::Blocked
            }),
    {
        let accepted = !is_ignored(&self.ignored_paths, paths);
        self.phase = if accepted {
            WatchPhase::Idle
        } else {
            WatchPhase::Blocked
        };
        accepted
    }
}

} // verus!
