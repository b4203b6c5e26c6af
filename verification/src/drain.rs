//! Graceful shutdown: a drain signal broadcast to any number of
//! watchers, and a completion barrier the supervisor awaits.
//!
//! The real broadcast and completion channels live with the driver;
//! their shared state is modeled here as one [`DrainChannel`] value
//! the driver owns (the channel primitives serialize access to it
//! outside the library). The tokens [`Signal`], [`Watch`], [`Draining`]
//! and the [`Watching`] wrapper carry the protocol: dropping the
//! signal is the shutdown edge, each watcher observes it at most
//! once, and the barrier opens when the last watcher handle is
//! released.

use vstd::prelude::*;

verus! {

/// The shared state of the paired channels: whether the shutdown
/// broadcast has been sent (the signal consumed), and how many
/// watcher handles - senders of the completion channel - are alive.
pub struct DrainChannel {
    /// The shutdown edge every watcher observes.
    pub signaled: bool,
    /// Watcher handles alive; the barrier opens at zero.
    pub watchers: u64,
}

/// The unique shutdown broadcaster; consuming it is the edge.
pub struct Signal {
    token: (),
}

/// A broadcast receiver plus one slot of the completion barrier.
pub struct Watch {
    token: (),
}

/// The completion future the supervisor polls after draining.
pub struct Draining {
    token: (),
}

/// A long-running task paired with a watch and an edge-triggered
/// notification: the task is handed back to the driver's callback
/// exactly once, when the shutdown edge is first observed.
pub struct Watching<F> {
    /// The wrapped task; the driver polls it after every observation.
    pub task: F,
    /// The edge has been consumed: the on-drain callback already ran.
    pub notified: bool,
    /// The watch this wrapper holds until it is released.
    pub watch: Watch,
}

/// Create the paired shutdown broadcast and completion barrier: one
/// signal, one first watch, and the shared state both work on.
pub fn channel() -> (r: (Signal, Watch, DrainChannel))
    ensures
        r.2.signaled == false,
        r.2.watchers == 1,
{
    (Signal { token: () }, Watch { token: () }, DrainChannel { signaled: false, watchers: 1 })
}

impl Signal {
    /// Start draining: consuming the signal is the shutdown edge
    /// every watcher observes. Returns the future that completes once
    /// every watcher handle is released.
    pub fn drain(self, ch: &mut DrainChannel) -> (d: Draining)
        ensures
            final(ch).signaled == true,
            final(ch).watchers == old(ch).watchers,
    {
        ch.signaled = true;
        Draining { token: () }
    }
}

impl Watch {
    /// Another watcher handle toward the same barrier.
    pub fn clone_with(&self, ch: &mut DrainChannel) -> (w: Watch)
        requires
            old(ch).watchers < u64::MAX,
        ensures
            final(ch).watchers == old(ch).watchers + 1,
            final(ch).signaled == old(ch).signaled,
    {
        ch.watchers = ch.watchers + 1;
        Watch { token: () }
    }

    /// Pair a task with this watch; the shutdown edge has not been
    /// observed yet.
    pub fn watch<F>(self, task: F) -> (w: Watching<F>)
        ensures
            w.notified == false,
            w.task == task,
    {
        Watching { task, notified: false, watch: self }
    }

    /// Drop this watcher handle without ever watching; its barrier
    /// slot is released at once.
    pub fn release(self, ch: &mut DrainChannel)
        requires
            old(ch).watchers > 0,
        ensures
            final(ch).watchers == old(ch).watchers - 1,
            final(ch).signaled == old(ch).signaled,
    {
        ch.watchers = ch.watchers - 1;
    }
}

impl<F> Watching<F> {
    /// The non-blocking check a poll makes before polling the task:
    /// true exactly when the shutdown edge is there and has not been
    /// consumed - the one moment the driver runs its on-drain
    /// callback on the task. The edge is consumed by the first
    /// observation that sees it.
    pub fn observe(&mut self, ch: &DrainChannel) -> (fire: bool)
        ensures
            fire == (ch.signaled && !old(self).notified),
            final(self).notified == (old(self).notified || ch.signaled),
            final(self).task == old(self).task,
            final(self).watch == old(self).watch,
    {
        let fire = ch.signaled && !self.notified;
        if ch.signaled {
            self.notified = true;
        }
        fire
    }

    /// The wrapped task has completed (or is dropped): hand it back
    /// and release the watcher's barrier slot.
    pub fn release(self, ch: &mut DrainChannel) -> (t: F)
        requires
            old(ch).watchers > 0,
        ensures
            final(ch).watchers == old(ch).watchers - 1,
            final(ch).signaled == old(ch).signaled,
            t == self.task,
    {
        let Watching { task, notified: _, watch } = self;
        watch.release(ch);
        task
    }
}

impl Draining {
    /// Pending while any watcher handle is alive; ready the moment
    /// the last one is released.
    pub fn poll(&self, ch: &DrainChannel) -> (ready: bool)
        ensures
            ready == (ch.watchers == 0),
    {
        ch.watchers == 0
    }
}

/// How often the on-drain callback fires over a run of polls, when
/// the i-th poll observes the broadcast as `sigs[i]`.
pub open spec fn fire_count(notified: bool, sigs: Seq<bool>) -> int
    decreases sigs.len(),
{
    if sigs.len() == 0 {
        0
    } else {
        (if sigs[0] && !notified {
            1int
        } else {
            0int
        }) + fire_count(notified || sigs[0], sigs.skip(1))
    }
}

/// Law (edge-triggered notify): over any run of polls the on-drain
/// callback fires at most once, and never again once the edge has
/// been consumed - however many polls follow the signal.
pub proof fn lemma_notify_at_most_once(notified: bool, sigs: Seq<bool>)
    ensures
        fire_count(notified, sigs) <= 1,
        notified ==> fire_count(notified, sigs) == 0,
    decreases sigs.len(),
{
    if sigs.len() > 0 {
        lemma_notify_at_most_once(notified || sigs[0], sigs.skip(1));
    }
}

/// The watcher count after `k` releases.
pub open spec fn watchers_after_releases(w: int, k: nat) -> int
    decreases k,
{
    if k == 0 {
        w
    } else {
        watchers_after_releases(w - 1, (k - 1) as nat)
    }
}

/// Law (drain completion): with `n` watcher handles alive, the
/// draining future stays pending until every one has been released,
/// and becomes ready exactly then: after `k` releases the count is
/// `n - k`, which is the zero the barrier opens on exactly when
/// `k == n`.
pub proof fn lemma_drain_completion(n: int, k: nat)
    requires
        k <= n,
    ensures
        watchers_after_releases(n, k) == n - k,
        (watchers_after_releases(n, k) == 0) <==> k == n,
    decreases k,
{
    if k > 0 {
        lemma_drain_completion(n - 1, (k - 1) as nat);
    }
}

} // verus!
