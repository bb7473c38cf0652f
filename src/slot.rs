//! The supervisor's slot: empty, or holding the one running worker's
//! handle. Every operation hands out whatever handle it removes, so the
//! caller that receives it terminates and reaps it outside the lock.
use vstd::multiset::Multiset;
use vstd::prelude::*;

verus! {

/// The handles held by an optional value: none or one.
pub open spec fn handles<H>(o: Option<H>) -> Multiset<H> {
    match o {
        Some(h) => Multiset::singleton(h),
        None => Multiset::empty(),
    }
}

/// Taking the slot's content: the slot afterwards, and what is handed out.
pub open spec fn taken<H>(s: Option<H>) -> (Option<H>, Option<H>) {
    (None, s)
}

/// Storing `h`: the slot afterwards, and the handle it displaced.
pub open spec fn installed<H>(s: Option<H>, h: H) -> (Option<H>, Option<H>) {
    (Some(h), s)
}

/// An explicit stop: the slot afterwards, and the handle to terminate.
pub open spec fn stopped<H>(s: Option<H>) -> (Option<H>, Option<H>) {
    taken(s)
}

/// The host's close notification: the slot afterwards, and the handle to
/// terminate.
pub open spec fn shut_down<H>(s: Option<H>) -> (Option<H>, Option<H>) {
    match s {
        Some(h) => (None, Some(h)),
        None => (None, None),
    }
}

/// A single cell holding at most one running worker.
pub struct Slot<H> {
    current: Option<H>,
}

impl<H> Slot<H> {
    /// The handle the slot holds, if any.
    pub closed spec fn held(&self) -> Option<H> {
        self.current
    }

    /// An empty slot.
    pub fn new() -> (r: Slot<H>)
        ensures
            r.held() is None,
    {
        Slot { current: None }
    }

    /// Whether a worker is held.
    pub fn is_running(&self) -> (r: bool)
        ensures
            r == self.held() is Some,
    {
        self.current.is_some()
    }

    /// Removes and returns the held handle, leaving the slot empty.
    pub fn take(&mut self) -> (r: Option<H>)
        ensures
            (final(self).held(), r) == taken(old(self).held()),
    {
        let mut r: Option<H> = None;
        std::mem::swap(&mut r, &mut self.current);
        r
    }

    /// Stores `h`, returning whatever it displaced.
    pub fn install(&mut self, h: H) -> (r: Option<H>)
        ensures
            (final(self).held(), r) == installed(old(self).held(), h),
    {
        let mut r: Option<H> = Some(h);
        std::mem::swap(&mut r, &mut self.current);
        r
    }

    /// First half of a start: empties the slot and hands out the previous
    /// worker, to be terminated before the new one is launched.
    pub fn begin_start(&mut self) -> (r: Option<H>)
        ensures
            (final(self).held(), r) == taken(old(self).held()),
    {
        self.take()
    }

    /// Second half of a start: stores the freshly launched worker. A worker
    /// that a concurrent start stored meanwhile is handed back, to be
    /// terminated too.
    pub fn finish_start(&mut self, h: H) -> (r: Option<H>)
        ensures
            (final(self).held(), r) == installed(old(self).held(), h),
    {
        self.install(h)
    }

    /// An explicit stop: empties the slot and hands out the worker to
    /// terminate, if any.
    pub fn stop(&mut self) -> (r: Option<H>)
        ensures
            (final(self).held(), r) == stopped(old(self).held()),
    {
        self.take()
    }

    /// The host is closing: empties the slot and hands out the worker to
    /// terminate, if any.
    pub fn on_shutdown(&mut self) -> (r: Option<H>)
        ensures
            (final(self).held(), r) == shut_down(old(self).held()),
    {
        self.take()
    }
}

/// No handle is created or lost: what a take or an install leaves in the
/// slot, together with what it hands out, is exactly what was there before
/// plus what was stored; and the slot never holds more than one handle.
pub proof fn lemma_handles_conserved<H>(s: Option<H>, h: H)
    ensures
        handles(taken(s).0).add(handles(taken(s).1)) == handles(s),
        handles(installed(s, h).0).add(handles(installed(s, h).1)) == handles(s).insert(h),
        handles(s).len() <= 1,
{
    assert(handles(taken(s).0).add(handles(taken(s).1)) =~= handles(s));
    assert(handles(installed(s, h).0).add(handles(installed(s, h).1)) =~= handles(s).insert(h));
}

/// A start on a running slot hands the old worker out before the new one is
/// stored, and, with no concurrent start in between, leaves only the new
/// worker in the slot and nothing else to terminate.
pub proof fn lemma_restart_replaces<H>(old_worker: H, new_worker: H)
    ensures
        taken(Some(old_worker)).1 == Some(old_worker),
        installed(taken(Some(old_worker)).0, new_worker) == (Some(new_worker), None::<H>),
{
}

/// Stopping an empty slot hands nothing out, so there is nothing to
/// terminate, and the slot stays empty.
pub proof fn lemma_stop_when_empty_is_noop<H>()
    ensures
        stopped(None::<H>) == (None::<H>, None::<H>),
{
}

/// The host's close notification has the same effect as an explicit stop,
/// on the slot and on what is handed out to terminate.
pub proof fn lemma_shutdown_is_stop<H>(s: Option<H>)
    ensures
        shut_down(s) == stopped(s),
{
}

} // verus!
