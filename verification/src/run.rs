//! Runs of a session: what holds of every sequence of events.

use crate::descriptor::DeviceDescriptor;
use crate::error::{Fatal, UsbError};
use crate::locate::{law_absent_console_not_found, passed_over};
use crate::session::{abort, Action, Event, Session, Step};
use vstd::prelude::*;

verus! {

impl Session {
    /// How far a session has come. The setup states are numbered in their
    /// order; the two states of the relay share a number, and `Failed` has the
    /// last.
    pub open spec fn progress(self) -> nat {
        match self {
            Session::Locating => 0,
            Session::Inspecting { .. } => 1,
            Session::Closed { .. } => 2,
            Session::Opened { .. } => 3,
            Session::DriverChecked { driver_active: true, .. } => 4,
            Session::DriverChecked { driver_active: false, .. } => 5,
            Session::Claimed { .. } => 6,
            Session::Forwarding { .. } => 6,
            Session::Failed { .. } => 7,
        }
    }

    /// The state that `events`, taken in order, lead to from `self`.
    pub open spec fn after(self, events: Seq<Event>) -> Session
        decreases events.len(),
    {
        if events.len() == 0 {
            self
        } else {
            self.after(events.drop_last()).spec_step(events.last()).0
        }
    }

    /// The call that the session asks for in answer to the event at index `k`
    /// of `events`, on a run that begins in `self`.
    pub open spec fn call(self, events: Seq<Event>, k: int) -> Action {
        self.after(events.take(k)).spec_step(events[k]).1.action
    }
}

/// A session only moves forward: no event leads back to an earlier state, and
/// during setup every event leads to a later one.
pub proof fn law_forward_only(session: Session, event: Event)
    ensures
        session.progress() <= session.spec_step(event).0.progress(),
        session.progress() < 6 ==> session.progress() < session.spec_step(event).0.progress(),
{
}

/// A failed session stays failed, and asks for nothing but to stop.
pub proof fn law_failure_is_final(fatal: Fatal, event: Event)
    ensures
        (Session::Failed { fatal }).spec_step(event) == abort(fatal),
{
}

/// Where no attached device is the console, the session ends on the
/// enumeration with `NotFound`: the device is never read, opened or claimed.
pub proof fn law_absent_console_ends_session(devices: Vec<Result<DeviceDescriptor, UsbError>>)
    requires
        forall|i: int| 0 <= i < devices@.len() ==> passed_over(#[trigger] devices@[i]),
    ensures
        Session::Locating.spec_step(Event::Enumerated(Ok(devices))) == abort(
            Fatal::Device(UsbError::NotFound),
        ),
{
    law_absent_console_not_found(devices@);
}

/// The state after `k + 1` events is one step from the state after `k`.
pub proof fn lemma_after_next(session: Session, events: Seq<Event>, k: int)
    requires
        0 <= k < events.len(),
    ensures
        session.after(events.take(k + 1)) == session.after(events.take(k)).spec_step(events[k]).0,
{
    assert(events.take(k + 1).drop_last() =~= events.take(k));
    assert(events.take(k + 1).last() == events[k]);
}

/// Along a run, progress never falls.
pub proof fn lemma_progress_monotone(session: Session, events: Seq<Event>, a: int, b: int)
    requires
        0 <= a <= b <= events.len(),
    ensures
        session.after(events.take(a)).progress() <= session.after(events.take(b)).progress(),
    decreases b - a,
{
    if a < b {
        lemma_progress_monotone(session, events, a, b - 1);
        lemma_after_next(session, events, b - 1);
        law_forward_only(session.after(events.take(b - 1)), events[b - 1]);
    }
}

/// Once a session has asked to stop, it asks for nothing else: after the first
/// failure no further call is made.
pub proof fn law_no_call_after_failure(session: Session, events: Seq<Event>, k: int, m: int)
    requires
        0 <= k < m < events.len(),
        session.call(events, k) is Abort,
    ensures
        session.call(events, m) == session.call(events, k),
    decreases m - k,
{
    lemma_after_next(session, events, k);
    let failed = session.after(events.take(k + 1));
    assert(failed is Failed);
    lemma_stays_failed(session, events, k + 1, m);
}

/// A run that has failed after `a` events is in the same state after any
/// longer prefix.
proof fn lemma_stays_failed(session: Session, events: Seq<Event>, a: int, b: int)
    requires
        0 <= a <= b <= events.len(),
        session.after(events.take(a)) is Failed,
    ensures
        session.after(events.take(b)) == session.after(events.take(a)),
    decreases b - a,
{
    if a < b {
        lemma_stays_failed(session, events, a, b - 1);
        lemma_after_next(session, events, b - 1);
    }
}

/// On every run, whatever the events, the interface is claimed once at most.
pub proof fn law_claim_at_most_once(session: Session, events: Seq<Event>, k: int, m: int)
    requires
        0 <= k < events.len(),
        0 <= m < events.len(),
        session.call(events, k) is Claim,
        session.call(events, m) is Claim,
    ensures
        k == m,
{
    if k < m {
        lemma_after_next(session, events, k);
        lemma_progress_monotone(session, events, k + 1, m);
    } else if m < k {
        lemma_after_next(session, events, m);
        lemma_progress_monotone(session, events, m + 1, k);
    }
}

/// A detach is only ever asked for in answer to a kernel-driver query that
/// found a driver active: where the query finds none, no detach occurs.
pub proof fn law_detach_only_if_driver_active(session: Session, events: Seq<Event>, k: int)
    requires
        0 <= k < events.len(),
        session.call(events, k) is Detach,
    ensures
        events[k] == Event::DriverQueried(Ok(true)),
{
}

/// On a run whose kernel-driver query finds no driver active, no detach is
/// ever asked for.
pub proof fn law_no_detach_without_driver(session: Session, events: Seq<Event>, q: int, k: int)
    requires
        0 <= q < events.len(),
        0 <= k < events.len(),
        session.after(events.take(q)) is Opened,
        events[q] == Event::DriverQueried(Ok(false)),
    ensures
        !(session.call(events, k) is Detach),
{
    if session.call(events, k) is Detach {
        if k < q {
            lemma_after_next(session, events, k);
            lemma_progress_monotone(session, events, k + 1, q);
        } else if q < k {
            lemma_after_next(session, events, q);
            lemma_progress_monotone(session, events, q + 1, k);
        }
    }
}

/// On every run, a detach comes before the claim.
pub proof fn law_detach_before_claim(session: Session, events: Seq<Event>, d: int, c: int)
    requires
        0 <= d < events.len(),
        0 <= c < events.len(),
        session.call(events, d) is Detach,
        session.call(events, c) is Claim,
    ensures
        d < c,
{
    if c < d {
        lemma_after_next(session, events, c);
        lemma_progress_monotone(session, events, c + 1, d);
    }
}

/// A kernel-driver query that finds a driver active is answered with a detach,
/// and the detach with the claim; one that finds none is answered with the
/// claim at once. Either way the claim is for the interface of the target.
pub proof fn law_claim_sequence(session: Session, driver_active: bool)
    requires
        session is Opened,
    ensures
        ({
            let interface = session->Opened_target.interface_number;
            let (checked, first) = session.spec_step(Event::DriverQueried(Ok(driver_active)));
            if driver_active {
                &&& first.action == Action::Detach { interface }
                &&& checked.spec_step(Event::Detached(Ok(()))).1.action == Action::Claim {
                    interface,
                }
            } else {
                first.action == Action::Claim { interface }
            }
        }),
{
}

/// A run that begins before the claim and ends with the interface claimed has
/// asked for the claim: together with [`law_claim_at_most_once`], exactly
/// once.
pub proof fn law_claimed_by_one_claim(session: Session, events: Seq<Event>)
    requires
        session.progress() < 5,
        5 <= session.after(events).progress() <= 6,
    ensures
        exists|k: int| 0 <= k < events.len() && #[trigger] session.call(events, k) is Claim,
    decreases events.len(),
{
    let n = events.len() as int;
    assert(n > 0);
    assert(events.take(n) =~= events);
    let before = events.drop_last();
    assert(events.take(n - 1) =~= before);
    let previous = session.after(before);
    law_forward_only(previous, events.last());
    if previous.progress() < 5 {
        assert(session.call(events, n - 1) is Claim);
    } else {
        law_claimed_by_one_claim(session, before);
        let k = choose|k: int| 0 <= k < before.len() && #[trigger] session.call(before, k) is Claim;
        assert(before.take(k) =~= events.take(k));
        assert(session.call(events, k) is Claim);
    }
}

} // verus!
