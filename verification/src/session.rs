//! The life of a session: what it holds is acquired piece by piece, and
//! released again in the opposite order, whatever ends the session and
//! whether or not a release succeeds.

use vstd::prelude::*;

verus! {

/// Something a session holds while it runs and has to give back.
#[derive(Clone, Copy, Debug, PartialEq, Eq, Structural)]
pub enum Resource {
    /// The forwarded port between the device and this machine.
    PortForward,
    /// The virtual audio devices.
    AudioRouter,
    /// The terminal in raw mode.
    Terminal,
    /// The media pipeline.
    Pipeline,
}

/// Where a session stands.
#[derive(Clone, Copy, Debug, PartialEq, Eq, Structural)]
pub enum Phase {
    /// Resources are being acquired.
    Acquiring,
    /// All is acquired; the pipeline runs.
    Running,
    /// The session has ended and gives back what it holds.
    Releasing,
    /// Nothing is held any more.
    Finished,
}

/// What happened to a session.
#[derive(Clone, Copy, Debug, PartialEq, Eq, Structural)]
pub enum SessionEvent {
    /// A resource was acquired.
    Acquired(Resource),
    /// A resource could not be acquired.
    AcquireFailed(Resource),
    /// All resources are acquired and the pipeline was started.
    Started,
    /// The pipeline has stopped; `ok` tells whether it ran without fault.
    Stopped { ok: bool },
    /// The release that was asked for last is over; `ok` tells whether it
    /// succeeded.
    Released { ok: bool },
}

/// What a session asks for next.
#[derive(Clone, Copy, Debug, PartialEq, Eq, Structural)]
pub enum SessionAction {
    /// Go on: acquire the next resource, or run the pipeline.
    Proceed,
    /// Release this resource and report back.
    Release(Resource),
    /// Leave with this exit code.
    Exit { code: i32 },
    /// The event does not belong here; nothing has changed.
    Ignore,
}

/// A session: what it holds, in the order of acquisition, where it stands,
/// and whether anything went wrong that the exit code has to tell.
#[derive(Debug, PartialEq, Eq)]
pub struct Session {
    pub held: Vec<Resource>,
    pub phase: Phase,
    pub failed: bool,
}

/// A session as plain values.
pub struct SessionView {
    pub held: Seq<Resource>,
    pub phase: Phase,
    pub failed: bool,
}

impl View for Session {
    type V = SessionView;

    open spec fn view(&self) -> SessionView {
        SessionView { held: self.held@, phase: self.phase, failed: self.failed }
    }
}

/// A session that holds nothing yet.
pub open spec fn initial() -> SessionView {
    SessionView { held: Seq::empty(), phase: Phase::Acquiring, failed: false }
}

/// The exit code of a session.
pub open spec fn exit_code(failed: bool) -> i32 {
    if failed {
        1
    } else {
        0
    }
}

/// A session that starts to give back what it holds, or finishes at once
/// when it holds nothing, with what it asks for.
pub open spec fn start_release(held: Seq<Resource>, failed: bool) -> (SessionView, SessionAction) {
    if held.len() == 0 {
        (
            SessionView { held, phase: Phase::Finished, failed },
            SessionAction::Exit { code: exit_code(failed) },
        )
    } else {
        (
            SessionView { held, phase: Phase::Releasing, failed },
            SessionAction::Release(held.last()),
        )
    }
}

/// The session after an event, and what it asks for.
///
/// While acquiring, each acquired resource is put on top of what is held;
/// a failed acquisition holds nothing new and ends the session as failed.
/// A running session ends when the pipeline stops. A session that has
/// ended gives back what it holds from the top down: each report of a
/// release, good or bad, takes the top off and asks for the next one, and
/// the exit follows the last. An event that does not belong to the phase
/// changes nothing.
pub open spec fn step(session: SessionView, event: SessionEvent) -> (SessionView, SessionAction) {
    match (session.phase, event) {
        (Phase::Acquiring, SessionEvent::Acquired(resource)) => (
            SessionView { held: session.held.push(resource), ..session },
            SessionAction::Proceed,
        ),
        (Phase::Acquiring, SessionEvent::AcquireFailed(_)) => start_release(session.held, true),
        (Phase::Acquiring, SessionEvent::Started) => (
            SessionView { phase: Phase::Running, ..session },
            SessionAction::Proceed,
        ),
        (Phase::Running, SessionEvent::Stopped { ok }) => start_release(
            session.held,
            session.failed || !ok,
        ),
        (Phase::Releasing, SessionEvent::Released { ok }) => if session.held.len() == 0 {
            start_release(session.held, session.failed)
        } else {
            start_release(session.held.drop_last(), session.failed)
        },
        _ => (session, SessionAction::Ignore),
    }
}

/// The session after a run of events.
pub open spec fn after(session: SessionView, events: Seq<SessionEvent>) -> SessionView
    decreases events.len(),
{
    if events.len() == 0 {
        session
    } else {
        after(step(session, events.first()).0, events.drop_first())
    }
}

/// What a session asks for, event by event, over a run of events.
pub open spec fn actions(session: SessionView, events: Seq<SessionEvent>) -> Seq<SessionAction>
    decreases events.len(),
{
    if events.len() == 0 {
        Seq::empty()
    } else {
        seq![step(session, events.first()).1] + actions(
            step(session, events.first()).0,
            events.drop_first(),
        )
    }
}

/// The resources that a run of actions asks to release, in their order.
pub open spec fn released(actions: Seq<SessionAction>) -> Seq<Resource>
    decreases actions.len(),
{
    if actions.len() == 0 {
        Seq::empty()
    } else {
        match actions.first() {
            SessionAction::Release(resource) => seq![resource] + released(actions.drop_first()),
            _ => released(actions.drop_first()),
        }
    }
}

/// The events of acquiring the given resources, one after the other.
pub open spec fn acquisitions(resources: Seq<Resource>) -> Seq<SessionEvent> {
    Seq::new(resources.len(), |i: int| SessionEvent::Acquired(resources[i]))
}

/// The reports of as many releases as there are outcomes.
pub open spec fn release_reports(outcomes: Seq<bool>) -> Seq<SessionEvent> {
    Seq::new(outcomes.len(), |i: int| SessionEvent::Released { ok: outcomes[i] })
}

impl Session {
    /// A session that holds nothing yet.
    pub fn new() -> (session: Session)
        ensures
            session@ == initial(),
    {
        Session { held: Vec::new(), phase: Phase::Acquiring, failed: false }
    }

    /// Starts to give back what is held.
    fn begin_release(&mut self) -> (action: SessionAction)
        ensures
            (final(self)@, action) == start_release(old(self)@.held, old(self)@.failed),
    {
        let n = self.held.len();
        if n == 0 {
            self.phase = Phase::Finished;
            SessionAction::Exit {
                code: if self.failed {
                    1
                } else {
                    0
                },
            }
        } else {
            self.phase = Phase::Releasing;
            SessionAction::Release(self.held[n - 1])
        }
    }

    /// Takes note of an event and tells what to do next.
    pub fn handle(&mut self, event: SessionEvent) -> (action: SessionAction)
        ensures
            (final(self)@, action) == step(old(self)@, event),
    {
        match (self.phase, event) {
            (Phase::Acquiring, SessionEvent::Acquired(resource)) => {
                self.held.push(resource);
                SessionAction::Proceed
            },
            (Phase::Acquiring, SessionEvent::AcquireFailed(_)) => {
                self.failed = true;
                self.begin_release()
            },
            (Phase::Acquiring, SessionEvent::Started) => {
                self.phase = Phase::Running;
                SessionAction::Proceed
            },
            (Phase::Running, SessionEvent::Stopped { ok }) => {
                if !ok {
                    self.failed = true;
                }
                self.begin_release()
            },
            (Phase::Releasing, SessionEvent::Released { ok: _ }) => {
                if self.held.len() > 0 {
                    self.held.pop();
                }
                self.begin_release()
            },
            _ => SessionAction::Ignore,
        }
    }
}

/// What holds of a session at all times: while it gives back what it holds
/// there is something left to give back, once it has finished nothing is
/// left, and before it has ended nothing has failed.
pub open spec fn well_formed(session: SessionView) -> bool {
    &&& session.phase is Releasing ==> session.held.len() > 0
    &&& session.phase is Finished ==> session.held.len() == 0
    &&& (session.phase is Acquiring || session.phase is Running) ==> !session.failed
}

/// A new session is well formed, and no event makes a well formed session
/// ill formed.
pub proof fn lemma_step_keeps_well_formed(session: SessionView, event: SessionEvent)
    requires
        well_formed(session),
    ensures
        well_formed(initial()),
        well_formed(step(session, event).0),
{
}

/// A session stays well formed over any run of events.
pub proof fn lemma_stays_well_formed(session: SessionView, events: Seq<SessionEvent>)
    requires
        well_formed(session),
    ensures
        well_formed(after(session, events)),
    decreases events.len(),
{
    if events.len() > 0 {
        lemma_step_keeps_well_formed(session, events.first());
        lemma_stays_well_formed(step(session, events.first()).0, events.drop_first());
    }
}

/// A session that has finished stays as it is: every event is ignored, and
/// nothing is released a second time.
pub proof fn lemma_finished_is_final(session: SessionView, events: Seq<SessionEvent>)
    requires
        session.phase is Finished,
    ensures
        after(session, events) == session,
        released(actions(session, events)) == Seq::<Resource>::empty(),
    decreases events.len(),
{
    if events.len() > 0 {
        lemma_finished_is_final(session, events.drop_first());
        let all = actions(session, events);
        assert(all.first() == SessionAction::Ignore);
        assert(all.drop_first() =~= actions(session, events.drop_first()));
    }
}

/// A run of events can be cut in two: the second part goes on from where
/// the first part left the session.
pub proof fn lemma_events_concat(
    session: SessionView,
    first: Seq<SessionEvent>,
    second: Seq<SessionEvent>,
)
    ensures
        after(session, first + second) == after(after(session, first), second),
        actions(session, first + second) == actions(session, first) + actions(
            after(session, first),
            second,
        ),
    decreases first.len(),
{
    if first.len() == 0 {
        assert(first + second =~= second);
        assert(actions(session, first) + actions(session, second) =~= actions(session, second));
    } else {
        let next = step(session, first.first()).0;
        assert((first + second).first() == first.first());
        assert((first + second).drop_first() =~= first.drop_first() + second);
        lemma_events_concat(next, first.drop_first(), second);
        assert(actions(session, first + second) =~= actions(session, first) + actions(
            after(session, first),
            second,
        ));
    }
}

/// The releases of two runs of actions are those of the first, then those
/// of the second.
pub proof fn lemma_released_concat(first: Seq<SessionAction>, second: Seq<SessionAction>)
    ensures
        released(first + second) == released(first) + released(second),
    decreases first.len(),
{
    if first.len() == 0 {
        assert(first + second =~= second);
        assert(released(first) + released(second) =~= released(second));
    } else {
        assert((first + second).first() == first.first());
        assert((first + second).drop_first() =~= first.drop_first() + second);
        lemma_released_concat(first.drop_first(), second);
        assert(released(first + second) =~= released(first) + released(second));
    }
}

/// While a session acquires, what it acquires is put on what it holds, in
/// the order of acquisition, and nothing is released.
pub proof fn lemma_acquiring(session: SessionView, resources: Seq<Resource>)
    requires
        session.phase == Phase::Acquiring,
    ensures
        after(session, acquisitions(resources)) == (SessionView {
            held: session.held + resources,
            ..session
        }),
        released(actions(session, acquisitions(resources))) == Seq::<Resource>::empty(),
    decreases resources.len(),
{
    let events = acquisitions(resources);
    if resources.len() == 0 {
        assert(session.held + resources =~= session.held);
    } else {
        let next = step(session, events.first()).0;
        assert(events.first() == SessionEvent::Acquired(resources.first()));
        assert(events.drop_first() =~= acquisitions(resources.drop_first()));
        lemma_acquiring(next, resources.drop_first());
        assert(session.held.push(resources.first()) + resources.drop_first() =~= session.held
            + resources);
        let rest = actions(next, events.drop_first());
        assert(actions(session, events) == seq![SessionAction::Proceed] + rest);
        assert((seq![SessionAction::Proceed] + rest).drop_first() =~= rest);
    }
}

/// Once a session starts to give back what it holds, and each release is
/// reported back, good or bad, it asks for the release of all it holds from
/// the top down, and then for the exit.
pub proof fn lemma_unwinding(held: Seq<Resource>, failed: bool, outcomes: Seq<bool>)
    requires
        outcomes.len() == held.len(),
    ensures
        released(
            seq![start_release(held, failed).1] + actions(
                start_release(held, failed).0,
                release_reports(outcomes),
            ),
        ) == held.reverse(),
        after(start_release(held, failed).0, release_reports(outcomes)) == (SessionView {
            held: Seq::empty(),
            phase: Phase::Finished,
            failed,
        }),
        (seq![start_release(held, failed).1] + actions(
            start_release(held, failed).0,
            release_reports(outcomes),
        )).last() == (SessionAction::Exit { code: exit_code(failed) }),
    decreases held.len(),
{
    let begun = start_release(held, failed);
    let reports = release_reports(outcomes);
    let all = seq![begun.1] + actions(begun.0, reports);
    if held.len() == 0 {
        assert(held =~= Seq::<Resource>::empty());
        assert(all =~= seq![begun.1]);
        assert(all.drop_first() =~= Seq::<SessionAction>::empty());
        assert(released(all.drop_first()) =~= Seq::<Resource>::empty());
        assert(released(all) =~= Seq::<Resource>::empty());
        assert(released(all) =~= held.reverse());
    } else {
        let lower = held.drop_last();
        let next = start_release(lower, failed);
        assert(reports.first() == SessionEvent::Released { ok: outcomes.first() });
        assert(step(begun.0, reports.first()) == next);
        assert(reports.drop_first() =~= release_reports(outcomes.drop_first()));
        lemma_unwinding(lower, failed, outcomes.drop_first());
        let tail = seq![next.1] + actions(next.0, reports.drop_first());
        assert(actions(begun.0, reports) == tail);
        assert(all.first() == SessionAction::Release(held.last()));
        assert(all.drop_first() =~= tail);
        assert(released(all) == seq![held.last()] + released(tail));
        assert(seq![held.last()] + lower.reverse() =~= held.reverse());
        assert(all.last() == tail.last());
    }
}

/// Whatever was acquired, in whatever order, is released in exactly the
/// opposite order once the pipeline has stopped, and every release is asked
/// for whether or not the ones before it succeeded. The exit follows the
/// last release and tells whether the pipeline ran without fault.
pub proof fn lemma_teardown_reverses_acquisition(
    resources: Seq<Resource>,
    ran_ok: bool,
    outcomes: Seq<bool>,
)
    requires
        outcomes.len() == resources.len(),
    ensures
        ({
            let events = acquisitions(resources) + seq![
                SessionEvent::Started,
                SessionEvent::Stopped { ok: ran_ok },
            ] + release_reports(outcomes);
            &&& released(actions(initial(), events)) == resources.reverse()
            &&& actions(initial(), events).last() == (SessionAction::Exit {
                code: exit_code(!ran_ok),
            })
            &&& after(initial(), events) == (SessionView {
                held: Seq::empty(),
                phase: Phase::Finished,
                failed: !ran_ok,
            })
        }),
{
    let acquire = acquisitions(resources);
    let run = seq![SessionEvent::Started, SessionEvent::Stopped { ok: ran_ok }];
    let reports = release_reports(outcomes);
    let events = acquire + run + reports;
    lemma_acquiring(initial(), resources);
    assert(initial().held + resources =~= resources);
    let acquired = after(initial(), acquire);
    let running = step(acquired, SessionEvent::Started).0;
    let begun = start_release(resources, !ran_ok);
    assert(step(running, SessionEvent::Stopped { ok: ran_ok }) == begun);
    assert(run.drop_first() =~= seq![SessionEvent::Stopped { ok: ran_ok }]);
    assert(run.drop_first().drop_first() =~= Seq::<SessionEvent>::empty());
    assert(after(acquired, run) == begun.0) by {
        reveal_with_fuel(after, 3);
    }
    assert(actions(acquired, run) =~= seq![SessionAction::Proceed, begun.1]) by {
        reveal_with_fuel(actions, 3);
    }
    lemma_events_concat(initial(), acquire, run);
    lemma_events_concat(initial(), acquire + run, reports);
    lemma_unwinding(resources, !ran_ok, outcomes);
    let head = actions(initial(), acquire);
    let tail = seq![begun.1] + actions(begun.0, reports);
    assert(actions(initial(), events) =~= (head + seq![SessionAction::Proceed]) + tail);
    lemma_released_concat(head + seq![SessionAction::Proceed], tail);
    lemma_released_concat(head, seq![SessionAction::Proceed]);
    assert(seq![SessionAction::Proceed].drop_first() =~= Seq::<SessionAction>::empty());
    assert(released(seq![SessionAction::Proceed]) =~= Seq::<Resource>::empty()) by {
        reveal_with_fuel(released, 2);
    }
    assert(released(actions(initial(), events)) =~= resources.reverse());
}

/// Where an acquisition fails, what was acquired before it is still
/// released, in the opposite order of its acquisition; the resource that
/// could not be acquired is never asked to be released. The session leaves
/// with the exit code of a failure.
pub proof fn lemma_failed_acquisition_releases_the_rest(
    resources: Seq<Resource>,
    missing: Resource,
    outcomes: Seq<bool>,
)
    requires
        outcomes.len() == resources.len(),
    ensures
        ({
            let events = acquisitions(resources) + seq![SessionEvent::AcquireFailed(missing)]
                + release_reports(outcomes);
            &&& released(actions(initial(), events)) == resources.reverse()
            &&& released(actions(initial(), events)).len() == resources.len()
            &&& actions(initial(), events).last() == (SessionAction::Exit { code: 1 })
            &&& after(initial(), events) == (SessionView {
                held: Seq::empty(),
                phase: Phase::Finished,
                failed: true,
            })
        }),
{
    let acquire = acquisitions(resources);
    let fail = seq![SessionEvent::AcquireFailed(missing)];
    let reports = release_reports(outcomes);
    let events = acquire + fail + reports;
    lemma_acquiring(initial(), resources);
    assert(initial().held + resources =~= resources);
    let acquired = after(initial(), acquire);
    let begun = start_release(resources, true);
    assert(step(acquired, SessionEvent::AcquireFailed(missing)) == begun);
    assert(fail.drop_first() =~= Seq::<SessionEvent>::empty());
    assert(after(acquired, fail) == begun.0) by {
        reveal_with_fuel(after, 2);
    }
    assert(actions(acquired, fail) =~= seq![begun.1]) by {
        reveal_with_fuel(actions, 2);
    }
    lemma_events_concat(initial(), acquire, fail);
    lemma_events_concat(initial(), acquire + fail, reports);
    lemma_unwinding(resources, true, outcomes);
    let head = actions(initial(), acquire);
    let tail = seq![begun.1] + actions(begun.0, reports);
    assert(actions(initial(), events) =~= head + tail);
    lemma_released_concat(head, tail);
    assert(released(actions(initial(), events)) =~= resources.reverse());
}

} // verus!
