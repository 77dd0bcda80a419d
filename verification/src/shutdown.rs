//! The shutdown coordinator: the life of the listener as a state machine.
//!
//! The server accepts connections until the shutdown signal fires, then
//! drains: it accepts nothing more and lets every connection in flight
//! finish. It is stopped once none is left. The machine decides; the caller
//! owns the listener and the tasks, reports what happens as events, and
//! carries out the action that each step returns.

use vstd::prelude::*;

verus! {

/// Where the listener is in its life.
#[derive(Clone, Copy, Debug, PartialEq, Eq, Structural)]
pub enum Phase {
    /// New connections are accepted.
    Accepting,
    /// The signal has fired and connections are still in flight.
    Draining,
    /// The signal has fired and nothing is in flight.
    Stopped,
}

/// Something that happened outside.
#[derive(Clone, Copy, Debug, PartialEq, Eq, Structural)]
pub enum Event {
    /// The listener has a new connection to hand over.
    Incoming,
    /// The shutdown signal fired.
    Shutdown,
    /// The connection with this number came to its end, however it ended.
    Finished(u64),
}

/// What the caller is to do after a step.
#[derive(Clone, Copy, Debug, PartialEq, Eq, Structural)]
pub enum Action {
    /// Take the new connection and serve it under this number.
    Serve(u64),
    /// Turn the new connection away.
    Refuse,
    /// Stop listening and tell the connections in flight to finish.
    Drain,
    /// Everything has finished: return.
    Stop,
    /// Nothing to do.
    Wait,
}

/// The coordinator as plain values.
pub struct State {
    /// The phase.
    pub phase: Phase,
    /// The numbers of the connections in flight.
    pub in_flight: Set<u64>,
    /// How many connections have been accepted so far; the next one gets
    /// this number.
    pub issued: nat,
}

impl State {
    /// The state of a server that has just begun to listen.
    pub open spec fn initial() -> State {
        State { phase: Phase::Accepting, in_flight: Set::<u64>::empty(), issued: 0 }
    }

    /// Whether nothing is in flight.
    pub open spec fn idle(self) -> bool {
        self.in_flight.is_empty()
    }

    /// What holds of every state that a server can be in: a connection in
    /// flight has a number that was issued, a stopped server has nothing in
    /// flight, and a draining server has something in flight.
    pub open spec fn wf(self) -> bool {
        &&& self.issued <= u64::MAX
        &&& forall|id: u64| self.in_flight.contains(id) ==> id < self.issued
        &&& self.phase == Phase::Stopped ==> self.idle()
        &&& self.phase == Phase::Draining ==> !self.idle()
    }

    /// The phase after one connection fewer is in flight: a draining server
    /// stops when the last one has gone.
    pub open spec fn settled(self) -> State {
        if self.phase == Phase::Draining && self.idle() {
            State { phase: Phase::Stopped, ..self }
        } else {
            self
        }
    }

    /// One step of the machine: the next state, and the action for the
    /// caller.
    pub open spec fn step(self, event: Event) -> (State, Action) {
        match event {
            Event::Incoming => {
                if self.phase == Phase::Accepting && self.issued < u64::MAX {
                    (
                        State {
                            phase: Phase::Accepting,
                            in_flight: self.in_flight.insert(self.issued as u64),
                            issued: self.issued + 1,
                        },
                        Action::Serve(self.issued as u64),
                    )
                } else {
                    (self, Action::Refuse)
                }
            },
            Event::Shutdown => {
                if self.phase == Phase::Accepting {
                    if self.idle() {
                        (State { phase: Phase::Stopped, ..self }, Action::Stop)
                    } else {
                        (State { phase: Phase::Draining, ..self }, Action::Drain)
                    }
                } else {
                    (self, Action::Wait)
                }
            },
            Event::Finished(id) => {
                let next = State { in_flight: self.in_flight.remove(id), ..self }.settled();
                (
                    next,
                    if self.phase == Phase::Draining && next.phase == Phase::Stopped {
                        Action::Stop
                    } else {
                        Action::Wait
                    },
                )
            },
        }
    }

    /// The state after a run of events.
    pub open spec fn run(self, events: Seq<Event>) -> State
        decreases events.len(),
    {
        if events.len() == 0 {
            self
        } else {
            self.step(events[0]).0.run(events.drop_first())
        }
    }
}

/// Every step leads from a well-formed state to a well-formed state.
pub proof fn lemma_step_keeps_wf(s: State, event: Event)
    requires
        s.wf(),
    ensures
        s.step(event).0.wf(),
{
}

/// Every state that a server reaches from its start is well-formed: in
/// particular it is stopped only when nothing is in flight, and it does not
/// go on draining once nothing is.
pub proof fn lemma_run_keeps_wf(s: State, events: Seq<Event>)
    requires
        s.wf(),
    ensures
        s.run(events).wf(),
    decreases events.len(),
{
    if events.len() > 0 {
        lemma_step_keeps_wf(s, events[0]);
        lemma_run_keeps_wf(s.step(events[0]).0, events.drop_first());
    }
}

/// The caller is told to stop exactly at the step on which the server
/// becomes stopped, and so at most once.
pub proof fn lemma_stop_is_reported_once(s: State, event: Event)
    requires
        s.wf(),
    ensures
        s.step(event).1 == Action::Stop <==> s.phase != Phase::Stopped && s.step(event).0.phase
            == Phase::Stopped,
{
}

/// Once the shutdown signal has fired, no connection is accepted any more:
/// whatever happens afterwards, the server never accepts again, issues no
/// further number, and has nothing in flight that was not in flight when the
/// signal fired.
pub proof fn lemma_no_accept_after_shutdown(s: State, events: Seq<Event>)
    requires
        s.phase != Phase::Accepting,
    ensures
        s.step(Event::Incoming) == (s, Action::Refuse),
        s.run(events).phase != Phase::Accepting,
        s.run(events).issued == s.issued,
        s.run(events).in_flight.subset_of(s.in_flight),
    decreases events.len(),
{
    if events.len() > 0 {
        let next = s.step(events[0]).0;
        lemma_no_accept_after_shutdown(next, events.drop_first());
    }
}

/// A connection in flight stays in flight until it has finished, and the
/// server is not stopped before: whatever else happens in the meantime, the
/// shutdown signal included, nothing but its own end takes a connection out.
pub proof fn lemma_in_flight_until_finished(s: State, events: Seq<Event>, id: u64)
    requires
        s.wf(),
        s.in_flight.contains(id),
        forall|i: int| 0 <= i < events.len() ==> events[i] != Event::Finished(id),
    ensures
        s.run(events).in_flight.contains(id),
        s.run(events).phase != Phase::Stopped,
    decreases events.len(),
{
    if events.len() > 0 {
        let next = s.step(events[0]).0;
        let rest = events.drop_first();
        lemma_step_keeps_wf(s, events[0]);
        lemma_in_flight_until_finished(next, rest, id);
    }
}

/// The shutdown signal drains the server. The signal itself takes nothing out
/// of flight. Whatever happens after it, no connection is accepted; and a
/// connection that was in flight when it fired is still in flight, and the
/// server still draining, for as long as that connection has not finished.
pub proof fn lemma_shutdown_drains(s: State, events: Seq<Event>, id: u64)
    requires
        s.wf(),
    ensures
        ({
            let fired = s.step(Event::Shutdown).0;
            let end = fired.run(events);
            &&& fired.phase != Phase::Accepting
            &&& fired.in_flight == s.in_flight
            &&& end.phase != Phase::Accepting
            &&& end.issued == s.issued
            &&& end.in_flight.subset_of(s.in_flight)
            &&& s.in_flight.contains(id) && (forall|i: int|
                0 <= i < events.len() ==> events[i] != Event::Finished(id))
                ==> end.in_flight.contains(id) && end.phase == Phase::Draining
        }),
{
    let fired = s.step(Event::Shutdown).0;
    lemma_step_keeps_wf(s, Event::Shutdown);
    lemma_no_accept_after_shutdown(fired, events);
    if s.in_flight.contains(id) && (forall|i: int|
        0 <= i < events.len() ==> events[i] != Event::Finished(id)) {
        lemma_in_flight_until_finished(fired, events, id);
    }
}

/// The events that report the end of each of these connections, in order.
pub open spec fn finished_all(ids: Seq<u64>) -> Seq<Event> {
    Seq::new(ids.len(), |i: int| Event::Finished(ids[i]))
}

/// Draining comes to an end: once every connection in flight has finished,
/// in whatever order, the server is stopped.
pub proof fn lemma_drain_completes(s: State, ids: Seq<u64>)
    requires
        s.wf(),
        s.phase != Phase::Accepting,
        s.in_flight.subset_of(ids.to_set()),
    ensures
        s.run(finished_all(ids)).phase == Phase::Stopped,
    decreases ids.len(),
{
    let events = finished_all(ids);
    if ids.len() > 0 {
        let next = s.step(events[0]).0;
        let rest = ids.drop_first();
        lemma_step_keeps_wf(s, events[0]);
        assert(events.drop_first() =~= finished_all(rest));
        assert forall|id: u64| next.in_flight.contains(id) implies rest.to_set().contains(id) by {
            let k = choose|k: int| 0 <= k < ids.len() && ids[k] == id;
            assert(rest[k - 1] == id);
        }
        lemma_drain_completes(next, rest);
    }
}

/// The shutdown signal is idempotent: fired again, it changes nothing and
/// asks nothing of the caller.
pub proof fn lemma_shutdown_is_idempotent(s: State)
    ensures
        s.phase != Phase::Accepting ==> s.step(Event::Shutdown) == (s, Action::Wait),
        s.step(Event::Shutdown).0.step(Event::Shutdown) == (
            s.step(Event::Shutdown).0,
            Action::Wait,
        ),
{
}

/// What goes wrong on one connection stays there: when a connection ends,
/// for whatever reason, every other connection in flight is still in flight
/// and the server is not stopped under it.
pub proof fn lemma_failure_is_local(s: State, failed: u64, other: u64)
    requires
        s.wf(),
        failed != other,
        s.in_flight.contains(other),
    ensures
        s.step(Event::Finished(failed)).0.in_flight.contains(other),
        s.step(Event::Finished(failed)).0.phase == s.phase,
        s.step(Event::Finished(failed)).0.phase != Phase::Stopped,
        s.step(Event::Finished(failed)).0.in_flight == s.in_flight.remove(failed),
{
}

/// The coordinator. It holds no connection, only their numbers.
pub struct Coordinator {
    phase: Phase,
    issued: u64,
    in_flight: Vec<u64>,
}

impl View for Coordinator {
    type V = State;

    closed spec fn view(&self) -> State {
        State {
            phase: self.phase,
            in_flight: self.in_flight@.to_set(),
            issued: self.issued as nat,
        }
    }
}

/// Copies `ids` without `id`.
fn without(ids: &Vec<u64>, id: u64) -> (rest: Vec<u64>)
    ensures
        rest@.to_set() == ids@.to_set().remove(id),
{
    let mut rest: Vec<u64> = Vec::new();
    let mut i: usize = 0;
    while i < ids.len()
        invariant
            i <= ids@.len(),
            rest@.to_set() == ids@.subrange(0, i as int).to_set().remove(id),
        decreases ids@.len() - i,
    {
        let current: u64 = ids[i];
        proof {
            let seen = ids@.subrange(0, i as int);
            assert(ids@.subrange(0, i as int + 1) =~= seen.push(current));
            seen.lemma_push_to_set_commute(current);
            rest@.lemma_push_to_set_commute(current);
        }
        if current != id {
            rest.push(current);
        }
        i += 1;
    }
    assert(ids@.subrange(0, i as int) =~= ids@);
    rest
}

/// A list of numbers is empty exactly when the set of its numbers is.
proof fn lemma_empty_list_is_empty_set(ids: Seq<u64>)
    ensures
        ids.len() == 0 <==> ids.to_set().is_empty(),
{
    if ids.len() > 0 {
        assert(ids.to_set().contains(ids[0]));
    }
}

impl Coordinator {
    #[verifier::type_invariant]
    spec fn inv(self) -> bool {
        self@.wf()
    }

    /// A coordinator for a server that has just begun to listen.
    pub fn new() -> (coordinator: Coordinator)
        ensures
            coordinator@ == State::initial(),
    {
        let coordinator = Coordinator { phase: Phase::Accepting, issued: 0, in_flight: Vec::new() };
        assert(coordinator@.in_flight =~= Set::<u64>::empty());
        coordinator
    }

    /// The phase.
    pub fn phase(&self) -> (phase: Phase)
        ensures
            phase == self@.phase,
            self@.wf(),
    {
        proof {
            use_type_invariant(self);
        }
        self.phase
    }

    /// Whether the connection with this number is in flight.
    pub fn is_in_flight(&self, id: u64) -> (found: bool)
        ensures
            found == self@.in_flight.contains(id),
    {
        let mut i: usize = 0;
        while i < self.in_flight.len()
            invariant
                i <= self.in_flight@.len(),
                forall|k: int| 0 <= k < i ==> self.in_flight@[k] != id,
            decreases self.in_flight@.len() - i,
        {
            if self.in_flight[i] == id {
                return true;
            }
            i += 1;
        }
        false
    }

    /// Takes one event; gives the coordinator after it, and what the caller
    /// is to do.
    ///
    /// While accepting, a new connection is served under the next number.
    /// The shutdown signal ends accepting: the server drains, or stops at
    /// once where nothing is in flight; a second signal changes nothing.
    /// A finished connection leaves the set in flight, and the last one to
    /// leave a draining server stops it.
    pub fn step(self, event: Event) -> (next: (Coordinator, Action))
        ensures
            (next.0@, next.1) == self@.step(event),
            self@.wf(),
            next.0@.wf(),
    {
        let ghost before = self@;
        proof {
            use_type_invariant(&self);
            assert(before.wf());
        }
        let Coordinator { phase, issued, in_flight } = self;
        match event {
            Event::Incoming => {
                if phase == Phase::Accepting && issued < u64::MAX {
                    let mut in_flight = in_flight;
                    proof {
                        let added = in_flight@.push(issued).to_set();
                        in_flight@.lemma_push_to_set_commute(issued);
                        assert forall|id: u64| added.contains(id) implies id <= issued by {
                            if id != issued {
                                assert(before.in_flight.contains(id));
                            }
                        }
                    }
                    in_flight.push(issued);
                    (Coordinator { phase, issued: issued + 1, in_flight }, Action::Serve(issued))
                } else {
                    (Coordinator { phase, issued, in_flight }, Action::Refuse)
                }
            },
            Event::Shutdown => {
                if phase == Phase::Accepting {
                    proof {
                        lemma_empty_list_is_empty_set(in_flight@);
                    }
                    if in_flight.len() == 0 {
                        (Coordinator { phase: Phase::Stopped, issued, in_flight }, Action::Stop)
                    } else {
                        (Coordinator { phase: Phase::Draining, issued, in_flight }, Action::Drain)
                    }
                } else {
                    (Coordinator { phase, issued, in_flight }, Action::Wait)
                }
            },
            Event::Finished(id) => {
                let rest: Vec<u64> = without(&in_flight, id);
                proof {
                    lemma_empty_list_is_empty_set(rest@);
                }
                if phase == Phase::Draining && rest.len() == 0 {
                    (Coordinator { phase: Phase::Stopped, issued, in_flight: rest }, Action::Stop)
                } else {
                    (Coordinator { phase, issued, in_flight: rest }, Action::Wait)
                }
            },
        }
    }
}

} // verus!
