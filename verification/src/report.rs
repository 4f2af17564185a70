//! The reporter: the consumer's connection to the collector, as a state machine.
//!
//! The reporter does no work of its own. It is told what happened (an
//! [`Event`]) and answers with what to do next (an [`Action`]). Whoever drives
//! it performs the action, waits for its outcome and hands that back as the
//! next event. Every failure is answered with a pause of fixed length and a
//! new attempt; no state gives up.

use crate::module::{mark_ready_for_request, ReadinessGate};
use crate::util::{decimal, decimal_text, join, joined, texts};
use vstd::prelude::*;
use vstd::string::*;

verus! {

/// The pause between a failure and the next attempt, in seconds.
pub const RETRY_INTERVAL_SECS: u64 = 10;

/// The four stations of the reporter's life.
#[derive(Clone, Copy, Debug, PartialEq, Eq, Structural)]
pub enum Phase {
    /// Not started.
    Disconnected,
    /// Opening the connection to the collector, as often as it takes.
    Connecting,
    /// Connected; the instance is not registered yet.
    Unregistered,
    /// Registered: the readiness gate is opened and segments are streamed.
    Ready,
}

/// What the reporter is waiting for.
#[derive(Clone, Copy, Debug, PartialEq, Eq, Structural)]
pub enum State {
    /// Waiting to be started.
    Disconnected,
    /// A connection attempt is under way.
    Connecting,
    /// Pausing after a failed connection attempt.
    ConnectBackoff,
    /// A registration call is under way.
    Registering,
    /// Pausing after a failed registration call.
    RegisterBackoff,
    /// Registered; the readiness gate is being opened.
    MarkingReady,
    /// Waiting for the next segment from the channel.
    Receiving,
    /// A segment is being decoded and forwarded.
    Delivering,
    /// Pausing after a segment could not be received or delivered.
    StreamBackoff,
}

/// What the driver reports back.
#[derive(Clone, Copy, Debug, PartialEq, Eq, Structural)]
pub enum Event {
    /// The reporter was started.
    Started,
    /// The connection is open.
    Connected,
    /// The connection attempt failed.
    ConnectFailed,
    /// The collector accepted the registration.
    Registered,
    /// The registration call failed.
    RegisterFailed,
    /// The readiness gate is open.
    ReadyMarked,
    /// A segment came out of the channel.
    Received,
    /// The channel gave an error in place of a segment.
    ReceiveFailed,
    /// The collector took the segment.
    Delivered,
    /// The segment could not be decoded or forwarded. It is dropped.
    DeliverFailed,
    /// The pause is over.
    BackoffElapsed,
}

/// What the driver is asked to do.
#[derive(Clone, Copy, Debug, PartialEq, Eq, Structural)]
pub enum Action {
    /// Open a connection to the collector.
    Connect,
    /// Send the instance's properties to the collector.
    Register,
    /// Open the readiness gate.
    MarkReady,
    /// Take the next segment from the channel, waiting for one if need be.
    Receive,
    /// Decode the segment just received and forward it to the collector.
    Deliver,
    /// Wait for `RETRY_INTERVAL_SECS` seconds.
    Backoff,
}

/// The station that a state belongs to.
pub open spec fn phase_of(state: State) -> Phase {
    match state {
        State::Disconnected => Phase::Disconnected,
        State::Connecting | State::ConnectBackoff => Phase::Connecting,
        State::Registering | State::RegisterBackoff => Phase::Unregistered,
        State::MarkingReady | State::Receiving | State::Delivering | State::StreamBackoff =>
            Phase::Ready,
    }
}

/// The action that is outstanding in a state; none before the start.
pub open spec fn pending(state: State) -> Option<Action> {
    match state {
        State::Disconnected => None,
        State::Connecting => Some(Action::Connect),
        State::Registering => Some(Action::Register),
        State::MarkingReady => Some(Action::MarkReady),
        State::Receiving => Some(Action::Receive),
        State::Delivering => Some(Action::Deliver),
        State::ConnectBackoff | State::RegisterBackoff | State::StreamBackoff => Some(
            Action::Backoff,
        ),
    }
}

/// The state after `event` arrives in `state`. An event that does not answer
/// the outstanding action leaves the state as it is.
pub open spec fn next_state(state: State, event: Event) -> State {
    match (state, event) {
        (State::Disconnected, Event::Started) => State::Connecting,
        (State::Connecting, Event::Connected) => State::Registering,
        (State::Connecting, Event::ConnectFailed) => State::ConnectBackoff,
        (State::ConnectBackoff, Event::BackoffElapsed) => State::Connecting,
        (State::Registering, Event::Registered) => State::MarkingReady,
        (State::Registering, Event::RegisterFailed) => State::RegisterBackoff,
        (State::RegisterBackoff, Event::BackoffElapsed) => State::Registering,
        (State::MarkingReady, Event::ReadyMarked) => State::Receiving,
        (State::Receiving, Event::Received) => State::Delivering,
        (State::Receiving, Event::ReceiveFailed) => State::StreamBackoff,
        (State::Delivering, Event::Delivered) => State::Receiving,
        (State::Delivering, Event::DeliverFailed) => State::StreamBackoff,
        (State::StreamBackoff, Event::BackoffElapsed) => State::Receiving,
        _ => state,
    }
}

/// What the reporter asks for when `event` arrives in `state`: the action of
/// the state that it moves to, and nothing where it does not move.
pub open spec fn response(state: State, event: Event) -> Option<Action> {
    if next_state(state, event) == state {
        None
    } else {
        pending(next_state(state, event))
    }
}

/// The reporter's state. A new reporter is disconnected.
pub struct Reporter {
    state: State,
}

impl View for Reporter {
    type V = State;

    closed spec fn view(&self) -> State {
        self.state
    }
}

impl Reporter {
    /// A reporter that has not been started.
    pub fn new() -> (reporter: Reporter)
        ensures
            reporter@ == State::Disconnected,
    {
        Reporter { state: State::Disconnected }
    }

    /// What the reporter is waiting for.
    pub fn state(&self) -> (state: State)
        ensures
            state == self@,
    {
        self.state
    }

    /// The station that the reporter has reached.
    pub fn phase(&self) -> (phase: Phase)
        ensures
            phase == phase_of(self@),
    {
        match self.state {
            State::Disconnected => Phase::Disconnected,
            State::Connecting | State::ConnectBackoff => Phase::Connecting,
            State::Registering | State::RegisterBackoff => Phase::Unregistered,
            State::MarkingReady | State::Receiving | State::Delivering | State::StreamBackoff =>
                Phase::Ready,
        }
    }

    /// The action that the driver owes the reporter.
    pub fn pending_action(&self) -> (action: Option<Action>)
        ensures
            action == pending(self@),
    {
        match self.state {
            State::Disconnected => None,
            State::Connecting => Some(Action::Connect),
            State::Registering => Some(Action::Register),
            State::MarkingReady => Some(Action::MarkReady),
            State::Receiving => Some(Action::Receive),
            State::Delivering => Some(Action::Deliver),
            State::ConnectBackoff | State::RegisterBackoff | State::StreamBackoff => Some(
                Action::Backoff,
            ),
        }
    }

    /// Takes an event and says what to do next. An event that does not answer
    /// the outstanding action is passed over: the state stays, and nothing new
    /// is asked for.
    pub fn handle(&mut self, event: Event) -> (action: Option<Action>)
        ensures
            final(self)@ == next_state(old(self)@, event),
            action == response(old(self)@, event),
    {
        let previous = self.state;
        let next = match (self.state, event) {
            (State::Disconnected, Event::Started) => State::Connecting,
            (State::Connecting, Event::Connected) => State::Registering,
            (State::Connecting, Event::ConnectFailed) => State::ConnectBackoff,
            (State::ConnectBackoff, Event::BackoffElapsed) => State::Connecting,
            (State::Registering, Event::Registered) => State::MarkingReady,
            (State::Registering, Event::RegisterFailed) => State::RegisterBackoff,
            (State::RegisterBackoff, Event::BackoffElapsed) => State::Registering,
            (State::MarkingReady, Event::ReadyMarked) => State::Receiving,
            (State::Receiving, Event::Received) => State::Delivering,
            (State::Receiving, Event::ReceiveFailed) => State::StreamBackoff,
            (State::Delivering, Event::Delivered) => State::Receiving,
            (State::Delivering, Event::DeliverFailed) => State::StreamBackoff,
            (State::StreamBackoff, Event::BackoffElapsed) => State::Receiving,
            (state, _) => state,
        };
        self.state = next;
        if next == previous {
            None
        } else {
            self.pending_action()
        }
    }

    /// Takes an event for a reporter that has the readiness gate at hand.
    /// Where the reporter would ask for the readiness gate to be opened, it
    /// is opened here and the reporter goes on to ask for the first segment;
    /// every other event is handled as `handle` does. So the flag is set by
    /// one event only: the success of a registration call that was under way.
    pub fn handle_with_gate(&mut self, gate: &mut ReadinessGate, event: Event) -> (action: Option<
        Action,
    >)
        ensures
            final(gate)@ == (old(gate)@ || (old(self)@ == State::Registering && event
                == Event::Registered)),
            final(self)@ == (if response(old(self)@, event) == Some(Action::MarkReady) {
                State::Receiving
            } else {
                next_state(old(self)@, event)
            }),
            action == (if response(old(self)@, event) == Some(Action::MarkReady) {
                Some(Action::Receive)
            } else {
                response(old(self)@, event)
            }),
    {
        match self.handle(event) {
            Some(Action::MarkReady) => {
                mark_ready_for_request(gate);
                self.handle(Event::ReadyMarked)
            },
            action => action,
        }
    }
}

/// A key and its value, both as text.
pub struct KeyStringValuePair {
    pub key: String,
    pub value: String,
}

/// What an instance tells the collector about itself when it registers.
pub struct InstanceProperties {
    /// The name of the service.
    pub service: String,
    /// The name of this instance of the service.
    pub service_instance: String,
    /// What describes the instance.
    pub properties: Vec<KeyStringValuePair>,
    /// The layer; always empty.
    pub layer: String,
}

/// The keys and values that a sequence of pairs holds.
pub open spec fn pairs(properties: Seq<KeyStringValuePair>) -> Seq<(Seq<char>, Seq<char>)> {
    Seq::new(properties.len(), |i: int| (properties[i].key@, properties[i].value@))
}

/// The description of an instance: its language, its operating system, its
/// host, its process, its addresses with commas between them, and the time
/// at which it started.
pub open spec fn description(
    os_name: Seq<char>,
    host_name: Seq<char>,
    process_no: nat,
    ips: Seq<Seq<char>>,
    start_time: Seq<char>,
) -> Seq<(Seq<char>, Seq<char>)> {
    seq![
        ("language"@, "php"@),
        ("OS Name"@, os_name),
        ("hostname"@, host_name),
        ("Process No."@, decimal(process_no)),
        ("ipv4"@, joined(ips, ","@)),
        ("Start Time"@, start_time),
    ]
}

/// One pair, from a fixed key and a value.
fn pair(key: &str, value: String) -> (pair: KeyStringValuePair)
    ensures
        pair.key@ == key@,
        pair.value@ == value@,
{
    KeyStringValuePair { key: key.to_owned(), value }
}

/// Builds the message by which the instance registers with the collector.
pub fn instance_properties(
    service: &str,
    service_instance: &str,
    os_name: &str,
    host_name: &str,
    process_no: u32,
    ips: &Vec<String>,
    start_time: &str,
) -> (message: InstanceProperties)
    ensures
        message.service@ == service@,
        message.service_instance@ == service_instance@,
        message.layer@.len() == 0,
        pairs(message.properties@) == description(
            os_name@,
            host_name@,
            process_no as nat,
            texts(ips@),
            start_time@,
        ),
{
    let mut properties: Vec<KeyStringValuePair> = Vec::new();
    properties.push(pair("language", "php".to_owned()));
    properties.push(pair("OS Name", os_name.to_owned()));
    properties.push(pair("hostname", host_name.to_owned()));
    properties.push(pair("Process No.", decimal_text(process_no as u64)));
    properties.push(pair("ipv4", join(ips, ",")));
    properties.push(pair("Start Time", start_time.to_owned()));
    assert(pairs(properties@) =~= description(
        os_name@,
        host_name@,
        process_no as nat,
        texts(ips@),
        start_time@,
    ));
    InstanceProperties {
        service: service.to_owned(),
        service_instance: service_instance.to_owned(),
        properties,
        layer: String::new(),
    }
}

/// The state that the reporter reaches from `start` when `events` arrive in
/// their order.
pub open spec fn run(start: State, events: Seq<Event>) -> State
    decreases events.len(),
{
    if events.len() == 0 {
        start
    } else {
        next_state(run(start, events.drop_last()), events.last())
    }
}

/// How often the reporter asks for `action` while `events` arrive.
pub open spec fn times_asked(start: State, events: Seq<Event>, action: Action) -> nat
    decreases events.len(),
{
    if events.len() == 0 {
        0
    } else {
        let before = times_asked(start, events.drop_last(), action);
        if response(run(start, events.drop_last()), events.last()) == Some(action) {
            before + 1
        } else {
            before
        }
    }
}

/// A start followed by `failures` connection attempts that fail, each with
/// its pause.
pub open spec fn failing_connects(failures: nat) -> Seq<Event>
    decreases failures,
{
    if failures == 0 {
        seq![Event::Started]
    } else {
        failing_connects((failures - 1) as nat).push(Event::ConnectFailed).push(
            Event::BackoffElapsed,
        )
    }
}

/// A start and a connection, followed by `failures` registration calls that
/// fail, each with its pause.
pub open spec fn failing_registrations(failures: nat) -> Seq<Event>
    decreases failures,
{
    if failures == 0 {
        seq![Event::Started, Event::Connected]
    } else {
        failing_registrations((failures - 1) as nat).push(Event::RegisterFailed).push(
            Event::BackoffElapsed,
        )
    }
}

/// One more event takes the run one step further.
pub proof fn lemma_run_push(start: State, events: Seq<Event>, event: Event)
    ensures
        run(start, events.push(event)) == next_state(run(start, events), event),
        times_asked(start, events.push(event), Action::Connect) == times_asked(
            start,
            events,
            Action::Connect,
        ) + (if response(run(start, events), event) == Some(Action::Connect) {
            1nat
        } else {
            0nat
        }),
        times_asked(start, events.push(event), Action::Register) == times_asked(
            start,
            events,
            Action::Register,
        ) + (if response(run(start, events), event) == Some(Action::Register) {
            1nat
        } else {
            0nat
        }),
        times_asked(start, events.push(event), Action::MarkReady) == times_asked(
            start,
            events,
            Action::MarkReady,
        ) + (if response(run(start, events), event) == Some(Action::MarkReady) {
            1nat
        } else {
            0nat
        }),
{
    assert(events.push(event).drop_last() =~= events);
    assert(events.push(event).last() == event);
}

/// Readiness never reverts: a reporter that is ready stays ready, whatever
/// arrives.
pub proof fn lemma_ready_is_kept(start: State, events: Seq<Event>)
    requires
        phase_of(start) == Phase::Ready,
    ensures
        phase_of(run(start, events)) == Phase::Ready,
    decreases events.len(),
{
    if events.len() > 0 {
        lemma_ready_is_kept(start, events.drop_last());
    }
}

/// A reporter that was started is never idle again: every state it reaches
/// has an action outstanding, and none leads back to the disconnected state.
pub proof fn lemma_started_reporter_keeps_going(start: State, events: Seq<Event>)
    requires
        start != State::Disconnected,
    ensures
        run(start, events) != State::Disconnected,
        pending(run(start, events)) is Some,
    decreases events.len(),
{
    if events.len() > 0 {
        lemma_started_reporter_keeps_going(start, events.drop_last());
    }
}

/// From its beginning the reporter asks to open the readiness gate at most
/// once, and it has asked exactly when it is ready.
pub proof fn lemma_gate_opened_once(events: Seq<Event>)
    ensures
        times_asked(State::Disconnected, events, Action::MarkReady) <= 1,
        times_asked(State::Disconnected, events, Action::MarkReady) == 1 <==> phase_of(
            run(State::Disconnected, events),
        ) == Phase::Ready,
    decreases events.len(),
{
    if events.len() > 0 {
        lemma_gate_opened_once(events.drop_last());
    }
}

/// The reporter is ready only after a connection attempt succeeded and, later,
/// a registration call succeeded.
pub proof fn lemma_ready_needs_connection_and_registration(events: Seq<Event>)
    ensures
        phase_of(run(State::Disconnected, events)) == Phase::Unregistered ==> exists|i: int|
            0 <= i < events.len() && events[i] == Event::Connected,
        phase_of(run(State::Disconnected, events)) == Phase::Ready ==> exists|i: int, j: int|
            0 <= i < j < events.len() && events[i] == Event::Connected && events[j]
                == Event::Registered,
    decreases events.len(),
{
    if events.len() > 0 {
        let earlier = events.drop_last();
        let last = events.len() - 1;
        lemma_ready_needs_connection_and_registration(earlier);
        let before = run(State::Disconnected, earlier);
        if phase_of(run(State::Disconnected, events)) == Phase::Unregistered {
            if phase_of(before) == Phase::Unregistered {
                let i = choose|i: int| 0 <= i < earlier.len() && earlier[i] == Event::Connected;
                assert(events[i] == Event::Connected);
            } else {
                assert(events[last] == Event::Connected);
            }
        }
        if phase_of(run(State::Disconnected, events)) == Phase::Ready {
            if phase_of(before) == Phase::Ready {
                let (i, j) = choose|i: int, j: int|
                    0 <= i < j < earlier.len() && earlier[i] == Event::Connected && earlier[j]
                        == Event::Registered;
                assert(events[i] == Event::Connected && events[j] == Event::Registered);
            } else {
                let i = choose|i: int| 0 <= i < earlier.len() && earlier[i] == Event::Connected;
                assert(events[i] == Event::Connected && events[last] == Event::Registered);
            }
        }
    }
}

/// Connection attempts are repeated for as long as they fail: after any
/// number of failures the reporter is connecting again, has asked for one
/// attempt more than it saw fail, and has not asked to mark readiness.
pub proof fn lemma_failed_connects_are_retried(failures: nat)
    ensures
        run(State::Disconnected, failing_connects(failures)) == State::Connecting,
        times_asked(State::Disconnected, failing_connects(failures), Action::Connect) == failures
            + 1,
        times_asked(State::Disconnected, failing_connects(failures), Action::MarkReady) == 0,
    decreases failures,
{
    let start = State::Disconnected;
    if failures == 0 {
        let none = Seq::<Event>::empty();
        assert(failing_connects(0) =~= none.push(Event::Started));
        lemma_run_push(start, none, Event::Started);
    } else {
        let earlier = failing_connects((failures - 1) as nat);
        lemma_failed_connects_are_retried((failures - 1) as nat);
        lemma_run_push(start, earlier, Event::ConnectFailed);
        lemma_run_push(start, earlier.push(Event::ConnectFailed), Event::BackoffElapsed);
    }
}

/// Registration calls are repeated for as long as they fail, and readiness
/// stays unmarked meanwhile: after any number of failures the reporter is
/// registering again, has asked for one call more than it saw fail, and has
/// not asked to mark readiness.
pub proof fn lemma_failed_registrations_are_retried(failures: nat)
    ensures
        run(State::Disconnected, failing_registrations(failures)) == State::Registering,
        times_asked(State::Disconnected, failing_registrations(failures), Action::Register)
            == failures + 1,
        times_asked(State::Disconnected, failing_registrations(failures), Action::MarkReady) == 0,
    decreases failures,
{
    let start = State::Disconnected;
    if failures == 0 {
        let none = Seq::<Event>::empty();
        assert(failing_registrations(0) =~= none.push(Event::Started).push(Event::Connected));
        lemma_run_push(start, none, Event::Started);
        lemma_run_push(start, none.push(Event::Started), Event::Connected);
    } else {
        let earlier = failing_registrations((failures - 1) as nat);
        lemma_failed_registrations_are_retried((failures - 1) as nat);
        lemma_run_push(start, earlier, Event::RegisterFailed);
        lemma_run_push(start, earlier.push(Event::RegisterFailed), Event::BackoffElapsed);
    }
}

} // verus!
