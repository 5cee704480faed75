//! Keeping the radio associated.
//!
//! The supervisor decides; its caller acts. The caller performs the action it
//! was last given, waits for what the radio answers, and hands that answer to
//! `Supervisor::step`, which gives the next action. The conversation starts
//! with the action that `Supervisor::new` returns and has no end but
//! `SupervisorAction::Abort`.

use crate::config::{ConfigurationModel, RadioConfiguration};
use crate::error::WifiError;
use vstd::prelude::*;

verus! {

/// Milliseconds to let pass after a lost association or a failed attempt at
/// one, before the next attempt.
pub const COOLDOWN_MILLIS: u64 = 5000;

/// What the radio says of its link.
#[derive(Clone, Copy, Debug, PartialEq, Eq, Structural)]
pub enum RadioState {
    Disconnected,
    Connecting,
    Associated,
}

/// What the supervisor is waiting for.
#[derive(Clone, Copy, Debug, PartialEq, Eq, Structural)]
pub enum SupervisorPhase {
    /// For the radio's word on its link.
    Probing,
    /// For the association to be lost.
    Associated,
    /// For the cooldown after a lost association to pass.
    Debouncing,
    /// For the radio's word on whether it is running.
    CheckingRadio,
    /// For the configuration to be applied.
    Configuring,
    /// For the radio to start.
    Starting,
    /// For an attempt at association to end.
    Associating,
    /// For the cooldown after a failed attempt to pass.
    BackingOff,
    /// For nothing: the radio could not be configured or started.
    Failed,
}

/// What the caller reports to the supervisor.
#[derive(Clone, Copy, Debug, PartialEq, Eq)]
pub enum SupervisorEvent {
    /// The radio's word on its link, asked for by `QueryState`.
    State(RadioState),
    /// The association was lost, awaited by `AwaitDisconnect`.
    Disconnected,
    /// The time asked for by `Sleep` has passed.
    TimerElapsed,
    /// The radio's word on whether it is running, asked for by `QueryStarted`.
    Running(Result<bool, WifiError>),
    /// How `ApplyConfiguration` ended.
    Configured(Result<(), WifiError>),
    /// How `StartRadio` ended.
    Started(Result<(), WifiError>),
    /// How `Connect` ended.
    Connected(Result<(), WifiError>),
}

/// What the supervisor asks its caller to do.
#[derive(Clone, Copy, Debug, PartialEq, Eq)]
pub enum SupervisorAction {
    /// Ask the radio for the state of its link.
    QueryState,
    /// Wait until the radio reports the loss of the association.
    AwaitDisconnect,
    /// Let this many milliseconds pass, or more.
    Sleep { millis: u64 },
    /// Ask the radio whether it is running.
    QueryStarted,
    /// Hand the supervisor's configuration to the radio.
    ApplyConfiguration,
    /// Start the radio.
    StartRadio,
    /// Try to associate.
    Connect,
    /// Give up: the radio failed in a way that no retry mends.
    Abort(WifiError),
}

/// The supervisor's answer to an event: the phase it moves to and the action
/// it asks for. An event that is no answer to what the phase waits for gets
/// none.
pub open spec fn supervisor_next(phase: SupervisorPhase, event: SupervisorEvent) -> Option<
    (SupervisorPhase, SupervisorAction),
> {
    match (phase, event) {
        (SupervisorPhase::Probing, SupervisorEvent::State(RadioState::Associated)) => Some(
            (SupervisorPhase::Associated, SupervisorAction::AwaitDisconnect),
        ),
        (SupervisorPhase::Probing, SupervisorEvent::State(_)) => Some(
            (SupervisorPhase::CheckingRadio, SupervisorAction::QueryStarted),
        ),
        (SupervisorPhase::Associated, SupervisorEvent::Disconnected) => Some(
            (SupervisorPhase::Debouncing, SupervisorAction::Sleep { millis: COOLDOWN_MILLIS }),
        ),
        (SupervisorPhase::Debouncing, SupervisorEvent::TimerElapsed) => Some(
            (SupervisorPhase::CheckingRadio, SupervisorAction::QueryStarted),
        ),
        (SupervisorPhase::CheckingRadio, SupervisorEvent::Running(Ok(true))) => Some(
            (SupervisorPhase::Associating, SupervisorAction::Connect),
        ),
        (SupervisorPhase::CheckingRadio, SupervisorEvent::Running(_)) => Some(
            (SupervisorPhase::Configuring, SupervisorAction::ApplyConfiguration),
        ),
        (SupervisorPhase::Configuring, SupervisorEvent::Configured(Ok(_))) => Some(
            (SupervisorPhase::Starting, SupervisorAction::StartRadio),
        ),
        (SupervisorPhase::Configuring, SupervisorEvent::Configured(Err(error))) => Some(
            (SupervisorPhase::Failed, SupervisorAction::Abort(error)),
        ),
        (SupervisorPhase::Starting, SupervisorEvent::Started(Ok(_))) => Some(
            (SupervisorPhase::Associating, SupervisorAction::Connect),
        ),
        (SupervisorPhase::Starting, SupervisorEvent::Started(Err(error))) => Some(
            (SupervisorPhase::Failed, SupervisorAction::Abort(error)),
        ),
        (SupervisorPhase::Associating, SupervisorEvent::Connected(Ok(_))) => Some(
            (SupervisorPhase::Probing, SupervisorAction::QueryState),
        ),
        (SupervisorPhase::Associating, SupervisorEvent::Connected(Err(_))) => Some(
            (SupervisorPhase::BackingOff, SupervisorAction::Sleep { millis: COOLDOWN_MILLIS }),
        ),
        (SupervisorPhase::BackingOff, SupervisorEvent::TimerElapsed) => Some(
            (SupervisorPhase::Probing, SupervisorAction::QueryState),
        ),
        _ => None,
    }
}

/// The decisions of the task that keeps the radio associated with one network.
#[derive(Debug, PartialEq, Eq)]
pub struct Supervisor {
    phase: SupervisorPhase,
    configuration: RadioConfiguration,
}

/// What a supervisor knows.
pub struct SupervisorModel {
    pub phase: SupervisorPhase,
    /// The network that the radio is kept on.
    pub configuration: ConfigurationModel,
}

impl View for Supervisor {
    type V = SupervisorModel;

    closed spec fn view(&self) -> SupervisorModel {
        SupervisorModel { phase: self.phase, configuration: self.configuration@ }
    }
}

impl Supervisor {
    /// A supervisor for `configuration`, and its first action: to ask the
    /// radio for the state of its link.
    pub fn new(configuration: RadioConfiguration) -> (started: (Supervisor, SupervisorAction))
        ensures
            started.0@ == (SupervisorModel {
                phase: SupervisorPhase::Probing,
                configuration: configuration@,
            }),
            started.1 == SupervisorAction::QueryState,
    {
        (Supervisor { phase: SupervisorPhase::Probing, configuration }, SupervisorAction::QueryState)
    }

    /// Takes the radio's answer to the action last asked for and gives the
    /// next action. An event that is no such answer changes nothing and gets
    /// no action. The configuration is never altered.
    pub fn step(&mut self, event: SupervisorEvent) -> (action: Option<SupervisorAction>)
        ensures
            final(self)@.configuration == old(self)@.configuration,
            match supervisor_next(old(self)@.phase, event) {
                Some((phase, asked)) => final(self)@.phase == phase && action == Some(asked),
                None => final(self)@.phase == old(self)@.phase && action is None,
            },
    {
        let (phase, asked) = match (self.phase, event) {
            (SupervisorPhase::Probing, SupervisorEvent::State(RadioState::Associated)) => (
                SupervisorPhase::Associated,
                SupervisorAction::AwaitDisconnect,
            ),
            (SupervisorPhase::Probing, SupervisorEvent::State(_)) => (
                SupervisorPhase::CheckingRadio,
                SupervisorAction::QueryStarted,
            ),
            (SupervisorPhase::Associated, SupervisorEvent::Disconnected) => (
                SupervisorPhase::Debouncing,
                SupervisorAction::Sleep { millis: COOLDOWN_MILLIS },
            ),
            (SupervisorPhase::Debouncing, SupervisorEvent::TimerElapsed) => (
                SupervisorPhase::CheckingRadio,
                SupervisorAction::QueryStarted,
            ),
            (SupervisorPhase::CheckingRadio, SupervisorEvent::Running(Ok(true))) => (
                SupervisorPhase::Associating,
                SupervisorAction::Connect,
            ),
            (SupervisorPhase::CheckingRadio, SupervisorEvent::Running(_)) => (
                SupervisorPhase::Configuring,
                SupervisorAction::ApplyConfiguration,
            ),
            (SupervisorPhase::Configuring, SupervisorEvent::Configured(Ok(_))) => (
                SupervisorPhase::Starting,
                SupervisorAction::StartRadio,
            ),
            (SupervisorPhase::Configuring, SupervisorEvent::Configured(Err(error))) => (
                SupervisorPhase::Failed,
                SupervisorAction::Abort(error),
            ),
            (SupervisorPhase::Starting, SupervisorEvent::Started(Ok(_))) => (
                SupervisorPhase::Associating,
                SupervisorAction::Connect,
            ),
            (SupervisorPhase::Starting, SupervisorEvent::Started(Err(error))) => (
                SupervisorPhase::Failed,
                SupervisorAction::Abort(error),
            ),
            (SupervisorPhase::Associating, SupervisorEvent::Connected(Ok(_))) => (
                SupervisorPhase::Probing,
                SupervisorAction::QueryState,
            ),
            (SupervisorPhase::Associating, SupervisorEvent::Connected(Err(_))) => (
                SupervisorPhase::BackingOff,
                SupervisorAction::Sleep { millis: COOLDOWN_MILLIS },
            ),
            (SupervisorPhase::BackingOff, SupervisorEvent::TimerElapsed) => (
                SupervisorPhase::Probing,
                SupervisorAction::QueryState,
            ),
            _ => {
                return None;
            },
        };
        self.phase = phase;
        Some(asked)
    }

    /// What the supervisor is waiting for.
    pub fn phase(&self) -> (phase: SupervisorPhase)
        ensures
            phase == self@.phase,
    {
        self.phase
    }

    /// The network that the supervisor keeps the radio on: what the caller
    /// hands to the radio when asked to apply the configuration.
    pub fn configuration(&self) -> (configuration: &RadioConfiguration)
        ensures
            configuration@ == self@.configuration,
    {
        &self.configuration
    }
}

/// The supervisor's side of a conversation: the phase it has reached and the
/// actions it has asked for, one in answer to each event, when the events come
/// after the first `QueryState`. None where some event was no answer to the
/// action before it.
pub open spec fn supervisor_run(events: Seq<SupervisorEvent>) -> Option<
    (SupervisorPhase, Seq<SupervisorAction>),
>
    decreases events.len(),
{
    if events.len() == 0 {
        Some((SupervisorPhase::Probing, Seq::empty()))
    } else {
        match supervisor_run(events.drop_last()) {
            Some((phase, actions)) => match supervisor_next(phase, events.last()) {
                Some((next, asked)) => Some((next, actions.push(asked))),
                None => None,
            },
            None => None,
        }
    }
}

/// Whether the radio's latest word on its link is that it is associated. A
/// report of its state and the end of an attempt at association say whether
/// it is; the loss of the association says that it is not; nothing else
/// speaks of the link.
pub open spec fn reports_associated(events: Seq<SupervisorEvent>) -> bool
    decreases events.len(),
{
    if events.len() == 0 {
        false
    } else {
        match events.last() {
            SupervisorEvent::State(state) => state == RadioState::Associated,
            SupervisorEvent::Connected(outcome) => outcome is Ok,
            SupervisorEvent::Disconnected => false,
            _ => reports_associated(events.drop_last()),
        }
    }
}

/// A conversation's beginning is a conversation, with the same actions.
pub proof fn lemma_run_prefix(events: Seq<SupervisorEvent>, n: int)
    requires
        supervisor_run(events) is Some,
        0 <= n <= events.len(),
    ensures
        supervisor_run(events.take(n)) is Some,
        supervisor_run(events)->Some_0.1.len() == events.len(),
        supervisor_run(events.take(n))->Some_0.1 == supervisor_run(events)->Some_0.1.take(n),
    decreases events.len(),
{
    let actions = supervisor_run(events)->Some_0.1;
    if events.len() == 0 {
        assert(events.take(n) =~= events);
        assert(actions.take(n) =~= actions);
    } else {
        let front = events.drop_last();
        lemma_run_prefix(front, front.len() as int);
        if n == events.len() {
            assert(events.take(n) =~= events);
            assert(actions.take(n) =~= actions);
        } else {
            lemma_run_prefix(front, n);
            assert(front.take(n) =~= events.take(n));
            assert(supervisor_run(front)->Some_0.1.take(n) =~= actions.take(n));
        }
    }
}

/// Each action of a conversation is the supervisor's answer to the event at
/// its place, given in the phase that the events before it led to.
pub proof fn lemma_run_step(events: Seq<SupervisorEvent>, i: int)
    requires
        supervisor_run(events) is Some,
        0 <= i < events.len(),
    ensures
        supervisor_run(events)->Some_0.1.len() == events.len(),
        supervisor_run(events.take(i)) is Some,
        supervisor_run(events.take(i + 1)) is Some,
        supervisor_next(supervisor_run(events.take(i))->Some_0.0, events[i]) == Some(
            (
                supervisor_run(events.take(i + 1))->Some_0.0,
                supervisor_run(events)->Some_0.1[i],
            ),
        ),
{
    lemma_run_prefix(events, i);
    lemma_run_prefix(events, i + 1);
    let upto = events.take(i + 1);
    assert(upto.drop_last() =~= events.take(i));
    assert(upto.last() == events[i]);
    let actions = supervisor_run(events)->Some_0.1;
    assert(actions.take(i + 1)[i] == actions[i]);
}

/// While the radio's latest word is that it is associated, the supervisor
/// waits for its state or for the loss of the association, and for nothing
/// else.
pub proof fn lemma_associated_phase(events: Seq<SupervisorEvent>)
    requires
        supervisor_run(events) is Some,
        reports_associated(events),
    ensures
        supervisor_run(events)->Some_0.0 == SupervisorPhase::Probing || supervisor_run(
            events,
        )->Some_0.0 == SupervisorPhase::Associated,
    decreases events.len(),
{
    if events.len() > 0 {
        let front = events.drop_last();
        if reports_associated(front) {
            lemma_associated_phase(front);
        }
    }
}

/// The supervisor asks for no attempt at association while the radio's latest
/// word is that it is associated.
pub proof fn lemma_no_connect_while_associated(events: Seq<SupervisorEvent>, i: int)
    requires
        supervisor_run(events) is Some,
        0 <= i < events.len(),
        supervisor_run(events)->Some_0.1[i] == SupervisorAction::Connect,
    ensures
        !reports_associated(events.take(i + 1)),
{
    lemma_run_step(events, i);
    let before = events.take(i);
    let upto = events.take(i + 1);
    assert(upto.drop_last() =~= before);
    assert(upto.last() == events[i]);
    if reports_associated(before) {
        lemma_associated_phase(before);
    }
}

/// When the association is lost the supervisor asks for the cooldown, and asks
/// for no attempt at association before the caller has reported that the
/// cooldown has passed.
pub proof fn lemma_cooldown_after_disconnect(events: Seq<SupervisorEvent>, i: int, j: int)
    requires
        supervisor_run(events) is Some,
        0 <= i < j < events.len(),
        events[i] == SupervisorEvent::Disconnected,
        supervisor_run(events)->Some_0.1[j] == SupervisorAction::Connect,
    ensures
        supervisor_run(events)->Some_0.1[i] == (SupervisorAction::Sleep { millis: COOLDOWN_MILLIS }),
        events[i + 1] == SupervisorEvent::TimerElapsed,
        i + 1 < j,
{
    lemma_run_step(events, i);
    lemma_run_step(events, i + 1);
}

/// When an attempt at association fails the supervisor asks for the cooldown,
/// and asks for no further attempt before the caller has reported that the
/// cooldown has passed.
pub proof fn lemma_cooldown_after_failed_attempt(events: Seq<SupervisorEvent>, i: int, j: int)
    requires
        supervisor_run(events) is Some,
        0 <= i < j < events.len(),
        events[i] matches SupervisorEvent::Connected(Err(_)),
        supervisor_run(events)->Some_0.1[j] == SupervisorAction::Connect,
    ensures
        supervisor_run(events)->Some_0.1[i] == (SupervisorAction::Sleep { millis: COOLDOWN_MILLIS }),
        events[i + 1] == SupervisorEvent::TimerElapsed,
        i + 1 < j,
{
    lemma_run_step(events, i);
    lemma_run_step(events, i + 1);
}

/// The supervisor asks for the radio to be started only when the radio has
/// just denied that it is running, or could not say, and the configuration has
/// been applied since. When the radio says that it is running, the answer is
/// an attempt at association: no start, and no giving up.
pub proof fn lemma_start_only_when_not_running(events: Seq<SupervisorEvent>, i: int)
    requires
        supervisor_run(events) is Some,
        0 <= i < events.len(),
    ensures
        supervisor_run(events)->Some_0.1[i] == SupervisorAction::StartRadio ==> {
            &&& i >= 1
            &&& events[i] matches SupervisorEvent::Configured(Ok(_))
            &&& events[i - 1] is Running
            &&& events[i - 1] != SupervisorEvent::Running(Ok(true))
            &&& supervisor_run(events)->Some_0.1[i - 1] == SupervisorAction::ApplyConfiguration
        },
        events[i] == SupervisorEvent::Running(Ok(true)) ==> supervisor_run(events)->Some_0.1[i]
            == SupervisorAction::Connect,
{
    lemma_run_step(events, i);
    if supervisor_run(events)->Some_0.1[i] == SupervisorAction::StartRadio {
        assert(supervisor_run(events.take(i))->Some_0.0 == SupervisorPhase::Configuring);
        if i == 0 {
            assert(events.take(0) =~= Seq::<SupervisorEvent>::empty());
        } else {
            lemma_run_step(events, i - 1);
        }
    }
}

/// A report that the radio has started, made when the supervisor has not
/// asked for a start, changes nothing: it gets no action, so no attempt at
/// association and no giving up.
pub proof fn lemma_unasked_start_ignored(phase: SupervisorPhase, outcome: Result<(), WifiError>)
    requires
        phase != SupervisorPhase::Starting,
    ensures
        supervisor_next(phase, SupervisorEvent::Started(outcome)) is None,
{
}

/// Between two attempts at association the supervisor has been told how the
/// first one ended: it never has two attempts under way.
pub proof fn lemma_one_attempt_at_a_time(events: Seq<SupervisorEvent>, i: int)
    requires
        supervisor_run(events) is Some,
        0 <= i < events.len(),
        i + 1 < events.len(),
        supervisor_run(events)->Some_0.1[i] == SupervisorAction::Connect,
    ensures
        events[i + 1] is Connected,
        supervisor_run(events)->Some_0.1[i + 1] != SupervisorAction::Connect,
{
    lemma_run_step(events, i);
    lemma_run_step(events, i + 1);
}

} // verus!
