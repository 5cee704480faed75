//! Choosing the network to join.
//!
//! A configured network name settles the choice at once. Without one the
//! selector has the radio started, waits until it runs, and has it scan until
//! a scan sees an open network or the scans allowed are used up.
//!
//! The selector decides; its caller acts. The caller performs the action it
//! was last given and hands the radio's answer to `Selector::step`, which
//! gives the next action, until that action is `SelectorAction::Finish`.

use crate::config::{hint_outcome, ConfigurationModel, RadioConfiguration};
use crate::error::{ConfigError, ScanError, WifiError};
use crate::scan::{discovered, networks, select_open, Network, ScanResults};
use vstd::prelude::*;

verus! {

/// Times that the radio is asked whether it runs before the selector gives up
/// on it.
pub const READINESS_POLLS: u32 = 50;

/// Milliseconds between two such questions.
pub const POLL_MILLIS: u64 = 100;

/// Scans that one selection may make.
pub const SCAN_ATTEMPTS: u32 = 5;

/// Milliseconds to let pass after a scan that saw no open network.
pub const SCAN_PAUSE_MILLIS: u64 = 5000;

/// What the selector is waiting for.
#[derive(Clone, Copy, Debug, PartialEq, Eq, Structural)]
pub enum SelectorPhase {
    /// For the radio to start.
    Starting,
    /// For the radio's word on whether it runs.
    AwaitingReady,
    /// For the time between two such questions to pass.
    PollPause,
    /// For a scan to end.
    Scanning,
    /// For the time after a fruitless scan to pass.
    ScanPause,
    /// For the radio to stop.
    Stopping,
    /// For nothing: the selection has ended.
    Finished,
}

/// What the caller reports to the selector.
#[derive(Debug, PartialEq, Eq)]
pub enum SelectorEvent {
    /// How `StartRadio` ended.
    Started(Result<(), WifiError>),
    /// The radio's word on whether it runs, asked for by `QueryStarted`.
    Running(Result<bool, WifiError>),
    /// The time asked for by `Sleep` has passed.
    TimerElapsed,
    /// How `Scan` ended.
    Scanned(Result<ScanResults, WifiError>),
    /// How `StopRadio` ended.
    Stopped(Result<(), WifiError>),
}

/// What the selector asks its caller to do.
#[derive(Debug, PartialEq, Eq)]
pub enum SelectorAction {
    /// Start the radio; a radio that runs already stays as it is.
    StartRadio,
    /// Ask the radio whether it runs.
    QueryStarted,
    /// Let this many milliseconds pass, or more.
    Sleep { millis: u64 },
    /// Scan, for as many records as `ScanResults` holds.
    Scan,
    /// Stop the radio.
    StopRadio,
    /// The selection has ended, with this result.
    Finish(Result<RadioConfiguration, ScanError>),
}

/// A `SelectorEvent` with the scan's records as networks.
pub enum SelectorEventModel {
    Started(Result<(), WifiError>),
    Running(Result<bool, WifiError>),
    TimerElapsed,
    Scanned(Result<Seq<Network>, WifiError>),
    Stopped(Result<(), WifiError>),
}

/// A `SelectorAction` with the configuration as its model.
pub enum SelectorActionModel {
    StartRadio,
    QueryStarted,
    Sleep { millis: u64 },
    Scan,
    StopRadio,
    Finish(Result<ConfigurationModel, ScanError>),
}

impl View for SelectorEvent {
    type V = SelectorEventModel;

    open spec fn view(&self) -> SelectorEventModel {
        match self {
            SelectorEvent::Started(outcome) => SelectorEventModel::Started(*outcome),
            SelectorEvent::Running(outcome) => SelectorEventModel::Running(*outcome),
            SelectorEvent::TimerElapsed => SelectorEventModel::TimerElapsed,
            SelectorEvent::Scanned(Ok(results)) => SelectorEventModel::Scanned(
                Ok(networks(*results)),
            ),
            SelectorEvent::Scanned(Err(error)) => SelectorEventModel::Scanned(Err(*error)),
            SelectorEvent::Stopped(outcome) => SelectorEventModel::Stopped(*outcome),
        }
    }
}

impl View for SelectorAction {
    type V = SelectorActionModel;

    open spec fn view(&self) -> SelectorActionModel {
        match self {
            SelectorAction::StartRadio => SelectorActionModel::StartRadio,
            SelectorAction::QueryStarted => SelectorActionModel::QueryStarted,
            SelectorAction::Sleep { millis } => SelectorActionModel::Sleep { millis: *millis },
            SelectorAction::Scan => SelectorActionModel::Scan,
            SelectorAction::StopRadio => SelectorActionModel::StopRadio,
            SelectorAction::Finish(Ok(configuration)) => SelectorActionModel::Finish(
                Ok(configuration@),
            ),
            SelectorAction::Finish(Err(error)) => SelectorActionModel::Finish(Err(*error)),
        }
    }
}

/// What a selector knows.
pub struct SelectorModel {
    pub phase: SelectorPhase,
    /// Times that the radio was asked whether it runs.
    pub polls: nat,
    /// Scans asked for.
    pub scans: nat,
    /// The network found, while the radio is being stopped.
    pub chosen: Option<ConfigurationModel>,
}

impl SelectorModel {
    /// A selector that has asked for the radio to be started.
    pub open spec fn initial() -> SelectorModel {
        SelectorModel { phase: SelectorPhase::Starting, polls: 0, scans: 0, chosen: None }
    }

    /// A selector that has ended.
    pub open spec fn finished(self) -> SelectorModel {
        SelectorModel { phase: SelectorPhase::Finished, chosen: None, ..self }
    }

    /// What the counts of a selector never exceed, and what each phase tells
    /// of them.
    pub open spec fn wf(self) -> bool {
        &&& self.polls <= READINESS_POLLS
        &&& self.scans <= SCAN_ATTEMPTS
        &&& self.phase == SelectorPhase::PollPause ==> self.polls < READINESS_POLLS
        &&& (self.phase == SelectorPhase::Starting || self.phase == SelectorPhase::AwaitingReady
            || self.phase == SelectorPhase::PollPause) ==> self.scans == 0
        &&& (self.phase == SelectorPhase::Scanning || self.phase == SelectorPhase::ScanPause)
            ==> self.scans >= 1
        &&& (self.phase == SelectorPhase::Stopping && self.chosen is None) ==> self.scans
            == SCAN_ATTEMPTS
        &&& self.chosen is Some ==> self.phase == SelectorPhase::Stopping
    }
}

/// How a selection ends once the radio has stopped: with the network found,
/// or without one.
pub open spec fn outcome_of(chosen: Option<ConfigurationModel>) -> Result<
    ConfigurationModel,
    ScanError,
> {
    match chosen {
        Some(configuration) => Ok(configuration),
        None => Err(ScanError::NoPublicNetworks),
    }
}

/// The selector's answer to an event: what it knows afterwards and the action
/// it asks for. An event that is no answer to what the phase waits for gets
/// none.
pub open spec fn selector_next(state: SelectorModel, event: SelectorEventModel) -> Option<
    (SelectorModel, SelectorActionModel),
> {
    match (state.phase, event) {
        (SelectorPhase::Starting, SelectorEventModel::Started(Ok(_))) => Some(
            (
                SelectorModel { phase: SelectorPhase::AwaitingReady, polls: 1, ..state },
                SelectorActionModel::QueryStarted,
            ),
        ),
        (SelectorPhase::Starting, SelectorEventModel::Started(Err(error))) => Some(
            (state.finished(), SelectorActionModel::Finish(Err(ScanError::WifiError(error)))),
        ),
        (SelectorPhase::AwaitingReady, SelectorEventModel::Running(Ok(true))) => Some(
            (
                SelectorModel { phase: SelectorPhase::Scanning, scans: 1, ..state },
                SelectorActionModel::Scan,
            ),
        ),
        (SelectorPhase::AwaitingReady, SelectorEventModel::Running(Ok(false))) => if state.polls
            < READINESS_POLLS {
            Some(
                (
                    SelectorModel { phase: SelectorPhase::PollPause, ..state },
                    SelectorActionModel::Sleep { millis: POLL_MILLIS },
                ),
            )
        } else {
            Some(
                (
                    state.finished(),
                    SelectorActionModel::Finish(
                        Err(ScanError::WifiError(WifiError::NotInitialized)),
                    ),
                ),
            )
        },
        (SelectorPhase::AwaitingReady, SelectorEventModel::Running(Err(error))) => Some(
            (state.finished(), SelectorActionModel::Finish(Err(ScanError::WifiError(error)))),
        ),
        (SelectorPhase::PollPause, SelectorEventModel::TimerElapsed) => Some(
            (
                SelectorModel {
                    phase: SelectorPhase::AwaitingReady,
                    polls: state.polls + 1,
                    ..state
                },
                SelectorActionModel::QueryStarted,
            ),
        ),
        (SelectorPhase::Scanning, SelectorEventModel::Scanned(Ok(seen))) => match discovered(
            seen,
        ) {
            Some(configuration) => Some(
                (
                    SelectorModel {
                        phase: SelectorPhase::Stopping,
                        chosen: Some(configuration),
                        ..state
                    },
                    SelectorActionModel::StopRadio,
                ),
            ),
            None => Some(
                (
                    SelectorModel { phase: SelectorPhase::ScanPause, ..state },
                    SelectorActionModel::Sleep { millis: SCAN_PAUSE_MILLIS },
                ),
            ),
        },
        (SelectorPhase::Scanning, SelectorEventModel::Scanned(Err(error))) => Some(
            (state.finished(), SelectorActionModel::Finish(Err(ScanError::WifiError(error)))),
        ),
        (SelectorPhase::ScanPause, SelectorEventModel::TimerElapsed) => if state.scans
            < SCAN_ATTEMPTS {
            Some(
                (
                    SelectorModel {
                        phase: SelectorPhase::Scanning,
                        scans: state.scans + 1,
                        ..state
                    },
                    SelectorActionModel::Scan,
                ),
            )
        } else {
            Some(
                (
                    SelectorModel { phase: SelectorPhase::Stopping, chosen: None, ..state },
                    SelectorActionModel::StopRadio,
                ),
            )
        },
        (SelectorPhase::Stopping, SelectorEventModel::Stopped(Ok(_))) => Some(
            (state.finished(), SelectorActionModel::Finish(outcome_of(state.chosen))),
        ),
        (SelectorPhase::Stopping, SelectorEventModel::Stopped(Err(error))) => Some(
            (state.finished(), SelectorActionModel::Finish(Err(ScanError::WifiError(error)))),
        ),
        _ => None,
    }
}

/// How a selection begins. A configured name that the radio can hold ends it
/// at once, with nothing asked of the radio; one that it cannot hold is an
/// error of the configuration; without a name the radio is started for a
/// search.
pub open spec fn selector_begin(ssid: Seq<char>, passphrase: Seq<char>) -> Result<
    (SelectorModel, SelectorActionModel),
    ConfigError,
> {
    match hint_outcome(ssid, passphrase) {
        Ok(Some(configuration)) => Ok(
            (SelectorModel::initial().finished(), SelectorActionModel::Finish(Ok(configuration))),
        ),
        Ok(None) => Ok((SelectorModel::initial(), SelectorActionModel::StartRadio)),
        Err(error) => Err(error),
    }
}

/// The model of a network that may have been found.
pub open spec fn chosen_model(chosen: Option<RadioConfiguration>) -> Option<ConfigurationModel> {
    match chosen {
        Some(configuration) => Some(configuration@),
        None => None,
    }
}

/// The model of what `Selector::begin` returned.
pub open spec fn begun_model(begun: Result<(Selector, SelectorAction), ConfigError>) -> Result<
    (SelectorModel, SelectorActionModel),
    ConfigError,
> {
    match begun {
        Ok((selector, asked)) => Ok((selector@, asked@)),
        Err(error) => Err(error),
    }
}

/// The decisions of one selection.
#[derive(Debug, PartialEq, Eq)]
pub struct Selector {
    phase: SelectorPhase,
    polls: u32,
    scans: u32,
    chosen: Option<RadioConfiguration>,
}

impl View for Selector {
    type V = SelectorModel;

    closed spec fn view(&self) -> SelectorModel {
        SelectorModel {
            phase: self.phase,
            polls: self.polls as nat,
            scans: self.scans as nat,
            chosen: chosen_model(self.chosen),
        }
    }
}

impl Selector {
    #[verifier::type_invariant]
    spec fn well_formed(&self) -> bool {
        self@.wf()
    }

    /// Begins a selection with the configured network name and passphrase,
    /// an empty name meaning that none is configured, and gives the first
    /// action.
    pub fn begin(ssid: &str, passphrase: &str) -> (begun: Result<
        (Selector, SelectorAction),
        ConfigError,
    >)
        ensures
            begun_model(begun) == selector_begin(ssid@, passphrase@),
            begun is Ok ==> begun->Ok_0.0@.wf(),
    {
        match RadioConfiguration::from_hint(ssid, passphrase) {
            Ok(Some(configuration)) => Ok(
                (
                    Selector { phase: SelectorPhase::Finished, polls: 0, scans: 0, chosen: None },
                    SelectorAction::Finish(Ok(configuration)),
                ),
            ),
            Ok(None) => Ok(
                (
                    Selector { phase: SelectorPhase::Starting, polls: 0, scans: 0, chosen: None },
                    SelectorAction::StartRadio,
                ),
            ),
            Err(error) => Err(error),
        }
    }

    /// Takes the radio's answer to the action last asked for and gives the
    /// next action. An event that is no such answer changes nothing and gets
    /// no action.
    pub fn step(&mut self, event: SelectorEvent) -> (action: Option<SelectorAction>)
        ensures
            final(self)@.wf(),
            match selector_next(old(self)@, event@) {
                Some((state, asked)) => final(self)@ == state && action is Some
                    && action->Some_0@ == asked,
                None => final(self)@ == old(self)@ && action is None,
            },
    {
        proof {
            use_type_invariant(&*self);
        }
        match (self.phase, event) {
            (SelectorPhase::Starting, SelectorEvent::Started(Ok(_))) => {
                *self = Selector {
                    phase: SelectorPhase::AwaitingReady,
                    polls: 1,
                    scans: self.scans,
                    chosen: None,
                };
                Some(SelectorAction::QueryStarted)
            },
            (SelectorPhase::Starting, SelectorEvent::Started(Err(error))) => Some(
                self.finish(Err(ScanError::WifiError(error))),
            ),
            (SelectorPhase::AwaitingReady, SelectorEvent::Running(Ok(true))) => {
                *self = Selector {
                    phase: SelectorPhase::Scanning,
                    polls: self.polls,
                    scans: 1,
                    chosen: None,
                };
                Some(SelectorAction::Scan)
            },
            (SelectorPhase::AwaitingReady, SelectorEvent::Running(Ok(false))) => {
                if self.polls < READINESS_POLLS {
                    *self = Selector {
                        phase: SelectorPhase::PollPause,
                        polls: self.polls,
                        scans: self.scans,
                        chosen: None,
                    };
                    Some(SelectorAction::Sleep { millis: POLL_MILLIS })
                } else {
                    Some(self.finish(Err(ScanError::WifiError(WifiError::NotInitialized))))
                }
            },
            (SelectorPhase::AwaitingReady, SelectorEvent::Running(Err(error))) => Some(
                self.finish(Err(ScanError::WifiError(error))),
            ),
            (SelectorPhase::PollPause, SelectorEvent::TimerElapsed) => {
                *self = Selector {
                    phase: SelectorPhase::AwaitingReady,
                    polls: self.polls + 1,
                    scans: self.scans,
                    chosen: None,
                };
                Some(SelectorAction::QueryStarted)
            },
            (SelectorPhase::Scanning, SelectorEvent::Scanned(Ok(results))) => {
                match select_open(&results) {
                    Some(configuration) => {
                        *self = Selector {
                            phase: SelectorPhase::Stopping,
                            polls: self.polls,
                            scans: self.scans,
                            chosen: Some(configuration),
                        };
                        Some(SelectorAction::StopRadio)
                    },
                    None => {
                        *self = Selector {
                            phase: SelectorPhase::ScanPause,
                            polls: self.polls,
                            scans: self.scans,
                            chosen: None,
                        };
                        Some(SelectorAction::Sleep { millis: SCAN_PAUSE_MILLIS })
                    },
                }
            },
            (SelectorPhase::Scanning, SelectorEvent::Scanned(Err(error))) => Some(
                self.finish(Err(ScanError::WifiError(error))),
            ),
            (SelectorPhase::ScanPause, SelectorEvent::TimerElapsed) => {
                if self.scans < SCAN_ATTEMPTS {
                    *self = Selector {
                        phase: SelectorPhase::Scanning,
                        polls: self.polls,
                        scans: self.scans + 1,
                        chosen: None,
                    };
                    Some(SelectorAction::Scan)
                } else {
                    *self = Selector {
                        phase: SelectorPhase::Stopping,
                        polls: self.polls,
                        scans: self.scans,
                        chosen: None,
                    };
                    Some(SelectorAction::StopRadio)
                }
            },
            (SelectorPhase::Stopping, SelectorEvent::Stopped(Ok(_))) => {
                let outcome = match &self.chosen {
                    Some(configuration) => Ok(configuration.clone()),
                    None => Err(ScanError::NoPublicNetworks),
                };
                Some(self.finish(outcome))
            },
            (SelectorPhase::Stopping, SelectorEvent::Stopped(Err(error))) => Some(
                self.finish(Err(ScanError::WifiError(error))),
            ),
            _ => None,
        }
    }

    /// Ends the selection with `outcome`.
    fn finish(&mut self, outcome: Result<RadioConfiguration, ScanError>) -> (action: SelectorAction)
        ensures
            final(self)@ == old(self)@.finished(),
            final(self)@.wf(),
            action == SelectorAction::Finish(outcome),
    {
        proof {
            use_type_invariant(&*self);
        }
        *self = Selector {
            phase: SelectorPhase::Finished,
            polls: self.polls,
            scans: self.scans,
            chosen: None,
        };
        SelectorAction::Finish(outcome)
    }

    /// What the selector is waiting for.
    pub fn phase(&self) -> (phase: SelectorPhase)
        ensures
            phase == self@.phase,
    {
        self.phase
    }

    /// Times that the radio was asked whether it runs.
    pub fn polls(&self) -> (polls: u32)
        ensures
            polls == self@.polls,
            polls <= READINESS_POLLS,
    {
        proof {
            use_type_invariant(self);
        }
        self.polls
    }

    /// Scans asked for so far.
    pub fn scans(&self) -> (scans: u32)
        ensures
            scans == self@.scans,
            scans <= SCAN_ATTEMPTS,
    {
        proof {
            use_type_invariant(self);
        }
        self.scans
    }
}

/// The selector's side of a search: what it knows and the actions it has
/// asked for, one in answer to each event, when the events come after the
/// first `StartRadio`. None where some event was no answer to the action
/// before it.
pub open spec fn selector_run(events: Seq<SelectorEventModel>) -> Option<
    (SelectorModel, Seq<SelectorActionModel>),
>
    decreases events.len(),
{
    if events.len() == 0 {
        Some((SelectorModel::initial(), Seq::empty()))
    } else {
        match selector_run(events.drop_last()) {
            Some((state, actions)) => match selector_next(state, events.last()) {
                Some((next, asked)) => Some((next, actions.push(asked))),
                None => None,
            },
            None => None,
        }
    }
}

/// How many of the actions ask for a scan.
pub open spec fn scans_asked(actions: Seq<SelectorActionModel>) -> nat
    decreases actions.len(),
{
    if actions.len() == 0 {
        0
    } else if actions.last() is Scan {
        scans_asked(actions.drop_last()) + 1
    } else {
        scans_asked(actions.drop_last())
    }
}

/// An answer of a well-formed selector leaves it well-formed.
pub proof fn lemma_next_wf(state: SelectorModel, event: SelectorEventModel)
    requires
        state.wf(),
        selector_next(state, event) is Some,
    ensures
        selector_next(state, event)->Some_0.0.wf(),
{
}

/// A selector that has ended answers nothing more: it asks for no scan and
/// for nothing else of the radio.
pub proof fn lemma_finished_is_final(state: SelectorModel, event: SelectorEventModel)
    requires
        state.phase == SelectorPhase::Finished,
    ensures
        selector_next(state, event) is None,
{
}

/// A configured network name is taken as it stands, with the authentication
/// that the passphrase calls for, and the selection ends with it at once.
pub proof fn lemma_hint_settles(ssid: Seq<char>, passphrase: Seq<char>)
    requires
        selector_begin(ssid, passphrase) is Ok,
        ssid.len() > 0,
    ensures
        selector_begin(ssid, passphrase)->Ok_0.0.phase == SelectorPhase::Finished,
        selector_begin(ssid, passphrase)->Ok_0.1 == SelectorActionModel::Finish(
            Ok(
                ConfigurationModel::Static {
                    ssid,
                    auth_method: crate::config::auth_for(passphrase),
                    passphrase,
                },
            ),
        ),
{
}

/// The beginning of a search is a search, with the same actions.
pub proof fn lemma_selector_run_prefix(events: Seq<SelectorEventModel>, n: int)
    requires
        selector_run(events) is Some,
        0 <= n <= events.len(),
    ensures
        selector_run(events.take(n)) is Some,
        selector_run(events)->Some_0.1.len() == events.len(),
        selector_run(events.take(n))->Some_0.1 == selector_run(events)->Some_0.1.take(n),
    decreases events.len(),
{
    let actions = selector_run(events)->Some_0.1;
    if events.len() == 0 {
        assert(events.take(n) =~= events);
        assert(actions.take(n) =~= actions);
    } else {
        let front = events.drop_last();
        lemma_selector_run_prefix(front, front.len() as int);
        if n == events.len() {
            assert(events.take(n) =~= events);
            assert(actions.take(n) =~= actions);
        } else {
            lemma_selector_run_prefix(front, n);
            assert(front.take(n) =~= events.take(n));
            assert(selector_run(front)->Some_0.1.take(n) =~= actions.take(n));
        }
    }
}

/// Each action of a search is the selector's answer to the event at its
/// place, given with what the events before it had taught the selector.
pub proof fn lemma_selector_run_step(events: Seq<SelectorEventModel>, i: int)
    requires
        selector_run(events) is Some,
        0 <= i < events.len(),
    ensures
        selector_run(events)->Some_0.1.len() == events.len(),
        selector_run(events.take(i)) is Some,
        selector_run(events.take(i + 1)) is Some,
        selector_next(selector_run(events.take(i))->Some_0.0, events[i]) == Some(
            (selector_run(events.take(i + 1))->Some_0.0, selector_run(events)->Some_0.1[i]),
        ),
{
    lemma_selector_run_prefix(events, i);
    lemma_selector_run_prefix(events, i + 1);
    let upto = events.take(i + 1);
    assert(upto.drop_last() =~= events.take(i));
    assert(upto.last() == events[i]);
    let actions = selector_run(events)->Some_0.1;
    assert(actions.take(i + 1)[i] == actions[i]);
}

/// Throughout a search the selector is well-formed, and it has counted the
/// scans that it asked for.
pub proof fn lemma_scans_counted(events: Seq<SelectorEventModel>)
    requires
        selector_run(events) is Some,
    ensures
        selector_run(events)->Some_0.0.wf(),
        scans_asked(selector_run(events)->Some_0.1) == selector_run(events)->Some_0.0.scans,
    decreases events.len(),
{
    if events.len() > 0 {
        let front = events.drop_last();
        lemma_scans_counted(front);
        let (state, actions) = selector_run(front)->Some_0;
        lemma_next_wf(state, events.last());
        let asked = selector_next(state, events.last())->Some_0.1;
        assert(actions.push(asked).drop_last() =~= actions);
    }
}

/// A search asks for no more scans than it is allowed.
pub proof fn lemma_scans_bounded(events: Seq<SelectorEventModel>)
    requires
        selector_run(events) is Some,
    ensures
        scans_asked(selector_run(events)->Some_0.1) <= SCAN_ATTEMPTS,
{
    lemma_scans_counted(events);
}

/// A search ends for want of an open network only when it has asked for every
/// scan that it is allowed.
pub proof fn lemma_gives_up_after_all_scans(events: Seq<SelectorEventModel>, i: int)
    requires
        selector_run(events) is Some,
        0 <= i < events.len(),
        selector_run(events)->Some_0.1[i] == SelectorActionModel::Finish(
            Err(ScanError::NoPublicNetworks),
        ),
    ensures
        scans_asked(selector_run(events)->Some_0.1.take(i)) == SCAN_ATTEMPTS,
{
    lemma_selector_run_step(events, i);
    lemma_selector_run_prefix(events, i);
    lemma_scans_counted(events.take(i));
}

/// Every scan but the first is asked for when the caller reports that time
/// has passed, and the action before it asked for the pause between scans.
pub proof fn lemma_pause_between_scans(events: Seq<SelectorEventModel>, j: int)
    requires
        selector_run(events) is Some,
        0 <= j < events.len(),
        selector_run(events)->Some_0.1[j] == SelectorActionModel::Scan,
        scans_asked(selector_run(events)->Some_0.1.take(j)) > 0,
    ensures
        j >= 1,
        events[j] == SelectorEventModel::TimerElapsed,
        selector_run(events)->Some_0.1[j - 1] == (SelectorActionModel::Sleep {
            millis: SCAN_PAUSE_MILLIS,
        }),
{
    lemma_selector_run_step(events, j);
    lemma_selector_run_prefix(events, j);
    lemma_scans_counted(events.take(j));
    if j == 0 {
        assert(events.take(0) =~= Seq::<SelectorEventModel>::empty());
    } else {
        lemma_selector_run_step(events, j - 1);
    }
}

/// A search that ends with a network ends with the one that its last scan
/// led to: the selector names no network that it did not see.
pub proof fn lemma_chosen_was_seen(events: Seq<SelectorEventModel>, i: int)
    requires
        selector_run(events) is Some,
        0 <= i < events.len(),
        selector_run(events)->Some_0.1[i] is Finish,
        selector_run(events)->Some_0.1[i]->Finish_0 is Ok,
    ensures
        i >= 1,
        events[i - 1] matches SelectorEventModel::Scanned(Ok(seen)) && discovered(seen) == Some(
            selector_run(events)->Some_0.1[i]->Finish_0->Ok_0,
        ),
{
    lemma_selector_run_step(events, i);
    lemma_selector_run_prefix(events, i);
    lemma_scans_counted(events.take(i));
    if i == 0 {
        assert(events.take(0) =~= Seq::<SelectorEventModel>::empty());
    } else {
        lemma_selector_run_step(events, i - 1);
    }
}

} // verus!
