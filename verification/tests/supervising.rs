use esp32_wifi::config::{RadioConfiguration, Ssid};
use esp32_wifi::error::WifiError;
use esp32_wifi::supervisor::{
    RadioState, Supervisor, SupervisorAction, SupervisorEvent, SupervisorPhase, COOLDOWN_MILLIS,
};

fn cafe() -> RadioConfiguration {
    RadioConfiguration::Discovered { ssid: Ssid::from_str("Cafe").unwrap(), channel: 6 }
}

fn fresh() -> Supervisor {
    let (supervisor, first) = Supervisor::new(cafe());
    assert_eq!(first, SupervisorAction::QueryState);
    supervisor
}

fn associated() -> Supervisor {
    let mut supervisor = fresh();
    assert_eq!(
        supervisor.step(SupervisorEvent::State(RadioState::Associated)),
        Some(SupervisorAction::AwaitDisconnect)
    );
    supervisor
}

fn connecting() -> Supervisor {
    let mut supervisor = fresh();
    assert_eq!(
        supervisor.step(SupervisorEvent::State(RadioState::Disconnected)),
        Some(SupervisorAction::QueryStarted)
    );
    assert_eq!(
        supervisor.step(SupervisorEvent::Running(Ok(true))),
        Some(SupervisorAction::Connect)
    );
    supervisor
}

#[test]
fn cooldown_is_five_seconds() {
    assert_eq!(COOLDOWN_MILLIS, 5000);
}

#[test]
fn supervisor_begins_by_asking_for_the_link_state() {
    let supervisor = fresh();
    assert_eq!(supervisor.phase(), SupervisorPhase::Probing);
    assert_eq!(supervisor.configuration(), &cafe());
}

#[test]
fn stopped_radio_is_configured_started_and_connected() {
    let mut supervisor = fresh();
    assert_eq!(
        supervisor.step(SupervisorEvent::State(RadioState::Disconnected)),
        Some(SupervisorAction::QueryStarted)
    );
    assert_eq!(
        supervisor.step(SupervisorEvent::Running(Ok(false))),
        Some(SupervisorAction::ApplyConfiguration)
    );
    assert_eq!(supervisor.configuration(), &cafe());
    assert_eq!(
        supervisor.step(SupervisorEvent::Configured(Ok(()))),
        Some(SupervisorAction::StartRadio)
    );
    assert_eq!(supervisor.step(SupervisorEvent::Started(Ok(()))), Some(SupervisorAction::Connect));
    assert_eq!(supervisor.phase(), SupervisorPhase::Associating);
    assert_eq!(
        supervisor.step(SupervisorEvent::Connected(Ok(()))),
        Some(SupervisorAction::QueryState)
    );
    assert_eq!(supervisor.phase(), SupervisorPhase::Probing);
}

#[test]
fn running_radio_is_not_started_again() {
    let mut supervisor = fresh();
    assert_eq!(
        supervisor.step(SupervisorEvent::State(RadioState::Connecting)),
        Some(SupervisorAction::QueryStarted)
    );
    assert_eq!(
        supervisor.step(SupervisorEvent::Running(Ok(true))),
        Some(SupervisorAction::Connect)
    );
}

#[test]
fn radio_that_cannot_say_whether_it_runs_is_started() {
    let mut supervisor = fresh();
    assert_eq!(
        supervisor.step(SupervisorEvent::State(RadioState::Disconnected)),
        Some(SupervisorAction::QueryStarted)
    );
    assert_eq!(
        supervisor.step(SupervisorEvent::Running(Err(WifiError::NotInitialized))),
        Some(SupervisorAction::ApplyConfiguration)
    );
}

#[test]
fn lost_association_is_followed_by_the_cooldown() {
    let mut supervisor = connecting();
    assert_eq!(
        supervisor.step(SupervisorEvent::Connected(Ok(()))),
        Some(SupervisorAction::QueryState)
    );
    assert_eq!(
        supervisor.step(SupervisorEvent::State(RadioState::Associated)),
        Some(SupervisorAction::AwaitDisconnect)
    );
    assert_eq!(
        supervisor.step(SupervisorEvent::Disconnected),
        Some(SupervisorAction::Sleep { millis: 5000 })
    );
    assert_eq!(supervisor.phase(), SupervisorPhase::Debouncing);
    assert_eq!(supervisor.step(SupervisorEvent::Running(Ok(true))), None);
    assert_eq!(supervisor.step(SupervisorEvent::Connected(Ok(()))), None);
    assert_eq!(supervisor.step(SupervisorEvent::State(RadioState::Disconnected)), None);
    assert_eq!(supervisor.phase(), SupervisorPhase::Debouncing);
    assert_eq!(
        supervisor.step(SupervisorEvent::TimerElapsed),
        Some(SupervisorAction::QueryStarted)
    );
    assert_eq!(
        supervisor.step(SupervisorEvent::Running(Ok(true))),
        Some(SupervisorAction::Connect)
    );
}

#[test]
fn associated_radio_is_left_alone() {
    let mut supervisor = associated();
    assert_eq!(supervisor.phase(), SupervisorPhase::Associated);
    assert_eq!(supervisor.step(SupervisorEvent::TimerElapsed), None);
    assert_eq!(supervisor.step(SupervisorEvent::Running(Ok(true))), None);
    assert_eq!(supervisor.step(SupervisorEvent::Started(Ok(()))), None);
    assert_eq!(supervisor.step(SupervisorEvent::Configured(Ok(()))), None);
    assert_eq!(supervisor.step(SupervisorEvent::Connected(Err(WifiError::Disconnected))), None);
    assert_eq!(supervisor.step(SupervisorEvent::State(RadioState::Disconnected)), None);
    assert_eq!(supervisor.phase(), SupervisorPhase::Associated);
}

#[test]
fn failed_attempt_is_followed_by_the_cooldown() {
    let mut supervisor = connecting();
    assert_eq!(
        supervisor.step(SupervisorEvent::Connected(Err(WifiError::Disconnected))),
        Some(SupervisorAction::Sleep { millis: COOLDOWN_MILLIS })
    );
    assert_eq!(supervisor.phase(), SupervisorPhase::BackingOff);
    assert_eq!(supervisor.step(SupervisorEvent::Connected(Ok(()))), None);
    assert_eq!(
        supervisor.step(SupervisorEvent::TimerElapsed),
        Some(SupervisorAction::QueryState)
    );
    assert_eq!(supervisor.phase(), SupervisorPhase::Probing);
}

#[test]
fn attempts_are_retried_without_end() {
    let mut supervisor = connecting();
    for _ in 0..100 {
        assert_eq!(
            supervisor.step(SupervisorEvent::Connected(Err(WifiError::Disconnected))),
            Some(SupervisorAction::Sleep { millis: 5000 })
        );
        assert_eq!(
            supervisor.step(SupervisorEvent::TimerElapsed),
            Some(SupervisorAction::QueryState)
        );
        assert_eq!(
            supervisor.step(SupervisorEvent::State(RadioState::Disconnected)),
            Some(SupervisorAction::QueryStarted)
        );
        assert_eq!(
            supervisor.step(SupervisorEvent::Running(Ok(true))),
            Some(SupervisorAction::Connect)
        );
    }
}

#[test]
fn configuration_that_cannot_be_applied_is_fatal() {
    let mut supervisor = fresh();
    supervisor.step(SupervisorEvent::State(RadioState::Disconnected));
    supervisor.step(SupervisorEvent::Running(Ok(false)));
    assert_eq!(
        supervisor.step(SupervisorEvent::Configured(Err(WifiError::InternalError(0x102)))),
        Some(SupervisorAction::Abort(WifiError::InternalError(0x102)))
    );
    assert_eq!(supervisor.phase(), SupervisorPhase::Failed);
    assert_eq!(supervisor.step(SupervisorEvent::TimerElapsed), None);
    assert_eq!(supervisor.step(SupervisorEvent::Configured(Ok(()))), None);
    assert_eq!(supervisor.step(SupervisorEvent::State(RadioState::Disconnected)), None);
    assert_eq!(supervisor.phase(), SupervisorPhase::Failed);
}

#[test]
fn radio_that_cannot_be_started_is_fatal() {
    let mut supervisor = fresh();
    supervisor.step(SupervisorEvent::State(RadioState::Disconnected));
    supervisor.step(SupervisorEvent::Running(Ok(false)));
    supervisor.step(SupervisorEvent::Configured(Ok(())));
    assert_eq!(
        supervisor.step(SupervisorEvent::Started(Err(WifiError::NotInitialized))),
        Some(SupervisorAction::Abort(WifiError::NotInitialized))
    );
    assert_eq!(supervisor.phase(), SupervisorPhase::Failed);
    assert_eq!(supervisor.step(SupervisorEvent::Started(Ok(()))), None);
}

#[test]
fn unasked_start_report_changes_nothing() {
    let mut supervisor = connecting();
    assert_eq!(supervisor.step(SupervisorEvent::Started(Ok(()))), None);
    assert_eq!(supervisor.step(SupervisorEvent::Started(Err(WifiError::Unsupported))), None);
    assert_eq!(supervisor.phase(), SupervisorPhase::Associating);
    assert_eq!(
        supervisor.step(SupervisorEvent::Connected(Ok(()))),
        Some(SupervisorAction::QueryState)
    );
}

#[test]
fn configuration_is_kept_through_the_conversation() {
    let mut supervisor = connecting();
    supervisor.step(SupervisorEvent::Connected(Err(WifiError::Disconnected)));
    supervisor.step(SupervisorEvent::TimerElapsed);
    assert_eq!(supervisor.configuration(), &cafe());
}
