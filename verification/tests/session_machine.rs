//! The per-device configuration session state machine.

use nvapi::session::{session_step, SessionEvent, SessionState};

#[test]
fn capabilities_query_establishes_the_session() {
    let s = session_step(SessionState::Unqueried, SessionEvent::CapabilitiesQueried);
    assert_eq!(s, SessionState::Queried);
    // Querying again changes nothing.
    assert_eq!(
        session_step(s, SessionEvent::CapabilitiesQueried),
        SessionState::Queried
    );
}

#[test]
fn queries_never_change_state() {
    for s in [
        SessionState::Unqueried,
        SessionState::Queried,
        SessionState::ConfiguredButDisabled,
        SessionState::Enabled,
    ] {
        assert_eq!(session_step(s, SessionEvent::StateQueried), s);
    }
}

#[test]
fn configuration_persists_across_disable() {
    let s = session_step(
        SessionState::Queried,
        SessionEvent::TopologySet { enable: false },
    );
    assert_eq!(s, SessionState::ConfiguredButDisabled);
    let s = session_step(s, SessionEvent::TopologyEnabled);
    assert_eq!(s, SessionState::Enabled);
    // Disabling parks the configuration; it is not discarded.
    let s = session_step(s, SessionEvent::TopologyDisabled);
    assert_eq!(s, SessionState::ConfiguredButDisabled);
    // Re-enabling needs no reconfiguration.
    let s = session_step(s, SessionEvent::TopologyEnabled);
    assert_eq!(s, SessionState::Enabled);
}

#[test]
fn setting_with_enable_goes_straight_to_enabled() {
    let s = session_step(
        SessionState::Queried,
        SessionEvent::TopologySet { enable: true },
    );
    assert_eq!(s, SessionState::Enabled);
}

#[test]
fn a_mode_set_invalidates_everything() {
    for s in [
        SessionState::Unqueried,
        SessionState::Queried,
        SessionState::ConfiguredButDisabled,
        SessionState::Enabled,
    ] {
        assert_eq!(
            session_step(s, SessionEvent::ModeSetOccurred),
            SessionState::Unqueried
        );
    }
}
