//! The per-device configuration session.
//!
//! A synchronization or topology session moves through four states:
//! nothing queried yet, capabilities known, a topology configured but
//! disabled, and the topology enabled.  Query operations never change the
//! state; configuring with enable off parks the session in the configured
//! state; enabling and disabling move between the configured and enabled
//! states, and the configuration persists across a disable rather than
//! being discarded.  A display mode-set invalidates every handle the
//! session held, so it drops the session back to the initial state: any
//! cached handle or topology snapshot is stale and must be re-enumerated.

use vstd::prelude::*;

verus! {

/// Where a configuration session stands.
#[derive(Clone, Copy, Debug, PartialEq, Eq, Structural)]
pub enum SessionState {
    /// Nothing has been queried since the session (or the last mode-set).
    Unqueried,
    /// Capabilities have been queried; nothing is configured.
    Queried,
    /// A topology is configured and persists, but is not active.
    ConfiguredButDisabled,
    /// The configured topology is active.
    Enabled,
}

/// What happened to the session.
#[derive(Clone, Copy, Debug, PartialEq, Eq, Structural)]
pub enum SessionEvent {
    /// The device's capabilities were queried successfully.
    CapabilitiesQueried,
    /// Any other query completed (topology, status, parameters): queries
    /// never change the session's state.
    StateQueried,
    /// A topology was set, enabled at once or left disabled.
    TopologySet { enable: bool },
    /// The current topology was enabled.
    TopologyEnabled,
    /// The current topology was disabled; its configuration persists.
    TopologyDisabled,
    /// A display mode-set invalidated the session's handles.
    ModeSetOccurred,
}

/// The session transition relation.
pub open spec fn spec_session_step(s: SessionState, e: SessionEvent) -> SessionState {
    match e {
        SessionEvent::CapabilitiesQueried => {
            if s is Unqueried {
                SessionState::Queried
            } else {
                s
            }
        },
        SessionEvent::StateQueried => s,
        SessionEvent::TopologySet { enable } => {
            if enable {
                SessionState::Enabled
            } else {
                SessionState::ConfiguredButDisabled
            }
        },
        SessionEvent::TopologyEnabled => {
            if s is ConfiguredButDisabled {
                SessionState::Enabled
            } else {
                s
            }
        },
        SessionEvent::TopologyDisabled => {
            if s is Enabled {
                SessionState::ConfiguredButDisabled
            } else {
                s
            }
        },
        SessionEvent::ModeSetOccurred => SessionState::Unqueried,
    }
}

/// Advances the session by one event.
pub fn session_step(s: SessionState, e: SessionEvent) -> (next: SessionState)
    ensures
        next == spec_session_step(s, e),
{
    match e {
        SessionEvent::CapabilitiesQueried => {
            if s == SessionState::Unqueried {
                SessionState::Queried
            } else {
                s
            }
        },
        SessionEvent::StateQueried => s,
        SessionEvent::TopologySet { enable } => {
            if enable {
                SessionState::Enabled
            } else {
                SessionState::ConfiguredButDisabled
            }
        },
        SessionEvent::TopologyEnabled => {
            if s == SessionState::ConfiguredButDisabled {
                SessionState::Enabled
            } else {
                s
            }
        },
        SessionEvent::TopologyDisabled => {
            if s == SessionState::Enabled {
                SessionState::ConfiguredButDisabled
            } else {
                s
            }
        },
        SessionEvent::ModeSetOccurred => SessionState::Unqueried,
    }
}

/// Queries never change the session's state, a disable keeps the
/// configuration rather than discarding it — re-enabling returns to the
/// enabled state with no reconfiguration — and a mode-set always drops the
/// session back to the initial state.
pub proof fn lemma_session_discipline(s: SessionState)
    ensures
        spec_session_step(s, SessionEvent::StateQueried) == s,
        spec_session_step(
            spec_session_step(SessionState::Enabled, SessionEvent::TopologyDisabled),
            SessionEvent::TopologyEnabled,
        ) == SessionState::Enabled,
        spec_session_step(s, SessionEvent::ModeSetOccurred) == SessionState::Unqueried,
{
}

} // verus!
