//! Covers and valves.

use crate::entity::{EntityInfo, EntityState};
use crate::float32::Float32;
use crate::version::APIVersion;
use vstd::prelude::*;

verus! {

/// What a cover says of itself.
pub struct CoverInfo {
    pub entity_info: EntityInfo,
    pub assumed_state: bool,
    pub supports_stop: bool,
    pub supports_position: bool,
    pub supports_tilt: bool,
    pub device_class: String,
}

/// The state of a cover that knows no positions in between.
#[derive(Debug, Clone, Copy, PartialEq, Eq)]
pub enum LegacyCoverState {
    Open,
    Closed,
}

/// What such a cover can be told to do.
#[derive(Debug, Clone, Copy, PartialEq, Eq)]
pub enum LegacyCoverCommand {
    Open,
    Close,
    Stop,
}

/// What a cover is doing at the moment.
#[derive(Debug, Clone, Copy, PartialEq, Eq)]
pub enum CoverOperation {
    Idle,
    Opening,
    Closing,
}

/// The state of a cover.
pub struct CoverState {
    pub entity_state: EntityState,
    /// The plain state, where the device sent one.
    pub legacy_state: Option<LegacyCoverState>,
    /// How far the cover is open: from zero, closed, to one, fully open.
    pub position: Float32,
    pub tilt: Float32,
    pub current_operation: Option<CoverOperation>,
}

impl CoverState {
    /// The first version in which a cover reports its position.
    pub open spec fn position_since() -> APIVersion {
        APIVersion { major: 1, minor: 1 }
    }

    /// Whether the cover is closed. Before covers reported a position, the
    /// plain state decides where the device sent one. In every other case
    /// the position decides: the cover is closed at zero exactly.
    pub open spec fn spec_is_closed(&self, api_version: APIVersion) -> bool {
        if api_version.spec_lt(Self::position_since()) && self.legacy_state is Some {
            self.legacy_state == Some(LegacyCoverState::Closed)
        } else {
            self.position.spec_is_zero()
        }
    }

    /// Whether the cover is closed, as a client of the given version is to
    /// read its state.
    pub fn is_closed(&self, api_version: APIVersion) -> (closed: bool)
        ensures
            closed == self.spec_is_closed(api_version),
    {
        if api_version < APIVersion::new(1, 1) {
            match self.legacy_state {
                Some(LegacyCoverState::Closed) => {
                    return true;
                },
                Some(LegacyCoverState::Open) => {
                    return false;
                },
                None => {},
            }
        }
        self.position.is_zero()
    }
}

/// A cover that sent a plain state to a client of a version before positions
/// is closed or open as that state says, whatever its position.
pub proof fn lemma_plain_state_decides(state: CoverState, api_version: APIVersion)
    requires
        api_version.spec_lt(CoverState::position_since()),
        state.legacy_state is Some,
    ensures
        state.spec_is_closed(api_version) <==> state.legacy_state == Some(LegacyCoverState::Closed),
{
}

/// In every other case the position decides, and the plain state does not
/// matter: the cover is closed at zero, of either sign, and at no other
/// position.
pub proof fn lemma_position_decides(state: CoverState, api_version: APIVersion)
    requires
        !api_version.spec_lt(CoverState::position_since()) || state.legacy_state is None,
    ensures
        state.spec_is_closed(api_version) <==> (state.position.bits == 0 || state.position.bits
            == 0x8000_0000),
{
}

/// Asking twice whether a cover is closed gives one answer.
pub proof fn lemma_is_closed_repeatable(
    state: &CoverState,
    api_version: APIVersion,
    first: bool,
    second: bool,
)
    requires
        call_ensures(CoverState::is_closed, (state, api_version), first),
        call_ensures(CoverState::is_closed, (state, api_version), second),
    ensures
        first == second,
{
}

/// What a valve says of itself.
pub struct ValveInfo {
    pub entity_info: EntityInfo,
    pub device_class: String,
    pub assumed_state: bool,
    pub supports_stop: bool,
    pub supports_position: bool,
}

/// What a valve is doing at the moment.
#[derive(Debug, Clone, Copy, PartialEq, Eq)]
pub enum ValveOperation {
    Idle,
    Opening,
    Closing,
}

/// The state of a valve.
pub struct ValveState {
    pub entity_state: EntityState,
    pub position: Float32,
    pub current_operation: Option<ValveOperation>,
}

} // verus!
