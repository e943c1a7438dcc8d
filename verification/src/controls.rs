//! Entities that a client sets or triggers: switches, fans, numbers, dates
//! and times, selections, sirens, buttons, locks, texts and updates; and the
//! events that a device raises.

use crate::entity::{EntityInfo, EntityState};
use crate::float32::Float32;
use crate::proto;
use vstd::prelude::*;
use vstd::std_specs::convert::FromSpecImpl;

verus! {

/// What an event entity says of itself.
pub struct EventInfo {
    pub entity_info: EntityInfo,
    pub device_class: String,
    pub event_types: Vec<String>,
}

/// An event that a device raised.
pub struct Event {
    pub entity_state: EntityState,
    pub event_type: String,
}

/// What a fan says of itself.
pub struct FanInfo {
    pub entity_info: EntityInfo,
    pub supports_oscillation: bool,
    pub supports_speed: bool,
    pub supports_direction: bool,
    pub supported_speed_count: i32,
    pub supported_preset_modes: Vec<String>,
}

/// The speed of a fan with three speeds.
#[derive(Debug, Clone, Copy, PartialEq, Eq)]
pub enum FanSpeed {
    Low,
    Medium,
    High,
}

/// The way a fan turns.
#[derive(Debug, Clone, Copy, PartialEq, Eq)]
pub enum FanDirection {
    Forward,
    Reverse,
}

/// The state of a fan.
pub struct FanState {
    pub entity_state: EntityState,
    pub oscillating: bool,
    pub speed: Option<FanSpeed>,
    pub speed_level: u8,
    pub direction: Option<FanDirection>,
    pub preset_mode: String,
}

/// What a switch says of itself.
pub struct SwitchInfo {
    pub entity_info: EntityInfo,
    pub assumed_state: bool,
    pub device_class: String,
}

/// The state of a switch.
pub struct SwitchState {
    pub entity_state: EntityState,
    pub state: bool,
}

/// How a number is entered.
#[derive(Debug, Clone, Copy, PartialEq, Eq)]
pub enum NumberMode {
    Auto,
    Box,
    Slider,
    /// A way that this version does not know.
    Unknown,
}

impl From<proto::NumberMode> for NumberMode {
    fn from(value: proto::NumberMode) -> (mode: NumberMode) {
        match value {
            proto::NumberMode::Auto => NumberMode::Auto,
            proto::NumberMode::Box => NumberMode::Box,
            proto::NumberMode::Slider => NumberMode::Slider,
            proto::NumberMode::Unrecognized(_) => NumberMode::Unknown,
        }
    }
}

impl FromSpecImpl<proto::NumberMode> for NumberMode {
    open spec fn obeys_from_spec() -> bool {
        true
    }

    open spec fn from_spec(value: proto::NumberMode) -> NumberMode {
        match value {
            proto::NumberMode::Auto => NumberMode::Auto,
            proto::NumberMode::Box => NumberMode::Box,
            proto::NumberMode::Slider => NumberMode::Slider,
            proto::NumberMode::Unrecognized(_) => NumberMode::Unknown,
        }
    }
}

/// What a number says of itself.
pub struct NumberInfo {
    pub entity_info: EntityInfo,
    pub min_value: Float32,
    pub max_value: Float32,
    pub step: Float32,
    pub unit_of_measurement: String,
    pub mode: NumberMode,
    pub device_class: String,
}

/// The state of a number.
pub struct NumberState {
    pub entity_state: EntityState,
    pub state: Float32,
    pub missing_state: bool,
}

/// What a date says of itself.
pub struct DateInfo {
    pub entity_info: EntityInfo,
}

/// The state of a date.
pub struct DateState {
    pub entity_state: EntityState,
    pub missing_state: bool,
    pub year: u16,
    pub month: u8,
    pub day: u8,
}

/// What a time of day says of itself.
pub struct TimeInfo {
    pub entity_info: EntityInfo,
}

/// The state of a time of day.
pub struct TimeState {
    pub entity_state: EntityState,
    pub missing_state: bool,
    pub hour: u8,
    pub minute: u8,
    pub second: u8,
}

/// What a point in time says of itself.
pub struct DateTimeInfo {
    pub entity_info: EntityInfo,
}

/// The state of a point in time.
pub struct DateTimeState {
    pub entity_state: EntityState,
    pub missing_state: bool,
    pub epoch_seconds: u32,
}

/// What a selection says of itself.
pub struct SelectInfo {
    pub entity_info: EntityInfo,
    pub options: Vec<String>,
}

/// The state of a selection.
pub struct SelectState {
    pub entity_state: EntityState,
    pub state: String,
    pub missing_state: bool,
}

/// What a siren says of itself.
pub struct SirenInfo {
    pub entity_info: EntityInfo,
    pub tones: Vec<String>,
    pub supports_volume: bool,
    pub supports_duration: bool,
}

/// The state of a siren.
pub struct SirenState {
    pub entity_state: EntityState,
    pub state: bool,
}

/// What a button says of itself.
pub struct ButtonInfo {
    pub entity_info: EntityInfo,
    pub device_class: String,
}

/// What a lock is doing.
#[derive(Debug, Clone, Copy, PartialEq, Eq)]
pub enum LockState {
    Unspecified,
    Locked,
    Unlocked,
    Jammed,
    Locking,
    Unlocking,
}

/// What a lock can be told to do.
#[derive(Debug, Clone, Copy, PartialEq, Eq)]
pub enum LockCommand {
    Unlock,
    Lock,
    Open,
}

/// What a lock says of itself.
pub struct LockInfo {
    pub entity_info: EntityInfo,
    pub supports_open: bool,
    pub assumed_state: bool,
    pub requires_code: bool,
    pub code_format: String,
}

/// The state of a lock.
pub struct LockEntityState {
    pub entity_state: EntityState,
    pub state: Option<LockState>,
}

/// How a text is entered.
#[derive(Debug, Clone, Copy, PartialEq, Eq)]
pub enum TextMode {
    Text,
    Password,
    /// A way that this version does not know.
    Unknown,
}

impl From<proto::TextMode> for TextMode {
    fn from(value: proto::TextMode) -> (mode: TextMode) {
        match value {
            proto::TextMode::Text => TextMode::Text,
            proto::TextMode::Password => TextMode::Password,
            proto::TextMode::Unrecognized(_) => TextMode::Unknown,
        }
    }
}

impl FromSpecImpl<proto::TextMode> for TextMode {
    open spec fn obeys_from_spec() -> bool {
        true
    }

    open spec fn from_spec(value: proto::TextMode) -> TextMode {
        match value {
            proto::TextMode::Text => TextMode::Text,
            proto::TextMode::Password => TextMode::Password,
            proto::TextMode::Unrecognized(_) => TextMode::Unknown,
        }
    }
}

/// What a text says of itself.
pub struct TextInfo {
    pub entity_info: EntityInfo,
    pub min_length: u32,
    pub max_length: u32,
    pub pattern: String,
    pub mode: TextMode,
}

/// The state of a text.
pub struct TextState {
    pub entity_state: EntityState,
    pub state: String,
    pub missing_state: bool,
}

/// What an update entity can be told to do.
#[derive(Debug, Clone, Copy, PartialEq, Eq)]
pub enum UpdateCommand {
    Unspecified,
    Install,
    Check,
}

/// What an update entity says of itself.
pub struct UpdateInfo {
    pub entity_info: EntityInfo,
    pub device_class: String,
}

/// The state of an update.
pub struct UpdateState {
    pub entity_state: EntityState,
    pub missing_state: bool,
    pub in_progress: bool,
    pub has_progress: bool,
    pub progress: Float32,
    pub current_version: String,
    pub latest_version: String,
    pub title: String,
    pub release_summary: String,
    pub release_url: String,
}

} // verus!
