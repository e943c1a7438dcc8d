//! Cameras, media players and alarm control panels.

use crate::entity::{EntityInfo, EntityState};
use crate::float32::Float32;
use vstd::prelude::*;

verus! {

/// What a camera says of itself.
pub struct CameraInfo {
    pub entity_info: EntityInfo,
}

/// A picture that a camera took.
pub struct CameraState {
    pub entity_state: EntityState,
    pub data: Vec<u8>,
}

/// What a media player is doing.
#[derive(Debug, Clone, Copy, PartialEq, Eq)]
pub enum MediaPlayerState {
    Unspecified,
    Idle,
    Playing,
    Paused,
}

/// What a media player can be told to do.
#[derive(Debug, Clone, Copy, PartialEq, Eq)]
pub enum MediaPlayerCommand {
    Play,
    Pause,
    Stop,
    Mute,
    Unmute,
}

/// What a media player takes a format for.
#[derive(Debug, Clone, Copy, PartialEq, Eq)]
pub enum MediaPlayerFormatPurpose {
    Default,
    Announcement,
}

/// What a media player says of itself.
pub struct MediaPlayerInfo {
    pub entity_info: EntityInfo,
    pub supports_pause: bool,
}

/// The state of a media player.
pub struct MediaPlayerEntityState {
    pub entity_state: EntityState,
    pub state: Option<MediaPlayerState>,
    pub volume: Float32,
    pub muted: bool,
}

/// What an alarm control panel is doing.
#[derive(Debug, Clone, Copy, PartialEq, Eq)]
pub enum AlarmControlPanelState {
    Disarmed,
    ArmedHome,
    ArmedAway,
    ArmedNight,
    ArmedVacation,
    ArmedCustomBypass,
    Pending,
    Arming,
    Disarming,
    Triggered,
}

/// What an alarm control panel can be told to do.
#[derive(Debug, Clone, Copy, PartialEq, Eq)]
pub enum AlarmControlPanelCommand {
    Disarm,
    ArmHome,
    ArmAway,
    ArmNight,
    ArmVacation,
    ArmCustomBypass,
    Trigger,
}

/// What an alarm control panel says of itself.
pub struct AlarmControlPanelInfo {
    pub entity_info: EntityInfo,
    pub supported_features: u32,
    pub requires_code: bool,
    pub requires_code_to_arm: bool,
}

/// The state of an alarm control panel.
pub struct AlarmControlPanelEntityState {
    pub entity_state: EntityState,
    pub state: Option<AlarmControlPanelState>,
}

} // verus!
