//! Sensors of the three kinds: those that measure, those that tell yes from
//! no, and those that report text.

use crate::entity::{EntityInfo, EntityState};
use crate::float32::Float32;
use crate::proto;
use vstd::prelude::*;
use vstd::std_specs::convert::FromSpecImpl;

verus! {

/// What a binary sensor says of itself.
pub struct BinarySensorInfo {
    pub entity_info: EntityInfo,
    pub device_class: String,
    pub is_status_binary_sensor: bool,
}

/// The state of a binary sensor.
pub struct BinarySensorState {
    pub entity_state: EntityState,
    pub state: bool,
    pub missing_state: bool,
}

/// How the values of a sensor add up over time.
#[derive(Debug, Clone, Copy, PartialEq, Eq)]
pub enum SensorStateClass {
    Unspecified,
    Measurement,
    TotalIncreasing,
    Total,
}

impl From<proto::SensorStateClass> for SensorStateClass {
    /// A state class that this version does not know is left unspecified.
    fn from(value: proto::SensorStateClass) -> (class: SensorStateClass) {
        match value {
            proto::SensorStateClass::Unspecified => SensorStateClass::Unspecified,
            proto::SensorStateClass::Measurement => SensorStateClass::Measurement,
            proto::SensorStateClass::TotalIncreasing => SensorStateClass::TotalIncreasing,
            proto::SensorStateClass::Total => SensorStateClass::Total,
            proto::SensorStateClass::Unrecognized(_) => SensorStateClass::Unspecified,
        }
    }
}

impl FromSpecImpl<proto::SensorStateClass> for SensorStateClass {
    open spec fn obeys_from_spec() -> bool {
        true
    }

    open spec fn from_spec(value: proto::SensorStateClass) -> SensorStateClass {
        match value {
            proto::SensorStateClass::Measurement => SensorStateClass::Measurement,
            proto::SensorStateClass::TotalIncreasing => SensorStateClass::TotalIncreasing,
            proto::SensorStateClass::Total => SensorStateClass::Total,
            _ => SensorStateClass::Unspecified,
        }
    }
}

/// How the total of a sensor is reset.
#[derive(Debug, Clone, Copy, PartialEq, Eq)]
pub enum LastResetType {
    Unspecified,
    Never,
    Auto,
}

impl From<proto::SensorLastResetType> for LastResetType {
    /// A way of resetting that this version does not know is left
    /// unspecified.
    fn from(value: proto::SensorLastResetType) -> (reset: LastResetType) {
        match value {
            proto::SensorLastResetType::Unspecified => LastResetType::Unspecified,
            proto::SensorLastResetType::Never => LastResetType::Never,
            proto::SensorLastResetType::Auto => LastResetType::Auto,
            proto::SensorLastResetType::Unrecognized(_) => LastResetType::Unspecified,
        }
    }
}

impl FromSpecImpl<proto::SensorLastResetType> for LastResetType {
    open spec fn obeys_from_spec() -> bool {
        true
    }

    open spec fn from_spec(value: proto::SensorLastResetType) -> LastResetType {
        match value {
            proto::SensorLastResetType::Never => LastResetType::Never,
            proto::SensorLastResetType::Auto => LastResetType::Auto,
            _ => LastResetType::Unspecified,
        }
    }
}

/// What a sensor says of itself.
pub struct SensorInfo {
    pub entity_info: EntityInfo,
    pub device_class: String,
    pub unit_of_measurement: String,
    pub accuracy_decimals: i32,
    pub force_update: bool,
    pub state_class: SensorStateClass,
    pub legacy_last_reset_type: LastResetType,
}

/// The state of a sensor.
pub struct SensorState {
    pub entity_state: EntityState,
    pub state: Float32,
    pub missing_state: bool,
}

/// What a text sensor says of itself.
pub struct TextSensorInfo {
    pub entity_info: EntityInfo,
    pub device_class: String,
}

/// The state of a text sensor.
pub struct TextSensorState {
    pub entity_state: EntityState,
    pub state: String,
    pub missing_state: bool,
}

} // verus!
