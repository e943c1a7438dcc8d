//! Messages and enumerations as the wire decoder hands them over.
//!
//! An enumeration has one variant for each value that the protocol names,
//! and `Unrecognized` for a number that a newer device may send.

use vstd::prelude::*;

verus! {

/// One entry of the service data or of the manufacturer data of an
/// advertisement. A device sends the payload either as bytes in `data` or,
/// in the older encoding, as numbers in `legacy_data`, each of which stands
/// for two bytes.
pub struct BluetoothServiceData {
    /// The UUID of the service, or the identifier of the company as a
    /// decimal number.
    pub uuid: String,
    pub legacy_data: Vec<u16>,
    pub data: Vec<u8>,
}

/// A Bluetooth Low Energy advertisement that a proxy forwards.
pub struct BluetoothLEAdvertisementResponse {
    pub address: u64,
    pub name: String,
    pub rssi: i32,
    pub service_uuids: Vec<String>,
    pub service_data: Vec<BluetoothServiceData>,
    pub manufacturer_data: Vec<BluetoothServiceData>,
    pub address_type: u32,
}

} // verus!

verus! {

/// The category of an entity, as sent.
#[derive(Debug, Clone, Copy, PartialEq, Eq)]
pub enum EntityCategory {
    Unspecified,
    Config,
    Diagnostic,
    /// A number that this version of the protocol does not name.
    Unrecognized(i32),
}

/// The colour mode of a light, as sent.
#[derive(Debug, Clone, Copy, PartialEq, Eq)]
pub enum ColorMode {
    Unknown,
    OnOff,
    Brightness,
    White,
    ColorTemperature,
    ColdWarmWhite,
    Rgb,
    RgbWhite,
    RgbColorTemperature,
    RgbColdWarmWhite,
    /// A number that this version of the protocol does not name.
    Unrecognized(i32),
}

/// The state class of a sensor, as sent.
#[derive(Debug, Clone, Copy, PartialEq, Eq)]
pub enum SensorStateClass {
    Unspecified,
    Measurement,
    TotalIncreasing,
    Total,
    /// A number that this version of the protocol does not name.
    Unrecognized(i32),
}

/// How the total of a sensor is reset, as sent.
#[derive(Debug, Clone, Copy, PartialEq, Eq)]
pub enum SensorLastResetType {
    Unspecified,
    Never,
    Auto,
    /// A number that this version of the protocol does not name.
    Unrecognized(i32),
}

/// The mode of a climate device, as sent.
#[derive(Debug, Clone, Copy, PartialEq, Eq)]
pub enum ClimateMode {
    Off,
    HeatCool,
    Cool,
    Heat,
    FanOnly,
    Dry,
    Auto,
    /// A number that this version of the protocol does not name.
    Unrecognized(i32),
}

/// The fan mode of a climate device, as sent.
#[derive(Debug, Clone, Copy, PartialEq, Eq)]
pub enum ClimateFanMode {
    On,
    Off,
    Auto,
    Low,
    Medium,
    High,
    Middle,
    Focus,
    Diffuse,
    Quiet,
    /// A number that this version of the protocol does not name.
    Unrecognized(i32),
}

/// The swing mode of a climate device, as sent.
#[derive(Debug, Clone, Copy, PartialEq, Eq)]
pub enum ClimateSwingMode {
    Off,
    Both,
    Vertical,
    Horizontal,
    /// A number that this version of the protocol does not name.
    Unrecognized(i32),
}

/// What a climate device is doing, as sent.
#[derive(Debug, Clone, Copy, PartialEq, Eq)]
pub enum ClimateAction {
    Off,
    Cooling,
    Heating,
    Idle,
    Drying,
    Fan,
    /// A number that this version of the protocol does not name.
    Unrecognized(i32),
}

/// The preset of a climate device, as sent.
#[derive(Debug, Clone, Copy, PartialEq, Eq)]
pub enum ClimatePreset {
    Unspecified,
    Home,
    Away,
    Boost,
    Comfort,
    Eco,
    Sleep,
    Activity,
    /// A number that this version of the protocol does not name.
    Unrecognized(i32),
}

/// How a number is entered, as sent.
#[derive(Debug, Clone, Copy, PartialEq, Eq)]
pub enum NumberMode {
    Auto,
    Box,
    Slider,
    /// A number that this version of the protocol does not name.
    Unrecognized(i32),
}

/// How a text is entered, as sent.
#[derive(Debug, Clone, Copy, PartialEq, Eq)]
pub enum TextMode {
    Text,
    Password,
    /// A number that this version of the protocol does not name.
    Unrecognized(i32),
}

} // verus!
