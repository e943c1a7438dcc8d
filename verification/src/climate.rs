//! Climate devices.

use crate::entity::{EntityInfo, EntityState};
use crate::float32::Float32;
use crate::proto;
use crate::version::APIVersion;
use vstd::prelude::*;
use vstd::std_specs::convert::FromSpecImpl;

verus! {

/// What a climate device is set to do.
#[derive(Debug, Clone, Copy, PartialEq, Eq)]
pub enum ClimateMode {
    Off,
    HeatCool,
    Cool,
    Heat,
    FanOnly,
    Dry,
    Auto,
    /// A mode that this version does not know.
    Unknown,
}

impl From<proto::ClimateMode> for ClimateMode {
    fn from(value: proto::ClimateMode) -> (mode: ClimateMode) {
        match value {
            proto::ClimateMode::Off => ClimateMode::Off,
            proto::ClimateMode::HeatCool => ClimateMode::HeatCool,
            proto::ClimateMode::Cool => ClimateMode::Cool,
            proto::ClimateMode::Heat => ClimateMode::Heat,
            proto::ClimateMode::FanOnly => ClimateMode::FanOnly,
            proto::ClimateMode::Dry => ClimateMode::Dry,
            proto::ClimateMode::Auto => ClimateMode::Auto,
            proto::ClimateMode::Unrecognized(_) => ClimateMode::Unknown,
        }
    }
}

impl FromSpecImpl<proto::ClimateMode> for ClimateMode {
    open spec fn obeys_from_spec() -> bool {
        true
    }

    open spec fn from_spec(value: proto::ClimateMode) -> ClimateMode {
        match value {
            proto::ClimateMode::Off => ClimateMode::Off,
            proto::ClimateMode::HeatCool => ClimateMode::HeatCool,
            proto::ClimateMode::Cool => ClimateMode::Cool,
            proto::ClimateMode::Heat => ClimateMode::Heat,
            proto::ClimateMode::FanOnly => ClimateMode::FanOnly,
            proto::ClimateMode::Dry => ClimateMode::Dry,
            proto::ClimateMode::Auto => ClimateMode::Auto,
            proto::ClimateMode::Unrecognized(_) => ClimateMode::Unknown,
        }
    }
}

/// How the fan of a climate device runs.
#[derive(Debug, Clone, Copy, PartialEq, Eq)]
pub enum ClimateFanMode {
    On,
    Off,
    Auto,
    Low,
    Medium,
    High,
    Middle,
    Focus,
    Diffuse,
    Quiet,
    /// A fan mode that this version does not know.
    Unknown,
}

impl From<proto::ClimateFanMode> for ClimateFanMode {
    fn from(value: proto::ClimateFanMode) -> (mode: ClimateFanMode) {
        match value {
            proto::ClimateFanMode::On => ClimateFanMode::On,
            proto::ClimateFanMode::Off => ClimateFanMode::Off,
            proto::ClimateFanMode::Auto => ClimateFanMode::Auto,
            proto::ClimateFanMode::Low => ClimateFanMode::Low,
            proto::ClimateFanMode::Medium => ClimateFanMode::Medium,
            proto::ClimateFanMode::High => ClimateFanMode::High,
            proto::ClimateFanMode::Middle => ClimateFanMode::Middle,
            proto::ClimateFanMode::Focus => ClimateFanMode::Focus,
            proto::ClimateFanMode::Diffuse => ClimateFanMode::Diffuse,
            proto::ClimateFanMode::Quiet => ClimateFanMode::Quiet,
            proto::ClimateFanMode::Unrecognized(_) => ClimateFanMode::Unknown,
        }
    }
}

impl FromSpecImpl<proto::ClimateFanMode> for ClimateFanMode {
    open spec fn obeys_from_spec() -> bool {
        true
    }

    open spec fn from_spec(value: proto::ClimateFanMode) -> ClimateFanMode {
        match value {
            proto::ClimateFanMode::On => ClimateFanMode::On,
            proto::ClimateFanMode::Off => ClimateFanMode::Off,
            proto::ClimateFanMode::Auto => ClimateFanMode::Auto,
            proto::ClimateFanMode::Low => ClimateFanMode::Low,
            proto::ClimateFanMode::Medium => ClimateFanMode::Medium,
            proto::ClimateFanMode::High => ClimateFanMode::High,
            proto::ClimateFanMode::Middle => ClimateFanMode::Middle,
            proto::ClimateFanMode::Focus => ClimateFanMode::Focus,
            proto::ClimateFanMode::Diffuse => ClimateFanMode::Diffuse,
            proto::ClimateFanMode::Quiet => ClimateFanMode::Quiet,
            proto::ClimateFanMode::Unrecognized(_) => ClimateFanMode::Unknown,
        }
    }
}

/// How the louvres of a climate device swing.
#[derive(Debug, Clone, Copy, PartialEq, Eq)]
pub enum ClimateSwingMode {
    Off,
    Both,
    Vertical,
    Horizontal,
    /// A swing mode that this version does not know.
    Unknown,
}

impl From<proto::ClimateSwingMode> for ClimateSwingMode {
    fn from(value: proto::ClimateSwingMode) -> (mode: ClimateSwingMode) {
        match value {
            proto::ClimateSwingMode::Off => ClimateSwingMode::Off,
            proto::ClimateSwingMode::Both => ClimateSwingMode::Both,
            proto::ClimateSwingMode::Vertical => ClimateSwingMode::Vertical,
            proto::ClimateSwingMode::Horizontal => ClimateSwingMode::Horizontal,
            proto::ClimateSwingMode::Unrecognized(_) => ClimateSwingMode::Unknown,
        }
    }
}

impl FromSpecImpl<proto::ClimateSwingMode> for ClimateSwingMode {
    open spec fn obeys_from_spec() -> bool {
        true
    }

    open spec fn from_spec(value: proto::ClimateSwingMode) -> ClimateSwingMode {
        match value {
            proto::ClimateSwingMode::Off => ClimateSwingMode::Off,
            proto::ClimateSwingMode::Both => ClimateSwingMode::Both,
            proto::ClimateSwingMode::Vertical => ClimateSwingMode::Vertical,
            proto::ClimateSwingMode::Horizontal => ClimateSwingMode::Horizontal,
            proto::ClimateSwingMode::Unrecognized(_) => ClimateSwingMode::Unknown,
        }
    }
}

/// What a climate device is doing at the moment.
#[derive(Debug, Clone, Copy, PartialEq, Eq)]
pub enum ClimateAction {
    Off,
    Cooling,
    Heating,
    Idle,
    Drying,
    Fan,
    /// An action that this version does not know.
    Unknown,
}

impl From<proto::ClimateAction> for ClimateAction {
    fn from(value: proto::ClimateAction) -> (action: ClimateAction) {
        match value {
            proto::ClimateAction::Off => ClimateAction::Off,
            proto::ClimateAction::Cooling => ClimateAction::Cooling,
            proto::ClimateAction::Heating => ClimateAction::Heating,
            proto::ClimateAction::Idle => ClimateAction::Idle,
            proto::ClimateAction::Drying => ClimateAction::Drying,
            proto::ClimateAction::Fan => ClimateAction::Fan,
            proto::ClimateAction::Unrecognized(_) => ClimateAction::Unknown,
        }
    }
}

impl FromSpecImpl<proto::ClimateAction> for ClimateAction {
    open spec fn obeys_from_spec() -> bool {
        true
    }

    open spec fn from_spec(value: proto::ClimateAction) -> ClimateAction {
        match value {
            proto::ClimateAction::Off => ClimateAction::Off,
            proto::ClimateAction::Cooling => ClimateAction::Cooling,
            proto::ClimateAction::Heating => ClimateAction::Heating,
            proto::ClimateAction::Idle => ClimateAction::Idle,
            proto::ClimateAction::Drying => ClimateAction::Drying,
            proto::ClimateAction::Fan => ClimateAction::Fan,
            proto::ClimateAction::Unrecognized(_) => ClimateAction::Unknown,
        }
    }
}

/// A preset of a climate device.
#[derive(Debug, Clone, Copy, PartialEq, Eq)]
pub enum ClimatePreset {
    Unspecified,
    Home,
    Away,
    Boost,
    Comfort,
    Eco,
    Sleep,
    Activity,
}

impl From<proto::ClimatePreset> for ClimatePreset {
    /// A preset that this version does not know is left unspecified.
    fn from(value: proto::ClimatePreset) -> (preset: ClimatePreset) {
        match value {
            proto::ClimatePreset::Unspecified => ClimatePreset::Unspecified,
            proto::ClimatePreset::Home => ClimatePreset::Home,
            proto::ClimatePreset::Away => ClimatePreset::Away,
            proto::ClimatePreset::Boost => ClimatePreset::Boost,
            proto::ClimatePreset::Comfort => ClimatePreset::Comfort,
            proto::ClimatePreset::Eco => ClimatePreset::Eco,
            proto::ClimatePreset::Sleep => ClimatePreset::Sleep,
            proto::ClimatePreset::Activity => ClimatePreset::Activity,
            proto::ClimatePreset::Unrecognized(_) => ClimatePreset::Unspecified,
        }
    }
}

impl FromSpecImpl<proto::ClimatePreset> for ClimatePreset {
    open spec fn obeys_from_spec() -> bool {
        true
    }

    open spec fn from_spec(value: proto::ClimatePreset) -> ClimatePreset {
        match value {
            proto::ClimatePreset::Home => ClimatePreset::Home,
            proto::ClimatePreset::Away => ClimatePreset::Away,
            proto::ClimatePreset::Boost => ClimatePreset::Boost,
            proto::ClimatePreset::Comfort => ClimatePreset::Comfort,
            proto::ClimatePreset::Eco => ClimatePreset::Eco,
            proto::ClimatePreset::Sleep => ClimatePreset::Sleep,
            proto::ClimatePreset::Activity => ClimatePreset::Activity,
            _ => ClimatePreset::Unspecified,
        }
    }
}

/// What a climate device says of itself.
pub struct ClimateInfo {
    pub entity_info: EntityInfo,
    pub supports_current_temperature: bool,
    pub supports_two_point_target_temperature: bool,
    pub supported_modes: Vec<ClimateMode>,
    pub visual_min_temperature: Float32,
    pub visual_max_temperature: Float32,
    pub visual_target_temperature_step: Float32,
    pub visual_current_temperature_step: Float32,
    /// Whether the device can be set to away, from which older clients tell
    /// the presets.
    pub legacy_supports_away: bool,
    pub supports_action: bool,
    pub supported_fan_modes: Vec<ClimateFanMode>,
    pub supported_swing_modes: Vec<ClimateSwingMode>,
    pub supported_custom_fan_modes: Vec<String>,
    pub supported_presets: Vec<ClimatePreset>,
    pub supported_custom_presets: Vec<String>,
    pub supports_current_humidity: bool,
    pub supports_target_humidity: bool,
    pub visual_min_humidity: Float32,
    pub visual_max_humidity: Float32,
}

/// The first version in which climate devices speak of presets.
pub open spec fn presets_since() -> APIVersion {
    APIVersion { major: 1, minor: 5 }
}

impl ClimateInfo {
    /// The presets of the device: before devices listed them, home and away
    /// for a device that can be set to away, and none for any other; since
    /// then, the list as it was sent.
    pub open spec fn spec_supported_presets_compat(&self, api_version: APIVersion) -> Seq<
        ClimatePreset,
    > {
        if api_version.spec_lt(presets_since()) {
            if self.legacy_supports_away {
                seq![ClimatePreset::Home, ClimatePreset::Away]
            } else {
                Seq::empty()
            }
        } else {
            self.supported_presets@
        }
    }

    /// The presets of the device, as a client of the given version is to
    /// read them.
    pub fn supported_presets_compat(&self, api_version: APIVersion) -> (presets: Vec<
        ClimatePreset,
    >)
        ensures
            presets@ == self.spec_supported_presets_compat(api_version),
    {
        let mut presets: Vec<ClimatePreset> = Vec::new();
        if api_version < APIVersion::new(1, 5) {
            if self.legacy_supports_away {
                presets.push(ClimatePreset::Home);
                presets.push(ClimatePreset::Away);
            }
        } else {
            let mut i: usize = 0;
            while i < self.supported_presets.len()
                invariant
                    i <= self.supported_presets.len(),
                    presets@ == self.supported_presets@.take(i as int),
                decreases self.supported_presets.len() - i,
            {
                presets.push(self.supported_presets[i]);
                i += 1;
            }
        }
        presets
    }
}

/// The state of a climate device.
pub struct ClimateState {
    pub entity_state: EntityState,
    pub mode: Option<ClimateMode>,
    pub action: Option<ClimateAction>,
    pub current_temperature: Float32,
    pub target_temperature: Float32,
    pub target_temperature_low: Float32,
    pub target_temperature_high: Float32,
    /// Whether the device is set to away, from which older clients tell the
    /// active preset.
    pub legacy_away: bool,
    pub fan_mode: Option<ClimateFanMode>,
    pub swing_mode: Option<ClimateSwingMode>,
    pub custom_fan_mode: String,
    pub preset: Option<ClimatePreset>,
    pub custom_preset: String,
    pub current_humidity: Float32,
    pub target_humidity: Float32,
}

impl ClimateState {
    /// The preset that is active: before devices spoke of presets, away or
    /// home, as the device is away or not; since then, the preset as it was
    /// sent, if one was.
    pub open spec fn spec_preset_compat(&self, api_version: APIVersion) -> Option<ClimatePreset> {
        if api_version.spec_lt(presets_since()) {
            if self.legacy_away {
                Some(ClimatePreset::Away)
            } else {
                Some(ClimatePreset::Home)
            }
        } else {
            self.preset
        }
    }

    /// The preset that is active, as a client of the given version is to
    /// read it.
    pub fn preset_compat(&self, api_version: APIVersion) -> (preset: Option<ClimatePreset>)
        ensures
            preset == self.spec_preset_compat(api_version),
    {
        if api_version < APIVersion::new(1, 5) {
            if self.legacy_away {
                Some(ClimatePreset::Away)
            } else {
                Some(ClimatePreset::Home)
            }
        } else {
            self.preset
        }
    }
}

/// Before climate devices listed their presets, nothing but the answer to
/// "can it be set to away" bears on them.
pub proof fn lemma_presets_before(
    one: ClimateInfo,
    one_version: APIVersion,
    other: ClimateInfo,
    other_version: APIVersion,
)
    requires
        one_version.spec_lt(presets_since()),
        other_version.spec_lt(presets_since()),
        one.legacy_supports_away == other.legacy_supports_away,
    ensures
        one.spec_supported_presets_compat(one_version) == other.spec_supported_presets_compat(
            other_version,
        ),
{
}

/// Since climate devices list their presets, the list is handed on as it
/// was sent.
pub proof fn lemma_presets_since(info: ClimateInfo, api_version: APIVersion)
    requires
        !api_version.spec_lt(presets_since()),
    ensures
        info.spec_supported_presets_compat(api_version) == info.supported_presets@,
{
}

/// Before climate devices spoke of presets there is always an active one,
/// and nothing but "is it away" bears on which.
pub proof fn lemma_preset_before(
    one: ClimateState,
    one_version: APIVersion,
    other: ClimateState,
    other_version: APIVersion,
)
    requires
        one_version.spec_lt(presets_since()),
        other_version.spec_lt(presets_since()),
        one.legacy_away == other.legacy_away,
    ensures
        one.spec_preset_compat(one_version) == other.spec_preset_compat(other_version),
        one.spec_preset_compat(one_version) is Some,
{
}

/// Since climate devices speak of presets, the active one is handed on as
/// it was sent.
pub proof fn lemma_preset_since(state: ClimateState, api_version: APIVersion)
    requires
        !api_version.spec_lt(presets_since()),
    ensures
        state.spec_preset_compat(api_version) == state.preset,
{
}

/// Reading the presets twice gives one answer: what the function may return
/// is fixed by the device and the version.
pub proof fn lemma_presets_repeatable(
    info: &ClimateInfo,
    api_version: APIVersion,
    first: Vec<ClimatePreset>,
    second: Vec<ClimatePreset>,
)
    requires
        call_ensures(ClimateInfo::supported_presets_compat, (info, api_version), first),
        call_ensures(ClimateInfo::supported_presets_compat, (info, api_version), second),
    ensures
        first@ == second@,
{
}

/// Reading the active preset twice gives one answer.
pub proof fn lemma_preset_repeatable(
    state: &ClimateState,
    api_version: APIVersion,
    first: Option<ClimatePreset>,
    second: Option<ClimatePreset>,
)
    requires
        call_ensures(ClimateState::preset_compat, (state, api_version), first),
        call_ensures(ClimateState::preset_compat, (state, api_version), second),
    ensures
        first == second,
{
}

} // verus!
