//! Lights: what colours a light can show, and how a device says so.

use crate::entity::{EntityInfo, EntityState};
use crate::flags::{bits_of, lemma_bits_of_push, lemma_members_bits_of, members, Flag, FlagSet};
use crate::float32::Float32;
use crate::proto;
use crate::version::APIVersion;
use vstd::prelude::*;
use vstd::std_specs::convert::FromSpecImpl;

verus! {

/// One thing that a light can do with its colour.
#[derive(Debug, Clone, Copy, PartialEq, Eq)]
pub enum LightColorCapability {
    OnOff,
    Brightness,
    White,
    ColorTemperature,
    ColdWarmWhite,
    RGB,
}

impl Flag for LightColorCapability {
    open spec fn spec_position(self) -> u8 {
        match self {
            LightColorCapability::OnOff => 0,
            LightColorCapability::Brightness => 1,
            LightColorCapability::White => 2,
            LightColorCapability::ColorTemperature => 3,
            LightColorCapability::ColdWarmWhite => 4,
            LightColorCapability::RGB => 5,
        }
    }

    proof fn lemma_position_in_byte(self) {
    }

    proof fn lemma_position_distinct(self, other: Self) {
    }

    fn position(self) -> (position: u8) {
        match self {
            LightColorCapability::OnOff => 0,
            LightColorCapability::Brightness => 1,
            LightColorCapability::White => 2,
            LightColorCapability::ColorTemperature => 3,
            LightColorCapability::ColdWarmWhite => 4,
            LightColorCapability::RGB => 5,
        }
    }
}

/// A way in which a light shows colour.
#[derive(Debug, Clone, Copy, PartialEq, Eq)]
pub enum ColorMode {
    Unknown,
    OnOff,
    Brightness,
    White,
    ColorTemperature,
    ColdWarmWhite,
    RGB,
    RGBWhite,
    RGBColorTemperature,
    RGBColdWarmWhite,
}

impl ColorMode {
    /// The number that stands for the mode on the wire.
    pub open spec fn spec_value(self) -> u8 {
        match self {
            ColorMode::Unknown => 0,
            ColorMode::OnOff => 1,
            ColorMode::Brightness => 2,
            ColorMode::White => 7,
            ColorMode::ColorTemperature => 11,
            ColorMode::ColdWarmWhite => 19,
            ColorMode::RGB => 35,
            ColorMode::RGBWhite => 39,
            ColorMode::RGBColorTemperature => 47,
            ColorMode::RGBColdWarmWhite => 51,
        }
    }
}

impl From<proto::ColorMode> for ColorMode {
    /// A mode that this version does not know is an unknown mode.
    fn from(value: proto::ColorMode) -> (mode: ColorMode) {
        match value {
            proto::ColorMode::Unknown => ColorMode::Unknown,
            proto::ColorMode::OnOff => ColorMode::OnOff,
            proto::ColorMode::Brightness => ColorMode::Brightness,
            proto::ColorMode::White => ColorMode::White,
            proto::ColorMode::ColorTemperature => ColorMode::ColorTemperature,
            proto::ColorMode::ColdWarmWhite => ColorMode::ColdWarmWhite,
            proto::ColorMode::Rgb => ColorMode::RGB,
            proto::ColorMode::RgbWhite => ColorMode::RGBWhite,
            proto::ColorMode::RgbColorTemperature => ColorMode::RGBColorTemperature,
            proto::ColorMode::RgbColdWarmWhite => ColorMode::RGBColdWarmWhite,
            proto::ColorMode::Unrecognized(_) => ColorMode::Unknown,
        }
    }
}

impl FromSpecImpl<proto::ColorMode> for ColorMode {
    open spec fn obeys_from_spec() -> bool {
        true
    }

    open spec fn from_spec(value: proto::ColorMode) -> ColorMode {
        match value {
            proto::ColorMode::OnOff => ColorMode::OnOff,
            proto::ColorMode::Brightness => ColorMode::Brightness,
            proto::ColorMode::White => ColorMode::White,
            proto::ColorMode::ColorTemperature => ColorMode::ColorTemperature,
            proto::ColorMode::ColdWarmWhite => ColorMode::ColdWarmWhite,
            proto::ColorMode::Rgb => ColorMode::RGB,
            proto::ColorMode::RgbWhite => ColorMode::RGBWhite,
            proto::ColorMode::RgbColorTemperature => ColorMode::RGBColorTemperature,
            proto::ColorMode::RgbColdWarmWhite => ColorMode::RGBColdWarmWhite,
            _ => ColorMode::Unknown,
        }
    }
}

impl From<ColorMode> for u8 {
    fn from(mode: ColorMode) -> (value: u8) {
        match mode {
            ColorMode::Unknown => 0,
            ColorMode::OnOff => 1,
            ColorMode::Brightness => 2,
            ColorMode::White => 7,
            ColorMode::ColorTemperature => 11,
            ColorMode::ColdWarmWhite => 19,
            ColorMode::RGB => 35,
            ColorMode::RGBWhite => 39,
            ColorMode::RGBColorTemperature => 47,
            ColorMode::RGBColdWarmWhite => 51,
        }
    }
}

impl FromSpecImpl<ColorMode> for u8 {
    open spec fn obeys_from_spec() -> bool {
        true
    }

    open spec fn from_spec(mode: ColorMode) -> u8 {
        mode.spec_value()
    }
}

/// What a light says of itself.
pub struct LightInfo {
    pub entity_info: EntityInfo,
    pub supported_color_modes: Vec<ColorMode>,
    pub min_mireds: Float32,
    pub max_mireds: Float32,
    pub effects: Vec<String>,
    /// The four answers from which older clients tell the colour modes.
    pub legacy_supports_brightness: bool,
    pub legacy_supports_rgb: bool,
    pub legacy_supports_white_value: bool,
    pub legacy_supports_color_temperature: bool,
}

/// Whether a device can send these four answers at all. A light that cannot
/// be dimmed has no colour either, and one without colour has no separate
/// white.
pub open spec fn is_regular(
    brightness: bool,
    rgb: bool,
    white_value: bool,
    color_temperature: bool,
) -> bool {
    if brightness {
        rgb || !white_value
    } else {
        !rgb && !white_value && !color_temperature
    }
}

/// What a light can do that answers four questions: can it be dimmed, can
/// it show colours, has it a separate white, can its white be made warmer
/// or colder?
pub open spec fn spec_legacy_capabilities(
    brightness: bool,
    rgb: bool,
    white_value: bool,
    color_temperature: bool,
) -> Seq<LightColorCapability> {
    match (brightness, rgb, white_value, color_temperature) {
        (false, false, false, false) => seq![LightColorCapability::OnOff],
        (true, false, false, false) => seq![
            LightColorCapability::OnOff,
            LightColorCapability::Brightness,
        ],
        (true, false, false, true) => seq![
            LightColorCapability::OnOff,
            LightColorCapability::Brightness,
            LightColorCapability::ColorTemperature,
        ],
        (true, true, false, false) => seq![
            LightColorCapability::OnOff,
            LightColorCapability::Brightness,
            LightColorCapability::RGB,
        ],
        (true, true, true, false) => seq![
            LightColorCapability::OnOff,
            LightColorCapability::Brightness,
            LightColorCapability::RGB,
            LightColorCapability::White,
        ],
        (true, true, false, true) => seq![
            LightColorCapability::OnOff,
            LightColorCapability::Brightness,
            LightColorCapability::RGB,
            LightColorCapability::ColorTemperature,
        ],
        (true, true, true, true) => seq![
            LightColorCapability::OnOff,
            LightColorCapability::Brightness,
            LightColorCapability::RGB,
            LightColorCapability::White,
            LightColorCapability::ColorTemperature,
        ],
        _ => seq![LightColorCapability::OnOff],
    }
}

/// What a light can do that answers the four questions in the given way.
pub fn legacy_capabilities(
    brightness: bool,
    rgb: bool,
    white_value: bool,
    color_temperature: bool,
) -> (capabilities: FlagSet<LightColorCapability>)
    ensures
        capabilities.spec_bits() == bits_of(
            spec_legacy_capabilities(brightness, rgb, white_value, color_temperature),
        ),
        capabilities@ == spec_legacy_capabilities(
            brightness,
            rgb,
            white_value,
            color_temperature,
        ).to_set(),
{
    match (brightness, rgb, white_value, color_temperature) {
        (true, false, false, false) => {
            let flags = [LightColorCapability::OnOff, LightColorCapability::Brightness];
            FlagSet::from_flags(flags.as_slice())
        },
        (true, false, false, true) => {
            let flags = [
                LightColorCapability::OnOff,
                LightColorCapability::Brightness,
                LightColorCapability::ColorTemperature,
            ];
            FlagSet::from_flags(flags.as_slice())
        },
        (true, true, false, false) => {
            let flags = [
                LightColorCapability::OnOff,
                LightColorCapability::Brightness,
                LightColorCapability::RGB,
            ];
            FlagSet::from_flags(flags.as_slice())
        },
        (true, true, true, false) => {
            let flags = [
                LightColorCapability::OnOff,
                LightColorCapability::Brightness,
                LightColorCapability::RGB,
                LightColorCapability::White,
            ];
            FlagSet::from_flags(flags.as_slice())
        },
        (true, true, false, true) => {
            let flags = [
                LightColorCapability::OnOff,
                LightColorCapability::Brightness,
                LightColorCapability::RGB,
                LightColorCapability::ColorTemperature,
            ];
            FlagSet::from_flags(flags.as_slice())
        },
        (true, true, true, true) => {
            let flags = [
                LightColorCapability::OnOff,
                LightColorCapability::Brightness,
                LightColorCapability::RGB,
                LightColorCapability::White,
                LightColorCapability::ColorTemperature,
            ];
            FlagSet::from_flags(flags.as_slice())
        },
        _ => {
            let flags = [LightColorCapability::OnOff];
            assert(flags@ =~= spec_legacy_capabilities(
                brightness,
                rgb,
                white_value,
                color_temperature,
            ));
            FlagSet::from_flags(flags.as_slice())
        },
    }
}

/// The table of the four answers, read by capability. Every light can be
/// switched. If the answers are regular, the light can do what it answered
/// yes to, with colour for an RGB light, and it has no separate cold and
/// warm white. If they are not, switching is all it is taken to do.
pub proof fn lemma_legacy_capabilities(
    brightness: bool,
    rgb: bool,
    white_value: bool,
    color_temperature: bool,
    capability: LightColorCapability,
)
    ensures
        spec_legacy_capabilities(brightness, rgb, white_value, color_temperature).len() >= 1,
        members::<LightColorCapability>(
            bits_of(spec_legacy_capabilities(brightness, rgb, white_value, color_temperature)),
        ).contains(capability) <==> (if is_regular(
            brightness,
            rgb,
            white_value,
            color_temperature,
        ) {
            match capability {
                LightColorCapability::OnOff => true,
                LightColorCapability::Brightness => brightness,
                LightColorCapability::White => white_value,
                LightColorCapability::ColorTemperature => color_temperature,
                LightColorCapability::ColdWarmWhite => false,
                LightColorCapability::RGB => rgb,
            }
        } else {
            capability == LightColorCapability::OnOff
        }),
{
    let listed = spec_legacy_capabilities(brightness, rgb, white_value, color_temperature);
    lemma_members_bits_of(listed);
}

/// The byte for each way of answering the four questions.
pub proof fn lemma_legacy_capability_bits(
    brightness: bool,
    rgb: bool,
    white_value: bool,
    color_temperature: bool,
)
    ensures
        bits_of(spec_legacy_capabilities(brightness, rgb, white_value, color_temperature))
            == (match (brightness, rgb, white_value, color_temperature) {
            (true, false, false, false) => 0b00_0011u8,
            (true, false, false, true) => 0b00_1011u8,
            (true, true, false, false) => 0b10_0011u8,
            (true, true, true, false) => 0b10_0111u8,
            (true, true, false, true) => 0b10_1011u8,
            (true, true, true, true) => 0b10_1111u8,
            _ => 0b00_0001u8,
        }),
{
    let on_off = LightColorCapability::OnOff;
    let dim = LightColorCapability::Brightness;
    let colour = LightColorCapability::RGB;
    let white = LightColorCapability::White;
    let warmth = LightColorCapability::ColorTemperature;
    let none = Seq::<LightColorCapability>::empty();
    lemma_bits_of_push(none, on_off);
    lemma_bits_of_push(seq![on_off], dim);
    lemma_bits_of_push(seq![on_off, dim], colour);
    lemma_bits_of_push(seq![on_off, dim], warmth);
    lemma_bits_of_push(seq![on_off, dim, colour], white);
    lemma_bits_of_push(seq![on_off, dim, colour], warmth);
    lemma_bits_of_push(seq![on_off, dim, colour, white], warmth);
    assert(seq![on_off].push(dim) =~= seq![on_off, dim]);
    assert(seq![on_off, dim].push(colour) =~= seq![on_off, dim, colour]);
    assert(seq![on_off, dim].push(warmth) =~= seq![on_off, dim, warmth]);
    assert(seq![on_off, dim, colour].push(white) =~= seq![on_off, dim, colour, white]);
    assert(seq![on_off, dim, colour].push(warmth) =~= seq![on_off, dim, colour, warmth]);
    assert(seq![on_off, dim, colour, white].push(warmth) =~= seq![
        on_off,
        dim,
        colour,
        white,
        warmth,
    ]);
    assert(0u8 | (1u8 << 0u8) == 0b00_0001u8) by (bit_vector);
    assert(0b00_0001u8 | (1u8 << 1u8) == 0b00_0011u8) by (bit_vector);
    assert(0b00_0011u8 | (1u8 << 5u8) == 0b10_0011u8) by (bit_vector);
    assert(0b00_0011u8 | (1u8 << 3u8) == 0b00_1011u8) by (bit_vector);
    assert(0b10_0011u8 | (1u8 << 2u8) == 0b10_0111u8) by (bit_vector);
    assert(0b10_0011u8 | (1u8 << 3u8) == 0b10_1011u8) by (bit_vector);
    assert(0b10_0111u8 | (1u8 << 3u8) == 0b10_1111u8) by (bit_vector);
}

/// The numbers that stand for a list of colour modes on the wire.
pub open spec fn mode_values(modes: Seq<ColorMode>) -> Seq<u8> {
    Seq::new(modes.len(), |i: int| modes[i].spec_value())
}

impl LightInfo {
    /// The first version in which a light lists its colour modes.
    pub open spec fn color_modes_since() -> APIVersion {
        APIVersion { major: 1, minor: 6 }
    }

    /// The colour modes of the light, as numbers: before lights listed them,
    /// the one byte of what the four answers of the light amount to; since
    /// then, the list as it was sent.
    pub open spec fn spec_supported_color_modes_compat(&self, api_version: APIVersion) -> Seq<u8> {
        if api_version.spec_lt(Self::color_modes_since()) {
            seq![
                bits_of(
                    spec_legacy_capabilities(
                        self.legacy_supports_brightness,
                        self.legacy_supports_rgb,
                        self.legacy_supports_white_value,
                        self.legacy_supports_color_temperature,
                    ),
                ),
            ]
        } else {
            mode_values(self.supported_color_modes@)
        }
    }

    /// The colour modes of the light, as a client of the given version is to
    /// read them.
    pub fn supported_color_modes_compat(&self, api_version: APIVersion) -> (modes: Vec<u8>)
        ensures
            modes@ == self.spec_supported_color_modes_compat(api_version),
    {
        let mut modes: Vec<u8> = Vec::new();
        if api_version < APIVersion::new(1, 6) {
            let capabilities = legacy_capabilities(
                self.legacy_supports_brightness,
                self.legacy_supports_rgb,
                self.legacy_supports_white_value,
                self.legacy_supports_color_temperature,
            );
            modes.push(capabilities.bits());
        } else {
            let mut i: usize = 0;
            while i < self.supported_color_modes.len()
                invariant
                    i <= self.supported_color_modes.len(),
                    modes@ == mode_values(self.supported_color_modes@.take(i as int)),
                decreases self.supported_color_modes.len() - i,
            {
                modes.push(u8::from(self.supported_color_modes[i]));
                i += 1;
            }
        }
        modes
    }
}

/// The state of a light.
pub struct LightState {
    pub entity_state: EntityState,
    pub state: bool,
    pub brightness: Float32,
    pub color_mode: u8,
    pub color_brightness: Float32,
    pub red: Float32,
    pub green: Float32,
    pub blue: Float32,
    pub white: Float32,
    pub color_temperature: Float32,
    pub cold_white: Float32,
    pub warm_white: Float32,
    pub effect: String,
}

/// Before lights listed their colour modes, nothing but the four answers
/// bears on them, and the result is a list of one byte.
pub proof fn lemma_color_modes_before(
    one: LightInfo,
    one_version: APIVersion,
    other: LightInfo,
    other_version: APIVersion,
)
    requires
        one_version.spec_lt(LightInfo::color_modes_since()),
        other_version.spec_lt(LightInfo::color_modes_since()),
        one.legacy_supports_brightness == other.legacy_supports_brightness,
        one.legacy_supports_rgb == other.legacy_supports_rgb,
        one.legacy_supports_white_value == other.legacy_supports_white_value,
        one.legacy_supports_color_temperature == other.legacy_supports_color_temperature,
    ensures
        one.spec_supported_color_modes_compat(one_version)
            == other.spec_supported_color_modes_compat(other_version),
        one.spec_supported_color_modes_compat(one_version).len() == 1,
{
}

/// Since lights list their colour modes, the list is handed on as it was
/// sent: as many modes, in the same order, each by its number.
pub proof fn lemma_color_modes_since(info: LightInfo, api_version: APIVersion)
    requires
        !api_version.spec_lt(LightInfo::color_modes_since()),
    ensures
        info.spec_supported_color_modes_compat(api_version).len()
            == info.supported_color_modes@.len(),
        forall|i: int|
            0 <= i < info.supported_color_modes@.len()
                ==> #[trigger] info.spec_supported_color_modes_compat(api_version)[i]
                == info.supported_color_modes@[i].spec_value(),
{
}

/// No two colour modes share a number, so the list that was sent can be read
/// back from the numbers.
pub proof fn lemma_mode_values_distinct(one: ColorMode, other: ColorMode)
    requires
        one.spec_value() == other.spec_value(),
    ensures
        one == other,
{
}

/// Reading the colour modes twice gives one answer: what the function may
/// return is fixed by the light and the version.
pub proof fn lemma_color_modes_repeatable(
    info: &LightInfo,
    api_version: APIVersion,
    first: Vec<u8>,
    second: Vec<u8>,
)
    requires
        call_ensures(LightInfo::supported_color_modes_compat, (info, api_version), first),
        call_ensures(LightInfo::supported_color_modes_compat, (info, api_version), second),
    ensures
        first@ == second@,
{
}

} // verus!
