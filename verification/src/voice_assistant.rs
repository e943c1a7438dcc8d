//! The voice assistant of a device.

use crate::flags::{graded_bits, lemma_members_graded, members, Flag, FlagSet};
use crate::float32::Float32;
use vstd::prelude::*;

verus! {

/// What the voice assistant of a device can do.
#[derive(Debug, Clone, Copy, PartialEq, Eq)]
pub enum VoiceAssistantFeature {
    VoiceAssistant,
    Speaker,
    APIAudio,
    Timers,
    Announce,
}

impl Flag for VoiceAssistantFeature {
    open spec fn spec_position(self) -> u8 {
        match self {
            VoiceAssistantFeature::VoiceAssistant => 0,
            VoiceAssistantFeature::Speaker => 1,
            VoiceAssistantFeature::APIAudio => 2,
            VoiceAssistantFeature::Timers => 3,
            VoiceAssistantFeature::Announce => 4,
        }
    }

    proof fn lemma_position_in_byte(self) {
    }

    proof fn lemma_position_distinct(self, other: Self) {
    }

    fn position(self) -> (position: u8) {
        match self {
            VoiceAssistantFeature::VoiceAssistant => 0,
            VoiceAssistantFeature::Speaker => 1,
            VoiceAssistantFeature::APIAudio => 2,
            VoiceAssistantFeature::Timers => 3,
            VoiceAssistantFeature::Announce => 4,
        }
    }
}

impl VoiceAssistantFeature {
    /// The features that a device states by the version of its voice
    /// assistant alone, each with the first version that has it.
    pub open spec fn spec_legacy_table() -> Seq<(u8, VoiceAssistantFeature)> {
        seq![(1u8, VoiceAssistantFeature::VoiceAssistant), (2u8, VoiceAssistantFeature::Speaker)]
    }

    /// The byte of the features of a voice assistant of the given version.
    pub open spec fn spec_legacy_bits(version: u8) -> u8 {
        graded_bits(Self::spec_legacy_table(), version)
    }

    /// The features of a voice assistant of the given version.
    pub fn from_legacy_version(version: u8) -> (features: FlagSet<VoiceAssistantFeature>)
        ensures
            features.spec_bits() == Self::spec_legacy_bits(version),
    {
        let table = [
            (1u8, VoiceAssistantFeature::VoiceAssistant),
            (2u8, VoiceAssistantFeature::Speaker),
        ];
        FlagSet::graded(table.as_slice(), version)
    }
}

/// A voice assistant of a given version has a feature exactly if the version
/// has reached the one that brought the feature. No version stands for audio
/// over the API, timers or announcements.
pub proof fn lemma_legacy_assistant_features(version: u8, feature: VoiceAssistantFeature)
    ensures
        members::<VoiceAssistantFeature>(
            VoiceAssistantFeature::spec_legacy_bits(version),
        ).contains(feature) <==> (match feature {
            VoiceAssistantFeature::VoiceAssistant => version >= 1,
            VoiceAssistantFeature::Speaker => version >= 2,
            _ => false,
        }),
{
    let table = VoiceAssistantFeature::spec_legacy_table();
    lemma_members_graded(table, version, feature);
    assert(table[0].1 == VoiceAssistantFeature::VoiceAssistant && table[0].0 == 1);
    assert(table[1].1 == VoiceAssistantFeature::Speaker && table[1].0 == 2);
}

/// The byte of the features of a voice assistant, version by version.
pub proof fn lemma_legacy_assistant_bits(version: u8)
    ensures
        VoiceAssistantFeature::spec_legacy_bits(version) == (if version >= 2 {
            0b11u8
        } else if version >= 1 {
            0b1u8
        } else {
            0u8
        }),
{
    let t2 = VoiceAssistantFeature::spec_legacy_table();
    let t1 = t2.drop_last();
    let t0 = t1.drop_last();
    assert(graded_bits(t0, version) == 0);
    assert(0u8 | (1u8 << 0u8) == 0b1u8) by (bit_vector);
    assert(0b1u8 | (1u8 << 1u8) == 0b11u8) by (bit_vector);
    assert(graded_bits(t1, version) == if version >= 1 {
        0b1u8
    } else {
        0u8
    });
}

/// What a client can ask of a voice assistant when it subscribes.
#[derive(Debug, Clone, Copy, PartialEq, Eq)]
pub enum VoiceAssistantSubscriptionFlag {
    APIAudio,
}

impl Flag for VoiceAssistantSubscriptionFlag {
    open spec fn spec_position(self) -> u8 {
        0
    }

    proof fn lemma_position_in_byte(self) {
    }

    proof fn lemma_position_distinct(self, other: Self) {
    }

    fn position(self) -> (position: u8) {
        0
    }
}

/// How a voice command is to be picked up.
#[derive(Debug, Clone, Copy, PartialEq, Eq)]
pub enum VoiceAssistantCommandFlag {
    UseVAD,
    UseWakeWord,
}

impl Flag for VoiceAssistantCommandFlag {
    open spec fn spec_position(self) -> u8 {
        match self {
            VoiceAssistantCommandFlag::UseVAD => 0,
            VoiceAssistantCommandFlag::UseWakeWord => 1,
        }
    }

    proof fn lemma_position_in_byte(self) {
    }

    proof fn lemma_position_distinct(self, other: Self) {
    }

    fn position(self) -> (position: u8) {
        match self {
            VoiceAssistantCommandFlag::UseVAD => 0,
            VoiceAssistantCommandFlag::UseWakeWord => 1,
        }
    }
}

/// How a device treats the audio that it picks up.
pub struct VoiceAssistantAudioSettings {
    pub noise_suppression_level: u8,
    pub auto_gain: u8,
    pub volume_multiplier: Float32,
}

/// What a device asks of the voice pipeline.
pub struct VoiceAssistantCommand {
    pub start: bool,
    pub conversation_id: String,
    pub flags: u8,
    pub audio_settings: Vec<VoiceAssistantAudioSettings>,
    pub wake_word_phrase: String,
}

/// A piece of audio of a voice command.
pub struct VoiceAssistantAudioData {
    pub data: Vec<u8>,
    pub end: bool,
}

/// How an announcement went.
pub struct VoiceAssistantAnnounceFinished {
    pub success: bool,
}

/// A wake word that a device can listen for.
pub struct VoiceAssistantWakeWord {
    pub id: String,
    pub wake_word: String,
    pub trained_languages: Vec<String>,
}

/// The wake words of a device.
pub struct VoiceAssistantConfigurationResponse {
    pub available_wake_words: Vec<VoiceAssistantWakeWord>,
    pub active_wake_words: Vec<String>,
    pub max_active_wake_words: u8,
}

/// The question for the wake words of a device.
pub struct VoiceAssistantConfigurationRequest {}

/// The wake words that a device is to listen for.
pub struct VoiceAssistantSetConfiguration {
    pub active_wake_words: Vec<u8>,
}

/// What happens in the course of a voice command.
#[derive(Debug, Clone, Copy, PartialEq, Eq)]
pub enum VoiceAssistantEventType {
    Error,
    RunStart,
    RunEnd,
    STTStart,
    STTEnd,
    IntentStart,
    IntentEnd,
    TTSStart,
    TTSEnd,
    WakeWordStart,
    WakeWordEnd,
    SSTVADStart,
    SSTVADEnd,
    TTSStreamStart,
    TTSStreamEnd,
}

/// What happens to a timer of the voice assistant.
#[derive(Debug, Clone, Copy, PartialEq, Eq)]
pub enum VoiceAssistantTimerEventType {
    TimerStarted,
    TimerUpdated,
    TimerCancelled,
    TimerFinished,
}

} // verus!
