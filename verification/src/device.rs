//! What a device says of itself, and what that means for each version of
//! the protocol.

use crate::bluetooth_proxy::BluetoothProxyFeature;
use crate::version::APIVersion;
use crate::voice_assistant::VoiceAssistantFeature;
use vstd::prelude::*;

verus! {

/// What a device says of itself.
pub struct DeviceInfo {
    pub uses_password: bool,
    pub name: String,
    pub friendly_name: String,
    pub mac_address: String,
    pub compilation_time: String,
    pub model: String,
    pub manufacturer: String,
    pub has_deep_sleep: bool,
    pub esphome_version: String,
    pub project_name: String,
    pub project_version: String,
    pub webserver_port: u16,
    /// The version of the voice assistant, from which older clients tell
    /// what it can do.
    pub legacy_voice_assistant_version: u8,
    /// What the voice assistant can do, one bit for each
    /// [`VoiceAssistantFeature`].
    pub voice_assistant_feature_flags: u8,
    /// The version of the Bluetooth proxy, from which older clients tell
    /// what it can do.
    pub legacy_bluetooth_proxy_version: u8,
    /// What the Bluetooth proxy can do, one bit for each
    /// [`BluetoothProxyFeature`].
    pub bluetooth_proxy_feature_flags: u8,
    pub suggested_area: String,
}

impl DeviceInfo {
    /// The first version in which a device lists the features of its
    /// Bluetooth proxy one by one.
    pub open spec fn bluetooth_proxy_flags_since() -> APIVersion {
        APIVersion { major: 1, minor: 9 }
    }

    /// The first version in which a device lists the features of its voice
    /// assistant one by one.
    pub open spec fn voice_assistant_flags_since() -> APIVersion {
        APIVersion { major: 1, minor: 10 }
    }

    /// The features of the Bluetooth proxy, as a byte: before the features
    /// were listed, what the version of the proxy stands for; since then, the
    /// list as it was sent.
    pub open spec fn spec_bluetooth_proxy_feature_flags_compat(
        &self,
        api_version: APIVersion,
    ) -> u8 {
        if api_version.spec_lt(Self::bluetooth_proxy_flags_since()) {
            BluetoothProxyFeature::spec_legacy_bits(self.legacy_bluetooth_proxy_version)
        } else {
            self.bluetooth_proxy_feature_flags
        }
    }

    /// The features of the voice assistant, as a byte: before the features
    /// were listed, what the version of the assistant stands for; since then,
    /// the list as it was sent.
    pub open spec fn spec_voice_assistant_feature_flags_compat(
        &self,
        api_version: APIVersion,
    ) -> u8 {
        if api_version.spec_lt(Self::voice_assistant_flags_since()) {
            VoiceAssistantFeature::spec_legacy_bits(self.legacy_voice_assistant_version)
        } else {
            self.voice_assistant_feature_flags
        }
    }

    /// The description of a device of which nothing is known yet.
    pub fn new() -> (info: DeviceInfo)
        ensures
            !info.uses_password,
            info.name@.len() == 0,
            info.friendly_name@.len() == 0,
            info.mac_address@.len() == 0,
            info.compilation_time@.len() == 0,
            info.model@.len() == 0,
            info.manufacturer@.len() == 0,
            !info.has_deep_sleep,
            info.esphome_version@.len() == 0,
            info.project_name@.len() == 0,
            info.project_version@.len() == 0,
            info.webserver_port == 0,
            info.legacy_voice_assistant_version == 0,
            info.voice_assistant_feature_flags == 0,
            info.legacy_bluetooth_proxy_version == 0,
            info.bluetooth_proxy_feature_flags == 0,
            info.suggested_area@.len() == 0,
    {
        DeviceInfo {
            uses_password: false,
            name: String::new(),
            friendly_name: String::new(),
            mac_address: String::new(),
            compilation_time: String::new(),
            model: String::new(),
            manufacturer: String::new(),
            has_deep_sleep: false,
            esphome_version: String::new(),
            project_name: String::new(),
            project_version: String::new(),
            webserver_port: 0,
            legacy_voice_assistant_version: 0,
            voice_assistant_feature_flags: 0,
            legacy_bluetooth_proxy_version: 0,
            bluetooth_proxy_feature_flags: 0,
            suggested_area: String::new(),
        }
    }

    /// The features of the Bluetooth proxy of the device, as a client of the
    /// given version is to read them.
    pub fn bluetooth_proxy_feature_flags_compat(&self, api_version: APIVersion) -> (flags: u8)
        ensures
            flags == self.spec_bluetooth_proxy_feature_flags_compat(api_version),
    {
        if api_version < APIVersion::new(1, 9) {
            BluetoothProxyFeature::from_legacy_version(self.legacy_bluetooth_proxy_version).bits()
        } else {
            self.bluetooth_proxy_feature_flags
        }
    }

    /// The features of the voice assistant of the device, as a client of the
    /// given version is to read them.
    pub fn voice_assistant_feature_flags_compat(&self, api_version: APIVersion) -> (flags: u8)
        ensures
            flags == self.spec_voice_assistant_feature_flags_compat(api_version),
    {
        if api_version < APIVersion::new(1, 10) {
            VoiceAssistantFeature::from_legacy_version(self.legacy_voice_assistant_version).bits()
        } else {
            self.voice_assistant_feature_flags
        }
    }
}

/// Before devices listed the features of their Bluetooth proxy, nothing but
/// the version of the proxy bears on them: two devices of one proxy version
/// read alike, whatever else they sent and whichever of the earlier versions
/// of the protocol they speak.
pub proof fn lemma_bluetooth_proxy_flags_before(
    one: DeviceInfo,
    one_version: APIVersion,
    other: DeviceInfo,
    other_version: APIVersion,
)
    requires
        one_version.spec_lt(DeviceInfo::bluetooth_proxy_flags_since()),
        other_version.spec_lt(DeviceInfo::bluetooth_proxy_flags_since()),
        one.legacy_bluetooth_proxy_version == other.legacy_bluetooth_proxy_version,
    ensures
        one.spec_bluetooth_proxy_feature_flags_compat(one_version)
            == other.spec_bluetooth_proxy_feature_flags_compat(other_version),
{
}

/// Since devices list the features of their Bluetooth proxy, the list is
/// handed on as it was sent.
pub proof fn lemma_bluetooth_proxy_flags_since(info: DeviceInfo, api_version: APIVersion)
    requires
        !api_version.spec_lt(DeviceInfo::bluetooth_proxy_flags_since()),
    ensures
        info.spec_bluetooth_proxy_feature_flags_compat(api_version)
            == info.bluetooth_proxy_feature_flags,
{
}

/// Before devices listed the features of their voice assistant, nothing but
/// the version of the assistant bears on them.
pub proof fn lemma_voice_assistant_flags_before(
    one: DeviceInfo,
    one_version: APIVersion,
    other: DeviceInfo,
    other_version: APIVersion,
)
    requires
        one_version.spec_lt(DeviceInfo::voice_assistant_flags_since()),
        other_version.spec_lt(DeviceInfo::voice_assistant_flags_since()),
        one.legacy_voice_assistant_version == other.legacy_voice_assistant_version,
    ensures
        one.spec_voice_assistant_feature_flags_compat(one_version)
            == other.spec_voice_assistant_feature_flags_compat(other_version),
{
}

/// Since devices list the features of their voice assistant, the list is
/// handed on as it was sent.
pub proof fn lemma_voice_assistant_flags_since(info: DeviceInfo, api_version: APIVersion)
    requires
        !api_version.spec_lt(DeviceInfo::voice_assistant_flags_since()),
    ensures
        info.spec_voice_assistant_feature_flags_compat(api_version)
            == info.voice_assistant_feature_flags,
{
}

/// Reading the features of the Bluetooth proxy twice gives one answer: what
/// the function may return is fixed by the device and the version.
pub proof fn lemma_bluetooth_proxy_flags_repeatable(
    info: &DeviceInfo,
    api_version: APIVersion,
    first: u8,
    second: u8,
)
    requires
        call_ensures(DeviceInfo::bluetooth_proxy_feature_flags_compat, (info, api_version), first),
        call_ensures(DeviceInfo::bluetooth_proxy_feature_flags_compat, (info, api_version), second),
    ensures
        first == second,
{
}

/// Reading the features of the voice assistant twice gives one answer.
pub proof fn lemma_voice_assistant_flags_repeatable(
    info: &DeviceInfo,
    api_version: APIVersion,
    first: u8,
    second: u8,
)
    requires
        call_ensures(DeviceInfo::voice_assistant_feature_flags_compat, (info, api_version), first),
        call_ensures(
            DeviceInfo::voice_assistant_feature_flags_compat,
            (info, api_version),
            second,
        ),
    ensures
        first == second,
{
}

} // verus!
