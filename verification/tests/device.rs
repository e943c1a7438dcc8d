use esphome_model::bluetooth_proxy::BluetoothProxyFeature;
use esphome_model::device::DeviceInfo;
use esphome_model::flags::FlagSet;
use esphome_model::version::APIVersion;
use esphome_model::voice_assistant::VoiceAssistantFeature;

#[test]
fn new_device_info_is_blank() {
    let info = DeviceInfo::new();
    assert!(!info.uses_password);
    assert_eq!(info.name, "");
    assert_eq!(info.friendly_name, "");
    assert_eq!(info.mac_address, "");
    assert_eq!(info.compilation_time, "");
    assert_eq!(info.model, "");
    assert_eq!(info.manufacturer, "");
    assert!(!info.has_deep_sleep);
    assert_eq!(info.esphome_version, "");
    assert_eq!(info.project_name, "");
    assert_eq!(info.project_version, "");
    assert_eq!(info.webserver_port, 0);
    assert_eq!(info.legacy_voice_assistant_version, 0);
    assert_eq!(info.voice_assistant_feature_flags, 0);
    assert_eq!(info.legacy_bluetooth_proxy_version, 0);
    assert_eq!(info.bluetooth_proxy_feature_flags, 0);
    assert_eq!(info.suggested_area, "");
}

#[test]
fn legacy_bluetooth_proxy_versions_accumulate_features() {
    let expected = [0u8, 0b1, 0b11, 0b111, 0b1111, 0b1_1111, 0b1_1111, 0b1_1111];
    for (version, bits) in expected.iter().enumerate() {
        let mut info = DeviceInfo::new();
        info.legacy_bluetooth_proxy_version = version as u8;
        info.bluetooth_proxy_feature_flags = 0b10_0000;
        assert_eq!(info.bluetooth_proxy_feature_flags_compat(APIVersion::new(1, 8)), *bits);
    }
    let mut info = DeviceInfo::new();
    info.legacy_bluetooth_proxy_version = 255;
    assert_eq!(info.bluetooth_proxy_feature_flags_compat(APIVersion::new(1, 0)), 0b1_1111);
}

#[test]
fn legacy_bluetooth_proxy_features_by_name() {
    let features = BluetoothProxyFeature::from_legacy_version(3);
    assert!(features.contains(BluetoothProxyFeature::PassiveScan));
    assert!(features.contains(BluetoothProxyFeature::ActiveConnections));
    assert!(features.contains(BluetoothProxyFeature::RemoteCaching));
    assert!(!features.contains(BluetoothProxyFeature::Pairing));
    assert!(!features.contains(BluetoothProxyFeature::CacheClearing));
    assert!(!features.contains(BluetoothProxyFeature::RawAdvertisements));
    assert!(!BluetoothProxyFeature::from_legacy_version(255)
        .contains(BluetoothProxyFeature::RawAdvertisements));
}

#[test]
fn each_legacy_proxy_version_adds_to_the_one_before() {
    for version in 0..5u8 {
        let lower = BluetoothProxyFeature::from_legacy_version(version).bits();
        let upper = BluetoothProxyFeature::from_legacy_version(version + 1).bits();
        assert_eq!(lower & upper, lower);
        assert_ne!(lower, upper);
        assert_eq!((upper & !lower).count_ones(), 1);
    }
    assert_eq!(
        BluetoothProxyFeature::from_legacy_version(5).bits(),
        BluetoothProxyFeature::from_legacy_version(6).bits()
    );
}

#[test]
fn bluetooth_proxy_flags_switch_at_version_1_9() {
    let mut info = DeviceInfo::new();
    info.legacy_bluetooth_proxy_version = 2;
    info.bluetooth_proxy_feature_flags = 0b10_1010;
    for version in [APIVersion::new(0, 0), APIVersion::new(0, 255), APIVersion::new(1, 0), APIVersion::new(1, 8)] {
        assert_eq!(info.bluetooth_proxy_feature_flags_compat(version), 0b11);
    }
    for version in [
        APIVersion::new(1, 9),
        APIVersion::new(1, 10),
        APIVersion::new(2, 0),
        APIVersion::new(255, 255),
    ] {
        assert_eq!(info.bluetooth_proxy_feature_flags_compat(version), 0b10_1010);
    }
}

#[test]
fn modern_bluetooth_proxy_flags_come_back_unchanged() {
    for bits in 0..=255u8 {
        let mut info = DeviceInfo::new();
        info.legacy_bluetooth_proxy_version = 5;
        info.bluetooth_proxy_feature_flags = bits;
        assert_eq!(info.bluetooth_proxy_feature_flags_compat(APIVersion::new(1, 9)), bits);
    }
}

#[test]
fn legacy_bluetooth_proxy_flags_ignore_the_modern_field() {
    for bits in [0u8, 1, 0b11_1111, 255] {
        let mut info = DeviceInfo::new();
        info.legacy_bluetooth_proxy_version = 4;
        info.bluetooth_proxy_feature_flags = bits;
        info.name = format!("device {}", bits);
        assert_eq!(info.bluetooth_proxy_feature_flags_compat(APIVersion::new(1, 7)), 0b1111);
    }
}

#[test]
fn legacy_voice_assistant_versions_accumulate_features() {
    let expected = [0u8, 0b1, 0b11, 0b11, 0b11];
    for (version, bits) in expected.iter().enumerate() {
        let mut info = DeviceInfo::new();
        info.legacy_voice_assistant_version = version as u8;
        info.voice_assistant_feature_flags = 0b1_1100;
        assert_eq!(info.voice_assistant_feature_flags_compat(APIVersion::new(1, 9)), *bits);
    }
}

#[test]
fn legacy_voice_assistant_features_by_name() {
    let features = VoiceAssistantFeature::from_legacy_version(1);
    assert!(features.contains(VoiceAssistantFeature::VoiceAssistant));
    assert!(!features.contains(VoiceAssistantFeature::Speaker));
    let features = VoiceAssistantFeature::from_legacy_version(2);
    assert!(features.contains(VoiceAssistantFeature::VoiceAssistant));
    assert!(features.contains(VoiceAssistantFeature::Speaker));
    assert!(!features.contains(VoiceAssistantFeature::APIAudio));
    assert!(!features.contains(VoiceAssistantFeature::Timers));
    assert!(!features.contains(VoiceAssistantFeature::Announce));
}

#[test]
fn voice_assistant_flags_switch_at_version_1_10() {
    let mut info = DeviceInfo::new();
    info.legacy_voice_assistant_version = 1;
    info.voice_assistant_feature_flags = 0b1_0110;
    for version in [APIVersion::new(0, 11), APIVersion::new(1, 0), APIVersion::new(1, 9)] {
        assert_eq!(info.voice_assistant_feature_flags_compat(version), 0b1);
    }
    for version in [APIVersion::new(1, 10), APIVersion::new(1, 11), APIVersion::new(2, 0)] {
        assert_eq!(info.voice_assistant_feature_flags_compat(version), 0b1_0110);
    }
}

#[test]
fn the_two_thresholds_are_independent() {
    let mut info = DeviceInfo::new();
    info.legacy_bluetooth_proxy_version = 1;
    info.bluetooth_proxy_feature_flags = 0b10_0000;
    info.legacy_voice_assistant_version = 2;
    info.voice_assistant_feature_flags = 0b1_0000;
    let between = APIVersion::new(1, 9);
    assert_eq!(info.bluetooth_proxy_feature_flags_compat(between), 0b10_0000);
    assert_eq!(info.voice_assistant_feature_flags_compat(between), 0b11);
}

#[test]
fn reading_the_flags_twice_gives_one_answer() {
    let mut info = DeviceInfo::new();
    info.legacy_bluetooth_proxy_version = 3;
    info.legacy_voice_assistant_version = 1;
    let version = APIVersion::new(1, 4);
    assert_eq!(
        info.bluetooth_proxy_feature_flags_compat(version),
        info.bluetooth_proxy_feature_flags_compat(version)
    );
    assert_eq!(
        info.voice_assistant_feature_flags_compat(version),
        info.voice_assistant_feature_flags_compat(version)
    );
    let read_back = FlagSet::<BluetoothProxyFeature>::from_bits(
        info.bluetooth_proxy_feature_flags_compat(version),
    );
    assert!(read_back.contains(BluetoothProxyFeature::RemoteCaching));
}
