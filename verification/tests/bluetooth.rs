use esphome_model::bluetooth::{
    convert_service_uuids, decode_manufacturer_data, decode_payload, decode_service_data,
    expand_legacy_data, is_legacy_encoded, BluetoothLEAdvertisement, DecodeError,
};
use esphome_model::proto::{BluetoothLEAdvertisementResponse, BluetoothServiceData};

fn modern(uuid: &str, data: &[u8]) -> BluetoothServiceData {
    BluetoothServiceData { uuid: String::from(uuid), legacy_data: Vec::new(), data: data.to_vec() }
}

fn legacy(uuid: &str, legacy_data: &[u16]) -> BluetoothServiceData {
    BluetoothServiceData {
        uuid: String::from(uuid),
        legacy_data: legacy_data.to_vec(),
        data: Vec::new(),
    }
}

fn message(
    service_uuids: Vec<String>,
    service_data: Vec<BluetoothServiceData>,
    manufacturer_data: Vec<BluetoothServiceData>,
) -> BluetoothLEAdvertisementResponse {
    BluetoothLEAdvertisementResponse {
        address: 0x1122_3344_5566,
        name: String::from("Heart Rate"),
        rssi: -67,
        service_uuids,
        service_data,
        manufacturer_data,
        address_type: 1,
    }
}

#[test]
fn manufacturer_data_in_the_modern_encoding() {
    let (advertisement, errors) =
        BluetoothLEAdvertisement::from_pb(message(Vec::new(), Vec::new(), vec![modern("76", &[1, 2, 3])]));
    assert!(errors.is_empty());
    assert_eq!(advertisement.manufacturer_data.len(), 1);
    assert_eq!(advertisement.manufacturer_data.get(&76), Some(&vec![1u8, 2, 3]));
}

#[test]
fn manufacturer_data_in_the_legacy_encoding() {
    let (advertisement, errors) = BluetoothLEAdvertisement::from_pb(message(
        Vec::new(),
        Vec::new(),
        vec![legacy("76", &[0x0102])],
    ));
    assert!(errors.is_empty());
    assert_eq!(advertisement.manufacturer_data.len(), 1);
    assert_eq!(advertisement.manufacturer_data.get(&76), Some(&vec![0x02u8, 0x01]));
}

#[test]
fn plain_fields_are_handed_on() {
    let (advertisement, errors) = BluetoothLEAdvertisement::from_pb(message(Vec::new(), Vec::new(), Vec::new()));
    assert!(errors.is_empty());
    assert_eq!(advertisement.address, 0x1122_3344_5566);
    assert_eq!(advertisement.rssi, -67);
    assert_eq!(advertisement.address_type, 1);
    assert_eq!(advertisement.name, "Heart Rate");
    assert!(advertisement.service_uuids.is_empty());
    assert_eq!(advertisement.service_data.len(), 0);
    assert!(advertisement.manufacturer_data.is_empty());
}

#[test]
fn legacy_numbers_expand_to_two_bytes_each() {
    assert_eq!(expand_legacy_data(&Vec::new()), Vec::<u8>::new());
    assert_eq!(expand_legacy_data(&vec![0x0102]), vec![0x02, 0x01]);
    assert_eq!(
        expand_legacy_data(&vec![0, 1, 0x00ff, 0x0100, 0xabcd, 0xffff]),
        vec![0, 0, 1, 0, 0xff, 0, 0, 1, 0xcd, 0xab, 0xff, 0xff]
    );
    for word in [0u16, 1, 255, 256, 0x1234, 0x8000, 0xfffe, 0xffff] {
        assert_eq!(expand_legacy_data(&vec![word]), word.to_le_bytes().to_vec());
    }
}

#[test]
fn the_first_entry_decides_the_encoding() {
    assert!(!is_legacy_encoded(&Vec::new()));
    assert!(!is_legacy_encoded(&vec![modern("1", &[9])]));
    assert!(is_legacy_encoded(&vec![legacy("1", &[9])]));
    assert!(is_legacy_encoded(&vec![legacy("1", &[]), modern("2", &[9])]));
    assert!(!is_legacy_encoded(&vec![modern("2", &[9]), legacy("1", &[7])]));
    let both = BluetoothServiceData {
        uuid: String::from("5"),
        legacy_data: vec![0x0a0b],
        data: vec![0xcc],
    };
    assert!(!is_legacy_encoded(&vec![both]));
}

#[test]
fn payload_follows_the_encoding_of_the_list() {
    let both = BluetoothServiceData {
        uuid: String::from("5"),
        legacy_data: vec![0x0a0b],
        data: vec![0xcc],
    };
    assert_eq!(decode_payload(&both, false), vec![0xcc]);
    assert_eq!(decode_payload(&both, true), vec![0x0b, 0x0a]);
}

#[test]
fn a_modern_first_entry_makes_later_entries_modern_too() {
    let later = BluetoothServiceData {
        uuid: String::from("9"),
        legacy_data: vec![0x0102],
        data: Vec::new(),
    };
    let (map, errors) = decode_manufacturer_data(&vec![modern("8", &[7]), later]);
    assert!(errors.is_empty());
    assert_eq!(map.get(&8), Some(&vec![7u8]));
    assert_eq!(map.get(&9), Some(&Vec::<u8>::new()));
}

#[test]
fn a_legacy_first_entry_makes_later_entries_legacy_too() {
    let later = BluetoothServiceData {
        uuid: String::from("9"),
        legacy_data: vec![0x0102],
        data: vec![0xee],
    };
    let (map, errors) = decode_manufacturer_data(&vec![legacy("8", &[0x0304]), later]);
    assert!(errors.is_empty());
    assert_eq!(map.get(&8), Some(&vec![0x04u8, 0x03]));
    assert_eq!(map.get(&9), Some(&vec![0x02u8, 0x01]));
}

#[test]
fn later_manufacturer_entry_overwrites_an_earlier_one() {
    let (map, errors) = decode_manufacturer_data(&vec![
        modern("76", &[1]),
        modern("6", &[2]),
        modern("076", &[3, 3]),
        modern("+6", &[4]),
        modern("76", &[5, 5, 5]),
    ]);
    assert!(errors.is_empty());
    assert_eq!(map.len(), 2);
    assert_eq!(map.get(&76), Some(&vec![5u8, 5, 5]));
    assert_eq!(map.get(&6), Some(&vec![4u8]));
}

#[test]
fn malformed_company_identifier_is_reported_and_the_rest_decoded() {
    let (map, errors) = decode_manufacturer_data(&vec![
        modern("fe95", &[1]),
        modern("76", &[2]),
        modern("", &[3]),
        modern("65536", &[4]),
        modern("65535", &[5]),
    ]);
    assert_eq!(
        errors,
        vec![
            DecodeError::InvalidCompanyId { index: 0 },
            DecodeError::InvalidCompanyId { index: 2 },
            DecodeError::InvalidCompanyId { index: 3 },
        ]
    );
    assert_eq!(map.len(), 2);
    assert_eq!(map.get(&76), Some(&vec![2u8]));
    assert_eq!(map.get(&65535), Some(&vec![5u8]));
}

#[test]
fn malformed_first_entry_still_decides_the_encoding() {
    let (map, errors) = decode_manufacturer_data(&vec![legacy("x", &[1]), legacy("2", &[0x0506])]);
    assert_eq!(errors, vec![DecodeError::InvalidCompanyId { index: 0 }]);
    assert_eq!(map.len(), 1);
    assert_eq!(map.get(&2), Some(&vec![0x06u8, 0x05]));
}

#[test]
fn from_pb_reports_malformed_company_identifiers() {
    let (advertisement, errors) = BluetoothLEAdvertisement::from_pb(message(
        vec![String::from("180D")],
        vec![modern("180A", &[1])],
        vec![modern("apple", &[9]), modern("76", &[2, 21])],
    ));
    assert_eq!(errors, vec![DecodeError::InvalidCompanyId { index: 0 }]);
    assert_eq!(advertisement.manufacturer_data.len(), 1);
    assert_eq!(advertisement.manufacturer_data.get(&76), Some(&vec![2u8, 21]));
    assert_eq!(advertisement.service_uuids, vec![String::from("00000d-0000-1000-8000-00805f9b34fb")]);
    assert_eq!(advertisement.service_data.len(), 1);
}

#[test]
fn service_data_is_keyed_by_canonical_uuid() {
    let map = decode_service_data(&vec![
        modern("0000FE95-0000-1000-8000-00805F9B34FB", &[1, 2]),
        modern("180A", &[3]),
    ]);
    assert_eq!(map.len(), 2);
    assert_eq!(map.get("0000fe95-0000-1000-8000-00805f9b34fb"), Some(&vec![1u8, 2]));
    assert_eq!(map.get("00000a-0000-1000-8000-00805f9b34fb"), Some(&vec![3u8]));
    assert_eq!(map.get("0000FE95-0000-1000-8000-00805F9B34FB"), None);
    assert_eq!(map.get("180A"), None);
    assert!(map.contains_key("00000a-0000-1000-8000-00805f9b34fb"));
}

#[test]
fn service_data_in_the_legacy_encoding() {
    let map = decode_service_data(&vec![
        legacy("0000fe95-0000-1000-8000-00805f9b34fb", &[0x3020, 0x0198]),
        legacy("0000181a-0000-1000-8000-00805f9b34fb", &[]),
    ]);
    assert_eq!(map.len(), 2);
    assert_eq!(
        map.get("0000fe95-0000-1000-8000-00805f9b34fb"),
        Some(&vec![0x20u8, 0x30, 0x98, 0x01])
    );
    assert_eq!(map.get("0000181a-0000-1000-8000-00805f9b34fb"), Some(&Vec::<u8>::new()));
}

#[test]
fn later_service_entry_overwrites_an_earlier_one() {
    let map = decode_service_data(&vec![
        modern("0000FE95-0000-1000-8000-00805f9b34fb", &[1]),
        modern("0000181a-0000-1000-8000-00805f9b34fb", &[2]),
        modern("0000fe95-0000-1000-8000-00805F9B34FB", &[3]),
    ]);
    assert_eq!(map.len(), 2);
    assert_eq!(map.get("0000fe95-0000-1000-8000-00805f9b34fb"), Some(&vec![3u8]));
    assert_eq!(map.get("0000181a-0000-1000-8000-00805f9b34fb"), Some(&vec![2u8]));
}

#[test]
fn empty_lists_give_empty_maps() {
    let (map, errors) = decode_manufacturer_data(&Vec::new());
    assert!(map.is_empty());
    assert!(errors.is_empty());
    assert_eq!(decode_service_data(&Vec::new()).len(), 0);
    assert!(convert_service_uuids(&Vec::new()).is_empty());
}

#[test]
fn service_uuids_keep_their_order_and_their_duplicates() {
    let uuids = vec![
        String::from("0000180D-0000-1000-8000-00805F9B34FB"),
        String::from("FE95"),
        String::from("0000180d-0000-1000-8000-00805f9b34fb"),
        String::from("fe95"),
        String::from("6E400001-B5A3-F393-E0A9-E50E24DCCA9E"),
    ];
    let expected = vec![
        String::from("0000180d-0000-1000-8000-00805f9b34fb"),
        String::from("000095-0000-1000-8000-00805f9b34fb"),
        String::from("0000180d-0000-1000-8000-00805f9b34fb"),
        String::from("000095-0000-1000-8000-00805f9b34fb"),
        String::from("6e400001-b5a3-f393-e0a9-e50e24dcca9e"),
    ];
    assert_eq!(convert_service_uuids(&uuids), expected);
    let (advertisement, _) = BluetoothLEAdvertisement::from_pb(message(uuids, Vec::new(), Vec::new()));
    assert_eq!(advertisement.service_uuids, expected);
}

#[test]
fn the_two_lists_are_decoded_independently() {
    let (advertisement, errors) = BluetoothLEAdvertisement::from_pb(message(
        Vec::new(),
        vec![legacy("0000fe95-0000-1000-8000-00805f9b34fb", &[0x0201])],
        vec![modern("76", &[0x10, 0x05])],
    ));
    assert!(errors.is_empty());
    assert_eq!(
        advertisement.service_data.get("0000fe95-0000-1000-8000-00805f9b34fb"),
        Some(&vec![0x01u8, 0x02])
    );
    assert_eq!(advertisement.manufacturer_data.get(&76), Some(&vec![0x10u8, 0x05]));
}

#[test]
fn decoding_twice_gives_one_answer() {
    let build = || {
        message(
            vec![String::from("180D")],
            vec![modern("180A", &[1]), modern("180a", &[2])],
            vec![modern("76", &[3]), modern("x", &[4])],
        )
    };
    let (first, first_errors) = BluetoothLEAdvertisement::from_pb(build());
    let (second, second_errors) = BluetoothLEAdvertisement::from_pb(build());
    assert_eq!(first.manufacturer_data, second.manufacturer_data);
    assert_eq!(first.service_uuids, second.service_uuids);
    assert_eq!(first_errors, second_errors);
    assert_eq!(
        first.service_data.get("00000a-0000-1000-8000-00805f9b34fb"),
        second.service_data.get("00000a-0000-1000-8000-00805f9b34fb")
    );
    assert_eq!(first.service_data.len(), second.service_data.len());
}
