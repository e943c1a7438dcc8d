use esphome_model::uuid::{expand_short_uuid, uuid_convert, SHORT_ALIAS_LIMIT};

#[test]
fn four_character_alias_gives_its_last_two_characters_to_the_base_uuid() {
    assert_eq!(uuid_convert(String::from("180d")), "00000d-0000-1000-8000-00805f9b34fb");
    assert_eq!(uuid_convert(String::from("FE95")), "000095-0000-1000-8000-00805f9b34fb");
    assert_eq!(uuid_convert(String::from("abCD")), "0000cd-0000-1000-8000-00805f9b34fb");
}

#[test]
fn full_uuid_is_only_lowercased() {
    assert_eq!(
        uuid_convert(String::from("0000180D-0000-1000-8000-00805F9B34FB")),
        "0000180d-0000-1000-8000-00805f9b34fb"
    );
    assert_eq!(
        uuid_convert(String::from("6E400001-B5A3-F393-E0A9-E50E24DCCA9E")),
        "6e400001-b5a3-f393-e0a9-e50e24dcca9e"
    );
    assert_eq!(
        uuid_convert(String::from("0000fe95-0000-1000-8000-00805f9b34fb")),
        "0000fe95-0000-1000-8000-00805f9b34fb"
    );
    let converted = uuid_convert(String::from("0000180D-0000-1000-8000-00805F9B34FB"));
    assert_eq!(converted.len(), 36);
}

#[test]
fn alias_takes_the_characters_at_offsets_two_and_three() {
    assert_eq!(uuid_convert(String::from("0x180d")), "000018-0000-1000-8000-00805f9b34fb");
    assert_eq!(uuid_convert(String::from("12345")), "000034-0000-1000-8000-00805f9b34fb");
    assert_eq!(uuid_convert(String::from("1234567")), "000034-0000-1000-8000-00805f9b34fb");
    assert_eq!(uuid_convert(String::from("ABCDEFG")), "0000cd-0000-1000-8000-00805f9b34fb");
}

#[test]
fn alias_that_is_too_short_gives_what_it_has() {
    assert_eq!(uuid_convert(String::new()), "0000-0000-1000-8000-00805f9b34fb");
    assert_eq!(uuid_convert(String::from("7")), "0000-0000-1000-8000-00805f9b34fb");
    assert_eq!(uuid_convert(String::from("76")), "0000-0000-1000-8000-00805f9b34fb");
    assert_eq!(uuid_convert(String::from("76A")), "0000a-0000-1000-8000-00805f9b34fb");
}

#[test]
fn eight_characters_are_no_alias() {
    assert_eq!(SHORT_ALIAS_LIMIT, 8);
    assert_eq!(uuid_convert(String::from("1234567")).len(), 34);
    assert_eq!(uuid_convert(String::from("12345678")), "12345678");
    assert_eq!(uuid_convert(String::from("ABCDEF12")), "abcdef12");
    assert_eq!(uuid_convert(String::from("123456789")), "123456789");
}

#[test]
fn length_counts_characters() {
    assert_eq!(uuid_convert(String::from("ÄÖÜ4")), "0000ü4-0000-1000-8000-00805f9b34fb");
    assert_eq!(uuid_convert(String::from("ÄÖÜÄÖÜÄ")), "0000üä-0000-1000-8000-00805f9b34fb");
    assert_eq!(uuid_convert(String::from("ÄÖÜÄÖÜÄÖ")), "äöüäöüäö");
}

#[test]
fn expand_short_uuid_leaves_the_case_alone() {
    assert_eq!(expand_short_uuid(String::from("180D")), "00000D-0000-1000-8000-00805f9b34fb");
    assert_eq!(expand_short_uuid(String::from("ABCDEFGH")), "ABCDEFGH");
    assert_eq!(expand_short_uuid(String::from("180d")), "00000d-0000-1000-8000-00805f9b34fb");
}

#[test]
fn converting_twice_gives_one_answer() {
    for uuid in ["180d", "0000180D-0000-1000-8000-00805F9B34FB", "", "xyz"] {
        assert_eq!(uuid_convert(String::from(uuid)), uuid_convert(String::from(uuid)));
    }
    let once = uuid_convert(String::from("0000180D-0000-1000-8000-00805F9B34FB"));
    assert_eq!(uuid_convert(once.clone()), once);
}

#[test]
fn length_is_taken_after_lowercasing() {
    let dotted = String::from("İİİİ");
    assert_eq!(dotted.chars().count(), 4);
    let lower = dotted.to_lowercase();
    assert_eq!(lower.chars().count(), 8);
    assert_eq!(uuid_convert(dotted), lower);
}
