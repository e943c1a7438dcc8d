use esphome_model::company_id::parse_company_id;

#[test]
fn plain_numbers() {
    assert_eq!(parse_company_id("76"), Some(76));
    assert_eq!(parse_company_id("0"), Some(0));
    assert_eq!(parse_company_id("9"), Some(9));
    assert_eq!(parse_company_id("1177"), Some(1177));
    assert_eq!(parse_company_id("65535"), Some(65535));
}

#[test]
fn leading_zeros_and_plus_sign() {
    assert_eq!(parse_company_id("076"), Some(76));
    assert_eq!(parse_company_id("0000000000000000000076"), Some(76));
    assert_eq!(parse_company_id("+76"), Some(76));
    assert_eq!(parse_company_id("+0"), Some(0));
    assert_eq!(parse_company_id("+065535"), Some(65535));
}

#[test]
fn numbers_beyond_sixteen_bits() {
    assert_eq!(parse_company_id("65536"), None);
    assert_eq!(parse_company_id("65540"), None);
    assert_eq!(parse_company_id("70000"), None);
    assert_eq!(parse_company_id("655350"), None);
    assert_eq!(parse_company_id("4294967296"), None);
    assert_eq!(parse_company_id("99999999999999999999999999999999"), None);
    assert_eq!(parse_company_id("+65536"), None);
}

#[test]
fn text_that_is_no_number() {
    for text in [
        "", "+", "-", "-1", "-0", "++1", "+-1", "1+", "7six", "0x4c", "4c", "fe95", " 76", "76 ",
        "7 6", "7_6", "7.6", "1e3", "７６", "٧٦", "76\n", "\t76", "0000fe95-0000-1000",
    ] {
        assert_eq!(parse_company_id(text), None);
    }
}

#[test]
fn agrees_with_the_standard_parser() {
    let mut samples: Vec<String> = Vec::new();
    for n in 0..=70000u32 {
        if n < 300 || n % 977 == 0 || n > 65500 {
            samples.push(n.to_string());
            samples.push(format!("+{}", n));
            samples.push(format!("00{}", n));
            samples.push(format!("{}x", n));
            samples.push(format!("-{}", n));
            samples.push(format!(" {}", n));
        }
    }
    for text in ["", "+", "-", "+-", "a", "٣", "１", "+１", "1_0", "18446744073709551616"] {
        samples.push(String::from(text));
    }
    for text in samples.iter() {
        assert_eq!(parse_company_id(text), text.parse::<u16>().ok());
    }
}
