use esphome_model::version::APIVersion;
use std::cmp::Ordering;

#[test]
fn versions_compare_by_major_then_minor() {
    assert!(APIVersion::new(1, 9) < APIVersion::new(1, 10));
    assert!(APIVersion::new(1, 255) < APIVersion::new(2, 0));
    assert!(APIVersion::new(0, 0) < APIVersion::new(0, 1));
    assert!(!(APIVersion::new(1, 9) < APIVersion::new(1, 9)));
    assert!(!(APIVersion::new(2, 0) < APIVersion::new(1, 255)));
    assert_eq!(APIVersion::new(3, 4), APIVersion::new(3, 4));
    assert_ne!(APIVersion::new(3, 4), APIVersion::new(4, 3));
}

#[test]
fn new_keeps_both_numbers() {
    let version = APIVersion::new(7, 200);
    assert_eq!(version.major, 7);
    assert_eq!(version.minor, 200);
}

#[test]
fn is_before_is_strict() {
    let threshold = APIVersion::new(1, 9);
    assert!(APIVersion::new(1, 8).is_before(&threshold));
    assert!(APIVersion::new(0, 200).is_before(&threshold));
    assert!(!APIVersion::new(1, 9).is_before(&threshold));
    assert!(!APIVersion::new(1, 10).is_before(&threshold));
    assert!(!APIVersion::new(2, 0).is_before(&threshold));
}

#[test]
fn partial_cmp_names_the_relation() {
    let low = APIVersion::new(1, 5);
    let high = APIVersion::new(1, 6);
    assert_eq!(low.partial_cmp(&high), Some(Ordering::Less));
    assert_eq!(high.partial_cmp(&low), Some(Ordering::Greater));
    assert_eq!(low.partial_cmp(&low), Some(Ordering::Equal));
    assert!(low <= low);
    assert!(high >= low);
    assert!(high > low);
}

#[test]
fn order_agrees_with_the_derived_one() {
    let samples = [
        APIVersion::new(0, 0),
        APIVersion::new(0, 255),
        APIVersion::new(1, 0),
        APIVersion::new(1, 1),
        APIVersion::new(1, 9),
        APIVersion::new(1, 10),
        APIVersion::new(2, 3),
        APIVersion::new(255, 255),
    ];
    for a in samples.iter() {
        for b in samples.iter() {
            assert_eq!(a.partial_cmp(b), Some(a.cmp(b)));
            assert_eq!(a.is_before(b), (a.major, a.minor) < (b.major, b.minor));
        }
    }
}

#[test]
fn order_is_strict_and_total_on_a_sample() {
    let mut samples = Vec::new();
    for major in [0u8, 1, 2, 255] {
        for minor in [0u8, 1, 9, 10, 255] {
            samples.push(APIVersion::new(major, minor));
        }
    }
    for a in samples.iter() {
        assert!(!(a < a));
        for b in samples.iter() {
            let relations = [a < b, a == b, b < a];
            assert_eq!(relations.iter().filter(|holds| **holds).count(), 1);
            for c in samples.iter() {
                if a < b && b < c {
                    assert!(a < c);
                }
            }
        }
    }
}
