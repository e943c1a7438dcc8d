use esphome_model::controls::{NumberMode, TextMode};
use esphome_model::entity::EntityCategory;
use esphome_model::proto;
use esphome_model::sensor::{LastResetType, SensorStateClass};

#[test]
fn entity_category_from_the_wire() {
    assert_eq!(
        EntityCategory::from(proto::EntityCategory::Unspecified),
        EntityCategory::Unspecified
    );
    assert_eq!(EntityCategory::from(proto::EntityCategory::Config), EntityCategory::Config);
    assert_eq!(EntityCategory::from(proto::EntityCategory::Diagnostic), EntityCategory::Diagnostic);
    assert_eq!(
        EntityCategory::from(proto::EntityCategory::Unrecognized(3)),
        EntityCategory::Unspecified
    );
    let category: EntityCategory = proto::EntityCategory::Diagnostic.into();
    assert_eq!(category, EntityCategory::Diagnostic);
}

#[test]
fn sensor_state_class_from_the_wire() {
    assert_eq!(
        SensorStateClass::from(proto::SensorStateClass::Unspecified),
        SensorStateClass::Unspecified
    );
    assert_eq!(
        SensorStateClass::from(proto::SensorStateClass::Measurement),
        SensorStateClass::Measurement
    );
    assert_eq!(
        SensorStateClass::from(proto::SensorStateClass::TotalIncreasing),
        SensorStateClass::TotalIncreasing
    );
    assert_eq!(SensorStateClass::from(proto::SensorStateClass::Total), SensorStateClass::Total);
    assert_eq!(
        SensorStateClass::from(proto::SensorStateClass::Unrecognized(4)),
        SensorStateClass::Unspecified
    );
}

#[test]
fn last_reset_type_from_the_wire() {
    assert_eq!(
        LastResetType::from(proto::SensorLastResetType::Unspecified),
        LastResetType::Unspecified
    );
    assert_eq!(LastResetType::from(proto::SensorLastResetType::Never), LastResetType::Never);
    assert_eq!(LastResetType::from(proto::SensorLastResetType::Auto), LastResetType::Auto);
    assert_eq!(
        LastResetType::from(proto::SensorLastResetType::Unrecognized(-5)),
        LastResetType::Unspecified
    );
}

#[test]
fn number_mode_from_the_wire() {
    assert_eq!(NumberMode::from(proto::NumberMode::Auto), NumberMode::Auto);
    assert_eq!(NumberMode::from(proto::NumberMode::Box), NumberMode::Box);
    assert_eq!(NumberMode::from(proto::NumberMode::Slider), NumberMode::Slider);
    assert_eq!(NumberMode::from(proto::NumberMode::Unrecognized(3)), NumberMode::Unknown);
}

#[test]
fn text_mode_from_the_wire() {
    assert_eq!(TextMode::from(proto::TextMode::Text), TextMode::Text);
    assert_eq!(TextMode::from(proto::TextMode::Password), TextMode::Password);
    assert_eq!(TextMode::from(proto::TextMode::Unrecognized(2)), TextMode::Unknown);
}
