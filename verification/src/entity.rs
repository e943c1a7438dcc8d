//! What every entity of a device has in common.

use crate::proto;
use vstd::prelude::*;
use vstd::std_specs::convert::FromSpecImpl;

verus! {

/// The part that an entity plays on its device.
#[derive(Debug, Clone, Copy, PartialEq, Eq)]
pub enum EntityCategory {
    Unspecified,
    Config,
    Diagnostic,
}

impl From<proto::EntityCategory> for EntityCategory {
    /// A category that this version does not know is left unspecified.
    fn from(value: proto::EntityCategory) -> (category: EntityCategory) {
        match value {
            proto::EntityCategory::Unspecified => EntityCategory::Unspecified,
            proto::EntityCategory::Config => EntityCategory::Config,
            proto::EntityCategory::Diagnostic => EntityCategory::Diagnostic,
            proto::EntityCategory::Unrecognized(_) => EntityCategory::Unspecified,
        }
    }
}

impl FromSpecImpl<proto::EntityCategory> for EntityCategory {
    open spec fn obeys_from_spec() -> bool {
        true
    }

    open spec fn from_spec(value: proto::EntityCategory) -> EntityCategory {
        match value {
            proto::EntityCategory::Config => EntityCategory::Config,
            proto::EntityCategory::Diagnostic => EntityCategory::Diagnostic,
            _ => EntityCategory::Unspecified,
        }
    }
}

/// What a device says of each of its entities.
pub struct EntityInfo {
    pub object_id: String,
    pub key: u32,
    pub name: String,
    pub unique_id: String,
    pub disabled_by_default: bool,
    pub icon: String,
    pub enitity_category: EntityCategory,
}

/// What every state report carries: the key of the entity it is about.
pub struct EntityState {
    pub key: u8,
}

} // verus!
