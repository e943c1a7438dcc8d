//! Version-independent model of the entities and capabilities that a device
//! reports over its native API.
//!
//! A device answers in the encoding of the protocol version it negotiated.
//! The functions with a name in `_compat` read such an answer the way a
//! client of that version has to, so that whoever calls them need not know
//! how the protocol came to be what it is.

pub mod bluetooth;
pub mod bluetooth_proxy;
pub mod climate;
pub mod company_id;
pub mod controls;
pub mod cover;
pub mod device;
pub mod entity;
pub mod flags;
pub mod float32;
pub mod light;
pub mod media;
pub mod proto;
pub mod sensor;
pub mod user_service;
pub mod uuid;
pub mod version;
pub mod voice_assistant;
