//! What a device asks of the home automation hub, what a user can ask of a
//! device, and how much a device logs.

use std::collections::HashMap;
use vstd::prelude::*;

verus! {

/// A service of the hub that a device calls, or an event that it fires there.
pub struct HomeassistantServiceCall {
    pub service: String,
    pub is_event: bool,
    pub data: HashMap<String, String>,
    pub data_template: HashMap<String, String>,
    pub variables: HashMap<String, String>,
}

/// The type of an argument of a service.
#[derive(Debug, Clone, Copy, PartialEq, Eq)]
pub enum UserServiceArgType {
    Bool,
    Int,
    Float,
    String,
    BoolArray,
    IntArray,
    FloatArray,
    StringArray,
}

/// An argument of a service that a user defined.
pub struct UserServiceArg {
    pub name: String,
    pub arg_type: UserServiceArgType,
}

/// A service of a device that a user defined.
pub struct UserService {
    pub name: String,
    pub key: u8,
    pub args: Vec<UserServiceArg>,
}

/// How much a device logs.
#[derive(Debug, Clone, Copy, PartialEq, Eq)]
pub enum LogLevel {
    Unspecified,
    Error,
    Warn,
    Info,
    Config,
    Debug,
    Verbose,
    VeryVerbose,
}

} // verus!
