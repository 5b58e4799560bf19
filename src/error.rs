//! The library-wide error type.
use vstd::prelude::*;
use crate::api;
use crate::api::HostError;
use crate::conversion;
use crate::init_error::InitError;

verus! {

/// Any error that can reach the host through the plugin's entry point.
#[derive(Debug)]
pub enum Error {
    /// A failure of the scripting runtime, with its message.
    Lua(String),
    /// A boundary call failed.
    Api(api::Error),
    /// The host reported an error.
    Nvim(HostError),
    /// An object could not be converted.
    ObjectConversion(conversion::Error),
    /// Initialisation of the session failed.
    Types(InitError),
    /// A structured value could not be serialized.
    Serialize(String),
    /// A structured value could not be deserialized.
    Deserialize(String),
}

} // verus!
