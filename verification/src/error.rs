//! What can go wrong between a session key and an answer of the library.

use crate::bridge::InstanceError;
use crate::codec::DecodeError;
use crate::library::LoadError;
use crate::symbols::SymbolError;
use vstd::prelude::*;

verus! {

/// Why a lookup gave nothing.
#[derive(Debug, Clone, Copy, PartialEq, Eq, Structural)]
pub enum RegistryError {
    /// No instance is registered under the session key.
    NotFound,
}

/// Everything that can go wrong between a session key and an answer of the
/// library.
#[derive(Debug, PartialEq, Eq)]
pub enum BridgeError {
    /// The library could not be loaded.
    Load(LoadError),
    /// The library lacks an entry point.
    Symbol(SymbolError),
    /// The library made no object.
    Instance(InstanceError),
    /// The library gave bytes that are no text.
    Decode(DecodeError),
    /// The session key is not known.
    Registry(RegistryError),
}

} // verus!
