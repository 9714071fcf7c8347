use vstd::prelude::*;

pub mod codec;
pub mod contract;
pub mod laws;
pub mod msg;
pub mod state;
pub mod store;
pub mod viewing_key;

verus! {

/// Failures of the contract's operations.
#[derive(Clone, Copy, Debug, PartialEq, Eq, Structural)]
pub enum ContractError {
    /// The configuration given at initialisation is out of bounds.
    InvalidConfig,
    /// A record that was expected to exist is absent.
    NotFound,
    /// Stored bytes do not have the layout of the record read.
    DecodeError,
    /// No presented credential matched.
    Unauthorized,
}

} // verus!
