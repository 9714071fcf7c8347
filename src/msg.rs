use vstd::prelude::*;

use crate::viewing_key::ViewingKey;

verus! {

/// Arguments of initialisation.
pub struct InitMsg {
    /// Largest reminder accepted, in bytes; must lie in 1..=65535.
    pub max_size: i32,
    /// Seed from which every viewing key is derived.
    pub prng_seed: String,
}

/// Operations that change or read the caller's own state.
pub enum HandleMsg {
    /// Records a new reminder for the caller.
    Record { reminder: String },
    /// Reads the caller's reminder.
    Read {},
    /// Issues a new viewing key for the caller; `padding` only hides the
    /// length of `entropy`.
    GenerateViewingKey { entropy: String, padding: Option<String> },
}

/// Read-only operations.
pub enum QueryMsg {
    /// How many reminders were recorded.
    Stats {},
    /// Reads the reminder of `address` (canonical identity bytes) with a
    /// viewing key.
    Read { address: Vec<u8>, key: String },
}

impl QueryMsg {
    /// The identities to check the key against, and the key.
    pub fn get_validation_params(&self) -> (r: (Vec<Vec<u8>>, ViewingKey))
        requires
            self is Read,
        ensures
            r.0@.len() == 1,
            r.0@[0]@ == self->address@,
            r.1.0@ == self->key@,
    {
        match self {
            QueryMsg::Read { address, key } => {
                let mut addresses: Vec<Vec<u8>> = Vec::new();
                addresses.push(address.clone());
                (addresses, ViewingKey(key.clone()))
            },
            QueryMsg::Stats {} => {
                proof {
                    assert(false);
                }
                (Vec::new(), ViewingKey(String::new()))
            },
        }
    }
}

/// Replies to the handle operations.
pub enum HandleAnswer {
    Record { status: String },
    Read { status: String, reminder: Option<String>, timestamp: Option<u64> },
    GenerateViewingKey { key: ViewingKey },
}

/// Replies to the queries.
pub enum QueryAnswer {
    Stats { reminder_count: u64 },
    Read { status: String, reminder: Option<String>, timestamp: Option<u64> },
}

} // verus!
