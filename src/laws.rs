use vstd::prelude::*;

use crate::contract::{
    authorized, is_query_read_reply, key_outcome, record_step, stored_config,
};
use crate::msg::{HandleAnswer, QueryAnswer};
use crate::state::{config_key, lemma_state_round_trip, viewing_key_slot, StateModel};
use crate::viewing_key::CallEnv;
use crate::ContractError;

verus! {

/// The store after a series of record calls, each given as identity, payload
/// bytes and time, in the order they were made.
pub open spec fn records_applied(
    m: Map<Seq<u8>, Seq<u8>>,
    calls: Seq<(Seq<u8>, Seq<u8>, u64)>,
) -> Map<Seq<u8>, Seq<u8>>
    decreases calls.len(),
{
    if calls.len() == 0 {
        m
    } else {
        let last = calls.last();
        record_step(records_applied(m, calls.drop_last()), last.0, last.1, last.2)
    }
}

/// How many of the calls carry a payload within `max_size`.
pub open spec fn accepted(max_size: u16, calls: Seq<(Seq<u8>, Seq<u8>, u64)>) -> nat
    decreases calls.len(),
{
    if calls.len() == 0 {
        0
    } else {
        accepted(max_size, calls.drop_last()) + if calls.last().1.len() <= max_size {
            1nat
        } else {
            0nat
        }
    }
}

proof fn lemma_accepted_bound(max_size: u16, calls: Seq<(Seq<u8>, Seq<u8>, u64)>)
    ensures
        accepted(max_size, calls) <= calls.len(),
    decreases calls.len(),
{
    if calls.len() > 0 {
        lemma_accepted_bound(max_size, calls.drop_last());
    }
}

/// After any series of record calls, in any order and from any identities,
/// the stored count has grown by exactly the number of calls whose payload was
/// within the bound; the bound and the seed stay as they were.
pub proof fn lemma_count_equals_accepted_records(
    m: Map<Seq<u8>, Seq<u8>>,
    c: StateModel,
    calls: Seq<(Seq<u8>, Seq<u8>, u64)>,
)
    requires
        stored_config(m) == Some(c),
        c.reminder_count + calls.len() <= u64::MAX,
    ensures
        stored_config(records_applied(m, calls)) == Some(
            StateModel {
                max_size: c.max_size,
                reminder_count: (c.reminder_count + accepted(c.max_size, calls)) as u64,
                prng_seed: c.prng_seed,
            },
        ),
    decreases calls.len(),
{
    if calls.len() > 0 {
        let rest = calls.drop_last();
        lemma_count_equals_accepted_records(m, c, rest);
        lemma_accepted_bound(c.max_size, rest);
        let m1 = records_applied(m, rest);
        let c1 = StateModel {
            max_size: c.max_size,
            reminder_count: (c.reminder_count + accepted(c.max_size, rest)) as u64,
            prng_seed: c.prng_seed,
        };
        let last = calls.last();
        if last.1.len() <= c.max_size {
            let c2 = StateModel {
                max_size: c.max_size,
                reminder_count: (c1.reminder_count + 1) as u64,
                prng_seed: c.prng_seed,
            };
            assert(c.prng_seed.len() <= u64::MAX);
            lemma_state_round_trip(c2);
            assert(records_applied(m, calls)[config_key()] == crate::state::state_layout(c2));
        }
    }
}

/// A key just issued to the caller authorises reading the caller's reminder;
/// issuing it leaves what such a read returns, and the configuration, as they
/// were before.
pub proof fn lemma_issued_key_authorizes(
    before: Map<Seq<u8>, Seq<u8>>,
    after: Map<Seq<u8>, Seq<u8>>,
    env: &CallEnv,
    entropy: Seq<char>,
    r: Result<HandleAnswer, ContractError>,
)
    requires
        key_outcome(before, after, env, entropy, r),
        stored_config(before) is Some,
    ensures
        r matches Ok(HandleAnswer::GenerateViewingKey { key }) && authorized(
            after,
            env.sender@,
            key.0@,
        ),
        forall|q: Result<QueryAnswer, ContractError>|
            is_query_read_reply(after, env.sender@, q) == is_query_read_reply(
                before,
                env.sender@,
                q,
            ),
        stored_config(after) == stored_config(before),
{
    let id = env.sender@;
    assert(viewing_key_slot(id).len() == id.len() + 12);
    assert(viewing_key_slot(id) != id);
    assert(viewing_key_slot(id) != config_key());
    assert(after.contains_key(id) == before.contains_key(id));
    assert(before.contains_key(id) ==> after[id] == before[id]);
}

} // verus!
