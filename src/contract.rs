use vstd::prelude::*;
use vstd::utf8::{encode_utf8, valid_utf8};

use crate::msg::{HandleAnswer, HandleMsg, InitMsg, QueryAnswer, QueryMsg};
use crate::state::{
    config_key, config_key_bytes, load, may_load, parse_reminder, parse_state, read_viewing_key,
    reminder_layout, save, state_layout, viewing_key_slot, write_viewing_key, Reminder,
    ReminderModel, State, StateModel,
};
use crate::store::KeyedStore;
use crate::viewing_key::{
    base64_encode, base64_of, derived_token, sha256_of, sha_256, token_hash, CallEnv, ViewingKey,
    VIEWING_KEY_SIZE,
};
use crate::ContractError;

verus! {

/// The configuration in the store, if it is there and well formed.
pub open spec fn stored_config(m: Map<Seq<u8>, Seq<u8>>) -> Option<StateModel> {
    if m.contains_key(config_key()) {
        parse_state(m[config_key()])
    } else {
        None
    }
}

/// Why the configuration cannot be read.
pub open spec fn config_error(m: Map<Seq<u8>, Seq<u8>>) -> ContractError {
    if m.contains_key(config_key()) {
        ContractError::DecodeError
    } else {
        ContractError::NotFound
    }
}

/// The contract seed kept for a seed given at initialisation: the SHA-256 of
/// its base64 text.
pub open spec fn seed_digest(seed: Seq<char>) -> Seq<u8> {
    sha256_of(encode_utf8(base64_of(encode_utf8(seed))))
}

/// Whether a bound lies in 1..=65535.
pub open spec fn is_valid_max_size(val: i32) -> bool {
    1 <= val <= 65535
}

/// Limits the largest reminder to 1..=65535 bytes.
pub fn valid_max_size(val: i32) -> (r: Option<u16>)
    ensures
        is_valid_max_size(val) ==> r == Some(val as u16),
        !is_valid_max_size(val) ==> r is None,
{
    if val < 1 || val > 65535 {
        None
    } else {
        Some(val as u16)
    }
}

/// Validates the bound and stores the configuration with a count of zero.
pub fn init(store: &mut KeyedStore, msg: &InitMsg) -> (r: Result<(), ContractError>)
    requires
        old(store).wf(),
    ensures
        final(store).wf(),
        !is_valid_max_size(msg.max_size) ==> r == Err::<(), ContractError>(
            ContractError::InvalidConfig,
        ) && final(store)@ == old(store)@,
        is_valid_max_size(msg.max_size) ==> r is Ok && final(store)@ == old(store)@.insert(
            config_key(),
            state_layout(
                StateModel {
                    max_size: msg.max_size as u16,
                    reminder_count: 0,
                    prng_seed: seed_digest(msg.prng_seed@),
                },
            ),
        ),
{
    let max_size = match valid_max_size(msg.max_size) {
        Some(v) => v,
        None => {
            return Err(ContractError::InvalidConfig);
        },
    };
    let encoded = base64_encode(msg.prng_seed.as_str().as_bytes());
    let prng_seed = sha_256(encoded.as_str().as_bytes());
    let config = State { max_size, reminder_count: 0, prng_seed };
    let key = config_key_bytes();
    save(store, &key, &config);
    Ok(())
}

/// Status of a recorded reminder.
pub open spec fn recorded_status() -> Seq<char> {
    "Reminder recorded!"@
}

/// Status of a reminder over the size bound.
pub open spec fn too_long_status() -> Seq<char> {
    "Message is too long. Reminder not recorded."@
}

/// Status of a reminder that was found.
pub open spec fn found_status() -> Seq<char> {
    "Reminder found."@
}

/// Status when there is no reminder.
pub open spec fn not_found_status() -> Seq<char> {
    "Reminder not found."@
}

/// Whether `r` is a record reply with the given status.
pub open spec fn is_record_reply(r: Result<HandleAnswer, ContractError>, status: Seq<char>) -> bool {
    match r {
        Ok(HandleAnswer::Record { status: s }) => s@ == status,
        _ => false,
    }
}

/// Whether there is room to count one more reminder.
pub open spec fn count_has_room(m: Map<Seq<u8>, Seq<u8>>) -> bool {
    stored_config(m) matches Some(c) ==> c.reminder_count < u64::MAX
}

/// The store after `identity` records `content` at `time` under config `c`.
pub open spec fn after_record(
    m: Map<Seq<u8>, Seq<u8>>,
    c: StateModel,
    identity: Seq<u8>,
    content: Seq<u8>,
    time: u64,
) -> Map<Seq<u8>, Seq<u8>> {
    m.insert(identity, reminder_layout(ReminderModel { content, timestamp: time })).insert(
        config_key(),
        state_layout(
            StateModel {
                max_size: c.max_size,
                reminder_count: (c.reminder_count + 1) as u64,
                prng_seed: c.prng_seed,
            },
        ),
    )
}

/// The store after a call that records `content` for `identity` at `time`:
/// unchanged where the configuration is unreadable or the content is over the
/// bound.
pub open spec fn record_step(
    m: Map<Seq<u8>, Seq<u8>>,
    identity: Seq<u8>,
    content: Seq<u8>,
    time: u64,
) -> Map<Seq<u8>, Seq<u8>> {
    match stored_config(m) {
        Some(c) => if content.len() > c.max_size {
            m
        } else {
            after_record(m, c, identity, content, time)
        },
        None => m,
    }
}

/// What a record call returns and leaves behind.
pub open spec fn record_outcome(
    before: Map<Seq<u8>, Seq<u8>>,
    after: Map<Seq<u8>, Seq<u8>>,
    identity: Seq<u8>,
    time: u64,
    reminder: Seq<char>,
    r: Result<HandleAnswer, ContractError>,
) -> bool {
    &&& after == record_step(before, identity, encode_utf8(reminder), time)
    &&& stored_config(before) is None ==> r == Err::<HandleAnswer, ContractError>(
        config_error(before),
    )
    &&& stored_config(before) matches Some(c) ==> if encode_utf8(reminder).len() > c.max_size {
        is_record_reply(r, too_long_status())
    } else {
        is_record_reply(r, recorded_status())
    }
}

/// Records `reminder` for `identity` if it fits the bound; otherwise changes
/// nothing and says so in the status.
pub fn try_record(store: &mut KeyedStore, identity: &Vec<u8>, time: u64, reminder: &String) -> (r:
    Result<HandleAnswer, ContractError>)
    requires
        old(store).wf(),
        count_has_room(old(store)@),
    ensures
        final(store).wf(),
        record_outcome(old(store)@, final(store)@, identity@, time, reminder@, r),
{
    let key = config_key_bytes();
    let config: State = match load(store, &key) {
        Ok(c) => c,
        Err(e) => {
            return Err(e);
        },
    };
    let content = vstd::slice::slice_to_vec(reminder.as_str().as_bytes());
    if content.len() > config.max_size as usize {
        let status = String::from_str("Message is too long. Reminder not recorded.");
        return Ok(HandleAnswer::Record { status });
    }
    let stored_reminder = Reminder { content, timestamp: time };
    save(store, identity, &stored_reminder);
    let updated = State {
        max_size: config.max_size,
        reminder_count: config.reminder_count + 1,
        prng_seed: config.prng_seed,
    };
    save(store, &key, &updated);
    let status = String::from_str("Reminder recorded!");
    Ok(HandleAnswer::Record { status })
}

/// Relies on String::from_utf8: it succeeds exactly on valid UTF-8, and the
/// string it gives holds those bytes.
#[verifier::external_body]
fn utf8_text(bytes: Vec<u8>) -> (r: Option<String>)
    ensures
        match r {
            Some(s) => valid_utf8(bytes@) && encode_utf8(s@) == bytes@,
            None => !valid_utf8(bytes@),
        },
{
    String::from_utf8(bytes).ok()
}

/// Whether `text` is the content read back as UTF-8, absent if it is not.
pub open spec fn text_matches(text: Option<String>, content: Seq<u8>) -> bool {
    match text {
        Some(s) => valid_utf8(content) && encode_utf8(s@) == content,
        None => !valid_utf8(content),
    }
}

/// Whether the reminder of `identity` is stored but malformed.
pub open spec fn read_fails(m: Map<Seq<u8>, Seq<u8>>, identity: Seq<u8>) -> bool {
    m.contains_key(identity) && parse_reminder(m[identity]) is None
}

/// Whether the fields of a read reply describe the reminder of `identity`.
pub open spec fn read_reply(
    m: Map<Seq<u8>, Seq<u8>>,
    identity: Seq<u8>,
    status: String,
    reminder: Option<String>,
    timestamp: Option<u64>,
) -> bool {
    if !m.contains_key(identity) {
        status@ == not_found_status() && reminder is None && timestamp is None
    } else {
        match parse_reminder(m[identity]) {
            Some(rm) => status@ == found_status() && text_matches(reminder, rm.content) && timestamp
                == Some(rm.timestamp),
            None => false,
        }
    }
}

/// Status, text and time of the reminder of `identity`.
fn read_fields(store: &KeyedStore, identity: &Vec<u8>) -> (r: Result<
    (String, Option<String>, Option<u64>),
    ContractError,
>)
    requires
        store.wf(),
    ensures
        read_fails(store@, identity@) ==> r == Err::<(String, Option<String>, Option<u64>), ContractError>(
            ContractError::DecodeError,
        ),
        !read_fails(store@, identity@) ==> (r matches Ok((s, t, ts)) && read_reply(
            store@,
            identity@,
            s,
            t,
            ts,
        )),
{
    let result: Option<Reminder> = match may_load(store, identity) {
        Ok(v) => v,
        Err(e) => {
            return Err(e);
        },
    };
    match result {
        Some(stored) => {
            let text = utf8_text(stored.content);
            Ok((String::from_str("Reminder found."), text, Some(stored.timestamp)))
        },
        None => Ok((String::from_str("Reminder not found."), None, None)),
    }
}

/// Whether `r` is what a self-read of `identity` returns on store `m`.
pub open spec fn is_handle_read_reply(
    m: Map<Seq<u8>, Seq<u8>>,
    identity: Seq<u8>,
    r: Result<HandleAnswer, ContractError>,
) -> bool {
    if read_fails(m, identity) {
        r == Err::<HandleAnswer, ContractError>(ContractError::DecodeError)
    } else {
        match r {
            Ok(HandleAnswer::Read { status, reminder, timestamp }) => read_reply(
                m,
                identity,
                status,
                reminder,
                timestamp,
            ),
            _ => false,
        }
    }
}

/// Whether `r` is what an authorised read of `identity` returns on store `m`.
pub open spec fn is_query_read_reply(
    m: Map<Seq<u8>, Seq<u8>>,
    identity: Seq<u8>,
    r: Result<QueryAnswer, ContractError>,
) -> bool {
    if read_fails(m, identity) {
        r == Err::<QueryAnswer, ContractError>(ContractError::DecodeError)
    } else {
        match r {
            Ok(QueryAnswer::Read { status, reminder, timestamp }) => read_reply(
                m,
                identity,
                status,
                reminder,
                timestamp,
            ),
            _ => false,
        }
    }
}

/// Reads the caller's own reminder.
pub fn try_read(store: &KeyedStore, identity: &Vec<u8>) -> (r: Result<HandleAnswer, ContractError>)
    requires
        store.wf(),
    ensures
        is_handle_read_reply(store@, identity@, r),
{
    let (status, reminder, timestamp) = read_fields(store, identity)?;
    Ok(HandleAnswer::Read { status, reminder, timestamp })
}

/// What a key-issuing call returns and leaves behind.
pub open spec fn key_outcome(
    before: Map<Seq<u8>, Seq<u8>>,
    after: Map<Seq<u8>, Seq<u8>>,
    env: &CallEnv,
    entropy: Seq<char>,
    r: Result<HandleAnswer, ContractError>,
) -> bool {
    &&& stored_config(before) is None ==> r == Err::<HandleAnswer, ContractError>(
        config_error(before),
    ) && after == before
    &&& stored_config(before) matches Some(c) ==> r matches Ok(
        HandleAnswer::GenerateViewingKey { key },
    ) && key.0@ == derived_token(
        c.prng_seed,
        env.block_height,
        env.block_time,
        env.sender_address@,
        encode_utf8(entropy),
    ) && after == before.insert(viewing_key_slot(env.sender@), token_hash(key.0@))
}

/// Issues a viewing key for the caller and stores its hash.
pub fn try_generate_viewing_key(store: &mut KeyedStore, env: &CallEnv, entropy: &String) -> (r:
    Result<HandleAnswer, ContractError>)
    requires
        old(store).wf(),
    ensures
        final(store).wf(),
        key_outcome(old(store)@, final(store)@, env, entropy@, r),
{
    let ckey = config_key_bytes();
    let config: State = match load(store, &ckey) {
        Ok(c) => c,
        Err(e) => {
            return Err(e);
        },
    };
    let key = ViewingKey::new(env, &config.prng_seed, entropy.as_str().as_bytes());
    let hashed = key.to_hashed();
    write_viewing_key(store, &env.sender, &hashed);
    Ok(HandleAnswer::GenerateViewingKey { key })
}

/// Runs a handle operation on behalf of the caller named by `env`.
pub fn handle(store: &mut KeyedStore, env: &CallEnv, msg: &HandleMsg) -> (r: Result<
    HandleAnswer,
    ContractError,
>)
    requires
        old(store).wf(),
        count_has_room(old(store)@),
    ensures
        final(store).wf(),
        msg matches HandleMsg::Record { reminder } ==> record_outcome(
            old(store)@,
            final(store)@,
            env.sender@,
            env.block_time,
            reminder@,
            r,
        ),
        msg matches HandleMsg::Read {} ==> is_handle_read_reply(old(store)@, env.sender@, r)
            && final(store)@ == old(store)@,
        msg matches HandleMsg::GenerateViewingKey { entropy, .. } ==> key_outcome(
            old(store)@,
            final(store)@,
            env,
            entropy@,
            r,
        ),
{
    match msg {
        HandleMsg::Record { reminder } => try_record(store, &env.sender, env.block_time, reminder),
        HandleMsg::Read {} => try_read(store, &env.sender),
        HandleMsg::GenerateViewingKey { entropy, .. } => try_generate_viewing_key(store, env, entropy),
    }
}

/// How many reminders were recorded.
pub fn query_stats(store: &KeyedStore) -> (r: Result<QueryAnswer, ContractError>)
    requires
        store.wf(),
    ensures
        stored_config(store@) is None ==> r == Err::<QueryAnswer, ContractError>(
            config_error(store@),
        ),
        stored_config(store@) matches Some(c) ==> r == Ok::<QueryAnswer, ContractError>(
            QueryAnswer::Stats { reminder_count: c.reminder_count },
        ),
{
    let key = config_key_bytes();
    let config: State = load(store, &key)?;
    Ok(QueryAnswer::Stats { reminder_count: config.reminder_count })
}

/// Reads the reminder of `identity` for a caller that was authorised.
pub fn query_read(store: &KeyedStore, identity: &Vec<u8>) -> (r: Result<QueryAnswer, ContractError>)
    requires
        store.wf(),
    ensures
        is_query_read_reply(store@, identity@, r),
{
    let (status, reminder, timestamp) = read_fields(store, identity)?;
    Ok(QueryAnswer::Read { status, reminder, timestamp })
}

/// Whether `token` is the viewing key stored for `identity`.
pub open spec fn authorized(m: Map<Seq<u8>, Seq<u8>>, identity: Seq<u8>, token: Seq<char>) -> bool {
    m.contains_key(viewing_key_slot(identity)) && m[viewing_key_slot(identity)] == token_hash(token)
}

/// Checks the key of a `Read` query against every identity it names, with a
/// comparison of the same cost whether or not a key was ever set, and reads
/// the reminder on a match.
pub fn authenticated_queries(store: &KeyedStore, msg: &QueryMsg) -> (r: Result<QueryAnswer, ContractError>)
    requires
        store.wf(),
        msg is Read,
    ensures
        authorized(store@, msg->address@, msg->key@) ==> is_query_read_reply(store@, msg->address@, r),
        !authorized(store@, msg->address@, msg->key@) ==> r == Err::<QueryAnswer, ContractError>(
            ContractError::Unauthorized,
        ),
{
    let (addresses, key) = msg.get_validation_params();
    let absent: Vec<u8> = vec![0u8; VIEWING_KEY_SIZE];
    let mut i: usize = 0;
    while i < addresses.len()
        invariant
            store.wf(),
            msg is Read,
            addresses@.len() == 1,
            addresses@[0]@ == msg->address@,
            key.0@ == msg->key@,
            0 <= i <= addresses@.len(),
            forall|j: int| 0 <= j < i ==> !authorized(store@, #[trigger] addresses@[j]@, key.0@),
        decreases addresses@.len() - i,
    {
        let expected = read_viewing_key(store, &addresses[i]);
        match expected {
            None => {
                let _ = key.check_viewing_key(absent.as_slice());
            },
            Some(hashed) => {
                if key.check_viewing_key(hashed.as_slice()) {
                    return match msg {
                        QueryMsg::Read { address, .. } => query_read(store, address),
                        QueryMsg::Stats {} => Err(ContractError::Unauthorized),
                    };
                }
            },
        }
        i = i + 1;
    }
    Err(ContractError::Unauthorized)
}

/// Runs a query.
pub fn query(store: &KeyedStore, msg: &QueryMsg) -> (r: Result<QueryAnswer, ContractError>)
    requires
        store.wf(),
    ensures
        msg is Stats ==> (stored_config(store@) matches Some(c) ==> r == Ok::<
            QueryAnswer,
            ContractError,
        >(QueryAnswer::Stats { reminder_count: c.reminder_count })),
        msg is Stats && stored_config(store@) is None ==> r == Err::<QueryAnswer, ContractError>(
            config_error(store@),
        ),
        msg is Read && authorized(store@, msg->address@, msg->key@) ==> is_query_read_reply(
            store@,
            msg->address@,
            r,
        ),
        msg is Read && !authorized(store@, msg->address@, msg->key@) ==> r == Err::<
            QueryAnswer,
            ContractError,
        >(ContractError::Unauthorized),
{
    match msg {
        QueryMsg::Stats {} => query_stats(store),
        _ => authenticated_queries(store, msg),
    }
}

} // verus!
