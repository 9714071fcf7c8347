use vstd::prelude::*;

use crate::codec::{
    copy_range, lemma_u16_round_trip, lemma_u64_round_trip, push_bytes, push_u16, push_u64, read_u16, read_u64, u16_at, u16_bytes, u64_at,
    u64_bytes,
};
use crate::store::{namespaced, prefixed_key, KeyedStore};
use crate::ContractError;

verus! {

/// The fixed key under which the configuration is stored.
pub open spec fn config_key() -> Seq<u8> {
    seq![0x63u8, 0x6fu8, 0x6eu8, 0x66u8, 0x69u8, 0x67u8]
}

/// Builds the key `"config"`.
pub fn config_key_bytes() -> (r: Vec<u8>)
    ensures
        r@ == config_key(),
{
    let r: Vec<u8> = vec![0x63u8, 0x6fu8, 0x6eu8, 0x66u8, 0x69u8, 0x67u8];
    assert(r@ =~= config_key());
    r
}

/// Configuration of the contract.
pub struct State {
    pub max_size: u16,
    pub reminder_count: u64,
    pub prng_seed: Vec<u8>,
}

/// What a `State` holds, as plain values.
pub struct StateModel {
    pub max_size: u16,
    pub reminder_count: u64,
    pub prng_seed: Seq<u8>,
}

impl View for State {
    type V = StateModel;

    open spec fn view(&self) -> StateModel {
        StateModel {
            max_size: self.max_size,
            reminder_count: self.reminder_count,
            prng_seed: self.prng_seed@,
        }
    }
}

/// A stored reminder: its bytes and the time it was recorded.
pub struct Reminder {
    pub content: Vec<u8>,
    pub timestamp: u64,
}

/// What a `Reminder` holds, as plain values.
pub struct ReminderModel {
    pub content: Seq<u8>,
    pub timestamp: u64,
}

impl View for Reminder {
    type V = ReminderModel;

    open spec fn view(&self) -> ReminderModel {
        ReminderModel { content: self.content@, timestamp: self.timestamp }
    }
}

/// A record with a fixed binary layout.
pub trait Record: View + Sized {
    /// The bytes that encode a record.
    spec fn layout(m: Self::V) -> Seq<u8>;

    /// The record that `b` encodes, if `b` has the record's layout.
    spec fn parse(b: Seq<u8>) -> Option<Self::V>;

    /// The record's bytes.
    fn encode(&self) -> (r: Vec<u8>)
        ensures
            r@ == Self::layout(self@),
    ;

    /// The record that `b` encodes, if it has the layout.
    fn decode(b: &Vec<u8>) -> (r: Option<Self>)
        ensures
            match Self::parse(b@) {
                Some(m) => r is Some && r->Some_0@ == m,
                None => r is None,
            },
    ;
}

/// Layout of a `State`: `max_size` in two bytes, `reminder_count` in eight,
/// the seed's length in eight, then the seed; little-endian throughout.
pub open spec fn state_layout(m: StateModel) -> Seq<u8> {
    u16_bytes(m.max_size) + u64_bytes(m.reminder_count) + u64_bytes(m.prng_seed.len() as u64)
        + m.prng_seed
}

/// The configuration that `b` encodes: exactly its layout, no trailing bytes.
pub open spec fn parse_state(b: Seq<u8>) -> Option<StateModel> {
    if b.len() >= 18 && u64_at(b, 10) as int == b.len() - 18 {
        Some(
            StateModel {
                max_size: u16_at(b, 0),
                reminder_count: u64_at(b, 2),
                prng_seed: b.subrange(18, b.len() as int),
            },
        )
    } else {
        None
    }
}

/// Layout of a `Reminder`: the content's length in eight bytes, the content,
/// then the timestamp in eight bytes; little-endian throughout.
pub open spec fn reminder_layout(m: ReminderModel) -> Seq<u8> {
    u64_bytes(m.content.len() as u64) + m.content + u64_bytes(m.timestamp)
}

/// The reminder that `b` encodes: exactly its layout, no trailing bytes.
pub open spec fn parse_reminder(b: Seq<u8>) -> Option<ReminderModel> {
    if b.len() >= 16 && u64_at(b, 0) as int == b.len() - 16 {
        Some(
            ReminderModel {
                content: b.subrange(8, b.len() - 8),
                timestamp: u64_at(b, b.len() - 8),
            },
        )
    } else {
        None
    }
}

impl Record for State {
    open spec fn layout(m: StateModel) -> Seq<u8> {
        state_layout(m)
    }

    open spec fn parse(b: Seq<u8>) -> Option<StateModel> {
        parse_state(b)
    }

    fn encode(&self) -> (r: Vec<u8>) {
        let mut r: Vec<u8> = Vec::new();
        push_u16(&mut r, self.max_size);
        push_u64(&mut r, self.reminder_count);
        push_u64(&mut r, self.prng_seed.len() as u64);
        push_bytes(&mut r, &self.prng_seed);
        assert(r@ =~= state_layout(self@));
        r
    }

    fn decode(b: &Vec<u8>) -> (r: Option<State>) {
        if b.len() < 18 {
            return None;
        }
        let n = read_u64(b, 10);
        if n != (b.len() - 18) as u64 {
            return None;
        }
        let prng_seed = copy_range(b, 18, b.len());
        Some(State { max_size: read_u16(b, 0), reminder_count: read_u64(b, 2), prng_seed })
    }
}

impl Record for Reminder {
    open spec fn layout(m: ReminderModel) -> Seq<u8> {
        reminder_layout(m)
    }

    open spec fn parse(b: Seq<u8>) -> Option<ReminderModel> {
        parse_reminder(b)
    }

    fn encode(&self) -> (r: Vec<u8>) {
        let mut r: Vec<u8> = Vec::new();
        push_u64(&mut r, self.content.len() as u64);
        push_bytes(&mut r, &self.content);
        push_u64(&mut r, self.timestamp);
        assert(r@ =~= reminder_layout(self@));
        r
    }

    fn decode(b: &Vec<u8>) -> (r: Option<Reminder>) {
        if b.len() < 16 {
            return None;
        }
        let n = read_u64(b, 0);
        if n != (b.len() - 16) as u64 {
            return None;
        }
        let content = copy_range(b, 8, b.len() - 8);
        Some(Reminder { content, timestamp: read_u64(b, b.len() - 8) })
    }
}

/// Reading at an offset is reading the slice that starts there.
proof fn lemma_u64_at_shift(b: Seq<u8>, c: Seq<u8>, at: int)
    requires
        0 <= at,
        at + 8 <= c.len(),
        b == c.subrange(at, at + 8),
    ensures
        u64_at(c, at) == u64_at(b, 0),
{
    assert(b[0] == c[at] && b[1] == c[at + 1] && b[2] == c[at + 2] && b[3] == c[at + 3]);
    assert(b[4] == c[at + 4] && b[5] == c[at + 5] && b[6] == c[at + 6] && b[7] == c[at + 7]);
}

/// Decoding the encoding of a configuration gives the configuration back.
pub proof fn lemma_state_round_trip(m: StateModel)
    requires
        m.prng_seed.len() <= u64::MAX,
    ensures
        parse_state(state_layout(m)) == Some(m),
{
    let b = state_layout(m);
    let n = m.prng_seed.len() as u64;
    lemma_u16_round_trip(m.max_size);
    lemma_u64_round_trip(m.reminder_count);
    lemma_u64_round_trip(n);
    assert(b.subrange(0, 2) =~= u16_bytes(m.max_size));
    assert(b[0] == u16_bytes(m.max_size)[0] && b[1] == u16_bytes(m.max_size)[1]);
    assert(b.subrange(2, 10) =~= u64_bytes(m.reminder_count));
    lemma_u64_at_shift(u64_bytes(m.reminder_count), b, 2);
    assert(b.subrange(10, 18) =~= u64_bytes(n));
    lemma_u64_at_shift(u64_bytes(n), b, 10);
    assert(b.subrange(18, b.len() as int) =~= m.prng_seed);
}

/// Decoding the encoding of a reminder gives the reminder back.
pub proof fn lemma_reminder_round_trip(m: ReminderModel)
    requires
        m.content.len() <= u64::MAX,
    ensures
        parse_reminder(reminder_layout(m)) == Some(m),
{
    let b = reminder_layout(m);
    let n = m.content.len() as u64;
    lemma_u64_round_trip(n);
    lemma_u64_round_trip(m.timestamp);
    assert(b.subrange(0, 8) =~= u64_bytes(n));
    lemma_u64_at_shift(u64_bytes(n), b, 0);
    assert(b.subrange(b.len() - 8, b.len() as int) =~= u64_bytes(m.timestamp));
    lemma_u64_at_shift(u64_bytes(m.timestamp), b, b.len() - 8);
    assert(b.subrange(8, b.len() - 8) =~= m.content);
}

/// Encodes `value` and stores it under `key`.
pub fn save<T: Record>(storage: &mut KeyedStore, key: &Vec<u8>, value: &T)
    requires
        old(storage).wf(),
    ensures
        final(storage).wf(),
        final(storage)@ == old(storage)@.insert(key@, T::layout(value@)),
{
    let bytes = value.encode();
    storage.set(key, &bytes);
}

/// Reads and decodes the record under `key`; a missing key is `NotFound`.
pub fn load<T: Record>(storage: &KeyedStore, key: &Vec<u8>) -> (r: Result<T, ContractError>)
    requires
        storage.wf(),
    ensures
        !storage@.contains_key(key@) ==> r == Err::<T, ContractError>(ContractError::NotFound),
        storage@.contains_key(key@) ==> match T::parse(storage@[key@]) {
            Some(m) => r is Ok && r->Ok_0@ == m,
            None => r == Err::<T, ContractError>(ContractError::DecodeError),
        },
{
    match storage.get(key) {
        Some(bytes) => match T::decode(&bytes) {
            Some(v) => Ok(v),
            None => Err(ContractError::DecodeError),
        },
        None => Err(ContractError::NotFound),
    }
}

/// Reads and decodes the record under `key`, if there is one.
pub fn may_load<T: Record>(storage: &KeyedStore, key: &Vec<u8>) -> (r: Result<
    Option<T>,
    ContractError,
>)
    requires
        storage.wf(),
    ensures
        !storage@.contains_key(key@) ==> r is Ok && r->Ok_0 is None,
        storage@.contains_key(key@) ==> match T::parse(storage@[key@]) {
            Some(m) => r is Ok && r->Ok_0 is Some && r->Ok_0->Some_0@ == m,
            None => r == Err::<Option<T>, ContractError>(ContractError::DecodeError),
        },
{
    match storage.get(key) {
        Some(bytes) => match T::decode(&bytes) {
            Some(v) => Ok(Some(v)),
            None => Err(ContractError::DecodeError),
        },
        None => Ok(None),
    }
}

/// Name of the table of viewing-key hashes: `"viewingkey"`.
pub open spec fn viewing_key_namespace() -> Seq<u8> {
    seq![0x76u8, 0x69u8, 0x65u8, 0x77u8, 0x69u8, 0x6eu8, 0x67u8, 0x6bu8, 0x65u8, 0x79u8]
}

/// Where the viewing-key hash of `owner` is stored.
pub open spec fn viewing_key_slot(owner: Seq<u8>) -> Seq<u8> {
    namespaced(viewing_key_namespace(), owner)
}

/// Builds the slot of the viewing-key hash of `owner`.
fn viewing_key_slot_bytes(owner: &Vec<u8>) -> (r: Vec<u8>)
    ensures
        r@ == viewing_key_slot(owner@),
{
    let ns: Vec<u8> = vec![0x76u8, 0x69u8, 0x65u8, 0x77u8, 0x69u8, 0x6eu8, 0x67u8, 0x6bu8, 0x65u8, 0x79u8];
    assert(ns@ =~= viewing_key_namespace());
    prefixed_key(&ns, owner)
}

/// Stores the hash of a viewing key for `owner`.
pub fn write_viewing_key(store: &mut KeyedStore, owner: &Vec<u8>, hashed: &Vec<u8>)
    requires
        old(store).wf(),
    ensures
        final(store).wf(),
        final(store)@ == old(store)@.insert(viewing_key_slot(owner@), hashed@),
{
    let slot = viewing_key_slot_bytes(owner);
    store.set(&slot, hashed);
}

/// The stored hash of the viewing key of `owner`, if one was set.
pub fn read_viewing_key(store: &KeyedStore, owner: &Vec<u8>) -> (r: Option<Vec<u8>>)
    requires
        store.wf(),
    ensures
        match r {
            Some(h) => store@.contains_key(viewing_key_slot(owner@)) && h@ == store@[viewing_key_slot(owner@)],
            None => !store@.contains_key(viewing_key_slot(owner@)),
        },
{
    let slot = viewing_key_slot_bytes(owner);
    store.get(&slot)
}

/// Reminders are keyed by raw identities and viewing-key hashes by prefixed
/// ones, so two identities of one length never share a slot across the two
/// tables, and distinct identities get distinct viewing-key slots.
pub proof fn lemma_namespaces_disjoint(a: Seq<u8>, b: Seq<u8>)
    requires
        a.len() == b.len(),
    ensures
        viewing_key_slot(a) != b,
        viewing_key_slot(a) != config_key(),
        a != b ==> viewing_key_slot(a) != viewing_key_slot(b),
{
    assert(viewing_key_slot(a).len() == b.len() + 12);
    if a != b && viewing_key_slot(a) == viewing_key_slot(b) {
        assert(a =~= viewing_key_slot(a).subrange(12, 12 + a.len() as int));
        assert(b =~= viewing_key_slot(b).subrange(12, 12 + b.len() as int));
    }
}

} // verus!
