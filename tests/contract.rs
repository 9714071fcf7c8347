use reminder::contract::{
    authenticated_queries, handle, init, query, query_stats, try_generate_viewing_key, try_read,
    try_record, valid_max_size,
};
use reminder::msg::{HandleAnswer, HandleMsg, InitMsg, QueryAnswer, QueryMsg};
use reminder::state::{
    load, may_load, read_viewing_key, save, write_viewing_key, Record, Reminder, State,
};
use reminder::store::{bytes_eq, prefixed_key, KeyedStore};
use reminder::viewing_key::{ct_slice_compare, CallEnv, ViewingKey};
use reminder::ContractError;

fn identity(tag: u8) -> Vec<u8> {
    vec![tag; 20]
}

fn env_for(tag: u8, address: &str) -> CallEnv {
    CallEnv {
        sender: identity(tag),
        sender_address: address.to_string(),
        block_height: 12345,
        block_time: 1_571_797_419,
    }
}

fn initialised(max_size: i32, seed: &str) -> KeyedStore {
    let mut store = KeyedStore::new();
    let msg = InitMsg { max_size, prng_seed: seed.to_string() };
    assert_eq!(init(&mut store, &msg), Ok(()));
    store
}

fn config_of(store: &KeyedStore) -> State {
    match load::<State>(store, &b"config".to_vec()) {
        Ok(s) => s,
        Err(e) => panic!("config missing: {:?}", e),
    }
}

fn record_status(r: Result<HandleAnswer, ContractError>) -> String {
    match r {
        Ok(HandleAnswer::Record { status }) => status,
        _ => panic!("not a record reply"),
    }
}

fn stats(store: &KeyedStore) -> u64 {
    match query_stats(store) {
        Ok(QueryAnswer::Stats { reminder_count }) => reminder_count,
        _ => panic!("not a stats reply"),
    }
}

fn issue_key(store: &mut KeyedStore, env: &CallEnv, entropy: &str) -> String {
    match try_generate_viewing_key(store, env, &entropy.to_string()) {
        Ok(HandleAnswer::GenerateViewingKey { key }) => key.0,
        _ => panic!("no key issued"),
    }
}

fn read_query(address: Vec<u8>, key: &str) -> QueryMsg {
    QueryMsg::Read { address, key: key.to_string() }
}

#[test]
fn max_size_bounds() {
    assert_eq!(valid_max_size(0), None);
    assert_eq!(valid_max_size(-5), None);
    assert_eq!(valid_max_size(1), Some(1));
    assert_eq!(valid_max_size(65535), Some(65535));
    assert_eq!(valid_max_size(65536), None);
}

#[test]
fn init_rejects_out_of_range_sizes() {
    for bad in [0, -1, 65536, i32::MAX, i32::MIN] {
        let mut store = KeyedStore::new();
        let msg = InitMsg { max_size: bad, prng_seed: "abc".to_string() };
        assert_eq!(init(&mut store, &msg), Err(ContractError::InvalidConfig));
        assert!(store.get(&b"config".to_vec()).is_none());
        assert!(matches!(query_stats(&store), Err(ContractError::NotFound)));
    }
}

#[test]
fn init_stores_hashed_seed() {
    let store = initialised(65535, "abc");
    let config = config_of(&store);
    assert_eq!(config.max_size, 65535);
    assert_eq!(config.reminder_count, 0);
    assert_eq!(config.prng_seed.len(), 32);
    assert_ne!(config.prng_seed, b"abc".to_vec());
    let other = initialised(65535, "abd");
    assert_ne!(config_of(&other).prng_seed, config.prng_seed);
}

#[test]
fn record_read_and_stats_scenario() {
    let mut store = initialised(10, "abc");
    let a = env_for(1, "alice");
    let r = handle(&mut store, &a, &HandleMsg::Record { reminder: "hello".to_string() });
    assert_eq!(record_status(r), "Reminder recorded!");
    assert_eq!(stats(&store), 1);
    match handle(&mut store, &a, &HandleMsg::Read {}) {
        Ok(HandleAnswer::Read { status, reminder, timestamp }) => {
            assert_eq!(status, "Reminder found.");
            assert_eq!(reminder, Some("hello".to_string()));
            assert_eq!(timestamp, Some(1_571_797_419));
        }
        _ => panic!("not a read reply"),
    }
    let r = try_record(&mut store, &a.sender, 99, &"a string longer than ten".to_string());
    assert_eq!(record_status(r), "Message is too long. Reminder not recorded.");
    assert_eq!(stats(&store), 1);
    let kept = may_load::<Reminder>(&store, &a.sender).unwrap().unwrap();
    assert_eq!(kept.content, b"hello".to_vec());
    assert_eq!(kept.timestamp, 1_571_797_419);
}

#[test]
fn payload_at_bound_is_recorded() {
    let mut store = initialised(5, "seed");
    let r = try_record(&mut store, &identity(2), 7, &"12345".to_string());
    assert_eq!(record_status(r), "Reminder recorded!");
    let r = try_record(&mut store, &identity(2), 8, &"123456".to_string());
    assert_eq!(record_status(r), "Message is too long. Reminder not recorded.");
    // the bound counts bytes, not characters
    let r = try_record(&mut store, &identity(3), 9, &"ééé".to_string());
    assert_eq!(record_status(r), "Message is too long. Reminder not recorded.");
}

#[test]
fn count_grows_by_accepted_records_only() {
    let mut store = initialised(4, "seed");
    let payloads = ["ab", "too long", "abcd", "", "abcde", "x"];
    let mut expected = 0u64;
    for (i, p) in payloads.iter().enumerate() {
        let who = identity((i % 2) as u8);
        let before = store.get(&who);
        let r = try_record(&mut store, &who, i as u64, &p.to_string());
        if p.len() <= 4 {
            expected += 1;
            assert_eq!(record_status(r), "Reminder recorded!");
        } else {
            assert_eq!(store.get(&who), before);
        }
        assert_eq!(stats(&store), expected);
    }
    assert_eq!(expected, 4);
}

#[test]
fn read_without_reminder_is_not_found() {
    let store = initialised(10, "abc");
    match try_read(&store, &identity(9)) {
        Ok(HandleAnswer::Read { status, reminder, timestamp }) => {
            assert_eq!(status, "Reminder not found.");
            assert_eq!(reminder, None);
            assert_eq!(timestamp, None);
        }
        _ => panic!("not a read reply"),
    }
}

#[test]
fn record_without_config_fails() {
    let mut store = KeyedStore::new();
    let r = try_record(&mut store, &identity(1), 1, &"hi".to_string());
    assert!(matches!(r, Err(ContractError::NotFound)));
    assert!(store.get(&identity(1)).is_none());
}

#[test]
fn malformed_records_are_decode_errors() {
    let mut store = KeyedStore::new();
    store.set(&b"config".to_vec(), &vec![1, 2, 3]);
    assert!(matches!(query_stats(&store), Err(ContractError::DecodeError)));
    store.set(&identity(1), &vec![0; 7]);
    assert!(matches!(try_read(&store, &identity(1)), Err(ContractError::DecodeError)));
}

#[test]
fn viewing_key_scenario() {
    let mut store = initialised(10, "abc");
    let a = env_for(1, "alice");
    let b = env_for(2, "bob");
    let r = try_record(&mut store, &a.sender, 5, &"hello".to_string());
    assert_eq!(record_status(r), "Reminder recorded!");
    let token = match handle(
        &mut store,
        &a,
        &HandleMsg::GenerateViewingKey { entropy: "ent".to_string(), padding: None },
    ) {
        Ok(HandleAnswer::GenerateViewingKey { key }) => key.0,
        _ => panic!("no key issued"),
    };
    match query(&store, &read_query(a.sender.clone(), &token)) {
        Ok(QueryAnswer::Read { status, reminder, timestamp }) => {
            assert_eq!(status, "Reminder found.");
            assert_eq!(reminder, Some("hello".to_string()));
            assert_eq!(timestamp, Some(5));
        }
        _ => panic!("authorised read failed"),
    }
    assert!(matches!(
        query(&store, &read_query(a.sender.clone(), "wrong")),
        Err(ContractError::Unauthorized)
    ));
    assert!(matches!(
        query(&store, &read_query(b.sender.clone(), &token)),
        Err(ContractError::Unauthorized)
    ));
}

#[test]
fn issued_key_reads_not_found_without_reminder() {
    let mut store = initialised(10, "abc");
    let a = env_for(4, "carol");
    let token = issue_key(&mut store, &a, "entropy");
    match authenticated_queries(&store, &read_query(a.sender.clone(), &token)) {
        Ok(QueryAnswer::Read { status, reminder, timestamp }) => {
            assert_eq!(status, "Reminder not found.");
            assert_eq!(reminder, None);
            assert_eq!(timestamp, None);
        }
        _ => panic!("authorised read failed"),
    }
}

#[test]
fn new_key_replaces_old_one() {
    let mut store = initialised(10, "abc");
    let a = env_for(1, "alice");
    let first = issue_key(&mut store, &a, "one");
    let second = issue_key(&mut store, &a, "two");
    assert_ne!(first, second);
    assert!(matches!(
        query(&store, &read_query(a.sender.clone(), &first)),
        Err(ContractError::Unauthorized)
    ));
    assert!(query(&store, &read_query(a.sender.clone(), &second)).is_ok());
}

#[test]
fn generate_key_without_config_fails() {
    let mut store = KeyedStore::new();
    let r = try_generate_viewing_key(&mut store, &env_for(1, "alice"), &"e".to_string());
    assert!(matches!(r, Err(ContractError::NotFound)));
}

#[test]
fn token_shape_and_hash() {
    let env = env_for(1, "alice");
    let seed = vec![7u8; 32];
    let key = ViewingKey::new(&env, &seed, b"ent");
    assert!(key.0.starts_with("api_key_"));
    // 32 hashed bytes in padded base64
    assert_eq!(key.0.len(), 8 + 44);
    let again = ViewingKey::new(&env, &seed, b"ent");
    assert_eq!(key.0, again.0);
    let other = ViewingKey::new(&env, &seed, b"enu");
    assert_ne!(key.0, other.0);
    let hashed = key.to_hashed();
    assert_eq!(hashed.len(), 32);
    assert_ne!(hashed, key.0.as_bytes().to_vec());
    assert!(key.check_viewing_key(&hashed));
    assert!(!other.check_viewing_key(&hashed));
    assert!(!key.check_viewing_key(&[0u8; 32]));
}

#[test]
fn sha_of_known_token() {
    // SHA-256 of "test"
    let key = ViewingKey("test".to_string());
    let expected: Vec<u8> = vec![
        159, 134, 208, 129, 136, 76, 125, 101, 154, 47, 234, 160, 197, 90, 208, 21, 163, 191, 79,
        27, 43, 11, 130, 44, 209, 93, 108, 21, 176, 240, 10, 8,
    ];
    assert_eq!(key.to_hashed(), expected);
}

#[test]
fn constant_time_compare() {
    assert!(ct_slice_compare(b"abc", b"abc"));
    assert!(!ct_slice_compare(b"abc", b"abd"));
    assert!(!ct_slice_compare(b"abc", b"ab"));
    assert!(ct_slice_compare(b"", b""));
    assert!(bytes_eq(&b"xy".to_vec(), &b"xy".to_vec()));
    assert!(!bytes_eq(&b"xy".to_vec(), &b"xz".to_vec()));
}

#[test]
fn state_round_trip() {
    let s = State { max_size: 513, reminder_count: 0x0102030405060708, prng_seed: vec![9, 8, 7] };
    let bytes = s.encode();
    assert_eq!(
        bytes,
        vec![1, 2, 8, 7, 6, 5, 4, 3, 2, 1, 3, 0, 0, 0, 0, 0, 0, 0, 9, 8, 7]
    );
    let back = State::decode(&bytes).unwrap();
    assert_eq!(back.max_size, 513);
    assert_eq!(back.reminder_count, 0x0102030405060708);
    assert_eq!(back.prng_seed, vec![9, 8, 7]);
    assert!(State::decode(&bytes[..20].to_vec()).is_none());
    let mut longer = bytes.clone();
    longer.push(0);
    assert!(State::decode(&longer).is_none());
}

#[test]
fn reminder_round_trip() {
    let r = Reminder { content: b"hi".to_vec(), timestamp: 258 };
    let bytes = r.encode();
    assert_eq!(bytes, vec![2, 0, 0, 0, 0, 0, 0, 0, b'h', b'i', 2, 1, 0, 0, 0, 0, 0, 0]);
    let back = Reminder::decode(&bytes).unwrap();
    assert_eq!(back.content, b"hi".to_vec());
    assert_eq!(back.timestamp, 258);
    let empty = Reminder { content: Vec::new(), timestamp: u64::MAX };
    let back = Reminder::decode(&empty.encode()).unwrap();
    assert!(back.content.is_empty());
    assert_eq!(back.timestamp, u64::MAX);
    assert!(Reminder::decode(&vec![5, 0, 0, 0, 0, 0, 0, 0, 1]).is_none());
}

#[test]
fn save_load_and_missing_keys() {
    let mut store = KeyedStore::new();
    let key = b"k".to_vec();
    assert!(matches!(load::<Reminder>(&store, &key), Err(ContractError::NotFound)));
    assert!(matches!(may_load::<Reminder>(&store, &key), Ok(None)));
    save(&mut store, &key, &Reminder { content: vec![1], timestamp: 2 });
    let got = load::<Reminder>(&store, &key).unwrap();
    assert_eq!(got.content, vec![1]);
    assert_eq!(got.timestamp, 2);
}

#[test]
fn viewing_keys_live_in_their_own_namespace() {
    let mut store = KeyedStore::new();
    let owner = identity(1);
    write_viewing_key(&mut store, &owner, &vec![5; 32]);
    assert_eq!(read_viewing_key(&store, &owner), Some(vec![5; 32]));
    assert!(store.get(&owner).is_none());
    assert_eq!(read_viewing_key(&store, &identity(2)), None);
    let slot = prefixed_key(&b"viewingkey".to_vec(), &owner);
    assert_eq!(&slot[..12], b"\x00\x0aviewingkey");
    assert_eq!(store.get(&slot), Some(vec![5; 32]));
}

#[test]
fn validation_params_of_read_query() {
    let q = read_query(identity(3), "key");
    let (addresses, key) = q.get_validation_params();
    assert_eq!(addresses, vec![identity(3)]);
    assert_eq!(key.0, "key");
}

#[test]
fn store_overwrites() {
    let mut store = KeyedStore::new();
    store.set(&b"a".to_vec(), &b"1".to_vec());
    store.set(&b"b".to_vec(), &b"2".to_vec());
    store.set(&b"a".to_vec(), &b"3".to_vec());
    assert_eq!(store.get(&b"a".to_vec()), Some(b"3".to_vec()));
    assert_eq!(store.get(&b"b".to_vec()), Some(b"2".to_vec()));
    assert_eq!(store.get(&b"c".to_vec()), None);
}
