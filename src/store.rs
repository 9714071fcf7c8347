use vstd::prelude::*;

verus! {

/// Whether two byte strings are equal; stops at the first difference.
pub fn bytes_eq(a: &Vec<u8>, b: &Vec<u8>) -> (r: bool)
    ensures
        r == (a@ == b@),
{
    if a.len() != b.len() {
        return false;
    }
    let mut i: usize = 0;
    while i < a.len()
        invariant
            i <= a@.len() == b@.len(),
            a@.subrange(0, i as int) == b@.subrange(0, i as int),
        decreases a@.len() - i,
    {
        if a[i] != b[i] {
            assert(a@[i as int] != b@[i as int]);
            return false;
        }
        i = i + 1;
        assert(a@.subrange(0, i as int) =~= a@.subrange(0, i as int - 1).push(a@[i as int - 1]));
        assert(b@.subrange(0, i as int) =~= b@.subrange(0, i as int - 1).push(b@[i as int - 1]));
    }
    assert(a@ =~= a@.subrange(0, i as int));
    assert(b@ =~= b@.subrange(0, i as int));
    true
}

/// The key under which `key` is stored in the table named `namespace`: the
/// namespace's length as two big-endian bytes, the namespace, then the key.
pub open spec fn namespaced(namespace: Seq<u8>, key: Seq<u8>) -> Seq<u8> {
    seq![(namespace.len() / 256) as u8, (namespace.len() % 256) as u8] + namespace + key
}

/// Builds the key under which `key` is stored in the table named `namespace`.
pub fn prefixed_key(namespace: &Vec<u8>, key: &Vec<u8>) -> (r: Vec<u8>)
    requires
        namespace@.len() < 65536,
    ensures
        r@ == namespaced(namespace@, key@),
{
    let n: usize = namespace.len();
    let mut r: Vec<u8> = Vec::new();
    r.push((n / 256) as u8);
    r.push((n % 256) as u8);
    crate::codec::push_bytes(&mut r, namespace);
    crate::codec::push_bytes(&mut r, key);
    assert(r@ =~= namespaced(namespace@, key@));
    r
}

/// A flat key-value store of byte strings, held in memory.
pub struct KeyedStore {
    keys: Vec<Vec<u8>>,
    vals: Vec<Vec<u8>>,
    contents: Ghost<Map<Seq<u8>, Seq<u8>>>,
}

impl View for KeyedStore {
    type V = Map<Seq<u8>, Seq<u8>>;

    closed spec fn view(&self) -> Map<Seq<u8>, Seq<u8>> {
        self.contents@
    }
}

impl KeyedStore {
    /// The parallel vectors hold each key once, and the map is what they hold.
    pub closed spec fn wf(&self) -> bool {
        &&& self.keys@.len() == self.vals@.len()
        &&& forall|i: int, j: int|
            0 <= i < j < self.keys@.len() ==> self.keys@[i]@ != self.keys@[j]@
        &&& forall|k: Seq<u8>|
            #![trigger self.contents@.contains_key(k)]
            self.contents@.contains_key(k) <==> exists|i: int|
                0 <= i < self.keys@.len() && self.keys@[i]@ == k
        &&& forall|i: int|
            #![trigger self.keys@[i]]
            0 <= i < self.keys@.len() ==> self.contents@[self.keys@[i]@] == self.vals@[i]@
    }

    /// An empty store.
    pub fn new() -> (r: KeyedStore)
        ensures
            r.wf(),
            r@ == Map::<Seq<u8>, Seq<u8>>::empty(),
    {
        KeyedStore { keys: Vec::new(), vals: Vec::new(), contents: Ghost(Map::empty()) }
    }

    /// Where `key` is held, if it is.
    fn position(&self, key: &Vec<u8>) -> (r: Option<usize>)
        requires
            self.wf(),
        ensures
            match r {
                Some(i) => i < self.keys@.len() && self.keys@[i as int]@ == key@,
                None => !self@.contains_key(key@),
            },
    {
        let mut i: usize = 0;
        while i < self.keys.len()
            invariant
                self.wf(),
                i <= self.keys@.len(),
                forall|j: int| 0 <= j < i ==> self.keys@[j]@ != key@,
            decreases self.keys@.len() - i,
        {
            if bytes_eq(&self.keys[i], key) {
                return Some(i);
            }
            i = i + 1;
        }
        None
    }

    /// The value stored under `key`, if any.
    pub fn get(&self, key: &Vec<u8>) -> (r: Option<Vec<u8>>)
        requires
            self.wf(),
        ensures
            match r {
                Some(v) => self@.contains_key(key@) && v@ == self@[key@],
                None => !self@.contains_key(key@),
            },
    {
        match self.position(key) {
            Some(i) => Some(self.vals[i].clone()),
            None => None,
        }
    }

    /// Stores `value` under `key`, replacing what was there.
    pub fn set(&mut self, key: &Vec<u8>, value: &Vec<u8>)
        requires
            old(self).wf(),
        ensures
            final(self).wf(),
            final(self)@ == old(self)@.insert(key@, value@),
    {
        let ghost m = self.contents@.insert(key@, value@);
        match self.position(key) {
            Some(i) => {
                self.vals.set(i, value.clone());
                self.contents = Ghost(m);
                assert forall|k: Seq<u8>|
                    #![trigger self.contents@.contains_key(k)]
                    self.contents@.contains_key(k) <==> exists|j: int|
                        0 <= j < self.keys@.len() && self.keys@[j]@ == k by {
                    if k == key@ {
                        assert(self.keys@[i as int]@ == k);
                    } else {
                        assert(old(self).contents@.contains_key(k) == self.contents@.contains_key(k));
                    }
                }
            },
            None => {
                self.keys.push(key.clone());
                self.vals.push(value.clone());
                self.contents = Ghost(m);
                let ghost n = self.keys@.len() - 1;
                assert(self.keys@[n]@ == key@);
                assert forall|k: Seq<u8>|
                    #![trigger self.contents@.contains_key(k)]
                    self.contents@.contains_key(k) <==> exists|j: int|
                        0 <= j < self.keys@.len() && self.keys@[j]@ == k by {
                    if k == key@ {
                        assert(self.keys@[n]@ == k);
                    } else {
                        assert(old(self).contents@.contains_key(k) == self.contents@.contains_key(k));
                        if old(self).contents@.contains_key(k) {
                            let j = choose|j: int| 0 <= j < old(self).keys@.len() && old(self).keys@[j]@ == k;
                            assert(self.keys@[j]@ == k);
                        }
                    }
                }
            },
        }
    }
}

} // verus!
