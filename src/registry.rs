use vstd::prelude::*;

verus! {

/// Definition ids handed out to record types, by type identity.
///
/// Ids are dense and never reused: the type registered `i`-th holds id `i`
/// for the life of the registry, since the host cannot undefine one.
pub struct DefinitionRegistry {
    keys: Vec<u64>,
}

impl View for DefinitionRegistry {
    type V = Seq<u64>;

    closed spec fn view(&self) -> Seq<u64> {
        self.keys@
    }
}

/// The id of `key` in a registry whose keys, in registration order, are
/// `keys`.
pub open spec fn id_in(keys: Seq<u64>, key: u64) -> Option<u32> {
    if keys.contains(key) {
        Some((choose|i: int| 0 <= i < keys.len() && keys[i] == key) as u32)
    } else {
        None
    }
}

/// A key sequence with no repeats: each id names exactly one type.
pub proof fn lemma_id_at(keys: Seq<u64>, i: int)
    requires
        keys.no_duplicates(),
        0 <= i < keys.len(),
        keys.len() <= u32::MAX,
    ensures
        id_in(keys, keys[i]) == Some(i as u32),
{
    let key = keys[i];
    assert(keys.contains(key));
    let j = choose|j: int| 0 <= j < keys.len() && keys[j] == key;
    assert(j == i);
}

/// Appending a new type keeps the keys distinct, gives it the next id, and
/// leaves the id of every type registered before unchanged.
pub proof fn lemma_push_new(keys: Seq<u64>, key: u64, other: u64)
    requires
        keys.no_duplicates(),
        !keys.contains(key),
        keys.len() < u32::MAX,
    ensures
        keys.push(key).no_duplicates(),
        id_in(keys.push(key), key) == Some(keys.len() as u32),
        id_in(keys, other) is Some ==> id_in(keys.push(key), other) == id_in(keys, other),
{
    let grown = keys.push(key);
    assert forall|a: int, b: int| 0 <= a < grown.len() && 0 <= b < grown.len() && a != b implies grown[a]
        != grown[b] by {
        if a < keys.len() && b < keys.len() {
            assert(grown[a] == keys[a] && grown[b] == keys[b]);
        } else if a < keys.len() {
            assert(grown[a] == keys[a]);
        } else if b < keys.len() {
            assert(grown[b] == keys[b]);
        }
    }
    lemma_id_at(grown, keys.len() as int);
    if keys.contains(other) {
        let i = choose|i: int| 0 <= i < keys.len() && keys[i] == other;
        lemma_id_at(keys, i);
        assert(grown[i] == other);
        lemma_id_at(grown, i);
    }
}

impl DefinitionRegistry {
    pub open spec fn wf(&self) -> bool {
        &&& self@.no_duplicates()
        &&& self@.len() <= u32::MAX
    }

    pub open spec fn spec_id(&self, key: u64) -> Option<u32> {
        id_in(self@, key)
    }

    pub fn new() -> (r: Self)
        ensures
            r.wf(),
            r@ == Seq::<u64>::empty(),
    {
        DefinitionRegistry { keys: Vec::new() }
    }

    /// Number of registered types, which is also the next id.
    pub fn len(&self) -> (r: usize)
        ensures
            r == self@.len(),
    {
        self.keys.len()
    }

    /// The id of `key`, if it was registered.
    pub fn lookup(&self, key: u64) -> (r: Option<u32>)
        requires
            self.wf(),
        ensures
            r == self.spec_id(key),
    {
        let mut i: usize = 0;
        while i < self.keys.len()
            invariant
                self.wf(),
                i <= self@.len(),
                forall|j: int| 0 <= j < i ==> self@[j] != key,
            decreases self@.len() - i,
        {
            if self.keys[i] == key {
                proof {
                    lemma_id_at(self@, i as int);
                }
                return Some(i as u32);
            }
            i = i + 1;
        }
        None
    }

    /// Registers a new type under the next id.
    pub fn insert(&mut self, key: u64) -> (r: u32)
        requires
            old(self).wf(),
            old(self).spec_id(key) is None,
            old(self)@.len() < u32::MAX,
        ensures
            final(self).wf(),
            final(self)@ == old(self)@.push(key),
            r == old(self)@.len(),
            final(self).spec_id(key) == Some(r),
    {
        let r = self.keys.len() as u32;
        proof {
            lemma_push_new(self@, key, key);
        }
        self.keys.push(key);
        r
    }
}

/// Registering distinct types one after another from an empty registry hands
/// out ids `0, 1, 2, ...` in registration order.
pub proof fn lemma_dense_ids(keys: Seq<u64>)
    requires
        keys.no_duplicates(),
        keys.len() <= u32::MAX,
    ensures
        forall|i: int| 0 <= i < keys.len() ==> id_in(keys, #[trigger] keys[i]) == Some(i as u32),
{
    assert forall|i: int| 0 <= i < keys.len() implies id_in(keys, #[trigger] keys[i]) == Some(i as u32) by {
        lemma_id_at(keys, i);
    }
}

} // verus!
