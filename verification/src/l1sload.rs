//! The L1SLOAD precompile (RIP-7728): reads the storage of an L1 contract at
//! an L1 block, as known to a cache that the node fills beforehand.
//!
//! The input to the precompile is
//! - bytes `[0, 20)`: the L1 contract address,
//! - bytes `[20, 52)`: the storage key to read,
//! - bytes `[52, 84)`: the L1 block number to read from;
//!
//! its output is the 32-byte storage value.

use vstd::prelude::*;

use crate::bytes::bytes_eq;

verus! {

broadcast use vstd::array::group_array_axioms;

/// Fixed gas cost of a call to L1SLOAD.
pub const L1SLOAD_FIXED_GAS: u64 = 2000;

/// Gas cost of each storage value that L1SLOAD loads.
pub const L1SLOAD_PER_LOAD_GAS: u64 = 2000;

/// Expected input length: 20 bytes (address) + 32 bytes (storage key) + 32
/// bytes (block number).
pub const EXPECTED_INPUT_LENGTH: usize = 84;

/// What a call to L1SLOAD costs: the fixed cost and one load.
pub open spec fn spec_l1sload_gas() -> int {
    L1SLOAD_FIXED_GAS + L1SLOAD_PER_LOAD_GAS
}

/// A cache key as the contracts see it: address, storage key and block
/// number, each as its bytes.
pub type L1StorageKeyView = (Seq<u8>, Seq<u8>, Seq<u8>);

/// The key under which an L1 storage value is cached.
#[derive(Clone, Copy, Debug, PartialEq, Eq)]
pub struct L1StorageKey {
    /// The L1 contract address.
    pub contract_address: [u8; 20],
    /// The storage key in that contract.
    pub storage_key: [u8; 32],
    /// The L1 block number, as a 32-byte word.
    pub block_number: [u8; 32],
}

impl View for L1StorageKey {
    type V = L1StorageKeyView;

    open spec fn view(&self) -> L1StorageKeyView {
        (self.contract_address@, self.storage_key@, self.block_number@)
    }
}

/// The map that a list of cache entries stands for; a later entry for a key
/// overrides an earlier one.
pub open spec fn entries_map(entries: Seq<(L1StorageKey, [u8; 32])>) -> Map<
    L1StorageKeyView,
    Seq<u8>,
>
    decreases entries.len(),
{
    if entries.len() == 0 {
        Map::empty()
    } else {
        entries_map(entries.drop_last()).insert(entries.last().0@, entries.last().1@)
    }
}

/// No key occurs twice among the entries.
pub open spec fn keys_unique(entries: Seq<(L1StorageKey, [u8; 32])>) -> bool {
    forall|i: int, j: int|
        0 <= i < entries.len() && 0 <= j < entries.len() && i != j ==> #[trigger] entries[i].0@
            != #[trigger] entries[j].0@
}

/// A key is in the map exactly when some entry holds it.
proof fn lemma_entries_map_dom(entries: Seq<(L1StorageKey, [u8; 32])>, k: L1StorageKeyView)
    ensures
        entries_map(entries).contains_key(k) <==> exists|i: int|
            0 <= i < entries.len() && #[trigger] entries[i].0@ == k,
    decreases entries.len(),
{
    if entries.len() > 0 {
        let prefix = entries.drop_last();
        lemma_entries_map_dom(prefix, k);
        if entries_map(prefix).contains_key(k) {
            let i = choose|i: int| 0 <= i < prefix.len() && #[trigger] prefix[i].0@ == k;
            assert(entries[i].0@ == k);
        }
        if exists|i: int| 0 <= i < entries.len() && #[trigger] entries[i].0@ == k {
            let i = choose|i: int| 0 <= i < entries.len() && #[trigger] entries[i].0@ == k;
            if i < entries.len() - 1 {
                assert(prefix[i].0@ == k);
            }
        }
    }
}

/// Where keys are unique, the map gives each entry's value for its key.
proof fn lemma_entries_map_value(entries: Seq<(L1StorageKey, [u8; 32])>, i: int)
    requires
        keys_unique(entries),
        0 <= i < entries.len(),
    ensures
        entries_map(entries).contains_key(entries[i].0@),
        entries_map(entries)[entries[i].0@] == entries[i].1@,
    decreases entries.len(),
{
    let prefix = entries.drop_last();
    if i < entries.len() - 1 {
        assert(keys_unique(prefix)) by {
            assert forall|a: int, b: int|
                0 <= a < prefix.len() && 0 <= b < prefix.len() && a != b implies #[trigger] prefix[a].0@
                != #[trigger] prefix[b].0@ by {
                assert(prefix[a] == entries[a]);
                assert(prefix[b] == entries[b]);
            }
        }
        lemma_entries_map_value(prefix, i);
        assert(prefix[i] == entries[i]);
        assert(entries[i].0@ != entries[entries.len() - 1].0@);
    }
}

/// Replacing the entry for a key updates the map at that key.
proof fn lemma_entries_map_update(
    entries: Seq<(L1StorageKey, [u8; 32])>,
    i: int,
    entry: (L1StorageKey, [u8; 32]),
)
    requires
        keys_unique(entries),
        0 <= i < entries.len(),
        entries[i].0@ == entry.0@,
    ensures
        keys_unique(entries.update(i, entry)),
        entries_map(entries.update(i, entry)) == entries_map(entries).insert(entry.0@, entry.1@),
{
    let updated = entries.update(i, entry);
    assert(keys_unique(updated)) by {
        assert forall|a: int, b: int|
            0 <= a < updated.len() && 0 <= b < updated.len() && a != b implies #[trigger] updated[a].0@
            != #[trigger] updated[b].0@ by {
            assert(updated[a].0@ == entries[a].0@);
            assert(updated[b].0@ == entries[b].0@);
        }
    }
    let m1 = entries_map(updated);
    let m2 = entries_map(entries).insert(entry.0@, entry.1@);
    assert forall|k: L1StorageKeyView| #[trigger] m1.contains_key(k) <==> m2.contains_key(k) by {
        lemma_entries_map_dom(updated, k);
        lemma_entries_map_dom(entries, k);
        if exists|j: int| 0 <= j < entries.len() && #[trigger] entries[j].0@ == k {
            let j = choose|j: int| 0 <= j < entries.len() && #[trigger] entries[j].0@ == k;
            assert(updated[j].0@ == k);
        }
        if exists|j: int| 0 <= j < updated.len() && #[trigger] updated[j].0@ == k {
            let j = choose|j: int| 0 <= j < updated.len() && #[trigger] updated[j].0@ == k;
            assert(entries[j].0@ == k);
        }
    }
    assert forall|k: L1StorageKeyView| #[trigger] m1.contains_key(k) implies m1[k] == m2[k] by {
        lemma_entries_map_dom(updated, k);
        let j = choose|j: int| 0 <= j < updated.len() && #[trigger] updated[j].0@ == k;
        lemma_entries_map_value(updated, j);
        if j != i {
            lemma_entries_map_value(entries, j);
            assert(updated[j] == entries[j]);
        }
    }
    assert(m1 =~= m2);
}

/// The cache of L1 storage values that the node has read from L1.
///
/// Each key occurs at most once among the entries.
pub struct L1StorageCache {
    entries: Vec<(L1StorageKey, [u8; 32])>,
}

impl L1StorageCache {
    #[verifier::type_invariant]
    spec fn inv(self) -> bool {
        keys_unique(self.entries@)
    }
}

impl View for L1StorageCache {
    type V = Map<L1StorageKeyView, Seq<u8>>;

    closed spec fn view(&self) -> Map<L1StorageKeyView, Seq<u8>> {
        entries_map(self.entries@)
    }
}

/// `a` and `b` are the same key.
fn key_eq(a: &L1StorageKey, b: &L1StorageKey) -> (r: bool)
    ensures
        r == (a@ == b@),
{
    bytes_eq(a.contract_address.as_slice(), b.contract_address.as_slice()) && bytes_eq(
        a.storage_key.as_slice(),
        b.storage_key.as_slice(),
    ) && bytes_eq(a.block_number.as_slice(), b.block_number.as_slice())
}

impl L1StorageCache {
    /// An empty cache.
    pub fn new() -> (r: L1StorageCache)
        ensures
            r@ == Map::<L1StorageKeyView, Seq<u8>>::empty(),
    {
        L1StorageCache { entries: Vec::new() }
    }

    /// The position of the entry for `key`, if there is one.
    fn find(&self, key: &L1StorageKey) -> (r: Option<usize>)
        ensures
            r matches Some(i) ==> i < self.entries@.len() && self.entries@[i as int].0@ == key@,
            r is None ==> forall|j: int|
                0 <= j < self.entries@.len() ==> #[trigger] self.entries@[j].0@ != key@,
    {
        let mut i: usize = 0;
        while i < self.entries.len()
            invariant
                i <= self.entries@.len(),
                forall|j: int| 0 <= j < i ==> #[trigger] self.entries@[j].0@ != key@,
            decreases self.entries@.len() - i,
        {
            if key_eq(&self.entries[i].0, key) {
                return Some(i);
            }
            i = i + 1;
        }
        None
    }

    /// The cached value for `key`, if there is one.
    pub fn get(&self, key: &L1StorageKey) -> (r: Option<[u8; 32]>)
        ensures
            r is Some <==> self@.contains_key(key@),
            r matches Some(v) ==> v@ == self@[key@],
    {
        proof {
            use_type_invariant(self);
        }
        match self.find(key) {
            Some(i) => {
                proof {
                    lemma_entries_map_value(self.entries@, i as int);
                }
                Some(self.entries[i].1)
            },
            None => {
                proof {
                    lemma_entries_map_dom(self.entries@, key@);
                }
                None
            },
        }
    }

    /// Caches `value` under `key`, replacing what was cached there.
    pub fn insert(&mut self, key: L1StorageKey, value: [u8; 32])
        ensures
            final(self)@ == old(self)@.insert(key@, value@),
    {
        proof {
            use_type_invariant(&*self);
        }
        let found = self.find(&key);
        let mut entries: Vec<(L1StorageKey, [u8; 32])> = Vec::new();
        std::mem::swap(&mut entries, &mut self.entries);
        match found {
            Some(i) => {
                proof {
                    lemma_entries_map_update(entries@, i as int, (key, value));
                }
                entries.set(i, (key, value));
            },
            None => {
                proof {
                    assert(entries@.push((key, value)).drop_last() =~= entries@);
                    assert(keys_unique(entries@.push((key, value)))) by {
                        let pushed = entries@.push((key, value));
                        assert forall|a: int, b: int|
                            0 <= a < pushed.len() && 0 <= b < pushed.len() && a != b implies #[trigger] pushed[a].0@
                            != #[trigger] pushed[b].0@ by {
                            if a < entries@.len() {
                                assert(pushed[a] == entries@[a]);
                            }
                            if b < entries@.len() {
                                assert(pushed[b] == entries@[b]);
                            }
                        }
                    }
                }
                entries.push((key, value));
            },
        }
        self.entries = entries;
    }

    /// Removes every cached value.
    pub fn clear(&mut self)
        ensures
            final(self)@ == Map::<L1StorageKeyView, Seq<u8>>::empty(),
    {
        self.entries = Vec::new();
    }
}

/// Caches the value of `storage_key` of `contract_address` at L1 block
/// `block_number`.
pub fn set_l1_storage_value(
    cache: &mut L1StorageCache,
    contract_address: [u8; 20],
    storage_key: [u8; 32],
    block_number: [u8; 32],
    value: [u8; 32],
)
    ensures
        final(cache)@ == old(cache)@.insert(
            (contract_address@, storage_key@, block_number@),
            value@,
        ),
{
    cache.insert(L1StorageKey { contract_address, storage_key, block_number }, value);
}

/// Empties the cache.
pub fn clear_l1_storage_cache(cache: &mut L1StorageCache)
    ensures
        final(cache)@ == Map::<L1StorageKeyView, Seq<u8>>::empty(),
{
    cache.clear();
}

/// The cached value of `storage_key` of `contract_address` at L1 block
/// `block_number`, if there is one.
pub fn get_l1_storage_value(
    cache: &L1StorageCache,
    contract_address: [u8; 20],
    storage_key: [u8; 32],
    block_number: [u8; 32],
) -> (r: Option<[u8; 32]>)
    ensures
        r is Some <==> cache@.contains_key((contract_address@, storage_key@, block_number@)),
        r matches Some(v) ==> v@ == cache@[(contract_address@, storage_key@, block_number@)],
{
    cache.get(&L1StorageKey { contract_address, storage_key, block_number })
}

/// Why a call to L1SLOAD fails.
#[derive(Clone, Copy, Debug, PartialEq, Eq, Structural)]
pub enum L1SloadError {
    /// The gas limit does not cover the cost of the call.
    OutOfGas,
    /// The input is not 84 bytes long.
    InvalidInputLength,
    /// The cache holds no value for the requested slot.
    StorageValueNotFound,
}

impl L1SloadError {
    /// The message with which the precompile reports the error.
    pub fn message(&self) -> (r: &'static str)
        ensures
            *self == L1SloadError::OutOfGas ==> r@ == "out of gas"@,
            *self == L1SloadError::InvalidInputLength ==> r@ == "Invalid input length"@,
            *self == L1SloadError::StorageValueNotFound ==> r@
                == "L1 storage value not found in cache"@,
    {
        match self {
            L1SloadError::OutOfGas => "out of gas",
            L1SloadError::InvalidInputLength => "Invalid input length",
            L1SloadError::StorageValueNotFound => "L1 storage value not found in cache",
        }
    }
}

/// The result of a successful call to L1SLOAD.
#[derive(Debug, PartialEq, Eq)]
pub struct PrecompileOutput {
    /// Gas used by the call.
    pub gas_used: u64,
    /// The storage value, 32 bytes.
    pub bytes: Vec<u8>,
}

/// The key that an input of the right length asks for.
pub open spec fn spec_input_key(input: Seq<u8>) -> L1StorageKeyView {
    (input.subrange(0, 20), input.subrange(20, 52), input.subrange(52, 84))
}

/// What L1SLOAD answers: the gas limit is checked first, then the input
/// length, then the cache.
pub open spec fn spec_l1sload(
    cache: Map<L1StorageKeyView, Seq<u8>>,
    input: Seq<u8>,
    gas_limit: u64,
) -> Result<Seq<u8>, L1SloadError> {
    if spec_l1sload_gas() > gas_limit {
        Err(L1SloadError::OutOfGas)
    } else if input.len() != EXPECTED_INPUT_LENGTH {
        Err(L1SloadError::InvalidInputLength)
    } else if cache.contains_key(spec_input_key(input)) {
        Ok(cache[spec_input_key(input)])
    } else {
        Err(L1SloadError::StorageValueNotFound)
    }
}

/// The 20 bytes of `input` from `start`.
fn read_20(input: &[u8], start: usize) -> (r: [u8; 20])
    requires
        start + 20 <= input@.len(),
    ensures
        r@ == input@.subrange(start as int, start + 20),
{
    let mut r = [0u8; 20];
    let len = input.len();
    let mut i: usize = 0;
    while i < 20
        invariant
            i <= 20,
            len == input@.len(),
            start + 20 <= input@.len(),
            r@.len() == 20,
            forall|j: int| 0 <= j < i ==> r@[j] == input@[start + j],
        decreases 20 - i,
    {
        r[i] = input[start + i];
        i = i + 1;
    }
    assert(r@ =~= input@.subrange(start as int, start + 20));
    r
}

/// The 32 bytes of `input` from `start`.
fn read_32(input: &[u8], start: usize) -> (r: [u8; 32])
    requires
        start + 32 <= input@.len(),
    ensures
        r@ == input@.subrange(start as int, start + 32),
{
    let mut r = [0u8; 32];
    let len = input.len();
    let mut i: usize = 0;
    while i < 32
        invariant
            i <= 32,
            len == input@.len(),
            start + 32 <= input@.len(),
            r@.len() == 32,
            forall|j: int| 0 <= j < i ==> r@[j] == input@[start + j],
        decreases 32 - i,
    {
        r[i] = input[start + i];
        i = i + 1;
    }
    assert(r@ =~= input@.subrange(start as int, start + 32));
    r
}

/// The bytes of a word, in a vector.
fn word_to_vec(word: &[u8; 32]) -> (r: Vec<u8>)
    ensures
        r@ == word@,
{
    let mut r: Vec<u8> = Vec::new();
    let mut i: usize = 0;
    while i < 32
        invariant
            i <= 32,
            word@.len() == 32,
            r@ == word@.subrange(0, i as int),
        decreases 32 - i,
    {
        r.push(word[i]);
        i = i + 1;
        assert(r@ =~= word@.subrange(0, i as int));
    }
    assert(word@.subrange(0, 32) =~= word@);
    r
}

/// L1SLOAD: reads the storage value that `input` asks for from the cache.
///
/// A call costs `L1SLOAD_FIXED_GAS + L1SLOAD_PER_LOAD_GAS`; it fails where the
/// gas limit is below that, where the input is not 84 bytes long, and where
/// the cache holds no value for the slot.
pub fn l1sload_run(cache: &L1StorageCache, input: &[u8], gas_limit: u64) -> (r: Result<
    PrecompileOutput,
    L1SloadError,
>)
    ensures
        match r {
            Ok(out) => out.gas_used == spec_l1sload_gas() && out.bytes@.len() == 32 && spec_l1sload(
                cache@,
                input@,
                gas_limit,
            ) == Ok::<Seq<u8>, L1SloadError>(out.bytes@),
            Err(e) => spec_l1sload(cache@, input@, gas_limit) == Err::<Seq<u8>, L1SloadError>(e),
        },        gas_limit < 4000 ==> r == Err::<PrecompileOutput, L1SloadError>(L1SloadError::OutOfGas),
        gas_limit >= 4000 && input@.len() != 84 ==> r == Err::<PrecompileOutput, L1SloadError>(
            L1SloadError::InvalidInputLength,
        ),
        gas_limit >= 4000 && input@.len() == 84 ==> (r is Ok <==> cache@.contains_key(
            (input@.subrange(0, 20), input@.subrange(20, 52), input@.subrange(52, 84)),
        )),
        gas_limit >= 4000 && input@.len() == 84 && !cache@.contains_key(
            (input@.subrange(0, 20), input@.subrange(20, 52), input@.subrange(52, 84)),
        ) ==> r == Err::<PrecompileOutput, L1SloadError>(L1SloadError::StorageValueNotFound),
        r matches Ok(out) ==> out.gas_used == 4000 && out.bytes@ == cache@[(
            input@.subrange(0, 20),
            input@.subrange(20, 52),
            input@.subrange(52, 84),
        )],
{
    let gas_used: u64 = L1SLOAD_FIXED_GAS + L1SLOAD_PER_LOAD_GAS;
    if gas_used > gas_limit {
        return Err(L1SloadError::OutOfGas);
    }
    if input.len() != EXPECTED_INPUT_LENGTH {
        return Err(L1SloadError::InvalidInputLength);
    }
    let contract_address = read_20(input, 0);
    let storage_key = read_32(input, 20);
    let block_number = read_32(input, 52);
    match get_l1_storage_value(cache, contract_address, storage_key, block_number) {
        Some(value) => Ok(PrecompileOutput { gas_used, bytes: word_to_vec(&value) }),
        None => Err(L1SloadError::StorageValueNotFound),
    }
}

/// Read after write: once a value is cached for a slot, L1SLOAD with enough
/// gas and the slot's 84-byte input returns that value.
pub proof fn lemma_l1sload_returns_cached_value(
    cache: Map<L1StorageKeyView, Seq<u8>>,
    contract_address: Seq<u8>,
    storage_key: Seq<u8>,
    block_number: Seq<u8>,
    value: Seq<u8>,
    gas_limit: u64,
)
    requires
        contract_address.len() == 20,
        storage_key.len() == 32,
        block_number.len() == 32,
        gas_limit >= spec_l1sload_gas(),
    ensures
        spec_l1sload(
            cache.insert((contract_address, storage_key, block_number), value),
            contract_address + storage_key + block_number,
            gas_limit,
        ) == Ok::<Seq<u8>, L1SloadError>(value),
{
    let input = contract_address + storage_key + block_number;
    assert(input.subrange(0, 20) =~= contract_address);
    assert(input.subrange(20, 52) =~= storage_key);
    assert(input.subrange(52, 84) =~= block_number);
}

/// Keys are distinct: caching a value for one slot does not change what
/// L1SLOAD answers for any other slot.
pub proof fn lemma_l1sload_other_slot_unchanged(
    cache: Map<L1StorageKeyView, Seq<u8>>,
    key: L1StorageKeyView,
    value: Seq<u8>,
    input: Seq<u8>,
    gas_limit: u64,
)
    requires
        input.len() == EXPECTED_INPUT_LENGTH ==> spec_input_key(input) != key,
    ensures
        spec_l1sload(cache.insert(key, value), input, gas_limit) == spec_l1sload(
            cache,
            input,
            gas_limit,
        ),
{
}

/// An empty cache answers no request: after the cache is cleared, every call
/// to L1SLOAD fails.
pub proof fn lemma_l1sload_empty_cache_fails(input: Seq<u8>, gas_limit: u64)
    ensures
        spec_l1sload(Map::<L1StorageKeyView, Seq<u8>>::empty(), input, gas_limit) is Err,
{
}

/// The gas limit is checked before anything else: below the cost of the call,
/// L1SLOAD runs out of gas whatever the input and the cache.
pub proof fn lemma_l1sload_out_of_gas(
    cache: Map<L1StorageKeyView, Seq<u8>>,
    input: Seq<u8>,
    gas_limit: u64,
)
    requires
        gas_limit < spec_l1sload_gas(),
    ensures
        spec_l1sload(cache, input, gas_limit) == Err::<Seq<u8>, L1SloadError>(
            L1SloadError::OutOfGas,
        ),
{
}

} // verus!
