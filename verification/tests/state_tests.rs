//! The adapter's reader/writer behaviour exercised against real caches.

use cached::Cached;
use mem_state::class::ContractClass;
use mem_state::felt::Felt;
use mem_state::registry::CacheRegistry;
use mem_state::state::{MemState, StateError};

fn felt(n: u64) -> Felt {
    Felt::from_u64(n)
}

fn class(bytes: &[u8]) -> ContractClass {
    ContractClass { bytes: bytes.to_vec() }
}

#[test]
fn fresh_reads_fail_with_expected_errors() {
    let mut reg = CacheRegistry::new();
    let st = MemState::new(1);
    let a = felt(11);
    let k = felt(22);
    let h = felt(33);
    assert_eq!(
        st.get_storage_at(&mut reg, a, k),
        Err(StateError::StorageRead { contract_address: a, key: k })
    );
    assert_eq!(
        st.get_nonce_at(&mut reg, a),
        Err(StateError::NonceRead { contract_address: a })
    );
    assert_eq!(
        st.get_class_hash_at(&mut reg, a),
        Err(StateError::ClassHashRead { contract_address: a })
    );
    assert_eq!(
        st.get_compiled_contract_class(&mut reg, h),
        Err(StateError::UndeclaredClassHash { class_hash: h })
    );
    assert_eq!(
        st.get_compiled_class_hash(&mut reg, h),
        Err(StateError::UndeclaredClassHash { class_hash: h })
    );
    assert_eq!(
        st.increment_nonce(&mut reg, a),
        Err(StateError::NonceRead { contract_address: a })
    );
}

#[test]
fn storage_write_then_read_round_trip() {
    let mut reg = CacheRegistry::new();
    let st = MemState::new(1);
    let pairs: [(u64, u64, u64); 4] = [(1, 10, 100), (1, 11, 101), (2, 10, 102), (3, 30, 103)];
    for (a, k, v) in pairs {
        st.set_storage_at(&mut reg, felt(a), felt(k), felt(v));
    }
    for (a, k, v) in pairs {
        assert_eq!(st.get_storage_at(&mut reg, felt(a), felt(k)), Ok(felt(v)));
    }
}

#[test]
fn storage_overwrite_returns_latest() {
    let mut reg = CacheRegistry::new();
    let st = MemState::new(1);
    let (a, k) = (felt(5), felt(6));
    st.set_storage_at(&mut reg, a, k, felt(7));
    st.set_storage_at(&mut reg, a, k, felt(8));
    assert_eq!(st.get_storage_at(&mut reg, a, k), Ok(felt(8)));
}

#[test]
fn class_hash_round_trip() {
    let mut reg = CacheRegistry::new();
    let st = MemState::new(1);
    let a = felt(9);
    let h = felt(77);
    assert_eq!(st.set_class_hash_at(&mut reg, a, h), Ok(()));
    assert_eq!(st.get_class_hash_at(&mut reg, a), Ok(h));
}

#[test]
fn compiled_class_hash_round_trip() {
    let mut reg = CacheRegistry::new();
    let st = MemState::new(1);
    let h = felt(12);
    let c = felt(13);
    assert_eq!(st.set_compiled_class_hash(&mut reg, h, c), Ok(()));
    assert_eq!(st.get_compiled_class_hash(&mut reg, h), Ok(c));
}

#[test]
fn declared_class_invisible_at_height_zero() {
    let mut reg = CacheRegistry::new();
    let declarer = MemState::new(0);
    let h = felt(44);
    let def = class(b"program");
    assert_eq!(declarer.set_contract_class(&mut reg, h, def), Ok(()));
    assert_eq!(
        MemState::new(0).get_compiled_contract_class(&mut reg, h),
        Err(StateError::UndeclaredClassHash { class_hash: h })
    );
}

#[test]
fn declared_class_visible_from_height_one_onward() {
    let mut reg = CacheRegistry::new();
    // Whichever height declares it, the entry is recorded at height zero.
    let declarer = MemState::new(9);
    let h = felt(44);
    let def = class(b"program");
    assert_eq!(declarer.set_contract_class(&mut reg, h, def.clone()), Ok(()));
    assert_eq!(MemState::new(1).get_compiled_contract_class(&mut reg, h), Ok(def.clone()));
    assert_eq!(MemState::new(5).get_compiled_contract_class(&mut reg, h), Ok(def));
}

#[test]
fn sequential_increments_add_up() {
    let mut reg = CacheRegistry::new();
    let st = MemState::new(1);
    let a = felt(21);
    reg.nonce_cache.cache_set(a, felt(40));
    for _ in 0..5 {
        assert_eq!(st.increment_nonce(&mut reg, a), Ok(()));
    }
    assert_eq!(st.get_nonce_at(&mut reg, a), Ok(felt(45)));
}

#[test]
fn increment_fails_on_nonce_beyond_64_bits() {
    let mut reg = CacheRegistry::new();
    let st = MemState::new(1);
    let a = felt(2);
    reg.nonce_cache.cache_set(a, Felt { l0: 0, l1: 1, l2: 0, l3: 0 });
    assert_eq!(
        st.increment_nonce(&mut reg, a),
        Err(StateError::NonceOutOfRange { contract_address: a })
    );
    // The failed increment writes nothing back.
    assert_eq!(st.get_nonce_at(&mut reg, a), Ok(Felt { l0: 0, l1: 1, l2: 0, l3: 0 }));
}

#[test]
fn increment_fails_on_full_64_bit_counter() {
    let mut reg = CacheRegistry::new();
    let st = MemState::new(1);
    let a = felt(3);
    reg.nonce_cache.cache_set(a, felt(u64::MAX));
    assert_eq!(
        st.increment_nonce(&mut reg, a),
        Err(StateError::NonceOutOfRange { contract_address: a })
    );
    assert_eq!(st.get_nonce_at(&mut reg, a), Ok(felt(u64::MAX)));
}

#[test]
fn filling_past_capacity_evicts_oldest() {
    let mut reg = CacheRegistry::with_capacity(3);
    let st = MemState::new(1);
    let a = felt(1);
    for k in 1..=4u64 {
        st.set_storage_at(&mut reg, a, felt(k), felt(100 + k));
    }
    assert_eq!(
        st.get_storage_at(&mut reg, a, felt(1)),
        Err(StateError::StorageRead { contract_address: a, key: felt(1) })
    );
    for k in 2..=4u64 {
        assert_eq!(st.get_storage_at(&mut reg, a, felt(k)), Ok(felt(100 + k)));
    }
}

#[test]
fn reading_refreshes_recency_so_eviction_takes_the_stalest() {
    let mut reg = CacheRegistry::with_capacity(3);
    let st = MemState::new(1);
    let a = felt(1);
    for k in 1..=3u64 {
        st.set_storage_at(&mut reg, a, felt(k), felt(100 + k));
    }
    // Freshen slot 1; slot 2 is now the least recently used.
    assert_eq!(st.get_storage_at(&mut reg, a, felt(1)), Ok(felt(101)));
    st.set_storage_at(&mut reg, a, felt(4), felt(104));
    assert_eq!(
        st.get_storage_at(&mut reg, a, felt(2)),
        Err(StateError::StorageRead { contract_address: a, key: felt(2) })
    );
    assert_eq!(st.get_storage_at(&mut reg, a, felt(1)), Ok(felt(101)));
    assert_eq!(st.get_storage_at(&mut reg, a, felt(3)), Ok(felt(103)));
    assert_eq!(st.get_storage_at(&mut reg, a, felt(4)), Ok(felt(104)));
}

#[test]
fn default_capacity_is_128_per_cache() {
    let mut reg = CacheRegistry::new();
    let st = MemState::new(1);
    let a = felt(1);
    for k in 0..128u64 {
        st.set_storage_at(&mut reg, a, felt(k), felt(1000 + k));
    }
    for k in 0..128u64 {
        assert_eq!(st.get_storage_at(&mut reg, a, felt(k)), Ok(felt(1000 + k)));
    }
    // One more distinct slot pushes out the least recently read one, slot 0.
    st.set_storage_at(&mut reg, a, felt(128), felt(1128));
    assert_eq!(
        st.get_storage_at(&mut reg, a, felt(0)),
        Err(StateError::StorageRead { contract_address: a, key: felt(0) })
    );
    assert_eq!(st.get_storage_at(&mut reg, a, felt(128)), Ok(felt(1128)));
    assert_eq!(st.get_storage_at(&mut reg, a, felt(127)), Ok(felt(1127)));
}

#[test]
fn to_state_diff_always_fails() {
    let st = MemState::new(7);
    assert_eq!(st.to_state_diff(), Err(StateError::StateDiffUnsupported));
}

#[test]
fn felt_u64_conversions() {
    assert_eq!(felt(0).to_u64(), Some(0));
    assert_eq!(felt(u64::MAX).to_u64(), Some(u64::MAX));
    assert_eq!(Felt { l0: 5, l1: 0, l2: 1, l3: 0 }.to_u64(), None);
    assert_eq!(Felt { l0: 0, l1: 0, l2: 0, l3: 9 }.to_u64(), None);
}
