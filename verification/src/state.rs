//! The per-call state adapter: a view height plus the reader/writer calls of
//! the execution engine, each one lookup or mutation of one cache in a
//! registry handed in by the caller.

use vstd::prelude::*;

verus! {

use crate::cache_model::{lookup, touch, put, lemma_touch, lemma_put};
use crate::class::{CachedContractClass, ContractClass};
use crate::felt::{ClassHash, CompiledClassHash, ContractAddress, Felt, Nonce, StorageKey};
use crate::lru::{
    storage_cache_get, storage_cache_set, felt_cache_get, felt_cache_set, class_cache_get,
    class_cache_set,
};
use crate::registry::CacheRegistry;

/// Why a call failed. Read misses name the key they were asked for; a class
/// lookup that misses, or hits an entry not yet visible at the view height,
/// reports the class hash as undeclared either way.
#[derive(Clone, Copy, PartialEq, Eq, Debug)]
pub enum StateError {
    /// No value is cached for this storage slot.
    StorageRead { contract_address: ContractAddress, key: StorageKey },
    /// No nonce is cached for this address.
    NonceRead { contract_address: ContractAddress },
    /// No class hash is cached for this address.
    ClassHashRead { contract_address: ContractAddress },
    /// No entry for this class hash, or none visible at the view height.
    UndeclaredClassHash { class_hash: ClassHash },
    /// The cached nonce does not leave room in the 64-bit counter.
    NonceOutOfRange { contract_address: ContractAddress },
    /// The commitment diff is a separate concern and is never produced here.
    StateDiffUnsupported,
}

/// A state view bound to an execution height. The adapter itself holds no
/// cache data; every call works on the registry it is given.
pub struct MemState {
    pub height: u64,
}

impl MemState {
    /// An adapter whose reads are evaluated at `height`.
    pub fn new(height: u64) -> (r: MemState)
        ensures
            r.height == height,
    {
        MemState { height }
    }

    /// Reads the value cached for slot `key` of `contract_address`,
    /// refreshing its recency; fails naming the slot when nothing is cached.
    pub fn get_storage_at(
        &self,
        caches: &mut CacheRegistry,
        contract_address: ContractAddress,
        key: StorageKey,
    ) -> (r: Result<Felt, StateError>)
        requires
            old(caches).wf(),
        ensures
            final(caches).wf(),
            final(caches).capacity() == old(caches).capacity(),
            final(caches).storage() == touch(old(caches).storage(), (contract_address, key)),
            final(caches).classes() == old(caches).classes(),
            final(caches).class_hashes() == old(caches).class_hashes(),
            final(caches).nonces() == old(caches).nonces(),
            final(caches).compiled_class_hashes() == old(caches).compiled_class_hashes(),
            r == (match lookup(old(caches).storage(), (contract_address, key)) {
                Some(v) => Ok::<Felt, StateError>(v),
                None => Err(StateError::StorageRead { contract_address, key }),
            }),
    {
        let cell = (contract_address, key);
        let got = storage_cache_get(&mut caches.storage_cache, &cell);
        proof {
            lemma_touch(old(caches).storage(), cell);
        }
        match got {
            Some(value) => Ok(value),
            None => Err(StateError::StorageRead { contract_address, key }),
        }
    }

    /// Reads the nonce cached for `contract_address`, refreshing its
    /// recency; fails naming the address when nothing is cached.
    pub fn get_nonce_at(&self, caches: &mut CacheRegistry, contract_address: ContractAddress) -> (r:
        Result<Nonce, StateError>)
        requires
            old(caches).wf(),
        ensures
            final(caches).wf(),
            final(caches).capacity() == old(caches).capacity(),
            final(caches).nonces() == touch(old(caches).nonces(), contract_address),
            final(caches).classes() == old(caches).classes(),
            final(caches).storage() == old(caches).storage(),
            final(caches).class_hashes() == old(caches).class_hashes(),
            final(caches).compiled_class_hashes() == old(caches).compiled_class_hashes(),
            r == (match lookup(old(caches).nonces(), contract_address) {
                Some(n) => Ok::<Nonce, StateError>(n),
                None => Err(StateError::NonceRead { contract_address }),
            }),
    {
        let got = felt_cache_get(&mut caches.nonce_cache, &contract_address);
        proof {
            lemma_touch(old(caches).nonces(), contract_address);
        }
        match got {
            Some(nonce) => Ok(nonce),
            None => Err(StateError::NonceRead { contract_address }),
        }
    }

    /// Reads the class hash cached for `contract_address`, refreshing its
    /// recency; fails naming the address when nothing is cached.
    pub fn get_class_hash_at(
        &self,
        caches: &mut CacheRegistry,
        contract_address: ContractAddress,
    ) -> (r: Result<ClassHash, StateError>)
        requires
            old(caches).wf(),
        ensures
            final(caches).wf(),
            final(caches).capacity() == old(caches).capacity(),
            final(caches).class_hashes() == touch(old(caches).class_hashes(), contract_address),
            final(caches).classes() == old(caches).classes(),
            final(caches).storage() == old(caches).storage(),
            final(caches).nonces() == old(caches).nonces(),
            final(caches).compiled_class_hashes() == old(caches).compiled_class_hashes(),
            r == (match lookup(old(caches).class_hashes(), contract_address) {
                Some(h) => Ok::<ClassHash, StateError>(h),
                None => Err(StateError::ClassHashRead { contract_address }),
            }),
    {
        let got = felt_cache_get(&mut caches.class_hash_cache, &contract_address);
        proof {
            lemma_touch(old(caches).class_hashes(), contract_address);
        }
        match got {
            Some(class_hash) => Ok(class_hash),
            None => Err(StateError::ClassHashRead { contract_address }),
        }
    }

    /// Reads the class definition recorded under `class_hash`, but only when
    /// the entry was recorded strictly below this adapter's view height; an
    /// absent entry and one not yet visible fail alike. A hit on the entry
    /// refreshes its recency even when it is not yet visible.
    pub fn get_compiled_contract_class(
        &self,
        caches: &mut CacheRegistry,
        class_hash: ClassHash,
    ) -> (r: Result<ContractClass, StateError>)
        requires
            old(caches).wf(),
        ensures
            final(caches).wf(),
            final(caches).capacity() == old(caches).capacity(),
            final(caches).classes() == touch(old(caches).classes(), class_hash),
            final(caches).storage() == old(caches).storage(),
            final(caches).class_hashes() == old(caches).class_hashes(),
            final(caches).nonces() == old(caches).nonces(),
            final(caches).compiled_class_hashes() == old(caches).compiled_class_hashes(),
            r == (match lookup(old(caches).classes(), class_hash) {
                Some(entry) => if entry.cached_on_height < self.height {
                    Ok::<ContractClass, StateError>(entry.definition)
                } else {
                    Err(StateError::UndeclaredClassHash { class_hash })
                },
                None => Err(StateError::UndeclaredClassHash { class_hash }),
            }),
    {
        let got = class_cache_get(&mut caches.class_cache, &class_hash);
        proof {
            lemma_touch(old(caches).classes(), class_hash);
        }
        match got {
            Some(entry) => if entry.cached_on_height < self.height {
                Ok(entry.definition)
            } else {
                Err(StateError::UndeclaredClassHash { class_hash })
            },
            None => Err(StateError::UndeclaredClassHash { class_hash }),
        }
    }

    /// Reads the compiled class hash cached for `class_hash`, refreshing its
    /// recency; fails as undeclared when nothing is cached.
    pub fn get_compiled_class_hash(&self, caches: &mut CacheRegistry, class_hash: ClassHash) -> (r:
        Result<CompiledClassHash, StateError>)
        requires
            old(caches).wf(),
        ensures
            final(caches).wf(),
            final(caches).capacity() == old(caches).capacity(),
            final(caches).compiled_class_hashes() == touch(
                old(caches).compiled_class_hashes(),
                class_hash,
            ),
            final(caches).classes() == old(caches).classes(),
            final(caches).storage() == old(caches).storage(),
            final(caches).class_hashes() == old(caches).class_hashes(),
            final(caches).nonces() == old(caches).nonces(),
            r == (match lookup(old(caches).compiled_class_hashes(), class_hash) {
                Some(h) => Ok::<CompiledClassHash, StateError>(h),
                None => Err(StateError::UndeclaredClassHash { class_hash }),
            }),
    {
        let got = felt_cache_get(&mut caches.compiled_class_hash_cache, &class_hash);
        proof {
            lemma_touch(old(caches).compiled_class_hashes(), class_hash);
        }
        match got {
            Some(compiled) => Ok(compiled),
            None => Err(StateError::UndeclaredClassHash { class_hash }),
        }
    }

    /// Writes `value` into slot `key` of `contract_address`,
    /// unconditionally overwriting; the entry becomes, or stays near, the
    /// most recently used, and a full cache drops its least recently used
    /// cell for a fresh slot.
    pub fn set_storage_at(
        &self,
        caches: &mut CacheRegistry,
        contract_address: ContractAddress,
        key: StorageKey,
        value: Felt,
    )
        requires
            old(caches).wf(),
        ensures
            final(caches).wf(),
            final(caches).capacity() == old(caches).capacity(),
            final(caches).storage() == put(
                old(caches).storage(),
                (contract_address, key),
                value,
                old(caches).capacity(),
            ),
            final(caches).classes() == old(caches).classes(),
            final(caches).class_hashes() == old(caches).class_hashes(),
            final(caches).nonces() == old(caches).nonces(),
            final(caches).compiled_class_hashes() == old(caches).compiled_class_hashes(),
    {
        let cell = (contract_address, key);
        storage_cache_set(&mut caches.storage_cache, cell, value);
        proof {
            lemma_put(old(caches).storage(), cell, value, old(caches).capacity());
        }
    }

    /// Steps the nonce of `contract_address`: reads the cached nonce
    /// (failing as a nonce read miss when there is none), fails when it
    /// leaves no room in the 64-bit counter, and otherwise writes back its
    /// successor. The read refreshes recency even on the failing paths.
    pub fn increment_nonce(&self, caches: &mut CacheRegistry, contract_address: ContractAddress) -> (r:
        Result<(), StateError>)
        requires
            old(caches).wf(),
        ensures
            final(caches).wf(),
            final(caches).capacity() == old(caches).capacity(),
            final(caches).classes() == old(caches).classes(),
            final(caches).storage() == old(caches).storage(),
            final(caches).class_hashes() == old(caches).class_hashes(),
            final(caches).compiled_class_hashes() == old(caches).compiled_class_hashes(),
            ({
                let touched = touch(old(caches).nonces(), contract_address);
                match lookup(old(caches).nonces(), contract_address) {
                    None => r == (Err::<(), StateError>(
                        StateError::NonceRead { contract_address },
                    )) && final(caches).nonces() == touched,
                    Some(nonce) => if nonce.value() < u64::MAX {
                        r == Ok::<(), StateError>(()) && final(caches).nonces() == put(
                            touched,
                            contract_address,
                            (Felt {
                                l0: (nonce.value() + 1) as u64,
                                l1: 0,
                                l2: 0,
                                l3: 0,
                            }),
                            old(caches).capacity(),
                        )
                    } else {
                        r == (Err::<(), StateError>(
                            StateError::NonceOutOfRange { contract_address },
                        )) && final(caches).nonces() == touched
                    },
                }
            }),
    {
        let got = felt_cache_get(&mut caches.nonce_cache, &contract_address);
        proof {
            lemma_touch(old(caches).nonces(), contract_address);
        }
        match got {
            None => Err(StateError::NonceRead { contract_address }),
            Some(current) => match current.to_u64() {
                None => Err(StateError::NonceOutOfRange { contract_address }),
                Some(n) => if n == u64::MAX {
                    Err(StateError::NonceOutOfRange { contract_address })
                } else {
                    let next = Felt::from_u64(n + 1);
                    let ghost touched = touch(old(caches).nonces(), contract_address);
                    felt_cache_set(&mut caches.nonce_cache, contract_address, next);
                    proof {
                        lemma_put(touched, contract_address, next, old(caches).capacity());
                    }
                    Ok(())
                },
            },
        }
    }

    /// Records `class_hash` as the class of `contract_address`,
    /// unconditionally overwriting.
    pub fn set_class_hash_at(
        &self,
        caches: &mut CacheRegistry,
        contract_address: ContractAddress,
        class_hash: ClassHash,
    ) -> (r: Result<(), StateError>)
        requires
            old(caches).wf(),
        ensures
            final(caches).wf(),
            final(caches).capacity() == old(caches).capacity(),
            final(caches).class_hashes() == put(
                old(caches).class_hashes(),
                contract_address,
                class_hash,
                old(caches).capacity(),
            ),
            final(caches).classes() == old(caches).classes(),
            final(caches).storage() == old(caches).storage(),
            final(caches).nonces() == old(caches).nonces(),
            final(caches).compiled_class_hashes() == old(caches).compiled_class_hashes(),
            r == Ok::<(), StateError>(()),
    {
        felt_cache_set(&mut caches.class_hash_cache, contract_address, class_hash);
        proof {
            lemma_put(
                old(caches).class_hashes(),
                contract_address,
                class_hash,
                old(caches).capacity(),
            );
        }
        Ok(())
    }

    /// Records a class definition under `class_hash` at height zero, so it
    /// is visible to every reader whose view height is one or more,
    /// whichever height declared it.
    pub fn set_contract_class(
        &self,
        caches: &mut CacheRegistry,
        class_hash: ClassHash,
        contract_class: ContractClass,
    ) -> (r: Result<(), StateError>)
        requires
            old(caches).wf(),
        ensures
            final(caches).wf(),
            final(caches).capacity() == old(caches).capacity(),
            final(caches).classes() == put(
                old(caches).classes(),
                class_hash,
                (CachedContractClass { definition: contract_class, cached_on_height: 0 }),
                old(caches).capacity(),
            ),
            final(caches).storage() == old(caches).storage(),
            final(caches).class_hashes() == old(caches).class_hashes(),
            final(caches).nonces() == old(caches).nonces(),
            final(caches).compiled_class_hashes() == old(caches).compiled_class_hashes(),
            r == Ok::<(), StateError>(()),
    {
        let entry = CachedContractClass { definition: contract_class, cached_on_height: 0 };
        let ghost entry_model = entry;
        class_cache_set(&mut caches.class_cache, class_hash, entry);
        proof {
            lemma_put(old(caches).classes(), class_hash, entry_model, old(caches).capacity());
        }
        Ok(())
    }

    /// Records `compiled_class_hash` for `class_hash`, unconditionally
    /// overwriting.
    pub fn set_compiled_class_hash(
        &self,
        caches: &mut CacheRegistry,
        class_hash: ClassHash,
        compiled_class_hash: CompiledClassHash,
    ) -> (r: Result<(), StateError>)
        requires
            old(caches).wf(),
        ensures
            final(caches).wf(),
            final(caches).capacity() == old(caches).capacity(),
            final(caches).compiled_class_hashes() == put(
                old(caches).compiled_class_hashes(),
                class_hash,
                compiled_class_hash,
                old(caches).capacity(),
            ),
            final(caches).classes() == old(caches).classes(),
            final(caches).storage() == old(caches).storage(),
            final(caches).class_hashes() == old(caches).class_hashes(),
            final(caches).nonces() == old(caches).nonces(),
            r == Ok::<(), StateError>(()),
    {
        felt_cache_set(&mut caches.compiled_class_hash_cache, class_hash, compiled_class_hash);
        proof {
            lemma_put(
                old(caches).compiled_class_hashes(),
                class_hash,
                compiled_class_hash,
                old(caches).capacity(),
            );
        }
        Ok(())
    }

    /// The commitment diff of the writes. Out of scope for this core: the
    /// call always fails and never fabricates a diff.
    pub fn to_state_diff(&self) -> (r: Result<(), StateError>)
        ensures
            r == (Err::<(), StateError>(StateError::StateDiffUnsupported)),
    {
        Err(StateError::StateDiffUnsupported)
    }
}

} // verus!
