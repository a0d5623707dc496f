//! The registry of agents: for each conversation one agent, made when the
//! conversation is first seen and shared by everyone who asks for it.

use crate::god::{God, GodConfig, Memory};
use std::collections::HashMap;
use std::sync::Arc;
use tokio::sync::RwLock;
use vstd::prelude::*;

verus! {

broadcast use vstd::std_specs::hash::group_hash_axioms;

/// The reader-writer lock that guards one agent. The library makes and
/// hands out such locks; taking one is left to the caller.
#[verifier::external_type_specification]
#[verifier::external_body]
#[verifier::reject_recursive_types(T)]
pub struct ExRwLock<T: ?Sized>(tokio::sync::RwLock<T>);

/// The agent that a lock was made to guard.
pub uninterp spec fn made_with(lock: RwLock<God>) -> God;

/// `RwLock::new`, which makes an unlocked lock that guards the value it
/// is given.
#[verifier::external_body]
fn new_lock(god: God) -> (lock: RwLock<God>)
    ensures
        made_with(lock) == god,
{
    RwLock::new(god)
}

/// `Arc::clone`, which hands out one more handle to the same lock.
#[verifier::external_body]
fn share(handle: &Arc<RwLock<God>>) -> (shared: Arc<RwLock<God>>)
    ensures
        shared == *handle,
{
    Arc::clone(handle)
}

/// The handles of a registry after a conversation was resolved with a
/// fresh handle at hand: the fresh one is taken only where there was none.
pub open spec fn resolved(
    handles: Map<u64, Arc<RwLock<God>>>,
    key: u64,
    fresh: Arc<RwLock<God>>,
) -> Map<u64, Arc<RwLock<God>>> {
    if handles.contains_key(key) {
        handles
    } else {
        handles.insert(key, fresh)
    }
}

/// The nursery allows to find the agent of a conversation.
#[derive(Debug)]
pub struct GodNursery {
    gods: HashMap<u64, Arc<RwLock<God>>>,
}

impl View for GodNursery {
    type V = Map<u64, Arc<RwLock<God>>>;

    closed spec fn view(&self) -> Map<u64, Arc<RwLock<God>>> {
        self.gods@
    }
}

impl GodNursery {
    /// A nursery without agents.
    pub fn new() -> (nursery: GodNursery)
        ensures
            nursery@ == Map::<u64, Arc<RwLock<God>>>::empty(),
    {
        GodNursery { gods: HashMap::new() }
    }

    /// The number of conversations that have an agent.
    pub fn len(&self) -> (n: usize)
        ensures
            n == self@.len(),
    {
        self.gods.len()
    }

    /// Whether a conversation has its agent.
    pub fn contains_key(&self, key: u64) -> (present: bool)
        ensures
            present == self@.contains_key(key),
    {
        self.gods.contains_key(&key)
    }

    /// The agent of a conversation, where it has one.
    pub fn get(&self, key: u64) -> (found: Option<Arc<RwLock<God>>>)
        ensures
            found.is_some() == self@.contains_key(key),
            found.is_some() ==> found.unwrap() == self@[key],
    {
        match self.gods.get(&key) {
            Some(handle) => Some(share(handle)),
            None => None,
        }
    }

    /// The agent of a conversation. Where the conversation has none yet,
    /// one is made, with the configuration that was stored for the
    /// conversation or else with a copy of the default one, and it stays
    /// the agent of this conversation from then on.
    pub fn get_or_create(
        &mut self,
        key: u64,
        loaded: Option<GodConfig>,
        default: &GodConfig,
    ) -> (handle: Arc<RwLock<God>>)
        ensures
            final(self)@ == resolved(old(self)@, key, handle),
            final(self)@.contains_key(key),
            handle == final(self)@[key],
            !old(self)@.contains_key(key) ==> made_with(*handle)@ == Memory::import(
                match loaded {
                    Some(config) => config@,
                    None => default@,
                },
            ),
    {
        match self.gods.get(&key) {
            Some(existing) => share(existing),
            None => {
                let handle = Arc::new(new_lock(God::from_loaded(loaded, default)));
                let shared = share(&handle);
                self.gods.insert(key, handle);
                shared
            },
        }
    }
}

/// At most one creation. Once a conversation is resolved, resolving it
/// again changes nothing: the handle that was stored first stays, and a
/// fresh one that comes later is never taken. The other conversations
/// keep their handles throughout.
pub proof fn resolved_once(
    handles: Map<u64, Arc<RwLock<God>>>,
    key: u64,
    first: Arc<RwLock<God>>,
    second: Arc<RwLock<God>>,
)
    ensures
        resolved(resolved(handles, key, first), key, second) == resolved(handles, key, first),
        resolved(handles, key, first).contains_key(key),
        forall|k: u64| #[trigger]
            handles.contains_key(k) ==> resolved(handles, key, first).contains_key(k) && resolved(
                handles,
                key,
                first,
            )[k] == handles[k],
{
}

} // verus!
