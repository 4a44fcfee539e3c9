//! The registry of trusted emitters: for each foreign chain, the one address
//! whose messages the bridge accepts.

use vstd::prelude::*;
use std::collections::HashMap;
use crate::state::{valid_foreign_emitter, ForeignEmitter};
use crate::wire::same_address;

verus! {

/// Every registered address may stand in the registry under its chain.
pub open spec fn registry_wf(emitters: Map<u16, [u8; 32]>) -> bool {
    forall|chain: u16| #[trigger]
        emitters.contains_key(chain) ==> valid_foreign_emitter(chain, emitters[chain])
}

/// The trusted emitters, one per foreign chain.
#[derive(Debug)]
pub struct EmitterRegistry {
    emitters: HashMap<u16, [u8; 32]>,
}

impl View for EmitterRegistry {
    type V = Map<u16, [u8; 32]>;

    /// The registered address of each chain that has one.
    closed spec fn view(&self) -> Map<u16, [u8; 32]> {
        self.emitters@
    }
}

impl EmitterRegistry {
    /// Every entry is a valid foreign emitter.
    pub open spec fn wf(&self) -> bool {
        registry_wf(self@)
    }

    /// A registry without any emitter.
    pub fn new() -> (registry: EmitterRegistry)
        ensures
            registry@ == Map::<u16, [u8; 32]>::empty(),
            registry.wf(),
    {
        EmitterRegistry { emitters: HashMap::new() }
    }

    /// Puts `emitter` in the place of its chain, whether or not the chain
    /// had an emitter before. No other chain is touched.
    pub fn insert(&mut self, emitter: ForeignEmitter)
        requires
            old(self).wf(),
            emitter.wf(),
        ensures
            final(self)@ == old(self)@.insert(emitter.chain, emitter.address),
            final(self).wf(),
    {
        self.emitters.insert(emitter.chain, emitter.address);
    }

    /// The emitter registered for `chain`, if there is one.
    pub fn get(&self, chain: u16) -> (found: Option<ForeignEmitter>)
        ensures
            found is Some <==> self@.contains_key(chain),
            found is Some ==> found->0 == (ForeignEmitter { chain, address: self@[chain] }),
    {
        match self.emitters.get(&chain) {
            Some(address) => Some(ForeignEmitter { chain, address: *address }),
            None => None,
        }
    }

    /// Whether `address` is the emitter registered for `chain`: the chain
    /// has an emitter, and its address is `address`, byte for byte.
    pub fn verify(&self, chain: u16, address: &[u8; 32]) -> (trusted: bool)
        ensures
            trusted == (self@.contains_key(chain) && self@[chain] == *address),
    {
        match self.emitters.get(&chain) {
            Some(registered) => same_address(address, registered),
            None => false,
        }
    }
}

} // verus!
