//! The replay ledger: the record of every incoming message that has been
//! applied. A record is written once and stays.

use vstd::prelude::*;
use std::collections::HashMap;
use std::collections::hash_map::Entry;
use crate::error::CustomError;
use crate::state::{Received, ReceivedView};

verus! {

/// Every record keeps a message of bounded length.
pub open spec fn ledger_wf(records: Map<(u16, u64), ReceivedView>) -> bool {
    forall|key: (u16, u64)| #[trigger] records.contains_key(key) ==> records[key].wf()
}

/// The number under which the record of `(chain, sequence)` is filed: the
/// chain in the bits above the sequence.
spec fn slot_of(chain: u16, sequence: u64) -> u128 {
    (chain as u128 * 0x1_0000_0000_0000_0000 + sequence as u128) as u128
}

/// The applied messages, by chain and sequence.
#[derive(Debug)]
pub struct ReplayLedger {
    records: HashMap<u128, Received>,
}

impl View for ReplayLedger {
    type V = Map<(u16, u64), ReceivedView>;

    /// The record of each `(chain, sequence)` that has been applied.
    closed spec fn view(&self) -> Map<(u16, u64), ReceivedView> {
        Map::new(
            |key: (u16, u64)| self.records@.contains_key(slot_of(key.0, key.1)),
            |key: (u16, u64)| self.records@[slot_of(key.0, key.1)]@,
        )
    }
}

impl ReplayLedger {
    /// Every record is within bounds.
    pub open spec fn wf(&self) -> bool {
        ledger_wf(self@)
    }

    /// A ledger without any record.
    pub fn new() -> (ledger: ReplayLedger)
        ensures
            ledger@ == Map::<(u16, u64), ReceivedView>::empty(),
            ledger.wf(),
    {
        let ledger = ReplayLedger { records: HashMap::new() };
        assert(ledger@ =~= Map::<(u16, u64), ReceivedView>::empty());
        ledger
    }

    fn slot(chain: u16, sequence: u64) -> (slot: u128)
        ensures
            slot == slot_of(chain, sequence),
    {
        chain as u128 * 0x1_0000_0000_0000_0000 + sequence as u128
    }

    /// Files `record` under `(chain, sequence)` unless that place is taken.
    /// The test and the write are one step. Where a record stands already,
    /// the call fails with [`CustomError::DuplicateMessage`] and the ledger
    /// stays as it is.
    pub fn record_once(&mut self, chain: u16, sequence: u64, record: Received) -> (out: Result<
        (),
        CustomError,
    >)
        requires
            old(self).wf(),
            record@.wf(),
        ensures
            out is Err <==> old(self)@.contains_key((chain, sequence)),
            out is Err ==> out->Err_0 == CustomError::DuplicateMessage,
            out is Err ==> final(self)@ == old(self)@,
            out is Ok ==> final(self)@ == old(self)@.insert((chain, sequence), record@),
            final(self).wf(),
    {
        let ghost filed = record@;
        let out = match self.records.entry(Self::slot(chain, sequence)) {
            Entry::Occupied(_) => Err(CustomError::DuplicateMessage),
            Entry::Vacant(place) => {
                place.insert(record);
                Ok(())
            },
        };
        proof {
            if out is Ok {
                assert(self@ =~= old(self)@.insert((chain, sequence), filed));
            } else {
                assert(self@ =~= old(self)@);
            }
        }
        out
    }

    /// Whether the message `(chain, sequence)` has been applied.
    pub fn contains(&self, chain: u16, sequence: u64) -> (applied: bool)
        ensures
            applied == self@.contains_key((chain, sequence)),
    {
        self.records.contains_key(&Self::slot(chain, sequence))
    }

    /// The record of the message `(chain, sequence)`, if it has been applied.
    pub fn get(&self, chain: u16, sequence: u64) -> (found: Option<&Received>)
        ensures
            found is Some <==> self@.contains_key((chain, sequence)),
            found is Some ==> found->0@ == self@[(chain, sequence)],
    {
        self.records.get(&Self::slot(chain, sequence))
    }
}

} // verus!
