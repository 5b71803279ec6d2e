//! The ledger environment a contract runs in: the current ledger sequence,
//! the accounts it has handed out, and the storage of the randomness
//! ceremony sessions.

use vstd::prelude::*;
use std::collections::HashMap;
use crate::mpc::MpcSession;
use crate::types::Address;

verus! {

broadcast use vstd::std_specs::hash::group_hash_axioms;

pub struct Env {
    /// The current ledger sequence number.
    pub sequence: u32,
    /// The id the next generated account receives.
    pub next_address: u64,
    /// Randomness ceremony sessions, by id.
    pub mpc_sessions: HashMap<u32, MpcSession>,
    /// The id the next ceremony session receives.
    pub mpc_next_id: u32,
}

impl Env {
    /// A fresh ledger at sequence 0 with no accounts and no sessions.
    pub fn new() -> (e: Env)
        ensures
            e.sequence == 0,
            e.next_address == 1,
            e.mpc_sessions@ == Map::<u32, MpcSession>::empty(),
            e.mpc_next_id == 1,
    {
        Env { sequence: 0, next_address: 1, mpc_sessions: HashMap::new(), mpc_next_id: 1 }
    }

    /// The current ledger sequence number.
    pub fn ledger_sequence(&self) -> (s: u32)
        ensures
            s == self.sequence,
    {
        self.sequence
    }

    /// Closes `n` ledgers (the sequence stops at its maximum).
    pub fn advance_ledger(&mut self, n: u32)
        ensures
            final(self).sequence == (if old(self).sequence + n <= u32::MAX {
                (old(self).sequence + n) as u32
            } else {
                u32::MAX
            }),
            final(self).next_address == old(self).next_address,
            final(self).mpc_sessions@ == old(self).mpc_sessions@,
            final(self).mpc_next_id == old(self).mpc_next_id,
    {
        self.sequence = self.sequence.saturating_add(n);
    }

    /// Hands out a new account, distinct from every one handed out before.
    pub fn generate_address(&mut self) -> (a: Address)
        requires
            old(self).next_address < u64::MAX,
        ensures
            a.id == old(self).next_address,
            final(self).next_address == old(self).next_address + 1,
            final(self).sequence == old(self).sequence,
            final(self).mpc_sessions@ == old(self).mpc_sessions@,
            final(self).mpc_next_id == old(self).mpc_next_id,
    {
        let a = Address { id: self.next_address };
        self.next_address = self.next_address + 1;
        a
    }
}

impl Default for Env {
    fn default() -> (e: Env)
        ensures
            e.sequence == 0,
            e.next_address == 1,
            e.mpc_sessions@ == Map::<u32, MpcSession>::empty(),
            e.mpc_next_id == 1,
    {
        Env::new()
    }
}

} // verus!
