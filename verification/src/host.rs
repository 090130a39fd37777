//! The contract's surroundings as plain values.
//!
//! A contract call reads the ledger position and the stored entries it needs, decides, and leaves
//! behind the new entries together with the list of effects that the ledger must perform.

use crate::table::Key;
use vstd::prelude::*;

verus! {

/// What an address stands for on the ledger.
#[derive(Clone, Copy, Debug, PartialEq, Eq, Structural)]
pub enum AddressKind {
    /// A classic account, named by its public key.
    Account,
    /// A contract instance, named by its contract id.
    Contract,
}

/// A ledger address: its kind and its 256-bit payload, most significant half first.
#[derive(Clone, Copy, Debug, PartialEq, Eq, Structural)]
pub struct Address {
    pub kind: AddressKind,
    pub hi: u128,
    pub lo: u128,
}

impl View for Address {
    type V = Address;

    open spec fn view(&self) -> Address {
        *self
    }
}

impl Key for Address {
    fn same(&self, other: &Address) -> (b: bool) {
        *self == *other
    }
}

/// The position of the ledger at which a call runs.
#[derive(Clone, Copy, Debug, PartialEq, Eq, Structural)]
pub struct Ledger {
    /// Sequence number of the ledger block.
    pub sequence: u32,
    /// Close time of the ledger block, in seconds.
    pub timestamp: u64,
}

/// A token movement: `amount` of `token` goes from `from` to `to`.
#[derive(Clone, Copy, Debug, PartialEq, Eq, Structural)]
pub struct Transfer {
    pub token: Address,
    pub from: Address,
    pub to: Address,
    pub amount: i128,
}

/// One thing that a call asks of the ledger. `K` names stored entries, `E` is the contract's
/// event type.
#[derive(Debug, PartialEq, Eq)]
pub enum Effect<K, E> {
    /// The call goes no further unless this address has authorized it.
    RequireAuth(Address),
    /// Tokens move.
    Transfer(Transfer),
    /// The entry under this key takes the value that the storage now holds for it.
    Write(K),
    /// The lifetime of the entry under this key is extended.
    ExtendTtl(K),
    /// An event is published.
    Publish(E),
}

/// What a contract call works on: where the ledger stands, the contract's own address, its
/// stored entries, and the effects asked for so far, in order.
pub struct Env<S, K, E> {
    pub ledger: Ledger,
    pub contract: Address,
    pub storage: S,
    pub effects: Vec<Effect<K, E>>,
}

impl<S, K, E> Env<S, K, E> {
    /// An environment in which no effect has been asked for yet.
    pub fn new(ledger: Ledger, contract: Address, storage: S) -> (env: Self)
        ensures
            env.ledger == ledger,
            env.contract == contract,
            env.storage == storage,
            env.effects@ == Seq::<Effect<K, E>>::empty(),
    {
        Env { ledger, contract, storage, effects: Vec::new() }
    }

    /// The two environments stand at the same place: only stored entries and effects may differ.
    pub open spec fn same_place(self, other: Self) -> bool {
        self.ledger == other.ledger && self.contract == other.contract
    }

    /// Asks for one more effect.
    pub fn emit(&mut self, effect: Effect<K, E>)
        ensures
            final(self).same_place(*old(self)),
            final(self).storage == old(self).storage,
            final(self).effects@ == old(self).effects@.push(effect),
    {
        self.effects.push(effect);
    }
}

/// What a transfer adds to the holdings of `holder` in `token`.
pub open spec fn inflow_of(transfer: Transfer, holder: Address, token: Address) -> int {
    if transfer.token != token {
        0
    } else {
        (if transfer.to == holder {
            transfer.amount as int
        } else {
            0
        }) - (if transfer.from == holder {
            transfer.amount as int
        } else {
            0
        })
    }
}

/// What a list of effects adds to the holdings of `holder` in `token`.
pub open spec fn net_inflow<K, E>(
    effects: Seq<Effect<K, E>>,
    holder: Address,
    token: Address,
) -> int
    decreases effects.len(),
{
    if effects.len() == 0 {
        0
    } else {
        net_inflow(effects.drop_last(), holder, token) + (match effects.last() {
            Effect::Transfer(transfer) => inflow_of(transfer, holder, token),
            _ => 0,
        })
    }
}

/// Two environments stand at the same place exactly when ledger block, time and contract agree.
pub proof fn law_same_place<S, K, E>(a: Env<S, K, E>, b: Env<S, K, E>)
    ensures
        a.same_place(b) <==> {
            &&& a.ledger.sequence == b.ledger.sequence
            &&& a.ledger.timestamp == b.ledger.timestamp
            &&& a.contract == b.contract
        },
{
}

/// A transfer adds its amount to the holdings of its receiver and takes as much from its sender,
/// in its own token, and changes no other holdings.
pub proof fn law_transfer_moves_holdings(transfer: Transfer, holder: Address, token: Address)
    ensures
        transfer.from != transfer.to ==> {
            &&& inflow_of(transfer, transfer.to, transfer.token) == transfer.amount
            &&& inflow_of(transfer, transfer.from, transfer.token) == -transfer.amount
        },
        token != transfer.token || (holder != transfer.from && holder != transfer.to) ==> inflow_of(
            transfer,
            holder,
            token,
        ) == 0,
{
}

} // verus!
