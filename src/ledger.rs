//! The token ledger as this program sees it: snapshots of token slots, the two
//! calls the program issues, and what a call does to the slots it touches.
use vstd::prelude::*;

use crate::address::Address;

verus! {

/// A token-holding slot as read at the start of an instruction.
#[derive(Clone, Copy, Debug, PartialEq, Eq)]
pub struct TokenSlot {
    pub key: Address,
    pub mint: Address,
    pub authority: Address,
    pub amount: u64,
}

/// What the ledger records for one slot.
pub struct SlotState {
    pub mint: Seq<u8>,
    pub authority: Seq<u8>,
    pub amount: nat,
}

impl TokenSlot {
    pub open spec fn state(self) -> SlotState {
        SlotState { mint: self.mint@, authority: self.authority@, amount: self.amount as nat }
    }
}

/// A call into the token ledger, authorized by `authority`. When that is the
/// custody authority, the program signs for it with the derivation seed.
#[derive(Clone, Copy, Debug, PartialEq, Eq)]
pub enum LedgerOp {
    Transfer { from: Address, to: Address, amount: u64, authority: Address },
    SetAuthority { slot: Address, current: Address, new_authority: Address },
}

pub enum OpView {
    Transfer { from: Seq<u8>, to: Seq<u8>, amount: nat, authority: Seq<u8> },
    SetAuthority { slot: Seq<u8>, current: Seq<u8>, new_authority: Seq<u8> },
}

impl View for LedgerOp {
    type V = OpView;

    open spec fn view(&self) -> OpView {
        match *self {
            LedgerOp::Transfer { from, to, amount, authority } => OpView::Transfer {
                from: from@,
                to: to@,
                amount: amount as nat,
                authority: authority@,
            },
            LedgerOp::SetAuthority { slot, current, new_authority } => OpView::SetAuthority {
                slot: slot@,
                current: current@,
                new_authority: new_authority@,
            },
        }
    }
}

pub type Slots = Map<Seq<u8>, SlotState>;

/// One ledger call: a transfer needs both slots of one mint, the source's
/// authority and enough balance, and fails where the receiver would overflow;
/// an authority change needs the slot's current authority. `None` is a refusal.
pub open spec fn apply_op(slots: Slots, op: OpView) -> Option<Slots> {
    match op {
        OpView::Transfer { from, to, amount, authority } => {
            if !(slots.contains_key(from) && slots.contains_key(to)) {
                None
            } else if slots[from].authority != authority || slots[from].mint != slots[to].mint
                || slots[from].amount < amount {
                None
            } else if from == to {
                Some(slots)
            } else if slots[to].amount + amount > u64::MAX {
                None
            } else {
                let src = slots[from];
                let dst = slots[to];
                Some(
                    slots.insert(
                        from,
                        SlotState { mint: src.mint, authority: src.authority, amount: (src.amount - amount) as nat },
                    ).insert(
                        to,
                        SlotState { mint: dst.mint, authority: dst.authority, amount: dst.amount + amount },
                    ),
                )
            }
        },
        OpView::SetAuthority { slot, current, new_authority } => {
            if slots.contains_key(slot) && slots[slot].authority == current {
                let s = slots[slot];
                Some(slots.insert(slot, SlotState { mint: s.mint, authority: new_authority, amount: s.amount }))
            } else {
                None
            }
        },
    }
}

/// The calls of one instruction in order; the first refusal refuses them all.
pub open spec fn run_ops(slots: Slots, ops: Seq<OpView>) -> Option<Slots>
    decreases ops.len(),
{
    if ops.len() == 0 {
        Some(slots)
    } else {
        match apply_op(slots, ops[0]) {
            None => None,
            Some(next) => run_ops(next, ops.subrange(1, ops.len() as int)),
        }
    }
}

} // verus!
