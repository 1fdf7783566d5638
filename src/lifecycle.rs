//! What the escrow guarantees over the ledger: each instruction is applied as
//! one unit to the slots and the record, and the laws below hold of every
//! sequence of instructions the host runs.
use vstd::prelude::*;

use crate::authority::custody_authority;
use crate::escrow::{
    cancel_airdrop_outcome, get_airdrop_outcome, initialize_outcome, record_view, CancelAirdrop,
    EscrowError, GetAirdrop, InitializeAirdrop, PlanView, RecordEffectView, RecordView,
};
use crate::ledger::{run_ops, Slots, TokenSlot};

verus! {

/// The token slots of the ledger, and the escrow record if one exists.
pub struct World {
    pub slots: Slots,
    pub record: Option<RecordView>,
}

/// An instruction succeeds when it is accepted and the ledger performs all of
/// its calls.
pub open spec fn succeeds(w: World, outcome: Result<PlanView, EscrowError>) -> bool {
    outcome is Ok && run_ops(w.slots, outcome->Ok_0.ops) is Some
}

/// The world after an instruction: all of it on success, nothing otherwise.
pub open spec fn settle(w: World, outcome: Result<PlanView, EscrowError>) -> World {
    if succeeds(w, outcome) {
        World {
            slots: run_ops(w.slots, outcome->Ok_0.ops)->Some_0,
            record: match outcome->Ok_0.record {
                RecordEffectView::Create(r) => Some(r),
                RecordEffectView::Close(_) => None,
            },
        }
    } else {
        w
    }
}

/// The snapshot `s` is what the ledger holds for its slot.
pub open spec fn holds_slot(w: World, s: TokenSlot) -> bool {
    w.slots.contains_key(s.key@) && w.slots[s.key@] == s.state()
}

/// Creation with a claim amount above the deposit is refused as a
/// precondition violation and leaves the world, record included, unchanged.
pub proof fn lemma_create_amount_order(
    w: World,
    program_id: Seq<u8>,
    a: InitializeAirdrop,
    airdrop_amount: u64,
    withdraw_amount: u64,
)
    requires
        withdraw_amount > airdrop_amount,
    ensures
        initialize_outcome(program_id, a, airdrop_amount, withdraw_amount) == Err::<PlanView, EscrowError>(
            EscrowError::PreconditionViolation,
        ),
        settle(w, initialize_outcome(program_id, a, airdrop_amount, withdraw_amount)) == w,
{
}

/// After a successful creation the custody slot is controlled by the derived
/// custody authority, which is not the initializer's key; it holds the deposit
/// on top of what it held, and the stored record's claim amount does not
/// exceed the deposit.
pub proof fn lemma_create_captures_custody(
    w: World,
    program_id: Seq<u8>,
    a: InitializeAirdrop,
    airdrop_amount: u64,
    withdraw_amount: u64,
)
    requires
        holds_slot(w, a.airdrop_token_account),
        succeeds(w, initialize_outcome(program_id, a, airdrop_amount, withdraw_amount)),
    ensures
        custody_authority(program_id) is Some,
        ({
            let w2 = settle(w, initialize_outcome(program_id, a, airdrop_amount, withdraw_amount));
            let custody = a.airdrop_token_account.key@;
            let authority = custody_authority(program_id)->Some_0.0;
            &&& w2.slots.contains_key(custody)
            &&& w2.slots[custody].authority == authority
            &&& authority != a.initializer.key@
            &&& w2.slots[custody].amount == a.airdrop_token_account.amount + airdrop_amount
            &&& w2.record == Some(
                RecordView {
                    initializer: a.initializer.key@,
                    deposit_slot: a.initializer_deposit_token_account.key@,
                    custody_slot: custody,
                    withdraw_amount: withdraw_amount as nat,
                },
            )
            &&& withdraw_amount <= airdrop_amount
            &&& a.initializer_deposit_token_account.key@ != custody
        }),
{
    let outcome = initialize_outcome(program_id, a, airdrop_amount, withdraw_amount);
    let ops = outcome->Ok_0.ops;
    assert(ops.subrange(1, 2) =~= seq![ops[1]]);
    assert(ops.subrange(1, 2).subrange(1, 1) =~= Seq::<crate::ledger::OpView>::empty());
    reveal_with_fuel(run_ops, 3);
}

/// After a successful claim the taker's slot holds exactly the record's claim
/// amount more, the custody slot that much less, and the record is gone.
pub proof fn lemma_claim_pays_taker(w: World, program_id: Seq<u8>, a: GetAirdrop)
    requires
        holds_slot(w, a.taker_receive_token_account),
        holds_slot(w, a.airdrop_token_account),
        record_view(a.airdrop_account) == w.record,
        succeeds(w, get_airdrop_outcome(program_id, a)),
    ensures
        w.record is Some,
        ({
            let w2 = settle(w, get_airdrop_outcome(program_id, a));
            let receive = a.taker_receive_token_account.key@;
            let custody = a.airdrop_token_account.key@;
            let amount = w.record->Some_0.withdraw_amount;
            &&& w2.slots[receive].amount == w.slots[receive].amount + amount
            &&& w2.slots[custody].amount == w.slots[custody].amount - amount
            &&& w2.record is None
        }),
{
    let ops = get_airdrop_outcome(program_id, a)->Ok_0.ops;
    assert(ops.subrange(1, 1) =~= Seq::<crate::ledger::OpView>::empty());
    reveal_with_fuel(run_ops, 2);
}

/// After a successful cancel the whole custody balance is back in the
/// initializer's slot, whose authority is unchanged, the custody slot is
/// empty, and the record is gone. It is stated of records whose deposit and
/// custody slots differ, as creation makes them.
pub proof fn lemma_cancel_refunds_initializer(w: World, program_id: Seq<u8>, a: CancelAirdrop)
    requires
        holds_slot(w, a.initializer_deposit_token_account),
        holds_slot(w, a.airdrop_token_account),
        record_view(a.airdrop_account) == w.record,
        w.record is Some ==> w.record->Some_0.deposit_slot != w.record->Some_0.custody_slot,
        succeeds(w, cancel_airdrop_outcome(program_id, a)),
    ensures
        ({
            let w2 = settle(w, cancel_airdrop_outcome(program_id, a));
            let source = a.initializer_deposit_token_account.key@;
            let custody = a.airdrop_token_account.key@;
            &&& w2.slots[source].amount == w.slots[source].amount + w.slots[custody].amount
            &&& w2.slots[source].authority == w.slots[source].authority
            &&& w2.slots[custody].amount == 0
            &&& w2.record is None
        }),
{
    let ops = cancel_airdrop_outcome(program_id, a)->Ok_0.ops;
    assert(ops.subrange(1, 1) =~= Seq::<crate::ledger::OpView>::empty());
    reveal_with_fuel(run_ops, 2);
}

/// A cancel by anyone but the record's initializer is refused as
/// unauthorized and leaves the world, record included, unchanged.
pub proof fn lemma_cancel_by_stranger(w: World, program_id: Seq<u8>, a: CancelAirdrop)
    requires
        a.airdrop_account is Some,
        a.initializer.key@ != a.airdrop_account->Some_0.initializer_key@,
    ensures
        cancel_airdrop_outcome(program_id, a) == Err::<PlanView, EscrowError>(EscrowError::Unauthorized),
        settle(w, cancel_airdrop_outcome(program_id, a)) == w,
{
}

/// A creation the program accepts is carried out by the ledger when the
/// initializer controls its slot, both slots hold one mint, and the custody
/// slot has room for the deposit.
pub proof fn lemma_accepted_create_succeeds(
    w: World,
    program_id: Seq<u8>,
    a: InitializeAirdrop,
    airdrop_amount: u64,
    withdraw_amount: u64,
)
    requires
        holds_slot(w, a.initializer_deposit_token_account),
        holds_slot(w, a.airdrop_token_account),
        initialize_outcome(program_id, a, airdrop_amount, withdraw_amount) is Ok,
        a.initializer_deposit_token_account.authority@ == a.initializer.key@,
        a.airdrop_token_account.authority@ == a.initializer.key@,
        a.initializer_deposit_token_account.mint@ == a.airdrop_token_account.mint@,
        a.airdrop_token_account.amount + airdrop_amount <= u64::MAX,
    ensures
        succeeds(w, initialize_outcome(program_id, a, airdrop_amount, withdraw_amount)),
{
    let ops = initialize_outcome(program_id, a, airdrop_amount, withdraw_amount)->Ok_0.ops;
    assert(ops.subrange(1, 2) =~= seq![ops[1]]);
    assert(ops.subrange(1, 2).subrange(1, 1) =~= Seq::<crate::ledger::OpView>::empty());
    reveal_with_fuel(run_ops, 3);
}

/// A claim the program accepts is carried out by the ledger when the custody
/// slot is under the custody authority and holds the claim amount, and the
/// taker's slot has room for it.
pub proof fn lemma_accepted_claim_succeeds(w: World, program_id: Seq<u8>, a: GetAirdrop)
    requires
        holds_slot(w, a.taker_receive_token_account),
        holds_slot(w, a.airdrop_token_account),
        get_airdrop_outcome(program_id, a) is Ok,
        custody_authority(program_id) is Some,
        a.airdrop_token_account.authority@ == custody_authority(program_id)->Some_0.0,
        a.airdrop_account is Some ==> a.airdrop_account->Some_0.withdraw_amount <= a.airdrop_token_account.amount,
        a.airdrop_account is Some ==> a.taker_receive_token_account.amount
            + a.airdrop_account->Some_0.withdraw_amount <= u64::MAX,
    ensures
        succeeds(w, get_airdrop_outcome(program_id, a)),
{
    let ops = get_airdrop_outcome(program_id, a)->Ok_0.ops;
    assert(ops.subrange(1, 1) =~= Seq::<crate::ledger::OpView>::empty());
    reveal_with_fuel(run_ops, 2);
}

/// A cancel the program accepts is carried out by the ledger when the custody
/// slot is under the custody authority, both slots hold one mint, and the
/// initializer's slot has room for the refund.
pub proof fn lemma_accepted_cancel_succeeds(w: World, program_id: Seq<u8>, a: CancelAirdrop)
    requires
        holds_slot(w, a.initializer_deposit_token_account),
        holds_slot(w, a.airdrop_token_account),
        cancel_airdrop_outcome(program_id, a) is Ok,
        custody_authority(program_id) is Some,
        a.airdrop_token_account.authority@ == custody_authority(program_id)->Some_0.0,
        a.initializer_deposit_token_account.mint@ == a.airdrop_token_account.mint@,
        a.initializer_deposit_token_account.amount + a.airdrop_token_account.amount <= u64::MAX,
    ensures
        succeeds(w, cancel_airdrop_outcome(program_id, a)),
{
    let ops = cancel_airdrop_outcome(program_id, a)->Ok_0.ops;
    assert(ops.subrange(1, 1) =~= Seq::<crate::ledger::OpView>::empty());
    reveal_with_fuel(run_ops, 2);
}

/// Cancel undoes creation. When the initializer cancels right after a
/// successful creation, naming the same two slots as creation left them, the
/// cancel is accepted; the ledger carries it out whenever the initializer's
/// slot has room for both balances; and then the initializer's slot holds its
/// balance from before creation plus what the custody slot held before
/// creation, under the same authority, the custody slot is empty, and no
/// record remains.
pub proof fn lemma_cancel_undoes_create(
    w: World,
    program_id: Seq<u8>,
    a: InitializeAirdrop,
    airdrop_amount: u64,
    withdraw_amount: u64,
    c: CancelAirdrop,
)
    requires
        holds_slot(w, a.initializer_deposit_token_account),
        holds_slot(w, a.airdrop_token_account),
        succeeds(w, initialize_outcome(program_id, a, airdrop_amount, withdraw_amount)),
        c.initializer.is_signer,
        c.initializer.key@ == a.initializer.key@,
        c.initializer_deposit_token_account.key@ == a.initializer_deposit_token_account.key@,
        c.airdrop_token_account.key@ == a.airdrop_token_account.key@,
        holds_slot(settle(w, initialize_outcome(program_id, a, airdrop_amount, withdraw_amount)), c.initializer_deposit_token_account),
        holds_slot(settle(w, initialize_outcome(program_id, a, airdrop_amount, withdraw_amount)), c.airdrop_token_account),
        record_view(c.airdrop_account) == settle(w, initialize_outcome(program_id, a, airdrop_amount, withdraw_amount)).record,
    ensures
        ({
            let w2 = settle(w, initialize_outcome(program_id, a, airdrop_amount, withdraw_amount));
            let w3 = settle(w2, cancel_airdrop_outcome(program_id, c));
            let source = a.initializer_deposit_token_account.key@;
            let custody = a.airdrop_token_account.key@;
            &&& cancel_airdrop_outcome(program_id, c) is Ok
            &&& w.slots[source].amount + w.slots[custody].amount <= u64::MAX ==> succeeds(
                w2,
                cancel_airdrop_outcome(program_id, c),
            )
            &&& succeeds(w2, cancel_airdrop_outcome(program_id, c)) ==> {
                &&& w3.slots[source].amount == w.slots[source].amount + w.slots[custody].amount
                &&& w3.slots[source].authority == w.slots[source].authority
                &&& w3.slots[custody].amount == 0
                &&& w3.record is None
            }
        }),
{
    let create = initialize_outcome(program_id, a, airdrop_amount, withdraw_amount);
    let ops = create->Ok_0.ops;
    assert(ops.subrange(1, 2) =~= seq![ops[1]]);
    assert(ops.subrange(1, 2).subrange(1, 1) =~= Seq::<crate::ledger::OpView>::empty());
    let cancel = cancel_airdrop_outcome(program_id, c);
    lemma_create_captures_custody(w, program_id, a, airdrop_amount, withdraw_amount);
    reveal_with_fuel(run_ops, 3);
    let w2 = settle(w, create);
    assert(cancel is Ok);
    if w.slots[a.initializer_deposit_token_account.key@].amount + w.slots[a.airdrop_token_account.key@].amount
        <= u64::MAX {
        lemma_accepted_cancel_succeeds(w2, program_id, c);
    }
    if succeeds(w2, cancel) {
        lemma_cancel_refunds_initializer(w2, program_id, c);
    }
}

/// One claim or cancel against the record, as the host runs it.
pub enum Attempt {
    Claim(GetAirdrop),
    Cancel(CancelAirdrop),
}

pub open spec fn attempt_outcome(program_id: Seq<u8>, at: Attempt) -> Result<PlanView, EscrowError> {
    match at {
        Attempt::Claim(a) => get_airdrop_outcome(program_id, a),
        Attempt::Cancel(a) => cancel_airdrop_outcome(program_id, a),
    }
}

pub open spec fn attempt_record(at: Attempt) -> Option<RecordView> {
    match at {
        Attempt::Claim(a) => record_view(a.airdrop_account),
        Attempt::Cancel(a) => record_view(a.airdrop_account),
    }
}

/// Each attempt read the record as it stood when the host ran it.
pub open spec fn reads_current_record(w: World, program_id: Seq<u8>, ats: Seq<Attempt>) -> bool
    decreases ats.len(),
{
    ats.len() == 0 || (attempt_record(ats[0]) == w.record && reads_current_record(
        settle(w, attempt_outcome(program_id, ats[0])),
        program_id,
        ats.drop_first(),
    ))
}

/// How many of the attempts succeed, run one after another from `w`.
pub open spec fn successes(w: World, program_id: Seq<u8>, ats: Seq<Attempt>) -> nat
    decreases ats.len(),
{
    if ats.len() == 0 {
        0
    } else {
        let o = attempt_outcome(program_id, ats[0]);
        (if succeeds(w, o) { 1nat } else { 0nat }) + successes(settle(w, o), program_id, ats.drop_first())
    }
}

/// Once the record is gone, every claim and cancel is refused as not found
/// and changes nothing.
pub proof fn lemma_no_record_not_found(w: World, program_id: Seq<u8>, ats: Seq<Attempt>)
    requires
        w.record is None,
        reads_current_record(w, program_id, ats),
    ensures
        successes(w, program_id, ats) == 0,
        forall|i: int|
            0 <= i < ats.len() ==> #[trigger] attempt_outcome(program_id, ats[i]) == Err::<PlanView, EscrowError>(
                EscrowError::NotFound,
            ),
    decreases ats.len(),
{
    if ats.len() > 0 {
        let rest = ats.drop_first();
        lemma_no_record_not_found(w, program_id, rest);
        assert forall|i: int| 0 <= i < ats.len() implies #[trigger] attempt_outcome(program_id, ats[i])
            == Err::<PlanView, EscrowError>(EscrowError::NotFound) by {
            if i > 0 {
                assert(ats[i] == rest[i - 1]);
            }
        }
    }
}

/// No double spend: of any number of claims and cancels against one record,
/// at most one succeeds.
pub proof fn lemma_no_double_spend(w: World, program_id: Seq<u8>, ats: Seq<Attempt>)
    requires
        reads_current_record(w, program_id, ats),
    ensures
        successes(w, program_id, ats) <= 1,
    decreases ats.len(),
{
    if ats.len() > 0 {
        let o = attempt_outcome(program_id, ats[0]);
        let rest = ats.drop_first();
        if succeeds(w, o) {
            lemma_no_record_not_found(settle(w, o), program_id, rest);
        } else {
            lemma_no_double_spend(w, program_id, rest);
        }
    }
}

} // verus!
