//! The escrow state machine: creation, claim and cancellation of one record.
use vstd::prelude::*;

use crate::address::Address;
use crate::authority::{custody_authority, derive_custody_authority};
use crate::ledger::{LedgerOp, OpView, TokenSlot};

verus! {

/// The persisted escrow record. Every field is written once, at creation.
#[derive(Clone, Copy, Debug, PartialEq, Eq)]
pub struct AirdropAccount {
    pub initializer_key: Address,
    pub initializer_deposit_token_account: Address,
    pub airdrop_token_account: Address,
    pub withdraw_amount: u64,
}

pub struct RecordView {
    pub initializer: Seq<u8>,
    pub deposit_slot: Seq<u8>,
    pub custody_slot: Seq<u8>,
    pub withdraw_amount: nat,
}

impl View for AirdropAccount {
    type V = RecordView;

    open spec fn view(&self) -> RecordView {
        RecordView {
            initializer: self.initializer_key@,
            deposit_slot: self.initializer_deposit_token_account@,
            custody_slot: self.airdrop_token_account@,
            withdraw_amount: self.withdraw_amount as nat,
        }
    }
}

impl AirdropAccount {
    /// Bytes of the persisted fields: three identities and the claim amount.
    pub const LEN: usize = 32 + 32 + 32 + 8;
}

pub open spec fn record_view(r: Option<AirdropAccount>) -> Option<RecordView> {
    match r {
        Some(rec) => Some(rec@),
        None => None,
    }
}

/// The party that invokes an instruction, and whether it signed it.
#[derive(Clone, Copy, Debug, PartialEq, Eq)]
pub struct Caller {
    pub key: Address,
    pub is_signer: bool,
}

/// Why an instruction is refused. Nothing is changed on any refusal.
#[derive(Clone, Copy, Debug, PartialEq, Eq, Structural)]
pub enum EscrowError {
    /// Amounts out of order, a short balance, or an unusable slot or record.
    PreconditionViolation,
    /// A missing or wrong signer, or a record that names other slots.
    Unauthorized,
    /// The record does not exist: never created, or already claimed or cancelled.
    NotFound,
    /// No custody authority can be derived for the program.
    NoCustodyAuthority,
}

/// What becomes of the record when an instruction's ledger calls all succeed.
#[derive(Clone, Copy, Debug, PartialEq, Eq)]
pub enum RecordEffect {
    Create(AirdropAccount),
    /// The record is destroyed; its storage deposit goes to `refund_to`.
    Close { refund_to: Address },
}

pub enum RecordEffectView {
    Create(RecordView),
    Close(Seq<u8>),
}

impl View for RecordEffect {
    type V = RecordEffectView;

    open spec fn view(&self) -> RecordEffectView {
        match *self {
            RecordEffect::Create(r) => RecordEffectView::Create(r@),
            RecordEffect::Close { refund_to } => RecordEffectView::Close(refund_to@),
        }
    }
}

/// An accepted instruction: the ledger calls to issue in order, and the effect
/// on the record, which takes place only if every call succeeds.
#[derive(Clone, Debug, PartialEq, Eq)]
pub struct Plan {
    pub ops: Vec<LedgerOp>,
    pub record: RecordEffect,
    /// Bump byte that, with the seed, lets the program sign for the custody authority.
    pub bump: u8,
}

pub struct PlanView {
    pub ops: Seq<OpView>,
    pub record: RecordEffectView,
    pub bump: u8,
}

impl View for Plan {
    type V = PlanView;

    open spec fn view(&self) -> PlanView {
        PlanView { ops: self.ops@.map_values(|o: LedgerOp| o@), record: self.record@, bump: self.bump }
    }
}

pub open spec fn outcome_view(r: Result<Plan, EscrowError>) -> Result<PlanView, EscrowError> {
    match r {
        Ok(p) => Ok(p@),
        Err(e) => Err(e),
    }
}

// ---------------------------------------------------------------------------
// Creation
// ---------------------------------------------------------------------------

/// Accounts of the creation instruction.
#[derive(Clone, Copy, Debug, PartialEq, Eq)]
pub struct InitializeAirdrop {
    pub initializer: Caller,
    pub initializer_deposit_token_account: TokenSlot,
    /// The record's storage location, with what it holds now.
    pub airdrop_account: Option<AirdropAccount>,
    pub airdrop_token_account: TokenSlot,
}

/// The refusals of creation that do not depend on the custody authority.
pub open spec fn initialize_check(a: InitializeAirdrop, airdrop_amount: u64, withdraw_amount: u64) -> Option<EscrowError> {
    if withdraw_amount > airdrop_amount {
        Some(EscrowError::PreconditionViolation)
    } else if !a.initializer.is_signer {
        Some(EscrowError::Unauthorized)
    } else if a.initializer_deposit_token_account.amount < airdrop_amount {
        Some(EscrowError::PreconditionViolation)
    } else if a.airdrop_account is Some {
        Some(EscrowError::PreconditionViolation)
    } else if a.initializer_deposit_token_account.key@ == a.airdrop_token_account.key@ {
        Some(EscrowError::PreconditionViolation)
    } else {
        None
    }
}

pub open spec fn initialize_plan(
    authority: Seq<u8>,
    bump: u8,
    a: InitializeAirdrop,
    airdrop_amount: u64,
    withdraw_amount: u64,
) -> PlanView {
    PlanView {
        ops: seq![
            OpView::Transfer {
                from: a.initializer_deposit_token_account.key@,
                to: a.airdrop_token_account.key@,
                amount: airdrop_amount as nat,
                authority: a.initializer.key@,
            },
            OpView::SetAuthority {
                slot: a.airdrop_token_account.key@,
                current: a.initializer.key@,
                new_authority: authority,
            },
        ],
        record: RecordEffectView::Create(
            RecordView {
                initializer: a.initializer.key@,
                deposit_slot: a.initializer_deposit_token_account.key@,
                custody_slot: a.airdrop_token_account.key@,
                withdraw_amount: withdraw_amount as nat,
            },
        ),
        bump,
    }
}

/// Creation once the custody authority is known. A key-less authority cannot
/// sign, so an initializer that claims to be it is refused.
pub open spec fn initialize_decision(
    authority: Seq<u8>,
    bump: u8,
    a: InitializeAirdrop,
    airdrop_amount: u64,
    withdraw_amount: u64,
) -> Result<PlanView, EscrowError> {
    match initialize_check(a, airdrop_amount, withdraw_amount) {
        Some(e) => Err(e),
        None => if a.initializer.key@ == authority {
            Err(EscrowError::Unauthorized)
        } else {
            Ok(initialize_plan(authority, bump, a, airdrop_amount, withdraw_amount))
        },
    }
}

pub open spec fn initialize_outcome(
    program_id: Seq<u8>,
    a: InitializeAirdrop,
    airdrop_amount: u64,
    withdraw_amount: u64,
) -> Result<PlanView, EscrowError> {
    match initialize_check(a, airdrop_amount, withdraw_amount) {
        Some(e) => Err(e),
        None => match custody_authority(program_id) {
            None => Err(EscrowError::NoCustodyAuthority),
            Some(found) => initialize_decision(found.0, found.1, a, airdrop_amount, withdraw_amount),
        },
    }
}

impl InitializeAirdrop {
    /// The deposit: `amount` from the initializer's slot into the custody slot.
    pub fn transfer_amount_to_airdrop(&self, amount: u64) -> (r: LedgerOp)
        ensures
            r@ == (OpView::Transfer {
                from: self.initializer_deposit_token_account.key@,
                to: self.airdrop_token_account.key@,
                amount: amount as nat,
                authority: self.initializer.key@,
            }),
    {
        LedgerOp::Transfer {
            from: self.initializer_deposit_token_account.key,
            to: self.airdrop_token_account.key,
            amount,
            authority: self.initializer.key,
        }
    }

    /// Hands the custody slot from the initializer to the custody authority.
    pub fn into_set_authority_context(&self, custody: &Address) -> (r: LedgerOp)
        ensures
            r@ == (OpView::SetAuthority {
                slot: self.airdrop_token_account.key@,
                current: self.initializer.key@,
                new_authority: custody@,
            }),
    {
        LedgerOp::SetAuthority {
            slot: self.airdrop_token_account.key,
            current: self.initializer.key,
            new_authority: *custody,
        }
    }

    fn check(&self, airdrop_amount: u64, withdraw_amount: u64) -> (r: Option<EscrowError>)
        ensures
            r == initialize_check(*self, airdrop_amount, withdraw_amount),
    {
        if withdraw_amount > airdrop_amount {
            Some(EscrowError::PreconditionViolation)
        } else if !self.initializer.is_signer {
            Some(EscrowError::Unauthorized)
        } else if self.initializer_deposit_token_account.amount < airdrop_amount {
            Some(EscrowError::PreconditionViolation)
        } else if self.airdrop_account.is_some() {
            Some(EscrowError::PreconditionViolation)
        } else if self.initializer_deposit_token_account.key.same(&self.airdrop_token_account.key) {
            Some(EscrowError::PreconditionViolation)
        } else {
            None
        }
    }
}

/// Creation with a known custody authority and bump.
pub fn plan_initialize_airdrop(
    custody: &Address,
    bump: u8,
    accounts: &InitializeAirdrop,
    airdrop_amount: u64,
    withdraw_amount: u64,
) -> (r: Result<Plan, EscrowError>)
    ensures
        outcome_view(r) == initialize_decision(custody@, bump, *accounts, airdrop_amount, withdraw_amount),
{
    if let Some(e) = accounts.check(airdrop_amount, withdraw_amount) {
        return Err(e);
    }
    if accounts.initializer.key.same(custody) {
        return Err(EscrowError::Unauthorized);
    }
    let deposit = accounts.transfer_amount_to_airdrop(airdrop_amount);
    let capture = accounts.into_set_authority_context(custody);
    let ops: Vec<LedgerOp> = vec![deposit, capture];
    let record = AirdropAccount {
        initializer_key: accounts.initializer.key,
        initializer_deposit_token_account: accounts.initializer_deposit_token_account.key,
        airdrop_token_account: accounts.airdrop_token_account.key,
        withdraw_amount,
    };
    let plan = Plan { ops, record: RecordEffect::Create(record), bump };
    assert(plan@.ops =~= initialize_plan(custody@, bump, *accounts, airdrop_amount, withdraw_amount).ops);
    Ok(plan)
}

/// Creates an escrow record: the initializer deposits `airdrop_amount` into
/// the custody slot and hands that slot to the program's custody authority;
/// any taker may later claim `withdraw_amount` of it.
pub fn initialize_airdrop(
    program_id: &Address,
    accounts: &InitializeAirdrop,
    airdrop_amount: u64,
    withdraw_amount: u64,
) -> (r: Result<Plan, EscrowError>)
    ensures
        outcome_view(r) == initialize_outcome(program_id@, *accounts, airdrop_amount, withdraw_amount),
        withdraw_amount > airdrop_amount ==> r == Err::<Plan, EscrowError>(EscrowError::PreconditionViolation),
        withdraw_amount <= airdrop_amount && !accounts.initializer.is_signer ==> r == Err::<Plan, EscrowError>(
            EscrowError::Unauthorized,
        ),
{
    if let Some(e) = accounts.check(airdrop_amount, withdraw_amount) {
        return Err(e);
    }
    match derive_custody_authority(program_id) {
        None => Err(EscrowError::NoCustodyAuthority),
        Some((custody, bump)) => plan_initialize_airdrop(&custody, bump, accounts, airdrop_amount, withdraw_amount),
    }
}

// ---------------------------------------------------------------------------
// Claim
// ---------------------------------------------------------------------------

/// Accounts of the claim instruction. Any signer may claim.
#[derive(Clone, Copy, Debug, PartialEq, Eq)]
pub struct GetAirdrop {
    pub taker: Caller,
    /// The taker's receiving slot (a fresh one holds nothing).
    pub taker_receive_token_account: TokenSlot,
    pub airdrop_account: Option<AirdropAccount>,
    pub airdrop_token_account: TokenSlot,
}

/// The refusals of a claim that do not depend on the custody authority.
pub open spec fn get_airdrop_check(a: GetAirdrop) -> Option<EscrowError> {
    match a.airdrop_account {
        None => Some(EscrowError::NotFound),
        Some(rec) => if !a.taker.is_signer {
            Some(EscrowError::Unauthorized)
        } else if rec.airdrop_token_account@ != a.airdrop_token_account.key@ {
            Some(EscrowError::Unauthorized)
        } else if a.taker_receive_token_account.authority@ != a.taker.key@
            || a.taker_receive_token_account.mint@ != a.airdrop_token_account.mint@
            || a.taker_receive_token_account.key@ == a.airdrop_token_account.key@ {
            Some(EscrowError::PreconditionViolation)
        } else {
            None
        },
    }
}

pub open spec fn get_airdrop_plan(authority: Seq<u8>, bump: u8, a: GetAirdrop) -> PlanView
    recommends
        a.airdrop_account is Some,
{
    let rec = a.airdrop_account->Some_0;
    PlanView {
        ops: seq![
            OpView::Transfer {
                from: a.airdrop_token_account.key@,
                to: a.taker_receive_token_account.key@,
                amount: rec.withdraw_amount as nat,
                authority,
            },
        ],
        record: RecordEffectView::Close(rec.initializer_key@),
        bump,
    }
}

pub open spec fn get_airdrop_decision(authority: Seq<u8>, bump: u8, a: GetAirdrop) -> Result<PlanView, EscrowError> {
    match get_airdrop_check(a) {
        Some(e) => Err(e),
        None => Ok(get_airdrop_plan(authority, bump, a)),
    }
}

pub open spec fn get_airdrop_outcome(program_id: Seq<u8>, a: GetAirdrop) -> Result<PlanView, EscrowError> {
    match get_airdrop_check(a) {
        Some(e) => Err(e),
        None => match custody_authority(program_id) {
            None => Err(EscrowError::NoCustodyAuthority),
            Some(found) => get_airdrop_decision(found.0, found.1, a),
        },
    }
}

impl GetAirdrop {
    /// The payout: `amount` from the custody slot to the taker's slot,
    /// authorized by the custody authority.
    pub fn into_transfer_to_taker_context(&self, custody: &Address, amount: u64) -> (r: LedgerOp)
        ensures
            r@ == (OpView::Transfer {
                from: self.airdrop_token_account.key@,
                to: self.taker_receive_token_account.key@,
                amount: amount as nat,
                authority: custody@,
            }),
    {
        LedgerOp::Transfer {
            from: self.airdrop_token_account.key,
            to: self.taker_receive_token_account.key,
            amount,
            authority: *custody,
        }
    }

    fn check(&self) -> (r: Option<EscrowError>)
        ensures
            r == get_airdrop_check(*self),
    {
        match self.airdrop_account {
            None => Some(EscrowError::NotFound),
            Some(rec) => if !self.taker.is_signer {
                Some(EscrowError::Unauthorized)
            } else if !rec.airdrop_token_account.same(&self.airdrop_token_account.key) {
                Some(EscrowError::Unauthorized)
            } else if !self.taker_receive_token_account.authority.same(&self.taker.key)
                || !self.taker_receive_token_account.mint.same(&self.airdrop_token_account.mint)
                || self.taker_receive_token_account.key.same(&self.airdrop_token_account.key) {
                Some(EscrowError::PreconditionViolation)
            } else {
                None
            },
        }
    }
}

/// A claim with a known custody authority and bump.
pub fn plan_get_airdrop(custody: &Address, bump: u8, accounts: &GetAirdrop) -> (r: Result<Plan, EscrowError>)
    ensures
        outcome_view(r) == get_airdrop_decision(custody@, bump, *accounts),
{
    if let Some(e) = accounts.check() {
        return Err(e);
    }
    let rec = match accounts.airdrop_account {
        Some(rec) => rec,
        None => return Err(EscrowError::NotFound),
    };
    let payout = accounts.into_transfer_to_taker_context(custody, rec.withdraw_amount);
    let ops: Vec<LedgerOp> = vec![payout];
    let plan = Plan { ops, record: RecordEffect::Close { refund_to: rec.initializer_key }, bump };
    assert(plan@.ops =~= get_airdrop_plan(custody@, bump, *accounts).ops);
    Ok(plan)
}

/// Claims the escrow: pays the record's `withdraw_amount` from the custody
/// slot to the taker and destroys the record. The first valid claim wins.
pub fn get_airdrop(program_id: &Address, accounts: &GetAirdrop) -> (r: Result<Plan, EscrowError>)
    ensures
        outcome_view(r) == get_airdrop_outcome(program_id@, *accounts),
        accounts.airdrop_account is None ==> r == Err::<Plan, EscrowError>(EscrowError::NotFound),
{
    if let Some(e) = accounts.check() {
        return Err(e);
    }
    match derive_custody_authority(program_id) {
        None => Err(EscrowError::NoCustodyAuthority),
        Some((custody, bump)) => plan_get_airdrop(&custody, bump, accounts),
    }
}

// ---------------------------------------------------------------------------
// Cancellation
// ---------------------------------------------------------------------------

/// Accounts of the cancel instruction. Only the record's initializer may cancel.
#[derive(Clone, Copy, Debug, PartialEq, Eq)]
pub struct CancelAirdrop {
    pub initializer: Caller,
    pub initializer_deposit_token_account: TokenSlot,
    pub airdrop_account: Option<AirdropAccount>,
    pub airdrop_token_account: TokenSlot,
}

/// The refusals of a cancel that do not depend on the custody authority.
pub open spec fn cancel_airdrop_check(a: CancelAirdrop) -> Option<EscrowError> {
    match a.airdrop_account {
        None => Some(EscrowError::NotFound),
        Some(rec) => if !a.initializer.is_signer || a.initializer.key@ != rec.initializer_key@ {
            Some(EscrowError::Unauthorized)
        } else if rec.initializer_deposit_token_account@ != a.initializer_deposit_token_account.key@
            || rec.airdrop_token_account@ != a.airdrop_token_account.key@ {
            Some(EscrowError::Unauthorized)
        } else {
            None
        },
    }
}

pub open spec fn cancel_airdrop_plan(authority: Seq<u8>, bump: u8, a: CancelAirdrop) -> PlanView {
    PlanView {
        ops: seq![
            OpView::Transfer {
                from: a.airdrop_token_account.key@,
                to: a.initializer_deposit_token_account.key@,
                amount: a.airdrop_token_account.amount as nat,
                authority,
            },
        ],
        record: RecordEffectView::Close(a.initializer.key@),
        bump,
    }
}

pub open spec fn cancel_airdrop_decision(authority: Seq<u8>, bump: u8, a: CancelAirdrop) -> Result<PlanView, EscrowError> {
    match cancel_airdrop_check(a) {
        Some(e) => Err(e),
        None => Ok(cancel_airdrop_plan(authority, bump, a)),
    }
}

pub open spec fn cancel_airdrop_outcome(program_id: Seq<u8>, a: CancelAirdrop) -> Result<PlanView, EscrowError> {
    match cancel_airdrop_check(a) {
        Some(e) => Err(e),
        None => match custody_authority(program_id) {
            None => Err(EscrowError::NoCustodyAuthority),
            Some(found) => cancel_airdrop_decision(found.0, found.1, a),
        },
    }
}

impl CancelAirdrop {
    /// The refund: the custody slot's whole balance back to the initializer's
    /// slot, authorized by the custody authority.
    pub fn refund_to_initilizer(&self, custody: &Address) -> (r: LedgerOp)
        ensures
            r@ == (OpView::Transfer {
                from: self.airdrop_token_account.key@,
                to: self.initializer_deposit_token_account.key@,
                amount: self.airdrop_token_account.amount as nat,
                authority: custody@,
            }),
    {
        LedgerOp::Transfer {
            from: self.airdrop_token_account.key,
            to: self.initializer_deposit_token_account.key,
            amount: self.airdrop_token_account.amount,
            authority: *custody,
        }
    }

    fn check(&self) -> (r: Option<EscrowError>)
        ensures
            r == cancel_airdrop_check(*self),
    {
        match self.airdrop_account {
            None => Some(EscrowError::NotFound),
            Some(rec) => if !self.initializer.is_signer || !self.initializer.key.same(&rec.initializer_key) {
                Some(EscrowError::Unauthorized)
            } else if !rec.initializer_deposit_token_account.same(&self.initializer_deposit_token_account.key)
                || !rec.airdrop_token_account.same(&self.airdrop_token_account.key) {
                Some(EscrowError::Unauthorized)
            } else {
                None
            },
        }
    }
}

/// A cancel with a known custody authority and bump.
pub fn plan_cancel_airdrop(custody: &Address, bump: u8, accounts: &CancelAirdrop) -> (r: Result<Plan, EscrowError>)
    ensures
        outcome_view(r) == cancel_airdrop_decision(custody@, bump, *accounts),
{
    if let Some(e) = accounts.check() {
        return Err(e);
    }
    let refund = accounts.refund_to_initilizer(custody);
    let ops: Vec<LedgerOp> = vec![refund];
    let plan = Plan { ops, record: RecordEffect::Close { refund_to: accounts.initializer.key }, bump };
    assert(plan@.ops =~= cancel_airdrop_plan(custody@, bump, *accounts).ops);
    Ok(plan)
}

/// Cancels the escrow: returns the custody slot's whole balance to the
/// initializer's slot and destroys the record.
pub fn cancel_airdrop(program_id: &Address, accounts: &CancelAirdrop) -> (r: Result<Plan, EscrowError>)
    ensures
        outcome_view(r) == cancel_airdrop_outcome(program_id@, *accounts),
        accounts.airdrop_account is None ==> r == Err::<Plan, EscrowError>(EscrowError::NotFound),
        accounts.airdrop_account is Some
            && accounts.initializer.key@ != accounts.airdrop_account->Some_0.initializer_key@
            ==> r == Err::<Plan, EscrowError>(EscrowError::Unauthorized),
{
    if let Some(e) = accounts.check() {
        return Err(e);
    }
    match derive_custody_authority(program_id) {
        None => Err(EscrowError::NoCustodyAuthority),
        Some((custody, bump)) => plan_cancel_airdrop(&custody, bump, accounts),
    }
}

} // verus!
