//! The operations on an event record.
//!
//! Every operation reads the stored bytes, passes the checks, works out the
//! record to store, and only then writes. An operation that fails leaves the
//! storage as it found it. A payment cannot finish in one call, because the
//! ledger is the host's: `process` hands back the transfer to make, the host
//! makes it, and `settle_payment` takes the ledger's answer and writes.

use crate::account::{Context, RecordAccount, RecordAccountView};
use crate::checks::{
    check_initialization, check_ownership, check_signer, creator_gate, spec_check_initialization,
    spec_check_ownership, spec_check_signer, spec_creator_gate,
};
use crate::codec::{lemma_decode_encode, spec_decode, spec_encode};
use crate::error::{CoreError, TransferError};
use crate::identity::Identity;
use crate::instruction::RentShareInstruction;
use crate::state::{AgreementStatus, RentShareAccount, StartEvent};
use crate::transfer::{plan_payment, spec_plan_payment, PendingPayment, Transfer};
use vstd::prelude::*;

verus! {

/// How a call that succeeded left things.
#[derive(Clone, Copy, Debug, PartialEq, Eq)]
pub enum Outcome {
    /// The operation is done, and the storage holds its result.
    Complete,
    /// The storage is untouched: the transfer is to be made first, and its
    /// result reported to `Processor::settle_payment`.
    TransferDue(Transfer),
}

/// What an operation comes to, before anything is written.
pub enum Decision {
    /// Success with nothing to write.
    Keep,
    /// Success: this record is to be stored.
    Commit(RentShareAccount),
    /// The transfer is to be made, and the record stored once it has been.
    TransferThenCommit(PendingPayment),
}

/// The record in the storage, or the error for bytes that hold none.
pub open spec fn spec_load(account: RecordAccountView) -> Result<RentShareAccount, CoreError> {
    match spec_decode(account.data) {
        Ok(record) => Ok(record),
        Err(e) => Err(CoreError::DecodeError(e)),
    }
}

/// The storage with `record` written to it.
pub open spec fn spec_store(account: RecordAccountView, record: RentShareAccount) -> RecordAccountView {
    RecordAccountView { owner: account.owner, data: spec_encode(record) }
}

/// Initialization: on a record that was never initialized, signed by the
/// creator it names, it sets the terms of the event and makes it active.
/// The recorded amount stays as the storage had it.
pub open spec fn spec_initialize_event(
    expected_owner: Identity,
    account: RecordAccountView,
    ctx: Context,
    payee_identity: Identity,
    creator_identity: Identity,
    event_id: u64,
    fix_deposit_amount_per_person: u64,
    total_participator_count: u64,
) -> Result<RentShareAccount, CoreError> {
    match spec_load(account) {
        Err(e) => Err(e),
        Ok(record) => if spec_check_ownership(expected_owner, account.owner) is Err {
            Err(CoreError::OwnershipMismatch)
        } else if spec_check_initialization(record, true) is Err {
            Err(CoreError::AlreadyInitialized)
        } else if spec_check_signer(ctx, creator_identity) is Err {
            Err(CoreError::MissingAuthorization)
        } else {
            Ok(
                RentShareAccount {
                    status: AgreementStatus::Active,
                    payee_identity,
                    creator_identity,
                    event_id,
                    fix_deposit_amount_per_person,
                    total_participator_count,
                    participate_amount: record.participate_amount,
                },
            )
        },
    }
}

/// Cancellation: past the creator's gate, an active event becomes terminated.
/// Nothing else in the record changes.
pub open spec fn spec_cancel_event(
    expected_owner: Identity,
    account: RecordAccountView,
    ctx: Context,
    creator_identity: Identity,
    event_id: u64,
) -> Result<RentShareAccount, CoreError> {
    match spec_load(account) {
        Err(e) => Err(e),
        Ok(record) => match spec_creator_gate(
            expected_owner,
            account.owner,
            record,
            ctx,
            creator_identity,
            event_id,
        ) {
            Err(e) => Err(e),
            Ok(_) => Ok(RentShareAccount { status: AgreementStatus::Terminated, ..record }),
        },
    }
}

/// Ending: past the creator's gate, an active event becomes completed.
/// Nothing else in the record changes.
pub open spec fn spec_end_event(
    expected_owner: Identity,
    account: RecordAccountView,
    ctx: Context,
    event_id: u64,
    creator_identity: Identity,
) -> Result<RentShareAccount, CoreError> {
    match spec_load(account) {
        Err(e) => Err(e),
        Ok(record) => match spec_creator_gate(
            expected_owner,
            account.owner,
            record,
            ctx,
            creator_identity,
            event_id,
        ) {
            Err(e) => Err(e),
            Ok(_) => Ok(RentShareAccount { status: AgreementStatus::Completed, ..record }),
        },
    }
}

/// The record after a participation of `amount` was recorded in it: the
/// amount replaces the recorded one, and the event is completed when the
/// amount reaches the participant target.
pub open spec fn spec_after_participation(record: RentShareAccount, amount: u64) -> RentShareAccount {
    let recorded = RentShareAccount { participate_amount: amount, ..record };
    RentShareAccount {
        status: if recorded.spec_target_reached() {
            AgreementStatus::Completed
        } else {
            record.status
        },
        ..recorded
    }
}

/// Participation: past the creator's gate, the amount is recorded in an
/// active event.
pub open spec fn spec_start_event(
    expected_owner: Identity,
    account: RecordAccountView,
    ctx: Context,
    event: StartEvent,
) -> Result<RentShareAccount, CoreError> {
    match spec_load(account) {
        Err(e) => Err(e),
        Ok(record) => match spec_creator_gate(
            expected_owner,
            account.owner,
            record,
            ctx,
            event.creator_identity,
            event.event_id,
        ) {
            Err(e) => Err(e),
            Ok(_) => Ok(spec_after_participation(record, event.participate_amount)),
        },
    }
}

/// Payment. It needs no signature. In this order: the storage must be
/// owned by the expected authority; the record initialized; the payee named
/// the stored one, else `FieldMismatch`; the event not terminated, else
/// `TerminalStateViolation`. What follows is `spec_plan_payment`.
pub open spec fn spec_pay_rent(
    expected_owner: Identity,
    account: RecordAccountView,
    ctx: Context,
    payee_identity: Identity,
    source_identity: Identity,
) -> Result<Decision, CoreError> {
    match spec_load(account) {
        Err(e) => Err(e),
        Ok(record) => if spec_check_ownership(expected_owner, account.owner) is Err {
            Err(CoreError::OwnershipMismatch)
        } else if spec_check_initialization(record, false) is Err {
            Err(CoreError::NotInitialized)
        } else if payee_identity != record.payee_identity {
            Err(CoreError::FieldMismatch)
        } else if record.status == AgreementStatus::Terminated {
            Err(CoreError::TerminalStateViolation)
        } else {
            match spec_plan_payment(record, ctx.available_balance, source_identity) {
                Err(e) => Err(e),
                Ok(None) => Ok(Decision::Keep),
                Ok(Some(pending)) => Ok(Decision::TransferThenCommit(pending)),
            }
        },
    }
}

/// The decision to store a record, where there is one.
pub open spec fn spec_commit(decided: Result<RentShareAccount, CoreError>) -> Result<
    Decision,
    CoreError,
> {
    match decided {
        Ok(record) => Ok(Decision::Commit(record)),
        Err(e) => Err(e),
    }
}

/// What a command comes to on the given storage.
pub open spec fn spec_process(
    expected_owner: Identity,
    account: RecordAccountView,
    ctx: Context,
    instruction: RentShareInstruction,
) -> Result<Decision, CoreError> {
    match instruction {
        RentShareInstruction::InitializeEvent {
            payee_identity,
            creator_identity,
            event_id,
            fix_deposit_amount_per_person,
            total_participator_count,
        } => spec_commit(
            spec_initialize_event(
                expected_owner,
                account,
                ctx,
                payee_identity,
                creator_identity,
                event_id,
                fix_deposit_amount_per_person,
                total_participator_count,
            ),
        ),
        RentShareInstruction::CancelEvent { creator_identity, event_id } => spec_commit(
            spec_cancel_event(expected_owner, account, ctx, creator_identity, event_id),
        ),
        RentShareInstruction::EndEvent { event_id, creator_identity } => spec_commit(
            spec_end_event(expected_owner, account, ctx, event_id, creator_identity),
        ),
        RentShareInstruction::ParticipateInEvent {
            event_id,
            participate_amount,
            creator_identity,
        } => spec_commit(
            spec_start_event(
                expected_owner,
                account,
                ctx,
                StartEvent { event_id, participate_amount, creator_identity },
            ),
        ),
        RentShareInstruction::DistributeFunds {
            payee_identity,
            source_identity,
        } => spec_pay_rent(expected_owner, account, ctx, payee_identity, source_identity),
    }
}

/// What the second half of a payment comes to, given the ledger's answer.
/// The payment is decided anew, as `spec_pay_rent` does. Where it asked for
/// a transfer, the settled record is to be stored if the ledger made the
/// transfer, and the ledger's refusal is the error if it did not. Where it
/// asked for none, there is nothing to settle.
pub open spec fn spec_settle_payment(
    expected_owner: Identity,
    account: RecordAccountView,
    ctx: Context,
    payee_identity: Identity,
    source_identity: Identity,
    ledger: Result<(), TransferError>,
) -> Result<Decision, CoreError> {
    match spec_pay_rent(expected_owner, account, ctx, payee_identity, source_identity) {
        Ok(Decision::TransferThenCommit(pending)) => match ledger {
            Ok(_) => Ok(Decision::Commit(pending.settled)),
            Err(e) => Err(CoreError::TransferFailed(e)),
        },
        Ok(_) => Ok(Decision::Keep),
        Err(e) => Err(e),
    }
}

/// The lifecycle is in order between two states of the storage. Storage
/// that held no record is unchanged. Storage that held a record holds one
/// whose status has not regressed; and if the record was initialized, its
/// payee, creator, event id, deposit and participant target are the same.
pub open spec fn in_order(before: RecordAccountView, after: RecordAccountView) -> bool {
    match spec_load(before) {
        Err(_) => after == before,
        Ok(earlier) => {
            &&& after.owner == before.owner
            &&& spec_load(after) matches Ok(later)
            &&& earlier.status.never_regresses_to(later.status)
            &&& earlier.is_initialized() ==> earlier.same_terms(&later)
        },
    }
}

/// Storing what an operation decided keeps the lifecycle in order, whatever
/// the command and whoever the caller.
pub proof fn lemma_process_in_order(
    expected_owner: Identity,
    account: RecordAccountView,
    ctx: Context,
    instruction: RentShareInstruction,
)
    ensures
        match spec_process(expected_owner, account, ctx, instruction) {
            Ok(Decision::Commit(record)) => in_order(account, spec_store(account, record)),
            Ok(Decision::TransferThenCommit(pending)) => in_order(
                account,
                spec_store(account, pending.settled),
            ),
            _ => in_order(account, account),
        },
{
    match spec_process(expected_owner, account, ctx, instruction) {
        Ok(Decision::Commit(record)) => {
            lemma_decode_encode(record);
        },
        Ok(Decision::TransferThenCommit(pending)) => {
            lemma_decode_encode(pending.settled);
        },
        _ => {},
    }
}

/// A call that had to store `decided` did so: on success the storage holds
/// the encoded record, on failure it holds what it held, and the error is
/// the one decided. The owner of the storage never changes.
pub open spec fn committed(
    before: RecordAccountView,
    after: RecordAccountView,
    res: Result<(), CoreError>,
    decided: Result<RentShareAccount, CoreError>,
) -> bool {
    match decided {
        Ok(record) => res == Ok::<(), CoreError>(()) && after == spec_store(before, record),
        Err(e) => res == Err::<(), CoreError>(e) && after == before,
    }
}

/// A call carried out what was decided: a record to store was stored; where
/// nothing is to be written, or a transfer is to be made first, the storage
/// holds what it held; and on failure the error is the one decided.
pub open spec fn carried_out(
    before: RecordAccountView,
    after: RecordAccountView,
    res: Result<Outcome, CoreError>,
    decided: Result<Decision, CoreError>,
) -> bool {
    match decided {
        Ok(Decision::Commit(record)) => res == Ok::<Outcome, CoreError>(Outcome::Complete) && after
            == spec_store(before, record),
        Ok(Decision::Keep) => res == Ok::<Outcome, CoreError>(Outcome::Complete) && after == before,
        Ok(Decision::TransferThenCommit(pending)) => res == Ok::<Outcome, CoreError>(
            Outcome::TransferDue(pending.transfer),
        ) && after == before,
        Err(e) => res == Err::<Outcome, CoreError>(e) && after == before,
    }
}

/// Reads the record out of the storage.
fn load(account: &RecordAccount) -> (res: Result<RentShareAccount, CoreError>)
    ensures
        res == spec_load(account@),
{
    match RentShareAccount::decode(account.data.as_slice()) {
        Ok(record) => Ok(record),
        Err(e) => Err(CoreError::DecodeError(e)),
    }
}

/// Writes the record into the storage, in place of what it held.
fn store(account: &mut RecordAccount, record: &RentShareAccount)
    ensures
        final(account)@ == spec_store(old(account)@, *record),
{
    account.data = record.encode();
}

/// Decides on a payment without writing anything: the checks, then the
/// plan. `None` stands for a payment that moves nothing.
fn decide_payment(
    expected_owner: &Identity,
    account: &RecordAccount,
    ctx: &Context,
    payee_identity: &Identity,
    source_identity: &Identity,
) -> (res: Result<Option<PendingPayment>, CoreError>)
    ensures
        match spec_pay_rent(*expected_owner, account@, *ctx, *payee_identity, *source_identity) {
            Ok(Decision::TransferThenCommit(pending)) => res == Ok::<
                Option<PendingPayment>,
                CoreError,
            >(Some(pending)),
            Ok(_) => res == Ok::<Option<PendingPayment>, CoreError>(None),
            Err(e) => res == Err::<Option<PendingPayment>, CoreError>(e),
        },
{
    let record = load(account)?;
    check_ownership(expected_owner, &account.owner)?;
    check_initialization(&record, false)?;
    if *payee_identity != record.payee_identity {
        return Err(CoreError::FieldMismatch);
    }
    if record.is_terminated() {
        return Err(CoreError::TerminalStateViolation);
    }
    plan_payment(&record, ctx.available_balance, source_identity)
}

/// The operations, one function for each.
pub struct Processor;

impl Processor {
    /// Carries out a command on the storage of a record.
    ///
    /// On success the storage holds the new record, with one exception: for
    /// a payment that moves funds the storage is left as it is and the
    /// transfer is handed back, to be made by the host and reported to
    /// `settle_payment`. On failure nothing is written. Whatever happens,
    /// the status of the record does not regress.
    pub fn process(
        expected_owner: &Identity,
        account: &mut RecordAccount,
        ctx: &Context,
        instruction: &RentShareInstruction,
    ) -> (res: Result<Outcome, CoreError>)
        ensures
            carried_out(
                old(account)@,
                final(account)@,
                res,
                spec_process(*expected_owner, old(account)@, *ctx, *instruction),
            ),
            res is Err ==> final(account)@ == old(account)@,
            in_order(old(account)@, final(account)@),
    {
        proof {
            lemma_process_in_order(*expected_owner, account@, *ctx, *instruction);
        }
        match *instruction {
            RentShareInstruction::InitializeEvent {
                payee_identity,
                creator_identity,
                event_id,
                fix_deposit_amount_per_person,
                total_participator_count,
            } => {
                Self::initialize_event(
                    expected_owner,
                    account,
                    ctx,
                    payee_identity,
                    creator_identity,
                    event_id,
                    fix_deposit_amount_per_person,
                    total_participator_count,
                )?;
                Ok(Outcome::Complete)
            },
            RentShareInstruction::CancelEvent { creator_identity, event_id } => {
                Self::cancel_event(expected_owner, account, ctx, creator_identity, event_id)?;
                Ok(Outcome::Complete)
            },
            RentShareInstruction::EndEvent { event_id, creator_identity } => {
                Self::end_event(expected_owner, account, ctx, event_id, creator_identity)?;
                Ok(Outcome::Complete)
            },
            RentShareInstruction::ParticipateInEvent {
                event_id,
                participate_amount,
                creator_identity,
            } => {
                let event = StartEvent { event_id, participate_amount, creator_identity };
                Self::start_event(expected_owner, account, ctx, &event)?;
                Ok(Outcome::Complete)
            },
            RentShareInstruction::DistributeFunds { payee_identity, source_identity } => {
                Self::pay_rent(expected_owner, account, ctx, payee_identity, source_identity)
            },
        }
    }

    /// Initializes the event: see `spec_initialize_event`.
    pub fn initialize_event(
        expected_owner: &Identity,
        account: &mut RecordAccount,
        ctx: &Context,
        payee_identity: Identity,
        creator_identity: Identity,
        event_id: u64,
        fix_deposit_amount_per_person: u64,
        total_participator_count: u64,
    ) -> (res: Result<(), CoreError>)
        ensures
            committed(
                old(account)@,
                final(account)@,
                res,
                spec_initialize_event(
                    *expected_owner,
                    old(account)@,
                    *ctx,
                    payee_identity,
                    creator_identity,
                    event_id,
                    fix_deposit_amount_per_person,
                    total_participator_count,
                ),
            ),
            res is Err ==> final(account)@ == old(account)@,
            in_order(old(account)@, final(account)@),
    {
        proof {
            lemma_process_in_order(
                *expected_owner,
                account@,
                *ctx,
                RentShareInstruction::InitializeEvent {
                    payee_identity,
                    creator_identity,
                    event_id,
                    fix_deposit_amount_per_person,
                    total_participator_count,
                },
            );
        }
        let record = load(account)?;
        check_ownership(expected_owner, &account.owner)?;
        check_initialization(&record, true)?;
        check_signer(ctx, &creator_identity)?;
        let initialized = RentShareAccount {
            status: AgreementStatus::Active,
            payee_identity,
            creator_identity,
            event_id,
            fix_deposit_amount_per_person,
            total_participator_count,
            participate_amount: record.participate_amount,
        };
        store(account, &initialized);
        Ok(())
    }

    /// Cancels the event: see `spec_cancel_event`.
    pub fn cancel_event(
        expected_owner: &Identity,
        account: &mut RecordAccount,
        ctx: &Context,
        creator_identity: Identity,
        event_id: u64,
    ) -> (res: Result<(), CoreError>)
        ensures
            committed(
                old(account)@,
                final(account)@,
                res,
                spec_cancel_event(*expected_owner, old(account)@, *ctx, creator_identity, event_id),
            ),
            res is Err ==> final(account)@ == old(account)@,
            in_order(old(account)@, final(account)@),
    {
        proof {
            lemma_process_in_order(
                *expected_owner,
                account@,
                *ctx,
                RentShareInstruction::CancelEvent { creator_identity, event_id },
            );
        }
        let record = load(account)?;
        creator_gate(expected_owner, &account.owner, &record, ctx, &creator_identity, event_id)?;
        let cancelled = RentShareAccount { status: AgreementStatus::Terminated, ..record };
        store(account, &cancelled);
        Ok(())
    }

    /// Ends the event: see `spec_end_event`.
    pub fn end_event(
        expected_owner: &Identity,
        account: &mut RecordAccount,
        ctx: &Context,
        event_id: u64,
        creator_identity: Identity,
    ) -> (res: Result<(), CoreError>)
        ensures
            committed(
                old(account)@,
                final(account)@,
                res,
                spec_end_event(*expected_owner, old(account)@, *ctx, event_id, creator_identity),
            ),
            res is Err ==> final(account)@ == old(account)@,
            in_order(old(account)@, final(account)@),
    {
        proof {
            lemma_process_in_order(
                *expected_owner,
                account@,
                *ctx,
                RentShareInstruction::EndEvent { event_id, creator_identity },
            );
        }
        let record = load(account)?;
        creator_gate(expected_owner, &account.owner, &record, ctx, &creator_identity, event_id)?;
        let ended = RentShareAccount { status: AgreementStatus::Completed, ..record };
        store(account, &ended);
        Ok(())
    }

    /// Records a participation: see `spec_start_event`.
    pub fn start_event(
        expected_owner: &Identity,
        account: &mut RecordAccount,
        ctx: &Context,
        event: &StartEvent,
    ) -> (res: Result<(), CoreError>)
        ensures
            committed(
                old(account)@,
                final(account)@,
                res,
                spec_start_event(*expected_owner, old(account)@, *ctx, *event),
            ),
            res is Err ==> final(account)@ == old(account)@,
            in_order(old(account)@, final(account)@),
    {
        proof {
            lemma_process_in_order(
                *expected_owner,
                account@,
                *ctx,
                RentShareInstruction::ParticipateInEvent {
                    event_id: event.event_id,
                    participate_amount: event.participate_amount,
                    creator_identity: event.creator_identity,
                },
            );
        }
        let record = load(account)?;
        creator_gate(
            expected_owner,
            &account.owner,
            &record,
            ctx,
            &event.creator_identity,
            event.event_id,
        )?;
        let mut recorded = RentShareAccount { participate_amount: event.participate_amount, ..record };
        if recorded.target_reached() {
            recorded.status = AgreementStatus::Completed;
        }
        store(account, &recorded);
        Ok(())
    }

    /// Decides on a payment: see `spec_pay_rent`. Nothing is written here:
    /// where funds are to move, the record changes in `settle_payment`.
    pub fn pay_rent(
        expected_owner: &Identity,
        account: &RecordAccount,
        ctx: &Context,
        payee_identity: Identity,
        source_identity: Identity,
    ) -> (res: Result<Outcome, CoreError>)
        ensures
            carried_out(
                account@,
                account@,
                res,
                spec_pay_rent(*expected_owner, account@, *ctx, payee_identity, source_identity),
            ),
    {
        match decide_payment(expected_owner, account, ctx, &payee_identity, &source_identity)? {
            None => Ok(Outcome::Complete),
            Some(pending) => Ok(Outcome::TransferDue(pending.transfer)),
        }
    }

    /// Finishes a payment with the ledger's answer. It takes what the first
    /// half took and decides the payment anew, so that nothing is stored
    /// that the stored record does not allow. Where the transfer was made,
    /// the settled record is stored. Where the ledger refused, the storage
    /// is left as it is and the refusal is handed on.
    pub fn settle_payment(
        expected_owner: &Identity,
        account: &mut RecordAccount,
        ctx: &Context,
        payee_identity: Identity,
        source_identity: Identity,
        ledger: Result<(), TransferError>,
    ) -> (res: Result<(), CoreError>)
        ensures
            match spec_settle_payment(
                *expected_owner,
                old(account)@,
                *ctx,
                payee_identity,
                source_identity,
                ledger,
            ) {
                Ok(Decision::Commit(record)) => res == Ok::<(), CoreError>(()) && final(account)@
                    == spec_store(old(account)@, record),
                Ok(_) => res == Ok::<(), CoreError>(()) && final(account)@ == old(account)@,
                Err(e) => res == Err::<(), CoreError>(e) && final(account)@ == old(account)@,
            },
            res is Err ==> final(account)@ == old(account)@,
            in_order(old(account)@, final(account)@),
    {
        proof {
            lemma_process_in_order(
                *expected_owner,
                account@,
                *ctx,
                RentShareInstruction::DistributeFunds { payee_identity, source_identity },
            );
        }
        match decide_payment(expected_owner, account, ctx, &payee_identity, &source_identity)? {
            None => Ok(()),
            Some(pending) => match ledger {
                Ok(_) => {
                    store(account, &pending.settled);
                    Ok(())
                },
                Err(e) => Err(CoreError::TransferFailed(e)),
            },
        }
    }
}

} // verus!
