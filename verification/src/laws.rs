//! What holds of every record and every sequence of operations on it.

use crate::account::{Context, RecordAccountView};
use crate::checks::{spec_check_initialization, spec_check_signer};
use crate::codec::lemma_decode_encode;
use crate::error::{CoreError, TransferError};
use crate::identity::Identity;
use crate::instruction::RentShareInstruction;
use crate::processor::{
    in_order, lemma_process_in_order, spec_load, spec_process, spec_store, Decision,
};
use crate::state::AgreementStatus;
use vstd::prelude::*;

verus! {

/// One operation as the host runs it: the authority it runs under, what the
/// caller presented, the command, and what the ledger answers if the
/// operation asks it for a transfer.
pub struct Operation {
    pub expected_owner: Identity,
    pub ctx: Context,
    pub instruction: RentShareInstruction,
    pub ledger: Result<(), TransferError>,
}

/// The storage after one operation: `Processor::process`, followed by
/// `Processor::settle_payment` where a transfer is due.
pub open spec fn spec_step(account: RecordAccountView, op: Operation) -> RecordAccountView {
    match spec_process(op.expected_owner, account, op.ctx, op.instruction) {
        Ok(Decision::Commit(record)) => spec_store(account, record),
        Ok(Decision::TransferThenCommit(pending)) => if op.ledger is Ok {
            spec_store(account, pending.settled)
        } else {
            account
        },
        Ok(Decision::Keep) => account,
        Err(_) => account,
    }
}

/// The storage after a sequence of operations, the first of them first.
pub open spec fn spec_run(account: RecordAccountView, ops: Seq<Operation>) -> RecordAccountView
    decreases ops.len(),
{
    if ops.len() == 0 {
        account
    } else {
        spec_step(spec_run(account, ops.drop_last()), ops.last())
    }
}

/// Whether an operation fails: the command is refused, or the ledger
/// refuses the transfer that the command needs.
pub open spec fn spec_fails(account: RecordAccountView, op: Operation) -> bool {
    match spec_process(op.expected_owner, account, op.ctx, op.instruction) {
        Ok(Decision::TransferThenCommit(_)) => op.ledger is Err,
        Ok(_) => false,
        Err(_) => true,
    }
}

/// An operation that fails leaves the storage exactly as it was.
pub proof fn lemma_failure_changes_nothing(account: RecordAccountView, op: Operation)
    requires
        spec_fails(account, op),
    ensures
        spec_step(account, op) == account,
{
}

/// One operation changes the status by at most one step of the lifecycle:
/// the status stays, or an uninitialized record becomes active, or an active
/// one ends. Only initialization takes a record out of the uninitialized
/// status.
pub proof fn lemma_step_advances(account: RecordAccountView, op: Operation)
    requires
        spec_load(account) is Ok,
    ensures
        spec_load(spec_step(account, op)) is Ok,
        ({
            let before = spec_load(account)->Ok_0.status;
            let after = spec_load(spec_step(account, op))->Ok_0.status;
            &&& after == before || before.advances_to(after)
            &&& before == AgreementStatus::Uninitialized && after != before
                ==> op.instruction is InitializeEvent
        }),
{
    match spec_process(op.expected_owner, account, op.ctx, op.instruction) {
        Ok(Decision::Commit(record)) => {
            lemma_decode_encode(record);
        },
        Ok(Decision::TransferThenCommit(pending)) => {
            lemma_decode_encode(pending.settled);
        },
        _ => {},
    }
}

/// Being in order carries over: from a first state of the storage to a
/// second and from the second to a third, hence from the first to the third.
pub proof fn lemma_in_order_transitive(
    first: RecordAccountView,
    second: RecordAccountView,
    third: RecordAccountView,
)
    requires
        in_order(first, second),
        in_order(second, third),
    ensures
        in_order(first, third),
{
}

/// One operation keeps the lifecycle in order, whether it succeeds or fails
/// and whatever the ledger answers.
pub proof fn lemma_step_in_order(account: RecordAccountView, op: Operation)
    ensures
        in_order(account, spec_step(account, op)),
{
    lemma_process_in_order(op.expected_owner, account, op.ctx, op.instruction);
}

/// No sequence of operations makes the status regress: an active record is
/// never found uninitialized again, and a completed or terminated one stays
/// as it ended. Nor does any sequence change the terms of an initialized
/// event, or turn storage that holds a record into storage that holds none.
pub proof fn lemma_run_in_order(account: RecordAccountView, ops: Seq<Operation>)
    ensures
        in_order(account, spec_run(account, ops)),
    decreases ops.len(),
{
    if ops.len() > 0 {
        let middle = spec_run(account, ops.drop_last());
        lemma_run_in_order(account, ops.drop_last());
        lemma_step_in_order(middle, ops.last());
        lemma_in_order_transitive(account, middle, spec_run(account, ops));
    }
}

/// Initializing a record that has been initialized is refused with
/// `AlreadyInitialized`, whoever signed and whatever the command holds,
/// where the storage holds a record and belongs to the expected authority.
pub proof fn lemma_initialize_once(
    expected_owner: Identity,
    account: RecordAccountView,
    ctx: Context,
    instruction: RentShareInstruction,
)
    requires
        instruction is InitializeEvent,
        account.owner == expected_owner,
        spec_load(account) matches Ok(record) && record.is_initialized(),
    ensures
        spec_process(expected_owner, account, ctx, instruction) == Err::<Decision, CoreError>(
            CoreError::AlreadyInitialized,
        ),
{
}

/// A creator-gated command for whose claimed creator no signing capability
/// was presented is refused with `MissingAuthorization`, whatever else the
/// command and the record hold, where the checks that come before the
/// signature pass: the storage holds a record, belongs to the expected
/// authority, and is initialized unless the command initializes it.
pub proof fn lemma_unsigned_is_refused(
    expected_owner: Identity,
    account: RecordAccountView,
    ctx: Context,
    instruction: RentShareInstruction,
)
    requires
        instruction.creator_gated(),
        !ctx.spec_is_authorized(instruction.claimed_creator()),
        account.owner == expected_owner,
        spec_load(account) matches Ok(record) && spec_check_initialization(
            record,
            instruction is InitializeEvent,
        ) is Ok,
    ensures
        spec_process(expected_owner, account, ctx, instruction) == Err::<Decision, CoreError>(
            CoreError::MissingAuthorization,
        ),
{
}

/// A cancellation, an ending or a participation that names another creator
/// or another event than the stored one is refused with `FieldMismatch`,
/// whatever the status of the initialized record, where the checks that come
/// before pass: the storage holds an initialized record, belongs to the
/// expected authority, and the claimed creator signed.
pub proof fn lemma_mismatch_is_refused(
    expected_owner: Identity,
    account: RecordAccountView,
    ctx: Context,
    instruction: RentShareInstruction,
)
    requires
        instruction is CancelEvent || instruction is EndEvent || instruction is ParticipateInEvent,
        account.owner == expected_owner,
        spec_check_signer(ctx, instruction.claimed_creator()) is Ok,
        spec_load(account) matches Ok(record) && record.is_initialized() && (
        instruction.claimed_creator() != record.creator_identity || instruction.claimed_event_id()
            != record.event_id),
    ensures
        spec_process(expected_owner, account, ctx, instruction) == Err::<Decision, CoreError>(
            CoreError::FieldMismatch,
        ),
{
}

} // verus!
