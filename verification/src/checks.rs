//! The checks that stand before every change of a record, in the order in
//! which they are made: who owns the storage, whether the record has been
//! initialized, whether the claimed creator signed, and whether the command
//! speaks of the event that is stored. The first check that fails decides
//! the error.

use crate::account::Context;
use crate::error::CoreError;
use crate::identity::Identity;
use crate::state::{AgreementStatus, RentShareAccount};
use vstd::prelude::*;

verus! {

/// The storage must belong to the authority that runs the operation.
pub open spec fn spec_check_ownership(expected_owner: Identity, owner: Identity) -> Result<
    (),
    CoreError,
> {
    if owner == expected_owner {
        Ok(())
    } else {
        Err(CoreError::OwnershipMismatch)
    }
}

/// An initializing operation needs a record that was never initialized,
/// every other operation one that was.
pub open spec fn spec_check_initialization(record: RentShareAccount, initializing: bool) -> Result<
    (),
    CoreError,
> {
    if initializing && record.is_initialized() {
        Err(CoreError::AlreadyInitialized)
    } else if !initializing && !record.is_initialized() {
        Err(CoreError::NotInitialized)
    } else {
        Ok(())
    }
}

/// A signing capability must have been presented for `identity`.
pub open spec fn spec_check_signer(ctx: Context, identity: Identity) -> Result<(), CoreError> {
    if ctx.spec_is_authorized(identity) {
        Ok(())
    } else {
        Err(CoreError::MissingAuthorization)
    }
}

/// The creator and the event that the command names must be the stored ones.
pub open spec fn spec_check_fields(
    record: RentShareAccount,
    creator_identity: Identity,
    event_id: u64,
) -> Result<(), CoreError> {
    if creator_identity == record.creator_identity && event_id == record.event_id {
        Ok(())
    } else {
        Err(CoreError::FieldMismatch)
    }
}

/// The record must be active: an event that was completed or terminated
/// takes no further change.
pub open spec fn spec_check_active(record: RentShareAccount) -> Result<(), CoreError> {
    if record.status == AgreementStatus::Active {
        Ok(())
    } else {
        Err(CoreError::TerminalStateViolation)
    }
}

/// All that stands before a change by the creator of an initialized event:
/// ownership, initialization, signature, fields, and that the event is still
/// active, in this order.
pub open spec fn spec_creator_gate(
    expected_owner: Identity,
    owner: Identity,
    record: RentShareAccount,
    ctx: Context,
    creator_identity: Identity,
    event_id: u64,
) -> Result<(), CoreError> {
    if spec_check_ownership(expected_owner, owner) is Err {
        spec_check_ownership(expected_owner, owner)
    } else if spec_check_initialization(record, false) is Err {
        spec_check_initialization(record, false)
    } else if spec_check_signer(ctx, creator_identity) is Err {
        spec_check_signer(ctx, creator_identity)
    } else if spec_check_fields(record, creator_identity, event_id) is Err {
        spec_check_fields(record, creator_identity, event_id)
    } else {
        spec_check_active(record)
    }
}

pub fn check_ownership(expected_owner: &Identity, owner: &Identity) -> (res: Result<(), CoreError>)
    ensures
        res == spec_check_ownership(*expected_owner, *owner),
{
    if *owner == *expected_owner {
        Ok(())
    } else {
        Err(CoreError::OwnershipMismatch)
    }
}

pub fn check_initialization(record: &RentShareAccount, initializing: bool) -> (res: Result<
    (),
    CoreError,
>)
    ensures
        res == spec_check_initialization(*record, initializing),
{
    let initialized = record.is_initialized();
    if initializing && initialized {
        Err(CoreError::AlreadyInitialized)
    } else if !initializing && !initialized {
        Err(CoreError::NotInitialized)
    } else {
        Ok(())
    }
}

pub fn check_signer(ctx: &Context, identity: &Identity) -> (res: Result<(), CoreError>)
    ensures
        res == spec_check_signer(*ctx, *identity),
{
    if ctx.is_authorized(identity) {
        Ok(())
    } else {
        Err(CoreError::MissingAuthorization)
    }
}

pub fn check_fields(record: &RentShareAccount, creator_identity: &Identity, event_id: u64) -> (res:
    Result<(), CoreError>)
    ensures
        res == spec_check_fields(*record, *creator_identity, event_id),
{
    if *creator_identity == record.creator_identity && event_id == record.event_id {
        Ok(())
    } else {
        Err(CoreError::FieldMismatch)
    }
}

pub fn check_active(record: &RentShareAccount) -> (res: Result<(), CoreError>)
    ensures
        res == spec_check_active(*record),
{
    if record.status == AgreementStatus::Active {
        Ok(())
    } else {
        Err(CoreError::TerminalStateViolation)
    }
}

pub fn creator_gate(
    expected_owner: &Identity,
    owner: &Identity,
    record: &RentShareAccount,
    ctx: &Context,
    creator_identity: &Identity,
    event_id: u64,
) -> (res: Result<(), CoreError>)
    ensures
        res == spec_creator_gate(*expected_owner, *owner, *record, *ctx, *creator_identity, event_id),
{
    check_ownership(expected_owner, owner)?;
    check_initialization(record, false)?;
    check_signer(ctx, creator_identity)?;
    check_fields(record, creator_identity, event_id)?;
    check_active(record)
}

} // verus!
