//! When a payment moves funds, and what it leaves in the record.
//!
//! A payment moves one deposit, `fix_deposit_amount_per_person`, from a
//! funding party to the payee of the event and takes it off the recorded
//! `participate_amount`. The library decides whether funds move and how
//! much; the ledger that moves them is the host's. The record changes only
//! once the ledger has reported success.

use crate::error::CoreError;
use crate::identity::Identity;
use crate::state::{AgreementStatus, RentShareAccount};
use vstd::prelude::*;

verus! {

/// A movement of funds to ask of the ledger.
#[derive(Clone, Copy, Debug, PartialEq, Eq)]
pub struct Transfer {
    pub source: Identity,
    pub destination: Identity,
    pub amount: u64,
}

/// A payment that waits for the ledger: the transfer to make, and the
/// record to store once it has been made.
#[derive(Clone, Copy, Debug, PartialEq, Eq)]
pub struct PendingPayment {
    pub transfer: Transfer,
    pub settled: RentShareAccount,
}

/// The record after one deposit has been paid out of it: the recorded amount
/// is less by the deposit, and the event is completed when nothing is left
/// to pay. Meaningful where the recorded amount covers the deposit.
pub open spec fn spec_after_payment(record: RentShareAccount) -> RentShareAccount {
    let remaining = (record.participate_amount - record.fix_deposit_amount_per_person) as u64;
    RentShareAccount {
        participate_amount: remaining,
        status: if remaining == 0 {
            AgreementStatus::Completed
        } else {
            record.status
        },
        ..record
    }
}

/// What a payment from `source` comes to, for a record that may pay.
///
/// - The funding party must hold the deposit, else `InsufficientFunds`.
/// - A payment from the payee to itself moves nothing and changes nothing.
/// - The recorded amount must cover the deposit, else `ArithmeticUnderflow`.
/// - Otherwise the deposit is to move from `source` to the payee.
pub open spec fn spec_plan_payment(
    record: RentShareAccount,
    available_balance: u64,
    source: Identity,
) -> Result<Option<PendingPayment>, CoreError> {
    if available_balance < record.fix_deposit_amount_per_person {
        Err(CoreError::InsufficientFunds)
    } else if source == record.payee_identity {
        Ok(None)
    } else if record.participate_amount < record.fix_deposit_amount_per_person {
        Err(CoreError::ArithmeticUnderflow)
    } else {
        Ok(
            Some(
                PendingPayment {
                    transfer: Transfer {
                        source,
                        destination: record.payee_identity,
                        amount: record.fix_deposit_amount_per_person,
                    },
                    settled: spec_after_payment(record),
                },
            ),
        )
    }
}

/// Decides what a payment from `source` comes to: an error, nothing to do,
/// or a transfer to delegate together with the record to store after it.
pub fn plan_payment(record: &RentShareAccount, available_balance: u64, source: &Identity) -> (res:
    Result<Option<PendingPayment>, CoreError>)
    ensures
        res == spec_plan_payment(*record, available_balance, *source),
{
    let amount = record.fix_deposit_amount_per_person;
    if available_balance < amount {
        return Err(CoreError::InsufficientFunds);
    }
    if *source == record.payee_identity {
        return Ok(None);
    }
    match record.participate_amount.checked_sub(amount) {
        None => Err(CoreError::ArithmeticUnderflow),
        Some(remaining) => {
            let status = if remaining == 0 {
                AgreementStatus::Completed
            } else {
                record.status
            };
            let settled = RentShareAccount { participate_amount: remaining, status, ..*record };
            let transfer = Transfer { source: *source, destination: record.payee_identity, amount };
            Ok(Some(PendingPayment { transfer, settled }))
        },
    }
}

} // verus!
