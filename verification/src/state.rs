//! The record kept for one event, and the lifecycle it goes through.

use crate::identity::Identity;
use vstd::prelude::*;

verus! {

/// Where an event stands in its lifecycle. A record starts `Uninitialized`,
/// becomes `Active` once, and ends `Completed` or `Terminated`.
#[derive(Clone, Copy, Debug, PartialEq, Eq, Structural)]
pub enum AgreementStatus {
    Uninitialized,
    Active,
    Completed,
    Terminated,
}

impl AgreementStatus {
    /// The byte that stands for the status in a stored record.
    pub open spec fn spec_code(self) -> u8 {
        match self {
            AgreementStatus::Uninitialized => 0,
            AgreementStatus::Active => 1,
            AgreementStatus::Completed => 2,
            AgreementStatus::Terminated => 3,
        }
    }

    /// The status that a byte of a stored record stands for, if any.
    pub open spec fn spec_from_code(code: u8) -> Option<AgreementStatus> {
        if code == 0 {
            Some(AgreementStatus::Uninitialized)
        } else if code == 1 {
            Some(AgreementStatus::Active)
        } else if code == 2 {
            Some(AgreementStatus::Completed)
        } else if code == 3 {
            Some(AgreementStatus::Terminated)
        } else {
            None
        }
    }

    /// Whether one operation may take a record from status `self` to `next`:
    /// initialization makes an uninitialized record active, and an active
    /// one ends completed or terminated. There is no other change of status.
    pub open spec fn advances_to(self, next: AgreementStatus) -> bool {
        match self {
            AgreementStatus::Uninitialized => next == AgreementStatus::Active,
            AgreementStatus::Active => next == AgreementStatus::Completed || next
                == AgreementStatus::Terminated,
            AgreementStatus::Completed => false,
            AgreementStatus::Terminated => false,
        }
    }

    /// Whether a record in status `self` may later be found in status `later`:
    /// an uninitialized record may become anything, an active one stays
    /// active or ends, and an ended one stays as it ended.
    pub open spec fn never_regresses_to(self, later: AgreementStatus) -> bool {
        match self {
            AgreementStatus::Uninitialized => true,
            AgreementStatus::Active => later != AgreementStatus::Uninitialized,
            AgreementStatus::Completed => later == AgreementStatus::Completed,
            AgreementStatus::Terminated => later == AgreementStatus::Terminated,
        }
    }

    #[verifier::when_used_as_spec(spec_code)]
    pub fn code(self) -> (code: u8)
        ensures
            code == self.spec_code(),
    {
        match self {
            AgreementStatus::Uninitialized => 0,
            AgreementStatus::Active => 1,
            AgreementStatus::Completed => 2,
            AgreementStatus::Terminated => 3,
        }
    }

    #[verifier::when_used_as_spec(spec_from_code)]
    pub fn from_code(code: u8) -> (status: Option<AgreementStatus>)
        ensures
            status == Self::spec_from_code(code),
    {
        match code {
            0 => Some(AgreementStatus::Uninitialized),
            1 => Some(AgreementStatus::Active),
            2 => Some(AgreementStatus::Completed),
            3 => Some(AgreementStatus::Terminated),
            _ => None,
        }
    }
}

/// The persistent record of one event.
///
/// `participate_amount` holds the amount recorded by the latest
/// participation, less what has been paid out of it since; a participation
/// replaces the amount, it never adds to it.
#[derive(Clone, Copy, Debug, PartialEq, Eq)]
pub struct RentShareAccount {
    pub status: AgreementStatus,
    /// Who receives the funds. Set when the event is initialized.
    pub payee_identity: Identity,
    /// Who created the event and must sign for every creator-gated operation.
    pub creator_identity: Identity,
    pub event_id: u64,
    /// What each participant deposits. Set when the event is initialized.
    pub fix_deposit_amount_per_person: u64,
    /// How many participants the event aims for. Set when the event is
    /// initialized.
    pub total_participator_count: u64,
    pub participate_amount: u64,
}

impl RentShareAccount {
    pub open spec fn spec_is_initialized(&self) -> bool {
        self.status != AgreementStatus::Uninitialized
    }

    pub open spec fn spec_is_complete(&self) -> bool {
        self.status == AgreementStatus::Completed
    }

    pub open spec fn spec_is_terminated(&self) -> bool {
        self.status == AgreementStatus::Terminated
    }

    /// The sum that the deposits of all targeted participants come to.
    pub open spec fn target_amount(&self) -> int {
        self.fix_deposit_amount_per_person * self.total_participator_count
    }

    /// Whether the recorded amount covers the deposit of every targeted
    /// participant. The record counts no participants, so this is what it
    /// means for the participant target to be reached.
    pub open spec fn spec_target_reached(&self) -> bool {
        self.participate_amount >= self.target_amount()
    }

    /// Whether the terms that initialization sets are the same in both records.
    pub open spec fn same_terms(&self, other: &RentShareAccount) -> bool {
        &&& self.payee_identity == other.payee_identity
        &&& self.creator_identity == other.creator_identity
        &&& self.event_id == other.event_id
        &&& self.fix_deposit_amount_per_person == other.fix_deposit_amount_per_person
        &&& self.total_participator_count == other.total_participator_count
    }

    #[verifier::when_used_as_spec(spec_is_initialized)]
    pub fn is_initialized(&self) -> (yes: bool)
        ensures
            yes == self.spec_is_initialized(),
    {
        self.status != AgreementStatus::Uninitialized
    }

    #[verifier::when_used_as_spec(spec_is_complete)]
    pub fn is_complete(&self) -> (yes: bool)
        ensures
            yes == self.spec_is_complete(),
    {
        self.status == AgreementStatus::Completed
    }

    #[verifier::when_used_as_spec(spec_is_terminated)]
    pub fn is_terminated(&self) -> (yes: bool)
        ensures
            yes == self.spec_is_terminated(),
    {
        self.status == AgreementStatus::Terminated
    }

    #[verifier::when_used_as_spec(spec_target_reached)]
    pub fn target_reached(&self) -> (yes: bool)
        ensures
            yes == self.spec_target_reached(),
    {
        let deposit: u128 = self.fix_deposit_amount_per_person as u128;
        let count: u128 = self.total_participator_count as u128;
        assert(deposit * count <= u128::MAX) by (nonlinear_arith)
            requires
                deposit <= u64::MAX,
                count <= u64::MAX,
        ;
        self.participate_amount as u128 >= deposit * count
    }
}

/// What a participation presents: the event it claims, its creator, and the
/// amount to record.
#[derive(Clone, Copy, Debug, PartialEq, Eq)]
pub struct StartEvent {
    pub event_id: u64,
    pub participate_amount: u64,
    pub creator_identity: Identity,
}

} // verus!
