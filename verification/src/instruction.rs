//! The commands that an event record accepts.

use crate::identity::Identity;
use vstd::prelude::*;

verus! {

/// A command, already decoded from whatever form it arrived in.
#[derive(Clone, Copy, Debug, PartialEq, Eq)]
pub enum RentShareInstruction {
    /// Sets up the event on a record that was never initialized.
    InitializeEvent {
        payee_identity: Identity,
        creator_identity: Identity,
        event_id: u64,
        fix_deposit_amount_per_person: u64,
        total_participator_count: u64,
    },
    /// Ends the event without completing it.
    CancelEvent { creator_identity: Identity, event_id: u64 },
    /// Completes the event.
    EndEvent { event_id: u64, creator_identity: Identity },
    /// Records the amount deposited by a participation.
    ParticipateInEvent { event_id: u64, participate_amount: u64, creator_identity: Identity },
    /// Moves one deposit from `source_identity` to the payee of the event.
    DistributeFunds { payee_identity: Identity, source_identity: Identity },
}

impl RentShareInstruction {
    /// Whether the command needs a signing capability for the creator it
    /// claims. Every command but a payment does.
    pub open spec fn creator_gated(self) -> bool {
        !(self is DistributeFunds)
    }

    /// The identity that a creator-gated command claims as creator of the
    /// event.
    pub open spec fn claimed_creator(self) -> Identity
        recommends
            self.creator_gated(),
    {
        match self {
            RentShareInstruction::InitializeEvent { creator_identity, .. } => creator_identity,
            RentShareInstruction::CancelEvent { creator_identity, .. } => creator_identity,
            RentShareInstruction::EndEvent { creator_identity, .. } => creator_identity,
            RentShareInstruction::ParticipateInEvent { creator_identity, .. } => creator_identity,
            RentShareInstruction::DistributeFunds { .. } => arbitrary(),
        }
    }

    /// The event that a creator-gated command claims to be about.
    pub open spec fn claimed_event_id(self) -> u64
        recommends
            self.creator_gated(),
    {
        match self {
            RentShareInstruction::InitializeEvent { event_id, .. } => event_id,
            RentShareInstruction::CancelEvent { event_id, .. } => event_id,
            RentShareInstruction::EndEvent { event_id, .. } => event_id,
            RentShareInstruction::ParticipateInEvent { event_id, .. } => event_id,
            RentShareInstruction::DistributeFunds { .. } => arbitrary(),
        }
    }
}

} // verus!
