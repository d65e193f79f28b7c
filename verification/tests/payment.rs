use rentshare::account::{Context, RecordAccount};
use rentshare::error::{CoreError, DecodeError, TransferError};
use rentshare::identity::Identity;
use rentshare::instruction::RentShareInstruction;
use rentshare::processor::{Outcome, Processor};
use rentshare::state::{AgreementStatus, RentShareAccount};
use rentshare::transfer::{plan_payment, PendingPayment, Transfer};

fn host() -> Identity {
    Identity::new([0xaa; 32])
}

fn winner() -> Identity {
    Identity::new([0x50; 32])
}

fn organizer() -> Identity {
    Identity::new([0xc0; 32])
}

fn funder() -> Identity {
    Identity::new([0x0f; 32])
}

fn holding_balance(available_balance: u64) -> Context {
    Context { signers: Vec::new(), available_balance }
}

fn event(status: AgreementStatus, participate_amount: u64) -> RentShareAccount {
    RentShareAccount {
        status,
        payee_identity: winner(),
        creator_identity: organizer(),
        event_id: 7,
        fix_deposit_amount_per_person: 100,
        total_participator_count: 3,
        participate_amount,
    }
}

fn storage(record: RentShareAccount) -> RecordAccount {
    RecordAccount { owner: host(), data: record.encode() }
}

fn pay_from(source_identity: Identity) -> RentShareInstruction {
    RentShareInstruction::DistributeFunds { payee_identity: winner(), source_identity }
}

fn deposit_transfer() -> Transfer {
    Transfer { source: funder(), destination: winner(), amount: 100 }
}

fn pay(account: &mut RecordAccount, ctx: &Context) -> Result<Outcome, CoreError> {
    Processor::process(&host(), account, ctx, &pay_from(funder()))
}

fn settle(account: &mut RecordAccount, ctx: &Context, ledger: Result<(), TransferError>) -> Result<(), CoreError> {
    Processor::settle_payment(&host(), account, ctx, winner(), funder(), ledger)
}

fn record_in(account: &RecordAccount) -> RentShareAccount {
    RentShareAccount::decode(&account.data).unwrap()
}

#[test]
fn payment_without_funds_is_refused() {
    let mut account = storage(event(AgreementStatus::Active, 0));
    let before = account.clone();
    assert_eq!(pay(&mut account, &holding_balance(50)), Err(CoreError::InsufficientFunds));
    assert_eq!(account, before);
    let mut after_participation = storage(event(AgreementStatus::Active, 100));
    let before = after_participation.clone();
    assert_eq!(pay(&mut after_participation, &holding_balance(50)), Err(CoreError::InsufficientFunds));
    assert_eq!(settle(&mut after_participation, &holding_balance(50), Ok(())), Err(CoreError::InsufficientFunds));
    assert_eq!(after_participation, before);
}

#[test]
fn payment_asks_for_one_deposit_to_the_payee() {
    let mut account = storage(event(AgreementStatus::Active, 250));
    let before = account.clone();
    assert_eq!(pay(&mut account, &holding_balance(100)), Ok(Outcome::TransferDue(deposit_transfer())));
    assert_eq!(account, before);
}

#[test]
fn payment_needs_no_signature() {
    let mut account = storage(event(AgreementStatus::Active, 250));
    let ctx = Context { signers: vec![], available_balance: 1000 };
    assert_eq!(pay(&mut account, &ctx), Ok(Outcome::TransferDue(deposit_transfer())));
}

#[test]
fn settled_payment_comes_off_the_recorded_amount() {
    let mut account = storage(event(AgreementStatus::Active, 250));
    let ctx = holding_balance(100);
    assert_eq!(settle(&mut account, &ctx, Ok(())), Ok(()));
    assert_eq!(record_in(&account), event(AgreementStatus::Active, 150));
    assert_eq!(settle(&mut account, &ctx, Ok(())), Ok(()));
    assert_eq!(record_in(&account), event(AgreementStatus::Active, 50));
}

#[test]
fn last_payment_completes_the_event() {
    let mut account = storage(event(AgreementStatus::Active, 100));
    let ctx = holding_balance(100);
    assert_eq!(pay(&mut account, &ctx), Ok(Outcome::TransferDue(deposit_transfer())));
    assert_eq!(settle(&mut account, &ctx, Ok(())), Ok(()));
    assert_eq!(record_in(&account), event(AgreementStatus::Completed, 0));
}

#[test]
fn payment_is_accepted_on_a_completed_event() {
    let mut account = storage(event(AgreementStatus::Completed, 300));
    let ctx = holding_balance(500);
    assert_eq!(pay(&mut account, &ctx), Ok(Outcome::TransferDue(deposit_transfer())));
    assert_eq!(settle(&mut account, &ctx, Ok(())), Ok(()));
    assert_eq!(record_in(&account), event(AgreementStatus::Completed, 200));
}

#[test]
fn payment_is_refused_on_a_terminated_event() {
    let mut account = storage(event(AgreementStatus::Terminated, 300));
    let before = account.clone();
    let ctx = holding_balance(500);
    assert_eq!(pay(&mut account, &ctx), Err(CoreError::TerminalStateViolation));
    assert_eq!(settle(&mut account, &ctx, Ok(())), Err(CoreError::TerminalStateViolation));
    assert_eq!(account, before);
}

#[test]
fn payment_is_refused_on_an_uninitialized_record() {
    let mut account = RecordAccount { owner: host(), data: vec![0u8; 97] };
    let before = account.clone();
    assert_eq!(pay(&mut account, &holding_balance(500)), Err(CoreError::NotInitialized));
    assert_eq!(account, before);
}

#[test]
fn payment_to_another_payee_is_a_mismatch() {
    let mut account = storage(event(AgreementStatus::Active, 300));
    let before = account.clone();
    let wrong = RentShareInstruction::DistributeFunds {
        payee_identity: organizer(),
        source_identity: funder(),
    };
    assert_eq!(
        Processor::process(&host(), &mut account, &holding_balance(500), &wrong),
        Err(CoreError::FieldMismatch)
    );
    assert_eq!(account, before);
    let mut terminated = storage(event(AgreementStatus::Terminated, 300));
    assert_eq!(
        Processor::process(&host(), &mut terminated, &holding_balance(0), &wrong),
        Err(CoreError::FieldMismatch)
    );
}

#[test]
fn payment_on_storage_of_another_owner_is_refused() {
    let mut account = RecordAccount { owner: funder(), ..storage(event(AgreementStatus::Active, 300)) };
    let before = account.clone();
    assert_eq!(pay(&mut account, &holding_balance(500)), Err(CoreError::OwnershipMismatch));
    assert_eq!(settle(&mut account, &holding_balance(500), Ok(())), Err(CoreError::OwnershipMismatch));
    assert_eq!(account, before);
}

#[test]
fn payment_on_bytes_that_hold_no_record_is_refused() {
    let mut account = RecordAccount { owner: host(), data: vec![1u8; 5] };
    let before = account.clone();
    assert_eq!(
        pay(&mut account, &holding_balance(500)),
        Err(CoreError::DecodeError(DecodeError::SizeMismatch))
    );
    assert_eq!(
        settle(&mut account, &holding_balance(500), Ok(())),
        Err(CoreError::DecodeError(DecodeError::SizeMismatch))
    );
    assert_eq!(account, before);
}

#[test]
fn payment_of_more_than_is_recorded_underflows() {
    let mut account = storage(event(AgreementStatus::Active, 99));
    let before = account.clone();
    let ctx = holding_balance(100);
    assert_eq!(pay(&mut account, &ctx), Err(CoreError::ArithmeticUnderflow));
    assert_eq!(settle(&mut account, &ctx, Ok(())), Err(CoreError::ArithmeticUnderflow));
    assert_eq!(account, before);
}

#[test]
fn funds_are_checked_before_the_recorded_amount() {
    let mut account = storage(event(AgreementStatus::Active, 99));
    assert_eq!(pay(&mut account, &holding_balance(99)), Err(CoreError::InsufficientFunds));
}

#[test]
fn payment_from_the_payee_to_itself_moves_nothing() {
    let mut account = storage(event(AgreementStatus::Active, 40));
    let before = account.clone();
    let ctx = holding_balance(100);
    assert_eq!(
        Processor::process(&host(), &mut account, &ctx, &pay_from(winner())),
        Ok(Outcome::Complete)
    );
    assert_eq!(account, before);
    assert_eq!(
        Processor::settle_payment(&host(), &mut account, &ctx, winner(), winner(), Ok(())),
        Ok(())
    );
    assert_eq!(account, before);
}

#[test]
fn payment_from_the_payee_to_itself_still_needs_the_funds() {
    let mut account = storage(event(AgreementStatus::Active, 40));
    assert_eq!(
        Processor::process(&host(), &mut account, &holding_balance(99), &pay_from(winner())),
        Err(CoreError::InsufficientFunds)
    );
}

#[test]
fn refusal_of_the_ledger_is_handed_on() {
    let mut account = storage(event(AgreementStatus::Active, 100));
    let before = account.clone();
    let ctx = holding_balance(100);
    assert_eq!(pay(&mut account, &ctx), Ok(Outcome::TransferDue(deposit_transfer())));
    let refusal = TransferError { code: 17 };
    assert_eq!(settle(&mut account, &ctx, Err(refusal)), Err(CoreError::TransferFailed(refusal)));
    assert_eq!(account, before);
    assert_eq!(record_in(&account), event(AgreementStatus::Active, 100));
}

#[test]
fn pay_rent_decides_without_writing() {
    let account = storage(event(AgreementStatus::Active, 100));
    assert_eq!(
        Processor::pay_rent(&host(), &account, &holding_balance(100), winner(), funder()),
        Ok(Outcome::TransferDue(deposit_transfer()))
    );
    assert_eq!(
        Processor::pay_rent(&host(), &account, &holding_balance(100), winner(), winner()),
        Ok(Outcome::Complete)
    );
    assert_eq!(
        Processor::pay_rent(&host(), &account, &holding_balance(10), winner(), funder()),
        Err(CoreError::InsufficientFunds)
    );
    assert_eq!(record_in(&account), event(AgreementStatus::Active, 100));
}

#[test]
fn plan_of_a_payment() {
    let record = event(AgreementStatus::Active, 250);
    assert_eq!(
        plan_payment(&record, 100, &funder()),
        Ok(Some(PendingPayment {
            transfer: deposit_transfer(),
            settled: event(AgreementStatus::Active, 150),
        }))
    );
    assert_eq!(
        plan_payment(&event(AgreementStatus::Active, 100), u64::MAX, &funder()),
        Ok(Some(PendingPayment {
            transfer: deposit_transfer(),
            settled: event(AgreementStatus::Completed, 0),
        }))
    );
    assert_eq!(plan_payment(&record, 100, &winner()), Ok(None));
    assert_eq!(plan_payment(&record, 99, &funder()), Err(CoreError::InsufficientFunds));
    assert_eq!(
        plan_payment(&event(AgreementStatus::Active, 0), 100, &funder()),
        Err(CoreError::ArithmeticUnderflow)
    );
}

#[test]
fn payment_of_a_deposit_of_nothing() {
    let free = RentShareAccount { fix_deposit_amount_per_person: 0, ..event(AgreementStatus::Active, 0) };
    assert_eq!(
        plan_payment(&free, 0, &funder()),
        Ok(Some(PendingPayment {
            transfer: Transfer { source: funder(), destination: winner(), amount: 0 },
            settled: RentShareAccount { status: AgreementStatus::Completed, ..free },
        }))
    );
}

#[test]
fn payments_after_a_participation() {
    let organizers = Context { signers: vec![organizer()], available_balance: 1000 };
    let mut account = RecordAccount { owner: host(), data: vec![0u8; 97] };
    let commands = [
        RentShareInstruction::InitializeEvent {
            payee_identity: winner(),
            creator_identity: organizer(),
            event_id: 7,
            fix_deposit_amount_per_person: 100,
            total_participator_count: 3,
        },
        RentShareInstruction::ParticipateInEvent {
            event_id: 7,
            participate_amount: 200,
            creator_identity: organizer(),
        },
    ];
    for instruction in commands {
        assert_eq!(Processor::process(&host(), &mut account, &organizers, &instruction), Ok(Outcome::Complete));
    }
    assert_eq!(pay(&mut account, &organizers), Ok(Outcome::TransferDue(deposit_transfer())));
    assert_eq!(settle(&mut account, &organizers, Ok(())), Ok(()));
    assert_eq!(record_in(&account), event(AgreementStatus::Active, 100));
    assert_eq!(pay(&mut account, &organizers), Ok(Outcome::TransferDue(deposit_transfer())));
    assert_eq!(settle(&mut account, &organizers, Ok(())), Ok(()));
    assert_eq!(record_in(&account), event(AgreementStatus::Completed, 0));
    assert_eq!(pay(&mut account, &organizers), Err(CoreError::ArithmeticUnderflow));
    assert_eq!(record_in(&account), event(AgreementStatus::Completed, 0));
}
