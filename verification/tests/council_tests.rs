use nagara_core::council::{
    Config, Error, Event, GenesisConfig, HoldReason, Pallet, TransactionFeeInfo, MAX_MEMBERS,
};
use nagara_core::identity::{Judgement, Registration, IDENTITY_FIELD_LEGAL};
use nagara_core::ledger::Ledger;
use nagara_core::primitives::{DispatchError, LedgerError, Origin};

const ELDER: u64 = 1;
const BURN: u64 = 999;
const BOND: u128 = 200;

fn config() -> Config {
    Config {
        registration_deposit_amount: BOND,
        burn_address: BURN,
        initial_weight_to_fee_divider: 16,
        initial_weight_to_fee_multiplier: 1,
        initial_minimum_transaction_fee: 5,
    }
}

fn verified() -> Option<Registration> {
    Some(Registration {
        fields: IDENTITY_FIELD_LEGAL | 1,
        judgements: vec![(0, Judgement::Reasonable), (3, Judgement::KnownGood)],
    })
}

fn council_with_elder() -> (Pallet, Ledger) {
    let mut council = Pallet::new(config());
    council.su_elder_replace(Origin::Root, ELDER).unwrap();
    (council, Ledger::new())
}

fn enrol(council: &mut Pallet, ledger: &mut Ledger, who: u64) {
    ledger.mint_into(who, 1_000).unwrap();
    council.se_membership_add(ledger, Origin::Root, who, &verified()).unwrap();
}

fn council_error(error: Error) -> DispatchError {
    DispatchError::Council(error)
}

#[test]
fn new_council_is_empty_with_initial_fee_parameters() {
    let council = Pallet::new(config());
    assert_eq!(council.elder(), None);
    assert_eq!(council.member_count(), 0);
    assert!(council.current_proposal().is_none());
    assert_eq!(council.config(), config());
    assert_eq!(
        council.tx_fee_info(),
        TransactionFeeInfo {
            weight_to_fee_divider: 16,
            weight_to_fee_multiplier: 1,
            minimum_transaction_fee: 5,
        }
    );
}

#[test]
fn genesis_installs_elder_and_members() {
    let genesis = GenesisConfig { elder: Some(7), big_brothers: vec![3, 4, 3, 5] };
    let council = genesis.build(config());
    assert_eq!(council.elder(), Some(7));
    assert_eq!(council.member_count(), 3);
    assert!(council.is_member(3));
    assert!(council.is_member(4));
    assert!(council.is_member(5));
    assert!(!council.is_member(7));
    assert_eq!(council.members().len(), 3);
    assert_eq!(council.tx_fee_info().minimum_transaction_fee, 5);
}

#[test]
fn only_root_replaces_the_elder() {
    let mut council = Pallet::new(config());
    assert_eq!(council.su_elder_replace(Origin::Signed(1), 1), Err(DispatchError::BadOrigin));
    assert_eq!(council.su_elder_replace(Origin::Unsigned, 1), Err(DispatchError::BadOrigin));
    assert_eq!(council.elder(), None);
    assert_eq!(
        council.su_elder_replace(Origin::Root, 1),
        Ok(vec![Event::ElderAscended { who: 1 }])
    );
    assert_eq!(council.elder(), Some(1));
}

#[test]
fn replacing_the_elder_by_itself_fails() {
    let mut council = Pallet::new(config());
    council.su_elder_replace(Origin::Root, 1).unwrap();
    assert_eq!(
        council.su_elder_replace(Origin::Root, 1),
        Err(council_error(Error::AccountAlreadyAnElder))
    );
    assert_eq!(council.elder(), Some(1));
    assert_eq!(
        council.su_elder_replace(Origin::Root, 2),
        Ok(vec![Event::ElderDescended { who: 1 }, Event::ElderAscended { who: 2 }])
    );
    assert_eq!(council.elder(), Some(2));
}

#[test]
fn elder_or_root_check_tells_every_case_apart() {
    let mut council = Pallet::new(config());
    assert_eq!(council.ensure_and_get_elder_or_root(Origin::Root), Ok(None));
    assert_eq!(
        council.ensure_and_get_elder_or_root(Origin::Signed(1)),
        Err(council_error(Error::UndefinedElder))
    );
    assert_eq!(
        council.ensure_and_get_elder_or_root(Origin::Unsigned),
        Err(DispatchError::BadOrigin)
    );
    council.su_elder_replace(Origin::Root, 1).unwrap();
    assert_eq!(council.ensure_and_get_elder_or_root(Origin::Signed(1)), Ok(Some(1)));
    assert_eq!(
        council.ensure_and_get_elder_or_root(Origin::Signed(2)),
        Err(council_error(Error::SudoOrElderOnly))
    );
    assert_eq!(council.ensure_elder_or_root(Origin::Signed(1)), Ok(()));
    assert_eq!(
        council.ensure_elder_or_root(Origin::Signed(2)),
        Err(council_error(Error::SudoOrElderOnly))
    );
}

#[test]
fn council_member_check_accepts_elder_and_members() {
    let (mut council, mut ledger) = council_with_elder();
    enrol(&mut council, &mut ledger, 5);
    assert_eq!(council.ensure_and_get_council_member(Origin::Signed(ELDER)), Ok(ELDER));
    assert_eq!(council.ensure_and_get_council_member(Origin::Signed(5)), Ok(5));
    assert_eq!(
        council.ensure_and_get_council_member(Origin::Signed(6)),
        Err(council_error(Error::CouncilMemberOnly))
    );
    assert_eq!(
        council.ensure_and_get_council_member(Origin::Root),
        Err(DispatchError::BadOrigin)
    );
    assert_eq!(council.ensure_council_member_or_root(Origin::Root), Ok(()));
    assert_eq!(council.ensure_council_member_or_root(Origin::Signed(5)), Ok(()));
    assert_eq!(
        council.ensure_council_member_or_root(Origin::Signed(6)),
        Err(council_error(Error::CouncilMemberOnly))
    );
    assert_eq!(
        council.ensure_council_member_or_root(Origin::Unsigned),
        Err(DispatchError::BadOrigin)
    );
}

#[test]
fn legality_needs_a_legal_name_and_only_favourable_judgements() {
    assert_eq!(Pallet::ensure_account_has_verified_legality(&verified()), Ok(()));
    assert_eq!(
        Pallet::ensure_account_has_verified_legality(&None),
        Err(council_error(Error::AccountHasNoLegalName))
    );
    let no_legal = Some(Registration { fields: 1 | 4, judgements: vec![(0, Judgement::KnownGood)] });
    assert_eq!(
        Pallet::ensure_account_has_legal_field(&no_legal),
        Err(council_error(Error::AccountHasNoLegalName))
    );
    assert_eq!(
        Pallet::ensure_account_has_verified_legality(&no_legal),
        Err(council_error(Error::AccountHasNoLegalName))
    );
    let unjudged = Some(Registration { fields: IDENTITY_FIELD_LEGAL, judgements: vec![] });
    assert_eq!(Pallet::ensure_account_has_legal_field(&unjudged), Ok(()));
    assert_eq!(
        Pallet::ensure_account_has_verified_legality(&unjudged),
        Err(council_error(Error::AccountIsNotVerifiedLegally))
    );
    for bad in [
        Judgement::Unknown,
        Judgement::FeePaid(10),
        Judgement::OutOfDate,
        Judgement::LowQuality,
        Judgement::Erroneous,
    ] {
        let mixed = Some(Registration {
            fields: IDENTITY_FIELD_LEGAL,
            judgements: vec![(0, Judgement::KnownGood), (1, bad), (2, Judgement::Reasonable)],
        });
        assert_eq!(
            Pallet::ensure_account_has_verified_legality(&mixed),
            Err(council_error(Error::AccountIsNotVerifiedLegally))
        );
    }
}

#[test]
fn adding_a_member_holds_the_bond() {
    let (mut council, mut ledger) = council_with_elder();
    ledger.mint_into(5, 1_000).unwrap();
    assert_eq!(
        council.se_membership_add(&mut ledger, Origin::Signed(ELDER), 5, &verified()),
        Ok(vec![Event::BigBrotherAdded { who: 5, by: Some(ELDER), hold: BOND }])
    );
    assert!(council.is_member(5));
    assert_eq!(council.member_count(), 1);
    assert_eq!(ledger.balance(5), 800);
    assert_eq!(ledger.balance_on_hold(HoldReason::CouncilMembership.into_ledger_reason(), 5), BOND);
}

#[test]
fn adding_a_member_is_refused_for_each_reason() {
    let (mut council, mut ledger) = council_with_elder();
    ledger.mint_into(5, 1_000).unwrap();
    ledger.mint_into(ELDER, 1_000).unwrap();
    assert_eq!(
        council.se_membership_add(&mut ledger, Origin::Signed(5), 5, &verified()),
        Err(council_error(Error::SudoOrElderOnly))
    );
    assert_eq!(
        council.se_membership_add(&mut ledger, Origin::Root, 5, &None),
        Err(council_error(Error::AccountHasNoLegalName))
    );
    assert_eq!(
        council.se_membership_add(&mut ledger, Origin::Root, ELDER, &verified()),
        Err(council_error(Error::AccountAlreadyAMember))
    );
    assert_eq!(
        council.se_membership_add(&mut ledger, Origin::Root, 6, &verified()),
        Err(DispatchError::Ledger(LedgerError::FundsUnavailable))
    );
    assert_eq!(council.member_count(), 0);
    assert_eq!(ledger.balance(5), 1_000);
    council.se_membership_add(&mut ledger, Origin::Root, 5, &verified()).unwrap();
    assert_eq!(
        council.se_membership_add(&mut ledger, Origin::Root, 5, &verified()),
        Err(council_error(Error::AccountAlreadyAMember))
    );
    assert_eq!(ledger.balance(5), 800);
}

#[test]
fn council_never_exceeds_its_bound() {
    let (mut council, mut ledger) = council_with_elder();
    for who in 100..(100 + MAX_MEMBERS as u64) {
        enrol(&mut council, &mut ledger, who);
        assert!(council.member_count() <= MAX_MEMBERS);
    }
    assert_eq!(council.member_count(), MAX_MEMBERS);
    ledger.mint_into(500, 1_000).unwrap();
    assert_eq!(
        council.se_membership_add(&mut ledger, Origin::Root, 500, &verified()),
        Err(council_error(Error::CouncilMembershipFull))
    );
    assert_eq!(council.member_count(), MAX_MEMBERS);
    assert!(!council.is_member(500));
    assert_eq!(ledger.balance(500), 1_000);
    council.se_membership_remove(&mut ledger, Origin::Root, 100).unwrap();
    council.se_membership_add(&mut ledger, Origin::Root, 500, &verified()).unwrap();
    assert_eq!(council.member_count(), MAX_MEMBERS);
}

#[test]
fn removing_a_member_releases_what_is_held() {
    let (mut council, mut ledger) = council_with_elder();
    enrol(&mut council, &mut ledger, 5);
    assert_eq!(
        council.se_membership_remove(&mut ledger, Origin::Signed(ELDER), 6),
        Err(council_error(Error::AccountIsNotAMember))
    );
    assert_eq!(
        council.se_membership_remove(&mut ledger, Origin::Signed(5), 5),
        Err(council_error(Error::SudoOrElderOnly))
    );
    assert_eq!(
        council.se_membership_remove(&mut ledger, Origin::Signed(ELDER), 5),
        Ok(vec![Event::BigBrotherRemoved { who: 5, by: Some(ELDER), release: BOND }])
    );
    assert!(!council.is_member(5));
    assert_eq!(ledger.balance(5), 1_000);
    assert_eq!(ledger.balance_on_hold(HoldReason::CouncilMembership.into_ledger_reason(), 5), 0);
}

#[test]
fn minting_and_burning_move_supply() {
    let (council, mut ledger) = council_with_elder();
    assert_eq!(
        council.se_currency_mint_into(&mut ledger, Origin::Signed(2), BURN, 10),
        Err(council_error(Error::SudoOrElderOnly))
    );
    assert_eq!(
        council.se_currency_mint_into(&mut ledger, Origin::Signed(ELDER), BURN, 100),
        Ok(vec![Event::CirculationIncreased { increase: 100, by: Some(ELDER) }])
    );
    assert_eq!(
        council.se_currency_burn(&mut ledger, Origin::Root, 30),
        Ok(vec![Event::CirculationDecreased { decrease: 30, by: None }])
    );
    assert_eq!(ledger.balance(BURN), 70);
    assert_eq!(
        council.se_currency_burn(&mut ledger, Origin::Root, 500),
        Ok(vec![Event::CirculationDecreased { decrease: 70, by: None }])
    );
    assert_eq!(ledger.balance(BURN), 0);
    council.se_currency_mint_into(&mut ledger, Origin::Root, BURN, 45).unwrap();
    assert_eq!(
        council.se_currency_burn_all(&mut ledger, Origin::Signed(ELDER)),
        Ok(vec![Event::CirculationDecreased { decrease: 45, by: Some(ELDER) }])
    );
    assert_eq!(ledger.balance(BURN), 0);
    assert_eq!(
        council.se_currency_burn_all(&mut ledger, Origin::Unsigned),
        Err(DispatchError::BadOrigin)
    );
    council.se_currency_mint_into(&mut ledger, Origin::Root, 3, u128::MAX).unwrap();
    assert_eq!(
        council.se_currency_mint_into(&mut ledger, Origin::Root, 3, 1),
        Err(DispatchError::Ledger(LedgerError::Overflow))
    );
}

#[test]
fn proposal_takes_missing_parameters_from_those_in_force() {
    let (mut council, mut ledger) = council_with_elder();
    enrol(&mut council, &mut ledger, 5);
    enrol(&mut council, &mut ledger, 6);
    assert_eq!(
        council.cm_proposal_new(Origin::Signed(5), 42, None, None, None),
        Err(council_error(Error::IncorrectProposal))
    );
    assert_eq!(
        council.cm_proposal_new(Origin::Signed(9), 42, Some(2), None, None),
        Err(council_error(Error::CouncilMemberOnly))
    );
    let wished = TransactionFeeInfo {
        weight_to_fee_divider: 16,
        weight_to_fee_multiplier: 2,
        minimum_transaction_fee: 9,
    };
    assert_eq!(
        council.cm_proposal_new(Origin::Signed(5), 42, Some(2), None, Some(9)),
        Ok(vec![Event::TxFeeParametersChangeProposed { proposal: wished, by: 5 }])
    );
    let proposal = council.current_proposal().as_ref().unwrap();
    assert_eq!(proposal.initiator, 5);
    assert_eq!(proposal.initiated_at, 42);
    assert_eq!(proposal.new_parameters, wished);
    assert_eq!(proposal.required_vote_count, 3);
    assert!(proposal.approvers.is_empty());
}

#[test]
fn new_proposal_rejects_the_outstanding_one() {
    let (mut council, mut ledger) = council_with_elder();
    enrol(&mut council, &mut ledger, 5);
    council.cm_proposal_new(Origin::Signed(5), 1, Some(2), None, None).unwrap();
    council.cm_proposal_vote(Origin::Signed(5), true).unwrap();
    let first = TransactionFeeInfo {
        weight_to_fee_divider: 16,
        weight_to_fee_multiplier: 2,
        minimum_transaction_fee: 5,
    };
    let second = TransactionFeeInfo { weight_to_fee_divider: 8, ..council.tx_fee_info() };
    assert_eq!(
        council.cm_proposal_new(Origin::Signed(ELDER), 2, None, Some(8), None),
        Ok(vec![
            Event::TxFeeParametersRejected { rejected: first, by: ELDER },
            Event::TxFeeParametersChangeProposed { proposal: second, by: ELDER },
        ])
    );
    let proposal = council.current_proposal().as_ref().unwrap();
    assert!(proposal.approvers.is_empty());
    assert_eq!(proposal.new_parameters, second);
}

#[test]
fn proposal_is_carried_out_exactly_at_the_required_vote() {
    let (mut council, mut ledger) = council_with_elder();
    enrol(&mut council, &mut ledger, 5);
    enrol(&mut council, &mut ledger, 6);
    let before = council.tx_fee_info();
    assert_eq!(
        council.cm_proposal_vote(Origin::Signed(5), true),
        Err(council_error(Error::NoProposalExists))
    );
    council.cm_proposal_new(Origin::Signed(5), 1, Some(7), Some(3), Some(11)).unwrap();
    assert_eq!(
        council.cm_proposal_vote(Origin::Signed(5), true),
        Ok(vec![Event::TxFeeParametersChangeVoted { by: 5, remaining_count: 2 }])
    );
    assert_eq!(council.tx_fee_info(), before);
    assert_eq!(
        council.cm_proposal_vote(Origin::Signed(5), true),
        Err(council_error(Error::VoteAlreadyCounted))
    );
    assert_eq!(
        council.cm_proposal_vote(Origin::Signed(77), true),
        Err(council_error(Error::CouncilMemberOnly))
    );
    assert_eq!(
        council.cm_proposal_vote(Origin::Signed(ELDER), true),
        Ok(vec![Event::TxFeeParametersChangeVoted { by: ELDER, remaining_count: 1 }])
    );
    assert_eq!(council.tx_fee_info(), before);
    assert!(council.current_proposal().is_some());
    let after = TransactionFeeInfo {
        weight_to_fee_divider: 3,
        weight_to_fee_multiplier: 7,
        minimum_transaction_fee: 11,
    };
    assert_eq!(
        council.cm_proposal_vote(Origin::Signed(6), true),
        Ok(vec![
            Event::TxFeeParametersChangeVoted { by: 6, remaining_count: 0 },
            Event::TxFeeParametersChange { previous: before, current: after },
        ])
    );
    assert_eq!(council.tx_fee_info(), after);
    assert!(council.current_proposal().is_none());
}

#[test]
fn rejecting_vote_discards_the_proposal_whatever_its_approvals() {
    let (mut council, mut ledger) = council_with_elder();
    enrol(&mut council, &mut ledger, 5);
    enrol(&mut council, &mut ledger, 6);
    let before = council.tx_fee_info();
    council.cm_proposal_new(Origin::Signed(5), 1, Some(7), None, None).unwrap();
    council.cm_proposal_vote(Origin::Signed(5), true).unwrap();
    council.cm_proposal_vote(Origin::Signed(6), true).unwrap();
    let wished = TransactionFeeInfo { weight_to_fee_multiplier: 7, ..before };
    assert_eq!(
        council.cm_proposal_vote(Origin::Signed(5), false),
        Ok(vec![Event::TxFeeParametersRejected { rejected: wished, by: 5 }])
    );
    assert!(council.current_proposal().is_none());
    assert_eq!(council.tx_fee_info(), before);
    assert_eq!(
        council.cm_proposal_vote(Origin::Signed(ELDER), true),
        Err(council_error(Error::NoProposalExists))
    );
}

#[test]
fn set_tx_fee_info_returns_replaced_and_new() {
    let mut council = Pallet::new(config());
    let before = council.tx_fee_info();
    let (previous, current) = council.set_tx_fee_info(9, 8, 7);
    assert_eq!(previous, before);
    assert_eq!(
        current,
        TransactionFeeInfo {
            weight_to_fee_divider: 8,
            weight_to_fee_multiplier: 9,
            minimum_transaction_fee: 7,
        }
    );
    assert_eq!(council.tx_fee_info(), current);
}

#[test]
fn elder_is_refused_as_a_member_even_on_a_full_council() {
    let (mut council, mut ledger) = council_with_elder();
    ledger.mint_into(ELDER, 1_000).unwrap();
    assert_eq!(
        council.se_membership_add(&mut ledger, Origin::Root, ELDER, &verified()),
        Err(council_error(Error::AccountAlreadyAMember))
    );
    for who in 100..(100 + MAX_MEMBERS as u64) {
        enrol(&mut council, &mut ledger, who);
    }
    assert_eq!(
        council.se_membership_add(&mut ledger, Origin::Signed(ELDER), ELDER, &verified()),
        Err(council_error(Error::AccountAlreadyAMember))
    );
    assert_eq!(
        council.se_membership_add(&mut ledger, Origin::Root, 100, &verified()),
        Err(council_error(Error::AccountAlreadyAMember))
    );
    ledger.mint_into(500, 1_000).unwrap();
    assert_eq!(
        council.se_membership_add(&mut ledger, Origin::Root, 500, &verified()),
        Err(council_error(Error::CouncilMembershipFull))
    );
    assert_eq!(council.member_count(), MAX_MEMBERS);
    assert_eq!(ledger.balance(ELDER), 1_000);
    assert_eq!(ledger.balance(100), 800);
}

#[test]
fn records_can_be_copied_and_compared() {
    let (mut council, mut ledger) = council_with_elder();
    enrol(&mut council, &mut ledger, 5);
    council.cm_proposal_new(Origin::Signed(5), 3, Some(2), None, None).unwrap();
    council.cm_proposal_vote(Origin::Signed(5), true).unwrap();
    let copy = council.current_proposal().clone().unwrap();
    assert_eq!(copy.initiator, 5);
    assert_eq!(copy.required_vote_count, 2);
    assert!(copy.approvers.contains(&5));
    let genesis = GenesisConfig::default();
    assert_eq!(genesis.elder, None);
    assert!(genesis.big_brothers.is_empty());
    assert_eq!(verified().clone(), verified());
}
