use nagara_core::constants::{get_fee, TOKEN, TOKEN_NANOS, TOKEN_PER_BYTE, TOKEN_PER_ITEM};
use nagara_core::council::TransactionFeeInfo;
use nagara_core::ledger::{AccountData, HoldReason, Ledger, Precision};
use nagara_core::primitives::{
    ensure_root, ensure_signed, ensure_signed_or_root, DispatchError, LedgerError, Origin,
};
use nagara_core::shares::{half_of, split_by_percent};
use nagara_core::transaction_payment::{NormalizedLengthToFee, NormalizedWeightToFee};

#[test]
fn new_ledger_owns_nothing() {
    let ledger = Ledger::new();
    assert_eq!(ledger.balance(1), 0);
    assert_eq!(ledger.balance_on_hold(HoldReason::Binding, 1), 0);
    assert_eq!(
        ledger.account(7),
        AccountData { free: 0, held_for_membership: 0, held_for_binding: 0 }
    );
}

#[test]
fn mint_withdraw_and_deposit_move_exact_amounts() {
    let mut ledger = Ledger::new();
    assert_eq!(ledger.mint_into(1, 1_000), Ok(1_000));
    assert_eq!(ledger.withdraw(1, 250), Ok(250));
    assert_eq!(ledger.balance(1), 750);
    assert_eq!(ledger.deposit_creating(2, 40), 40);
    assert_eq!(ledger.balance(2), 40);
    assert_eq!(ledger.balance(1), 750);
}

#[test]
fn withdraw_beyond_free_balance_fails_and_changes_nothing() {
    let mut ledger = Ledger::new();
    ledger.mint_into(1, 10).unwrap();
    assert_eq!(ledger.withdraw(1, 11), Err(LedgerError::FundsUnavailable));
    assert_eq!(ledger.balance(1), 10);
    assert_eq!(ledger.withdraw(1, 10), Ok(10));
    assert_eq!(ledger.balance(1), 0);
}

#[test]
fn deposit_that_would_overflow_moves_nothing() {
    let mut ledger = Ledger::new();
    ledger.mint_into(1, u128::MAX - 5).unwrap();
    assert_eq!(ledger.deposit_creating(1, 6), 0);
    assert_eq!(ledger.balance(1), u128::MAX - 5);
    assert_eq!(ledger.deposit_creating(1, 5), 5);
    assert_eq!(ledger.balance(1), u128::MAX);
    assert_eq!(ledger.mint_into(1, 1), Err(LedgerError::Overflow));
}

#[test]
fn held_funds_count_against_what_an_account_can_receive() {
    let mut ledger = Ledger::new();
    ledger.mint_into(1, u128::MAX).unwrap();
    ledger.hold(HoldReason::CouncilMembership, 1, 100).unwrap();
    assert_eq!(ledger.balance(1), u128::MAX - 100);
    assert_eq!(ledger.mint_into(1, 1), Err(LedgerError::Overflow));
    assert_eq!(ledger.deposit_creating(1, 1), 0);
}

#[test]
fn hold_then_release_restores_the_free_balance() {
    let mut ledger = Ledger::new();
    ledger.mint_into(1, 1_000).unwrap();
    let before = ledger.account(1);
    assert_eq!(ledger.hold(HoldReason::Binding, 1, 300), Ok(()));
    assert_eq!(ledger.balance(1), 700);
    assert_eq!(ledger.balance_on_hold(HoldReason::Binding, 1), 300);
    assert_eq!(ledger.balance_on_hold(HoldReason::CouncilMembership, 1), 0);
    assert_eq!(ledger.release(HoldReason::Binding, 1, 300, Precision::BestEffort), Ok(300));
    assert_eq!(ledger.account(1), before);
}

#[test]
fn hold_beyond_free_balance_fails() {
    let mut ledger = Ledger::new();
    ledger.mint_into(1, 50).unwrap();
    assert_eq!(ledger.hold(HoldReason::Binding, 1, 51), Err(LedgerError::FundsUnavailable));
    assert_eq!(ledger.balance(1), 50);
    assert_eq!(ledger.balance_on_hold(HoldReason::Binding, 1), 0);
}

#[test]
fn best_effort_release_gives_back_what_is_held_and_never_fails() {
    let mut ledger = Ledger::new();
    ledger.mint_into(1, 100).unwrap();
    ledger.hold(HoldReason::CouncilMembership, 1, 30).unwrap();
    assert_eq!(
        ledger.release(HoldReason::CouncilMembership, 1, 80, Precision::BestEffort),
        Ok(30)
    );
    assert_eq!(ledger.balance(1), 100);
    assert_eq!(
        ledger.release(HoldReason::CouncilMembership, 1, 80, Precision::BestEffort),
        Ok(0)
    );
    assert_eq!(ledger.release(HoldReason::Binding, 9, 5, Precision::BestEffort), Ok(0));
}

#[test]
fn exact_release_fails_when_less_is_held() {
    let mut ledger = Ledger::new();
    ledger.mint_into(1, 100).unwrap();
    ledger.hold(HoldReason::Binding, 1, 30).unwrap();
    assert_eq!(
        ledger.release(HoldReason::Binding, 1, 31, Precision::Exact),
        Err(LedgerError::FundsUnavailable)
    );
    assert_eq!(ledger.balance_on_hold(HoldReason::Binding, 1), 30);
    assert_eq!(ledger.release(HoldReason::Binding, 1, 10, Precision::Exact), Ok(10));
    assert_eq!(ledger.balance_on_hold(HoldReason::Binding, 1), 20);
    assert_eq!(ledger.balance(1), 80);
}

#[test]
fn holds_for_different_reasons_are_kept_apart() {
    let mut ledger = Ledger::new();
    ledger.mint_into(1, 100).unwrap();
    ledger.hold(HoldReason::Binding, 1, 10).unwrap();
    ledger.hold(HoldReason::CouncilMembership, 1, 20).unwrap();
    assert_eq!(
        ledger.account(1),
        AccountData { free: 70, held_for_membership: 20, held_for_binding: 10 }
    );
    assert_eq!(ledger.release(HoldReason::Binding, 1, 100, Precision::BestEffort), Ok(10));
    assert_eq!(ledger.balance_on_hold(HoldReason::CouncilMembership, 1), 20);
}

#[test]
fn burn_is_bounded_by_the_free_balance() {
    let mut ledger = Ledger::new();
    ledger.mint_into(1, 100).unwrap();
    assert_eq!(ledger.burn_from(1, 40, Precision::BestEffort), Ok(40));
    assert_eq!(ledger.burn_from(1, 100, Precision::Exact), Err(LedgerError::FundsUnavailable));
    assert_eq!(ledger.balance(1), 60);
    assert_eq!(ledger.burn_from(1, 100, Precision::BestEffort), Ok(60));
    assert_eq!(ledger.balance(1), 0);
}

#[test]
fn origins_are_told_apart() {
    assert_eq!(ensure_root(Origin::Root), Ok(()));
    assert_eq!(ensure_root(Origin::Signed(1)), Err(DispatchError::BadOrigin));
    assert_eq!(ensure_root(Origin::Unsigned), Err(DispatchError::BadOrigin));
    assert_eq!(ensure_signed(Origin::Signed(4)), Ok(4));
    assert_eq!(ensure_signed(Origin::Root), Err(DispatchError::BadOrigin));
    assert_eq!(ensure_signed(Origin::Unsigned), Err(DispatchError::BadOrigin));
    assert_eq!(ensure_signed_or_root(Origin::Root), Ok(None));
    assert_eq!(ensure_signed_or_root(Origin::Signed(4)), Ok(Some(4)));
    assert_eq!(ensure_signed_or_root(Origin::Unsigned), Err(DispatchError::BadOrigin));
}

#[test]
fn percentage_split_rounds_down_and_loses_nothing() {
    assert_eq!(split_by_percent(30, 2_000), (600, 1_400));
    assert_eq!(split_by_percent(34, 10), (3, 7));
    assert_eq!(split_by_percent(36, 10), (3, 7));
    assert_eq!(split_by_percent(0, 999), (0, 999));
    assert_eq!(split_by_percent(100, 999), (999, 0));
    assert_eq!(split_by_percent(50, 1), (0, 1));
    assert_eq!(split_by_percent(50, 0), (0, 0));
}

#[test]
fn percentage_above_one_hundred_counts_as_one_hundred() {
    assert_eq!(split_by_percent(101, 500), (500, 0));
    assert_eq!(split_by_percent(255, 7), (7, 0));
}

#[test]
fn percentage_split_of_the_largest_amount_does_not_overflow() {
    let (share, rest) = split_by_percent(99, u128::MAX);
    assert_eq!(share, u128::MAX / 100 * 99 + (u128::MAX % 100) * 99 / 100);
    assert_eq!(share + rest, u128::MAX);
    for percent in 0..=100u8 {
        for total in [0u128, 1, 7, 99, 100, 101, 12_345, u128::MAX - 1] {
            let (share, rest) = split_by_percent(percent, total);
            assert!(share <= total);
            assert_eq!(share + rest, total);
        }
    }
}

#[test]
fn half_rounds_down() {
    assert_eq!(half_of(0), 0);
    assert_eq!(half_of(1), 0);
    assert_eq!(half_of(7), 3);
    assert_eq!(half_of(8), 4);
    assert_eq!(half_of(u128::MAX), u128::MAX / 2);
}

#[test]
fn fee_counts_items_and_bytes() {
    assert_eq!(TOKEN, 1_000_000_000);
    assert_eq!(TOKEN_NANOS, 1);
    assert_eq!(TOKEN_PER_BYTE, 14);
    assert_eq!(TOKEN_PER_ITEM, 1_000);
    assert_eq!(get_fee(0, 0), 0);
    assert_eq!(get_fee(1, 0), 1_000);
    assert_eq!(get_fee(0, 1), 14);
    assert_eq!(get_fee(1, 64), 1_896);
    assert_eq!(get_fee(u32::MAX, u32::MAX), 4_294_967_295u128 * 1_014);
}

#[test]
fn weight_fee_scales_divides_and_respects_the_minimum() {
    let info = TransactionFeeInfo {
        weight_to_fee_divider: 4,
        weight_to_fee_multiplier: 3,
        minimum_transaction_fee: 10,
    };
    assert_eq!(NormalizedWeightToFee::weight_to_fee(100, &info), 75);
    assert_eq!(NormalizedWeightToFee::weight_to_fee(13, &info), 10);
    assert_eq!(NormalizedWeightToFee::weight_to_fee(14, &info), 10);
    assert_eq!(NormalizedWeightToFee::weight_to_fee(15, &info), 11);
    assert_eq!(NormalizedWeightToFee::weight_to_fee(0, &info), 10);
}

#[test]
fn weight_fee_saturates_the_product() {
    let info = TransactionFeeInfo {
        weight_to_fee_divider: 2,
        weight_to_fee_multiplier: 3,
        minimum_transaction_fee: 0,
    };
    assert_eq!(NormalizedWeightToFee::weight_to_fee(u64::MAX, &info), (u64::MAX / 2) as u128);
}

#[test]
fn weight_fee_is_undefined_for_a_zero_divider() {
    let info = TransactionFeeInfo {
        weight_to_fee_divider: 0,
        weight_to_fee_multiplier: 3,
        minimum_transaction_fee: 1,
    };
    assert_eq!(NormalizedWeightToFee::checked_weight_to_fee(100, &info), None);
    let info = TransactionFeeInfo { weight_to_fee_divider: 1, ..info };
    assert_eq!(NormalizedWeightToFee::checked_weight_to_fee(100, &info), Some(300));
}

#[test]
fn length_fee_is_one_item_plus_bytes() {
    assert_eq!(NormalizedLengthToFee::weight_to_fee(0), 1_000);
    assert_eq!(NormalizedLengthToFee::weight_to_fee(100), 2_400);
}

#[test]
fn length_fee_counts_no_more_than_32_bits_of_length() {
    let most = 1_000u128 + 4_294_967_295u128 * 14;
    assert_eq!(NormalizedLengthToFee::weight_to_fee(u32::MAX as u64), most);
    assert_eq!(NormalizedLengthToFee::weight_to_fee(u32::MAX as u64 + 1), most);
    assert_eq!(NormalizedLengthToFee::weight_to_fee(u64::MAX), most);
}
