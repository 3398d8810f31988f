use nagara_core::council::{Config as CouncilConfig, Error as CouncilError, Pallet as Council};
use nagara_core::identity::{Judgement, Registration, IDENTITY_FIELD_LEGAL};
use nagara_core::ledger::{HoldReason, Ledger};
use nagara_core::primitives::{DispatchError, Origin};
use nagara_core::registry_servicers::{
    Config, Error, Event, Pallet, RemoteAttestationDeviceSupplyArgs,
};

const ELDER: u64 = 1;
const MEMBER: u64 = 2;
const FIRST: u64 = 10;
const SECOND: u64 = 11;

fn setup() -> (Council, Ledger, Pallet) {
    let mut council = Council::new(CouncilConfig {
        registration_deposit_amount: 200,
        burn_address: 999,
        initial_weight_to_fee_divider: 1,
        initial_weight_to_fee_multiplier: 1,
        initial_minimum_transaction_fee: 0,
    });
    let mut ledger = Ledger::new();
    council.su_elder_replace(Origin::Root, ELDER).unwrap();
    ledger.mint_into(MEMBER, 1_000).unwrap();
    let verified = Some(Registration {
        fields: IDENTITY_FIELD_LEGAL,
        judgements: vec![(0, Judgement::Reasonable)],
    });
    council.se_membership_add(&mut ledger, Origin::Root, MEMBER, &verified).unwrap();
    ledger.mint_into(FIRST, 1_000).unwrap();
    ledger.mint_into(SECOND, 1_000).unwrap();
    let registry = Pallet::new(Config { binding_deposit_amount: 100, registration_fee_amount: 40 });
    (council, ledger, registry)
}

fn device(n: u128) -> RemoteAttestationDeviceSupplyArgs {
    RemoteAttestationDeviceSupplyArgs { id: (0, n), guid: [n as u8; 16], serial_number: n as u32 }
}

#[test]
fn batch_is_supplied_in_order() {
    let (council, _, mut registry) = setup();
    assert_eq!(
        registry.bb_attester_bulk_supply(
            &council,
            Origin::Signed(MEMBER),
            &vec![device(1), device(2), device(3)]
        ),
        Ok(vec![
            Event::BigBrotherAttesterSupplied { id: (0, 1), bb: MEMBER },
            Event::BigBrotherAttesterSupplied { id: (0, 2), bb: MEMBER },
            Event::BigBrotherAttesterSupplied { id: (0, 3), bb: MEMBER },
        ])
    );
    for n in 1..=3u128 {
        let supplied = registry.attesters((0, n)).unwrap();
        assert_eq!(supplied.big_brother, MEMBER);
        assert_eq!(supplied.serial_number, n as u32);
        assert_eq!(supplied.binder, None);
    }
    assert_eq!(registry.bb_attester_bulk_supply(&council, Origin::Signed(MEMBER), &vec![]), Ok(vec![]));
}

#[test]
fn batch_with_a_known_or_repeated_device_supplies_nothing() {
    let (council, _, mut registry) = setup();
    registry.bb_attester_supply(&council, Origin::Signed(MEMBER), device(2)).unwrap();
    assert_eq!(
        registry.bb_attester_bulk_supply(
            &council,
            Origin::Signed(MEMBER),
            &vec![device(1), device(2), device(3)]
        ),
        Err(DispatchError::Registry(Error::AttesterAlreadySupplied))
    );
    assert_eq!(registry.attesters((0, 1)), None);
    assert_eq!(registry.attesters((0, 3)), None);
    assert!(registry.attesters((0, 2)).is_some());
    assert_eq!(
        registry.bb_attester_bulk_supply(
            &council,
            Origin::Signed(MEMBER),
            &vec![device(4), device(5), device(4)]
        ),
        Err(DispatchError::Registry(Error::AttesterAlreadySupplied))
    );
    assert_eq!(registry.attesters((0, 4)), None);
    assert_eq!(registry.attesters((0, 5)), None);
    assert_eq!(
        registry.bb_attester_bulk_supply(&council, Origin::Signed(77), &vec![device(4)]),
        Err(DispatchError::Council(CouncilError::CouncilMemberOnly))
    );
}

#[test]
fn batch_is_recalled_in_order_or_not_at_all() {
    let (council, mut ledger, mut registry) = setup();
    registry
        .bb_attester_bulk_supply(&council, Origin::Signed(MEMBER), &vec![device(1), device(2), device(3)])
        .unwrap();
    registry.bb_attester_supply(&council, Origin::Signed(ELDER), device(9)).unwrap();
    assert_eq!(
        registry.bb_attester_bulk_recall(&council, Origin::Signed(MEMBER), &vec![(0, 1), (0, 9)]),
        Err(DispatchError::Registry(Error::RestrictedCall))
    );
    assert_eq!(
        registry.bb_attester_bulk_recall(&council, Origin::Signed(MEMBER), &vec![(0, 1), (0, 7)]),
        Err(DispatchError::Registry(Error::AttesterDoesntExist))
    );
    assert_eq!(
        registry.bb_attester_bulk_recall(&council, Origin::Signed(MEMBER), &vec![(0, 1), (0, 1)]),
        Err(DispatchError::Registry(Error::AttesterDoesntExist))
    );
    registry.sv_attester_bind(&mut ledger, Origin::Signed(FIRST), (5, 5), (0, 3)).unwrap();
    assert_eq!(
        registry.bb_attester_bulk_recall(&council, Origin::Signed(MEMBER), &vec![(0, 2), (0, 3)]),
        Err(DispatchError::Registry(Error::AttesterAlreadyBinded))
    );
    assert!(registry.attesters((0, 1)).is_some());
    assert!(registry.attesters((0, 2)).is_some());
    assert_eq!(
        registry.bb_attester_bulk_recall(&council, Origin::Signed(MEMBER), &vec![(0, 2), (0, 1)]),
        Ok(vec![
            Event::BigBrotherAttesterRecalled { id: (0, 2), bb: MEMBER },
            Event::BigBrotherAttesterRecalled { id: (0, 1), bb: MEMBER },
        ])
    );
    assert_eq!(registry.attesters((0, 1)), None);
    assert_eq!(registry.attesters((0, 2)), None);
    assert!(registry.attesters((0, 3)).is_some());
    assert!(registry.attesters((0, 9)).is_some());
    assert_eq!(
        registry.bb_attester_bulk_recall(&council, Origin::Root, &vec![(0, 9)]),
        Err(DispatchError::BadOrigin)
    );
}

#[test]
fn forced_rebinding_moves_the_device_to_the_other_servicer() {
    let (council, mut ledger, mut registry) = setup();
    registry.bb_attester_supply(&council, Origin::Signed(MEMBER), device(1)).unwrap();
    registry.bb_attester_supply(&council, Origin::Signed(MEMBER), device(2)).unwrap();
    registry.sv_attester_bind(&mut ledger, Origin::Signed(FIRST), (5, 5), (0, 1)).unwrap();
    registry.sv_attester_bind(&mut ledger, Origin::Signed(FIRST), (6, 6), (0, 2)).unwrap();
    assert_eq!(
        registry.bb_attester_force_rebind(&council, Origin::Signed(ELDER), (0, 1), SECOND),
        Ok(vec![Event::RemoteAttestationDeviceRebindedForcefully {
            device: (0, 1),
            from: FIRST,
            to: SECOND,
            by: ELDER,
        }])
    );
    assert_eq!(registry.attesters((0, 1)).unwrap().binder, Some(SECOND));
    assert_eq!(registry.attesters((0, 1)).unwrap().big_brother, MEMBER);
    let first = registry.servicers(FIRST).unwrap();
    assert_eq!(first.get_peer_id(&(0, 1)), None);
    assert_eq!(first.get_peer_id(&(0, 2)), Some((6, 6)));
    let second = registry.servicers(SECOND).unwrap();
    assert_eq!(second.get_peer_id(&(0, 1)), Some((5, 5)));
    assert_eq!(second.rep_positive, 0);
    assert_eq!(ledger.balance_on_hold(HoldReason::Binding, FIRST), 200);
    assert_eq!(ledger.balance_on_hold(HoldReason::Binding, SECOND), 0);
    assert_eq!(
        registry.bb_attester_force_rebind(&council, Origin::Signed(MEMBER), (0, 1), FIRST),
        Ok(vec![Event::RemoteAttestationDeviceRebindedForcefully {
            device: (0, 1),
            from: SECOND,
            to: FIRST,
            by: MEMBER,
        }])
    );
    assert_eq!(registry.servicers(FIRST).unwrap().get_peer_id(&(0, 1)), Some((5, 5)));
    assert_eq!(registry.servicers(SECOND).unwrap().get_peer_id(&(0, 1)), None);
}

#[test]
fn forced_rebinding_is_refused_for_each_reason() {
    let (council, mut ledger, mut registry) = setup();
    registry.bb_attester_supply(&council, Origin::Signed(MEMBER), device(1)).unwrap();
    assert_eq!(
        registry.bb_attester_force_rebind(&council, Origin::Signed(MEMBER), (0, 7), SECOND),
        Err(DispatchError::Registry(Error::DeviceDoesntExist))
    );
    assert_eq!(
        registry.bb_attester_force_rebind(&council, Origin::Signed(MEMBER), (0, 1), SECOND),
        Err(DispatchError::Registry(Error::DeviceForceRebindRejected))
    );
    registry.sv_attester_bind(&mut ledger, Origin::Signed(FIRST), (5, 5), (0, 1)).unwrap();
    assert_eq!(
        registry.bb_attester_force_rebind(&council, Origin::Signed(MEMBER), (0, 1), FIRST),
        Err(DispatchError::Registry(Error::DeviceForceRebindRejected))
    );
    assert_eq!(
        registry.bb_attester_force_rebind(&council, Origin::Signed(FIRST), (0, 1), SECOND),
        Err(DispatchError::Council(CouncilError::CouncilMemberOnly))
    );
    assert_eq!(
        registry.bb_attester_force_rebind(&council, Origin::Root, (0, 1), SECOND),
        Err(DispatchError::BadOrigin)
    );
    assert_eq!(registry.attesters((0, 1)).unwrap().binder, Some(FIRST));
    assert!(registry.servicers(SECOND).is_none());
}
