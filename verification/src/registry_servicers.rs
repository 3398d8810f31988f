//! The attester registry: attestation devices that council members supply
//! and servicers bind against a bond, the reputation of servicers, and the
//! mediators who may adjust it.
//!
//! A device is unsupplied, then unbound, then bound. Only an unbound device
//! can be recalled. A bound device stays bound to its servicer unless a
//! council member passes it to another one.

use vstd::prelude::*;
use std::collections::BTreeMap;
use crate::account_set::{
    account_set_contains,
    account_set_new,
    account_set_remove,
    account_set_try_insert,
    accounts_in,
    AccountSet,
    ACCOUNT_SET_BOUND,
};
use crate::council::legality_refusal;
use crate::identity::Registration;
use crate::ledger::{debited, held, Book, Ledger, Precision};
use crate::primitives::{
    ensure_signed,
    AccountId,
    Balance,
    DispatchError,
    Key256,
    LedgerError,
    Origin,
};

verus! {

/// Identifies an attestation device: its public key.
pub type AttesterId = Key256;

/// Identifies a servicer's network peer: its public key.
pub type PeerId = Key256;

/// The globally unique identifier that device drivers know a device by.
pub type Guid = [u8; 16];

/// The most mediators there can be.
pub const MAX_MEDIATORS: u32 = ACCOUNT_SET_BOUND;

/// Why the registry holds funds.
#[derive(Clone, Copy, Debug, PartialEq, Eq)]
pub enum HoldReason {
    /// Held for a binding, once per attester.
    Binding,
}

impl HoldReason {
    /// The ledger's name for this reason.
    pub open spec fn as_ledger_reason(self) -> crate::ledger::HoldReason {
        crate::ledger::HoldReason::Binding
    }

    /// The ledger's name for this reason.
    pub fn into_ledger_reason(self) -> (reason: crate::ledger::HoldReason)
        ensures
            reason == self.as_ledger_reason(),
    {
        crate::ledger::HoldReason::Binding
    }
}

/// What a council member states when supplying a device.
#[derive(Clone, Copy, Debug, PartialEq, Eq)]
pub struct RemoteAttestationDeviceSupplyArgs {
    pub id: AttesterId,
    pub guid: Guid,
    pub serial_number: u32,
}

/// A supplied attestation device.
#[derive(Clone, Copy, Debug, PartialEq, Eq)]
pub struct RemoteAttestationDevice {
    /// The council member who supplied the device.
    pub big_brother: AccountId,
    pub serial_number: u32,
    pub guid: Guid,
    /// The servicer that bound the device; `None` while it is unbound.
    pub binder: Option<AccountId>,
}

impl RemoteAttestationDevice {
    /// Whether a servicer has bound the device.
    pub fn is_binded(&self) -> (bound: bool)
        ensures
            bound == self.binder is Some,
    {
        self.binder.is_some()
    }
}

/// What the registry records about a servicer.
#[derive(Clone, Debug)]
pub struct ServicerInformation {
    pub rep_positive: u32,
    pub rep_negative: u32,
    /// The peer that serves each device the servicer has bound.
    pub bindings: BTreeMap<AttesterId, PeerId>,
}

/// The mathematical model of a servicer's record.
#[verifier::ext_equal]
pub struct ServicerState {
    pub rep_positive: u32,
    pub rep_negative: u32,
    pub bindings: Map<AttesterId, PeerId>,
}

impl ServicerState {
    /// The record of a servicer that has bound nothing yet.
    pub open spec fn fresh() -> ServicerState {
        ServicerState { rep_positive: 0, rep_negative: 0, bindings: Map::empty() }
    }

    /// This record with the device `attester_id` bound through `peer_id`.
    pub open spec fn with_binding(self, attester_id: AttesterId, peer_id: PeerId) -> ServicerState {
        ServicerState { bindings: self.bindings.insert(attester_id, peer_id), ..self }
    }

    /// This record after a mediator raised the reputation: one more
    /// positive mark, unless the counter is at its maximum.
    pub open spec fn praised(self) -> ServicerState {
        ServicerState {
            rep_positive: if self.rep_positive == u32::MAX {
                u32::MAX
            } else {
                (self.rep_positive + 1) as u32
            },
            ..self
        }
    }

    /// This record after a mediator lowered the reputation: one more
    /// negative mark, unless the counter is at its maximum.
    pub open spec fn blamed(self) -> ServicerState {
        ServicerState {
            rep_negative: if self.rep_negative == u32::MAX {
                u32::MAX
            } else {
                (self.rep_negative + 1) as u32
            },
            ..self
        }
    }

    /// The positive marks less the negative ones.
    pub open spec fn total_reputation(self) -> int {
        self.rep_positive - self.rep_negative
    }
}

/// A mark moves the reputation by one: below the counters' maximum, praise
/// raises the total reputation by one and blame lowers it by one, and
/// neither touches the other counter or the bindings.
pub proof fn lemma_marks_move_reputation_by_one(record: ServicerState)
    ensures
        record.rep_positive < u32::MAX ==> record.praised().total_reputation()
            == record.total_reputation() + 1,
        record.rep_negative < u32::MAX ==> record.blamed().total_reputation()
            == record.total_reputation() - 1,
        record.praised().rep_negative == record.rep_negative,
        record.blamed().rep_positive == record.rep_positive,
        record.praised().bindings == record.bindings,
        record.blamed().bindings == record.bindings,
{
}

impl View for ServicerInformation {
    type V = ServicerState;

    open spec fn view(&self) -> ServicerState {
        ServicerState {
            rep_positive: self.rep_positive,
            rep_negative: self.rep_negative,
            bindings: self.bindings@,
        }
    }
}

impl ServicerInformation {
    /// The peer through which the servicer serves `attester_id`, if it has
    /// bound that device.
    pub fn get_peer_id(&self, attester_id: &AttesterId) -> (peer: Option<PeerId>)
        ensures
            peer == (if self@.bindings.contains_key(*attester_id) {
                Some(self@.bindings[*attester_id])
            } else {
                None
            }),
    {
        match self.bindings.get(attester_id) {
            Some(peer_id) => Some(*peer_id),
            None => None,
        }
    }

    /// The positive marks less the negative ones.
    pub fn get_total_reputation(&self) -> (total: i64)
        ensures
            total == self@.total_reputation(),
    {
        self.rep_positive as i64 - self.rep_negative as i64
    }

    /// Records that the servicer serves `attester_id` through `peer_id`.
    /// Fails, changing nothing, when the servicer has bound that device
    /// already.
    pub fn try_add_binding(&mut self, attester_id: AttesterId, peer_id: PeerId) -> (res: Result<
        (),
        DispatchError,
    >)
        ensures
            old(self)@.bindings.contains_key(attester_id) ==> res == Err::<(), DispatchError>(
                DispatchError::Registry(Error::AttesterAlreadyBinded),
            ) && final(self)@ == old(self)@,
            !old(self)@.bindings.contains_key(attester_id) ==> res is Ok && final(self)@ == old(
                self,
            )@.with_binding(attester_id, peer_id),
    {
        if self.bindings.contains_key(&attester_id) {
            return Err(DispatchError::Registry(Error::AttesterAlreadyBinded));
        }
        self.bindings.insert(attester_id, peer_id);
        Ok(())
    }

    /// Adds a positive mark, unless the counter is at its maximum.
    pub fn increase_reputation(&mut self)
        ensures
            final(self)@ == old(self)@.praised(),
    {
        self.rep_positive = self.rep_positive.saturating_add(1);
    }

    /// Adds a negative mark, unless the counter is at its maximum.
    pub fn decrease_reputation(&mut self)
        ensures
            final(self)@ == old(self)@.blamed(),
    {
        self.rep_negative = self.rep_negative.saturating_add(1);
    }
}

/// The registry's own errors.
#[derive(Clone, Copy, Debug, PartialEq, Eq)]
pub enum Error {
    /// The module's bookkeeping is inconsistent.
    FatalError,
    /// Only the council member who supplied the device may call.
    RestrictedCall,
    /// The device is bound already.
    AttesterAlreadyBinded,
    /// No device is supplied under the identifier.
    AttesterDoesntExist,
    /// A device is supplied under the identifier already.
    AttesterAlreadySupplied,
    /// The device is bound to no one.
    AttesterIsUnbinded,
    /// No device is supplied under the identifier that is to be rebound.
    DeviceDoesntExist,
    /// The device is unbound, or bound to that servicer already.
    DeviceForceRebindRejected,
    /// The servicer cannot pay the registration fee.
    ServicerCannotPayRegistrationFee,
    /// The account is a mediator already.
    MediatorAlreadyRegistered,
    /// The account is not a mediator.
    MediatorNotFound,
}

/// What the registry reports to observers.
#[derive(Clone, Copy, Debug, PartialEq, Eq)]
#[allow(inconsistent_fields)]
pub enum Event {
    BigBrotherAttesterSupplied { id: AttesterId, bb: AccountId },
    BigBrotherAttesterRecalled { id: AttesterId, bb: AccountId },
    ServicerReputationIncreased { by: AccountId, on: AttesterId, who: AccountId },
    ServicerReputationDecreased { by: AccountId, on: AttesterId, who: AccountId },
    AttesterBinded { to: AccountId, which: AttesterId, peer_id: PeerId },
    AttesterUnbinded { by: Option<AccountId>, from: AccountId },
    MediatorAdded { who: AccountId, by: AccountId },
    MediatorRemoved { who: AccountId, by: AccountId },
    ServicerRegistrationFeePaid { who: AccountId, amount: Balance },
    ServicerBalanceHeldForBinding { who: AccountId, amount: Balance },
    ServicerBalanceHeldForBindingReleased { who: AccountId, amount: Balance },
    RemoteAttestationDeviceRebindedForcefully {
        device: AttesterId,
        from: AccountId,
        to: AccountId,
        by: AccountId,
    },
}

/// The registry's parameters.
#[derive(Clone, Copy, Debug, PartialEq, Eq)]
pub struct Config {
    /// The bond held from a servicer for every device it binds.
    pub binding_deposit_amount: Balance,
    /// The fee a servicer pays once, with its first binding.
    pub registration_fee_amount: Balance,
}

/// A command's failure with one of the registry's errors.
pub open spec fn registry_error(error: Error) -> Result<Vec<Event>, DispatchError> {
    Err(DispatchError::Registry(error))
}

/// The models of the servicers' records.
pub open spec fn servicer_views(servicers: Map<AccountId, ServicerInformation>) -> Map<
    AccountId,
    ServicerState,
> {
    Map::new(|who: AccountId| servicers.contains_key(who), |who: AccountId| servicers[who]@)
}

/// The mathematical model of the registry.
#[verifier::ext_equal]
pub struct RegistryState {
    pub config: Config,
    /// The supplied devices.
    pub attesters: Map<AttesterId, RemoteAttestationDevice>,
    pub mediators: Set<AccountId>,
    /// The records of the servicers that have bound a device.
    pub servicers: Map<AccountId, ServicerState>,
}

impl RegistryState {
    /// The registry's invariant: the mediators are at most
    /// [`MAX_MEDIATORS`], and the devices and the servicers' records agree
    /// on who has bound what.
    pub open spec fn is_sound(self) -> bool {
        &&& self.mediators.finite()
        &&& self.mediators.len() <= MAX_MEDIATORS
        &&& forall|id: AttesterId| #[trigger]
            self.attesters.contains_key(id) ==> (self.attesters[id].binder matches Some(binder)
                ==> self.servicers.contains_key(binder) && self.servicers[binder].bindings.contains_key(
                id,
            ))
        &&& forall|who: AccountId, id: AttesterId|
            self.servicers.contains_key(who) && #[trigger] self.servicers[who].bindings.contains_key(
                id,
            ) ==> self.attesters.contains_key(id) && self.attesters[id].binder == Some(who)
    }

    /// The servicer's record, or a fresh one if it has none.
    pub open spec fn record_of(self, who: AccountId) -> ServicerState {
        if self.servicers.contains_key(who) {
            self.servicers[who]
        } else {
            ServicerState::fresh()
        }
    }

    /// What `big_brother` supplying a device does: an identifier that is
    /// supplied already is refused; otherwise the device is there, unbound.
    pub open spec fn supply_outcome(
        self,
        big_brother: AccountId,
        supply_args: RemoteAttestationDeviceSupplyArgs,
        after: RegistryState,
        res: Result<Event, DispatchError>,
    ) -> bool {
        if self.attesters.contains_key(supply_args.id) {
            &&& res == Err::<Event, DispatchError>(
                DispatchError::Registry(Error::AttesterAlreadySupplied),
            )
            &&& after == self
        } else {
            &&& res == Ok::<Event, DispatchError>(
                Event::BigBrotherAttesterSupplied { id: supply_args.id, bb: big_brother },
            )
            &&& after == (RegistryState {
                attesters: self.attesters.insert(
                    supply_args.id,
                    RemoteAttestationDevice {
                        big_brother,
                        serial_number: supply_args.serial_number,
                        guid: supply_args.guid,
                        binder: None,
                    },
                ),
                ..self
            })
        }
    }

    /// Why `caller` cannot recall the device `attester_id`, if it cannot.
    pub open spec fn recall_refusal(self, caller: AccountId, attester_id: AttesterId) -> Option<
        Error,
    > {
        if !self.attesters.contains_key(attester_id) {
            Some(Error::AttesterDoesntExist)
        } else if self.attesters[attester_id].binder is Some {
            Some(Error::AttesterAlreadyBinded)
        } else if self.attesters[attester_id].big_brother != caller {
            Some(Error::RestrictedCall)
        } else {
            None
        }
    }

    /// What `caller` recalling a device does: only a device that exists,
    /// is unbound and was supplied by the caller is recalled, and then it
    /// is gone.
    pub open spec fn recall_outcome(
        self,
        caller: AccountId,
        attester_id: AttesterId,
        after: RegistryState,
        res: Result<Event, DispatchError>,
    ) -> bool {
        match self.recall_refusal(caller, attester_id) {
            Some(error) => {
                &&& res == Err::<Event, DispatchError>(DispatchError::Registry(error))
                &&& after == self
            },
            None => {
                &&& res == Ok::<Event, DispatchError>(
                    Event::BigBrotherAttesterRecalled { id: attester_id, bb: caller },
                )
                &&& after == (RegistryState {
                    attesters: self.attesters.remove(attester_id),
                    ..self
                })
            },
        }
    }

    /// Whether `binder` has to pay the registration fee with its next
    /// binding: it does while it has no record.
    pub open spec fn owes_registration_fee(self, binder: AccountId) -> bool {
        !self.servicers.contains_key(binder)
    }

    /// Why `binder` cannot bind the device `attester_id`, if it cannot.
    pub open spec fn bind_refusal(self, book: Book, binder: AccountId, attester_id: AttesterId)
        -> Option<DispatchError> {
        if !self.attesters.contains_key(attester_id) {
            Some(DispatchError::Registry(Error::AttesterDoesntExist))
        } else if self.attesters[attester_id].binder is Some {
            Some(DispatchError::Registry(Error::AttesterAlreadyBinded))
        } else if book[binder].free < self.config.binding_deposit_amount {
            Some(DispatchError::Ledger(LedgerError::FundsUnavailable))
        } else if self.owes_registration_fee(binder) && book[binder].free
            - self.config.binding_deposit_amount < self.config.registration_fee_amount {
            Some(DispatchError::Registry(Error::ServicerCannotPayRegistrationFee))
        } else if self.record_of(binder).bindings.contains_key(attester_id) {
            Some(DispatchError::Registry(Error::AttesterAlreadyBinded))
        } else {
            None
        }
    }

    /// The book after `binder` paid for a binding: the bond is held, and a
    /// servicer without a record pays the registration fee on top.
    pub open spec fn bind_settlement(self, book: Book, binder: AccountId) -> Book {
        let bonded = held(
            book,
            crate::ledger::HoldReason::Binding,
            binder,
            self.config.binding_deposit_amount,
        );
        if self.owes_registration_fee(binder) {
            debited(bonded, binder, self.config.registration_fee_amount)
        } else {
            bonded
        }
    }

    /// The events of a binding, in order.
    pub open spec fn bind_events(self, binder: AccountId, peer_id: PeerId, attester_id: AttesterId)
        -> Seq<Event> {
        let bonded = Event::ServicerBalanceHeldForBinding {
            who: binder,
            amount: self.config.binding_deposit_amount,
        };
        let bound = Event::AttesterBinded { to: binder, which: attester_id, peer_id };
        if self.owes_registration_fee(binder) {
            seq![
                bonded,
                Event::ServicerRegistrationFeePaid {
                    who: binder,
                    amount: self.config.registration_fee_amount,
                },
                bound,
            ]
        } else {
            seq![bonded, bound]
        }
    }

    /// What `binder` binding the device `attester_id` through `peer_id`
    /// does. A refused binding returns its error and changes nothing:
    /// neither the registry nor the book, whatever had been held on the
    /// way. An accepted one holds the bond, takes the registration fee
    /// from a servicer without a record, binds the device and records the
    /// binding.
    pub open spec fn bind_outcome(
        self,
        book: Book,
        binder: AccountId,
        peer_id: PeerId,
        attester_id: AttesterId,
        after: RegistryState,
        book_after: Book,
        res: Result<Vec<Event>, DispatchError>,
    ) -> bool {
        match self.bind_refusal(book, binder, attester_id) {
            Some(error) => {
                &&& res == Err::<Vec<Event>, DispatchError>(error)
                &&& after == self
                &&& book_after == book
            },
            None => {
                &&& res is Ok
                &&& res->Ok_0@ == self.bind_events(binder, peer_id, attester_id)
                &&& after == (RegistryState {
                    attesters: self.attesters.insert(
                        attester_id,
                        RemoteAttestationDevice {
                            binder: Some(binder),
                            ..self.attesters[attester_id]
                        },
                    ),
                    servicers: self.servicers.insert(
                        binder,
                        self.record_of(binder).with_binding(attester_id, peer_id),
                    ),
                    ..self
                })
                &&& book_after == self.bind_settlement(book, binder)
            },
        }
    }

    /// The check that only a signed call of a mediator passes.
    pub open spec fn signed_mediator(self, origin: Origin) -> Result<AccountId, DispatchError> {
        match origin {
            Origin::Signed(caller) => if self.mediators.contains(caller) {
                Ok(caller)
            } else {
                Err(DispatchError::Registry(Error::MediatorNotFound))
            },
            _ => Err(DispatchError::BadOrigin),
        }
    }

    /// Why the reputation of the servicer behind the device `on` cannot be
    /// adjusted by this origin, if it cannot.
    pub open spec fn reputation_refusal(self, origin: Origin, on: AttesterId) -> Option<
        DispatchError,
    > {
        if self.signed_mediator(origin) is Err {
            Some(self.signed_mediator(origin)->Err_0)
        } else if !self.attesters.contains_key(on) {
            Some(DispatchError::Registry(Error::AttesterDoesntExist))
        } else if self.attesters[on].binder is None {
            Some(DispatchError::Registry(Error::AttesterIsUnbinded))
        } else {
            None
        }
    }

    /// What a mediator adjusting the reputation of the servicer behind the
    /// device `on` does: the record of the servicer that bound the device
    /// gets one more positive mark or one more negative mark, within the
    /// bounds of the counters.
    pub open spec fn reputation_outcome(
        self,
        origin: Origin,
        on: AttesterId,
        upwards: bool,
        after: RegistryState,
        res: Result<Vec<Event>, DispatchError>,
    ) -> bool {
        match self.reputation_refusal(origin, on) {
            Some(error) => {
                &&& res == Err::<Vec<Event>, DispatchError>(error)
                &&& after == self
            },
            None => {
                let by = self.signed_mediator(origin)->Ok_0;
                let who = self.attesters[on].binder->Some_0;
                let record = self.servicers[who];
                &&& res is Ok
                &&& res->Ok_0@ == seq![
                    if upwards {
                        Event::ServicerReputationIncreased { by, on, who }
                    } else {
                        Event::ServicerReputationDecreased { by, on, who }
                    },
                ]
                &&& after == (RegistryState {
                    servicers: self.servicers.insert(
                        who,
                        if upwards {
                            record.praised()
                        } else {
                            record.blamed()
                        },
                    ),
                    ..self
                })
            },
        }
    }
}

/// The attester registry.
pub struct Pallet {
    config: Config,
    attesters: BTreeMap<AttesterId, RemoteAttestationDevice>,
    mediators: AccountSet,
    servicers: BTreeMap<AccountId, ServicerInformation>,
}

impl View for Pallet {
    type V = RegistryState;

    closed spec fn view(&self) -> RegistryState {
        RegistryState {
            config: self.config,
            attesters: self.attesters@,
            mediators: accounts_in(self.mediators),
            servicers: servicer_views(self.servicers@),
        }
    }
}

impl Pallet {
    /// The registry's invariant.
    pub open spec fn wf(&self) -> bool {
        self@.is_sound()
    }

    /// A registry without devices, mediators or servicers.
    pub fn new(config: Config) -> (pallet: Pallet)
        ensures
            pallet.wf(),
            pallet@ == (RegistryState {
                config,
                attesters: Map::empty(),
                mediators: Set::empty(),
                servicers: Map::empty(),
            }),
    {
        let pallet = Pallet {
            config,
            attesters: BTreeMap::new(),
            mediators: account_set_new(),
            servicers: BTreeMap::new(),
        };
        assert(pallet@.servicers =~= Map::empty());
        pallet
    }

    /// The registry's parameters.
    pub fn config(&self) -> (config: Config)
        ensures
            config == self@.config,
    {
        self.config
    }

    /// The device supplied under `attester_id`, if there is one.
    pub fn attesters(&self, attester_id: AttesterId) -> (device: Option<RemoteAttestationDevice>)
        ensures
            device == (if self@.attesters.contains_key(attester_id) {
                Some(self@.attesters[attester_id])
            } else {
                None
            }),
    {
        match self.attesters.get(&attester_id) {
            Some(device) => Some(*device),
            None => None,
        }
    }

    /// The mediators.
    pub fn mediators(&self) -> (mediators: &AccountSet)
        ensures
            accounts_in(*mediators) == self@.mediators,
    {
        &self.mediators
    }

    /// The record of the servicer `who`, if it has one.
    pub fn servicers(&self, who: AccountId) -> (record: Option<&ServicerInformation>)
        ensures
            match record {
                Some(record) => self@.servicers.contains_key(who) && record@ == self@.servicers[who],
                None => !self@.servicers.contains_key(who),
            },
    {
        self.servicers.get(&who)
    }

    /// Ensures that the origin is a signed call of a mediator, and returns
    /// the mediator.
    pub fn ensure_and_get_signed_mediator(&self, origin: Origin) -> (res: Result<
        AccountId,
        DispatchError,
    >)
        ensures
            res == self@.signed_mediator(origin),
    {
        let mediator: AccountId = match ensure_signed(origin) {
            Ok(mediator) => mediator,
            Err(error) => {
                return Err(error);
            },
        };
        if !account_set_contains(&self.mediators, mediator) {
            return Err(DispatchError::Registry(Error::MediatorNotFound));
        }
        Ok(mediator)
    }

    /// Supplies a new, unbound device in the name of `big_brother`.
    pub fn try_supply_new_attester(
        &mut self,
        big_brother: AccountId,
        supply_args: RemoteAttestationDeviceSupplyArgs,
    ) -> (res: Result<Event, DispatchError>)
        requires
            old(self).wf(),
        ensures
            final(self).wf(),
            old(self)@.supply_outcome(big_brother, supply_args, final(self)@, res),
    {
        let RemoteAttestationDeviceSupplyArgs { id, guid, serial_number } = supply_args;
        if self.attesters.contains_key(&id) {
            return Err(DispatchError::Registry(Error::AttesterAlreadySupplied));
        }
        let new_attester = RemoteAttestationDevice { big_brother, binder: None, guid, serial_number };
        let event = Event::BigBrotherAttesterSupplied { id, bb: big_brother };
        self.attesters.insert(id, new_attester);
        proof {
            assert forall|who: AccountId, bound: AttesterId|
                self@.servicers.contains_key(who) && #[trigger] self@.servicers[who].bindings.contains_key(
                    bound,
                ) implies self@.attesters.contains_key(bound) && self@.attesters[bound].binder
                == Some(who) by {
                assert(old(self)@.servicers[who].bindings.contains_key(bound));
            }
        }
        Ok(event)
    }

    /// Recalls an unbound device that `caller` supplied.
    pub fn try_recall_attester(&mut self, caller: AccountId, attester_id: AttesterId) -> (res:
        Result<Event, DispatchError>)
        requires
            old(self).wf(),
        ensures
            final(self).wf(),
            old(self)@.recall_outcome(caller, attester_id, final(self)@, res),
    {
        let attester = match self.attesters.get(&attester_id) {
            Some(attester) => *attester,
            None => {
                return Err(DispatchError::Registry(Error::AttesterDoesntExist));
            },
        };
        if attester.is_binded() {
            return Err(DispatchError::Registry(Error::AttesterAlreadyBinded));
        }
        if caller != attester.big_brother {
            return Err(DispatchError::Registry(Error::RestrictedCall));
        }
        self.attesters.remove(&attester_id);
        let event = Event::BigBrotherAttesterRecalled { bb: caller, id: attester_id };
        Ok(event)
    }

    /// Holds the binding bond from `who`. Fails, changing nothing, when
    /// the free balance of `who` is smaller than the bond.
    pub fn try_hold_balance(&self, ledger: &mut Ledger, who: AccountId) -> (res: Result<
        Event,
        DispatchError,
    >)
        requires
            old(ledger).wf(),
        ensures
            final(ledger).wf(),
            old(ledger)@[who].free >= self@.config.binding_deposit_amount ==> res == Ok::<
                Event,
                DispatchError,
            >(
                Event::ServicerBalanceHeldForBinding {
                    who,
                    amount: self@.config.binding_deposit_amount,
                },
            ) && final(ledger)@ == held(
                old(ledger)@,
                crate::ledger::HoldReason::Binding,
                who,
                self@.config.binding_deposit_amount,
            ),
            old(ledger)@[who].free < self@.config.binding_deposit_amount ==> res == Err::<
                Event,
                DispatchError,
            >(DispatchError::Ledger(LedgerError::FundsUnavailable)) && final(ledger)@ == old(
                ledger,
            )@,
    {
        let amount: Balance = self.config.binding_deposit_amount;
        match ledger.hold(HoldReason::Binding.into_ledger_reason(), who, amount) {
            Ok(_) => Ok(Event::ServicerBalanceHeldForBinding { who, amount }),
            Err(error) => Err(DispatchError::Ledger(error)),
        }
    }

    /// Releases the binding bond of `who`, or as much of it as is held,
    /// and reports the amount released. Never fails.
    pub fn try_unhold_balance(&self, ledger: &mut Ledger, who: AccountId) -> (res: Result<
        Event,
        DispatchError,
    >)
        requires
            old(ledger).wf(),
        ensures
            final(ledger).wf(),
            ({
                let actual = crate::ledger::least(
                    self@.config.binding_deposit_amount,
                    old(ledger)@[who].held_for_binding,
                );
                &&& res == Ok::<Event, DispatchError>(
                    Event::ServicerBalanceHeldForBindingReleased { who, amount: actual },
                )
                &&& final(ledger)@ == crate::ledger::released(
                    old(ledger)@,
                    crate::ledger::HoldReason::Binding,
                    who,
                    actual,
                )
            }),
    {
        let amount: Balance = self.config.binding_deposit_amount;
        match ledger.release(
            HoldReason::Binding.into_ledger_reason(),
            who,
            amount,
            Precision::BestEffort,
        ) {
            Ok(actual_released) => Ok(
                Event::ServicerBalanceHeldForBindingReleased { who, amount: actual_released },
            ),
            Err(error) => Err(DispatchError::Ledger(error)),
        }
    }

    /// Records in the record of `who` that it serves `attester_id` through
    /// `peer_id`, creating the record, against the registration fee, if
    /// there is none. Fails, changing nothing, when `who` cannot pay the
    /// fee it owes or has bound that device already.
    fn try_insert_attester_into_servicer(
        &mut self,
        ledger: &mut Ledger,
        who: AccountId,
        peer_id: PeerId,
        attester_id: AttesterId,
    ) -> (res: Result<Vec<Event>, DispatchError>)
        requires
            old(ledger).wf(),
        ensures
            final(ledger).wf(),
            final(self)@.config == old(self)@.config,
            final(self)@.attesters == old(self)@.attesters,
            final(self)@.mediators == old(self)@.mediators,
            ({
                let before = old(self)@;
                let fee = before.config.registration_fee_amount;
                if before.owes_registration_fee(who) && old(ledger)@[who].free < fee {
                    &&& res == registry_error(Error::ServicerCannotPayRegistrationFee)
                    &&& final(self)@ == before
                    &&& final(ledger)@ == old(ledger)@
                } else if before.record_of(who).bindings.contains_key(attester_id) {
                    &&& res == registry_error(Error::AttesterAlreadyBinded)
                    &&& final(self)@ == before
                    &&& final(ledger)@ == old(ledger)@
                } else {
                    &&& res is Ok
                    &&& final(self)@.servicers == before.servicers.insert(
                        who,
                        before.record_of(who).with_binding(attester_id, peer_id),
                    )
                    &&& if before.owes_registration_fee(who) {
                        &&& res->Ok_0@ == seq![
                            Event::ServicerRegistrationFeePaid { who, amount: fee },
                        ]
                        &&& final(ledger)@ == debited(old(ledger)@, who, fee)
                    } else {
                        &&& res->Ok_0@ == Seq::<Event>::empty()
                        &&& final(ledger)@ == old(ledger)@
                    }
                }
            }),
    {
        let mut events: Vec<Event> = Vec::new();
        let mut servicer = match self.servicers.remove(&who) {
            Some(servicer) => servicer,
            None => {
                assert(self@ =~= old(self)@);
                let amount: Balance = self.config.registration_fee_amount;
                match ledger.withdraw(who, amount) {
                    Ok(_) => {},
                    Err(_) => {
                        return Err(
                            DispatchError::Registry(Error::ServicerCannotPayRegistrationFee),
                        );
                    },
                }
                events.push(Event::ServicerRegistrationFeePaid { who, amount });
                ServicerInformation { rep_positive: 0, rep_negative: 0, bindings: BTreeMap::new() }
            },
        };
        let ghost record = servicer@;
        assert(record =~= old(self)@.record_of(who));
        let outcome = servicer.try_add_binding(attester_id, peer_id);
        self.servicers.insert(who, servicer);
        match outcome {
            Ok(_) => {
                assert(self@.servicers =~= old(self)@.servicers.insert(
                    who,
                    record.with_binding(attester_id, peer_id),
                ));
                Ok(events)
            },
            Err(error) => {
                assert(self@ =~= old(self)@);
                Err(error)
            },
        }
    }

    /// Binds the device `attester_id` to `binder`, served through
    /// `peer_id`. The bond is held first; whatever fails afterwards
    /// releases it again, so that a failed binding leaves nothing behind.
    pub fn try_bind_attester(
        &mut self,
        ledger: &mut Ledger,
        binder: AccountId,
        peer_id: PeerId,
        attester_id: AttesterId,
    ) -> (res: Result<Vec<Event>, DispatchError>)
        requires
            old(self).wf(),
            old(ledger).wf(),
        ensures
            final(self).wf(),
            final(ledger).wf(),
            old(self)@.bind_outcome(
                old(ledger)@,
                binder,
                peer_id,
                attester_id,
                final(self)@,
                final(ledger)@,
                res,
            ),
    {
        let attester = match self.attesters.get(&attester_id) {
            Some(attester) => *attester,
            None => {
                return Err(DispatchError::Registry(Error::AttesterDoesntExist));
            },
        };
        if attester.is_binded() {
            return Err(DispatchError::Registry(Error::AttesterAlreadyBinded));
        }
        let mut events: Vec<Event> = Vec::new();
        match self.try_hold_balance(ledger, binder) {
            Ok(event) => {
                events.push(event);
            },
            Err(error) => {
                return Err(error);
            },
        }
        let ghost bonded = ledger@;
        let result = self.try_insert_attester_into_servicer(ledger, binder, peer_id, attester_id);
        match result {
            Err(error) => {
                let _ = self.try_unhold_balance(ledger, binder);
                proof {
                    crate::ledger::lemma_hold_then_release_restores(
                        old(ledger)@,
                        crate::ledger::HoldReason::Binding,
                        binder,
                        self@.config.binding_deposit_amount,
                    );
                }
                return Err(error);
            },
            Ok(servicer_add_events) => {
                let mut i: usize = 0;
                while i < servicer_add_events.len()
                    invariant
                        i <= servicer_add_events@.len(),
                        events@ == seq![
                            Event::ServicerBalanceHeldForBinding {
                                who: binder,
                                amount: self@.config.binding_deposit_amount,
                            },
                        ] + servicer_add_events@.take(i as int),
                    decreases servicer_add_events@.len() - i,
                {
                    events.push(servicer_add_events[i]);
                    assert(servicer_add_events@.take(i + 1) == servicer_add_events@.take(
                        i as int,
                    ).push(servicer_add_events@[i as int]));
                    i += 1;
                }
                assert(servicer_add_events@.take(i as int) == servicer_add_events@);
            },
        }
        self.attesters.insert(
            attester_id,
            RemoteAttestationDevice { binder: Some(binder), ..attester },
        );
        events.push(Event::AttesterBinded { to: binder, which: attester_id, peer_id });
        proof {
            assert(events@ =~= old(self)@.bind_events(binder, peer_id, attester_id));
        }
        Ok(events)
    }

    fn adjust_reputation(&mut self, origin: Origin, on: AttesterId, upwards: bool) -> (res: Result<
        Vec<Event>,
        DispatchError,
    >)
        requires
            old(self).wf(),
        ensures
            final(self).wf(),
            old(self)@.reputation_outcome(origin, on, upwards, final(self)@, res),
    {
        let by: AccountId = match self.ensure_and_get_signed_mediator(origin) {
            Ok(by) => by,
            Err(error) => {
                return Err(error);
            },
        };
        let attester = match self.attesters.get(&on) {
            Some(attester) => *attester,
            None => {
                return Err(DispatchError::Registry(Error::AttesterDoesntExist));
            },
        };
        let who: AccountId = match attester.binder {
            Some(who) => who,
            None => {
                return Err(DispatchError::Registry(Error::AttesterIsUnbinded));
            },
        };
        assert(self@.servicers.contains_key(who));
        let mut servicer = match self.servicers.remove(&who) {
            Some(servicer) => servicer,
            None => {
                return Err(DispatchError::Registry(Error::FatalError));
            },
        };
        let mut events: Vec<Event> = Vec::new();
        if upwards {
            servicer.increase_reputation();
            events.push(Event::ServicerReputationIncreased { who, on, by });
        } else {
            servicer.decrease_reputation();
            events.push(Event::ServicerReputationDecreased { who, on, by });
        }
        let ghost record = servicer@;
        self.servicers.insert(who, servicer);
        proof {
            assert(self@.servicers =~= old(self)@.servicers.insert(who, record));
            assert(events@ =~= seq![
                if upwards {
                    Event::ServicerReputationIncreased { by, on, who }
                } else {
                    Event::ServicerReputationDecreased { by, on, who }
                },
            ]);
        }
        Ok(events)
    }

    /// Council member: supply an attestation device.
    pub fn bb_attester_supply(
        &mut self,
        council: &crate::council::Pallet,
        origin: Origin,
        supply_args: RemoteAttestationDeviceSupplyArgs,
    ) -> (res: Result<Vec<Event>, DispatchError>)
        requires
            old(self).wf(),
        ensures
            final(self).wf(),
            match council@.council_member(origin) {
                Err(error) => res == Err::<Vec<Event>, DispatchError>(error) && final(self)@ == old(
                    self,
                )@,
                Ok(big_brother) => old(self)@.supply_outcome(
                    big_brother,
                    supply_args,
                    final(self)@,
                    one_event(res),
                ),
            },
    {
        let big_brother: AccountId = match council.ensure_and_get_council_member(origin) {
            Ok(big_brother) => big_brother,
            Err(error) => {
                return Err(error);
            },
        };
        match self.try_supply_new_attester(big_brother, supply_args) {
            Ok(event) => Ok(single(event)),
            Err(error) => Err(error),
        }
    }

    /// Council member: add a mediator. The candidate must be legally
    /// verified and not a mediator yet. When there are as many mediators
    /// as there can be, the call succeeds and reports the addition, but the
    /// mediators stay as they were.
    pub fn bb_mediator_add(
        &mut self,
        council: &crate::council::Pallet,
        origin: Origin,
        who: AccountId,
        registration: &Option<Registration>,
    ) -> (res: Result<Vec<Event>, DispatchError>)
        requires
            old(self).wf(),
        ensures
            final(self).wf(),
            match mediator_add_refusal(council@, old(self)@, origin, who, *registration) {
                Some(error) => res == Err::<Vec<Event>, DispatchError>(error) && final(self)@ == old(
                    self,
                )@,
                None => {
                    &&& res is Ok
                    &&& res->Ok_0@ == seq![
                        Event::MediatorAdded { who, by: council@.council_member(origin)->Ok_0 },
                    ]
                    &&& final(self)@ == (RegistryState {
                        mediators: if old(self)@.mediators.len() < MAX_MEDIATORS {
                            old(self)@.mediators.insert(who)
                        } else {
                            old(self)@.mediators
                        },
                        ..old(self)@
                    })
                },
            },
    {
        let by: AccountId = match council.ensure_and_get_council_member(origin) {
            Ok(by) => by,
            Err(error) => {
                return Err(error);
            },
        };
        match crate::council::Pallet::ensure_account_has_verified_legality(registration) {
            Ok(_) => {},
            Err(error) => {
                return Err(error);
            },
        }
        if account_set_contains(&self.mediators, who) {
            return Err(DispatchError::Registry(Error::MediatorAlreadyRegistered));
        }
        let _ = account_set_try_insert(&mut self.mediators, who);
        Ok(single(Event::MediatorAdded { who, by }))
    }

    /// Council member: remove a mediator.
    pub fn bb_mediator_remove(
        &mut self,
        council: &crate::council::Pallet,
        origin: Origin,
        who: AccountId,
    ) -> (res: Result<Vec<Event>, DispatchError>)
        requires
            old(self).wf(),
        ensures
            final(self).wf(),
            match council@.council_member(origin) {
                Err(error) => res == Err::<Vec<Event>, DispatchError>(error) && final(self)@ == old(
                    self,
                )@,
                Ok(by) => if !old(self)@.mediators.contains(who) {
                    &&& res == registry_error(Error::MediatorNotFound)
                    &&& final(self)@ == old(self)@
                } else {
                    &&& res is Ok
                    &&& res->Ok_0@ == seq![Event::MediatorRemoved { who, by }]
                    &&& final(self)@ == (RegistryState {
                        mediators: old(self)@.mediators.remove(who),
                        ..old(self)@
                    })
                },
            },
    {
        let by: AccountId = match council.ensure_and_get_council_member(origin) {
            Ok(by) => by,
            Err(error) => {
                return Err(error);
            },
        };
        if !account_set_contains(&self.mediators, who) {
            return Err(DispatchError::Registry(Error::MediatorNotFound));
        }
        account_set_remove(&mut self.mediators, who);
        Ok(single(Event::MediatorRemoved { who, by }))
    }

    /// Council member: recall an attestation device.
    pub fn bb_attester_recall(
        &mut self,
        council: &crate::council::Pallet,
        origin: Origin,
        attester_id: AttesterId,
    ) -> (res: Result<Vec<Event>, DispatchError>)
        requires
            old(self).wf(),
        ensures
            final(self).wf(),
            match council@.council_member(origin) {
                Err(error) => res == Err::<Vec<Event>, DispatchError>(error) && final(self)@ == old(
                    self,
                )@,
                Ok(big_brother) => old(self)@.recall_outcome(
                    big_brother,
                    attester_id,
                    final(self)@,
                    one_event(res),
                ),
            },
    {
        let big_brother: AccountId = match council.ensure_and_get_council_member(origin) {
            Ok(big_brother) => big_brother,
            Err(error) => {
                return Err(error);
            },
        };
        match self.try_recall_attester(big_brother, attester_id) {
            Ok(event) => Ok(single(event)),
            Err(error) => Err(error),
        }
    }

    /// Servicer: bind an attestation device, served through `peer_id`.
    pub fn sv_attester_bind(
        &mut self,
        ledger: &mut Ledger,
        origin: Origin,
        peer_id: PeerId,
        attester_id: AttesterId,
    ) -> (res: Result<Vec<Event>, DispatchError>)
        requires
            old(self).wf(),
            old(ledger).wf(),
        ensures
            final(self).wf(),
            final(ledger).wf(),
            match origin {
                Origin::Signed(binder) => old(self)@.bind_outcome(
                    old(ledger)@,
                    binder,
                    peer_id,
                    attester_id,
                    final(self)@,
                    final(ledger)@,
                    res,
                ),
                _ => {
                    &&& res == Err::<Vec<Event>, DispatchError>(DispatchError::BadOrigin)
                    &&& final(self)@ == old(self)@
                    &&& final(ledger)@ == old(ledger)@
                },
            },
    {
        match ensure_signed(origin) {
            Ok(binder) => self.try_bind_attester(ledger, binder, peer_id, attester_id),
            Err(error) => Err(error),
        }
    }

    /// Mediator: raise the reputation of the servicer that bound the
    /// device `on`.
    pub fn md_rep_increase(&mut self, origin: Origin, on: AttesterId) -> (res: Result<
        Vec<Event>,
        DispatchError,
    >)
        requires
            old(self).wf(),
        ensures
            final(self).wf(),
            old(self)@.reputation_outcome(origin, on, true, final(self)@, res),
    {
        self.adjust_reputation(origin, on, true)
    }

    /// Mediator: lower the reputation of the servicer that bound the
    /// device `on`.
    pub fn md_rep_decrease(&mut self, origin: Origin, on: AttesterId) -> (res: Result<
        Vec<Event>,
        DispatchError,
    >)
        requires
            old(self).wf(),
        ensures
            final(self).wf(),
            old(self)@.reputation_outcome(origin, on, false, final(self)@, res),
    {
        self.adjust_reputation(origin, on, false)
    }
}

/// Why `who` is not added as a mediator, if it is not.
pub open spec fn mediator_add_refusal(
    council: crate::council::CouncilState,
    registry: RegistryState,
    origin: Origin,
    who: AccountId,
    registration: Option<Registration>,
) -> Option<DispatchError> {
    if council.council_member(origin) is Err {
        Some(council.council_member(origin)->Err_0)
    } else if legality_refusal(registration) is Some {
        Some(DispatchError::Council(legality_refusal(registration)->Some_0))
    } else if registry.mediators.contains(who) {
        Some(DispatchError::Registry(Error::MediatorAlreadyRegistered))
    } else {
        None
    }
}

/// The result of a command that reports a single event, read as the result
/// of the step that produced the event.
pub open spec fn one_event(res: Result<Vec<Event>, DispatchError>) -> Result<Event, DispatchError> {
    match res {
        Ok(events) => Ok(events@[0]),
        Err(error) => Err(error),
    }
}

/// The list that holds `event` and nothing else.
fn single(event: Event) -> (events: Vec<Event>)
    ensures
        events@ == seq![event],
{
    let mut events: Vec<Event> = Vec::new();
    events.push(event);
    assert(events@ =~= seq![event]);
    events
}

impl RegistryState {
    /// The registry after `big_brother` supplied the device of
    /// `supply_args`.
    pub open spec fn with_supplied(
        self,
        big_brother: AccountId,
        supply_args: RemoteAttestationDeviceSupplyArgs,
    ) -> RegistryState {
        RegistryState {
            attesters: self.attesters.insert(
                supply_args.id,
                RemoteAttestationDevice {
                    big_brother,
                    serial_number: supply_args.serial_number,
                    guid: supply_args.guid,
                    binder: None,
                },
            ),
            ..self
        }
    }

    /// The registry after `big_brother` supplied every device of `batch`,
    /// one after the other, or `None` if one of them could not be
    /// supplied: because its identifier was there before, or came earlier
    /// in the batch.
    pub open spec fn with_all_supplied(
        self,
        big_brother: AccountId,
        batch: Seq<RemoteAttestationDeviceSupplyArgs>,
    ) -> Option<RegistryState>
        decreases batch.len(),
    {
        if batch.len() == 0 {
            Some(self)
        } else {
            match self.with_all_supplied(big_brother, batch.drop_last()) {
                None => None,
                Some(before) => if before.attesters.contains_key(batch.last().id) {
                    None
                } else {
                    Some(before.with_supplied(big_brother, batch.last()))
                },
            }
        }
    }

    /// The registry after `caller` recalled every device of `batch`, one
    /// after the other, or the error of the first device that could not be
    /// recalled.
    pub open spec fn with_all_recalled(self, caller: AccountId, batch: Seq<AttesterId>) -> Result<
        RegistryState,
        Error,
    >
        decreases batch.len(),
    {
        if batch.len() == 0 {
            Ok(self)
        } else {
            match self.with_all_recalled(caller, batch.drop_last()) {
                Err(error) => Err(error),
                Ok(before) => match before.recall_refusal(caller, batch.last()) {
                    Some(error) => Err(error),
                    None => Ok(
                        RegistryState {
                            attesters: before.attesters.remove(batch.last()),
                            ..before
                        },
                    ),
                },
            }
        }
    }

    /// What `big_brother` supplying a batch of devices does: all of them
    /// are supplied, in order, or none is.
    pub open spec fn bulk_supply_outcome(
        self,
        big_brother: AccountId,
        batch: Seq<RemoteAttestationDeviceSupplyArgs>,
        after: RegistryState,
        res: Result<Vec<Event>, DispatchError>,
    ) -> bool {
        match self.with_all_supplied(big_brother, batch) {
            None => {
                &&& res == registry_error(Error::AttesterAlreadySupplied)
                &&& after == self
            },
            Some(supplied) => {
                &&& res is Ok
                &&& res->Ok_0@ == Seq::new(
                    batch.len(),
                    |i: int| Event::BigBrotherAttesterSupplied { id: batch[i].id, bb: big_brother },
                )
                &&& after == supplied
            },
        }
    }

    /// What `caller` recalling a batch of devices does: all of them are
    /// recalled, in order, or none is.
    pub open spec fn bulk_recall_outcome(
        self,
        caller: AccountId,
        batch: Seq<AttesterId>,
        after: RegistryState,
        res: Result<Vec<Event>, DispatchError>,
    ) -> bool {
        match self.with_all_recalled(caller, batch) {
            Err(error) => {
                &&& res == registry_error(error)
                &&& after == self
            },
            Ok(recalled) => {
                &&& res is Ok
                &&& res->Ok_0@ == Seq::new(
                    batch.len(),
                    |i: int| Event::BigBrotherAttesterRecalled { id: batch[i], bb: caller },
                )
                &&& after == recalled
            },
        }
    }

    /// Why the device `device` is not rebound to `to`, if it is not.
    pub open spec fn force_rebind_refusal(self, device: AttesterId, to: AccountId) -> Option<Error> {
        if !self.attesters.contains_key(device) {
            Some(Error::DeviceDoesntExist)
        } else if self.attesters[device].binder is None || self.attesters[device].binder == Some(
            to,
        ) {
            Some(Error::DeviceForceRebindRejected)
        } else {
            None
        }
    }

    /// The registry after the bound device `device` passed to `to`: the
    /// device is bound to `to`, and its binding, with the peer it names,
    /// has moved from the record of the servicer that had bound it to the
    /// record of `to`.
    pub open spec fn rebound(self, device: AttesterId, to: AccountId) -> RegistryState {
        let from = self.attesters[device].binder->Some_0;
        let peer_id = self.servicers[from].bindings[device];
        RegistryState {
            attesters: self.attesters.insert(
                device,
                RemoteAttestationDevice { binder: Some(to), ..self.attesters[device] },
            ),
            servicers: self.servicers.insert(
                from,
                ServicerState {
                    bindings: self.servicers[from].bindings.remove(device),
                    ..self.servicers[from]
                },
            ).insert(to, self.record_of(to).with_binding(device, peer_id)),
            ..self
        }
    }

    /// What `by` rebinding the device `device` to `to` does: a device
    /// that does not exist, is unbound or is bound to `to` already is
    /// refused; any other passes to `to` at once.
    pub open spec fn force_rebind_outcome(
        self,
        by: AccountId,
        device: AttesterId,
        to: AccountId,
        after: RegistryState,
        res: Result<Vec<Event>, DispatchError>,
    ) -> bool {
        match self.force_rebind_refusal(device, to) {
            Some(error) => {
                &&& res == registry_error(error)
                &&& after == self
            },
            None => {
                &&& res is Ok
                &&& res->Ok_0@ == seq![
                    Event::RemoteAttestationDeviceRebindedForcefully {
                        device,
                        from: self.attesters[device].binder->Some_0,
                        to,
                        by,
                    },
                ]
                &&& after == self.rebound(device, to)
            },
        }
    }
}

/// A batch that cannot be supplied cannot be supplied as the beginning of a
/// longer batch either.
proof fn lemma_supply_fails_for_longer_batches(
    registry: RegistryState,
    big_brother: AccountId,
    batch: Seq<RemoteAttestationDeviceSupplyArgs>,
    taken: int,
)
    requires
        0 <= taken <= batch.len(),
        registry.with_all_supplied(big_brother, batch.take(taken)) is None,
    ensures
        registry.with_all_supplied(big_brother, batch) is None,
    decreases batch.len(),
{
    if taken < batch.len() {
        assert(batch.drop_last().take(taken) == batch.take(taken));
        lemma_supply_fails_for_longer_batches(registry, big_brother, batch.drop_last(), taken);
    } else {
        assert(batch.take(taken) == batch);
    }
}

/// A batch that cannot be recalled cannot be recalled as the beginning of a
/// longer batch either, and fails with the same error.
proof fn lemma_recall_fails_for_longer_batches(
    registry: RegistryState,
    caller: AccountId,
    batch: Seq<AttesterId>,
    taken: int,
)
    requires
        0 <= taken <= batch.len(),
        registry.with_all_recalled(caller, batch.take(taken)) is Err,
    ensures
        registry.with_all_recalled(caller, batch) == registry.with_all_recalled(
            caller,
            batch.take(taken),
        ),
    decreases batch.len(),
{
    if taken < batch.len() {
        assert(batch.drop_last().take(taken) == batch.take(taken));
        lemma_recall_fails_for_longer_batches(registry, caller, batch.drop_last(), taken);
    } else {
        assert(batch.take(taken) == batch);
    }
}

impl Pallet {
    /// Supplies every device of the batch in the name of `big_brother`,
    /// or none of them.
    pub fn try_supply_new_attesters(
        &mut self,
        big_brother: AccountId,
        batch: &Vec<RemoteAttestationDeviceSupplyArgs>,
    ) -> (res: Result<Vec<Event>, DispatchError>)
        requires
            old(self).wf(),
        ensures
            final(self).wf(),
            old(self)@.bulk_supply_outcome(big_brother, batch@, final(self)@, res),
    {
        let backup = self.attesters.clone();
        let mut events: Vec<Event> = Vec::new();
        let mut i: usize = 0;
        while i < batch.len()
            invariant
                i <= batch@.len(),
                self.wf(),
                old(self)@.is_sound(),
                backup@ == old(self)@.attesters,
                self@.config == old(self)@.config,
                self@.mediators == old(self)@.mediators,
                self@.servicers == old(self)@.servicers,
                old(self)@.with_all_supplied(big_brother, batch@.take(i as int)) == Some(self@),
                events@ == Seq::new(
                    i as nat,
                    |k: int| Event::BigBrotherAttesterSupplied { id: batch@[k].id, bb: big_brother },
                ),
            decreases batch@.len() - i,
        {
            let ghost before = self@;
            proof {
                assert(batch@.take(i + 1).drop_last() == batch@.take(i as int));
                assert(batch@.take(i + 1).last() == batch@[i as int]);
            }
            match self.try_supply_new_attester(big_brother, batch[i]) {
                Ok(event) => {
                    events.push(event);
                },
                Err(error) => {
                    self.attesters = backup;
                    proof {
                        lemma_supply_fails_for_longer_batches(
                            old(self)@,
                            big_brother,
                            batch@,
                            i + 1,
                        );
                        assert(self@ =~= old(self)@);
                    }
                    return Err(error);
                },
            }
            i += 1;
        }
        assert(batch@.take(i as int) == batch@);
        Ok(events)
    }

    /// Recalls every device of the batch for `caller`, or none of them.
    pub fn try_recall_attesters(&mut self, caller: AccountId, batch: &Vec<AttesterId>) -> (res:
        Result<Vec<Event>, DispatchError>)
        requires
            old(self).wf(),
        ensures
            final(self).wf(),
            old(self)@.bulk_recall_outcome(caller, batch@, final(self)@, res),
    {
        let backup = self.attesters.clone();
        let mut events: Vec<Event> = Vec::new();
        let mut i: usize = 0;
        while i < batch.len()
            invariant
                i <= batch@.len(),
                self.wf(),
                old(self)@.is_sound(),
                backup@ == old(self)@.attesters,
                self@.config == old(self)@.config,
                self@.mediators == old(self)@.mediators,
                self@.servicers == old(self)@.servicers,
                old(self)@.with_all_recalled(caller, batch@.take(i as int)) == Ok::<
                    RegistryState,
                    Error,
                >(self@),
                events@ == Seq::new(
                    i as nat,
                    |k: int| Event::BigBrotherAttesterRecalled { id: batch@[k], bb: caller },
                ),
            decreases batch@.len() - i,
        {
            proof {
                assert(batch@.take(i + 1).drop_last() == batch@.take(i as int));
                assert(batch@.take(i + 1).last() == batch@[i as int]);
            }
            match self.try_recall_attester(caller, batch[i]) {
                Ok(event) => {
                    events.push(event);
                },
                Err(error) => {
                    self.attesters = backup;
                    proof {
                        lemma_recall_fails_for_longer_batches(old(self)@, caller, batch@, i + 1);
                        assert(self@ =~= old(self)@);
                    }
                    return Err(error);
                },
            }
            i += 1;
        }
        assert(batch@.take(i as int) == batch@);
        Ok(events)
    }

    /// Passes the bound device `device` to the servicer `to`, in the name
    /// of `by`.
    pub fn try_force_rebind(&mut self, by: AccountId, device: AttesterId, to: AccountId) -> (res:
        Result<Vec<Event>, DispatchError>)
        requires
            old(self).wf(),
        ensures
            final(self).wf(),
            old(self)@.force_rebind_outcome(by, device, to, final(self)@, res),
    {
        let attester = match self.attesters.get(&device) {
            Some(attester) => *attester,
            None => {
                return Err(DispatchError::Registry(Error::DeviceDoesntExist));
            },
        };
        let from: AccountId = match attester.binder {
            Some(from) => from,
            None => {
                return Err(DispatchError::Registry(Error::DeviceForceRebindRejected));
            },
        };
        if from == to {
            return Err(DispatchError::Registry(Error::DeviceForceRebindRejected));
        }
        assert(self@.servicers.contains_key(from));
        assert(self@.servicers[from].bindings.contains_key(device));
        let mut previous = match self.servicers.remove(&from) {
            Some(previous) => previous,
            None => {
                return Err(DispatchError::Registry(Error::FatalError));
            },
        };
        let peer_id: PeerId = match previous.bindings.remove(&device) {
            Some(peer_id) => peer_id,
            None => {
                return Err(DispatchError::Registry(Error::FatalError));
            },
        };
        let ghost left = previous@;
        self.servicers.insert(from, previous);
        let mut next = match self.servicers.remove(&to) {
            Some(next) => next,
            None => ServicerInformation {
                rep_positive: 0,
                rep_negative: 0,
                bindings: BTreeMap::new(),
            },
        };
        let ghost record = next@;
        assert(record =~= old(self)@.record_of(to));
        next.bindings.insert(device, peer_id);
        let ghost joined = next@;
        self.servicers.insert(to, next);
        self.attesters.insert(device, RemoteAttestationDevice { binder: Some(to), ..attester });
        let events = single(
            Event::RemoteAttestationDeviceRebindedForcefully { device, from, to, by },
        );
        proof {
            assert(left =~= (ServicerState {
                bindings: old(self)@.servicers[from].bindings.remove(device),
                ..old(self)@.servicers[from]
            }));
            assert(joined =~= record.with_binding(device, peer_id));
            assert(self@.servicers =~= old(self)@.servicers.insert(from, left).insert(to, joined));
            assert(self@ =~= old(self)@.rebound(device, to));
            assert forall|id: AttesterId| #[trigger]
                self@.attesters.contains_key(id) implies (self@.attesters[id].binder matches Some(
                binder,
            ) ==> self@.servicers.contains_key(binder) && self@.servicers[binder].bindings.contains_key(
                id,
            )) by {
                if id != device {
                    assert(old(self)@.attesters.contains_key(id));
                }
            }
            assert forall|who: AccountId, id: AttesterId|
                self@.servicers.contains_key(who) && #[trigger] self@.servicers[who].bindings.contains_key(
                    id,
                ) implies self@.attesters.contains_key(id) && self@.attesters[id].binder == Some(
                who,
            ) by {
                if id != device {
                    assert(old(self)@.servicers[who].bindings.contains_key(id));
                }
            }
        }
        Ok(events)
    }

    /// Council member: supply a batch of attestation devices, all or
    /// none.
    pub fn bb_attester_bulk_supply(
        &mut self,
        council: &crate::council::Pallet,
        origin: Origin,
        batch: &Vec<RemoteAttestationDeviceSupplyArgs>,
    ) -> (res: Result<Vec<Event>, DispatchError>)
        requires
            old(self).wf(),
        ensures
            final(self).wf(),
            match council@.council_member(origin) {
                Err(error) => res == Err::<Vec<Event>, DispatchError>(error) && final(self)@ == old(
                    self,
                )@,
                Ok(big_brother) => old(self)@.bulk_supply_outcome(
                    big_brother,
                    batch@,
                    final(self)@,
                    res,
                ),
            },
    {
        match council.ensure_and_get_council_member(origin) {
            Ok(big_brother) => self.try_supply_new_attesters(big_brother, batch),
            Err(error) => Err(error),
        }
    }

    /// Council member: recall a batch of attestation devices, all or
    /// none.
    pub fn bb_attester_bulk_recall(
        &mut self,
        council: &crate::council::Pallet,
        origin: Origin,
        batch: &Vec<AttesterId>,
    ) -> (res: Result<Vec<Event>, DispatchError>)
        requires
            old(self).wf(),
        ensures
            final(self).wf(),
            match council@.council_member(origin) {
                Err(error) => res == Err::<Vec<Event>, DispatchError>(error) && final(self)@ == old(
                    self,
                )@,
                Ok(big_brother) => old(self)@.bulk_recall_outcome(
                    big_brother,
                    batch@,
                    final(self)@,
                    res,
                ),
            },
    {
        match council.ensure_and_get_council_member(origin) {
            Ok(big_brother) => self.try_recall_attesters(big_brother, batch),
            Err(error) => Err(error),
        }
    }

    /// Council member: pass a bound device to another servicer.
    pub fn bb_attester_force_rebind(
        &mut self,
        council: &crate::council::Pallet,
        origin: Origin,
        device: AttesterId,
        to: AccountId,
    ) -> (res: Result<Vec<Event>, DispatchError>)
        requires
            old(self).wf(),
        ensures
            final(self).wf(),
            match council@.council_member(origin) {
                Err(error) => res == Err::<Vec<Event>, DispatchError>(error) && final(self)@ == old(
                    self,
                )@,
                Ok(by) => old(self)@.force_rebind_outcome(by, device, to, final(self)@, res),
            },
    {
        match council.ensure_and_get_council_member(origin) {
            Ok(by) => self.try_force_rebind(by, device, to),
            Err(error) => Err(error),
        }
    }
}

} // verus!
