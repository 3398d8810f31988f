//! The peer registry: the network peers through which accounts offer
//! their service, and the reputation that each account has earned.
//!
//! Only the chain's ancient brother, the holder of the sudo key, manages
//! this registry.

use vstd::prelude::*;
use std::collections::{BTreeMap, BTreeSet};
use crate::base_url::{base_url_try_from, url_bytes, BaseUrl, BASE_URL_BOUND};
use crate::identity::{Registration, IDENTITY_FIELD_LEGAL};
use crate::primitives::{
    ensure_signed_or_root,
    AccountId,
    BlockNumber,
    DispatchError,
    Key256,
    Origin,
};

verus! {

/// Identifies a network peer.
pub type OpaquePeerId = Key256;

/// What the registry records about a peer.
#[derive(Clone, Debug, Default, PartialEq, Eq)]
pub struct ServicerInfo {
    pub owner: AccountId,
    /// The block at which the peer was registered.
    pub timestamp: BlockNumber,
    pub base_url: BaseUrl,
}

/// The mathematical model of a peer's record.
pub struct ServicerInfoState {
    pub owner: AccountId,
    pub timestamp: BlockNumber,
    pub base_url: Seq<u8>,
}

impl View for ServicerInfo {
    type V = ServicerInfoState;

    open spec fn view(&self) -> ServicerInfoState {
        ServicerInfoState {
            owner: self.owner,
            timestamp: self.timestamp,
            base_url: url_bytes(self.base_url),
        }
    }
}

/// What the registry records about an account.
#[derive(Clone, Debug, Default, PartialEq, Eq)]
pub struct AccountServicerInfo {
    pub reputations: i32,
    /// The peers registered for the account.
    pub servicers: BTreeSet<OpaquePeerId>,
}

/// The mathematical model of an account's record.
#[verifier::ext_equal]
pub struct AccountServicerState {
    pub reputations: i32,
    pub servicers: Set<OpaquePeerId>,
}

impl View for AccountServicerInfo {
    type V = AccountServicerState;

    open spec fn view(&self) -> AccountServicerState {
        AccountServicerState { reputations: self.reputations, servicers: self.servicers@ }
    }
}

impl AccountServicerState {
    /// The record of an account without peers.
    pub open spec fn fresh() -> AccountServicerState {
        AccountServicerState { reputations: 0, servicers: Set::empty() }
    }

    /// This record with one more point of reputation, unless the counter
    /// is at its maximum.
    pub open spec fn praised(self) -> AccountServicerState {
        AccountServicerState {
            reputations: if self.reputations == i32::MAX {
                i32::MAX
            } else {
                (self.reputations + 1) as i32
            },
            ..self
        }
    }

    /// This record with one point of reputation less, unless the counter
    /// is at its minimum.
    pub open spec fn blamed(self) -> AccountServicerState {
        AccountServicerState {
            reputations: if self.reputations == i32::MIN {
                i32::MIN
            } else {
                (self.reputations - 1) as i32
            },
            ..self
        }
    }
}

/// The registry's own errors.
#[derive(Clone, Copy, Debug, PartialEq, Eq)]
pub enum Error {
    /// The account has no servicer.
    AccountHasNoServicer,
    /// No peer is registered under the identifier.
    ServicerNotFound,
    /// The peer is registered already.
    ServicerAlreadyRegistered,
    /// The base URL is longer than a record can hold.
    ServicerBaseUrlTooLong,
    /// Only the ancient brother may call.
    AncientBrotherOnly,
    /// The account has registered no legal name to be judged by.
    AccountIsNotForJudgement,
}

/// What the registry reports to observers.
#[derive(Clone, Copy, Debug, PartialEq, Eq)]
pub enum Event {
    ServicerRegistered { account_id: AccountId, peer_id: OpaquePeerId },
    ServicerRemoved { account_id: AccountId, peer_id: OpaquePeerId },
    ServiceReputationIncreased { account_id: AccountId },
    ServiceReputationDecreased { account_id: AccountId },
}

/// A command's failure with one of the registry's errors.
pub open spec fn servicers_error(error: Error) -> Result<Vec<Event>, DispatchError> {
    Err(DispatchError::Servicers(error))
}

/// The check that only the ancient brother passes. While nobody holds the
/// sudo key, every signed call and root pass; once somebody does, only a
/// call signed by that account passes.
pub open spec fn ancient_brother(origin: Origin, sudo_key: Option<AccountId>) -> Result<
    (),
    DispatchError,
> {
    match origin {
        Origin::Unsigned => Err(DispatchError::BadOrigin),
        Origin::Root => if sudo_key is None {
            Ok(())
        } else {
            Err(DispatchError::Servicers(Error::AncientBrotherOnly))
        },
        Origin::Signed(caller) => if sudo_key is None || sudo_key == Some(caller) {
            Ok(())
        } else {
            Err(DispatchError::Servicers(Error::AncientBrotherOnly))
        },
    }
}

/// Whether an account with this registration has registered a legal name.
pub open spec fn has_legal_name(registration: Option<Registration>) -> bool {
    registration matches Some(registration) && registration.covers(IDENTITY_FIELD_LEGAL)
}

/// The models of the peers' records.
pub open spec fn servicer_views(servicers: Map<OpaquePeerId, ServicerInfo>) -> Map<
    OpaquePeerId,
    ServicerInfoState,
> {
    Map::new(|peer: OpaquePeerId| servicers.contains_key(peer), |peer: OpaquePeerId| servicers[peer]@)
}

/// The models of the accounts' records.
pub open spec fn account_views(accounts: Map<AccountId, AccountServicerInfo>) -> Map<
    AccountId,
    AccountServicerState,
> {
    Map::new(|who: AccountId| accounts.contains_key(who), |who: AccountId| accounts[who]@)
}

/// The mathematical model of the registry.
#[verifier::ext_equal]
pub struct ServicersState {
    /// The records of the accounts that have, or have had, a peer.
    pub account_servicers: Map<AccountId, AccountServicerState>,
    /// The registered peers.
    pub servicers: Map<OpaquePeerId, ServicerInfoState>,
}

impl ServicersState {
    /// The registry's invariant: the owner of every registered peer has a
    /// record.
    pub open spec fn is_sound(self) -> bool {
        forall|peer: OpaquePeerId| #[trigger]
            self.servicers.contains_key(peer) ==> self.account_servicers.contains_key(
                self.servicers[peer].owner,
            )
    }

    /// The account's record, or a fresh one if it has none.
    pub open spec fn record_of(self, who: AccountId) -> AccountServicerState {
        if self.account_servicers.contains_key(who) {
            self.account_servicers[who]
        } else {
            AccountServicerState::fresh()
        }
    }

    /// Why the peer `peer_id` is not registered for `owner`, if it is not.
    pub open spec fn register_refusal(
        self,
        origin: Origin,
        sudo_key: Option<AccountId>,
        owner: AccountId,
        peer_id: OpaquePeerId,
        base_url: Seq<u8>,
        registration: Option<Registration>,
    ) -> Option<DispatchError> {
        if ancient_brother(origin, sudo_key) is Err {
            Some(ancient_brother(origin, sudo_key)->Err_0)
        } else if self.servicers.contains_key(peer_id) {
            Some(DispatchError::Servicers(Error::ServicerAlreadyRegistered))
        } else if !has_legal_name(registration) {
            Some(DispatchError::Servicers(Error::AccountIsNotForJudgement))
        } else if self.record_of(owner).servicers.contains(peer_id) {
            Some(DispatchError::Servicers(Error::ServicerAlreadyRegistered))
        } else if base_url.len() > BASE_URL_BOUND {
            Some(DispatchError::Servicers(Error::ServicerBaseUrlTooLong))
        } else {
            None
        }
    }

    /// What registering the peer `peer_id` for `owner` at block `now`
    /// does: a refused registration returns its error and changes nothing;
    /// an accepted one records the peer and adds it to the owner's peers.
    pub open spec fn register_outcome(
        self,
        origin: Origin,
        sudo_key: Option<AccountId>,
        now: BlockNumber,
        owner: AccountId,
        peer_id: OpaquePeerId,
        base_url: Seq<u8>,
        registration: Option<Registration>,
        after: ServicersState,
        res: Result<Vec<Event>, DispatchError>,
    ) -> bool {
        match self.register_refusal(origin, sudo_key, owner, peer_id, base_url, registration) {
            Some(error) => {
                &&& res == Err::<Vec<Event>, DispatchError>(error)
                &&& after == self
            },
            None => {
                let record = self.record_of(owner);
                &&& res is Ok
                &&& res->Ok_0@ == seq![Event::ServicerRegistered { account_id: owner, peer_id }]
                &&& after.account_servicers == self.account_servicers.insert(
                    owner,
                    AccountServicerState { servicers: record.servicers.insert(peer_id), ..record },
                )
                &&& after.servicers == self.servicers.insert(
                    peer_id,
                    ServicerInfoState { owner, timestamp: now, base_url },
                )
            },
        }
    }

    /// Why a command on the registered peer `peer_id` is refused, if it
    /// is.
    pub open spec fn peer_refusal(
        self,
        origin: Origin,
        sudo_key: Option<AccountId>,
        peer_id: OpaquePeerId,
    ) -> Option<DispatchError> {
        if ancient_brother(origin, sudo_key) is Err {
            Some(ancient_brother(origin, sudo_key)->Err_0)
        } else if !self.servicers.contains_key(peer_id) {
            Some(DispatchError::Servicers(Error::ServicerNotFound))
        } else {
            None
        }
    }

    /// What removing the peer `peer_id` does: the peer's record is gone,
    /// and the peer is no longer among its owner's peers.
    pub open spec fn remove_outcome(
        self,
        origin: Origin,
        sudo_key: Option<AccountId>,
        peer_id: OpaquePeerId,
        after: ServicersState,
        res: Result<Vec<Event>, DispatchError>,
    ) -> bool {
        match self.peer_refusal(origin, sudo_key, peer_id) {
            Some(error) => {
                &&& res == Err::<Vec<Event>, DispatchError>(error)
                &&& after == self
            },
            None => {
                let owner = self.servicers[peer_id].owner;
                let record = self.account_servicers[owner];
                &&& res is Ok
                &&& res->Ok_0@ == seq![Event::ServicerRemoved { account_id: owner, peer_id }]
                &&& after == (ServicersState {
                    account_servicers: self.account_servicers.insert(
                        owner,
                        AccountServicerState {
                            servicers: record.servicers.remove(peer_id),
                            ..record
                        },
                    ),
                    servicers: self.servicers.remove(peer_id),
                })
            },
        }
    }

    /// What adjusting the reputation of the owner of the peer `peer_id`
    /// does: the owner's record gains or loses one point, within the
    /// bounds of the counter.
    pub open spec fn reputation_outcome(
        self,
        origin: Origin,
        sudo_key: Option<AccountId>,
        peer_id: OpaquePeerId,
        upwards: bool,
        after: ServicersState,
        res: Result<Vec<Event>, DispatchError>,
    ) -> bool {
        match self.peer_refusal(origin, sudo_key, peer_id) {
            Some(error) => {
                &&& res == Err::<Vec<Event>, DispatchError>(error)
                &&& after == self
            },
            None => {
                let owner = self.servicers[peer_id].owner;
                let record = self.account_servicers[owner];
                &&& res is Ok
                &&& res->Ok_0@ == seq![
                    if upwards {
                        Event::ServiceReputationIncreased { account_id: owner }
                    } else {
                        Event::ServiceReputationDecreased { account_id: owner }
                    },
                ]
                &&& after == (ServicersState {
                    account_servicers: self.account_servicers.insert(
                        owner,
                        if upwards {
                            record.praised()
                        } else {
                            record.blamed()
                        },
                    ),
                    ..self
                })
            },
        }
    }
}

/// The peer registry.
pub struct Pallet {
    account_servicers: BTreeMap<AccountId, AccountServicerInfo>,
    servicers: BTreeMap<OpaquePeerId, ServicerInfo>,
}

impl View for Pallet {
    type V = ServicersState;

    closed spec fn view(&self) -> ServicersState {
        ServicersState {
            account_servicers: account_views(self.account_servicers@),
            servicers: servicer_views(self.servicers@),
        }
    }
}

impl Pallet {
    /// The registry's invariant.
    pub open spec fn wf(&self) -> bool {
        self@.is_sound()
    }

    /// A registry without peers.
    pub fn new() -> (pallet: Pallet)
        ensures
            pallet.wf(),
            pallet@ == (ServicersState { account_servicers: Map::empty(), servicers: Map::empty() }),
    {
        let pallet = Pallet { account_servicers: BTreeMap::new(), servicers: BTreeMap::new() };
        assert(pallet@.account_servicers =~= Map::empty());
        assert(pallet@.servicers =~= Map::empty());
        pallet
    }

    /// The record of the account `who`, if it has one.
    pub fn account_servicers(&self, who: AccountId) -> (record: Option<&AccountServicerInfo>)
        ensures
            match record {
                Some(record) => self@.account_servicers.contains_key(who) && record@
                    == self@.account_servicers[who],
                None => !self@.account_servicers.contains_key(who),
            },
    {
        self.account_servicers.get(&who)
    }

    /// The record of the peer `peer_id`, if it is registered.
    pub fn servicers(&self, peer_id: OpaquePeerId) -> (record: Option<&ServicerInfo>)
        ensures
            match record {
                Some(record) => self@.servicers.contains_key(peer_id) && record@
                    == self@.servicers[peer_id],
                None => !self@.servicers.contains_key(peer_id),
            },
    {
        self.servicers.get(&peer_id)
    }

    /// Ensures that the origin is the ancient brother, the holder of the
    /// sudo key `sudo_key`.
    pub fn ensure_ancient_brother(origin: Origin, sudo_key: Option<AccountId>) -> (res: Result<
        (),
        DispatchError,
    >)
        ensures
            res == ancient_brother(origin, sudo_key),
    {
        let caller = match ensure_signed_or_root(origin) {
            Ok(caller) => caller,
            Err(error) => {
                return Err(error);
            },
        };
        let sudo_account: AccountId = match sudo_key {
            None => {
                return Ok(());
            },
            Some(sudo_account) => sudo_account,
        };
        match caller {
            None => Err(DispatchError::Servicers(Error::AncientBrotherOnly)),
            Some(account) => {
                if account == sudo_account {
                    Ok(())
                } else {
                    Err(DispatchError::Servicers(Error::AncientBrotherOnly))
                }
            },
        }
    }

    /// Registers the peer `peer_id` for `owner`, who must have registered
    /// a legal name.
    pub fn register_servicer(
        &mut self,
        origin: Origin,
        sudo_key: Option<AccountId>,
        now: BlockNumber,
        owner: AccountId,
        peer_id: OpaquePeerId,
        base_url: Vec<u8>,
        registration: &Option<Registration>,
    ) -> (res: Result<Vec<Event>, DispatchError>)
        requires
            old(self).wf(),
        ensures
            final(self).wf(),
            old(self)@.register_outcome(
                origin,
                sudo_key,
                now,
                owner,
                peer_id,
                base_url@,
                *registration,
                final(self)@,
                res,
            ),
    {
        match Self::ensure_ancient_brother(origin, sudo_key) {
            Ok(_) => {},
            Err(error) => {
                return Err(error);
            },
        }
        if self.servicers.contains_key(&peer_id) {
            return Err(DispatchError::Servicers(Error::ServicerAlreadyRegistered));
        }
        let has_legal_name: bool = match registration {
            Some(registration) => registration.has_identity(IDENTITY_FIELD_LEGAL),
            None => false,
        };
        if !has_legal_name {
            return Err(DispatchError::Servicers(Error::AccountIsNotForJudgement));
        }
        let already_registered: bool = match self.account_servicers.get(&owner) {
            Some(account_servicer_info) => account_servicer_info.servicers.contains(&peer_id),
            None => false,
        };
        if already_registered {
            return Err(DispatchError::Servicers(Error::ServicerAlreadyRegistered));
        }
        let ghost url = base_url@;
        let base_url = match base_url_try_from(base_url) {
            Ok(base_url) => base_url,
            Err(_) => {
                return Err(DispatchError::Servicers(Error::ServicerBaseUrlTooLong));
            },
        };
        let mut account_servicer_info = match self.account_servicers.remove(&owner) {
            Some(account_servicer_info) => account_servicer_info,
            None => AccountServicerInfo { reputations: 0, servicers: BTreeSet::new() },
        };
        let ghost record = account_servicer_info@;
        assert(record =~= old(self)@.record_of(owner));
        account_servicer_info.servicers.insert(peer_id);
        let ghost updated = account_servicer_info@;
        self.account_servicers.insert(owner, account_servicer_info);
        let servicer_info = ServicerInfo { owner, timestamp: now, base_url };
        self.servicers.insert(peer_id, servicer_info);
        let mut events: Vec<Event> = Vec::new();
        events.push(Event::ServicerRegistered { account_id: owner, peer_id });
        proof {
            assert(updated =~= (AccountServicerState {
                servicers: record.servicers.insert(peer_id),
                ..record
            }));
            assert(self@.account_servicers =~= old(self)@.account_servicers.insert(owner, updated));
            assert(self@.servicers =~= old(self)@.servicers.insert(
                peer_id,
                ServicerInfoState { owner, timestamp: now, base_url: url },
            ));
            assert(events@ =~= seq![Event::ServicerRegistered { account_id: owner, peer_id }]);
        }
        Ok(events)
    }

    /// Removes the peer `peer_id`.
    pub fn remove_servicer(
        &mut self,
        origin: Origin,
        sudo_key: Option<AccountId>,
        peer_id: OpaquePeerId,
    ) -> (res: Result<Vec<Event>, DispatchError>)
        requires
            old(self).wf(),
        ensures
            final(self).wf(),
            old(self)@.remove_outcome(origin, sudo_key, peer_id, final(self)@, res),
    {
        match Self::ensure_ancient_brother(origin, sudo_key) {
            Ok(_) => {},
            Err(error) => {
                return Err(error);
            },
        }
        let servicer_owner: AccountId = match self.servicers.get(&peer_id) {
            Some(servicer_info) => servicer_info.owner,
            None => {
                return Err(DispatchError::Servicers(Error::ServicerNotFound));
            },
        };
        assert(self@.account_servicers.contains_key(servicer_owner));
        self.servicers.remove(&peer_id);
        let ghost record = old(self)@.account_servicers[servicer_owner];
        match self.account_servicers.remove(&servicer_owner) {
            Some(account_servicer_info) => {
                let mut account_servicer_info = account_servicer_info;
                account_servicer_info.servicers.remove(&peer_id);
                let ghost updated = account_servicer_info@;
                self.account_servicers.insert(servicer_owner, account_servicer_info);
                proof {
                    assert(updated =~= (AccountServicerState {
                        servicers: record.servicers.remove(peer_id),
                        ..record
                    }));
                    assert(self@.account_servicers =~= old(self)@.account_servicers.insert(
                        servicer_owner,
                        updated,
                    ));
                }
            },
            None => {},
        }
        let mut events: Vec<Event> = Vec::new();
        events.push(Event::ServicerRemoved { account_id: servicer_owner, peer_id });
        proof {
            assert(self@.servicers =~= old(self)@.servicers.remove(peer_id));
            assert(events@ =~= seq![
                Event::ServicerRemoved { account_id: servicer_owner, peer_id },
            ]);
        }
        Ok(events)
    }

    fn adjust_reputation(
        &mut self,
        origin: Origin,
        sudo_key: Option<AccountId>,
        peer_id: OpaquePeerId,
        upwards: bool,
    ) -> (res: Result<Vec<Event>, DispatchError>)
        requires
            old(self).wf(),
        ensures
            final(self).wf(),
            old(self)@.reputation_outcome(origin, sudo_key, peer_id, upwards, final(self)@, res),
    {
        match Self::ensure_ancient_brother(origin, sudo_key) {
            Ok(_) => {},
            Err(error) => {
                return Err(error);
            },
        }
        let owner_account: AccountId = match self.servicers.get(&peer_id) {
            Some(servicer_info) => servicer_info.owner,
            None => {
                return Err(DispatchError::Servicers(Error::ServicerNotFound));
            },
        };
        assert(self@.account_servicers.contains_key(owner_account));
        let mut events: Vec<Event> = Vec::new();
        match self.account_servicers.remove(&owner_account) {
            Some(account_servicer_info) => {
                let mut account_servicer_info = account_servicer_info;
                let reputations: i32 = account_servicer_info.reputations;
                if upwards {
                    if reputations < i32::MAX {
                        account_servicer_info.reputations = reputations + 1;
                    }
                    events.push(Event::ServiceReputationIncreased { account_id: owner_account });
                } else {
                    if reputations > i32::MIN {
                        account_servicer_info.reputations = reputations - 1;
                    }
                    events.push(Event::ServiceReputationDecreased { account_id: owner_account });
                }
                let ghost updated = account_servicer_info@;
                self.account_servicers.insert(owner_account, account_servicer_info);
                proof {
                    assert(self@.account_servicers =~= old(self)@.account_servicers.insert(
                        owner_account,
                        updated,
                    ));
                    assert(self@.servicers =~= old(self)@.servicers);
                }
            },
            None => {},
        }
        proof {
            assert(events@ =~= seq![
                if upwards {
                    Event::ServiceReputationIncreased { account_id: owner_account }
                } else {
                    Event::ServiceReputationDecreased { account_id: owner_account }
                },
            ]);
        }
        Ok(events)
    }

    /// Raises the reputation of the owner of the peer `peer_id` by one.
    pub fn increase_reputation(
        &mut self,
        origin: Origin,
        sudo_key: Option<AccountId>,
        peer_id: OpaquePeerId,
    ) -> (res: Result<Vec<Event>, DispatchError>)
        requires
            old(self).wf(),
        ensures
            final(self).wf(),
            old(self)@.reputation_outcome(origin, sudo_key, peer_id, true, final(self)@, res),
    {
        self.adjust_reputation(origin, sudo_key, peer_id, true)
    }

    /// Lowers the reputation of the owner of the peer `peer_id` by one.
    pub fn decrease_reputation(
        &mut self,
        origin: Origin,
        sudo_key: Option<AccountId>,
        peer_id: OpaquePeerId,
    ) -> (res: Result<Vec<Event>, DispatchError>)
        requires
            old(self).wf(),
        ensures
            final(self).wf(),
            old(self)@.reputation_outcome(origin, sudo_key, peer_id, false, final(self)@, res),
    {
        self.adjust_reputation(origin, sudo_key, peer_id, false)
    }
}

} // verus!
