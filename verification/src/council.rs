//! The council: an elder appointed by root, a bounded set of bonded and
//! legally verified members, the parameters from which transaction fees are
//! computed, and the single outstanding proposal to change them, which the
//! council decides by vote.

use vstd::prelude::*;
use std::collections::BTreeSet;
use crate::account_set::{
    account_set_contains,
    account_set_len,
    account_set_new,
    account_set_remove,
    account_set_try_insert,
    accounts_in,
    AccountSet,
    ACCOUNT_SET_BOUND,
};
use crate::identity::{Registration, IDENTITY_FIELD_LEGAL};
use crate::ledger::{credited, debited, held, least, released, Book, Ledger, Precision};
use crate::primitives::{
    ensure_root,
    ensure_signed,
    ensure_signed_or_root,
    AccountId,
    Balance,
    BlockNumber,
    DispatchError,
    LedgerError,
    Origin,
};

verus! {

/// The most members the council can have.
pub const MAX_MEMBERS: u32 = ACCOUNT_SET_BOUND;

/// Why the council holds funds.
#[derive(Clone, Copy, Debug, PartialEq, Eq)]
pub enum HoldReason {
    /// Held for council membership.
    CouncilMembership,
}

impl HoldReason {
    /// The ledger's name for this reason.
    pub open spec fn as_ledger_reason(self) -> crate::ledger::HoldReason {
        crate::ledger::HoldReason::CouncilMembership
    }

    /// The ledger's name for this reason.
    pub fn into_ledger_reason(self) -> (reason: crate::ledger::HoldReason)
        ensures
            reason == self.as_ledger_reason(),
    {
        crate::ledger::HoldReason::CouncilMembership
    }
}

/// The parameters from which transaction fees are computed.
#[derive(Clone, Copy, Debug, PartialEq, Eq)]
pub struct TransactionFeeInfo {
    pub weight_to_fee_divider: u64,
    pub weight_to_fee_multiplier: u64,
    pub minimum_transaction_fee: Balance,
}

/// A proposal to replace the fee parameters.
#[derive(Clone, Debug)]
pub struct TransactionFeeChangeProposal {
    pub initiator: AccountId,
    pub initiated_at: BlockNumber,
    pub new_parameters: TransactionFeeInfo,
    /// The number of approvals that carries the proposal, fixed when it is
    /// made.
    pub required_vote_count: u32,
    pub approvers: BTreeSet<AccountId>,
}

/// The mathematical model of a proposal.
#[verifier::ext_equal]
pub struct ProposalState {
    pub initiator: AccountId,
    pub initiated_at: BlockNumber,
    pub new_parameters: TransactionFeeInfo,
    pub required_vote_count: u32,
    pub approvers: Set<AccountId>,
}

impl View for TransactionFeeChangeProposal {
    type V = ProposalState;

    open spec fn view(&self) -> ProposalState {
        ProposalState {
            initiator: self.initiator,
            initiated_at: self.initiated_at,
            new_parameters: self.new_parameters,
            required_vote_count: self.required_vote_count,
            approvers: self.approvers@,
        }
    }
}

/// The model of a proposal that may be absent.
pub open spec fn proposal_view(proposal: Option<TransactionFeeChangeProposal>) -> Option<
    ProposalState,
> {
    match proposal {
        Some(proposal) => Some(proposal@),
        None => None,
    }
}

/// The council's parameters.
#[derive(Clone, Copy, Debug, PartialEq, Eq)]
pub struct Config {
    /// The bond held from every member.
    pub registration_deposit_amount: Balance,
    /// The account whose funds the burn commands destroy.
    pub burn_address: AccountId,
    pub initial_weight_to_fee_divider: u64,
    pub initial_weight_to_fee_multiplier: u64,
    pub initial_minimum_transaction_fee: Balance,
}

impl Config {
    /// The fee parameters in force before any proposal has carried.
    pub open spec fn initial_fee_info(self) -> TransactionFeeInfo {
        TransactionFeeInfo {
            weight_to_fee_divider: self.initial_weight_to_fee_divider,
            weight_to_fee_multiplier: self.initial_weight_to_fee_multiplier,
            minimum_transaction_fee: self.initial_minimum_transaction_fee,
        }
    }
}

/// The council as the chain starts.
#[derive(Clone, Debug, Default)]
pub struct GenesisConfig {
    pub elder: Option<AccountId>,
    pub big_brothers: Vec<AccountId>,
}

/// The council's own errors.
#[derive(Clone, Copy, Debug, PartialEq, Eq)]
pub enum Error {
    /// The module's bookkeeping is inconsistent.
    FatalError,
    /// There is no elder.
    UndefinedElder,
    /// Only root and the elder may call.
    SudoOrElderOnly,
    /// Only the elder and the members may call.
    CouncilMemberOnly,
    /// The council has all the members it can have.
    CouncilMembershipFull,
    /// The account's legal name carries no favourable judgement.
    AccountIsNotVerifiedLegally,
    /// The account has registered no legal name.
    AccountHasNoLegalName,
    /// The account is a member, or the elder, already.
    AccountAlreadyAMember,
    /// The account is not a member.
    AccountIsNotAMember,
    /// The account is the elder already.
    AccountAlreadyAnElder,
    /// No proposal is outstanding.
    NoProposalExists,
    /// The proposal changes nothing.
    IncorrectProposal,
    /// The caller has approved the proposal already.
    VoteAlreadyCounted,
}

/// What the council reports to observers.
#[derive(Clone, Copy, Debug, PartialEq, Eq)]
#[allow(inconsistent_fields)]
pub enum Event {
    BigBrotherAdded { who: AccountId, by: Option<AccountId>, hold: Balance },
    BigBrotherRemoved { who: AccountId, by: Option<AccountId>, release: Balance },
    ElderAscended { who: AccountId },
    ElderDescended { who: AccountId },
    CirculationIncreased { increase: Balance, by: Option<AccountId> },
    CirculationDecreased { decrease: Balance, by: Option<AccountId> },
    TxFeeParametersChange { previous: TransactionFeeInfo, current: TransactionFeeInfo },
    TxFeeParametersRejected { rejected: TransactionFeeInfo, by: AccountId },
    TxFeeParametersChangeProposed { proposal: TransactionFeeInfo, by: AccountId },
    TxFeeParametersChangeVoted { by: AccountId, remaining_count: u32 },
}

/// Why an account with this registration does not count as legally
/// verified, if it does not: it must have registered a legal name, and that
/// identity must carry at least one judgement and only favourable ones.
pub open spec fn legality_refusal(registration: Option<Registration>) -> Option<Error> {
    match registration {
        None => Some(Error::AccountHasNoLegalName),
        Some(registration) => if !registration.covers(IDENTITY_FIELD_LEGAL) {
            Some(Error::AccountHasNoLegalName)
        } else if !registration.is_judged_well() {
            Some(Error::AccountIsNotVerifiedLegally)
        } else {
            None
        },
    }
}

/// A command's failure with one of the council's errors.
pub open spec fn council_error(error: Error) -> Result<Vec<Event>, DispatchError> {
    Err(DispatchError::Council(error))
}

/// The mathematical model of the council.
#[verifier::ext_equal]
pub struct CouncilState {
    pub config: Config,
    pub elder: Option<AccountId>,
    pub members: Set<AccountId>,
    pub tx_fee_info: TransactionFeeInfo,
    pub current_proposal: Option<ProposalState>,
}

impl CouncilState {
    /// The council's invariant: the members are at most [`MAX_MEMBERS`],
    /// and an outstanding proposal has fewer approvals than it requires.
    pub open spec fn is_sound(self) -> bool {
        &&& self.members.finite()
        &&& self.members.len() <= MAX_MEMBERS
        &&& self.current_proposal matches Some(proposal) ==> {
            &&& proposal.approvers.finite()
            &&& proposal.approvers.len() < proposal.required_vote_count
        }
    }

    /// Whether `who` is the elder.
    pub open spec fn is_elder(self, who: AccountId) -> bool {
        self.elder == Some(who)
    }

    /// Whether `who` sits on the council: the elder and every member do.
    pub open spec fn sits_on_council(self, who: AccountId) -> bool {
        self.is_elder(who) || self.members.contains(who)
    }

    /// The check that only root and the elder pass. Root passes as `None`,
    /// the elder as itself.
    pub open spec fn elder_or_root(self, origin: Origin) -> Result<Option<AccountId>, DispatchError> {
        match origin {
            Origin::Unsigned => Err(DispatchError::BadOrigin),
            Origin::Root => Ok(None),
            Origin::Signed(caller) => match self.elder {
                None => Err(DispatchError::Council(Error::UndefinedElder)),
                Some(elder) => if elder == caller {
                    Ok(Some(caller))
                } else {
                    Err(DispatchError::Council(Error::SudoOrElderOnly))
                },
            },
        }
    }

    /// The check that only a signed call of the elder or of a member
    /// passes.
    pub open spec fn council_member(self, origin: Origin) -> Result<AccountId, DispatchError> {
        match origin {
            Origin::Signed(caller) => if self.sits_on_council(caller) {
                Ok(caller)
            } else {
                Err(DispatchError::Council(Error::CouncilMemberOnly))
            },
            _ => Err(DispatchError::BadOrigin),
        }
    }

    /// What replacing the elder by `new_elder` does: only root may do it,
    /// and not with the account that is the elder already. The previous
    /// elder, if there was one, descends before the new one ascends.
    pub open spec fn elder_replace_outcome(
        self,
        origin: Origin,
        new_elder: AccountId,
        after: CouncilState,
        res: Result<Vec<Event>, DispatchError>,
    ) -> bool {
        if !(origin is Root) {
            &&& res == Err::<Vec<Event>, DispatchError>(DispatchError::BadOrigin)
            &&& after == self
        } else if self.is_elder(new_elder) {
            &&& res == council_error(Error::AccountAlreadyAnElder)
            &&& after == self
        } else {
            &&& res is Ok
            &&& res->Ok_0@ == (match self.elder {
                Some(previous) => seq![
                    Event::ElderDescended { who: previous },
                    Event::ElderAscended { who: new_elder },
                ],
                None => seq![Event::ElderAscended { who: new_elder }],
            })
            &&& after == (CouncilState { elder: Some(new_elder), ..self })
        }
    }

    /// Why `candidate` is not admitted as a member, if it is not.
    pub open spec fn membership_add_refusal(
        self,
        book: Book,
        origin: Origin,
        candidate: AccountId,
        registration: Option<Registration>,
    ) -> Option<DispatchError> {
        if self.elder_or_root(origin) is Err {
            Some(self.elder_or_root(origin)->Err_0)
        } else if legality_refusal(registration) is Some {
            Some(DispatchError::Council(legality_refusal(registration)->Some_0))
        } else if self.members.contains(candidate) || self.is_elder(candidate) {
            Some(DispatchError::Council(Error::AccountAlreadyAMember))
        } else if self.members.len() >= MAX_MEMBERS {
            Some(DispatchError::Council(Error::CouncilMembershipFull))
        } else if book[candidate].free < self.config.registration_deposit_amount {
            Some(DispatchError::Ledger(LedgerError::FundsUnavailable))
        } else {
            None
        }
    }

    /// What admitting `candidate` does: a refused admission returns its
    /// error and changes nothing; otherwise the bond is held from the
    /// candidate, who becomes a member.
    pub open spec fn membership_add_outcome(
        self,
        book: Book,
        origin: Origin,
        candidate: AccountId,
        registration: Option<Registration>,
        after: CouncilState,
        book_after: Book,
        res: Result<Vec<Event>, DispatchError>,
    ) -> bool {
        match self.membership_add_refusal(book, origin, candidate, registration) {
            Some(error) => {
                &&& res == Err::<Vec<Event>, DispatchError>(error)
                &&& after == self
                &&& book_after == book
            },
            None => {
                let bond = self.config.registration_deposit_amount;
                &&& res is Ok
                &&& res->Ok_0@ == seq![
                    Event::BigBrotherAdded {
                        who: candidate,
                        by: self.elder_or_root(origin)->Ok_0,
                        hold: bond,
                    },
                ]
                &&& after == (CouncilState { members: self.members.insert(candidate), ..self })
                &&& book_after == held(
                    book,
                    crate::ledger::HoldReason::CouncilMembership,
                    candidate,
                    bond,
                )
            },
        }
    }

    /// What removing `member` does: only root and the elder may do it, and
    /// only to a member. Everything held from the member as its bond is
    /// released, whatever is left of it.
    pub open spec fn membership_remove_outcome(
        self,
        book: Book,
        origin: Origin,
        member: AccountId,
        after: CouncilState,
        book_after: Book,
        res: Result<Vec<Event>, DispatchError>,
    ) -> bool {
        if self.elder_or_root(origin) is Err {
            &&& res == Err::<Vec<Event>, DispatchError>(self.elder_or_root(origin)->Err_0)
            &&& after == self
            &&& book_after == book
        } else if !self.members.contains(member) {
            &&& res == council_error(Error::AccountIsNotAMember)
            &&& after == self
            &&& book_after == book
        } else {
            let bond = book[member].held_for_membership;
            &&& res is Ok
            &&& res->Ok_0@ == seq![
                Event::BigBrotherRemoved {
                    who: member,
                    by: self.elder_or_root(origin)->Ok_0,
                    release: bond,
                },
            ]
            &&& after == (CouncilState { members: self.members.remove(member), ..self })
            &&& book_after == released(
                book,
                crate::ledger::HoldReason::CouncilMembership,
                member,
                bond,
            )
        }
    }

    /// What minting `amount` into `dest` does: only root and the elder may
    /// do it, and the ledger refuses an amount that `dest` cannot receive.
    pub open spec fn mint_outcome(
        self,
        book: Book,
        origin: Origin,
        dest: AccountId,
        amount: Balance,
        book_after: Book,
        res: Result<Vec<Event>, DispatchError>,
    ) -> bool {
        if self.elder_or_root(origin) is Err {
            &&& res == Err::<Vec<Event>, DispatchError>(self.elder_or_root(origin)->Err_0)
            &&& book_after == book
        } else if !crate::ledger::can_receive(book, dest, amount) {
            &&& res == Err::<Vec<Event>, DispatchError>(
                DispatchError::Ledger(LedgerError::Overflow),
            )
            &&& book_after == book
        } else {
            &&& res is Ok
            &&& res->Ok_0@ == seq![
                Event::CirculationIncreased {
                    increase: amount,
                    by: self.elder_or_root(origin)->Ok_0,
                },
            ]
            &&& book_after == credited(book, dest, amount)
        }
    }

    /// What burning `amount` does: only root and the elder may do it. The
    /// funds come out of the burn address, as much of `amount` as its free
    /// balance holds, so that the burn itself never fails.
    pub open spec fn burn_outcome(
        self,
        book: Book,
        origin: Origin,
        amount: Balance,
        book_after: Book,
        res: Result<Vec<Event>, DispatchError>,
    ) -> bool {
        if self.elder_or_root(origin) is Err {
            &&& res == Err::<Vec<Event>, DispatchError>(self.elder_or_root(origin)->Err_0)
            &&& book_after == book
        } else {
            let burnt = least(amount, book[self.config.burn_address].free);
            &&& res is Ok
            &&& res->Ok_0@ == seq![
                Event::CirculationDecreased { decrease: burnt, by: self.elder_or_root(origin)->Ok_0 },
            ]
            &&& book_after == debited(book, self.config.burn_address, burnt)
        }
    }

    /// The parameters that a proposal with these three wishes asks for:
    /// what is not wished for stays as it is in force.
    pub open spec fn wished_parameters(
        self,
        new_multiplier: Option<u64>,
        new_divider: Option<u64>,
        new_minimum_fee: Option<Balance>,
    ) -> TransactionFeeInfo {
        TransactionFeeInfo {
            weight_to_fee_multiplier: match new_multiplier {
                Some(value) => value,
                None => self.tx_fee_info.weight_to_fee_multiplier,
            },
            weight_to_fee_divider: match new_divider {
                Some(value) => value,
                None => self.tx_fee_info.weight_to_fee_divider,
            },
            minimum_transaction_fee: match new_minimum_fee {
                Some(value) => value,
                None => self.tx_fee_info.minimum_transaction_fee,
            },
        }
    }

    /// What `proposer` proposing new fee parameters at block `now` does. A
    /// proposal that wishes for nothing is refused. Otherwise an
    /// outstanding proposal is rejected and the new one takes its place,
    /// without approvals, requiring one approval more than the council has
    /// members.
    pub open spec fn propose_outcome(
        self,
        proposer: AccountId,
        now: BlockNumber,
        new_multiplier: Option<u64>,
        new_divider: Option<u64>,
        new_minimum_fee: Option<Balance>,
        after: CouncilState,
        res: Result<Vec<Event>, DispatchError>,
    ) -> bool {
        if new_multiplier is None && new_divider is None && new_minimum_fee is None {
            &&& res == council_error(Error::IncorrectProposal)
            &&& after == self
        } else {
            let wished = self.wished_parameters(new_multiplier, new_divider, new_minimum_fee);
            let proposed = Event::TxFeeParametersChangeProposed { proposal: wished, by: proposer };
            &&& res is Ok
            &&& res->Ok_0@ == (match self.current_proposal {
                Some(replaced) => seq![
                    Event::TxFeeParametersRejected {
                        rejected: replaced.new_parameters,
                        by: proposer,
                    },
                    proposed,
                ],
                None => seq![proposed],
            })
            &&& after == (CouncilState {
                current_proposal: Some(
                    ProposalState {
                        initiator: proposer,
                        initiated_at: now,
                        new_parameters: wished,
                        required_vote_count: (self.members.len() + 1) as u32,
                        approvers: Set::empty(),
                    },
                ),
                ..self
            })
        }
    }

    /// What a vote of `voter` does. Without a proposal it is refused. A
    /// rejecting vote discards the proposal, whatever approvals it had. An
    /// approving vote of someone who has approved already is refused; any
    /// other is counted, and the proposal is carried out, and gone, exactly
    /// when that brings the approvals to the required number.
    pub open spec fn vote_outcome(
        self,
        voter: AccountId,
        is_approving: bool,
        after: CouncilState,
        res: Result<Vec<Event>, DispatchError>,
    ) -> bool {
        match self.current_proposal {
            None => {
                &&& res == council_error(Error::NoProposalExists)
                &&& after == self
            },
            Some(proposal) => if !is_approving {
                &&& res is Ok
                &&& res->Ok_0@ == seq![
                    Event::TxFeeParametersRejected { rejected: proposal.new_parameters, by: voter },
                ]
                &&& after == (CouncilState { current_proposal: None, ..self })
            } else if proposal.approvers.contains(voter) {
                &&& res == council_error(Error::VoteAlreadyCounted)
                &&& after == self
            } else {
                let remaining = proposal.required_vote_count - (proposal.approvers.len() + 1);
                let voted = Event::TxFeeParametersChangeVoted {
                    by: voter,
                    remaining_count: remaining as u32,
                };
                &&& res is Ok
                &&& if remaining == 0 {
                    &&& res->Ok_0@ == seq![
                        voted,
                        Event::TxFeeParametersChange {
                            previous: self.tx_fee_info,
                            current: proposal.new_parameters,
                        },
                    ]
                    &&& after == (CouncilState {
                        current_proposal: None,
                        tx_fee_info: proposal.new_parameters,
                        ..self
                    })
                } else {
                    &&& res->Ok_0@ == seq![voted]
                    &&& after == (CouncilState {
                        current_proposal: Some(
                            ProposalState {
                                approvers: proposal.approvers.insert(voter),
                                ..proposal
                            },
                        ),
                        ..self
                    })
                }
            },
        }
    }
}

/// The council stays within its bound: whatever an admission does to a
/// sound council, the council has at most [`MAX_MEMBERS`] members
/// afterwards, and an admission into a council that has that many members
/// never succeeds. Where nothing else stands against the candidate, it
/// fails with `CouncilMembershipFull`.
pub proof fn lemma_membership_is_bounded(
    council: CouncilState,
    book: Book,
    origin: Origin,
    candidate: AccountId,
    registration: Option<Registration>,
    after: CouncilState,
    book_after: Book,
    res: Result<Vec<Event>, DispatchError>,
)
    requires
        council.is_sound(),
        council.membership_add_outcome(
            book,
            origin,
            candidate,
            registration,
            after,
            book_after,
            res,
        ),
    ensures
        after.is_sound(),
        after.members.len() <= MAX_MEMBERS,
        council.members.len() == MAX_MEMBERS ==> res is Err && after == council && book_after
            == book,
        council.members.len() == MAX_MEMBERS && council.elder_or_root(origin) is Ok
            && legality_refusal(registration) is None && !council.members.contains(candidate)
            && !council.is_elder(candidate) ==> res == council_error(Error::CouncilMembershipFull),
{
}

/// The elder is exclusive: once root has made an account the elder, that
/// account is the elder, and making it the elder again fails with
/// `AccountAlreadyAnElder` and changes nothing.
pub proof fn lemma_elder_is_exclusive(
    council: CouncilState,
    new_elder: AccountId,
    after: CouncilState,
    res: Result<Vec<Event>, DispatchError>,
    after_again: CouncilState,
    res_again: Result<Vec<Event>, DispatchError>,
)
    requires
        council.elder_replace_outcome(Origin::Root, new_elder, after, res),
        res is Ok,
        after.elder_replace_outcome(Origin::Root, new_elder, after_again, res_again),
    ensures
        after.elder == Some(new_elder),
        res_again == council_error(Error::AccountAlreadyAnElder),
        after_again == after,
{
}

/// The threshold of a proposal: an approving vote of someone who has not
/// approved yet carries the proposal out exactly when it is the last of
/// the required approvals, and never earlier. Until then the fee
/// parameters stay as they are and the proposal stays, with the vote
/// counted.
pub proof fn lemma_proposal_is_carried_at_threshold(
    council: CouncilState,
    voter: AccountId,
    after: CouncilState,
    res: Result<Vec<Event>, DispatchError>,
)
    requires
        council.is_sound(),
        council.current_proposal matches Some(proposal) && !proposal.approvers.contains(voter),
        council.vote_outcome(voter, true, after, res),
    ensures
        res is Ok,
        ({
            let proposal = council.current_proposal->Some_0;
            let carried = proposal.approvers.len() + 1 == proposal.required_vote_count;
            &&& carried <==> after.current_proposal is None
            &&& carried ==> after.tx_fee_info == proposal.new_parameters
            &&& !carried ==> after.tx_fee_info == council.tx_fee_info
            &&& !carried ==> after.current_proposal == Some(
                ProposalState { approvers: proposal.approvers.insert(voter), ..proposal },
            )
            &&& !carried ==> proposal.approvers.insert(voter).len() == proposal.approvers.len()
                + 1
        }),
{
}

/// A rejecting vote discards the proposal whatever approvals it has, and
/// leaves the fee parameters as they are.
pub proof fn lemma_rejection_discards_proposal(
    council: CouncilState,
    voter: AccountId,
    after: CouncilState,
    res: Result<Vec<Event>, DispatchError>,
)
    requires
        council.current_proposal is Some,
        council.vote_outcome(voter, false, after, res),
    ensures
        res is Ok,
        after.current_proposal is None,
        after.tx_fee_info == council.tx_fee_info,
{
}

/// The council.
pub struct Pallet {
    config: Config,
    elder: Option<AccountId>,
    members: AccountSet,
    tx_fee_info: TransactionFeeInfo,
    current_proposal: Option<TransactionFeeChangeProposal>,
}

impl View for Pallet {
    type V = CouncilState;

    closed spec fn view(&self) -> CouncilState {
        CouncilState {
            config: self.config,
            elder: self.elder,
            members: accounts_in(self.members),
            tx_fee_info: self.tx_fee_info,
            current_proposal: proposal_view(self.current_proposal),
        }
    }
}

impl GenesisConfig {
    /// The council as the chain starts: the given elder, the given members
    /// and the configured fee parameters, with no proposal. There must be
    /// no more members than the council can have.
    pub fn build(&self, config: Config) -> (pallet: Pallet)
        requires
            self.big_brothers@.len() <= MAX_MEMBERS,
        ensures
            pallet.wf(),
            pallet@ == (CouncilState {
                config,
                elder: self.elder,
                members: self.big_brothers@.to_set(),
                tx_fee_info: config.initial_fee_info(),
                current_proposal: None,
            }),
    {
        let mut bounded_members = account_set_new();
        let mut i: usize = 0;
        while i < self.big_brothers.len()
            invariant
                i <= self.big_brothers@.len() <= MAX_MEMBERS,
                accounts_in(bounded_members).finite(),
                accounts_in(bounded_members).len() <= i,
                accounts_in(bounded_members) == self.big_brothers@.take(i as int).to_set(),
            decreases self.big_brothers@.len() - i,
        {
            let big_brother: AccountId = self.big_brothers[i];
            let _ = account_set_try_insert(&mut bounded_members, big_brother);
            proof {
                let before = self.big_brothers@.take(i as int);
                let now = self.big_brothers@.take(i + 1);
                assert(now == before.push(big_brother));
                assert(now.to_set() =~= before.to_set().insert(big_brother)) by {
                    assert forall|who: AccountId| #[trigger]
                        now.to_set().contains(who) <==> before.to_set().insert(
                            big_brother,
                        ).contains(who) by {
                        if now.contains(who) {
                            let j = choose|j: int| 0 <= j < now.len() && now[j] == who;
                            if j < i {
                                assert(before[j] == who);
                            }
                        }
                        if before.contains(who) {
                            let j = choose|j: int| 0 <= j < before.len() && before[j] == who;
                            assert(now[j] == who);
                        }
                        if who == big_brother {
                            assert(now[i as int] == who);
                        }
                    }
                }
            }
            i += 1;
        }
        assert(self.big_brothers@.take(i as int) == self.big_brothers@);
        Pallet {
            config,
            elder: self.elder,
            members: bounded_members,
            tx_fee_info: TransactionFeeInfo {
                weight_to_fee_divider: config.initial_weight_to_fee_divider,
                weight_to_fee_multiplier: config.initial_weight_to_fee_multiplier,
                minimum_transaction_fee: config.initial_minimum_transaction_fee,
            },
            current_proposal: None,
        }
    }
}

impl Pallet {
    /// The council's invariant.
    pub open spec fn wf(&self) -> bool {
        self@.is_sound()
    }

    /// A council without elder or members, with the configured fee
    /// parameters and no proposal.
    pub fn new(config: Config) -> (pallet: Pallet)
        ensures
            pallet.wf(),
            pallet@ == (CouncilState {
                config,
                elder: None,
                members: Set::empty(),
                tx_fee_info: config.initial_fee_info(),
                current_proposal: None,
            }),
    {
        Pallet {
            config,
            elder: None,
            members: account_set_new(),
            tx_fee_info: TransactionFeeInfo {
                weight_to_fee_divider: config.initial_weight_to_fee_divider,
                weight_to_fee_multiplier: config.initial_weight_to_fee_multiplier,
                minimum_transaction_fee: config.initial_minimum_transaction_fee,
            },
            current_proposal: None,
        }
    }

    /// The council's parameters.
    pub fn config(&self) -> (config: Config)
        ensures
            config == self@.config,
    {
        self.config
    }

    /// The elder, if there is one.
    pub fn elder(&self) -> (elder: Option<AccountId>)
        ensures
            elder == self@.elder,
    {
        self.elder
    }

    /// The members.
    pub fn members(&self) -> (members: &AccountSet)
        ensures
            accounts_in(*members) == self@.members,
    {
        &self.members
    }

    /// Whether `who` is a member.
    pub fn is_member(&self, who: AccountId) -> (res: bool)
        ensures
            res == self@.members.contains(who),
    {
        account_set_contains(&self.members, who)
    }

    /// The number of members.
    pub fn member_count(&self) -> (count: u32)
        requires
            self.wf(),
        ensures
            count == self@.members.len(),
    {
        account_set_len(&self.members) as u32
    }

    /// The fee parameters in force.
    pub fn tx_fee_info(&self) -> (info: TransactionFeeInfo)
        ensures
            info == self@.tx_fee_info,
    {
        self.tx_fee_info
    }

    /// The outstanding proposal, if there is one.
    pub fn current_proposal(&self) -> (proposal: &Option<TransactionFeeChangeProposal>)
        ensures
            proposal_view(*proposal) == self@.current_proposal,
    {
        &self.current_proposal
    }

    /// Ensures that the origin is root or the elder.
    pub fn ensure_elder_or_root(&self, origin: Origin) -> (res: Result<(), DispatchError>)
        ensures
            match self@.elder_or_root(origin) {
                Ok(_) => res is Ok,
                Err(error) => res == Err::<(), DispatchError>(error),
            },
    {
        match self.ensure_and_get_elder_or_root(origin) {
            Ok(_) => Ok(()),
            Err(error) => Err(error),
        }
    }

    /// Ensures that the origin is root, the elder or a member.
    pub fn ensure_council_member_or_root(&self, origin: Origin) -> (res: Result<(), DispatchError>)
        ensures
            res == (match origin {
                Origin::Root => Ok::<(), DispatchError>(()),
                _ => match self@.council_member(origin) {
                    Ok(_) => Ok(()),
                    Err(error) => Err(error),
                },
            }),
    {
        match ensure_signed_or_root(origin) {
            Err(error) => Err(error),
            Ok(None) => Ok(()),
            Ok(Some(_)) => match self.ensure_and_get_council_member(origin) {
                Ok(_) => Ok(()),
                Err(error) => Err(error),
            },
        }
    }

    /// Ensures that the account with this registration has registered a
    /// legal name.
    pub fn ensure_account_has_legal_field(registration: &Option<Registration>) -> (res: Result<
        (),
        DispatchError,
    >)
        ensures
            res == (match *registration {
                Some(registration) if registration.covers(IDENTITY_FIELD_LEGAL) => Ok::<
                    (),
                    DispatchError,
                >(()),
                _ => Err(DispatchError::Council(Error::AccountHasNoLegalName)),
            }),
    {
        match registration {
            Some(registration) => {
                if registration.has_identity(IDENTITY_FIELD_LEGAL) {
                    Ok(())
                } else {
                    Err(DispatchError::Council(Error::AccountHasNoLegalName))
                }
            },
            None => Err(DispatchError::Council(Error::AccountHasNoLegalName)),
        }
    }

    /// Ensures that the account with this registration is legally
    /// verified: it has registered a legal name, and its identity carries
    /// at least one judgement and only favourable ones.
    pub fn ensure_account_has_verified_legality(registration: &Option<Registration>) -> (res:
        Result<(), DispatchError>)
        ensures
            res == (match legality_refusal(*registration) {
                Some(error) => Err::<(), DispatchError>(DispatchError::Council(error)),
                None => Ok(()),
            }),
    {
        match Self::ensure_account_has_legal_field(registration) {
            Ok(_) => {},
            Err(error) => {
                return Err(error);
            },
        }
        match registration {
            Some(registration) => {
                if registration.judged_well() {
                    Ok(())
                } else {
                    Err(DispatchError::Council(Error::AccountIsNotVerifiedLegally))
                }
            },
            None => Err(DispatchError::Council(Error::AccountHasNoLegalName)),
        }
    }

    /// Ensures that the origin is root or the elder, and returns the
    /// elder's account when the elder calls.
    pub fn ensure_and_get_elder_or_root(&self, origin: Origin) -> (res: Result<
        Option<AccountId>,
        DispatchError,
    >)
        ensures
            res == self@.elder_or_root(origin),
    {
        let signed_caller: AccountId = match ensure_signed_or_root(origin) {
            Err(error) => {
                return Err(error);
            },
            Ok(None) => {
                return Ok(None);
            },
            Ok(Some(signed_caller)) => signed_caller,
        };
        match self.elder {
            None => Err(DispatchError::Council(Error::UndefinedElder)),
            Some(elder) => {
                if elder == signed_caller {
                    Ok(Some(signed_caller))
                } else {
                    Err(DispatchError::Council(Error::SudoOrElderOnly))
                }
            },
        }
    }

    /// Ensures that the origin is the elder or a member, and returns its
    /// account.
    pub fn ensure_and_get_council_member(&self, origin: Origin) -> (res: Result<
        AccountId,
        DispatchError,
    >)
        ensures
            res == self@.council_member(origin),
    {
        let signed_caller: AccountId = match ensure_signed(origin) {
            Err(error) => {
                return Err(error);
            },
            Ok(signed_caller) => signed_caller,
        };
        if let Some(elder) = self.elder {
            if elder == signed_caller {
                return Ok(signed_caller);
            }
        }
        if account_set_contains(&self.members, signed_caller) {
            Ok(signed_caller)
        } else {
            Err(DispatchError::Council(Error::CouncilMemberOnly))
        }
    }

    /// Makes a proposal of `proposer` the outstanding one, rejecting the
    /// one it replaces.
    pub fn propose_tx_fee_change(
        &mut self,
        proposer: AccountId,
        now: BlockNumber,
        new_multiplier: Option<u64>,
        new_divider: Option<u64>,
        new_minimum_fee: Option<Balance>,
    ) -> (res: Result<Vec<Event>, DispatchError>)
        requires
            old(self).wf(),
        ensures
            final(self).wf(),
            old(self)@.propose_outcome(
                proposer,
                now,
                new_multiplier,
                new_divider,
                new_minimum_fee,
                final(self)@,
                res,
            ),
    {
        if new_multiplier.is_none() && new_divider.is_none() && new_minimum_fee.is_none() {
            return Err(DispatchError::Council(Error::IncorrectProposal));
        }
        let mut events: Vec<Event> = Vec::new();
        if let Some(old_proposal) = &self.current_proposal {
            events.push(
                Event::TxFeeParametersRejected {
                    rejected: old_proposal.new_parameters,
                    by: proposer,
                },
            );
        }
        let current = self.tx_fee_info;
        let new_multiplier: u64 = match new_multiplier {
            None => current.weight_to_fee_multiplier,
            Some(value) => value,
        };
        let new_divider: u64 = match new_divider {
            None => current.weight_to_fee_divider,
            Some(value) => value,
        };
        let new_minimum_fee: Balance = match new_minimum_fee {
            None => current.minimum_transaction_fee,
            Some(value) => value,
        };
        let member_count: usize = account_set_len(&self.members);
        let new_proposal = TransactionFeeChangeProposal {
            approvers: BTreeSet::new(),
            initiated_at: now,
            initiator: proposer,
            required_vote_count: member_count as u32 + 1,
            new_parameters: TransactionFeeInfo {
                minimum_transaction_fee: new_minimum_fee,
                weight_to_fee_divider: new_divider,
                weight_to_fee_multiplier: new_multiplier,
            },
        };
        events.push(
            Event::TxFeeParametersChangeProposed {
                proposal: new_proposal.new_parameters,
                by: proposer,
            },
        );
        let ghost wished = new_proposal.new_parameters;
        self.current_proposal = Some(new_proposal);
        proof {
            let proposed = Event::TxFeeParametersChangeProposed { proposal: wished, by: proposer };
            assert(events@ =~= (match old(self)@.current_proposal {
                Some(replaced) => seq![
                    Event::TxFeeParametersRejected {
                        rejected: replaced.new_parameters,
                        by: proposer,
                    },
                    proposed,
                ],
                None => seq![proposed],
            }));
            assert(self@.current_proposal->Some_0 =~= (ProposalState {
                initiator: proposer,
                initiated_at: now,
                new_parameters: wished,
                required_vote_count: (old(self)@.members.len() + 1) as u32,
                approvers: Set::empty(),
            }));
        }
        Ok(events)
    }

    /// Replaces the fee parameters in force and returns the replaced and
    /// the new ones.
    pub fn set_tx_fee_info(&mut self, multiplier: u64, divider: u64, minimum_fee: Balance) -> (res:
        (TransactionFeeInfo, TransactionFeeInfo))
        ensures
            res.0 == old(self)@.tx_fee_info,
            res.1 == (TransactionFeeInfo {
                minimum_transaction_fee: minimum_fee,
                weight_to_fee_multiplier: multiplier,
                weight_to_fee_divider: divider,
            }),
            final(self)@ == (CouncilState { tx_fee_info: res.1, ..old(self)@ }),
    {
        let previous = self.tx_fee_info;
        let current = TransactionFeeInfo {
            minimum_transaction_fee: minimum_fee,
            weight_to_fee_multiplier: multiplier,
            weight_to_fee_divider: divider,
        };
        self.tx_fee_info = current;
        (previous, current)
    }

    /// Counts a vote of `votee` on the outstanding proposal.
    pub fn vote_to_proposal(&mut self, votee: AccountId, is_approving: bool) -> (res: Result<
        Vec<Event>,
        DispatchError,
    >)
        requires
            old(self).wf(),
        ensures
            final(self).wf(),
            old(self)@.vote_outcome(votee, is_approving, final(self)@, res),
    {
        let mut taken: Option<TransactionFeeChangeProposal> = None;
        std::mem::swap(&mut self.current_proposal, &mut taken);
        let mut proposal = match taken {
            None => {
                return Err(DispatchError::Council(Error::NoProposalExists));
            },
            Some(proposal) => proposal,
        };
        let mut events: Vec<Event> = Vec::new();
        if !is_approving {
            events.push(
                Event::TxFeeParametersRejected { by: votee, rejected: proposal.new_parameters },
            );
            proof {
                assert(events@ =~= seq![
                    Event::TxFeeParametersRejected { rejected: proposal.new_parameters, by: votee },
                ]);
                assert(self@ =~= (CouncilState { current_proposal: None, ..old(self)@ }));
            }
            return Ok(events);
        }
        if proposal.approvers.contains(&votee) {
            self.current_proposal = Some(proposal);
            assert(self@ =~= old(self)@);
            return Err(DispatchError::Council(Error::VoteAlreadyCounted));
        }
        let ghost before = proposal@;
        proposal.approvers.insert(votee);
        let current_vote_count: u32 = proposal.approvers.len() as u32;
        let remaining_count: u32 = proposal.required_vote_count.saturating_sub(current_vote_count);
        events.push(Event::TxFeeParametersChangeVoted { by: votee, remaining_count });
        if remaining_count == 0 {
            let parameters = proposal.new_parameters;
            let (previous, current) = self.set_tx_fee_info(
                parameters.weight_to_fee_multiplier,
                parameters.weight_to_fee_divider,
                parameters.minimum_transaction_fee,
            );
            events.push(Event::TxFeeParametersChange { previous, current });
            proof {
                assert(events@ =~= seq![
                    Event::TxFeeParametersChangeVoted { by: votee, remaining_count },
                    Event::TxFeeParametersChange { previous, current },
                ]);
                assert(self@ =~= (CouncilState {
                    current_proposal: None,
                    tx_fee_info: before.new_parameters,
                    ..old(self)@
                }));
            }
        } else {
            self.current_proposal = Some(proposal);
            proof {
                assert(events@ =~= seq![
                    Event::TxFeeParametersChangeVoted { by: votee, remaining_count },
                ]);
                assert(self@.current_proposal->Some_0 =~= (ProposalState {
                    approvers: before.approvers.insert(votee),
                    ..before
                }));
            }
        }
        Ok(events)
    }

    /// Root: replace the elder.
    pub fn su_elder_replace(&mut self, origin: Origin, new_elder: AccountId) -> (res: Result<
        Vec<Event>,
        DispatchError,
    >)
        requires
            old(self).wf(),
        ensures
            final(self).wf(),
            old(self)@.elder_replace_outcome(origin, new_elder, final(self)@, res),
    {
        match ensure_root(origin) {
            Ok(_) => {},
            Err(error) => {
                return Err(error);
            },
        }
        let mut events: Vec<Event> = Vec::new();
        if let Some(previous_elder) = self.elder {
            if previous_elder == new_elder {
                return Err(DispatchError::Council(Error::AccountAlreadyAnElder));
            }
            events.push(Event::ElderDescended { who: previous_elder });
        }
        self.elder = Some(new_elder);
        events.push(Event::ElderAscended { who: new_elder });
        proof {
            assert(events@ =~= (match old(self)@.elder {
                Some(previous) => seq![
                    Event::ElderDescended { who: previous },
                    Event::ElderAscended { who: new_elder },
                ],
                None => seq![Event::ElderAscended { who: new_elder }],
            }));
        }
        Ok(events)
    }

    /// Root or elder: add a council member.
    pub fn se_membership_add(
        &mut self,
        ledger: &mut Ledger,
        origin: Origin,
        new_council_member: AccountId,
        registration: &Option<Registration>,
    ) -> (res: Result<Vec<Event>, DispatchError>)
        requires
            old(self).wf(),
            old(ledger).wf(),
        ensures
            final(self).wf(),
            final(ledger).wf(),
            old(self)@.membership_add_outcome(
                old(ledger)@,
                origin,
                new_council_member,
                *registration,
                final(self)@,
                final(ledger)@,
                res,
            ),
    {
        let by = match self.ensure_and_get_elder_or_root(origin) {
            Ok(by) => by,
            Err(error) => {
                return Err(error);
            },
        };
        match Self::ensure_account_has_verified_legality(registration) {
            Ok(_) => {},
            Err(error) => {
                return Err(error);
            },
        }
        if account_set_contains(&self.members, new_council_member) {
            return Err(DispatchError::Council(Error::AccountAlreadyAMember));
        }
        if let Some(elder) = self.elder {
            if new_council_member == elder {
                return Err(DispatchError::Council(Error::AccountAlreadyAMember));
            }
        }
        if account_set_len(&self.members) >= MAX_MEMBERS as usize {
            return Err(DispatchError::Council(Error::CouncilMembershipFull));
        }
        let amount: Balance = self.config.registration_deposit_amount;
        match ledger.hold(HoldReason::CouncilMembership.into_ledger_reason(), new_council_member, amount) {
            Ok(_) => {},
            Err(error) => {
                return Err(DispatchError::Ledger(error));
            },
        }
        let _ = account_set_try_insert(&mut self.members, new_council_member);
        let mut events: Vec<Event> = Vec::new();
        events.push(Event::BigBrotherAdded { who: new_council_member, by, hold: amount });
        Ok(events)
    }

    /// Root or elder: remove a council member.
    pub fn se_membership_remove(
        &mut self,
        ledger: &mut Ledger,
        origin: Origin,
        council_member: AccountId,
    ) -> (res: Result<Vec<Event>, DispatchError>)
        requires
            old(self).wf(),
            old(ledger).wf(),
        ensures
            final(self).wf(),
            final(ledger).wf(),
            old(self)@.membership_remove_outcome(
                old(ledger)@,
                origin,
                council_member,
                final(self)@,
                final(ledger)@,
                res,
            ),
    {
        let by = match self.ensure_and_get_elder_or_root(origin) {
            Ok(by) => by,
            Err(error) => {
                return Err(error);
            },
        };
        if !account_set_contains(&self.members, council_member) {
            return Err(DispatchError::Council(Error::AccountIsNotAMember));
        }
        let reason = HoldReason::CouncilMembership.into_ledger_reason();
        let amount: Balance = ledger.balance_on_hold(reason, council_member);
        let release: Balance = match ledger.release(
            reason,
            council_member,
            amount,
            Precision::BestEffort,
        ) {
            Ok(released_balance) => released_balance,
            Err(error) => {
                return Err(DispatchError::Ledger(error));
            },
        };
        account_set_remove(&mut self.members, council_member);
        let mut events: Vec<Event> = Vec::new();
        events.push(Event::BigBrotherRemoved { who: council_member, by, release });
        Ok(events)
    }

    /// Root or elder: mint tokens into `dest`.
    pub fn se_currency_mint_into(
        &self,
        ledger: &mut Ledger,
        origin: Origin,
        dest: AccountId,
        amount: Balance,
    ) -> (res: Result<Vec<Event>, DispatchError>)
        requires
            old(ledger).wf(),
        ensures
            final(ledger).wf(),
            self@.mint_outcome(old(ledger)@, origin, dest, amount, final(ledger)@, res),
    {
        let by = match self.ensure_and_get_elder_or_root(origin) {
            Ok(by) => by,
            Err(error) => {
                return Err(error);
            },
        };
        let increase: Balance = match ledger.mint_into(dest, amount) {
            Ok(increase) => increase,
            Err(error) => {
                return Err(DispatchError::Ledger(error));
            },
        };
        let mut events: Vec<Event> = Vec::new();
        events.push(Event::CirculationIncreased { increase, by });
        Ok(events)
    }

    /// Root or elder: burn tokens of the burn address.
    pub fn se_currency_burn(&self, ledger: &mut Ledger, origin: Origin, amount: Balance) -> (res:
        Result<Vec<Event>, DispatchError>)
        requires
            old(ledger).wf(),
        ensures
            final(ledger).wf(),
            self@.burn_outcome(old(ledger)@, origin, amount, final(ledger)@, res),
    {
        let by = match self.ensure_and_get_elder_or_root(origin) {
            Ok(by) => by,
            Err(error) => {
                return Err(error);
            },
        };
        let decrease: Balance = match ledger.burn_from(
            self.config.burn_address,
            amount,
            Precision::BestEffort,
        ) {
            Ok(decrease) => decrease,
            Err(error) => {
                return Err(DispatchError::Ledger(error));
            },
        };
        let mut events: Vec<Event> = Vec::new();
        events.push(Event::CirculationDecreased { decrease, by });
        Ok(events)
    }

    /// Root or elder: burn every token of the burn address.
    pub fn se_currency_burn_all(&self, ledger: &mut Ledger, origin: Origin) -> (res: Result<
        Vec<Event>,
        DispatchError,
    >)
        requires
            old(ledger).wf(),
        ensures
            final(ledger).wf(),
            self@.burn_outcome(
                old(ledger)@,
                origin,
                old(ledger)@[self@.config.burn_address].free,
                final(ledger)@,
                res,
            ),
    {
        let by = match self.ensure_and_get_elder_or_root(origin) {
            Ok(by) => by,
            Err(error) => {
                return Err(error);
            },
        };
        let amount: Balance = ledger.balance(self.config.burn_address);
        let decrease: Balance = match ledger.burn_from(
            self.config.burn_address,
            amount,
            Precision::BestEffort,
        ) {
            Ok(decrease) => decrease,
            Err(error) => {
                return Err(DispatchError::Ledger(error));
            },
        };
        let mut events: Vec<Event> = Vec::new();
        events.push(Event::CirculationDecreased { decrease, by });
        Ok(events)
    }

    /// Council member: propose new fee parameters, rejecting the proposal
    /// that is outstanding, if there is one.
    pub fn cm_proposal_new(
        &mut self,
        origin: Origin,
        now: BlockNumber,
        new_multiplier: Option<u64>,
        new_divider: Option<u64>,
        new_minimum_fee: Option<Balance>,
    ) -> (res: Result<Vec<Event>, DispatchError>)
        requires
            old(self).wf(),
        ensures
            final(self).wf(),
            match old(self)@.council_member(origin) {
                Ok(proposer) => old(self)@.propose_outcome(
                    proposer,
                    now,
                    new_multiplier,
                    new_divider,
                    new_minimum_fee,
                    final(self)@,
                    res,
                ),
                Err(error) => res == Err::<Vec<Event>, DispatchError>(error) && final(self)@ == old(
                    self,
                )@,
            },
    {
        match self.ensure_and_get_council_member(origin) {
            Ok(proposer) => self.propose_tx_fee_change(
                proposer,
                now,
                new_multiplier,
                new_divider,
                new_minimum_fee,
            ),
            Err(error) => Err(error),
        }
    }

    /// Council member: vote on the outstanding proposal. The vote that
    /// completes the required approvals carries the proposal out at once; a
    /// rejecting vote discards it at once.
    pub fn cm_proposal_vote(&mut self, origin: Origin, is_approving: bool) -> (res: Result<
        Vec<Event>,
        DispatchError,
    >)
        requires
            old(self).wf(),
        ensures
            final(self).wf(),
            match old(self)@.council_member(origin) {
                Ok(voter) => old(self)@.vote_outcome(voter, is_approving, final(self)@, res),
                Err(error) => res == Err::<Vec<Event>, DispatchError>(error) && final(self)@ == old(
                    self,
                )@,
            },
    {
        match self.ensure_and_get_council_member(origin) {
            Ok(votee) => self.vote_to_proposal(votee, is_approving),
            Err(error) => Err(error),
        }
    }
}

} // verus!
