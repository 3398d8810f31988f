//! The ledger: every account's free balance and the amounts held from it
//! for a stated reason.
//!
//! Held funds still belong to the account but cannot be spent until they are
//! released. Every operation is atomic and reports the amount it moved.

use vstd::prelude::*;
use std::collections::BTreeMap;
use crate::primitives::{AccountId, Balance, LedgerError};

verus! {

/// Why funds are held.
#[derive(Clone, Copy, Debug, PartialEq, Eq)]
pub enum HoldReason {
    /// The bond of a council member.
    CouncilMembership,
    /// The bond a servicer places when binding an attestation device.
    Binding,
}

/// Whether an operation may move less than the requested amount.
#[derive(Clone, Copy, Debug, PartialEq, Eq)]
pub enum Precision {
    /// Move the requested amount or fail.
    Exact,
    /// Move as much of the requested amount as there is.
    BestEffort,
}

/// The balances of one account.
#[derive(Clone, Copy, Debug, PartialEq, Eq)]
pub struct AccountData {
    /// Funds the account can spend.
    pub free: Balance,
    /// Funds held as a council membership bond.
    pub held_for_membership: Balance,
    /// Funds held as device binding bonds.
    pub held_for_binding: Balance,
}

impl AccountData {
    /// An account that owns nothing.
    pub open spec fn zero() -> AccountData {
        AccountData { free: 0, held_for_membership: 0, held_for_binding: 0 }
    }

    /// The amount held for `reason`.
    pub open spec fn on_hold(self, reason: HoldReason) -> Balance {
        match reason {
            HoldReason::CouncilMembership => self.held_for_membership,
            HoldReason::Binding => self.held_for_binding,
        }
    }

    /// Everything the account owns, free and held.
    pub open spec fn total(self) -> nat {
        (self.free + self.held_for_membership + self.held_for_binding) as nat
    }

    /// This account with another free balance.
    pub open spec fn with_free(self, free: Balance) -> AccountData {
        AccountData { free, ..self }
    }

    /// This account with another amount held for `reason`.
    pub open spec fn with_hold(self, reason: HoldReason, amount: Balance) -> AccountData {
        match reason {
            HoldReason::CouncilMembership => AccountData { held_for_membership: amount, ..self },
            HoldReason::Binding => AccountData { held_for_binding: amount, ..self },
        }
    }
}

/// The mathematical model of a ledger: the balances of every account.
/// Accounts never seen own nothing.
pub type Book = Map<AccountId, AccountData>;

/// The book in which nobody owns anything.
pub open spec fn empty_book() -> Book {
    Map::new(|who: AccountId| true, |who: AccountId| AccountData::zero())
}

/// Every account of the book exists and owns no more than a `Balance` can
/// count.
pub open spec fn book_is_sound(book: Book) -> bool {
    forall|who: AccountId| #[trigger]
        book.contains_key(who) && book[who].total() <= Balance::MAX
}

/// `book` after `amount` left the free balance of `who`.
pub open spec fn debited(book: Book, who: AccountId, amount: Balance) -> Book {
    book.insert(who, book[who].with_free((book[who].free - amount) as Balance))
}

/// `book` after `amount` was added to the free balance of `who`.
pub open spec fn credited(book: Book, who: AccountId, amount: Balance) -> Book {
    book.insert(who, book[who].with_free((book[who].free + amount) as Balance))
}

/// Whether `who` can receive `amount` without owning more than a `Balance`
/// can count.
pub open spec fn can_receive(book: Book, who: AccountId, amount: Balance) -> bool {
    book[who].total() + amount <= Balance::MAX
}

/// `book` after a deposit of `amount` to `who`: credited if the account can
/// receive it, untouched otherwise.
pub open spec fn deposited(book: Book, who: AccountId, amount: Balance) -> Book {
    if can_receive(book, who, amount) {
        credited(book, who, amount)
    } else {
        book
    }
}

/// `book` after `amount` moved from the free balance of `who` to its hold
/// for `reason`.
pub open spec fn held(book: Book, reason: HoldReason, who: AccountId, amount: Balance) -> Book {
    book.insert(
        who,
        book[who].with_free((book[who].free - amount) as Balance).with_hold(
            reason,
            (book[who].on_hold(reason) + amount) as Balance,
        ),
    )
}

/// `book` after `amount` moved from the hold of `who` for `reason` back to
/// its free balance.
pub open spec fn released(book: Book, reason: HoldReason, who: AccountId, amount: Balance) -> Book {
    book.insert(
        who,
        book[who].with_free((book[who].free + amount) as Balance).with_hold(
            reason,
            (book[who].on_hold(reason) - amount) as Balance,
        ),
    )
}

/// The smaller of two balances.
pub open spec fn least(a: Balance, b: Balance) -> Balance {
    if a <= b {
        a
    } else {
        b
    }
}

/// The accounts of the chain.
pub struct Ledger {
    accounts: BTreeMap<AccountId, AccountData>,
}

impl View for Ledger {
    type V = Book;

    closed spec fn view(&self) -> Book {
        Map::new(
            |who: AccountId| true,
            |who: AccountId|
                if self.accounts@.contains_key(who) {
                    self.accounts@[who]
                } else {
                    AccountData::zero()
                },
        )
    }
}

impl Ledger {
    /// The ledger's invariant: its book is sound.
    pub open spec fn wf(&self) -> bool {
        book_is_sound(self@)
    }

    /// A ledger in which nobody owns anything.
    pub fn new() -> (ledger: Ledger)
        ensures
            ledger.wf(),
            ledger@ == empty_book(),
    {
        let ledger = Ledger { accounts: BTreeMap::new() };
        assert(ledger@ =~= empty_book());
        ledger
    }

    /// The balances of `who`.
    pub fn account(&self, who: AccountId) -> (data: AccountData)
        ensures
            data == self@[who],
            self.wf() ==> data.total() <= Balance::MAX,
    {
        assert(self@.contains_key(who));
        match self.accounts.get(&who) {
            Some(data) => *data,
            None => AccountData { free: 0, held_for_membership: 0, held_for_binding: 0 },
        }
    }

    /// The free balance of `who`.
    pub fn balance(&self, who: AccountId) -> (free: Balance)
        ensures
            free == self@[who].free,
    {
        self.account(who).free
    }

    /// The amount held from `who` for `reason`.
    pub fn balance_on_hold(&self, reason: HoldReason, who: AccountId) -> (amount: Balance)
        ensures
            amount == self@[who].on_hold(reason),
    {
        let data = self.account(who);
        match reason {
            HoldReason::CouncilMembership => data.held_for_membership,
            HoldReason::Binding => data.held_for_binding,
        }
    }

    fn put(&mut self, who: AccountId, data: AccountData)
        requires
            old(self).wf(),
            data.total() <= Balance::MAX,
        ensures
            final(self).wf(),
            final(self)@ == old(self)@.insert(who, data),
    {
        self.accounts.insert(who, data);
        assert(self@ =~= old(self)@.insert(who, data));
    }

    /// Takes `amount` out of the free balance of `who`. Fails, changing
    /// nothing, when the free balance is smaller than `amount`.
    pub fn withdraw(&mut self, who: AccountId, amount: Balance) -> (res: Result<
        Balance,
        LedgerError,
    >)
        requires
            old(self).wf(),
        ensures
            final(self).wf(),
            old(self)@[who].free >= amount ==> res == Ok::<Balance, LedgerError>(amount)
                && final(self)@ == debited(old(self)@, who, amount),
            old(self)@[who].free < amount ==> res == Err::<Balance, LedgerError>(
                LedgerError::FundsUnavailable,
            ) && final(self)@ == old(self)@,
    {
        let data = self.account(who);
        if data.free < amount {
            return Err(LedgerError::FundsUnavailable);
        }
        self.put(who, AccountData { free: data.free - amount, ..data });
        Ok(amount)
    }

    /// Adds `amount` to the free balance of `who` and returns the amount
    /// added: `amount`, or zero when the account cannot receive that much,
    /// in which case nothing changes.
    pub fn deposit_creating(&mut self, who: AccountId, amount: Balance) -> (moved: Balance)
        requires
            old(self).wf(),
        ensures
            final(self).wf(),
            final(self)@ == deposited(old(self)@, who, amount),
            moved == (if can_receive(old(self)@, who, amount) {
                amount
            } else {
                0
            }),
    {
        let data = self.account(who);
        let room: Balance = Balance::MAX - data.free - data.held_for_membership
            - data.held_for_binding;
        if amount > room {
            return 0;
        }
        self.put(who, AccountData { free: data.free + amount, ..data });
        amount
    }

    /// Creates `amount` of new funds in the free balance of `who`. Fails,
    /// changing nothing, when the account cannot receive that much.
    pub fn mint_into(&mut self, who: AccountId, amount: Balance) -> (res: Result<
        Balance,
        LedgerError,
    >)
        requires
            old(self).wf(),
        ensures
            final(self).wf(),
            can_receive(old(self)@, who, amount) ==> res == Ok::<Balance, LedgerError>(amount)
                && final(self)@ == credited(old(self)@, who, amount),
            !can_receive(old(self)@, who, amount) ==> res == Err::<Balance, LedgerError>(
                LedgerError::Overflow,
            ) && final(self)@ == old(self)@,
    {
        let data = self.account(who);
        let room: Balance = Balance::MAX - data.free - data.held_for_membership
            - data.held_for_binding;
        if amount > room {
            return Err(LedgerError::Overflow);
        }
        self.put(who, AccountData { free: data.free + amount, ..data });
        Ok(amount)
    }

    /// Destroys funds of the free balance of `who` and returns the amount
    /// destroyed. With [`Precision::BestEffort`] that is `amount` or the
    /// whole free balance, whichever is smaller, and the call never fails;
    /// with [`Precision::Exact`] the call fails, changing nothing, when the
    /// free balance is smaller than `amount`.
    pub fn burn_from(&mut self, who: AccountId, amount: Balance, precision: Precision) -> (res:
        Result<Balance, LedgerError>)
        requires
            old(self).wf(),
        ensures
            final(self).wf(),
            precision is Exact && old(self)@[who].free < amount ==> res == Err::<
                Balance,
                LedgerError,
            >(LedgerError::FundsUnavailable) && final(self)@ == old(self)@,
            precision is BestEffort || old(self)@[who].free >= amount ==> res == Ok::<
                Balance,
                LedgerError,
            >(least(amount, old(self)@[who].free)) && final(self)@ == debited(
                old(self)@,
                who,
                least(amount, old(self)@[who].free),
            ),
    {
        let data = self.account(who);
        let actual: Balance = if amount <= data.free {
            amount
        } else {
            match precision {
                Precision::Exact => {
                    return Err(LedgerError::FundsUnavailable);
                },
                Precision::BestEffort => data.free,
            }
        };
        self.put(who, AccountData { free: data.free - actual, ..data });
        Ok(actual)
    }

    /// Moves `amount` from the free balance of `who` into its hold for
    /// `reason`. Fails, changing nothing, when the free balance is smaller
    /// than `amount`.
    pub fn hold(&mut self, reason: HoldReason, who: AccountId, amount: Balance) -> (res: Result<
        (),
        LedgerError,
    >)
        requires
            old(self).wf(),
        ensures
            final(self).wf(),
            old(self)@[who].free >= amount ==> res == Ok::<(), LedgerError>(()) && final(self)@
                == held(old(self)@, reason, who, amount),
            old(self)@[who].free < amount ==> res == Err::<(), LedgerError>(
                LedgerError::FundsUnavailable,
            ) && final(self)@ == old(self)@,
    {
        let data = self.account(who);
        if data.free < amount {
            return Err(LedgerError::FundsUnavailable);
        }
        let updated = match reason {
            HoldReason::CouncilMembership => AccountData {
                free: data.free - amount,
                held_for_membership: data.held_for_membership + amount,
                ..data
            },
            HoldReason::Binding => AccountData {
                free: data.free - amount,
                held_for_binding: data.held_for_binding + amount,
                ..data
            },
        };
        self.put(who, updated);
        Ok(())
    }

    /// Moves funds from the hold of `who` for `reason` back to its free
    /// balance and returns the amount moved. With [`Precision::BestEffort`]
    /// that is `amount` or the whole hold, whichever is smaller, and the
    /// call never fails; with [`Precision::Exact`] the call fails, changing
    /// nothing, when the hold is smaller than `amount`.
    pub fn release(
        &mut self,
        reason: HoldReason,
        who: AccountId,
        amount: Balance,
        precision: Precision,
    ) -> (res: Result<Balance, LedgerError>)
        requires
            old(self).wf(),
        ensures
            final(self).wf(),
            precision is Exact && old(self)@[who].on_hold(reason) < amount ==> res == Err::<
                Balance,
                LedgerError,
            >(LedgerError::FundsUnavailable) && final(self)@ == old(self)@,
            precision is BestEffort || old(self)@[who].on_hold(reason) >= amount ==> res == Ok::<
                Balance,
                LedgerError,
            >(least(amount, old(self)@[who].on_hold(reason))) && final(self)@ == released(
                old(self)@,
                reason,
                who,
                least(amount, old(self)@[who].on_hold(reason)),
            ),
    {
        let data = self.account(who);
        let on_hold: Balance = match reason {
            HoldReason::CouncilMembership => data.held_for_membership,
            HoldReason::Binding => data.held_for_binding,
        };
        let actual: Balance = if amount <= on_hold {
            amount
        } else {
            match precision {
                Precision::Exact => {
                    return Err(LedgerError::FundsUnavailable);
                },
                Precision::BestEffort => on_hold,
            }
        };
        let updated = match reason {
            HoldReason::CouncilMembership => AccountData {
                free: data.free + actual,
                held_for_membership: data.held_for_membership - actual,
                ..data
            },
            HoldReason::Binding => AccountData {
                free: data.free + actual,
                held_for_binding: data.held_for_binding - actual,
                ..data
            },
        };
        self.put(who, updated);
        Ok(actual)
    }
}

/// Holding an amount and then releasing the same amount restores the book:
/// the free balance is exactly what it was before the hold.
pub proof fn lemma_hold_then_release_restores(
    book: Book,
    reason: HoldReason,
    who: AccountId,
    amount: Balance,
)
    requires
        book_is_sound(book),
        book[who].free >= amount,
    ensures
        least(amount, held(book, reason, who, amount)[who].on_hold(reason)) == amount,
        released(held(book, reason, who, amount), reason, who, amount) == book,
{
    let after = released(held(book, reason, who, amount), reason, who, amount);
    assert(book.contains_key(who));
    assert(after =~= book);
}

/// A best-effort release never gives back more than was asked for, nor more
/// than is held, and raises the free balance by exactly what it gives back.
pub proof fn lemma_release_is_bounded(
    book: Book,
    reason: HoldReason,
    who: AccountId,
    amount: Balance,
)
    requires
        book_is_sound(book),
    ensures
        ({
            let actual = least(amount, book[who].on_hold(reason));
            &&& actual <= amount
            &&& actual <= book[who].on_hold(reason)
            &&& released(book, reason, who, actual)[who].free == book[who].free + actual
            &&& released(book, reason, who, actual)[who].total() == book[who].total()
        }),
{
    assert(book.contains_key(who));
}

} // verus!
