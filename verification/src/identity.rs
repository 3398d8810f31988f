//! What the identity registry reports about an account, and the rule that
//! decides whether an account is legally verified.

use vstd::prelude::*;
use crate::primitives::Balance;

verus! {

/// The bit of [`Registration::fields`] that stands for the legal name.
pub const IDENTITY_FIELD_LEGAL: u64 = 2;

/// A registrar's opinion of an identity.
#[derive(Clone, Copy, Debug, PartialEq, Eq)]
pub enum Judgement {
    Unknown,
    FeePaid(Balance),
    Reasonable,
    KnownGood,
    OutOfDate,
    LowQuality,
    Erroneous,
}

impl Judgement {
    /// Whether the judgement vouches for the identity.
    pub open spec fn is_favourable(self) -> bool {
        self is Reasonable || self is KnownGood
    }

    /// Whether the judgement vouches for the identity.
    pub fn favourable(&self) -> (res: bool)
        ensures
            res == self.is_favourable(),
    {
        match self {
            Judgement::Reasonable => true,
            Judgement::KnownGood => true,
            _ => false,
        }
    }
}

/// The identity that an account has registered.
#[derive(Clone, Debug, PartialEq, Eq)]
pub struct Registration {
    /// The identity fields that the account has filled in, one bit each.
    pub fields: u64,
    /// The judgements given so far, each with the index of its registrar.
    pub judgements: Vec<(u32, Judgement)>,
}

impl Registration {
    /// Whether every field of `fields` is filled in.
    pub open spec fn covers(self, fields: u64) -> bool {
        self.fields & fields == fields
    }

    /// Whether there is at least one judgement and all of them are
    /// favourable.
    pub open spec fn is_judged_well(self) -> bool {
        &&& self.judgements@.len() > 0
        &&& forall|i: int|
            0 <= i < self.judgements@.len() ==> (#[trigger] self.judgements@[i]).1.is_favourable()
    }

    /// Whether every field of `fields` is filled in.
    pub fn has_identity(&self, fields: u64) -> (res: bool)
        ensures
            res == self.covers(fields),
    {
        self.fields & fields == fields
    }

    /// Whether there is at least one judgement and all of them are
    /// favourable.
    pub fn judged_well(&self) -> (res: bool)
        ensures
            res == self.is_judged_well(),
    {
        if self.judgements.len() == 0 {
            return false;
        }
        let mut i: usize = 0;
        while i < self.judgements.len()
            invariant
                i <= self.judgements@.len(),
                forall|j: int| 0 <= j < i ==> (#[trigger] self.judgements@[j]).1.is_favourable(),
            decreases self.judgements@.len() - i,
        {
            if !self.judgements[i].1.favourable() {
                return false;
            }
            i += 1;
        }
        true
    }
}

} // verus!
