//! The attempt counting of an exponential backoff. The delays themselves are
//! computed in floating point by the program; how many are handed out, and
//! when they run out, is decided here.
use vstd::prelude::*;

verus! {

/// How many attempts of a backoff were taken, out of how many allowed.
#[derive(Debug)]
pub struct Attempts {
    attempts: u32,
    max_attempts: u32,
}

impl Attempts {
    /// The number of attempts taken.
    pub closed spec fn taken(&self) -> u32 {
        self.attempts
    }

    /// The number of attempts allowed.
    pub closed spec fn limit(&self) -> u32 {
        self.max_attempts
    }

    #[verifier::type_invariant]
    spec fn within_limit(&self) -> bool {
        self.attempts <= self.max_attempts
    }

    /// No attempt taken yet, of `max_attempts`.
    pub fn new(max_attempts: u32) -> (r: Attempts)
        ensures
            r.taken() == 0,
            r.limit() == max_attempts,
    {
        Attempts { attempts: 0, max_attempts }
    }

    /// Takes an attempt if one is left: `true` and one more taken, else
    /// `false` and nothing changes.
    pub fn take(&mut self) -> (r: bool)
        ensures
            r == (old(self).taken() < old(self).limit()),
            final(self).limit() == old(self).limit(),
            final(self).taken() == if r {
                old(self).taken() + 1
            } else {
                old(self).taken() as int
            },
    {
        proof {
            use_type_invariant(&*self);
        }
        if self.attempts >= self.max_attempts {
            return false;
        }
        self.attempts = self.attempts + 1;
        true
    }

    /// Back to no attempt taken, with the same limit.
    pub fn reset(&mut self)
        ensures
            final(self).taken() == 0,
            final(self).limit() == old(self).limit(),
    {
        self.attempts = 0;
    }

    /// Number of attempts consumed so far, never more than allowed.
    pub fn attempts(&self) -> (r: u32)
        ensures
            r == self.taken(),
            r <= self.limit(),
    {
        proof {
            use_type_invariant(self);
        }
        self.attempts
    }

    /// Number of attempts allowed.
    pub fn max_attempts(&self) -> (r: u32)
        ensures
            r == self.limit(),
    {
        self.max_attempts
    }
}

} // verus!
