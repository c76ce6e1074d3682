use vstd::prelude::*;

use crate::policy::decision::PolicyError;

verus! {

/// Upper bound of every confidence value, in fixed-point units of 1/10_000.
pub const MAX_CONFIDENCE: u16 = 10_000;

/// A confidence value in `0..=MAX_CONFIDENCE`.
#[derive(Clone, Copy, Debug, PartialEq, Eq, PartialOrd, Ord, Structural)]
pub struct Confidence(u16);

impl Confidence {
    #[verifier::type_invariant]
    spec fn bounded(self) -> bool {
        self.0 <= MAX_CONFIDENCE
    }

    /// The numeric value of this confidence.
    pub closed spec fn spec_get(self) -> u16 {
        self.0
    }

    /// The zero confidence.
    #[allow(non_snake_case)]
    pub fn ZERO() -> (r: Self)
        ensures
            r.spec_get() == 0,
    {
        Confidence(0)
    }

    /// Accepts `value` when it does not exceed `MAX_CONFIDENCE`.
    pub fn new(value: u16) -> (r: Result<Self, PolicyError>)
        ensures
            value <= MAX_CONFIDENCE ==> (r matches Ok(c) && c.spec_get() == value),
            value > MAX_CONFIDENCE ==> r == Err::<Confidence, PolicyError>(
                PolicyError::ConfidenceOutOfRange,
            ),
    {
        if value > MAX_CONFIDENCE {
            return Err(PolicyError::ConfidenceOutOfRange);
        }
        Ok(Confidence(value))
    }

    #[verifier::when_used_as_spec(spec_get)]
    pub fn get(self) -> (r: u16)
        ensures
            r == self.spec_get(),
            r <= MAX_CONFIDENCE,
    {
        proof {
            use_type_invariant(&self);
        }
        self.0
    }
}

} // verus!
