use vstd::prelude::*;

verus! {

/// Smallest magnitude a guess may hold.
pub const GUESS_MIN: i32 = 1;

/// Largest magnitude a guess may hold.
pub const GUESS_MAX: i32 = 100;

/// Whether `n` lies in the inclusive range that every guess respects.
pub open spec fn in_guess_range(n: int) -> bool {
    GUESS_MIN <= n <= GUESS_MAX
}

/// A number between 1 and 100. The field is private, so `Guess::new` is the
/// only way to obtain one, and the range holds for every value that exists.
pub struct Guess {
    value: i32,
}

impl View for Guess {
    type V = int;

    closed spec fn view(&self) -> int {
        self.value as int
    }
}

impl Guess {
    #[verifier::type_invariant]
    spec fn well_formed(&self) -> bool {
        in_guess_range(self.value as int)
    }

    /// Builds a guess holding exactly `value`. A value outside the range is a
    /// caller error, so it is excluded by the precondition.
    pub fn new(value: i32) -> (r: Guess)
        requires
            in_guess_range(value as int),
        ensures
            r@ == value as int,
    {
        Guess { value }
    }

    /// The stored magnitude; reading it changes nothing.
    pub fn value(&self) -> (r: i32)
        ensures
            r as int == self@,
            in_guess_range(r as int),
    {
        proof {
            use_type_invariant(self);
        }
        self.value
    }
}

} // verus!
