use vstd::prelude::*;

verus! {

/// The per-owner flag that keeps a reallocation from starting while another
/// one for the same owner is still running.
#[derive(Clone, Copy, Debug, PartialEq, Eq)]
pub struct ReentrancyGuard {
    in_function: bool,
}

impl ReentrancyGuard {
    /// Whether a reallocation holds the guard.
    pub closed spec fn in_progress(&self) -> bool {
        self.in_function
    }

    /// A guard at rest.
    pub fn new() -> (r: ReentrancyGuard)
        ensures
            !r.in_progress(),
    {
        ReentrancyGuard { in_function: false }
    }

    /// Whether a reallocation holds the guard.
    pub fn is_in_progress(&self) -> (r: bool)
        ensures
            r == self.in_progress(),
    {
        self.in_function
    }

    /// Takes the guard; fails, changing nothing, when it is already taken.
    pub fn start(&mut self) -> (r: Result<(), crate::error::YieldOptimizerError>)
        ensures
            old(self).in_progress() ==> r == Err::<(), _>(
                crate::error::YieldOptimizerError::ReentrancyAttempt,
            ) && *final(self) == *old(self),
            !old(self).in_progress() ==> r is Ok && final(self).in_progress(),
    {
        if self.in_function {
            return Err(crate::error::YieldOptimizerError::ReentrancyAttempt);
        }
        self.in_function = true;
        Ok(())
    }

    /// Releases the guard, whatever its state.
    pub fn end(&mut self)
        ensures
            !final(self).in_progress(),
    {
        self.in_function = false;
    }
}

} // verus!
