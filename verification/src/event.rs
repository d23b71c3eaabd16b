//! The binary signal the pacer's threads wake each other with. The blocking
//! itself is the platform's affair; what is decided here is the signal's
//! state: setting is idempotent and safe with no waiter, a wait consumes the
//! one pending signal (auto-reset), and a wait on several signals picks
//! exactly one that is set.

use vstd::prelude::*;

verus! {

/// The state of one binary auto-reset signal.
#[derive(Debug, Clone, Copy, PartialEq, Eq, Structural)]
pub struct EventState {
    pub signaled: bool,
}

impl EventState {
    /// A fresh signal is unsignaled.
    pub fn new() -> (r: Self)
        ensures
            !r.signaled,
    {
        EventState { signaled: false }
    }

    /// Sets the signal. Idempotent, and safe to call with no waiter: the one
    /// pending signal stays pending until a wait consumes it.
    pub fn set(&mut self)
        ensures
            final(self).signaled,
    {
        self.signaled = true;
    }

    /// What a woken waiter does: consume the pending signal, resetting it
    /// for reuse, and report whether one was pending. A blocking wait calls
    /// this after each wake-up and sleeps again when nothing was pending.
    pub fn try_consume(&mut self) -> (r: bool)
        ensures
            r == old(self).signaled,
            !final(self).signaled,
    {
        let r = self.signaled;
        self.signaled = false;
        r
    }
}

/// The signal a wait over several events reports: the first one that is
/// set, scanning from `from`.
pub open spec fn first_signaled(s: Seq<bool>, from: int) -> Option<usize>
    decreases s.len() - from,
{
    if from < 0 || from >= s.len() {
        None
    } else if s[from] {
        Some(from as usize)
    } else {
        first_signaled(s, from + 1)
    }
}

/// Which of several signals a wait on all of them reports: the first one
/// that is set, and nothing when none is — the waiter then sleeps. The
/// others are left untouched; only the reported one is consumed, by its own
/// wait.
pub fn wait_any_choice(signaled: &Vec<bool>) -> (r: Option<usize>)
    ensures
        r == first_signaled(signaled@, 0),
{
    let mut j: usize = 0;
    while j < signaled.len()
        invariant
            0 <= j <= signaled@.len(),
            first_signaled(signaled@, 0) == first_signaled(signaled@, j as int),
        decreases signaled@.len() - j,
    {
        if signaled[j] {
            return Some(j);
        }
        j = j + 1;
    }
    None
}

} // verus!
