//! The shutdown coordinator: one flag that an interrupt sets and that every
//! loop looks at. Those who share it between threads keep it behind a lock.

use vstd::prelude::*;

verus! {

/// The shutdown flag. It starts clear, a signal sets it, and nothing clears
/// it again.
pub struct ShutdownFlag {
    signaled: bool,
}

impl ShutdownFlag {
    /// Whether the flag is set.
    pub closed spec fn raised(&self) -> bool {
        self.signaled
    }

    /// A flag that is clear.
    pub fn new() -> (flag: ShutdownFlag)
        ensures
            !flag.raised(),
    {
        ShutdownFlag { signaled: false }
    }

    /// Sets the flag. On a flag that is set already this changes nothing.
    pub fn signal(&mut self)
        ensures
            *final(self) == signaled_once(*old(self)),
            final(self).raised(),
            old(self).raised() ==> *final(self) == *old(self),
    {
        self.signaled = true;
    }

    /// Whether the flag is set. The answer is true only after a signal.
    pub fn is_signaled(&self) -> (signaled: bool)
        ensures
            signaled == self.raised(),
    {
        self.signaled
    }
}

/// The flag after `signals` signals.
pub open spec fn after_signals(flag: ShutdownFlag, signals: nat) -> ShutdownFlag
    decreases signals,
{
    if signals == 0 {
        flag
    } else {
        signaled_once(after_signals(flag, (signals - 1) as nat))
    }
}

/// The flag after one signal.
pub closed spec fn signaled_once(flag: ShutdownFlag) -> ShutdownFlag {
    ShutdownFlag { signaled: true }
}

/// What `signal` does to a flag is `signaled_once`: the flag is set, and a
/// flag that was set stays as it was.
pub proof fn lemma_signal_sets_the_flag(flag: ShutdownFlag)
    ensures
        signaled_once(flag).raised(),
        flag.raised() ==> signaled_once(flag) == flag,
{
}

/// A flag is set after any number of signals if and only if it was set
/// before or there was at least one signal: no signal, no shutdown, and
/// once set the flag never goes back.
pub proof fn lemma_flag_never_reverts(flag: ShutdownFlag, signals: nat)
    ensures
        after_signals(flag, signals).raised() <==> flag.raised() || signals > 0,
    decreases signals,
{
    if signals > 0 {
        lemma_flag_never_reverts(flag, (signals - 1) as nat);
    }
}

} // verus!
