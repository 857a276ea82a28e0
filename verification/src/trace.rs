//! Runs of the loop, and what holds of every state a run can reach.

use vstd::prelude::*;
use crate::firmware::{Firmware, Phase, LINK_SENTINEL, STARTUP_SENTINEL};

verus! {

/// Number of values a 32-bit cell can hold.
pub open spec fn modulus() -> int {
    0x1_0000_0000
}

/// How many single steps lead from `from` to `to` in a counter that wraps:
/// the least `d >= 0` with `to == from + d` modulo 2^32.
pub open spec fn modular_distance(from: u32, to: u32) -> int {
    (to - from) % modulus()
}

impl Firmware {
    /// The state after `n` passes of the loop body over `self`.
    pub open spec fn after_iterations(self, n: nat) -> Firmware
        decreases n,
    {
        if n == 0 {
            self
        } else {
            self.after_iterations((n - 1) as nat).iterated()
        }
    }

    /// The states the program passes through when nothing writes the cells
    /// from outside: the loaded image, and what startup followed by any
    /// number of passes makes of it.
    pub open spec fn reachable(self) -> bool {
        self == Firmware::power_on() || exists|n: nat|
            self == #[trigger] Firmware::power_on().started().after_iterations(n)
    }

    /// What a debugger expects to read: before startup the first sentinel
    /// and a counter of zero, in the loop the second sentinel.
    pub open spec fn consistent(self) -> bool {
        match self.phase {
            Phase::Initializing => self.test_value == LINK_SENTINEL && self.counter == 0,
            Phase::Running => self.test_value == STARTUP_SENTINEL,
        }
    }

    /// Runs the loop body `iterations` times, as the program does between
    /// two halts, leaving out the delays.
    pub fn run(&mut self, iterations: u32)
        requires
            old(self).phase == Phase::Running,
        ensures
            *final(self) == old(self).after_iterations(iterations as nat),
    {
        let mut done: u32 = 0;
        while done < iterations
            invariant
                done <= iterations,
                self.phase == Phase::Running,
                *self == old(self).after_iterations(done as nat),
            decreases iterations - done,
        {
            let _nops: u32 = self.iterate();
            done = done + 1;
        }
    }
}

/// A run of `n` passes moves the counter `n` steps forward modulo 2^32 and
/// touches nothing else.
pub proof fn lemma_after_iterations(s: Firmware, n: nat)
    ensures
        s.after_iterations(n).counter == (s.counter + n) % modulus(),
        s.after_iterations(n).test_value == s.test_value,
        s.after_iterations(n).phase == s.phase,
    decreases n,
{
    if n > 0 {
        lemma_after_iterations(s, (n - 1) as nat);
    }
}

/// Once startup has run, the test value reads as the second sentinel after
/// any number of passes, whatever the cells held before startup.
pub proof fn lemma_test_value_settled(s: Firmware, n: nat)
    ensures
        s.started().after_iterations(n).test_value == STARTUP_SENTINEL,
        s.started().after_iterations(n).phase == Phase::Running,
{
    lemma_after_iterations(s.started(), n);
}

/// Every state the program reaches on its own is consistent: the test value
/// is the first sentinel (and the counter zero) until startup has run, and
/// the second sentinel ever after.
pub proof fn lemma_reachable_consistent(s: Firmware)
    requires
        s.reachable(),
    ensures
        s.consistent(),
{
    if s != Firmware::power_on() {
        let n = choose|n: nat| s == #[trigger] Firmware::power_on().started().after_iterations(n);
        lemma_test_value_settled(Firmware::power_on(), n);
    }
}

/// Between two instants that are `n` passes apart the counter has moved by
/// exactly `n` modulo 2^32. It therefore reads differently unless `n` is a
/// multiple of 2^32, and reads greater as long as the run does not pass
/// `u32::MAX`.
pub proof fn lemma_counter_advances(s: Firmware, n: nat)
    requires
        n % (modulus() as nat) != 0,
    ensures
        modular_distance(s.counter, s.after_iterations(n).counter) == n % (modulus() as nat),
        modular_distance(s.counter, s.after_iterations(n).counter) > 0,
        s.after_iterations(n).counter != s.counter,
        s.counter + n <= u32::MAX ==> s.after_iterations(n).counter == s.counter + n,
        s.counter + n <= u32::MAX ==> s.after_iterations(n).counter > s.counter,
{
    lemma_after_iterations(s, n);
    let c: int = s.counter as int;
    let a: int = s.after_iterations(n).counter as int;
    let m: int = n as int;
    assert(a == (c + m) % 0x1_0000_0000);
    assert((a - c) % 0x1_0000_0000 == m % 0x1_0000_0000);
}

/// A pass over a counter at its largest value leaves it at zero.
pub proof fn lemma_counter_wraps(s: Firmware)
    requires
        s.counter == u32::MAX,
    ensures
        s.iterated().counter == 0,
        s.after_iterations(1).counter == 0,
{
    reveal_with_fuel(Firmware::after_iterations, 2);
}

} // verus!
