//! The two watched cells and the transitions that write them.

use vstd::prelude::*;

verus! {

/// Pattern the test value cell holds in the loaded image, until startup runs.
pub const LINK_SENTINEL: u32 = 0xDEAD_BEEF;

/// Pattern that startup writes into the test value cell.
pub const STARTUP_SENTINEL: u32 = 0x1234_5678;

/// Number of no-op instructions that follow each increment of the counter.
pub const DELAY_NOPS: u32 = 1000;

/// Address that the fault path reads. It lies outside every mapped region,
/// so the read raises a hardware fault.
pub const FAULT_ADDRESS: u32 = 0xFFFF_FFFF;

/// Where the program stands in its life.
#[derive(Clone, Copy, Debug, PartialEq, Eq, Structural)]
pub enum Phase {
    /// Entered at reset; left once, when startup has written the test value.
    Initializing,
    /// The endless loop. Nothing leaves it but a halt from outside.
    Running,
}

/// The state that an attached debugger can see at an instant when the
/// processor is halted.
///
/// The fields are public on purpose: both cells are plain memory to the
/// debugger, which may overwrite either while the program is halted. The
/// program itself writes them only through the transitions below.
#[derive(Clone, Copy, Debug, PartialEq, Eq, Structural)]
pub struct Firmware {
    /// The counter cell.
    pub counter: u32,
    /// The test value cell.
    pub test_value: u32,
    /// The phase of the program.
    pub phase: Phase,
}

/// The value that follows `c` in a 32-bit counter: one more, and zero after
/// the largest value.
pub open spec fn successor(c: u32) -> u32 {
    if c == u32::MAX {
        0
    } else {
        (c + 1) as u32
    }
}

impl Firmware {
    /// The state of the freshly loaded image.
    pub open spec fn power_on() -> Firmware {
        Firmware { counter: 0, test_value: LINK_SENTINEL, phase: Phase::Initializing }
    }

    /// The state after startup has run on `self`.
    pub open spec fn started(self) -> Firmware {
        Firmware { counter: self.counter, test_value: STARTUP_SENTINEL, phase: Phase::Running }
    }

    /// The state after one pass of the loop body over `self`.
    pub open spec fn iterated(self) -> Firmware {
        Firmware {
            counter: successor(self.counter),
            test_value: self.test_value,
            phase: self.phase,
        }
    }

    /// The state at reset: counter zero, test value at its link-time
    /// sentinel, startup still to run.
    pub fn reset() -> (fw: Firmware)
        ensures
            fw == Firmware::power_on(),
    {
        Firmware { counter: 0, test_value: LINK_SENTINEL, phase: Phase::Initializing }
    }

    /// Startup: writes the second sentinel into the test value cell and
    /// enters the loop. The write is unconditional; the counter is left alone.
    pub fn startup(&mut self)
        ensures
            *final(self) == old(self).started(),
    {
        self.test_value = STARTUP_SENTINEL;
        self.phase = Phase::Running;
    }

    /// One pass of the loop body: advances the counter by one, wrapping to
    /// zero after `u32::MAX`, and returns the number of no-ops that the
    /// caller is to execute before the next pass.
    pub fn iterate(&mut self) -> (nops: u32)
        requires
            old(self).phase == Phase::Running,
        ensures
            *final(self) == old(self).iterated(),
            nops == DELAY_NOPS,
    {
        self.counter = self.counter.wrapping_add(1);
        DELAY_NOPS
    }
}

/// The inspection hook: the current value of the counter cell. It only
/// reads, so both cells are as they were.
pub fn test_function(fw: &Firmware) -> (value: u32)
    ensures
        value == fw.counter,
{
    fw.counter
}

} // verus!
