//! The debugger's bookkeeping: breakpoints, the running flag and the
//! single-step mode. The command loop that drives it lives with the
//! host program.

use vstd::prelude::*;
use crate::system::cpu::CPU;

verus! {

/// Breakpoints and stepping state.
pub struct Debugger {
    breakpoints: Vec<u32>,
    pub running: bool,
    step_mode: bool,
}

impl Debugger {
    /// The breakpoint addresses, in the order they were added.
    pub closed spec fn breakpoints(&self) -> Seq<u32> {
        self.breakpoints@
    }

    /// Whether the debugger stops after every instruction.
    pub closed spec fn in_step_mode(&self) -> bool {
        self.step_mode
    }

    /// Whether execution is running freely.
    pub closed spec fn is_running(&self) -> bool {
        self.running
    }

    /// A paused debugger with no breakpoints.
    pub fn new() -> (r: Debugger)
        ensures
            r.breakpoints() == Seq::<u32>::empty(),
            !r.is_running(),
            !r.in_step_mode(),
    {
        Debugger { breakpoints: Vec::new(), running: false, step_mode: false }
    }

    /// Add a breakpoint at an address.
    pub fn add_breakpoint(&mut self, address: u32)
        ensures
            final(self).breakpoints() == old(self).breakpoints().push(address),
            final(self).is_running() == old(self).is_running(),
            final(self).in_step_mode() == old(self).in_step_mode(),
    {
        self.breakpoints.push(address);
    }

    /// Turn single-step mode on or off.
    pub fn set_step_mode(&mut self, v: bool)
        ensures
            final(self).breakpoints() == old(self).breakpoints(),
            final(self).is_running() == old(self).is_running(),
            final(self).in_step_mode() == v,
    {
        self.step_mode = v;
    }

    /// Whether execution should pause before the next instruction: in
    /// single-step mode, or when the program counter sits on a
    /// breakpoint.
    pub fn should_break(&self, cpu: &CPU) -> (r: bool)
        requires
            cpu.wf(),
        ensures
            r == (self.in_step_mode() || self.breakpoints().contains(
                cpu@.get_r(15, cpu@.mode()),
            )),
    {
        if self.step_mode {
            return true;
        }
        let pc = cpu.get_r(15);
        let mut k: usize = 0;
        while k < self.breakpoints.len()
            invariant
                k <= self.breakpoints@.len(),
                pc == cpu@.get_r(15, cpu@.mode()),
                forall|i: int| 0 <= i < k ==> self.breakpoints@[i] != pc,
            decreases self.breakpoints@.len() - k,
        {
            if self.breakpoints[k] == pc {
                return true;
            }
            k = k + 1;
        }
        false
    }
}

} // verus!
