//! The emulator's loop: the core runs in slices, and between them it is decided
//! whether to go on and when the screen is copied.

use crate::interrupt::Fault;
use crate::layout::{BOOTSTRAP_ADDR, MAX_INSN_LIMIT, NEVER_REACH_ADDR, SCREEN_SYNC_INSNS};
use vstd::prelude::*;

verus! {

/// Where the loop stands.
#[derive(Clone, Copy, Debug, PartialEq, Eq, Structural)]
pub struct RunLoop {
    /// Where the core goes on.
    pub current_pc: u64,
    /// The instruction count at the last copy of the screen.
    pub last_screen_sync: u64,
}

/// What follows a slice.
#[derive(Clone, Copy, Debug, PartialEq, Eq, Structural)]
pub enum AfterSlice {
    /// The program is over.
    Halt,
    /// Go on with the next slice.
    Go,
    /// Copy the screen, and go on.
    SyncScreen,
}

/// A slice ended at `pc`, with this instruction count: the loop after it, and what
/// follows.
pub open spec fn slice_ended(l: RunLoop, pc: u64, insn_count: u64) -> (
    RunLoop,
    Result<AfterSlice, Fault>,
) {
    let moved = RunLoop { current_pc: pc, ..l };
    if pc == NEVER_REACH_ADDR {
        (moved, Ok(AfterSlice::Halt))
    } else if l.last_screen_sync + SCREEN_SYNC_INSNS > u64::MAX {
        (moved, Err(Fault::Overflow))
    } else if insn_count > l.last_screen_sync + SCREEN_SYNC_INSNS {
        (RunLoop { last_screen_sync: insn_count, ..moved }, Ok(AfterSlice::SyncScreen))
    } else {
        (moved, Ok(AfterSlice::Go))
    }
}

impl RunLoop {
    /// The loop at the machine's start.
    pub fn new() -> (r: RunLoop)
        ensures
            r == (RunLoop { current_pc: BOOTSTRAP_ADDR, last_screen_sync: 0 }),
    {
        RunLoop { current_pc: BOOTSTRAP_ADDR, last_screen_sync: 0 }
    }

    /// Where the next slice starts; none once the instruction limit is passed.
    pub fn next_slice(&self, insn_count: u64) -> (r: Option<u64>)
        ensures
            r == if insn_count > MAX_INSN_LIMIT {
                None
            } else {
                Some(self.current_pc)
            },
    {
        if insn_count > MAX_INSN_LIMIT {
            None
        } else {
            Some(self.current_pc)
        }
    }

    /// A slice ended at `pc`, with this instruction count.
    pub fn after_slice(&mut self, pc: u64, insn_count: u64) -> (r: Result<AfterSlice, Fault>)
        ensures
            (*final(self), r) == slice_ended(*old(self), pc, insn_count),
    {
        self.current_pc = pc;
        if pc == NEVER_REACH_ADDR {
            return Ok(AfterSlice::Halt);
        }
        if self.last_screen_sync > u64::MAX - SCREEN_SYNC_INSNS {
            return Err(Fault::Overflow);
        }
        if insn_count > self.last_screen_sync + SCREEN_SYNC_INSNS {
            self.last_screen_sync = insn_count;
            Ok(AfterSlice::SyncScreen)
        } else {
            Ok(AfterSlice::Go)
        }
    }
}

} // verus!
