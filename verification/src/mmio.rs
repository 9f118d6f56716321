//! Device registers that are not modelled, and the board's lights.

use crate::interrupt::Fault;
use crate::layout::{GICC_BASE, GICD_BASE, GIC_RANGE, LED_BASE, UART0_BASE, UART_RANGE};
use crate::state::{EmuModel, EmuState};
use vstd::prelude::*;

verus! {

broadcast use vstd::std_specs::hash::group_hash_axioms;

/// Reads of one register up to which the written word is read back.
pub const STABLE_READS: u32 = 50;

/// Reads up to which every bit then reads as one; after them every bit reads as zero.
pub const ONES_READS: u32 = 100;

/// The serial port's registers.
pub open spec fn in_uart(address: u64) -> bool {
    UART0_BASE <= address < UART0_BASE + UART_RANGE
}

/// The distributor's registers.
pub open spec fn in_gicd(address: u64) -> bool {
    GICD_BASE <= address < GICD_BASE + GIC_RANGE
}

/// The registers of the interrupt controller's core interface.
pub open spec fn in_gicc(address: u64) -> bool {
    GICC_BASE <= address < GICC_BASE + GIC_RANGE
}

/// The address belongs to a device with a model of its own.
pub open spec fn is_modelled(address: u64) -> bool {
    in_uart(address) || in_gicd(address) || in_gicc(address)
}

/// What a register answers on the read with the number `count` since it was written:
/// a program that waits for a bit to change sees it set, and then clear.
pub open spec fn nth_answer(word: u32, count: int) -> u64 {
    if count > ONES_READS {
        0
    } else if count > STABLE_READS {
        0xFFFF_FFFF
    } else {
        word as u64
    }
}

impl EmuModel {
    /// The word that a register holds; zero where none was written.
    pub open spec fn mmio_word(self, address: u64) -> u32 {
        if self.mmio_state.contains_key(address) {
            self.mmio_state[address]
        } else {
            0
        }
    }

    /// How often a register was read since it was written.
    pub open spec fn mmio_count(self, address: u64) -> u32 {
        if self.mmio_reads.contains_key(address) {
            self.mmio_reads[address]
        } else {
            0
        }
    }

    /// A write to a register that is not modelled: its low word is kept, and the count
    /// of reads starts again. Other devices' registers are left to them.
    pub open spec fn mmio_written(self, address: u64, value: i64) -> EmuModel {
        if is_modelled(address) {
            self
        } else {
            EmuModel {
                mmio_state: self.mmio_state.insert(address, value as u32),
                mmio_reads: self.mmio_reads.insert(address, 0),
                ..self
            }
        }
    }

    /// A read of a register that is not modelled: the machine after it, and the value
    /// read; none where the register is another device's.
    pub open spec fn mmio_read(self, address: u64) -> (EmuModel, Result<Option<u64>, Fault>) {
        let count = self.mmio_count(address) + 1;
        if is_modelled(address) {
            (self, Ok(None))
        } else if count > u32::MAX {
            (self, Err(Fault::Overflow))
        } else {
            (
                EmuModel { mmio_reads: self.mmio_reads.insert(address, count as u32), ..self },
                Ok(Some(nth_answer(self.mmio_word(address), count))),
            )
        }
    }
}

/// Does the address belong to a device with a model of its own?
pub fn modelled(address: u64) -> (r: bool)
    ensures
        r == is_modelled(address),
{
    (address >= UART0_BASE && address < UART0_BASE + UART_RANGE) || (address >= GICD_BASE && address
        < GICD_BASE + GIC_RANGE) || (address >= GICC_BASE && address < GICC_BASE + GIC_RANGE)
}

/// A write near the lights' register. Gives the lights' new bits where it is theirs.
pub fn led_write(address: u64, value: i64) -> (r: Option<u32>)
    ensures
        r == if address == LED_BASE {
            Some(value as u32)
        } else {
            None
        },
{
    if address == LED_BASE {
        Some(
            #[verifier::truncate]
            (value as u32),
        )
    } else {
        None
    }
}

impl EmuState {
    /// A write to a register that is not modelled.
    pub fn mmio_write(&mut self, address: u64, value: i64)
        ensures
            final(self)@ == old(self)@.mmio_written(address, value),
    {
        if modelled(address) {
            return;
        }
        let word: u32 = #[verifier::truncate]
        (value as u32);
        self.mmio_state.insert(address, word);
        self.mmio_reads.insert(address, 0);
    }

    /// A read of a register that is not modelled. Gives the value read; none where the
    /// register is another device's.
    pub fn mmio_read(&mut self, address: u64) -> (r: Result<Option<u64>, Fault>)
        ensures
            (final(self)@, r) == old(self)@.mmio_read(address),
    {
        if modelled(address) {
            return Ok(None);
        }
        let word: u32 = match self.mmio_state.get(&address) {
            Some(w) => *w,
            None => 0,
        };
        let before: u32 = match self.mmio_reads.get(&address) {
            Some(n) => *n,
            None => 0,
        };
        if before == u32::MAX {
            return Err(Fault::Overflow);
        }
        let count: u32 = before + 1;
        self.mmio_reads.insert(address, count);
        if count > ONES_READS {
            Ok(Some(0))
        } else if count > STABLE_READS {
            Ok(Some(0xFFFF_FFFF))
        } else {
            Ok(Some(word as u64))
        }
    }
}

} // verus!
