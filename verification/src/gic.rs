//! The interrupt controller, as the emulated program sees its registers.

use crate::layout::{
    GICC_CTLR, GICC_HPPIR, GICC_RPR, GICD_ISENABLER, GIC_EOIR, GIC_IAR, ISENABLER_RANGE,
};
use crate::state::{EmuModel, EmuState};
use vstd::prelude::*;

verus! {

broadcast use vstd::std_specs::hash::group_hash_axioms;

/// The answer where no interrupt waits to be acknowledged.
pub const SPURIOUS_IRQ: u64 = 1023;

/// The bit `b` of a written value is set.
pub open spec fn bit_set(value: i64, b: u32) -> bool {
    value & (1i64 << b) != 0
}

/// The first line of the enable register at the address.
pub open spec fn enable_base(address: u64) -> int {
    ((address - GICD_ISENABLER) / 4) * 32
}

/// The lines that a write of `value` to the enable register at the address enables:
/// one for each bit that is set in the value's low word.
pub open spec fn enabled_lines(address: u64, value: i64) -> Set<u32> {
    Set::new(
        |irq: u32|
            enable_base(address) <= irq < enable_base(address) + 32 && bit_set(
                value,
                (irq - enable_base(address)) as u32,
            ),
    )
}

/// The address is one of the distributor's enable registers.
pub open spec fn is_enable_register(address: u64) -> bool {
    GICD_ISENABLER <= address < GICD_ISENABLER + ISENABLER_RANGE
}

impl EmuModel {
    /// A write to the interrupt controller.
    pub open spec fn gic_written(self, address: u64, value: i64) -> EmuModel {
        if address == GICC_CTLR {
            EmuModel { gic_enabled: value & 0x1 != 0, ..self }
        } else if is_enable_register(address) {
            EmuModel {
                interrupts_enabled: self.interrupts_enabled.union(enabled_lines(address, value)),
                ..self
            }
        } else if address == GIC_EOIR {
            EmuModel { timer_pending: false, ..self }
        } else {
            self
        }
    }

    /// A read of the interrupt controller: the machine after it, and the value read.
    /// The line of an interrupt is handed out once.
    pub open spec fn gic_read(self, address: u64) -> (EmuModel, u64) {
        if address == GIC_IAR || address == GICC_HPPIR {
            if self.timer_pending {
                (EmuModel { timer_pending: false, ..self }, self.active_irq as u64)
            } else {
                (self, SPURIOUS_IRQ)
            }
        } else if address == GICC_RPR {
            (self, 0xFF)
        } else {
            (self, 0)
        }
    }
}

impl EmuState {
    /// A write to the interrupt controller.
    pub fn gic_write(&mut self, address: u64, value: i64)
        ensures
            final(self)@ == old(self)@.gic_written(address, value),
    {
        if address == GICC_CTLR {
            self.gic_enabled = (value & 0x1) != 0;
            return;
        }
        if address >= GICD_ISENABLER && address < GICD_ISENABLER + ISENABLER_RANGE {
            let base: u32 = ((address - GICD_ISENABLER) / 4) as u32 * 32;
            let mut b: u32 = 0;
            while b < 32
                invariant
                    b <= 32,
                    is_enable_register(address),
                    base == enable_base(address),
                    base <= 31 * 32,
                    self@ == (EmuModel {
                        interrupts_enabled: self@.interrupts_enabled,
                        ..old(self)@
                    }),
                    forall|irq: u32| #[trigger]
                        self@.interrupts_enabled.contains(irq) <==> {
                            ||| old(self)@.interrupts_enabled.contains(irq)
                            ||| base <= irq < base + b && bit_set(value, (irq - base) as u32)
                        },
                decreases 32 - b,
            {
                if (value & (1i64 << b)) != 0 {
                    self.interrupts_enabled.insert(base + b);
                }
                b = b + 1;
            }
            assert(self@.interrupts_enabled =~= old(self)@.interrupts_enabled.union(
                enabled_lines(address, value),
            ));
        }
        if address == GIC_EOIR {
            self.timer_pending = false;
        }
    }

    /// A read of the interrupt controller. Gives the value read.
    pub fn gic_read(&mut self, address: u64) -> (r: u64)
        ensures
            (final(self)@, r) == old(self)@.gic_read(address),
    {
        if address == GIC_IAR || address == GICC_HPPIR {
            if self.timer_pending {
                self.timer_pending = false;
                #[verifier::truncate]
                (self.active_irq as u64)
            } else {
                SPURIOUS_IRQ
            }
        } else if address == GICC_RPR {
            0xFF
        } else {
            0
        }
    }
}

} // verus!
