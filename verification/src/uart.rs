//! The serial port, as the emulated program sees its registers.

use crate::state::{EmuModel, EmuState};
use vstd::prelude::*;

verus! {

/// The port's registers repeat at every multiple of this.
pub const UART_WINDOW: u64 = 0x400;

/// The divisor latch is selected.
pub const LCR_DLAB: u8 = 0x80;

/// The transmit interrupt is enabled.
pub const IER_TX: u8 = 0x02;

/// The receive interrupt is enabled.
pub const IER_RX: u8 = 0x01;

/// The low byte of a written value.
pub open spec fn low_byte(value: i64) -> u8 {
    (value & 0xFF) as u8
}

/// What the terminal is sent for a transmitted byte: a line feed gets a carriage
/// return before it.
pub open spec fn printed(byte: u8) -> Seq<char> {
    if byte == 0x0A {
        seq!['\r', '\n']
    } else {
        seq![byte as char]
    }
}

/// The bytes of a word, the lowest first.
pub open spec fn le_bytes(value: u64) -> Seq<u8> {
    Seq::new(8, |i: int| (value >> ((8 * i) as u64)) as u8)
}

impl EmuModel {
    /// The divisor latch is selected.
    pub open spec fn dlab(self) -> bool {
        self.uart_lcr & LCR_DLAB != 0
    }

    /// A write to the serial port: the machine after it, and what the terminal is sent.
    pub open spec fn uart_written(self, address: u64, value: i64) -> (EmuModel, Seq<char>) {
        let offset = address % UART_WINDOW;
        let byte = low_byte(value);
        if offset == 0x00 {
            if self.dlab() {
                (EmuModel { uart_dll: byte, ..self }, Seq::empty())
            } else {
                (
                    EmuModel {
                        tx_irq_pending: self.tx_irq_pending || self.uart_ier & IER_TX != 0,
                        ..self
                    },
                    printed(byte),
                )
            }
        } else if offset == 0x04 {
            if self.dlab() {
                (EmuModel { uart_dlh: byte, ..self }, Seq::empty())
            } else {
                (
                    EmuModel {
                        uart_ier: byte,
                        tx_irq_pending: self.tx_irq_pending || (self.uart_ier & IER_TX == 0 && byte
                            & IER_TX != 0),
                        ..self
                    },
                    Seq::empty(),
                )
            }
        } else if offset == 0x0C {
            (EmuModel { uart_lcr: byte, ..self }, Seq::empty())
        } else {
            (self, Seq::empty())
        }
    }

    /// A read of the serial port: the machine after it, and the value read.
    pub open spec fn uart_read(self, address: u64) -> (EmuModel, u64) {
        let offset = address % UART_WINDOW;
        if offset == 0x00 {
            if self.dlab() {
                (self, self.uart_dll as u64)
            } else if self.rx_fifo.len() > 0 {
                (EmuModel { rx_fifo: self.rx_fifo.skip(1), ..self }, self.rx_fifo[0] as u64)
            } else {
                (self, 0)
            }
        } else if offset == 0x04 {
            (
                self,
                if self.dlab() {
                    self.uart_dlh as u64
                } else {
                    self.uart_ier as u64
                },
            )
        } else if offset == 0x08 {
            if self.rx_requests() {
                (self, 0x04)
            } else if self.tx_irq_pending {
                (EmuModel { tx_irq_pending: false, ..self }, 0x02)
            } else {
                (self, 0x01)
            }
        } else if offset == 0x0C {
            (self, self.uart_lcr as u64)
        } else if offset == 0x14 {
            (
                self,
                if self.rx_fifo.len() > 0 {
                    0x61
                } else {
                    0x60
                },
            )
        } else if offset == 0x7C {
            (self, 0x06)
        } else {
            (self, 0)
        }
    }
}

/// The first `size` bytes of a word that a device answers with, the lowest first.
pub fn reply_bytes(value: u64, size: usize) -> (r: Vec<u8>)
    requires
        size <= 8,
    ensures
        r@ == le_bytes(value).take(size as int),
{
    let mut r: Vec<u8> = Vec::new();
    let mut i: usize = 0;
    while i < size
        invariant
            i <= size <= 8,
            r@ == le_bytes(value).take(i as int),
        decreases size - i,
    {
        r.push(
            #[verifier::truncate]
            ((value >> (8 * i as u64)) as u8),
        );
        assert(le_bytes(value).take(i + 1) =~= le_bytes(value).take(i as int).push(
            le_bytes(value)[i as int],
        ));
        i = i + 1;
    }
    r
}

impl EmuState {
    /// A write to the serial port. Gives what the terminal is sent.
    pub fn uart_write(&mut self, address: u64, value: i64) -> (r: Vec<char>)
        ensures
            (final(self)@, r@) == old(self)@.uart_written(address, value),
    {
        let byte: u8 = #[verifier::truncate]
        ((value & 0xFF) as u8);
        let offset: u64 = address % UART_WINDOW;
        let mut out: Vec<char> = Vec::new();
        if offset == 0x00 {
            if (self.uart_lcr & LCR_DLAB) != 0 {
                self.uart_dll = byte;
            } else {
                if byte == 0x0A {
                    out.push('\r');
                    out.push('\n');
                } else {
                    out.push(byte as char);
                }
                if (self.uart_ier & IER_TX) != 0 {
                    self.tx_irq_pending = true;
                }
            }
        } else if offset == 0x04 {
            if (self.uart_lcr & LCR_DLAB) != 0 {
                self.uart_dlh = byte;
            } else {
                let before: u8 = self.uart_ier;
                self.uart_ier = byte;
                if (before & IER_TX) == 0 && (byte & IER_TX) != 0 {
                    self.tx_irq_pending = true;
                }
            }
        } else if offset == 0x0C {
            self.uart_lcr = byte;
        }
        out
    }

    /// A read of the serial port. Gives the value read.
    pub fn uart_read(&mut self, address: u64) -> (r: u64)
        ensures
            (final(self)@, r) == old(self)@.uart_read(address),
    {
        let offset: u64 = address % UART_WINDOW;
        if offset == 0x00 {
            if (self.uart_lcr & LCR_DLAB) != 0 {
                self.uart_dll as u64
            } else {
                match self.rx_fifo.pop_front() {
                    Some(byte) => byte as u64,
                    None => 0,
                }
            }
        } else if offset == 0x04 {
            if (self.uart_lcr & LCR_DLAB) != 0 {
                self.uart_dlh as u64
            } else {
                self.uart_ier as u64
            }
        } else if offset == 0x08 {
            if self.rx_fifo.len() > 0 && (self.uart_ier & IER_RX) != 0 {
                0x04
            } else if self.tx_irq_pending {
                self.tx_irq_pending = false;
                0x02
            } else {
                0x01
            }
        } else if offset == 0x0C {
            self.uart_lcr as u64
        } else if offset == 0x14 {
            if self.rx_fifo.len() > 0 {
                0x61
            } else {
                0x60
            }
        } else if offset == 0x7C {
            0x06
        } else {
            0
        }
    }
}

} // verus!
