use vstd::prelude::*;

use crate::port::Port;

verus! {

/// Port address of the master interrupt controller.
pub const PIC1: u16 = 0x20;

/// Port address of the slave interrupt controller.
pub const PIC2: u16 = 0xa0;

/// The command and data ports of one interrupt controller.
#[derive(Clone, Copy, Debug, PartialEq, Eq, Structural)]
pub struct PicPort {
    /// Command port, at the controller's base address.
    pub com: Port,
    /// Data port, one past the base address.
    pub data: Port,
}

impl PicPort {
    /// The port pair of the controller based at address `id`.
    pub fn new(id: u16) -> (r: PicPort)
        requires
            id < u16::MAX,
        ensures
            r.com.id == id,
            r.data.id == id + 1,
    {
        PicPort { com: Port::new(id), data: Port::new(id + 1) }
    }
}

/// The cascaded pair of programmable interrupt controllers, with a shadow
/// copy of each controller's interrupt mask.
///
/// The shadow masks are the state the driver logic decides on; the hardware
/// layer writes each new mask to the matching data port.  IRQs 0 to 7
/// belong to the master controller, 8 to 15 to the slave.
pub struct Pic {
    /// The master controller's ports.
    pub pic1: PicPort,
    /// The slave controller's ports.
    pub pic2: PicPort,
    /// Shadow of the master controller's interrupt mask.
    pub mask1: u8,
    /// Shadow of the slave controller's interrupt mask.
    pub mask2: u8,
}

impl Pic {
    /// The standard controller pair, all interrupts masked off.
    pub fn new() -> (r: Pic)
        ensures
            r.pic1.com.id == PIC1,
            r.pic1.data.id == PIC1 + 1,
            r.pic2.com.id == PIC2,
            r.pic2.data.id == PIC2 + 1,
            r.mask1 == 0xff,
            r.mask2 == 0xff,
    {
        Pic { pic1: PicPort::new(PIC1), pic2: PicPort::new(PIC2), mask1: 0xff, mask2: 0xff }
    }

    /// Run the controllers' initialization sequence.
    ///
    /// The hardware layer issues the initialization command words to both
    /// controllers (vector offsets, cascade wiring, 8086 mode); the sequence
    /// ends with every interrupt masked off, which is the state recorded
    /// here.
    pub fn init(&mut self)
        ensures
            *final(self) == (Pic { mask1: 0xff, mask2: 0xff, ..*old(self) }),
    {
        self.mask1 = 0xff;
        self.mask2 = 0xff;
    }

    /// Acknowledge interrupt `irq`.  The master controller always receives
    /// the end-of-interrupt command; returns whether the slave controller
    /// must receive one too.
    pub fn send_end_of_interrupt(&self, irq: u8) -> (slave: bool)
        requires
            irq < 16,
        ensures
            slave == (irq > 7),
    {
        irq > 7
    }

    /// Mask interrupt `irq` off: set its bit in the owning controller's
    /// mask.
    pub fn set_mask(&mut self, irq: u8)
        requires
            irq < 16,
        ensures
            irq < 8 ==> *final(self) == (Pic { mask1: old(self).mask1 | (1u8 << irq), ..*old(
                self,
            ) }),
            irq >= 8 ==> *final(self) == (Pic { mask2: old(self).mask2 | (1u8 << (irq - 8) as u8),
                ..*old(self) }),
    {
        if irq < 8 {
            self.mask1 = self.mask1 | (1u8 << irq);
        } else {
            self.mask2 = self.mask2 | (1u8 << (irq - 8));
        }
    }

    /// Combine one controller register read from each controller into the
    /// sixteen-bit view the callers work with: the master's byte low, the
    /// slave's high.  The hardware layer issues the read command words and
    /// hands in the two bytes that came back.
    pub fn get_register(&self, reg1: u8, reg2: u8) -> (r: u16)
        ensures
            r == (reg1 as u16) | ((reg2 as u16) << 8),
    {
        (reg1 as u16) | ((reg2 as u16) << 8)
    }

    /// Let interrupt `irq` through: clear its bit in the owning
    /// controller's mask.
    pub fn clear_mask(&mut self, irq: u8)
        requires
            irq < 16,
        ensures
            irq < 8 ==> *final(self) == (Pic { mask1: old(self).mask1 & !(1u8 << irq), ..*old(
                self,
            ) }),
            irq >= 8 ==> *final(self) == (Pic { mask2: old(self).mask2 & !(1u8 << (irq - 8) as u8),
                ..*old(self) }),
    {
        if irq < 8 {
            self.mask1 = self.mask1 & !(1u8 << irq);
        } else {
            self.mask2 = self.mask2 & !(1u8 << (irq - 8));
        }
    }
}

} // verus!
