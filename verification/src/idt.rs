use vstd::prelude::*;

verus! {

/// The stack frame the CPU pushes when an exception or interrupt fires.
pub struct ExceptionStackFrame {
    /// Address of the interrupted instruction.
    pub instruction_pointer: u64,
    /// Code segment at the moment of the exception.
    pub code_segment: u64,
    /// Flags register at the moment of the exception.
    pub cpu_flags: u64,
    /// Stack pointer at the moment of the exception.
    pub stack_pointer: u64,
    /// Stack segment at the moment of the exception.
    pub stack_segment: u64,
}

/// The option bits of one interrupt-descriptor-table entry.
///
/// Bit 15 is the present flag, bit 8 distinguishes a trap gate (interrupts
/// stay enabled) from an interrupt gate, bits 13 and 14 hold the privilege
/// level, bits 0 to 2 the interrupt-stack-table index, and bits 9 to 11
/// must be set.
#[derive(Clone, Copy, Debug, PartialEq, Eq, Structural)]
pub struct EntryOptions(pub u16);

impl EntryOptions {
    /// Options with everything zero except the three must-be-set bits.
    pub fn empty() -> (r: EntryOptions)
        ensures
            r.0 == 0x0e00,
    {
        EntryOptions(0x0e00)
    }

    /// The options of a live handler: present, with interrupts disabled on
    /// entry.
    pub fn new() -> (r: EntryOptions)
        ensures
            r.0 == 0x8e00,
    {
        let mut opts = EntryOptions::empty();
        opts.set_present(true);
        opts.disable_interrupts(true);
        proof {
            assert((0x0e00u16 & 0x7fff) | 0x8000 == 0x8e00) by (bit_vector);
            assert((0x8e00u16 & 0xfeff) | 0 == 0x8e00) by (bit_vector);
        }
        opts
    }

    /// Set or clear the present flag, bit 15.
    pub fn set_present(&mut self, present: bool)
        ensures
            final(self).0 == (old(self).0 & 0x7fff) | (if present {
                0x8000u16
            } else {
                0u16
            }),
    {
        let bit: u16 = if present {
            0x8000
        } else {
            0
        };
        self.0 = (self.0 & 0x7fff) | bit;
    }

    /// Choose whether interrupts are disabled on entry: clear or set the
    /// trap-gate bit, bit 8.
    pub fn disable_interrupts(&mut self, disable: bool)
        ensures
            final(self).0 == (old(self).0 & 0xfeff) | (if disable {
                0u16
            } else {
                0x0100u16
            }),
    {
        let bit: u16 = if disable {
            0
        } else {
            0x0100
        };
        self.0 = (self.0 & 0xfeff) | bit;
    }

    /// Set the descriptor privilege level, bits 13 and 14.
    pub fn set_privilege_level(&mut self, dpl: u16)
        ensures
            final(self).0 == (old(self).0 & 0x9fff) | ((dpl << 13) & 0x6000),
    {
        self.0 = (self.0 & 0x9fff) | ((dpl << 13) & 0x6000);
    }

    /// Set the interrupt-stack-table index, bits 0 to 2.
    pub fn set_stack_index(&mut self, index: u16)
        ensures
            final(self).0 == (old(self).0 & 0xfff8) | (index & 0x07),
    {
        self.0 = (self.0 & 0xfff8) | (index & 0x07);
    }
}

/// Splitting an address into its three descriptor fields loses nothing.
proof fn lemma_pointer_split(handler: u64)
    by (bit_vector)
    ensures
        ((handler as u16) as u64) | ((((handler >> 16) as u16) as u64) << 16) | ((((handler
            >> 32) as u32) as u64) << 32) == handler,
{
}

/// One interrupt-descriptor-table entry: a handler address split into three
/// fields, the code-segment selector to run it under, and its options.
///
/// The selector is carried as its raw 16-bit value; the interrupt layer
/// reads the running code segment and hands it in.
#[derive(Clone, Copy, Debug, PartialEq, Eq, Structural)]
pub struct Entry {
    /// Bits 0 to 15 of the handler's address.
    pub pointer_low: u16,
    /// Selector of the code segment the handler runs under.
    pub gdt_selector: u16,
    /// The entry's option bits.
    pub options: EntryOptions,
    /// Bits 16 to 31 of the handler's address.
    pub pointer_middle: u16,
    /// Bits 32 to 63 of the handler's address.
    pub pointer_high: u32,
    /// Reserved, always zero.
    pub reserved: u32,
}

impl Entry {
    /// The handler address the entry's three pointer fields name.
    pub open spec fn handler_address(self) -> u64 {
        ((self.pointer_low as u64) | ((self.pointer_middle as u64) << 16) | ((
        self.pointer_high as u64) << 32)) as u64
    }

    /// A live entry for the handler at address `handler`, run under the
    /// code segment `gdt_selector`.
    pub fn new(gdt_selector: u16, handler: u64) -> (r: Entry)
        ensures
            r.handler_address() == handler,
            r.gdt_selector == gdt_selector,
            r.options.0 == 0x8e00,
            r.reserved == 0,
    {
        proof {
            lemma_pointer_split(handler);
        }
        Entry {
            gdt_selector,
            pointer_low: handler as u16,
            pointer_middle: (handler >> 16) as u16,
            pointer_high: (handler >> 32) as u32,
            options: EntryOptions::new(),
            reserved: 0,
        }
    }

    /// An absent entry: everything zero but the must-be-set option bits.
    pub fn empty() -> (r: Entry)
        ensures
            r.handler_address() == 0,
            r.gdt_selector == 0,
            r.options.0 == 0x0e00,
            r.reserved == 0,
    {
        proof {
            assert((((0u16 as u64) | ((0u16 as u64) << 16) | ((0u32 as u64) << 32)) as u64)
                == 0) by (bit_vector);
        }
        Entry {
            gdt_selector: 0,
            pointer_low: 0,
            pointer_middle: 0,
            pointer_high: 0,
            options: EntryOptions::empty(),
            reserved: 0,
        }
    }
}

/// Number of entries in the interrupt descriptor table.
pub const IDT_ENTRIES: usize = 255;

/// The interrupt descriptor table: one entry per vector.  The hardware
/// layer points the CPU at it.
pub struct Idt {
    /// The entries, indexed by vector.
    pub table: Vec<Entry>,
}

impl Idt {
    /// The table always covers every vector.
    pub open spec fn wf(self) -> bool {
        self.table@.len() == IDT_ENTRIES
    }

    /// A table of absent entries.
    pub fn new() -> (r: Idt)
        ensures
            r.wf(),
            forall|i: int| 0 <= i < r.table@.len() ==> r.table@[i].options.0 == 0x0e00,
    {
        let empty = Entry::empty();
        let table: Vec<Entry> = vec![empty; IDT_ENTRIES];
        Idt { table }
    }

    /// Point vector `entry` at the handler at address `handler`, run under
    /// the code segment `gdt_selector`.
    pub fn set_handler(&mut self, entry: u8, gdt_selector: u16, handler: u64)
        requires
            old(self).wf(),
            entry < IDT_ENTRIES,
        ensures
            final(self).wf(),
            final(self).table@[entry as int].handler_address() == handler,
            final(self).table@[entry as int].gdt_selector == gdt_selector,
            final(self).table@[entry as int].options.0 == 0x8e00,
            forall|i: int|
                0 <= i < old(self).table@.len() && i != entry ==> final(self).table@[i] == old(
                    self,
                ).table@[i],
    {
        self.table[entry as usize] = Entry::new(gdt_selector, handler);
    }
}

} // verus!
