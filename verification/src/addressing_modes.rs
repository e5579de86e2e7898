use vstd::prelude::*;

use crate::bus::Bus;
use crate::registers::Registers;

verus! {

/// The thirteen official 6502 addressing modes. Each consumes 0 to 2
/// operand bytes following the opcode, advancing the program counter
/// accordingly, and produces an `Operand` for the instruction to consume.
#[derive(Clone, Copy, Debug, PartialEq, Eq, Structural)]
pub enum AddressingMode {
    Accumulator,
    Absolute,
    AbsoluteXIndexed,
    AbsoluteYIndexed,
    Immediate,
    Implied,
    Indirect,
    XIndexedIndirect,
    IndirectYIndexed,
    Relative,
    Zeropage,
    ZeropageXIndexed,
    ZeropageYIndexed,
}

/// The decoded operand of one instruction: an effective memory address, an
/// immediate literal, the accumulator as implicit target, or nothing.
#[derive(Clone, Copy, Debug, PartialEq, Eq, Structural)]
pub enum Operand {
    Addr(u16),
    Value(u8),
    Accumulator,
    Implied,
}

/// A 16-bit pointer read little-endian from `pc` and `pc + 1`.
pub open spec fn spec_absolute(pc: u16, mem: Map<u16, u8>) -> u16 {
    (mem[pc.wrapping_add(1)] * 256 + mem[pc]) as u16
}

/// The target of an indirect jump through the pointer `hi:lo`, with the
/// hardware page-crossing bug: when the pointer's low byte is 0xFF, the high
/// byte of the target is fetched from the start of the same page instead of
/// the next page.
pub open spec fn spec_indirect_target(lo: u8, hi: u8, mem: Map<u16, u8>) -> u16 {
    let ptr = (hi * 256 + lo) as u16;
    let ptr_next = if lo == 0xFF {
        (hi * 256) as u16
    } else {
        (hi * 256 + lo + 1) as u16
    };
    (mem[ptr_next] * 256 + mem[ptr]) as u16
}

/// A 16-bit pointer read little-endian from zero page, wrapping within the
/// page: the low byte comes from `zp`, the high byte from `(zp + 1) & 0xFF`.
pub open spec fn spec_zeropage_pointer(zp: u8, mem: Map<u16, u8>) -> u16 {
    (mem[zp.wrapping_add(1) as u16] * 256 + mem[zp as u16]) as u16
}

/// The branch target `base + offset`, where `base` is the program counter
/// after the offset byte and `offset` is interpreted as a signed byte;
/// the sum wraps modulo 2^16.
pub open spec fn spec_relative_target(base: u16, offset: u8) -> u16 {
    if offset < 0x80 {
        base.wrapping_add(offset as u16)
    } else {
        base.wrapping_add(offset as u16).wrapping_sub(0x100)
    }
}

/// The operand a mode produces and the program counter after decoding it,
/// given the register file at decode entry and the bus contents.
pub open spec fn spec_operand(mode: AddressingMode, regs: Registers, mem: Map<u16, u8>) -> (
    Operand,
    u16,
) {
    let pc = regs.program_counter;
    match mode {
        AddressingMode::Accumulator => (Operand::Accumulator, pc),
        AddressingMode::Implied => (Operand::Implied, pc),
        AddressingMode::Immediate => (Operand::Value(mem[pc]), pc.wrapping_add(1)),
        AddressingMode::Absolute => (Operand::Addr(spec_absolute(pc, mem)), pc.wrapping_add(2)),
        AddressingMode::AbsoluteXIndexed => (
            Operand::Addr(spec_absolute(pc, mem).wrapping_add(regs.x_index as u16)),
            pc.wrapping_add(2),
        ),
        AddressingMode::AbsoluteYIndexed => (
            Operand::Addr(spec_absolute(pc, mem).wrapping_add(regs.y_index as u16)),
            pc.wrapping_add(2),
        ),
        AddressingMode::Indirect => (
            Operand::Addr(spec_indirect_target(mem[pc], mem[pc.wrapping_add(1)], mem)),
            pc.wrapping_add(2),
        ),
        AddressingMode::XIndexedIndirect => (
            Operand::Addr(spec_zeropage_pointer(mem[pc].wrapping_add(regs.x_index), mem)),
            pc.wrapping_add(1),
        ),
        AddressingMode::IndirectYIndexed => (
            Operand::Addr(
                spec_zeropage_pointer(mem[pc], mem).wrapping_add(regs.y_index as u16),
            ),
            pc.wrapping_add(1),
        ),
        AddressingMode::Relative => (
            Operand::Addr(spec_relative_target(pc.wrapping_add(1), mem[pc])),
            pc.wrapping_add(1),
        ),
        AddressingMode::Zeropage => (Operand::Addr(mem[pc] as u16), pc.wrapping_add(1)),
        AddressingMode::ZeropageXIndexed => (
            Operand::Addr(mem[pc].wrapping_add(regs.x_index) as u16),
            pc.wrapping_add(1),
        ),
        AddressingMode::ZeropageYIndexed => (
            Operand::Addr(mem[pc].wrapping_add(regs.y_index) as u16),
            pc.wrapping_add(1),
        ),
    }
}

impl AddressingMode {
    /// Decodes the operand bytes at the program counter into an `Operand`,
    /// advancing the program counter past them. All reads go through the
    /// bus; nothing is written.
    pub fn get_operand<T: Bus>(&self, bus: &mut T, regs: &mut Registers) -> (operand: Operand)
        ensures
            ({
                let (op, next_pc) = spec_operand(*self, *old(regs), old(bus).mem());
                operand == op && *final(regs) == (Registers {
                    program_counter: next_pc,
                    ..*old(regs)
                })
            }),
            *final(bus) == *old(bus),
    {
        match self {
            AddressingMode::Accumulator => Operand::Accumulator,
            AddressingMode::Absolute => Operand::Addr(self.get_absolute_address(bus, regs)),
            AddressingMode::AbsoluteXIndexed => {
                let base = self.get_absolute_address(bus, regs);
                Operand::Addr(base.wrapping_add(regs.x_index as u16))
            },
            AddressingMode::AbsoluteYIndexed => {
                let base = self.get_absolute_address(bus, regs);
                Operand::Addr(base.wrapping_add(regs.y_index as u16))
            },
            AddressingMode::Immediate => Operand::Value(self.get_immediate_value(bus, regs)),
            AddressingMode::Implied => Operand::Implied,
            AddressingMode::Indirect => Operand::Addr(self.get_indirect_address(bus, regs)),
            AddressingMode::XIndexedIndirect => Operand::Addr(
                self.get_x_indexed_indirect_address(bus, regs),
            ),
            AddressingMode::IndirectYIndexed => Operand::Addr(
                self.get_indirect_y_indexed_address(bus, regs),
            ),
            AddressingMode::Relative => Operand::Addr(self.get_relative_addr(bus, regs)),
            AddressingMode::Zeropage => Operand::Addr(self.get_zeropage_addr(bus, regs)),
            AddressingMode::ZeropageXIndexed => Operand::Addr(
                self.get_zeropage_x_indexed_addr(bus, regs),
            ),
            AddressingMode::ZeropageYIndexed => Operand::Addr(
                self.get_zeropage_y_indexed_addr(bus, regs),
            ),
        }
    }

    /// Reads a little-endian 16-bit address from the two operand bytes.
    fn get_absolute_address<T: Bus>(&self, bus: &mut T, regs: &mut Registers) -> (addr: u16)
        ensures
            addr == spec_absolute(old(regs).program_counter, old(bus).mem()),
            *final(regs) == (Registers {
                program_counter: old(regs).program_counter.wrapping_add(2),
                ..*old(regs)
            }),
            *final(bus) == *old(bus),
    {
        let lo: u16 = bus.read(regs.program_counter) as u16;
        regs.program_counter = regs.program_counter.wrapping_add(1);
        let hi: u16 = bus.read(regs.program_counter) as u16;
        regs.program_counter = regs.program_counter.wrapping_add(1);
        hi * 256 + lo
    }

    /// Reads the single immediate operand byte.
    fn get_immediate_value<T: Bus>(&self, bus: &mut T, regs: &mut Registers) -> (value: u8)
        ensures
            value == old(bus).mem()[old(regs).program_counter],
            *final(regs) == (Registers {
                program_counter: old(regs).program_counter.wrapping_add(1),
                ..*old(regs)
            }),
            *final(bus) == *old(bus),
    {
        let value = bus.read(regs.program_counter);
        regs.program_counter = regs.program_counter.wrapping_add(1);
        value
    }

    /// Reads a 16-bit pointer from the operand bytes, then the target
    /// address through that pointer, preserving the hardware bug: a pointer
    /// whose low byte is 0xFF wraps within its page for the high fetch.
    fn get_indirect_address<T: Bus>(&self, bus: &mut T, regs: &mut Registers) -> (addr: u16)
        ensures
            addr == spec_indirect_target(
                old(bus).mem()[old(regs).program_counter],
                old(bus).mem()[old(regs).program_counter.wrapping_add(1)],
                old(bus).mem(),
            ),
            *final(regs) == (Registers {
                program_counter: old(regs).program_counter.wrapping_add(2),
                ..*old(regs)
            }),
            *final(bus) == *old(bus),
    {
        let lo: u16 = bus.read(regs.program_counter) as u16;
        regs.program_counter = regs.program_counter.wrapping_add(1);
        let hi: u16 = bus.read(regs.program_counter) as u16;
        regs.program_counter = regs.program_counter.wrapping_add(1);

        let ptr: u16 = hi * 256 + lo;
        // The pointer wraps around in a page boundary
        let ptr_next: u16 = if lo == 0xFF {
            hi * 256
        } else {
            ptr + 1
        };
        let target_lo: u16 = bus.read(ptr) as u16;
        let target_hi: u16 = bus.read(ptr_next) as u16;
        target_hi * 256 + target_lo
    }

    /// Adds X to the zero-page operand byte (wrapping within page 0), then
    /// reads the effective address through the resulting pointer.
    fn get_x_indexed_indirect_address<T: Bus>(&self, bus: &mut T, regs: &mut Registers) -> (addr:
        u16)
        ensures
            addr == spec_zeropage_pointer(
                old(bus).mem()[old(regs).program_counter].wrapping_add(old(regs).x_index),
                old(bus).mem(),
            ),
            *final(regs) == (Registers {
                program_counter: old(regs).program_counter.wrapping_add(1),
                ..*old(regs)
            }),
            *final(bus) == *old(bus),
    {
        let zp = bus.read(regs.program_counter);
        regs.program_counter = regs.program_counter.wrapping_add(1);
        let ptr = zp.wrapping_add(regs.x_index);
        let lo: u16 = bus.read(ptr as u16) as u16;
        let hi: u16 = bus.read(ptr.wrapping_add(1) as u16) as u16;
        hi * 256 + lo
    }

    /// Reads a base pointer from the zero-page operand byte (the pointer
    /// read wraps within page 0), then adds Y to it modulo 2^16.
    fn get_indirect_y_indexed_address<T: Bus>(&self, bus: &mut T, regs: &mut Registers) -> (addr:
        u16)
        ensures
            addr == spec_zeropage_pointer(
                old(bus).mem()[old(regs).program_counter],
                old(bus).mem(),
            ).wrapping_add(old(regs).y_index as u16),
            *final(regs) == (Registers {
                program_counter: old(regs).program_counter.wrapping_add(1),
                ..*old(regs)
            }),
            *final(bus) == *old(bus),
    {
        let zp = bus.read(regs.program_counter);
        regs.program_counter = regs.program_counter.wrapping_add(1);
        let lo: u16 = bus.read(zp as u16) as u16;
        let hi: u16 = bus.read(zp.wrapping_add(1) as u16) as u16;
        let base: u16 = hi * 256 + lo;
        base.wrapping_add(regs.y_index as u16)
    }

    /// Reads the signed offset byte and produces the branch target relative
    /// to the program counter after the offset.
    fn get_relative_addr<T: Bus>(&self, bus: &mut T, regs: &mut Registers) -> (addr: u16)
        ensures
            addr == spec_relative_target(
                old(regs).program_counter.wrapping_add(1),
                old(bus).mem()[old(regs).program_counter],
            ),
            *final(regs) == (Registers {
                program_counter: old(regs).program_counter.wrapping_add(1),
                ..*old(regs)
            }),
            *final(bus) == *old(bus),
    {
        let offset = bus.read(regs.program_counter);
        regs.program_counter = regs.program_counter.wrapping_add(1);
        let base = regs.program_counter;
        if offset < 0x80 {
            base.wrapping_add(offset as u16)
        } else {
            base.wrapping_add(offset as u16).wrapping_sub(0x100)
        }
    }

    /// Reads the zero-page operand byte as an address in page 0.
    fn get_zeropage_addr<T: Bus>(&self, bus: &mut T, regs: &mut Registers) -> (addr: u16)
        ensures
            addr == old(bus).mem()[old(regs).program_counter] as u16,
            *final(regs) == (Registers {
                program_counter: old(regs).program_counter.wrapping_add(1),
                ..*old(regs)
            }),
            *final(bus) == *old(bus),
    {
        let zp = bus.read(regs.program_counter);
        regs.program_counter = regs.program_counter.wrapping_add(1);
        zp as u16
    }

    /// Zero-page address indexed by X; the sum wraps within page 0.
    fn get_zeropage_x_indexed_addr<T: Bus>(&self, bus: &mut T, regs: &mut Registers) -> (addr: u16)
        ensures
            addr == old(bus).mem()[old(regs).program_counter].wrapping_add(old(regs).x_index)
                as u16,
            *final(regs) == (Registers {
                program_counter: old(regs).program_counter.wrapping_add(1),
                ..*old(regs)
            }),
            *final(bus) == *old(bus),
    {
        let zp = bus.read(regs.program_counter);
        regs.program_counter = regs.program_counter.wrapping_add(1);
        zp.wrapping_add(regs.x_index) as u16
    }

    /// Zero-page address indexed by Y; the sum wraps within page 0.
    fn get_zeropage_y_indexed_addr<T: Bus>(&self, bus: &mut T, regs: &mut Registers) -> (addr: u16)
        ensures
            addr == old(bus).mem()[old(regs).program_counter].wrapping_add(old(regs).y_index)
                as u16,
            *final(regs) == (Registers {
                program_counter: old(regs).program_counter.wrapping_add(1),
                ..*old(regs)
            }),
            *final(bus) == *old(bus),
    {
        let zp = bus.read(regs.program_counter);
        regs.program_counter = regs.program_counter.wrapping_add(1);
        zp.wrapping_add(regs.y_index) as u16
    }
}

} // verus!
