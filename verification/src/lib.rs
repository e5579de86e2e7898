use vstd::prelude::*;

pub mod addressing_modes;
pub mod bus;
pub mod instruction;
pub mod opcodes;
pub mod registers;

use crate::addressing_modes::spec_operand;
use crate::bus::Bus;
use crate::instruction::spec_accepts;
use crate::instruction::spec_process;
use crate::instruction::spec_push_pc;
use crate::opcodes::decode;
use crate::opcodes::spec_decode;
use crate::registers::Registers;
use crate::registers::Stack;
use crate::registers::StatusRegister;
use crate::registers::spec_pack;
use crate::registers::spec_push;
use crate::registers::spec_registers_init;

verus! {

/// The register file after reset: a fresh register file whose program
/// counter has been loaded little-endian from the reset vector at
/// 0xFFFC/0xFFFD.
pub open spec fn spec_reset(mem: Map<u16, u8>) -> Registers {
    Registers {
        program_counter: (mem[0xFFFD] * 256 + mem[0xFFFC]) as u16,
        ..spec_registers_init()
    }
}

/// Servicing an interrupt: the program counter is pushed high byte first,
/// then the packed flags with B clear; I is set; and the program counter is
/// loaded little-endian from the handler vector. The vector bytes are read
/// after the pushes, so a stack that has grown into the vector page is
/// honoured, as on hardware.
pub open spec fn spec_interrupt(regs: Registers, mem: Map<u16, u8>, vector: u16) -> (
    Registers,
    Map<u16, u8>,
) {
    let (p1, m1) = spec_push_pc(regs.stack.pointer, mem, regs.program_counter);
    let packed = spec_pack(StatusRegister { brk_command: false, ..regs.status_reg });
    let (p2, m2) = spec_push(p1, m1, packed);
    (
        Registers {
            stack: Stack { pointer: p2 },
            status_reg: StatusRegister { irq_disable: true, ..regs.status_reg },
            program_counter: (m2[vector.wrapping_add(1)] * 256 + m2[vector]) as u16,
            ..regs
        },
        m2,
    )
}

/// One step of the processor, as a function of the register file and the
/// bus contents.
///
/// A pending NMI, or a pending IRQ with interrupts enabled, is serviced as
/// the whole step and its latch cleared. Otherwise the opcode at the
/// program counter is fetched, decoded and executed. The step has no
/// defined result — the emulator treats the program as malformed — when the
/// opcode is not in the table, when the decoded instruction rejects the
/// operand the addressing mode produced (which no table entry does), or
/// when ADC/SBC runs in decimal mode, which this core does not implement.
pub open spec fn spec_step(regs: Registers, mem: Map<u16, u8>) -> Option<(Registers, Map<u16, u8>)> {
    if regs.nmi_active {
        Some(spec_interrupt(Registers { nmi_active: false, ..regs }, mem, 0xFFFA))
    } else if regs.irq_active && !regs.status_reg.irq_disable {
        Some(spec_interrupt(Registers { irq_active: false, ..regs }, mem, 0xFFFE))
    } else {
        let opcode = mem[regs.program_counter];
        match spec_decode(opcode) {
            Option::None => Option::None,
            Some((instruction, mode)) => {
                let fetched = Registers {
                    program_counter: regs.program_counter.wrapping_add(1),
                    ..regs
                };
                let (operand, next_pc) = spec_operand(mode, fetched, mem);
                let decoded = Registers { program_counter: next_pc, ..fetched };
                if !spec_accepts(instruction, operand) {
                    Option::None
                } else if (instruction is Adc || instruction is Sbc)
                    && regs.status_reg.decimal_mode {
                    Option::None
                } else {
                    Some(spec_process(instruction, operand, decoded, mem))
                }
            },
        }
    }
}

/// MOS 6502 processor emulator: the register file together with the
/// fetch-decode-execute machinery that drives it over a host bus.
pub struct Cpu {
    pub registers: Registers,
}

/// Every opcode-table entry pairs an instruction with an addressing mode
/// whose operand it accepts, so a fetched instruction never rejects its
/// decoded operand.
pub proof fn lemma_table_operand_accepted(opcode: u8, regs: Registers, mem: Map<u16, u8>)
    ensures
        spec_decode(opcode) matches Some((instruction, mode)) ==> spec_accepts(
            instruction,
            spec_operand(mode, regs, mem).0,
        ),
{
}

/// A step is defined whenever the opcode under the program counter is in
/// the table and, for ADC/SBC, decimal mode is off: together with
/// `lemma_table_operand_accepted` this discharges the precondition of
/// `single_step` without reasoning about operand decoding.
pub proof fn lemma_step_defined(regs: Registers, mem: Map<u16, u8>)
    requires
        spec_decode(mem[regs.program_counter]) is Some,
        (spec_decode(mem[regs.program_counter]).unwrap().0 is Adc || spec_decode(
            mem[regs.program_counter],
        ).unwrap().0 is Sbc) ==> !regs.status_reg.decimal_mode,
    ensures
        spec_step(regs, mem) is Some,
{
    if !regs.nmi_active && !(regs.irq_active && !regs.status_reg.irq_disable) {
        let opcode = mem[regs.program_counter];
        let (instruction, mode) = spec_decode(opcode).unwrap();
        let fetched = Registers {
            program_counter: regs.program_counter.wrapping_add(1),
            ..regs
        };
        lemma_table_operand_accepted(opcode, fetched, mem);
    }
}

impl Cpu {
    /// Constructs a processor with freshly initialised registers.
    pub fn new() -> (cpu: Cpu)
        ensures
            cpu.registers == spec_registers_init(),
    {
        Cpu { registers: Registers::new() }
    }

    /// Latches a pending IRQ (IRQB signal); it is serviced at the next step
    /// boundary unless interrupts are disabled.
    pub fn signal_irq(&mut self)
        ensures
            *final(self) == (Cpu {
                registers: Registers { irq_active: true, ..old(self).registers },
            }),
    {
        self.registers.irq_active = true;
    }

    /// Latches a pending NMI; it is serviced at the next step boundary.
    pub fn signal_nmi(&mut self)
        ensures
            *final(self) == (Cpu {
                registers: Registers { nmi_active: true, ..old(self).registers },
            }),
    {
        self.registers.nmi_active = true;
    }

    /// Resets the processor: restores the fresh register state, then loads
    /// the program counter from the reset vector, leaving the processor
    /// ready to execute the handler.
    pub fn reset<T: Bus>(&mut self, bus: &T)
        ensures
            final(self).registers == spec_reset(bus.mem()),
    {
        // Restore original state
        *self = Cpu::new();

        // Jump to the reset handler.
        let low_byte: u16 = self.step_program_counter(bus) as u16;
        let high_byte: u16 = self.step_program_counter(bus) as u16;

        let reset_vector = high_byte * 256 + low_byte;
        self.registers.program_counter = reset_vector;
    }

    /// Runs a single step of the processor: services a pending interrupt,
    /// or fetches, decodes and executes one instruction.
    ///
    /// The precondition excludes exactly the malformed-program cases on
    /// which `spec_step` has no result: an opcode missing from the table,
    /// and ADC/SBC in decimal mode.
    pub fn single_step<T: Bus>(&mut self, bus: &mut T)
        requires
            spec_step(old(self).registers, old(bus).mem()) is Some,
        ensures
            Some((final(self).registers, final(bus).mem())) == spec_step(
                old(self).registers,
                old(bus).mem(),
            ),
    {
        if self.registers.nmi_active {
            self.registers.nmi_active = false;
            self.service_interrupt(bus, 0xFFFA);
            return ;
        }
        if self.registers.irq_active && !self.registers.status_reg.irq_disable {
            self.registers.irq_active = false;
            self.service_interrupt(bus, 0xFFFE);
            return ;
        }
        // Fetch opcode
        let opcode = self.step_program_counter(bus);
        let (instruction, addressing_mode) = decode(opcode).unwrap();
        let operand = addressing_mode.get_operand(bus, &mut self.registers);
        instruction.process(operand, bus, &mut self.registers);
    }

    /// Pushes the program counter and the flags (with B clear), disables
    /// interrupts, and jumps through the handler vector.
    fn service_interrupt<T: Bus>(&mut self, bus: &mut T, vector: u16)
        ensures
            (final(self).registers, final(bus).mem()) == spec_interrupt(
                old(self).registers,
                old(bus).mem(),
                vector,
            ),
    {
        let pc = self.registers.program_counter;
        let hi = (pc / 256) as u8;
        self.registers.stack.push(hi, bus);
        let lo = (pc % 256) as u8;
        self.registers.stack.push(lo, bus);
        let mut pushed = self.registers.status_reg;
        pushed.brk_command = false;
        let packed = pushed.get();
        self.registers.stack.push(packed, bus);
        self.registers.status_reg.irq_disable = true;
        let vector_lo = bus.read(vector);
        let vector_hi = bus.read(vector.wrapping_add(1));
        self.registers.program_counter = (vector_hi as u16) * 256 + (vector_lo as u16);
    }

    /// Reads the byte the program counter points at, then advances the
    /// program counter by one, wrapping at the top of the address space.
    fn step_program_counter<T: Bus>(&mut self, bus: &T) -> (value: u8)
        ensures
            value == bus.mem()[old(self).registers.program_counter],
            *final(self) == (Cpu {
                registers: Registers {
                    program_counter: old(self).registers.program_counter.wrapping_add(1),
                    ..old(self).registers
                },
            }),
    {
        let result = bus.read(self.registers.program_counter);
        self.registers.program_counter = self.registers.program_counter.wrapping_add(1);
        result
    }
}

} // verus!

