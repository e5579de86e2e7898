use vstd::prelude::*;
use vstd::pervasive::unreached;

use crate::addressing_modes::Operand;
use crate::bus::Bus;
use crate::registers::Registers;
use crate::registers::Stack;
use crate::registers::StatusRegister;
use crate::registers::spec_pack;
use crate::registers::spec_pop;
use crate::registers::spec_push;
use crate::registers::spec_set_zn;
use crate::registers::spec_unpack;

verus! {

/// The 56 official 6502 instruction mnemonics.
#[derive(Clone, Copy, Debug, PartialEq, Eq, Structural)]
pub enum Instruction {
    Adc,
    And,
    Asl,
    Bcc,
    Bcs,
    Beq,
    Bit,
    Bmi,
    Bne,
    Bpl,
    Brk,
    Bvc,
    Bvs,
    Clc,
    Cld,
    Cli,
    Clv,
    Cmp,
    Cpx,
    Cpy,
    Dec,
    Dex,
    Dey,
    Eor,
    Inc,
    Inx,
    Iny,
    Jmp,
    Jsr,
    Lda,
    Ldx,
    Ldy,
    Lsr,
    Nop,
    Ora,
    Pha,
    Php,
    Pla,
    Plp,
    Rol,
    Ror,
    Rti,
    Rts,
    Sbc,
    Sec,
    Sed,
    Sei,
    Sta,
    Stx,
    Sty,
    Tax,
    Tay,
    Tsx,
    Txa,
    Txs,
    Tya,
}

/// The operand variants an instruction accepts; handing it any other
/// variant is a programming error against the opcode table.
pub open spec fn spec_accepts(i: Instruction, operand: Operand) -> bool {
    match i {
        // Instructions that fetch a value: immediate or memory.
        Instruction::Adc | Instruction::And | Instruction::Bit | Instruction::Cmp
            | Instruction::Cpx | Instruction::Cpy | Instruction::Eor | Instruction::Lda
            | Instruction::Ldx | Instruction::Ldy | Instruction::Ora | Instruction::Sbc => (operand
            is Value || operand is Addr),
        // Read-modify-write shifts: the accumulator or a memory byte.
        Instruction::Asl | Instruction::Lsr | Instruction::Rol | Instruction::Ror => (operand
            is Accumulator || operand is Addr),
        // Instructions that need an effective address.
        Instruction::Bcc | Instruction::Bcs | Instruction::Beq | Instruction::Bmi
            | Instruction::Bne | Instruction::Bpl | Instruction::Bvc | Instruction::Bvs
            | Instruction::Dec | Instruction::Inc | Instruction::Jmp | Instruction::Jsr
            | Instruction::Sta | Instruction::Stx | Instruction::Sty => operand is Addr,
        // Implied instructions take no operand.
        _ => operand is Implied,
    }
}

/// The value an instruction operates on: an immediate literal directly, or
/// the byte at an effective address.
pub open spec fn spec_fetch(operand: Operand, mem: Map<u16, u8>) -> u8 {
    match operand {
        Operand::Value(value) => value,
        Operand::Addr(addr) => mem[addr],
        _ => 0,
    }
}

/// The effective address carried by an `Addr` operand.
pub open spec fn spec_operand_addr(operand: Operand) -> u16 {
    match operand {
        Operand::Addr(addr) => addr,
        _ => 0,
    }
}

/// AND: accumulator becomes `A & value`; Z and N track the result.
pub open spec fn spec_and(operand: Operand, regs: Registers, mem: Map<u16, u8>) -> Registers {
    let result = regs.accumulator & spec_fetch(operand, mem);
    Registers { accumulator: result, status_reg: spec_set_zn(regs.status_reg, result), ..regs }
}

/// ORA: accumulator becomes `A | value`; Z and N track the result.
pub open spec fn spec_ora(operand: Operand, regs: Registers, mem: Map<u16, u8>) -> Registers {
    let result = regs.accumulator | spec_fetch(operand, mem);
    Registers { accumulator: result, status_reg: spec_set_zn(regs.status_reg, result), ..regs }
}

/// EOR: accumulator becomes `A ^ value`; Z and N track the result.
pub open spec fn spec_eor(operand: Operand, regs: Registers, mem: Map<u16, u8>) -> Registers {
    let result = regs.accumulator ^ spec_fetch(operand, mem);
    Registers { accumulator: result, status_reg: spec_set_zn(regs.status_reg, result), ..regs }
}

/// CMP/CPX/CPY against the register value `reg`: C iff `reg >= value`,
/// Z iff equal, N from bit 7 of the wrapping difference.
pub open spec fn spec_compare(operand: Operand, regs: Registers, mem: Map<u16, u8>, reg: u8)
    -> Registers {
    let value = spec_fetch(operand, mem);
    let diff = reg.wrapping_sub(value);
    Registers {
        status_reg: StatusRegister {
            carry: reg >= value,
            zero: reg == value,
            negative: diff & 0x80 != 0,
            ..regs.status_reg
        },
        ..regs
    }
}

/// BIT: Z iff `A & value == 0`; N and V copy bits 7 and 6 of the value.
pub open spec fn spec_bit(operand: Operand, regs: Registers, mem: Map<u16, u8>) -> Registers {
    let value = spec_fetch(operand, mem);
    Registers {
        status_reg: StatusRegister {
            negative: value & 0x80 != 0,
            overflow: value & 0x40 != 0,
            zero: value & regs.accumulator == 0,
            ..regs.status_reg
        },
        ..regs
    }
}

/// Binary add-with-carry of `value` into the accumulator: the 9-bit sum
/// sets C; V is set iff the operands agree in sign but the result does not;
/// Z and N track the result byte.
pub open spec fn spec_adc_with(regs: Registers, value: u8) -> Registers {
    let sum = regs.accumulator + value + (if regs.status_reg.carry {
        1int
    } else {
        0int
    });
    let result = (sum % 256) as u8;
    let overflow = ((regs.accumulator ^ value) ^ 0xFF) & (regs.accumulator ^ result) & 0x80 != 0;
    Registers {
        accumulator: result,
        status_reg: StatusRegister {
            carry: sum > 0xFF,
            overflow: overflow,
            zero: result == 0,
            negative: result & 0x80 != 0,
            ..regs.status_reg
        },
        ..regs
    }
}

/// ADC fetches its value and adds it with carry.
pub open spec fn spec_adc(operand: Operand, regs: Registers, mem: Map<u16, u8>) -> Registers {
    spec_adc_with(regs, spec_fetch(operand, mem))
}

/// SBC is add-with-carry of the one's complement of the value.
pub open spec fn spec_sbc(operand: Operand, regs: Registers, mem: Map<u16, u8>) -> Registers {
    spec_adc_with(regs, spec_fetch(operand, mem) ^ 0xFF)
}

/// INC: the byte at the effective address is incremented (wrapping) in
/// place; Z and N track the new byte.
pub open spec fn spec_inc(operand: Operand, regs: Registers, mem: Map<u16, u8>) -> (
    Registers,
    Map<u16, u8>,
) {
    match operand {
        Operand::Addr(addr) => {
            let result = mem[addr].wrapping_add(1);
            (
                Registers { status_reg: spec_set_zn(regs.status_reg, result), ..regs },
                mem.insert(addr, result),
            )
        },
        _ => (regs, mem),
    }
}

/// DEC: the byte at the effective address is decremented (wrapping) in
/// place; Z and N track the new byte.
pub open spec fn spec_dec(operand: Operand, regs: Registers, mem: Map<u16, u8>) -> (
    Registers,
    Map<u16, u8>,
) {
    match operand {
        Operand::Addr(addr) => {
            let result = mem[addr].wrapping_sub(1);
            (
                Registers { status_reg: spec_set_zn(regs.status_reg, result), ..regs },
                mem.insert(addr, result),
            )
        },
        _ => (regs, mem),
    }
}

/// The byte a shift or rotate operates on: the accumulator, or the byte at
/// the effective address.
pub open spec fn spec_shift_target(operand: Operand, regs: Registers, mem: Map<u16, u8>) -> u8 {
    match operand {
        Operand::Accumulator => regs.accumulator,
        Operand::Addr(addr) => mem[addr],
        _ => 0,
    }
}

/// Where a shift or rotate writes its result: back to the accumulator, or
/// back to the effective address.
pub open spec fn spec_shift_store(
    operand: Operand,
    regs: Registers,
    mem: Map<u16, u8>,
    result: u8,
) -> (Registers, Map<u16, u8>) {
    match operand {
        Operand::Accumulator => (Registers { accumulator: result, ..regs }, mem),
        Operand::Addr(addr) => (regs, mem.insert(addr, result)),
        _ => (regs, mem),
    }
}

/// ASL: shift left one bit; bit 7 moves into C; Z and N track the result.
pub open spec fn spec_asl(operand: Operand, regs: Registers, mem: Map<u16, u8>) -> (
    Registers,
    Map<u16, u8>,
) {
    let value = spec_shift_target(operand, regs, mem);
    let result = ((value * 2) % 256) as u8;
    let status = StatusRegister {
        carry: value & 0x80 != 0,
        zero: result == 0,
        negative: result & 0x80 != 0,
        ..regs.status_reg
    };
    spec_shift_store(operand, Registers { status_reg: status, ..regs }, mem, result)
}

/// LSR: shift right one bit; bit 0 moves into C; Z tracks the result and N
/// is always clear.
pub open spec fn spec_lsr(operand: Operand, regs: Registers, mem: Map<u16, u8>) -> (
    Registers,
    Map<u16, u8>,
) {
    let value = spec_shift_target(operand, regs, mem);
    let result = value / 2;
    let status = StatusRegister {
        carry: value & 0x01 != 0,
        zero: result == 0,
        negative: result & 0x80 != 0,
        ..regs.status_reg
    };
    spec_shift_store(operand, Registers { status_reg: status, ..regs }, mem, result)
}

/// ROL: rotate left through carry; the old carry enters bit 0 and bit 7
/// moves into C; Z and N track the result.
pub open spec fn spec_rol(operand: Operand, regs: Registers, mem: Map<u16, u8>) -> (
    Registers,
    Map<u16, u8>,
) {
    let value = spec_shift_target(operand, regs, mem);
    let result = ((value * 2) % 256 + (if regs.status_reg.carry {
        1int
    } else {
        0int
    })) as u8;
    let status = StatusRegister {
        carry: value & 0x80 != 0,
        zero: result == 0,
        negative: result & 0x80 != 0,
        ..regs.status_reg
    };
    spec_shift_store(operand, Registers { status_reg: status, ..regs }, mem, result)
}

/// ROR: rotate right through carry; the old carry enters bit 7 and bit 0
/// moves into C; Z and N track the result.
pub open spec fn spec_ror(operand: Operand, regs: Registers, mem: Map<u16, u8>) -> (
    Registers,
    Map<u16, u8>,
) {
    let value = spec_shift_target(operand, regs, mem);
    let result = (value / 2 + (if regs.status_reg.carry {
        0x80int
    } else {
        0int
    })) as u8;
    let status = StatusRegister {
        carry: value & 0x01 != 0,
        zero: result == 0,
        negative: result & 0x80 != 0,
        ..regs.status_reg
    };
    spec_shift_store(operand, Registers { status_reg: status, ..regs }, mem, result)
}

/// STA/STX/STY: the register byte is written at the effective address.
pub open spec fn spec_store(operand: Operand, mem: Map<u16, u8>, value: u8) -> Map<u16, u8> {
    match operand {
        Operand::Addr(addr) => mem.insert(addr, value),
        _ => mem,
    }
}

/// Pushing a 16-bit word: high byte first, then low byte, so that popping
/// restores it low byte first.
pub open spec fn spec_push_pc(pointer: u8, mem: Map<u16, u8>, pc: u16) -> (u8, Map<u16, u8>) {
    let (p1, m1) = spec_push(pointer, mem, (pc / 256) as u8);
    spec_push(p1, m1, (pc % 256) as u8)
}

/// Popping a 16-bit word: low byte first, then high byte.
pub open spec fn spec_pop_pc(pointer: u8, mem: Map<u16, u8>) -> (u8, u16) {
    let (p1, lo) = spec_pop(pointer, mem);
    let (p2, hi) = spec_pop(p1, mem);
    (p2, (hi * 256 + lo) as u16)
}

/// The register file and bus contents after executing one decoded
/// instruction, given the register file after operand decode (so the
/// program counter already points past the instruction).
pub open spec fn spec_process(
    i: Instruction,
    operand: Operand,
    regs: Registers,
    mem: Map<u16, u8>,
) -> (Registers, Map<u16, u8>) {
    match i {
        Instruction::And => (spec_and(operand, regs, mem), mem),
        Instruction::Ora => (spec_ora(operand, regs, mem), mem),
        Instruction::Eor => (spec_eor(operand, regs, mem), mem),
        Instruction::Cmp => (spec_compare(operand, regs, mem, regs.accumulator), mem),
        Instruction::Cpx => (spec_compare(operand, regs, mem, regs.x_index), mem),
        Instruction::Cpy => (spec_compare(operand, regs, mem, regs.y_index), mem),
        Instruction::Nop => (regs, mem),
        Instruction::Bit => (spec_bit(operand, regs, mem), mem),
        Instruction::Clc => (
            Registers { status_reg: StatusRegister { carry: false, ..regs.status_reg }, ..regs },
            mem,
        ),
        Instruction::Cld => (
            Registers {
                status_reg: StatusRegister { decimal_mode: false, ..regs.status_reg },
                ..regs
            },
            mem,
        ),
        Instruction::Cli => (
            Registers {
                status_reg: StatusRegister { irq_disable: false, ..regs.status_reg },
                ..regs
            },
            mem,
        ),
        Instruction::Clv => (
            Registers { status_reg: StatusRegister { overflow: false, ..regs.status_reg }, ..regs },
            mem,
        ),
        Instruction::Sec => (
            Registers { status_reg: StatusRegister { carry: true, ..regs.status_reg }, ..regs },
            mem,
        ),
        Instruction::Sed => (
            Registers {
                status_reg: StatusRegister { decimal_mode: true, ..regs.status_reg },
                ..regs
            },
            mem,
        ),
        Instruction::Sei => (
            Registers {
                status_reg: StatusRegister { irq_disable: true, ..regs.status_reg },
                ..regs
            },
            mem,
        ),
        Instruction::Adc => (spec_adc(operand, regs, mem), mem),
        Instruction::Sbc => (spec_sbc(operand, regs, mem), mem),
        Instruction::Inc => spec_inc(operand, regs, mem),
        Instruction::Inx => {
            let result = regs.x_index.wrapping_add(1);
            (
                Registers {
                    x_index: result,
                    status_reg: spec_set_zn(regs.status_reg, result),
                    ..regs
                },
                mem,
            )
        },
        Instruction::Iny => {
            let result = regs.y_index.wrapping_add(1);
            (
                Registers {
                    y_index: result,
                    status_reg: spec_set_zn(regs.status_reg, result),
                    ..regs
                },
                mem,
            )
        },
        Instruction::Dec => spec_dec(operand, regs, mem),
        Instruction::Dex => {
            let result = regs.x_index.wrapping_sub(1);
            (
                Registers {
                    x_index: result,
                    status_reg: spec_set_zn(regs.status_reg, result),
                    ..regs
                },
                mem,
            )
        },
        Instruction::Dey => {
            let result = regs.y_index.wrapping_sub(1);
            (
                Registers {
                    y_index: result,
                    status_reg: spec_set_zn(regs.status_reg, result),
                    ..regs
                },
                mem,
            )
        },
        Instruction::Lsr => spec_lsr(operand, regs, mem),
        Instruction::Asl => spec_asl(operand, regs, mem),
        Instruction::Rol => spec_rol(operand, regs, mem),
        Instruction::Ror => spec_ror(operand, regs, mem),
        Instruction::Jmp => (
            Registers { program_counter: spec_operand_addr(operand), ..regs },
            mem,
        ),
        Instruction::Bcs => if regs.status_reg.carry {
            (Registers { program_counter: spec_operand_addr(operand), ..regs }, mem)
        } else {
            (regs, mem)
        },
        Instruction::Bcc => if !regs.status_reg.carry {
            (Registers { program_counter: spec_operand_addr(operand), ..regs }, mem)
        } else {
            (regs, mem)
        },
        Instruction::Beq => if regs.status_reg.zero {
            (Registers { program_counter: spec_operand_addr(operand), ..regs }, mem)
        } else {
            (regs, mem)
        },
        Instruction::Bne => if !regs.status_reg.zero {
            (Registers { program_counter: spec_operand_addr(operand), ..regs }, mem)
        } else {
            (regs, mem)
        },
        Instruction::Bmi => if regs.status_reg.negative {
            (Registers { program_counter: spec_operand_addr(operand), ..regs }, mem)
        } else {
            (regs, mem)
        },
        Instruction::Bpl => if !regs.status_reg.negative {
            (Registers { program_counter: spec_operand_addr(operand), ..regs }, mem)
        } else {
            (regs, mem)
        },
        Instruction::Bvs => if regs.status_reg.overflow {
            (Registers { program_counter: spec_operand_addr(operand), ..regs }, mem)
        } else {
            (regs, mem)
        },
        Instruction::Bvc => if !regs.status_reg.overflow {
            (Registers { program_counter: spec_operand_addr(operand), ..regs }, mem)
        } else {
            (regs, mem)
        },
        Instruction::Jsr => {
            let ret = regs.program_counter.wrapping_sub(1);
            let (p2, m2) = spec_push_pc(regs.stack.pointer, mem, ret);
            (
                Registers {
                    stack: Stack { pointer: p2 },
                    program_counter: spec_operand_addr(operand),
                    ..regs
                },
                m2,
            )
        },
        Instruction::Rts => {
            let (p2, addr) = spec_pop_pc(regs.stack.pointer, mem);
            (
                Registers {
                    stack: Stack { pointer: p2 },
                    program_counter: addr.wrapping_add(1),
                    ..regs
                },
                mem,
            )
        },
        Instruction::Rti => {
            let (p1, flags) = spec_pop(regs.stack.pointer, mem);
            let (p2, addr) = spec_pop_pc(p1, mem);
            (
                Registers {
                    stack: Stack { pointer: p2 },
                    status_reg: spec_unpack(flags),
                    program_counter: addr,
                    ..regs
                },
                mem,
            )
        },
        Instruction::Brk => {
            let ret = regs.program_counter.wrapping_add(1);
            let (p1, m1) = spec_push_pc(regs.stack.pointer, mem, ret);
            let packed = spec_pack(StatusRegister { brk_command: true, ..regs.status_reg });
            let (p2, m2) = spec_push(p1, m1, packed);
            (
                Registers {
                    stack: Stack { pointer: p2 },
                    status_reg: StatusRegister { irq_disable: true, ..regs.status_reg },
                    program_counter: (m2[0xFFFF] * 256 + m2[0xFFFE]) as u16,
                    ..regs
                },
                m2,
            )
        },
        Instruction::Lda => {
            let value = spec_fetch(operand, mem);
            (
                Registers {
                    accumulator: value,
                    status_reg: spec_set_zn(regs.status_reg, value),
                    ..regs
                },
                mem,
            )
        },
        Instruction::Ldx => {
            let value = spec_fetch(operand, mem);
            (
                Registers {
                    x_index: value,
                    status_reg: spec_set_zn(regs.status_reg, value),
                    ..regs
                },
                mem,
            )
        },
        Instruction::Ldy => {
            let value = spec_fetch(operand, mem);
            (
                Registers {
                    y_index: value,
                    status_reg: spec_set_zn(regs.status_reg, value),
                    ..regs
                },
                mem,
            )
        },
        Instruction::Sta => (regs, spec_store(operand, mem, regs.accumulator)),
        Instruction::Stx => (regs, spec_store(operand, mem, regs.x_index)),
        Instruction::Sty => (regs, spec_store(operand, mem, regs.y_index)),
        Instruction::Tax => {
            let value = regs.accumulator;
            (
                Registers {
                    x_index: value,
                    status_reg: spec_set_zn(regs.status_reg, value),
                    ..regs
                },
                mem,
            )
        },
        Instruction::Txa => {
            let value = regs.x_index;
            (
                Registers {
                    accumulator: value,
                    status_reg: spec_set_zn(regs.status_reg, value),
                    ..regs
                },
                mem,
            )
        },
        Instruction::Tay => {
            let value = regs.accumulator;
            (
                Registers {
                    y_index: value,
                    status_reg: spec_set_zn(regs.status_reg, value),
                    ..regs
                },
                mem,
            )
        },
        Instruction::Tya => {
            let value = regs.y_index;
            (
                Registers {
                    accumulator: value,
                    status_reg: spec_set_zn(regs.status_reg, value),
                    ..regs
                },
                mem,
            )
        },
        Instruction::Txs => (Registers { stack: Stack { pointer: regs.x_index }, ..regs }, mem),
        Instruction::Tsx => {
            let value = regs.stack.pointer;
            (
                Registers {
                    x_index: value,
                    status_reg: spec_set_zn(regs.status_reg, value),
                    ..regs
                },
                mem,
            )
        },
        Instruction::Pha => {
            let (p2, m2) = spec_push(regs.stack.pointer, mem, regs.accumulator);
            (Registers { stack: Stack { pointer: p2 }, ..regs }, m2)
        },
        Instruction::Php => {
            let (p2, m2) = spec_push(regs.stack.pointer, mem, spec_pack(regs.status_reg));
            (Registers { stack: Stack { pointer: p2 }, ..regs }, m2)
        },
        Instruction::Pla => {
            let (p2, value) = spec_pop(regs.stack.pointer, mem);
            (
                Registers {
                    stack: Stack { pointer: p2 },
                    accumulator: value,
                    status_reg: spec_set_zn(regs.status_reg, value),
                    ..regs
                },
                mem,
            )
        },
        Instruction::Plp => {
            let (p2, value) = spec_pop(regs.stack.pointer, mem);
            (
                Registers {
                    stack: Stack { pointer: p2 },
                    status_reg: spec_unpack(value),
                    ..regs
                },
                mem,
            )
        },
    }
}

/// The single result byte whose value the Z and N flags track after the
/// instruction: the loaded or computed byte for loads, logical and
/// arithmetic operations, increments, decrements, shifts, rotates,
/// register transfers and PLA, and the wrapping difference for compares.
/// Instructions that set the flags some other way (BIT copies N from the
/// operand; PLP and RTI overwrite all flags from a popped byte) or leave
/// them alone have no tracked result.
pub open spec fn spec_zn_result(
    i: Instruction,
    operand: Operand,
    regs: Registers,
    mem: Map<u16, u8>,
) -> Option<u8> {
    match i {
        Instruction::And => Some(regs.accumulator & spec_fetch(operand, mem)),
        Instruction::Ora => Some(regs.accumulator | spec_fetch(operand, mem)),
        Instruction::Eor => Some(regs.accumulator ^ spec_fetch(operand, mem)),
        Instruction::Cmp => Some(regs.accumulator.wrapping_sub(spec_fetch(operand, mem))),
        Instruction::Cpx => Some(regs.x_index.wrapping_sub(spec_fetch(operand, mem))),
        Instruction::Cpy => Some(regs.y_index.wrapping_sub(spec_fetch(operand, mem))),
        Instruction::Adc => Some(spec_adc(operand, regs, mem).accumulator),
        Instruction::Sbc => Some(spec_sbc(operand, regs, mem).accumulator),
        Instruction::Inc => if operand is Addr {
            Some(mem[spec_operand_addr(operand)].wrapping_add(1))
        } else {
            Option::None
        },
        Instruction::Dec => if operand is Addr {
            Some(mem[spec_operand_addr(operand)].wrapping_sub(1))
        } else {
            Option::None
        },
        Instruction::Inx => Some(regs.x_index.wrapping_add(1)),
        Instruction::Iny => Some(regs.y_index.wrapping_add(1)),
        Instruction::Dex => Some(regs.x_index.wrapping_sub(1)),
        Instruction::Dey => Some(regs.y_index.wrapping_sub(1)),
        Instruction::Asl => Some(((spec_shift_target(operand, regs, mem) * 2) % 256) as u8),
        Instruction::Lsr => Some(spec_shift_target(operand, regs, mem) / 2),
        Instruction::Rol => Some(
            ((spec_shift_target(operand, regs, mem) * 2) % 256 + (if regs.status_reg.carry {
                1int
            } else {
                0int
            })) as u8,
        ),
        Instruction::Ror => Some(
            (spec_shift_target(operand, regs, mem) / 2 + (if regs.status_reg.carry {
                0x80int
            } else {
                0int
            })) as u8,
        ),
        Instruction::Lda | Instruction::Ldx | Instruction::Ldy => Some(spec_fetch(operand, mem)),
        Instruction::Pla => Some(spec_pop(regs.stack.pointer, mem).1),
        Instruction::Tax | Instruction::Tay => Some(regs.accumulator),
        Instruction::Txa => Some(regs.x_index),
        Instruction::Tya => Some(regs.y_index),
        Instruction::Tsx => Some(regs.stack.pointer),
        _ => Option::None,
    }
}

/// After any instruction with a tracked result, the Z flag holds exactly
/// when the result byte is zero and the N flag holds exactly when bit 7 of
/// the result byte is set.
pub proof fn lemma_zero_negative_flags(
    i: Instruction,
    operand: Operand,
    regs: Registers,
    mem: Map<u16, u8>,
)
    requires
        spec_zn_result(i, operand, regs, mem) is Some,
    ensures
        ({
            let result = spec_zn_result(i, operand, regs, mem).unwrap();
            let after = spec_process(i, operand, regs, mem).0;
            after.status_reg.zero == (result == 0) && after.status_reg.negative == (result & 0x80
                != 0)
        }),
{
    // Case-split on the instruction so each arm of `spec_process` is
    // examined against its tracked result separately.
    match i {
        Instruction::And => {},
        Instruction::Ora => {},
        Instruction::Eor => {},
        Instruction::Cmp => {},
        Instruction::Cpx => {},
        Instruction::Cpy => {},
        Instruction::Adc => {},
        Instruction::Sbc => {},
        Instruction::Inc => {},
        Instruction::Dec => {},
        Instruction::Inx => {},
        Instruction::Iny => {},
        Instruction::Dex => {},
        Instruction::Dey => {},
        Instruction::Asl => {},
        Instruction::Lsr => {},
        Instruction::Rol => {},
        Instruction::Ror => {},
        Instruction::Lda => {},
        Instruction::Ldx => {},
        Instruction::Ldy => {},
        Instruction::Pla => {},
        Instruction::Tax => {},
        Instruction::Tay => {},
        Instruction::Txa => {},
        Instruction::Tya => {},
        Instruction::Tsx => {},
        _ => {},
    }
}

/// The value an instruction operates on, fetched through the bus.
fn fetch_operand_value<T: Bus>(operand: Operand, bus: &T) -> (value: u8)
    requires
        operand is Value || operand is Addr,
    ensures
        value == spec_fetch(operand, bus.mem()),
{
    match operand {
        Operand::Value(value) => value,
        Operand::Addr(addr) => bus.read(addr),
        _ => unreached(),
    }
}

impl Instruction {
    /// Executes this instruction on the decoded operand, mutating the
    /// register file and the bus exactly as `spec_process` describes.
    ///
    /// Handing an instruction an operand variant it does not accept, or
    /// executing ADC/SBC in decimal mode (which this core does not
    /// implement), is a programming error against the opcode table and is
    /// excluded by precondition.
    #[verifier::rlimit(80)]
    pub fn process<T: Bus>(&self, operand: Operand, bus: &mut T, regs: &mut Registers)
        requires
            spec_accepts(*self, operand),
            (*self is Adc || *self is Sbc) ==> !old(regs).status_reg.decimal_mode,
        ensures
            (*final(regs), final(bus).mem()) == spec_process(
                *self,
                operand,
                *old(regs),
                old(bus).mem(),
            ),
    {
        match self {
            // Logical operations
            Instruction::And => self.and(operand, bus, regs),
            Instruction::Ora => self.or_accumulator(operand, bus, regs),
            Instruction::Eor => self.exclusive_or(operand, bus, regs),
            // Comparison operations
            Instruction::Cmp => {
                let reg = regs.accumulator;
                self.compare(operand, bus, regs, reg);
            },
            Instruction::Cpx => {
                let reg = regs.x_index;
                self.compare(operand, bus, regs, reg);
            },
            Instruction::Cpy => {
                let reg = regs.y_index;
                self.compare(operand, bus, regs, reg);
            },
            Instruction::Nop => {},
            // Bit manipulation operations
            Instruction::Bit => self.bit(operand, bus, regs),
            Instruction::Clc => {
                regs.status_reg.carry = false;
            },
            Instruction::Cld => {
                regs.status_reg.decimal_mode = false;
            },
            Instruction::Cli => {
                regs.status_reg.irq_disable = false;
            },
            Instruction::Clv => {
                regs.status_reg.overflow = false;
            },
            Instruction::Sec => {
                regs.status_reg.carry = true;
            },
            Instruction::Sed => {
                regs.status_reg.decimal_mode = true;
            },
            Instruction::Sei => {
                regs.status_reg.irq_disable = true;
            },
            // Arithmetic operations
            Instruction::Adc => self.add_with_carry(operand, bus, regs),
            Instruction::Sbc => self.subtract_with_carry(operand, bus, regs),
            // Increment/Decrement operations
            Instruction::Inc => self.increment_memory(operand, bus, regs),
            Instruction::Inx => self.increment_register(&mut regs.status_reg, &mut regs.x_index),
            Instruction::Iny => self.increment_register(&mut regs.status_reg, &mut regs.y_index),
            Instruction::Dec => self.decrement_memory(operand, bus, regs),
            Instruction::Dex => self.decrement_register(&mut regs.status_reg, &mut regs.x_index),
            Instruction::Dey => self.decrement_register(&mut regs.status_reg, &mut regs.y_index),
            // Data shifting instructions
            Instruction::Lsr => self.logical_shift_right(operand, bus, regs),
            Instruction::Asl => self.arithmetic_shift_left(operand, bus, regs),
            Instruction::Rol => self.rotate_left(operand, bus, regs),
            Instruction::Ror => self.rotate_right(operand, bus, regs),
            // Jump instructions
            Instruction::Jmp => self.jump(operand, regs),
            // Branch instructions
            Instruction::Bcs => {
                if regs.status_reg.carry {
                    self.jump(operand, regs);
                }
            },
            Instruction::Bcc => {
                if !regs.status_reg.carry {
                    self.jump(operand, regs);
                }
            },
            Instruction::Beq => {
                if regs.status_reg.zero {
                    self.jump(operand, regs);
                }
            },
            Instruction::Bne => {
                if !regs.status_reg.zero {
                    self.jump(operand, regs);
                }
            },
            Instruction::Bmi => {
                if regs.status_reg.negative {
                    self.jump(operand, regs);
                }
            },
            Instruction::Bpl => {
                if !regs.status_reg.negative {
                    self.jump(operand, regs);
                }
            },
            Instruction::Bvs => {
                if regs.status_reg.overflow {
                    self.jump(operand, regs);
                }
            },
            Instruction::Bvc => {
                if !regs.status_reg.overflow {
                    self.jump(operand, regs);
                }
            },
            // Subroutine instructions
            Instruction::Jsr => {
                let ret = regs.program_counter.wrapping_sub(1);
                self.push_pc(ret, &mut regs.stack, bus);
                self.jump(operand, regs);
            },
            Instruction::Rts => {
                let addr = self.pop_pc(&mut regs.stack, bus);
                self.jump(Operand::Addr(addr.wrapping_add(1)), regs);
            },
            // Interrupt instructions
            Instruction::Rti => {
                let flags = regs.stack.pop(bus);
                regs.status_reg.set(flags);
                let addr = self.pop_pc(&mut regs.stack, bus);
                self.jump(Operand::Addr(addr), regs);
            },
            Instruction::Brk => {
                let ret = regs.program_counter.wrapping_add(1);
                self.push_pc(ret, &mut regs.stack, bus);
                let mut pushed = regs.status_reg;
                pushed.brk_command = true;
                let packed = pushed.get();
                regs.stack.push(packed, bus);
                regs.status_reg.irq_disable = true;
                let lo = bus.read(0xFFFE);
                let hi = bus.read(0xFFFF);
                regs.program_counter = (hi as u16) * 256 + (lo as u16);
            },
            // Memory transfer operations
            Instruction::Lda => self.load_register(
                operand,
                bus,
                &mut regs.status_reg,
                &mut regs.accumulator,
            ),
            Instruction::Ldx => self.load_register(
                operand,
                bus,
                &mut regs.status_reg,
                &mut regs.x_index,
            ),
            Instruction::Ldy => self.load_register(
                operand,
                bus,
                &mut regs.status_reg,
                &mut regs.y_index,
            ),
            Instruction::Sta => {
                let value = regs.accumulator;
                self.store_register(operand, bus, value);
            },
            Instruction::Stx => {
                let value = regs.x_index;
                self.store_register(operand, bus, value);
            },
            Instruction::Sty => {
                let value = regs.y_index;
                self.store_register(operand, bus, value);
            },
            // Register data transfer operations
            Instruction::Tax => {
                let value = regs.accumulator;
                regs.x_index = value;
                regs.status_reg.update_zn(value);
            },
            Instruction::Txa => {
                let value = regs.x_index;
                regs.accumulator = value;
                regs.status_reg.update_zn(value);
            },
            Instruction::Tay => {
                let value = regs.accumulator;
                regs.y_index = value;
                regs.status_reg.update_zn(value);
            },
            Instruction::Tya => {
                let value = regs.y_index;
                regs.accumulator = value;
                regs.status_reg.update_zn(value);
            },
            Instruction::Txs => {
                let value = regs.x_index;
                regs.stack.set(value);
            },
            Instruction::Tsx => {
                let value = regs.stack.get();
                regs.x_index = value;
                regs.status_reg.update_zn(value);
            },
            // Stack operations
            Instruction::Pha => {
                let value = regs.accumulator;
                regs.stack.push(value, bus);
            },
            Instruction::Php => {
                let value = regs.status_reg.get();
                regs.stack.push(value, bus);
            },
            Instruction::Pla => {
                let value = regs.stack.pop(bus);
                regs.accumulator = value;
                regs.status_reg.update_zn(value);
            },
            Instruction::Plp => {
                let value = regs.stack.pop(bus);
                regs.status_reg.set(value);
            },
        }
    }

    /// Pushes a 16-bit word, high byte then low byte.
    fn push_pc<T: Bus>(&self, pc: u16, stack: &mut Stack, bus: &mut T)
        ensures
            (final(stack).pointer, final(bus).mem()) == spec_push_pc(
                old(stack).pointer,
                old(bus).mem(),
                pc,
            ),
    {
        let hi = (pc / 256) as u8;
        stack.push(hi, bus);
        let lo = (pc % 256) as u8;
        stack.push(lo, bus);
    }

    /// Pops a 16-bit word, low byte then high byte.
    fn pop_pc<T: Bus>(&self, stack: &mut Stack, bus: &T) -> (pc: u16)
        ensures
            (final(stack).pointer, pc) == spec_pop_pc(old(stack).pointer, bus.mem()),
    {
        let lo = stack.pop(bus) as u16;
        let hi = stack.pop(bus) as u16;
        hi * 256 + lo
    }

    /// AND into the accumulator.
    fn and<T: Bus>(&self, operand: Operand, bus: &mut T, regs: &mut Registers)
        requires
            operand is Value || operand is Addr,
        ensures
            *final(regs) == spec_and(operand, *old(regs), old(bus).mem()),
            *final(bus) == *old(bus),
    {
        let value = fetch_operand_value(operand, bus);
        let result = regs.accumulator & value;
        regs.accumulator = result;
        regs.status_reg.update_zn(result);
    }

    /// OR into the accumulator.
    fn or_accumulator<T: Bus>(&self, operand: Operand, bus: &mut T, regs: &mut Registers)
        requires
            operand is Value || operand is Addr,
        ensures
            *final(regs) == spec_ora(operand, *old(regs), old(bus).mem()),
            *final(bus) == *old(bus),
    {
        let value = fetch_operand_value(operand, bus);
        let result = regs.accumulator | value;
        regs.accumulator = result;
        regs.status_reg.update_zn(result);
    }

    /// XOR into the accumulator.
    fn exclusive_or<T: Bus>(&self, operand: Operand, bus: &mut T, regs: &mut Registers)
        requires
            operand is Value || operand is Addr,
        ensures
            *final(regs) == spec_eor(operand, *old(regs), old(bus).mem()),
            *final(bus) == *old(bus),
    {
        let value = fetch_operand_value(operand, bus);
        let result = regs.accumulator ^ value;
        regs.accumulator = result;
        regs.status_reg.update_zn(result);
    }

    /// Compares a register byte against the operand value, setting C, Z
    /// and N.
    fn compare<T: Bus>(&self, operand: Operand, bus: &mut T, regs: &mut Registers, reg: u8)
        requires
            operand is Value || operand is Addr,
        ensures
            *final(regs) == spec_compare(operand, *old(regs), old(bus).mem(), reg),
            *final(bus) == *old(bus),
    {
        let value = fetch_operand_value(operand, bus);
        let diff = reg.wrapping_sub(value);
        regs.status_reg.carry = reg >= value;
        regs.status_reg.zero = reg == value;
        regs.status_reg.negative = (diff & 0x80) != 0;
    }

    /// BIT: tests accumulator bits against the operand value.
    fn bit<T: Bus>(&self, operand: Operand, bus: &mut T, regs: &mut Registers)
        requires
            operand is Value || operand is Addr,
        ensures
            *final(regs) == spec_bit(operand, *old(regs), old(bus).mem()),
            *final(bus) == *old(bus),
    {
        let value = fetch_operand_value(operand, bus);
        regs.status_reg.negative = (value & 0x80) != 0;
        regs.status_reg.overflow = (value & 0x40) != 0;
        regs.status_reg.zero = (value & regs.accumulator) == 0;
    }

    /// ADC: binary add-with-carry into the accumulator.
    fn add_with_carry<T: Bus>(&self, operand: Operand, bus: &mut T, regs: &mut Registers)
        requires
            operand is Value || operand is Addr,
            !old(regs).status_reg.decimal_mode,
        ensures
            *final(regs) == spec_adc(operand, *old(regs), old(bus).mem()),
            *final(bus) == *old(bus),
    {
        let value = fetch_operand_value(operand, bus);
        self.add_value_with_carry(value, regs);
    }

    /// SBC: add-with-carry of the one's complement of the value.
    fn subtract_with_carry<T: Bus>(&self, operand: Operand, bus: &mut T, regs: &mut Registers)
        requires
            operand is Value || operand is Addr,
            !old(regs).status_reg.decimal_mode,
        ensures
            *final(regs) == spec_sbc(operand, *old(regs), old(bus).mem()),
            *final(bus) == *old(bus),
    {
        let value = fetch_operand_value(operand, bus);
        self.add_value_with_carry(value ^ 0xFF, regs);
    }

    /// The shared add-with-carry core: sums the accumulator, the value and
    /// the carry, and sets C, V, Z and N.
    fn add_value_with_carry(&self, value: u8, regs: &mut Registers)
        ensures
            *final(regs) == spec_adc_with(*old(regs), value),
    {
        let carry_in: u16 = if regs.status_reg.carry {
            1
        } else {
            0
        };
        let sum: u16 = regs.accumulator as u16 + value as u16 + carry_in;
        let result: u8 = (sum % 256) as u8;
        regs.status_reg.carry = sum > 0xFF;
        regs.status_reg.overflow = (((regs.accumulator ^ value) ^ 0xFF) & (regs.accumulator
            ^ result) & 0x80) != 0;
        regs.accumulator = result;
        regs.status_reg.zero = result == 0;
        regs.status_reg.negative = (result & 0x80) != 0;
    }

    /// INC: read-modify-write increment of the byte at the address.
    fn increment_memory<T: Bus>(&self, operand: Operand, bus: &mut T, regs: &mut Registers)
        requires
            operand is Addr,
        ensures
            (*final(regs), final(bus).mem()) == spec_inc(operand, *old(regs), old(bus).mem()),
    {
        match operand {
            Operand::Addr(addr) => {
                let value = bus.read(addr).wrapping_add(1);
                bus.write(addr, value);
                regs.status_reg.update_zn(value);
            },
            _ => unreached(),
        }
    }

    /// INX/INY: wrapping increment of a register, setting Z and N.
    fn increment_register(&self, status_reg: &mut StatusRegister, reg: &mut u8)
        ensures
            *final(reg) == old(reg).wrapping_add(1),
            *final(status_reg) == spec_set_zn(*old(status_reg), old(reg).wrapping_add(1)),
    {
        *reg = reg.wrapping_add(1);
        status_reg.update_zn(*reg);
    }

    /// DEC: read-modify-write decrement of the byte at the address.
    fn decrement_memory<T: Bus>(&self, operand: Operand, bus: &mut T, regs: &mut Registers)
        requires
            operand is Addr,
        ensures
            (*final(regs), final(bus).mem()) == spec_dec(operand, *old(regs), old(bus).mem()),
    {
        match operand {
            Operand::Addr(addr) => {
                let value = bus.read(addr).wrapping_sub(1);
                bus.write(addr, value);
                regs.status_reg.update_zn(value);
            },
            _ => unreached(),
        }
    }

    /// DEX/DEY: wrapping decrement of a register, setting Z and N.
    fn decrement_register(&self, status_reg: &mut StatusRegister, reg: &mut u8)
        ensures
            *final(reg) == old(reg).wrapping_sub(1),
            *final(status_reg) == spec_set_zn(*old(status_reg), old(reg).wrapping_sub(1)),
    {
        *reg = reg.wrapping_sub(1);
        status_reg.update_zn(*reg);
    }

    /// LSR on the accumulator or a memory byte.
    fn logical_shift_right<T: Bus>(&self, operand: Operand, bus: &mut T, regs: &mut Registers)
        requires
            operand is Accumulator || operand is Addr,
        ensures
            (*final(regs), final(bus).mem()) == spec_lsr(operand, *old(regs), old(bus).mem()),
    {
        match operand {
            Operand::Addr(addr) => {
                let value = bus.read(addr);
                let result = value / 2;
                regs.status_reg.carry = (value & 0x01) != 0;
                regs.status_reg.update_zn(result);
                bus.write(addr, result);
            },
            Operand::Accumulator => {
                let value = regs.accumulator;
                let result = value / 2;
                regs.status_reg.carry = (value & 0x01) != 0;
                regs.status_reg.update_zn(result);
                regs.accumulator = result;
            },
            _ => unreached(),
        }
    }

    /// ASL on the accumulator or a memory byte.
    fn arithmetic_shift_left<T: Bus>(&self, operand: Operand, bus: &mut T, regs: &mut Registers)
        requires
            operand is Accumulator || operand is Addr,
        ensures
            (*final(regs), final(bus).mem()) == spec_asl(operand, *old(regs), old(bus).mem()),
    {
        match operand {
            Operand::Addr(addr) => {
                let value = bus.read(addr);
                let result = ((value as u16 * 2) % 256) as u8;
                regs.status_reg.carry = (value & 0x80) != 0;
                regs.status_reg.update_zn(result);
                bus.write(addr, result);
            },
            Operand::Accumulator => {
                let value = regs.accumulator;
                let result = ((value as u16 * 2) % 256) as u8;
                regs.status_reg.carry = (value & 0x80) != 0;
                regs.status_reg.update_zn(result);
                regs.accumulator = result;
            },
            _ => unreached(),
        }
    }

    /// ROL on the accumulator or a memory byte.
    fn rotate_left<T: Bus>(&self, operand: Operand, bus: &mut T, regs: &mut Registers)
        requires
            operand is Accumulator || operand is Addr,
        ensures
            (*final(regs), final(bus).mem()) == spec_rol(operand, *old(regs), old(bus).mem()),
    {
        let carry_in: u8 = if regs.status_reg.carry {
            1
        } else {
            0
        };
        match operand {
            Operand::Addr(addr) => {
                let value = bus.read(addr);
                let result = ((value as u16 * 2) % 256) as u8 + carry_in;
                regs.status_reg.carry = (value & 0x80) != 0;
                regs.status_reg.update_zn(result);
                bus.write(addr, result);
            },
            Operand::Accumulator => {
                let value = regs.accumulator;
                let result = ((value as u16 * 2) % 256) as u8 + carry_in;
                regs.status_reg.carry = (value & 0x80) != 0;
                regs.status_reg.update_zn(result);
                regs.accumulator = result;
            },
            _ => unreached(),
        }
    }

    /// ROR on the accumulator or a memory byte.
    fn rotate_right<T: Bus>(&self, operand: Operand, bus: &mut T, regs: &mut Registers)
        requires
            operand is Accumulator || operand is Addr,
        ensures
            (*final(regs), final(bus).mem()) == spec_ror(operand, *old(regs), old(bus).mem()),
    {
        let carry_in: u8 = if regs.status_reg.carry {
            0x80
        } else {
            0
        };
        match operand {
            Operand::Addr(addr) => {
                let value = bus.read(addr);
                let result = value / 2 + carry_in;
                regs.status_reg.carry = (value & 0x01) != 0;
                regs.status_reg.update_zn(result);
                bus.write(addr, result);
            },
            Operand::Accumulator => {
                let value = regs.accumulator;
                let result = value / 2 + carry_in;
                regs.status_reg.carry = (value & 0x01) != 0;
                regs.status_reg.update_zn(result);
                regs.accumulator = result;
            },
            _ => unreached(),
        }
    }

    /// Loads the program counter with the effective address.
    fn jump(&self, operand: Operand, regs: &mut Registers)
        requires
            operand is Addr,
        ensures
            *final(regs) == (Registers {
                program_counter: spec_operand_addr(operand),
                ..*old(regs)
            }),
    {
        match operand {
            Operand::Addr(addr) => {
                regs.program_counter = addr;
            },
            _ => unreached(),
        }
    }

    /// LDA/LDX/LDY: fetches the operand value into a register, setting Z
    /// and N.
    fn load_register<T: Bus>(
        &self,
        operand: Operand,
        bus: &mut T,
        status_reg: &mut StatusRegister,
        reg: &mut u8,
    )
        requires
            operand is Value || operand is Addr,
        ensures
            *final(reg) == spec_fetch(operand, old(bus).mem()),
            *final(status_reg) == spec_set_zn(
                *old(status_reg),
                spec_fetch(operand, old(bus).mem()),
            ),
            *final(bus) == *old(bus),
    {
        let value = fetch_operand_value(operand, bus);
        *reg = value;
        status_reg.update_zn(value);
    }

    /// STA/STX/STY: writes a register byte at the effective address; no
    /// flags change.
    fn store_register<T: Bus>(&self, operand: Operand, bus: &mut T, reg: u8)
        requires
            operand is Addr,
        ensures
            final(bus).mem() == spec_store(operand, old(bus).mem(), reg),
    {
        match operand {
            Operand::Addr(addr) => {
                bus.write(addr, reg);
            },
            _ => unreached(),
        }
    }
}

} // verus!
