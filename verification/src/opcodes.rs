use vstd::prelude::*;

use crate::addressing_modes::AddressingMode;
use crate::instruction::Instruction;

verus! {

/// The fixed 256-entry opcode table of the official MOS 6502 instruction
/// set: each opcode byte maps to its mnemonic and addressing mode, and the
/// undocumented opcodes map to nothing.
pub open spec fn spec_decode(opcode: u8) -> Option<(Instruction, AddressingMode)> {
    match opcode {
        0x00 => Some((Instruction::Brk, AddressingMode::Implied)),
        0x01 => Some((Instruction::Ora, AddressingMode::XIndexedIndirect)),
        0x05 => Some((Instruction::Ora, AddressingMode::Zeropage)),
        0x06 => Some((Instruction::Asl, AddressingMode::Zeropage)),
        0x08 => Some((Instruction::Php, AddressingMode::Implied)),
        0x09 => Some((Instruction::Ora, AddressingMode::Immediate)),
        0x0A => Some((Instruction::Asl, AddressingMode::Accumulator)),
        0x0D => Some((Instruction::Ora, AddressingMode::Absolute)),
        0x0E => Some((Instruction::Asl, AddressingMode::Absolute)),
        0x10 => Some((Instruction::Bpl, AddressingMode::Relative)),
        0x11 => Some((Instruction::Ora, AddressingMode::IndirectYIndexed)),
        0x15 => Some((Instruction::Ora, AddressingMode::ZeropageXIndexed)),
        0x16 => Some((Instruction::Asl, AddressingMode::ZeropageXIndexed)),
        0x18 => Some((Instruction::Clc, AddressingMode::Implied)),
        0x19 => Some((Instruction::Ora, AddressingMode::AbsoluteYIndexed)),
        0x1D => Some((Instruction::Ora, AddressingMode::AbsoluteXIndexed)),
        0x1E => Some((Instruction::Asl, AddressingMode::AbsoluteXIndexed)),
        0x20 => Some((Instruction::Jsr, AddressingMode::Absolute)),
        0x21 => Some((Instruction::And, AddressingMode::XIndexedIndirect)),
        0x24 => Some((Instruction::Bit, AddressingMode::Zeropage)),
        0x25 => Some((Instruction::And, AddressingMode::Zeropage)),
        0x26 => Some((Instruction::Rol, AddressingMode::Zeropage)),
        0x28 => Some((Instruction::Plp, AddressingMode::Implied)),
        0x29 => Some((Instruction::And, AddressingMode::Immediate)),
        0x2A => Some((Instruction::Rol, AddressingMode::Accumulator)),
        0x2C => Some((Instruction::Bit, AddressingMode::Absolute)),
        0x2D => Some((Instruction::And, AddressingMode::Absolute)),
        0x2E => Some((Instruction::Rol, AddressingMode::Absolute)),
        0x30 => Some((Instruction::Bmi, AddressingMode::Relative)),
        0x31 => Some((Instruction::And, AddressingMode::IndirectYIndexed)),
        0x35 => Some((Instruction::And, AddressingMode::ZeropageXIndexed)),
        0x36 => Some((Instruction::Rol, AddressingMode::ZeropageXIndexed)),
        0x38 => Some((Instruction::Sec, AddressingMode::Implied)),
        0x39 => Some((Instruction::And, AddressingMode::AbsoluteYIndexed)),
        0x3D => Some((Instruction::And, AddressingMode::AbsoluteXIndexed)),
        0x3E => Some((Instruction::Rol, AddressingMode::AbsoluteXIndexed)),
        0x40 => Some((Instruction::Rti, AddressingMode::Implied)),
        0x41 => Some((Instruction::Eor, AddressingMode::XIndexedIndirect)),
        0x45 => Some((Instruction::Eor, AddressingMode::Zeropage)),
        0x46 => Some((Instruction::Lsr, AddressingMode::Zeropage)),
        0x48 => Some((Instruction::Pha, AddressingMode::Implied)),
        0x49 => Some((Instruction::Eor, AddressingMode::Immediate)),
        0x4A => Some((Instruction::Lsr, AddressingMode::Accumulator)),
        0x4C => Some((Instruction::Jmp, AddressingMode::Absolute)),
        0x4D => Some((Instruction::Eor, AddressingMode::Absolute)),
        0x4E => Some((Instruction::Lsr, AddressingMode::Absolute)),
        0x50 => Some((Instruction::Bvc, AddressingMode::Relative)),
        0x51 => Some((Instruction::Eor, AddressingMode::IndirectYIndexed)),
        0x55 => Some((Instruction::Eor, AddressingMode::ZeropageXIndexed)),
        0x56 => Some((Instruction::Lsr, AddressingMode::ZeropageXIndexed)),
        0x58 => Some((Instruction::Cli, AddressingMode::Implied)),
        0x59 => Some((Instruction::Eor, AddressingMode::AbsoluteYIndexed)),
        0x5D => Some((Instruction::Eor, AddressingMode::AbsoluteXIndexed)),
        0x5E => Some((Instruction::Lsr, AddressingMode::AbsoluteXIndexed)),
        0x60 => Some((Instruction::Rts, AddressingMode::Implied)),
        0x61 => Some((Instruction::Adc, AddressingMode::XIndexedIndirect)),
        0x65 => Some((Instruction::Adc, AddressingMode::Zeropage)),
        0x66 => Some((Instruction::Ror, AddressingMode::Zeropage)),
        0x68 => Some((Instruction::Pla, AddressingMode::Implied)),
        0x69 => Some((Instruction::Adc, AddressingMode::Immediate)),
        0x6A => Some((Instruction::Ror, AddressingMode::Accumulator)),
        0x6C => Some((Instruction::Jmp, AddressingMode::Indirect)),
        0x6D => Some((Instruction::Adc, AddressingMode::Absolute)),
        0x6E => Some((Instruction::Ror, AddressingMode::Absolute)),
        0x70 => Some((Instruction::Bvs, AddressingMode::Relative)),
        0x71 => Some((Instruction::Adc, AddressingMode::IndirectYIndexed)),
        0x75 => Some((Instruction::Adc, AddressingMode::ZeropageXIndexed)),
        0x76 => Some((Instruction::Ror, AddressingMode::ZeropageXIndexed)),
        0x78 => Some((Instruction::Sei, AddressingMode::Implied)),
        0x79 => Some((Instruction::Adc, AddressingMode::AbsoluteYIndexed)),
        0x7D => Some((Instruction::Adc, AddressingMode::AbsoluteXIndexed)),
        0x7E => Some((Instruction::Ror, AddressingMode::AbsoluteXIndexed)),
        0x81 => Some((Instruction::Sta, AddressingMode::XIndexedIndirect)),
        0x84 => Some((Instruction::Sty, AddressingMode::Zeropage)),
        0x85 => Some((Instruction::Sta, AddressingMode::Zeropage)),
        0x86 => Some((Instruction::Stx, AddressingMode::Zeropage)),
        0x88 => Some((Instruction::Dey, AddressingMode::Implied)),
        0x8A => Some((Instruction::Txa, AddressingMode::Implied)),
        0x8C => Some((Instruction::Sty, AddressingMode::Absolute)),
        0x8D => Some((Instruction::Sta, AddressingMode::Absolute)),
        0x8E => Some((Instruction::Stx, AddressingMode::Absolute)),
        0x90 => Some((Instruction::Bcc, AddressingMode::Relative)),
        0x91 => Some((Instruction::Sta, AddressingMode::IndirectYIndexed)),
        0x94 => Some((Instruction::Sty, AddressingMode::ZeropageXIndexed)),
        0x95 => Some((Instruction::Sta, AddressingMode::ZeropageXIndexed)),
        0x96 => Some((Instruction::Stx, AddressingMode::ZeropageYIndexed)),
        0x98 => Some((Instruction::Tya, AddressingMode::Implied)),
        0x99 => Some((Instruction::Sta, AddressingMode::AbsoluteYIndexed)),
        0x9A => Some((Instruction::Txs, AddressingMode::Implied)),
        0x9D => Some((Instruction::Sta, AddressingMode::AbsoluteXIndexed)),
        0xA0 => Some((Instruction::Ldy, AddressingMode::Immediate)),
        0xA1 => Some((Instruction::Lda, AddressingMode::XIndexedIndirect)),
        0xA2 => Some((Instruction::Ldx, AddressingMode::Immediate)),
        0xA4 => Some((Instruction::Ldy, AddressingMode::Zeropage)),
        0xA5 => Some((Instruction::Lda, AddressingMode::Zeropage)),
        0xA6 => Some((Instruction::Ldx, AddressingMode::Zeropage)),
        0xA8 => Some((Instruction::Tay, AddressingMode::Implied)),
        0xA9 => Some((Instruction::Lda, AddressingMode::Immediate)),
        0xAA => Some((Instruction::Tax, AddressingMode::Implied)),
        0xAC => Some((Instruction::Ldy, AddressingMode::Absolute)),
        0xAD => Some((Instruction::Lda, AddressingMode::Absolute)),
        0xAE => Some((Instruction::Ldx, AddressingMode::Absolute)),
        0xB0 => Some((Instruction::Bcs, AddressingMode::Relative)),
        0xB1 => Some((Instruction::Lda, AddressingMode::IndirectYIndexed)),
        0xB4 => Some((Instruction::Ldy, AddressingMode::ZeropageXIndexed)),
        0xB5 => Some((Instruction::Lda, AddressingMode::ZeropageXIndexed)),
        0xB6 => Some((Instruction::Ldx, AddressingMode::ZeropageYIndexed)),
        0xB8 => Some((Instruction::Clv, AddressingMode::Implied)),
        0xB9 => Some((Instruction::Lda, AddressingMode::AbsoluteYIndexed)),
        0xBA => Some((Instruction::Tsx, AddressingMode::Implied)),
        0xBC => Some((Instruction::Ldy, AddressingMode::AbsoluteXIndexed)),
        0xBD => Some((Instruction::Lda, AddressingMode::AbsoluteXIndexed)),
        0xBE => Some((Instruction::Ldx, AddressingMode::AbsoluteYIndexed)),
        0xC0 => Some((Instruction::Cpy, AddressingMode::Immediate)),
        0xC1 => Some((Instruction::Cmp, AddressingMode::XIndexedIndirect)),
        0xC4 => Some((Instruction::Cpy, AddressingMode::Zeropage)),
        0xC5 => Some((Instruction::Cmp, AddressingMode::Zeropage)),
        0xC6 => Some((Instruction::Dec, AddressingMode::Zeropage)),
        0xC8 => Some((Instruction::Iny, AddressingMode::Implied)),
        0xC9 => Some((Instruction::Cmp, AddressingMode::Immediate)),
        0xCA => Some((Instruction::Dex, AddressingMode::Implied)),
        0xCC => Some((Instruction::Cpy, AddressingMode::Absolute)),
        0xCD => Some((Instruction::Cmp, AddressingMode::Absolute)),
        0xCE => Some((Instruction::Dec, AddressingMode::Absolute)),
        0xD0 => Some((Instruction::Bne, AddressingMode::Relative)),
        0xD1 => Some((Instruction::Cmp, AddressingMode::IndirectYIndexed)),
        0xD5 => Some((Instruction::Cmp, AddressingMode::ZeropageXIndexed)),
        0xD6 => Some((Instruction::Dec, AddressingMode::ZeropageXIndexed)),
        0xD8 => Some((Instruction::Cld, AddressingMode::Implied)),
        0xD9 => Some((Instruction::Cmp, AddressingMode::AbsoluteYIndexed)),
        0xDD => Some((Instruction::Cmp, AddressingMode::AbsoluteXIndexed)),
        0xDE => Some((Instruction::Dec, AddressingMode::AbsoluteXIndexed)),
        0xE0 => Some((Instruction::Cpx, AddressingMode::Immediate)),
        0xE1 => Some((Instruction::Sbc, AddressingMode::XIndexedIndirect)),
        0xE4 => Some((Instruction::Cpx, AddressingMode::Zeropage)),
        0xE5 => Some((Instruction::Sbc, AddressingMode::Zeropage)),
        0xE6 => Some((Instruction::Inc, AddressingMode::Zeropage)),
        0xE8 => Some((Instruction::Inx, AddressingMode::Implied)),
        0xE9 => Some((Instruction::Sbc, AddressingMode::Immediate)),
        0xEA => Some((Instruction::Nop, AddressingMode::Implied)),
        0xEC => Some((Instruction::Cpx, AddressingMode::Absolute)),
        0xED => Some((Instruction::Sbc, AddressingMode::Absolute)),
        0xEE => Some((Instruction::Inc, AddressingMode::Absolute)),
        0xF0 => Some((Instruction::Beq, AddressingMode::Relative)),
        0xF1 => Some((Instruction::Sbc, AddressingMode::IndirectYIndexed)),
        0xF5 => Some((Instruction::Sbc, AddressingMode::ZeropageXIndexed)),
        0xF6 => Some((Instruction::Inc, AddressingMode::ZeropageXIndexed)),
        0xF8 => Some((Instruction::Sed, AddressingMode::Implied)),
        0xF9 => Some((Instruction::Sbc, AddressingMode::AbsoluteYIndexed)),
        0xFD => Some((Instruction::Sbc, AddressingMode::AbsoluteXIndexed)),
        0xFE => Some((Instruction::Inc, AddressingMode::AbsoluteXIndexed)),
        _ => Option::None,
    }
}

/// Looks an opcode byte up in the opcode table.
pub fn decode(opcode: u8) -> (entry: Option<(Instruction, AddressingMode)>)
    ensures
        entry == spec_decode(opcode),
{
    match opcode {
        0x00 => Some((Instruction::Brk, AddressingMode::Implied)),
        0x01 => Some((Instruction::Ora, AddressingMode::XIndexedIndirect)),
        0x05 => Some((Instruction::Ora, AddressingMode::Zeropage)),
        0x06 => Some((Instruction::Asl, AddressingMode::Zeropage)),
        0x08 => Some((Instruction::Php, AddressingMode::Implied)),
        0x09 => Some((Instruction::Ora, AddressingMode::Immediate)),
        0x0A => Some((Instruction::Asl, AddressingMode::Accumulator)),
        0x0D => Some((Instruction::Ora, AddressingMode::Absolute)),
        0x0E => Some((Instruction::Asl, AddressingMode::Absolute)),
        0x10 => Some((Instruction::Bpl, AddressingMode::Relative)),
        0x11 => Some((Instruction::Ora, AddressingMode::IndirectYIndexed)),
        0x15 => Some((Instruction::Ora, AddressingMode::ZeropageXIndexed)),
        0x16 => Some((Instruction::Asl, AddressingMode::ZeropageXIndexed)),
        0x18 => Some((Instruction::Clc, AddressingMode::Implied)),
        0x19 => Some((Instruction::Ora, AddressingMode::AbsoluteYIndexed)),
        0x1D => Some((Instruction::Ora, AddressingMode::AbsoluteXIndexed)),
        0x1E => Some((Instruction::Asl, AddressingMode::AbsoluteXIndexed)),
        0x20 => Some((Instruction::Jsr, AddressingMode::Absolute)),
        0x21 => Some((Instruction::And, AddressingMode::XIndexedIndirect)),
        0x24 => Some((Instruction::Bit, AddressingMode::Zeropage)),
        0x25 => Some((Instruction::And, AddressingMode::Zeropage)),
        0x26 => Some((Instruction::Rol, AddressingMode::Zeropage)),
        0x28 => Some((Instruction::Plp, AddressingMode::Implied)),
        0x29 => Some((Instruction::And, AddressingMode::Immediate)),
        0x2A => Some((Instruction::Rol, AddressingMode::Accumulator)),
        0x2C => Some((Instruction::Bit, AddressingMode::Absolute)),
        0x2D => Some((Instruction::And, AddressingMode::Absolute)),
        0x2E => Some((Instruction::Rol, AddressingMode::Absolute)),
        0x30 => Some((Instruction::Bmi, AddressingMode::Relative)),
        0x31 => Some((Instruction::And, AddressingMode::IndirectYIndexed)),
        0x35 => Some((Instruction::And, AddressingMode::ZeropageXIndexed)),
        0x36 => Some((Instruction::Rol, AddressingMode::ZeropageXIndexed)),
        0x38 => Some((Instruction::Sec, AddressingMode::Implied)),
        0x39 => Some((Instruction::And, AddressingMode::AbsoluteYIndexed)),
        0x3D => Some((Instruction::And, AddressingMode::AbsoluteXIndexed)),
        0x3E => Some((Instruction::Rol, AddressingMode::AbsoluteXIndexed)),
        0x40 => Some((Instruction::Rti, AddressingMode::Implied)),
        0x41 => Some((Instruction::Eor, AddressingMode::XIndexedIndirect)),
        0x45 => Some((Instruction::Eor, AddressingMode::Zeropage)),
        0x46 => Some((Instruction::Lsr, AddressingMode::Zeropage)),
        0x48 => Some((Instruction::Pha, AddressingMode::Implied)),
        0x49 => Some((Instruction::Eor, AddressingMode::Immediate)),
        0x4A => Some((Instruction::Lsr, AddressingMode::Accumulator)),
        0x4C => Some((Instruction::Jmp, AddressingMode::Absolute)),
        0x4D => Some((Instruction::Eor, AddressingMode::Absolute)),
        0x4E => Some((Instruction::Lsr, AddressingMode::Absolute)),
        0x50 => Some((Instruction::Bvc, AddressingMode::Relative)),
        0x51 => Some((Instruction::Eor, AddressingMode::IndirectYIndexed)),
        0x55 => Some((Instruction::Eor, AddressingMode::ZeropageXIndexed)),
        0x56 => Some((Instruction::Lsr, AddressingMode::ZeropageXIndexed)),
        0x58 => Some((Instruction::Cli, AddressingMode::Implied)),
        0x59 => Some((Instruction::Eor, AddressingMode::AbsoluteYIndexed)),
        0x5D => Some((Instruction::Eor, AddressingMode::AbsoluteXIndexed)),
        0x5E => Some((Instruction::Lsr, AddressingMode::AbsoluteXIndexed)),
        0x60 => Some((Instruction::Rts, AddressingMode::Implied)),
        0x61 => Some((Instruction::Adc, AddressingMode::XIndexedIndirect)),
        0x65 => Some((Instruction::Adc, AddressingMode::Zeropage)),
        0x66 => Some((Instruction::Ror, AddressingMode::Zeropage)),
        0x68 => Some((Instruction::Pla, AddressingMode::Implied)),
        0x69 => Some((Instruction::Adc, AddressingMode::Immediate)),
        0x6A => Some((Instruction::Ror, AddressingMode::Accumulator)),
        0x6C => Some((Instruction::Jmp, AddressingMode::Indirect)),
        0x6D => Some((Instruction::Adc, AddressingMode::Absolute)),
        0x6E => Some((Instruction::Ror, AddressingMode::Absolute)),
        0x70 => Some((Instruction::Bvs, AddressingMode::Relative)),
        0x71 => Some((Instruction::Adc, AddressingMode::IndirectYIndexed)),
        0x75 => Some((Instruction::Adc, AddressingMode::ZeropageXIndexed)),
        0x76 => Some((Instruction::Ror, AddressingMode::ZeropageXIndexed)),
        0x78 => Some((Instruction::Sei, AddressingMode::Implied)),
        0x79 => Some((Instruction::Adc, AddressingMode::AbsoluteYIndexed)),
        0x7D => Some((Instruction::Adc, AddressingMode::AbsoluteXIndexed)),
        0x7E => Some((Instruction::Ror, AddressingMode::AbsoluteXIndexed)),
        0x81 => Some((Instruction::Sta, AddressingMode::XIndexedIndirect)),
        0x84 => Some((Instruction::Sty, AddressingMode::Zeropage)),
        0x85 => Some((Instruction::Sta, AddressingMode::Zeropage)),
        0x86 => Some((Instruction::Stx, AddressingMode::Zeropage)),
        0x88 => Some((Instruction::Dey, AddressingMode::Implied)),
        0x8A => Some((Instruction::Txa, AddressingMode::Implied)),
        0x8C => Some((Instruction::Sty, AddressingMode::Absolute)),
        0x8D => Some((Instruction::Sta, AddressingMode::Absolute)),
        0x8E => Some((Instruction::Stx, AddressingMode::Absolute)),
        0x90 => Some((Instruction::Bcc, AddressingMode::Relative)),
        0x91 => Some((Instruction::Sta, AddressingMode::IndirectYIndexed)),
        0x94 => Some((Instruction::Sty, AddressingMode::ZeropageXIndexed)),
        0x95 => Some((Instruction::Sta, AddressingMode::ZeropageXIndexed)),
        0x96 => Some((Instruction::Stx, AddressingMode::ZeropageYIndexed)),
        0x98 => Some((Instruction::Tya, AddressingMode::Implied)),
        0x99 => Some((Instruction::Sta, AddressingMode::AbsoluteYIndexed)),
        0x9A => Some((Instruction::Txs, AddressingMode::Implied)),
        0x9D => Some((Instruction::Sta, AddressingMode::AbsoluteXIndexed)),
        0xA0 => Some((Instruction::Ldy, AddressingMode::Immediate)),
        0xA1 => Some((Instruction::Lda, AddressingMode::XIndexedIndirect)),
        0xA2 => Some((Instruction::Ldx, AddressingMode::Immediate)),
        0xA4 => Some((Instruction::Ldy, AddressingMode::Zeropage)),
        0xA5 => Some((Instruction::Lda, AddressingMode::Zeropage)),
        0xA6 => Some((Instruction::Ldx, AddressingMode::Zeropage)),
        0xA8 => Some((Instruction::Tay, AddressingMode::Implied)),
        0xA9 => Some((Instruction::Lda, AddressingMode::Immediate)),
        0xAA => Some((Instruction::Tax, AddressingMode::Implied)),
        0xAC => Some((Instruction::Ldy, AddressingMode::Absolute)),
        0xAD => Some((Instruction::Lda, AddressingMode::Absolute)),
        0xAE => Some((Instruction::Ldx, AddressingMode::Absolute)),
        0xB0 => Some((Instruction::Bcs, AddressingMode::Relative)),
        0xB1 => Some((Instruction::Lda, AddressingMode::IndirectYIndexed)),
        0xB4 => Some((Instruction::Ldy, AddressingMode::ZeropageXIndexed)),
        0xB5 => Some((Instruction::Lda, AddressingMode::ZeropageXIndexed)),
        0xB6 => Some((Instruction::Ldx, AddressingMode::ZeropageYIndexed)),
        0xB8 => Some((Instruction::Clv, AddressingMode::Implied)),
        0xB9 => Some((Instruction::Lda, AddressingMode::AbsoluteYIndexed)),
        0xBA => Some((Instruction::Tsx, AddressingMode::Implied)),
        0xBC => Some((Instruction::Ldy, AddressingMode::AbsoluteXIndexed)),
        0xBD => Some((Instruction::Lda, AddressingMode::AbsoluteXIndexed)),
        0xBE => Some((Instruction::Ldx, AddressingMode::AbsoluteYIndexed)),
        0xC0 => Some((Instruction::Cpy, AddressingMode::Immediate)),
        0xC1 => Some((Instruction::Cmp, AddressingMode::XIndexedIndirect)),
        0xC4 => Some((Instruction::Cpy, AddressingMode::Zeropage)),
        0xC5 => Some((Instruction::Cmp, AddressingMode::Zeropage)),
        0xC6 => Some((Instruction::Dec, AddressingMode::Zeropage)),
        0xC8 => Some((Instruction::Iny, AddressingMode::Implied)),
        0xC9 => Some((Instruction::Cmp, AddressingMode::Immediate)),
        0xCA => Some((Instruction::Dex, AddressingMode::Implied)),
        0xCC => Some((Instruction::Cpy, AddressingMode::Absolute)),
        0xCD => Some((Instruction::Cmp, AddressingMode::Absolute)),
        0xCE => Some((Instruction::Dec, AddressingMode::Absolute)),
        0xD0 => Some((Instruction::Bne, AddressingMode::Relative)),
        0xD1 => Some((Instruction::Cmp, AddressingMode::IndirectYIndexed)),
        0xD5 => Some((Instruction::Cmp, AddressingMode::ZeropageXIndexed)),
        0xD6 => Some((Instruction::Dec, AddressingMode::ZeropageXIndexed)),
        0xD8 => Some((Instruction::Cld, AddressingMode::Implied)),
        0xD9 => Some((Instruction::Cmp, AddressingMode::AbsoluteYIndexed)),
        0xDD => Some((Instruction::Cmp, AddressingMode::AbsoluteXIndexed)),
        0xDE => Some((Instruction::Dec, AddressingMode::AbsoluteXIndexed)),
        0xE0 => Some((Instruction::Cpx, AddressingMode::Immediate)),
        0xE1 => Some((Instruction::Sbc, AddressingMode::XIndexedIndirect)),
        0xE4 => Some((Instruction::Cpx, AddressingMode::Zeropage)),
        0xE5 => Some((Instruction::Sbc, AddressingMode::Zeropage)),
        0xE6 => Some((Instruction::Inc, AddressingMode::Zeropage)),
        0xE8 => Some((Instruction::Inx, AddressingMode::Implied)),
        0xE9 => Some((Instruction::Sbc, AddressingMode::Immediate)),
        0xEA => Some((Instruction::Nop, AddressingMode::Implied)),
        0xEC => Some((Instruction::Cpx, AddressingMode::Absolute)),
        0xED => Some((Instruction::Sbc, AddressingMode::Absolute)),
        0xEE => Some((Instruction::Inc, AddressingMode::Absolute)),
        0xF0 => Some((Instruction::Beq, AddressingMode::Relative)),
        0xF1 => Some((Instruction::Sbc, AddressingMode::IndirectYIndexed)),
        0xF5 => Some((Instruction::Sbc, AddressingMode::ZeropageXIndexed)),
        0xF6 => Some((Instruction::Inc, AddressingMode::ZeropageXIndexed)),
        0xF8 => Some((Instruction::Sed, AddressingMode::Implied)),
        0xF9 => Some((Instruction::Sbc, AddressingMode::AbsoluteYIndexed)),
        0xFD => Some((Instruction::Sbc, AddressingMode::AbsoluteXIndexed)),
        0xFE => Some((Instruction::Inc, AddressingMode::AbsoluteXIndexed)),
        _ => Option::None,
    }
}

} // verus!
