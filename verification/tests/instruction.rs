use mos6502::addressing_modes::Operand;
use mos6502::bus::Bus;
use mos6502::bus::RamBus;
use mos6502::instruction::Instruction;
use mos6502::registers::Registers;

#[test]
fn adc_test() {
    let mut regs = Registers::new();
    let mut bus = RamBus::new();
    let operand = Operand::Value(130);
    regs.accumulator = 10;

    let adc = Instruction::Adc;
    adc.process(operand, &mut bus, &mut regs);

    assert_eq!(regs.accumulator, 140);
    assert_eq!(regs.status_reg.carry, false);
    assert_eq!(regs.status_reg.negative, true);
    assert_eq!(regs.status_reg.zero, false);

    let operand = Operand::Addr(0x1234u16);
    bus.write(0x1234u16, 240);
    adc.process(operand, &mut bus, &mut regs);

    assert_eq!(regs.accumulator, 124);
    assert_eq!(regs.status_reg.carry, true);
    assert_eq!(regs.status_reg.negative, false);
    assert_eq!(regs.status_reg.zero, false);
}

#[test]
#[should_panic]
fn adc_test_none_argument() {
    let mut regs = Registers::new();
    let mut bus = RamBus::new();
    let operand = Operand::Implied;
    let adc = Instruction::Adc;
    adc.process(operand, &mut bus, &mut regs);
}

#[test]
fn and_test() {
    let mut regs = Registers::new();
    let mut bus = RamBus::new();
    let operand = Operand::Value(0x72);
    regs.accumulator = 0xF0;
    regs.status_reg.negative = true;
    let and = Instruction::And;
    and.process(operand, &mut bus, &mut regs);

    assert_eq!(regs.accumulator, 0x70);
    assert_eq!(regs.status_reg.negative, false);
    assert_eq!(regs.status_reg.zero, false);
}

#[test]
fn asl_test() {
    let mut regs = Registers::new();
    let mut bus = RamBus::new();
    let operand = Operand::Value(0x72);
    regs.accumulator = 0xF0;
    regs.status_reg.negative = true;
    let and = Instruction::And;
    and.process(operand, &mut bus, &mut regs);

    assert_eq!(regs.accumulator, 0x70);
    assert_eq!(regs.status_reg.negative, false);
    assert_eq!(regs.status_reg.zero, false);
}

#[test]
fn adc_signed_overflow_sets_v() {
    let mut regs = Registers::new();
    let mut bus = RamBus::new();
    regs.accumulator = 0x7F;
    Instruction::Adc.process(Operand::Value(0x01), &mut bus, &mut regs);

    assert_eq!(regs.accumulator, 0x80);
    assert_eq!(regs.status_reg.overflow, true);
    assert_eq!(regs.status_reg.negative, true);
    assert_eq!(regs.status_reg.carry, false);
    assert_eq!(regs.status_reg.zero, false);
}

#[test]
fn sbc_borrow_and_overflow() {
    let mut regs = Registers::new();
    let mut bus = RamBus::new();
    regs.accumulator = 0x50;
    regs.status_reg.carry = true;
    Instruction::Sbc.process(Operand::Value(0x10), &mut bus, &mut regs);

    assert_eq!(regs.accumulator, 0x40);
    assert_eq!(regs.status_reg.carry, true);
    assert_eq!(regs.status_reg.overflow, false);
    assert_eq!(regs.status_reg.negative, false);

    // 0x50 - 0xB0 underflows the signed range: the result flips sign.
    let mut regs = Registers::new();
    regs.accumulator = 0x50;
    regs.status_reg.carry = true;
    Instruction::Sbc.process(Operand::Value(0xB0), &mut bus, &mut regs);

    assert_eq!(regs.accumulator, 0xA0);
    assert_eq!(regs.status_reg.carry, false);
    assert_eq!(regs.status_reg.overflow, true);
    assert_eq!(regs.status_reg.negative, true);
}

#[test]
fn cmp_sets_carry_zero_negative() {
    let mut regs = Registers::new();
    let mut bus = RamBus::new();
    regs.accumulator = 0x40;

    Instruction::Cmp.process(Operand::Value(0x30), &mut bus, &mut regs);
    assert_eq!(regs.status_reg.carry, true);
    assert_eq!(regs.status_reg.zero, false);
    assert_eq!(regs.status_reg.negative, false);

    Instruction::Cmp.process(Operand::Value(0x40), &mut bus, &mut regs);
    assert_eq!(regs.status_reg.carry, true);
    assert_eq!(regs.status_reg.zero, true);
    assert_eq!(regs.status_reg.negative, false);

    Instruction::Cmp.process(Operand::Value(0x50), &mut bus, &mut regs);
    assert_eq!(regs.status_reg.carry, false);
    assert_eq!(regs.status_reg.zero, false);
    assert_eq!(regs.status_reg.negative, true);
}

#[test]
fn bit_copies_operand_bits() {
    let mut regs = Registers::new();
    let mut bus = RamBus::new();
    regs.accumulator = 0x0F;
    bus.write(0x0040, 0xC0);
    Instruction::Bit.process(Operand::Addr(0x0040), &mut bus, &mut regs);

    assert_eq!(regs.status_reg.zero, true);
    assert_eq!(regs.status_reg.negative, true);
    assert_eq!(regs.status_reg.overflow, true);
}

#[test]
fn inc_dec_memory_wrap() {
    let mut regs = Registers::new();
    let mut bus = RamBus::new();
    bus.write(0x0010, 0xFF);
    Instruction::Inc.process(Operand::Addr(0x0010), &mut bus, &mut regs);
    assert_eq!(bus.read(0x0010), 0x00);
    assert_eq!(regs.status_reg.zero, true);
    assert_eq!(regs.status_reg.negative, false);

    Instruction::Dec.process(Operand::Addr(0x0010), &mut bus, &mut regs);
    assert_eq!(bus.read(0x0010), 0xFF);
    assert_eq!(regs.status_reg.zero, false);
    assert_eq!(regs.status_reg.negative, true);
}

#[test]
fn inx_dey_wrap_registers() {
    let mut regs = Registers::new();
    let mut bus = RamBus::new();
    regs.x_index = 0xFF;
    Instruction::Inx.process(Operand::Implied, &mut bus, &mut regs);
    assert_eq!(regs.x_index, 0x00);
    assert_eq!(regs.status_reg.zero, true);

    regs.y_index = 0x00;
    Instruction::Dey.process(Operand::Implied, &mut bus, &mut regs);
    assert_eq!(regs.y_index, 0xFF);
    assert_eq!(regs.status_reg.negative, true);
}

#[test]
fn lsr_shifts_bit_into_carry() {
    let mut regs = Registers::new();
    let mut bus = RamBus::new();
    regs.accumulator = 0x01;
    Instruction::Lsr.process(Operand::Accumulator, &mut bus, &mut regs);

    assert_eq!(regs.accumulator, 0x00);
    assert_eq!(regs.status_reg.carry, true);
    assert_eq!(regs.status_reg.zero, true);
    assert_eq!(regs.status_reg.negative, false);
}

#[test]
fn asl_ror_carry_chain() {
    let mut regs = Registers::new();
    let mut bus = RamBus::new();
    regs.accumulator = 0x81;
    regs.status_reg.carry = false;

    Instruction::Asl.process(Operand::Accumulator, &mut bus, &mut regs);
    assert_eq!(regs.accumulator, 0x02);
    assert_eq!(regs.status_reg.carry, true);
    assert_eq!(regs.status_reg.negative, false);

    Instruction::Ror.process(Operand::Accumulator, &mut bus, &mut regs);
    assert_eq!(regs.accumulator, 0x81);
    assert_eq!(regs.status_reg.carry, false);
    assert_eq!(regs.status_reg.negative, true);
}

#[test]
fn rol_shifts_carry_into_bit_zero() {
    let mut regs = Registers::new();
    let mut bus = RamBus::new();
    bus.write(0x0020, 0x80);
    regs.status_reg.carry = true;
    Instruction::Rol.process(Operand::Addr(0x0020), &mut bus, &mut regs);

    assert_eq!(bus.read(0x0020), 0x01);
    assert_eq!(regs.status_reg.carry, true);
    assert_eq!(regs.status_reg.zero, false);
}

#[test]
fn load_sets_zero_and_negative() {
    let mut regs = Registers::new();
    let mut bus = RamBus::new();

    Instruction::Lda.process(Operand::Value(0x00), &mut bus, &mut regs);
    assert_eq!(regs.accumulator, 0x00);
    assert_eq!(regs.status_reg.zero, true);
    assert_eq!(regs.status_reg.negative, false);

    bus.write(0x0030, 0x80);
    Instruction::Ldx.process(Operand::Addr(0x0030), &mut bus, &mut regs);
    assert_eq!(regs.x_index, 0x80);
    assert_eq!(regs.status_reg.zero, false);
    assert_eq!(regs.status_reg.negative, true);
}

#[test]
fn store_writes_register_without_flags() {
    let mut regs = Registers::new();
    let mut bus = RamBus::new();
    regs.accumulator = 0x99;
    regs.status_reg.zero = true;
    Instruction::Sta.process(Operand::Addr(0x1234), &mut bus, &mut regs);

    assert_eq!(bus.read(0x1234), 0x99);
    assert_eq!(regs.status_reg.zero, true);
    assert_eq!(regs.status_reg.negative, false);
}

#[test]
fn transfers_set_flags_except_txs() {
    let mut regs = Registers::new();
    let mut bus = RamBus::new();
    regs.accumulator = 0x80;
    Instruction::Tax.process(Operand::Implied, &mut bus, &mut regs);
    assert_eq!(regs.x_index, 0x80);
    assert_eq!(regs.status_reg.negative, true);

    // TXS copies X into the stack pointer and touches no flags.
    regs.x_index = 0x42;
    regs.status_reg.negative = true;
    regs.status_reg.zero = true;
    Instruction::Txs.process(Operand::Implied, &mut bus, &mut regs);
    assert_eq!(regs.stack.get(), 0x42);
    assert_eq!(regs.status_reg.negative, true);
    assert_eq!(regs.status_reg.zero, true);

    // TSX copies the stack pointer into X and sets Z and N.
    Instruction::Tsx.process(Operand::Implied, &mut bus, &mut regs);
    assert_eq!(regs.x_index, 0x42);
    assert_eq!(regs.status_reg.negative, false);
    assert_eq!(regs.status_reg.zero, false);
}

#[test]
fn pha_pla_round_trip() {
    let mut regs = Registers::new();
    let mut bus = RamBus::new();
    regs.accumulator = 0xAB;
    Instruction::Pha.process(Operand::Implied, &mut bus, &mut regs);
    assert_eq!(bus.read(0x01FF), 0xAB);
    assert_eq!(regs.stack.get(), 0xFE);

    regs.accumulator = 0x00;
    Instruction::Pla.process(Operand::Implied, &mut bus, &mut regs);
    assert_eq!(regs.accumulator, 0xAB);
    assert_eq!(regs.stack.get(), 0xFF);
    assert_eq!(regs.status_reg.negative, true);
    assert_eq!(regs.status_reg.zero, false);
}

#[test]
fn php_plp_round_trip() {
    let mut regs = Registers::new();
    let mut bus = RamBus::new();
    regs.status_reg.carry = true;
    regs.status_reg.negative = true;
    regs.status_reg.decimal_mode = true;
    Instruction::Php.process(Operand::Implied, &mut bus, &mut regs);
    assert_eq!(bus.read(0x01FF), 0x89);

    regs.status_reg.set(0x00);
    Instruction::Plp.process(Operand::Implied, &mut bus, &mut regs);
    assert_eq!(regs.status_reg.carry, true);
    assert_eq!(regs.status_reg.negative, true);
    assert_eq!(regs.status_reg.decimal_mode, true);
    assert_eq!(regs.status_reg.zero, false);
    assert_eq!(regs.status_reg.overflow, false);
}

#[test]
fn jsr_rts_via_process() {
    let mut regs = Registers::new();
    let mut bus = RamBus::new();
    // As if a JSR at 0x0200 had just been decoded: PC is past the
    // three-byte instruction.
    regs.program_counter = 0x0203;
    Instruction::Jsr.process(Operand::Addr(0xC000), &mut bus, &mut regs);
    assert_eq!(regs.program_counter, 0xC000);
    assert_eq!(regs.stack.get(), 0xFD);
    assert_eq!(bus.read(0x01FF), 0x02);
    assert_eq!(bus.read(0x01FE), 0x02);

    Instruction::Rts.process(Operand::Implied, &mut bus, &mut regs);
    assert_eq!(regs.program_counter, 0x0203);
    assert_eq!(regs.stack.get(), 0xFF);
}

#[test]
fn branch_not_taken_keeps_pc() {
    let mut regs = Registers::new();
    let mut bus = RamBus::new();
    regs.program_counter = 0x0300;
    regs.status_reg.carry = false;
    Instruction::Bcs.process(Operand::Addr(0x0350), &mut bus, &mut regs);
    assert_eq!(regs.program_counter, 0x0300);

    Instruction::Bcc.process(Operand::Addr(0x0350), &mut bus, &mut regs);
    assert_eq!(regs.program_counter, 0x0350);
}
