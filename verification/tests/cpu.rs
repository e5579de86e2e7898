use mos6502::Cpu;
use mos6502::addressing_modes::AddressingMode;
use mos6502::bus::Bus;
use mos6502::bus::RamBus;
use mos6502::instruction::Instruction;
use mos6502::opcodes::decode;
use mos6502::registers::Registers;

/// Writes a program at `start` and points the reset vector at it.
fn load_program(bus: &mut RamBus, start: u16, program: &[u8]) {
    bus.write(0xFFFC, (start & 0xFF) as u8);
    bus.write(0xFFFD, (start >> 8) as u8);
    for (i, byte) in program.iter().enumerate() {
        bus.write(start.wrapping_add(i as u16), *byte);
    }
}

#[test]
fn test_reset() {
    let mut cpu = Cpu::new();
    let mut bus = RamBus::new();
    bus.write(0xFFFC, 0x12);
    bus.write(0xFFFD, 0x34);
    cpu.reset(&bus);

    assert_eq!(cpu.registers.program_counter, 0x3412);
    assert_eq!(cpu.registers.accumulator, 0);
}

#[test]
fn scenario_adc_without_carry() {
    let mut cpu = Cpu::new();
    let mut bus = RamBus::new();
    // LDA #$0A; ADC #$05
    load_program(&mut bus, 0x0200, &[0xA9, 0x0A, 0x69, 0x05]);
    cpu.reset(&bus);
    cpu.single_step(&mut bus);
    cpu.single_step(&mut bus);

    assert_eq!(cpu.registers.accumulator, 0x0F);
    assert_eq!(cpu.registers.status_reg.carry, false);
    assert_eq!(cpu.registers.status_reg.zero, false);
    assert_eq!(cpu.registers.status_reg.negative, false);
    assert_eq!(cpu.registers.status_reg.overflow, false);
}

#[test]
fn scenario_adc_signed_overflow() {
    let mut cpu = Cpu::new();
    let mut bus = RamBus::new();
    // LDA #$7F; ADC #$01
    load_program(&mut bus, 0x0200, &[0xA9, 0x7F, 0x69, 0x01]);
    cpu.reset(&bus);
    cpu.single_step(&mut bus);
    cpu.single_step(&mut bus);

    assert_eq!(cpu.registers.accumulator, 0x80);
    assert_eq!(cpu.registers.status_reg.negative, true);
    assert_eq!(cpu.registers.status_reg.overflow, true);
    assert_eq!(cpu.registers.status_reg.carry, false);
    assert_eq!(cpu.registers.status_reg.zero, false);
}

#[test]
fn scenario_branch_taken() {
    let mut cpu = Cpu::new();
    let mut bus = RamBus::new();
    // LDA #$00; BEQ +2; LDA #$FF; LDA #$42
    load_program(&mut bus, 0x0200, &[0xA9, 0x00, 0xF0, 0x02, 0xA9, 0xFF, 0xA9, 0x42]);
    cpu.reset(&bus);
    cpu.single_step(&mut bus);
    cpu.single_step(&mut bus);
    cpu.single_step(&mut bus);

    assert_eq!(cpu.registers.accumulator, 0x42);
}

#[test]
fn scenario_jsr_rts_round_trip() {
    let mut cpu = Cpu::new();
    let mut bus = RamBus::new();
    // JSR $C000 at the reset target; RTS at $C000.
    load_program(&mut bus, 0x0200, &[0x20, 0x00, 0xC0]);
    bus.write(0xC000, 0x60);
    cpu.reset(&bus);
    let stack_before = cpu.registers.stack.get();
    cpu.single_step(&mut bus);
    cpu.single_step(&mut bus);

    assert_eq!(cpu.registers.program_counter, 0x0203);
    assert_eq!(cpu.registers.stack.get(), stack_before);
}

#[test]
fn scenario_indirect_jmp_bug() {
    let mut cpu = Cpu::new();
    let mut bus = RamBus::new();
    // JMP ($30FF): the pointer's high byte comes from $3000, not $3100.
    load_program(&mut bus, 0x0200, &[0x6C, 0xFF, 0x30]);
    bus.write(0x30FF, 0x40);
    bus.write(0x3100, 0x80);
    bus.write(0x3000, 0x50);
    cpu.reset(&bus);
    cpu.single_step(&mut bus);

    assert_eq!(cpu.registers.program_counter, 0x5040);
}

#[test]
fn registers_stay_in_range() {
    let mut cpu = Cpu::new();
    let mut bus = RamBus::new();
    // LDA #$FF; TAX; INX; PHA
    load_program(&mut bus, 0x0200, &[0xA9, 0xFF, 0xAA, 0xE8, 0x48]);
    cpu.reset(&bus);
    for _ in 0..4 {
        cpu.single_step(&mut bus);
        assert!(cpu.registers.accumulator as u32 <= 255);
        assert!(cpu.registers.x_index as u32 <= 255);
        assert!(cpu.registers.y_index as u32 <= 255);
        assert!(cpu.registers.stack.get() as u32 <= 255);
        assert!(cpu.registers.program_counter as u32 <= 65535);
    }
    assert_eq!(cpu.registers.x_index, 0x00);
}

#[test]
fn status_pack_unpack_round_trip() {
    let mut regs = Registers::new();
    regs.status_reg.carry = true;
    regs.status_reg.overflow = true;
    regs.status_reg.irq_disable = true;
    let packed = regs.status_reg.get();
    assert_eq!(packed, 0x45);

    let mut other = Registers::new();
    other.status_reg.set(packed);
    assert_eq!(other.status_reg.carry, true);
    assert_eq!(other.status_reg.overflow, true);
    assert_eq!(other.status_reg.irq_disable, true);
    assert_eq!(other.status_reg.zero, false);
    assert_eq!(other.status_reg.negative, false);
    assert_eq!(other.status_reg.decimal_mode, false);
    assert_eq!(other.status_reg.brk_command, false);
    assert_eq!(other.status_reg.get(), packed);
}

#[test]
fn status_bits_pack_individually() {
    let cases: [(fn(&mut Registers), u8); 7] = [
        (|r| r.status_reg.carry = true, 0x01),
        (|r| r.status_reg.zero = true, 0x02),
        (|r| r.status_reg.irq_disable = true, 0x04),
        (|r| r.status_reg.decimal_mode = true, 0x08),
        (|r| r.status_reg.brk_command = true, 0x10),
        (|r| r.status_reg.overflow = true, 0x40),
        (|r| r.status_reg.negative = true, 0x80),
    ];
    for (set_flag, expected) in cases.iter() {
        let mut regs = Registers::new();
        set_flag(&mut regs);
        assert_eq!(regs.status_reg.get(), *expected);
    }
}

#[test]
fn stack_push_pop_lifo_round_trip() {
    let mut regs = Registers::new();
    let mut bus = RamBus::new();
    let bytes = [0x11u8, 0x22, 0x33, 0x44, 0x55];
    let pointer_before = regs.stack.get();
    for byte in bytes.iter() {
        regs.stack.push(*byte, &mut bus);
    }
    for byte in bytes.iter().rev() {
        assert_eq!(regs.stack.pop(&bus), *byte);
    }
    assert_eq!(regs.stack.get(), pointer_before);
}

#[test]
fn nmi_serviced_at_step_boundary() {
    let mut cpu = Cpu::new();
    let mut bus = RamBus::new();
    load_program(&mut bus, 0x0200, &[0xEA]);
    // NMI handler at $8000.
    bus.write(0xFFFA, 0x00);
    bus.write(0xFFFB, 0x80);
    cpu.reset(&bus);
    cpu.signal_nmi();
    cpu.single_step(&mut bus);

    assert_eq!(cpu.registers.program_counter, 0x8000);
    assert_eq!(cpu.registers.status_reg.irq_disable, true);
    assert_eq!(cpu.registers.nmi_active, false);
    // The return address 0x0200 sits on the stack, high byte first, then
    // the flags with B clear.
    assert_eq!(bus.read(0x01FF), 0x02);
    assert_eq!(bus.read(0x01FE), 0x00);
    assert_eq!(bus.read(0x01FD) & 0x10, 0x00);
    assert_eq!(cpu.registers.stack.get(), 0xFC);
}

#[test]
fn irq_masked_by_interrupt_disable() {
    let mut cpu = Cpu::new();
    let mut bus = RamBus::new();
    // SEI; NOP — after SEI the pending IRQ must not be serviced.
    load_program(&mut bus, 0x0200, &[0x78, 0xEA]);
    bus.write(0xFFFE, 0x00);
    bus.write(0xFFFF, 0x90);
    cpu.reset(&bus);
    cpu.single_step(&mut bus);
    cpu.signal_irq();
    cpu.single_step(&mut bus);

    // The NOP executed instead of the handler.
    assert_eq!(cpu.registers.program_counter, 0x0202);
    assert_eq!(cpu.registers.irq_active, true);
}

#[test]
fn irq_serviced_when_enabled() {
    let mut cpu = Cpu::new();
    let mut bus = RamBus::new();
    load_program(&mut bus, 0x0200, &[0xEA]);
    bus.write(0xFFFE, 0x00);
    bus.write(0xFFFF, 0x90);
    cpu.reset(&bus);
    cpu.signal_irq();
    cpu.single_step(&mut bus);

    assert_eq!(cpu.registers.program_counter, 0x9000);
    assert_eq!(cpu.registers.status_reg.irq_disable, true);
    assert_eq!(cpu.registers.irq_active, false);
}

#[test]
fn brk_rti_round_trip() {
    let mut cpu = Cpu::new();
    let mut bus = RamBus::new();
    // BRK at $0200; the IRQ/BRK handler at $9000 is RTI.
    load_program(&mut bus, 0x0200, &[0x00]);
    bus.write(0xFFFE, 0x00);
    bus.write(0xFFFF, 0x90);
    bus.write(0x9000, 0x40);
    cpu.reset(&bus);
    cpu.registers.status_reg.carry = true;
    cpu.single_step(&mut bus);

    assert_eq!(cpu.registers.program_counter, 0x9000);
    assert_eq!(cpu.registers.status_reg.irq_disable, true);
    // BRK pushed PC+1 = $0202 and the flags with B set.
    assert_eq!(bus.read(0x01FF), 0x02);
    assert_eq!(bus.read(0x01FE), 0x02);
    assert_eq!(bus.read(0x01FD), 0x11);

    cpu.single_step(&mut bus);
    assert_eq!(cpu.registers.program_counter, 0x0202);
    assert_eq!(cpu.registers.status_reg.carry, true);
    assert_eq!(cpu.registers.status_reg.irq_disable, false);
    assert_eq!(cpu.registers.stack.get(), 0xFF);
}

#[test]
fn rmw_instruction_through_bus() {
    let mut cpu = Cpu::new();
    let mut bus = RamBus::new();
    // INC $40 twice, then DEC $40.
    load_program(&mut bus, 0x0200, &[0xE6, 0x40, 0xE6, 0x40, 0xC6, 0x40]);
    cpu.reset(&bus);
    cpu.single_step(&mut bus);
    cpu.single_step(&mut bus);
    cpu.single_step(&mut bus);

    assert_eq!(bus.read(0x0040), 0x01);
}

#[test]
fn decode_matches_official_table() {
    assert_eq!(decode(0xA9), Some((Instruction::Lda, AddressingMode::Immediate)));
    assert_eq!(decode(0x6C), Some((Instruction::Jmp, AddressingMode::Indirect)));
    assert_eq!(decode(0x96), Some((Instruction::Stx, AddressingMode::ZeropageYIndexed)));
    assert_eq!(decode(0x11), Some((Instruction::Ora, AddressingMode::IndirectYIndexed)));
    assert_eq!(decode(0x81), Some((Instruction::Sta, AddressingMode::XIndexedIndirect)));
    assert_eq!(decode(0x02), None);

    let mut legal = 0u32;
    for opcode in 0..=255u8 {
        if decode(opcode).is_some() {
            legal += 1;
        }
    }
    assert_eq!(legal, 151);
}
