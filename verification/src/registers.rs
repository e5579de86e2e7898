use vstd::prelude::*;

use crate::bus::Bus;

verus! {

/// The seven programmer-visible status flags of the 6502.
///
/// The packed byte layout (for PHP/PLP/BRK/RTI and interrupt entry) puts
/// N at 0x80, V at 0x40, B at 0x10, D at 0x08, I at 0x04, Z at 0x02 and
/// C at 0x01.
#[derive(Clone, Copy, Debug, PartialEq, Eq, Structural)]
pub struct StatusRegister {
    pub carry: bool,
    pub zero: bool,
    pub irq_disable: bool,
    pub decimal_mode: bool,
    pub brk_command: bool,
    pub overflow: bool,
    pub negative: bool,
}

/// The contribution of one flag to the packed status byte.
pub open spec fn flag_bit(flag: bool, bit: u8) -> u8 {
    if flag {
        bit
    } else {
        0
    }
}

/// The packed byte form of the status flags.
pub open spec fn spec_pack(p: StatusRegister) -> u8 {
    (flag_bit(p.negative, 0x80) + flag_bit(p.overflow, 0x40) + flag_bit(p.brk_command, 0x10)
        + flag_bit(p.decimal_mode, 0x08) + flag_bit(p.irq_disable, 0x04) + flag_bit(p.zero, 0x02)
        + flag_bit(p.carry, 0x01)) as u8
}

/// The flags described by a packed status byte; bits 0x20 and the unused
/// positions are ignored.
pub open spec fn spec_unpack(value: u8) -> StatusRegister {
    StatusRegister {
        negative: value & 0x80 != 0,
        overflow: value & 0x40 != 0,
        brk_command: value & 0x10 != 0,
        decimal_mode: value & 0x08 != 0,
        irq_disable: value & 0x04 != 0,
        zero: value & 0x02 != 0,
        carry: value & 0x01 != 0,
    }
}

/// The flags with Z and N tracking a result byte, as most instructions set
/// them: Z iff the result is zero, N iff bit 7 of the result is set.
pub open spec fn spec_set_zn(p: StatusRegister, result: u8) -> StatusRegister {
    StatusRegister { zero: result == 0, negative: result & 0x80 != 0, ..p }
}

/// Unpacking a packed flag configuration restores it exactly: the seven
/// flags occupy distinct bit positions, so no information is lost.
pub proof fn lemma_status_pack_round_trip(p: StatusRegister)
    ensures
        spec_unpack(spec_pack(p)) == p,
{
    let n: u8 = if p.negative { 1 } else { 0 };
    let v: u8 = if p.overflow { 1 } else { 0 };
    let b: u8 = if p.brk_command { 1 } else { 0 };
    let d: u8 = if p.decimal_mode { 1 } else { 0 };
    let i: u8 = if p.irq_disable { 1 } else { 0 };
    let z: u8 = if p.zero { 1 } else { 0 };
    let c: u8 = if p.carry { 1 } else { 0 };
    let x = spec_pack(p);
    assert(x == n * 0x80 + v * 0x40 + b * 0x10 + d * 0x08 + i * 0x04 + z * 0x02 + c);
    assert((x & 0x80 != 0) == (n == 1) && (x & 0x40 != 0) == (v == 1) && (x & 0x10 != 0) == (b
        == 1) && (x & 0x08 != 0) == (d == 1) && (x & 0x04 != 0) == (i == 1) && (x & 0x02 != 0) == (z
        == 1) && (x & 0x01 != 0) == (c == 1)) by (bit_vector)
        requires
            n <= 1 && v <= 1 && b <= 1 && d <= 1 && i <= 1 && z <= 1 && c <= 1,
            x == n * 0x80 + v * 0x40 + b * 0x10 + d * 0x08 + i * 0x04 + z * 0x02 + c,
    ;
}

impl StatusRegister {
    /// All flags clear, as after reset.
    fn new() -> (p: StatusRegister)
        ensures
            p == (StatusRegister {
                carry: false,
                zero: false,
                irq_disable: false,
                decimal_mode: false,
                brk_command: false,
                overflow: false,
                negative: false,
            }),
    {
        StatusRegister {
            carry: false,
            zero: false,
            irq_disable: false,
            decimal_mode: false,
            brk_command: false,
            overflow: false,
            negative: false,
        }
    }

    /// Packs the flags into their byte form.
    pub fn get(&self) -> (value: u8)
        ensures
            value == spec_pack(*self),
    {
        let mut value: u8 = 0x00;
        if self.negative {
            value = value + 0x80;
        }
        if self.overflow {
            value = value + 0x40;
        }
        if self.brk_command {
            value = value + 0x10;
        }
        if self.decimal_mode {
            value = value + 0x08;
        }
        if self.irq_disable {
            value = value + 0x04;
        }
        if self.zero {
            value = value + 0x02;
        }
        if self.carry {
            value = value + 0x01;
        }
        value
    }

    /// Overwrites every flag from the byte form.
    pub fn set(&mut self, value: u8)
        ensures
            *final(self) == spec_unpack(value),
    {
        self.negative = (value & 0x80) != 0;
        self.overflow = (value & 0x40) != 0;
        self.brk_command = (value & 0x10) != 0;
        self.decimal_mode = (value & 0x08) != 0;
        self.irq_disable = (value & 0x04) != 0;
        self.zero = (value & 0x02) != 0;
        self.carry = (value & 0x01) != 0;
    }

    /// Sets Z and N from a result byte, leaving the other flags alone.
    pub(crate) fn update_zn(&mut self, result: u8)
        ensures
            *final(self) == spec_set_zn(*old(self), result),
    {
        self.zero = result == 0;
        self.negative = (result & 0x80) != 0;
    }
}

/// The bus address a stack byte lives at: the stack occupies page 1, so the
/// pointer is the low byte of `0x0100 | pointer`.
pub open spec fn stack_addr(pointer: u8) -> u16 {
    (0x0100 + pointer as u16) as u16
}

/// One push: the value is written at the current pointer's address, then the
/// pointer moves down, wrapping within the page.
pub open spec fn spec_push(pointer: u8, mem: Map<u16, u8>, value: u8) -> (u8, Map<u16, u8>) {
    (pointer.wrapping_sub(1), mem.insert(stack_addr(pointer), value))
}

/// One pop: the pointer moves up, wrapping within the page, and the byte at
/// the new pointer's address is read.
pub open spec fn spec_pop(pointer: u8, mem: Map<u16, u8>) -> (u8, u8) {
    let moved = pointer.wrapping_add(1);
    (moved, mem[stack_addr(moved)])
}

/// The stack pointer register. The stored bytes themselves live in bus
/// memory page 1; this register only tracks the low byte of the top address.
#[derive(Clone, Copy, Debug, PartialEq, Eq, Structural)]
pub struct Stack {
    pub pointer: u8,
}

impl Stack {
    /// The pointer starts at 0xFF, the bottom of the descending stack.
    fn new() -> (s: Stack)
        ensures
            s == (Stack { pointer: 0xFF }),
    {
        Stack { pointer: 0xFF }
    }

    /// Writes `value` at the current top-of-stack address, then decrements
    /// the pointer; the wrap-around at 0x00 is silent, as on hardware.
    pub fn push<T: Bus>(&mut self, value: u8, bus: &mut T)
        ensures
            (final(self).pointer, final(bus).mem()) == spec_push(
                old(self).pointer,
                old(bus).mem(),
                value,
            ),
    {
        let addr: u16 = 0x0100 + self.pointer as u16;
        bus.write(addr, value);
        self.pointer = self.pointer.wrapping_sub(1);
    }

    /// Increments the pointer, then reads the byte at the new top-of-stack
    /// address.
    pub fn pop<T: Bus>(&mut self, bus: &T) -> (value: u8)
        ensures
            (final(self).pointer, value) == spec_pop(old(self).pointer, bus.mem()),
    {
        self.pointer = self.pointer.wrapping_add(1);
        let addr: u16 = 0x0100 + self.pointer as u16;
        bus.read(addr)
    }

    /// The current pointer value.
    pub fn get(&self) -> (pointer: u8)
        ensures
            pointer == self.pointer,
    {
        self.pointer
    }

    /// Overwrites the pointer.
    pub fn set(&mut self, value: u8)
        ensures
            final(self).pointer == value,
    {
        self.pointer = value;
    }
}

/// The complete programmer-visible register file, plus the two pending
/// interrupt latches the host signals through.
#[derive(Clone, Copy, Debug, PartialEq, Eq, Structural)]
pub struct Registers {
    pub stack: Stack,
    pub x_index: u8,
    pub y_index: u8,
    pub program_counter: u16,
    pub accumulator: u8,
    pub status_reg: StatusRegister,
    pub irq_active: bool,
    pub nmi_active: bool,
}

/// The register file of a freshly constructed processor: registers cleared,
/// flags clear, stack pointer at 0xFF, and the program counter placed on the
/// reset vector so that the next two fetches read it.
pub open spec fn spec_registers_init() -> Registers {
    Registers {
        stack: Stack { pointer: 0xFF },
        x_index: 0x00,
        y_index: 0x00,
        program_counter: 0xFFFC,
        accumulator: 0,
        status_reg: StatusRegister {
            carry: false,
            zero: false,
            irq_disable: false,
            decimal_mode: false,
            brk_command: false,
            overflow: false,
            negative: false,
        },
        irq_active: false,
        nmi_active: false,
    }
}

impl Registers {
    /// A freshly initialised register file.
    pub fn new() -> (regs: Registers)
        ensures
            regs == spec_registers_init(),
    {
        Registers {
            stack: Stack::new(),
            x_index: 0x00,
            y_index: 0x00,
            program_counter: 0xFFFC,
            accumulator: 0,
            status_reg: StatusRegister::new(),
            irq_active: false,
            nmi_active: false,
        }
    }
}

/// Pushing a sequence of bytes in order, each through `spec_push`.
pub open spec fn spec_push_seq(pointer: u8, mem: Map<u16, u8>, values: Seq<u8>) -> (
    u8,
    Map<u16, u8>,
)
    decreases values.len(),
{
    if values.len() == 0 {
        (pointer, mem)
    } else {
        let (p1, m1) = spec_push_seq(pointer, mem, values.drop_last());
        spec_push(p1, m1, values.last())
    }
}

/// Popping `count` bytes, each through `spec_pop`, collected in pop order.
pub open spec fn spec_pop_seq(pointer: u8, mem: Map<u16, u8>, count: nat) -> (u8, Seq<u8>)
    decreases count,
{
    if count == 0 {
        (pointer, Seq::empty())
    } else {
        let (p1, value) = spec_pop(pointer, mem);
        let (p2, rest) = spec_pop_seq(p1, mem, (count - 1) as nat);
        (p2, seq![value] + rest)
    }
}

/// A sequence of pops does not see a write to a stack slot that none of
/// them reads: the pops read the slots `pointer + 1 .. pointer + count`
/// (modulo the page size), and `slot` is none of them.
proof fn lemma_pop_seq_unaffected(pointer: u8, mem: Map<u16, u8>, count: nat, slot: u8, value: u8)
    requires
        count <= 255,
        forall|k: u8| 1 <= k <= count ==> #[trigger] pointer.wrapping_add(k) != slot,
    ensures
        spec_pop_seq(pointer, mem.insert(stack_addr(slot), value), count) == spec_pop_seq(
            pointer,
            mem,
            count,
        ),
    decreases count,
{
    if count > 0 {
        let moved = pointer.wrapping_add(1);
        assert(moved != slot);
        assert(stack_addr(moved) != stack_addr(slot));
        assert forall|k: u8| 1 <= k <= count - 1 implies #[trigger] moved.wrapping_add(k) != slot by {
            assert(moved.wrapping_add(k) == pointer.wrapping_add((k + 1) as u8));
            assert(pointer.wrapping_add((k + 1) as u8) != slot);
        }
        lemma_pop_seq_unaffected(moved, mem, (count - 1) as nat, slot, value);
    }
}

/// Stack round-trip: pushing up to a page of bytes and then popping the
/// same number reproduces the bytes in last-in-first-out order (the pops
/// read the pushed sequence reversed) and returns the stack pointer to its
/// original value.
pub proof fn lemma_stack_round_trip(pointer: u8, mem: Map<u16, u8>, values: Seq<u8>)
    requires
        values.len() <= 256,
    ensures
        ({
            let (pushed_ptr, pushed_mem) = spec_push_seq(pointer, mem, values);
            let (final_ptr, popped) = spec_pop_seq(pushed_ptr, pushed_mem, values.len());
            final_ptr == pointer && popped == values.reverse()
        }),
    decreases values.len(),
{
    if values.len() == 0 {
        assert(values.reverse() =~= Seq::<u8>::empty());
    } else {
        let rest = values.drop_last();
        let top = values.last();
        lemma_stack_round_trip(pointer, mem, rest);
        let (p1, m1) = spec_push_seq(pointer, mem, rest);
        let (p2, m2) = spec_push(p1, m1, top);
        // The first pop returns the byte just pushed and restores the
        // pointer the remaining pops start from.
        assert(p2.wrapping_add(1) == p1);
        // The write of `top` sits below the slots the remaining pops read.
        assert forall|k: u8| 1 <= k <= rest.len() implies #[trigger] p1.wrapping_add(k) != p1 by {}
        lemma_pop_seq_unaffected(p1, m1, rest.len(), p1, top);
        let (final_ptr, popped) = spec_pop_seq(p2, m2, values.len());
        assert(popped =~= values.reverse()) by {
            assert(popped =~= seq![top] + rest.reverse());
            assert forall|i: int| 0 <= i < values.len() implies (seq![top] + rest.reverse())[i]
                == values.reverse()[i] by {}
        }
    }
}

/// Every register value representable in the register file is within the
/// architectural range: A, X, Y and S are bytes, PC is a 16-bit word. The
/// field types enforce this in every reachable state.
pub proof fn lemma_register_ranges(regs: Registers)
    ensures
        0 <= regs.accumulator <= 255,
        0 <= regs.x_index <= 255,
        0 <= regs.y_index <= 255,
        0 <= regs.stack.pointer <= 255,
        0 <= regs.program_counter <= 65535,
{
}

} // verus!
