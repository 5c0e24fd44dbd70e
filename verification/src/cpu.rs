//! The CPU core: the register file, the run-state and interrupt-enable state
//! machines, the cycle counter, and one handler per instruction class, all
//! tied together by the `execute` dispatcher and the `step` fetch loop.

use vstd::prelude::*;
use crate::cpuflags::{
    CpuFlags, c_of, h_of, n_of, pack_flags, spec_half_carry_add, spec_half_carry_sub,
    test_half_carry_addition, test_half_carry_subtraction, z_of,
};
use crate::mmu::{MemModel, Mmu, can_write, mem_read, mem_write};

verus! {

/// 16-bit addition that wraps around the address space.
pub open spec fn add16(a: u16, b: u16) -> u16 {
    if a + b > 0xFFFF {
        (a + b - 0x10000) as u16
    } else {
        (a + b) as u16
    }
}

/// 16-bit subtraction that wraps around the address space.
pub open spec fn sub16(a: u16, b: u16) -> u16 {
    if a - b < 0 {
        (a - b + 0x10000) as u16
    } else {
        (a - b) as u16
    }
}

/// 8-bit addition that wraps.
pub open spec fn add8(a: u8, b: u8) -> u8 {
    if a + b > 0xFF {
        (a + b - 0x100) as u8
    } else {
        (a + b) as u8
    }
}

/// 8-bit subtraction that wraps.
pub open spec fn sub8(a: u8, b: u8) -> u8 {
    if a - b < 0 {
        (a - b + 0x100) as u8
    } else {
        (a - b) as u8
    }
}

/// The high byte of a 16-bit value.
pub open spec fn hi16(v: u16) -> u8 {
    (v >> 8) as u8
}

/// The low byte of a 16-bit value.
pub open spec fn lo16(v: u16) -> u8 {
    (v & 0xFF) as u8
}

/// A displacement byte read as a signed offset and sign-extended to 16 bits.
pub open spec fn sign_ext(n: u8) -> u16 {
    ((n as i8) as u16)
}

/// Whether the processor is executing, stopped awaiting a button press, or
/// halted awaiting an interrupt.
#[derive(Clone, Copy, Debug, PartialEq, Eq, Structural)]
pub enum RunState {
    Running,
    Stopped,
    Halted,
}

/// The interrupt-enable state machine. `EI` and `DI` move through the
/// deferred states; the transition to `Enabled` or `Disabled` lands only
/// after the following instruction completes.
#[derive(Clone, Copy, Debug, PartialEq, Eq, Structural)]
pub enum InterruptState {
    Disabled,
    Enabled,
    WillDisable,
    WillEnable,
}

/// A selector for one of the seven general-purpose 8-bit registers.
#[derive(Clone, Copy, Debug, PartialEq, Eq, Structural)]
pub enum Reg8 {
    A,
    B,
    C,
    D,
    E,
    H,
    L,
}

/// A selector for a 16-bit register pair, the stack pointer included.
#[derive(Clone, Copy, Debug, PartialEq, Eq, Structural)]
pub enum Reg16 {
    BC,
    DE,
    HL,
    SP,
}

/// The eight accumulator operations of the arithmetic block.
#[derive(Clone, Copy, Debug, PartialEq, Eq, Structural)]
pub enum AluOp {
    Add,
    Adc,
    Sub,
    Sbc,
    And,
    Xor,
    Or,
    Cp,
}

/// The eight rotate/shift operations of the extended opcode space.
#[derive(Clone, Copy, Debug, PartialEq, Eq, Structural)]
pub enum RotOp {
    Rlc,
    Rrc,
    Rl,
    Rr,
    Sla,
    Sra,
    Swap,
    Srl,
}

/// A branch condition over the zero and carry flags.
#[derive(Clone, Copy, Debug, PartialEq, Eq, Structural)]
pub enum Cond {
    NZ,
    Z,
    NC,
    C,
}

/// Whether a condition holds of a flag byte.
pub open spec fn cond_holds(cc: Cond, f: u8) -> bool {
    match cc {
        Cond::NZ => !z_of(f),
        Cond::Z => z_of(f),
        Cond::NC => !c_of(f),
        Cond::C => c_of(f),
    }
}

/// The CPU register file and control state.
pub struct Cpu {
    pub a: u8,
    pub b: u8,
    pub c: u8,
    pub d: u8,
    pub e: u8,
    pub h: u8,
    pub l: u8,
    pub f: CpuFlags,
    pub pc: u16,
    pub sp: u16,
    pub run_state: RunState,
    pub interrupts: InterruptState,
    pub cycles: usize,
}

/// The value of an 8-bit register.
pub open spec fn get8(c: Cpu, r: Reg8) -> u8 {
    match r {
        Reg8::A => c.a,
        Reg8::B => c.b,
        Reg8::C => c.c,
        Reg8::D => c.d,
        Reg8::E => c.e,
        Reg8::H => c.h,
        Reg8::L => c.l,
    }
}

/// The register file with one 8-bit register replaced.
pub open spec fn set8(c: Cpu, r: Reg8, v: u8) -> Cpu {
    match r {
        Reg8::A => Cpu { a: v, ..c },
        Reg8::B => Cpu { b: v, ..c },
        Reg8::C => Cpu { c: v, ..c },
        Reg8::D => Cpu { d: v, ..c },
        Reg8::E => Cpu { e: v, ..c },
        Reg8::H => Cpu { h: v, ..c },
        Reg8::L => Cpu { l: v, ..c },
    }
}

/// The value of a 16-bit pair: high register times 256 plus low register.
pub open spec fn get16(c: Cpu, rr: Reg16) -> u16 {
    match rr {
        Reg16::BC => ((c.b as int) * 0x100 + c.c as int) as u16,
        Reg16::DE => ((c.d as int) * 0x100 + c.e as int) as u16,
        Reg16::HL => ((c.h as int) * 0x100 + c.l as int) as u16,
        Reg16::SP => c.sp,
    }
}

/// The register file with one 16-bit pair replaced.
pub open spec fn set16(c: Cpu, rr: Reg16, v: u16) -> Cpu {
    match rr {
        Reg16::BC => Cpu { b: hi16(v), c: lo16(v), ..c },
        Reg16::DE => Cpu { d: hi16(v), e: lo16(v), ..c },
        Reg16::HL => Cpu { h: hi16(v), l: lo16(v), ..c },
        Reg16::SP => Cpu { sp: v, ..c },
    }
}

/// The register file with the cycle counter advanced by `k`.
pub open spec fn with_cycles(c: Cpu, k: int) -> Cpu {
    Cpu { cycles: (c.cycles + k) as usize, ..c }
}

/// Room for one more instruction's worth of cycles: no `step` consumes more
/// than 24.
pub open spec fn cycle_headroom(c: Cpu) -> bool {
    c.cycles + 24 <= usize::MAX
}

/// The accumulator and flags after an 8-bit addition with carry-in `cin`.
/// The carry flag looks at the full sum; the half-carry folds the carry into
/// the operand before the nibble test.
pub open spec fn sp_add_acc(c: Cpu, v: u8, cin: u8) -> Cpu {
    let r = add8(add8(c.a, v), cin);
    let folded = add8(v, cin);
    Cpu {
        a: r,
        f: CpuFlags(
            pack_flags(
                c.f.0,
                r == 0,
                false,
                spec_half_carry_add(c.a, folded),
                c.a + v + cin > 0xFF,
            ),
        ),
        ..c
    }
}

/// The accumulator and flags after an 8-bit subtraction with borrow-in
/// `cin`; the same folding rule as the addition, mirrored.
pub open spec fn sp_sub_acc(c: Cpu, v: u8, cin: u8) -> Cpu {
    let r = sub8(sub8(c.a, v), cin);
    let folded = add8(v, cin);
    Cpu {
        a: r,
        f: CpuFlags(
            pack_flags(c.f.0, r == 0, true, spec_half_carry_sub(c.a, folded), c.a < v + cin),
        ),
        ..c
    }
}

/// Flags after a compare: a subtraction whose result is dropped.
pub open spec fn sp_cp_acc(c: Cpu, v: u8) -> Cpu {
    Cpu {
        f: CpuFlags(
            pack_flags(c.f.0, c.a == v, true, spec_half_carry_sub(c.a, v), c.a < v),
        ),
        ..c
    }
}

/// The accumulator and flags after one of the eight arithmetic block
/// operations on operand `v`.
pub open spec fn sp_alu(c: Cpu, op: AluOp, v: u8) -> Cpu {
    match op {
        AluOp::Add => sp_add_acc(c, v, 0),
        AluOp::Adc => sp_add_acc(c, v, if c_of(c.f.0) { 1 } else { 0 }),
        AluOp::Sub => sp_sub_acc(c, v, 0),
        AluOp::Sbc => sp_sub_acc(c, v, if c_of(c.f.0) { 1 } else { 0 }),
        AluOp::And => Cpu {
            a: c.a & v,
            f: CpuFlags(pack_flags(c.f.0, c.a & v == 0, false, true, false)),
            ..c
        },
        AluOp::Xor => Cpu {
            a: c.a ^ v,
            f: CpuFlags(pack_flags(c.f.0, c.a ^ v == 0, false, false, false)),
            ..c
        },
        AluOp::Or => Cpu {
            a: c.a | v,
            f: CpuFlags(pack_flags(c.f.0, c.a | v == 0, false, false, false)),
            ..c
        },
        AluOp::Cp => sp_cp_acc(c, v),
    }
}

/// The result byte of a rotate/shift operation, given the incoming carry
/// flag.
pub open spec fn rot_result(op: RotOp, v: u8, cin: bool) -> u8 {
    match op {
        RotOp::Rlc => (v << 1) | (v >> 7),
        RotOp::Rrc => (v >> 1) | (v << 7),
        RotOp::Rl => (v << 1) | (if cin { 1 } else { 0 }),
        RotOp::Rr => (v >> 1) | (if cin { 0x80 } else { 0 }),
        RotOp::Sla => v << 1,
        RotOp::Sra => (v >> 1) | (v & 0x80),
        RotOp::Swap => ((v & 0x0F) << 4) | ((v & 0xF0) >> 4),
        RotOp::Srl => v >> 1,
    }
}

/// The carry flag a rotate/shift operation leaves: the bit shifted out, or
/// clear for a nibble swap.
pub open spec fn rot_carry(op: RotOp, v: u8) -> bool {
    match op {
        RotOp::Rlc | RotOp::Rl | RotOp::Sla => v & 0x80 != 0,
        RotOp::Rrc | RotOp::Rr | RotOp::Sra | RotOp::Srl => v & 0x01 != 0,
        RotOp::Swap => false,
    }
}

/// Flags after an extended-space rotate/shift: zero from the result, carry
/// from the shifted-out bit.
pub open spec fn rot_flags(f: u8, op: RotOp, v: u8) -> u8 {
    pack_flags(f, rot_result(op, v, c_of(f)) == 0, false, false, rot_carry(op, v))
}

/// The flag byte after a value increment: carry untouched.
pub open spec fn inc_flags(f: u8, v: u8) -> u8 {
    pack_flags(f, add8(v, 1) == 0, false, spec_half_carry_add(v, 1), c_of(f))
}

/// The flag byte after a value decrement: carry untouched.
pub open spec fn dec_flags(f: u8, v: u8) -> u8 {
    pack_flags(f, sub8(v, 1) == 0, true, spec_half_carry_sub(v, 1), c_of(f))
}

impl Cpu {
    /// A processor at power-on: everything zero, running, interrupts
    /// enabled.
    pub fn new() -> (r: Cpu)
        ensures
            r == (Cpu {
                a: 0,
                b: 0,
                c: 0,
                d: 0,
                e: 0,
                h: 0,
                l: 0,
                f: CpuFlags(0),
                pc: 0,
                sp: 0,
                run_state: RunState::Running,
                interrupts: InterruptState::Enabled,
                cycles: 0,
            }),
    {
        Cpu {
            a: 0,
            b: 0,
            c: 0,
            d: 0,
            e: 0,
            h: 0,
            l: 0,
            f: CpuFlags(0),
            pc: 0,
            sp: 0,
            run_state: RunState::Running,
            interrupts: InterruptState::Enabled,
            cycles: 0,
        }
    }

    /// The canonical register values after the boot ROM has run, used when
    /// the boot sequence is skipped. The run state and the cycle counter are
    /// left as they are.
    pub fn reset(&mut self)
        ensures
            *final(self) == (Cpu {
                a: 0x01,
                b: 0x00,
                c: 0x13,
                d: 0x00,
                e: 0xD8,
                h: 0x01,
                l: 0x4D,
                f: CpuFlags(0xB0),
                pc: 0x100,
                sp: 0xFFFE,
                interrupts: InterruptState::Enabled,
                ..*old(self)
            }),
    {
        self.a = 0x01;
        self.f.0 = 0xB0;
        self.b = 0x00;
        self.c = 0x13;
        self.d = 0x00;
        self.e = 0xD8;
        self.h = 0x01;
        self.l = 0x4D;
        self.sp = 0xFFFE;
        self.pc = 0x100;
        self.interrupts = InterruptState::Enabled;
    }

    /// The cycle counter.
    pub fn cycles(&self) -> (r: usize)
        ensures
            r == self.cycles,
    {
        self.cycles
    }

    /// The BC pair.
    pub fn bc(&self) -> (r: u16)
        ensures
            r == get16(*self, Reg16::BC),
    {
        (self.b as u16) * 0x100 + self.c as u16
    }

    /// The DE pair.
    pub fn de(&self) -> (r: u16)
        ensures
            r == get16(*self, Reg16::DE),
    {
        (self.d as u16) * 0x100 + self.e as u16
    }

    /// The HL pair.
    pub fn hl(&self) -> (r: u16)
        ensures
            r == get16(*self, Reg16::HL),
    {
        (self.h as u16) * 0x100 + self.l as u16
    }

    fn set_hl(&mut self, val: u16)
        ensures
            *final(self) == set16(*old(self), Reg16::HL, val),
    {
        self.h = (val >> 8) as u8;
        self.l = (val & 0xFF) as u8;
    }

    /// The value of the selected 8-bit register.
    pub fn reg8(&self, r: Reg8) -> (v: u8)
        ensures
            v == get8(*self, r),
    {
        match r {
            Reg8::A => self.a,
            Reg8::B => self.b,
            Reg8::C => self.c,
            Reg8::D => self.d,
            Reg8::E => self.e,
            Reg8::H => self.h,
            Reg8::L => self.l,
        }
    }

    /// Replace the selected 8-bit register.
    pub fn set_reg8(&mut self, r: Reg8, v: u8)
        ensures
            *final(self) == set8(*old(self), r, v),
    {
        match r {
            Reg8::A => self.a = v,
            Reg8::B => self.b = v,
            Reg8::C => self.c = v,
            Reg8::D => self.d = v,
            Reg8::E => self.e = v,
            Reg8::H => self.h = v,
            Reg8::L => self.l = v,
        }
    }

    /// The value of the selected 16-bit pair.
    pub fn reg16(&self, rr: Reg16) -> (v: u16)
        ensures
            v == get16(*self, rr),
    {
        match rr {
            Reg16::BC => self.bc(),
            Reg16::DE => self.de(),
            Reg16::HL => self.hl(),
            Reg16::SP => self.sp,
        }
    }

    /// Replace the selected 16-bit pair.
    pub fn set_reg16(&mut self, rr: Reg16, v: u16)
        ensures
            *final(self) == set16(*old(self), rr, v),
    {
        match rr {
            Reg16::BC => {
                self.b = (v >> 8) as u8;
                self.c = (v & 0xFF) as u8;
            },
            Reg16::DE => {
                self.d = (v >> 8) as u8;
                self.e = (v & 0xFF) as u8;
            },
            Reg16::HL => {
                self.h = (v >> 8) as u8;
                self.l = (v & 0xFF) as u8;
            },
            Reg16::SP => {
                self.sp = v;
            },
        }
    }

    fn bump_cycles(&mut self, k: usize)
        requires
            old(self).cycles + k <= usize::MAX,
        ensures
            *final(self) == with_cycles(*old(self), k as int),
    {
        self.cycles = self.cycles + k;
    }

    /// Apply one arithmetic block operation to the accumulator.
    fn apply_alu(&mut self, op: AluOp, v: u8)
        ensures
            *final(self) == sp_alu(*old(self), op, v),
    {
        match op {
            AluOp::Add => self.alu_add(v, 0),
            AluOp::Adc => {
                let cin: u8 = if self.f.c() {
                    1
                } else {
                    0
                };
                self.alu_add(v, cin);
            },
            AluOp::Sub => self.alu_sub(v, 0),
            AluOp::Sbc => {
                let cin: u8 = if self.f.c() {
                    1
                } else {
                    0
                };
                self.alu_sub(v, cin);
            },
            AluOp::And => {
                let r = self.a & v;
                self.a = r;
                self.f.write_flags(r == 0, false, true, false);
            },
            AluOp::Xor => {
                let r = self.a ^ v;
                self.a = r;
                self.f.write_flags(r == 0, false, false, false);
            },
            AluOp::Or => {
                let r = self.a | v;
                self.a = r;
                self.f.write_flags(r == 0, false, false, false);
            },
            AluOp::Cp => {
                let half = test_half_carry_subtraction(self.a, v);
                let borrow = self.a < v;
                let zero = self.a == v;
                self.f.write_flags(zero, true, half, borrow);
            },
        }
    }

    fn alu_add(&mut self, v: u8, cin: u8)
        requires
            cin <= 1,
        ensures
            *final(self) == sp_add_acc(*old(self), v, cin),
    {
        let folded = v.wrapping_add(cin);
        let half = test_half_carry_addition(self.a, folded);
        let carry = (self.a as u16) + (v as u16) + (cin as u16) > 0xFF;
        let r = self.a.wrapping_add(v).wrapping_add(cin);
        self.a = r;
        self.f.write_flags(r == 0, false, half, carry);
    }

    fn alu_sub(&mut self, v: u8, cin: u8)
        requires
            cin <= 1,
        ensures
            *final(self) == sp_sub_acc(*old(self), v, cin),
    {
        let folded = v.wrapping_add(cin);
        let half = test_half_carry_subtraction(self.a, folded);
        let borrow = (self.a as u16) < (v as u16) + (cin as u16);
        let r = self.a.wrapping_sub(v).wrapping_sub(cin);
        self.a = r;
        self.f.write_flags(r == 0, true, half, borrow);
    }

    /// The result byte of one rotate/shift operation, given the incoming
    /// carry.
    fn rot_compute(op: RotOp, v: u8, cin: bool) -> (r: u8)
        ensures
            r == rot_result(op, v, cin),
    {
        match op {
            RotOp::Rlc => (v << 1u8) | (v >> 7u8),
            RotOp::Rrc => (v >> 1u8) | (v << 7u8),
            RotOp::Rl => (v << 1u8) | (if cin {
                1
            } else {
                0
            }),
            RotOp::Rr => (v >> 1u8) | (if cin {
                0x80
            } else {
                0
            }),
            RotOp::Sla => v << 1u8,
            RotOp::Sra => (v >> 1u8) | (v & 0x80),
            RotOp::Swap => ((v & 0x0F) << 4u8) | ((v & 0xF0) >> 4u8),
            RotOp::Srl => v >> 1u8,
        }
    }

    /// The bit a rotate/shift operation moves into the carry flag.
    fn rot_carry_of(op: RotOp, v: u8) -> (carry: bool)
        ensures
            carry == rot_carry(op, v),
    {
        match op {
            RotOp::Rlc | RotOp::Rl | RotOp::Sla => v & 0x80 != 0,
            RotOp::Rrc | RotOp::Rr | RotOp::Sra | RotOp::Srl => v & 0x01 != 0,
            RotOp::Swap => false,
        }
    }

    /// Apply one rotate/shift operation, writing flags, and return the
    /// result byte.
    fn apply_rot(&mut self, op: RotOp, v: u8) -> (r: u8)
        ensures
            r == rot_result(op, v, c_of(old(self).f.0)),
            *final(self) == (Cpu { f: CpuFlags(rot_flags(old(self).f.0, op, v)), ..*old(self) }),
    {
        let cin = self.f.c();
        let r = Self::rot_compute(op, v, cin);
        let carry = Self::rot_carry_of(op, v);
        self.f.write_flags(r == 0, false, false, carry);
        r
    }
}


/// Whether the stack can take one 16-bit push: two bytes of room below the
/// stack pointer, both writable.
pub open spec fn can_push16(sp: u16, m: MemModel) -> bool {
    &&& sp >= 2
    &&& can_write(m, sp)
    &&& can_write(m, sub16(sp, 1))
}

/// The bus after a 16-bit push: high byte at the stack pointer, low byte one
/// below it.
pub open spec fn push16_mem(m: MemModel, sp: u16, value: u16) -> MemModel {
    mem_write(mem_write(m, sp, hi16(value)), sub16(sp, 1), lo16(value))
}

/// The register file after an 8-bit register increment.
pub open spec fn sp_inc_r(c: Cpu, r: Reg8) -> Cpu {
    set8(Cpu { f: CpuFlags(inc_flags(c.f.0, get8(c, r))), ..c }, r, add8(get8(c, r), 1))
}

/// The register file after an 8-bit register decrement.
pub open spec fn sp_dec_r(c: Cpu, r: Reg8) -> Cpu {
    set8(Cpu { f: CpuFlags(dec_flags(c.f.0, get8(c, r))), ..c }, r, sub8(get8(c, r), 1))
}

/// The accumulator rotates clear the zero flag no matter the result.
pub open spec fn sp_rot_a(c: Cpu, op: RotOp) -> Cpu {
    Cpu {
        a: rot_result(op, c.a, c_of(c.f.0)),
        f: CpuFlags(pack_flags(c.f.0, false, false, false, rot_carry(op, c.a))),
        ..c
    }
}

/// Flags after a bit test: the carry flag reports whether the bit was clear,
/// and the zero flag is left alone.
pub open spec fn sp_bit_flags(f: u8, b: u8, v: u8) -> u8 {
    pack_flags(f, z_of(f), false, true, v & (1u8 << b) == 0)
}

/// The 16-bit pair addition into HL: byte-wise, with the low byte's carry
/// propagated into the high byte before its half-carry test; an overflow of
/// the full 16-bit sum sets both carry and half-carry. The zero flag is left
/// alone.
pub open spec fn sp_add_hl(c: Cpu, hi: u8, lo: u8) -> Cpu {
    let lcar: u8 = if c.l + lo > 0xFF {
        1
    } else {
        0
    };
    let ovf = (c.h as int) * 0x100 + c.l + (hi as int) * 0x100 + lo > 0xFFFF;
    Cpu {
        h: add8(add8(c.h, hi), lcar),
        l: add8(c.l, lo),
        f: CpuFlags(
            pack_flags(
                c.f.0,
                z_of(c.f.0),
                false,
                spec_half_carry_add(c.h, add8(hi, lcar)) || ovf,
                ovf,
            ),
        ),
        ..c
    }
}

/// `ADD HL,rr` for each pair.
pub open spec fn sp_add_hl_rr(c: Cpu, rr: Reg16) -> Cpu {
    match rr {
        Reg16::BC => sp_add_hl(c, c.b, c.c),
        Reg16::DE => sp_add_hl(c, c.d, c.e),
        Reg16::HL => sp_add_hl(c, c.h, c.l),
        Reg16::SP => sp_add_hl(c, hi16(c.sp), lo16(c.sp)),
    }
}

/// Flags of the signed-displacement additions to the stack pointer: computed
/// on the low byte, with a nibble addition for a positive displacement and a
/// nibble subtraction for a negative one; zero and subtract always clear.
pub open spec fn sp_disp_flags(f: u8, sp: u16, n: u8) -> u8 {
    let low = lo16(sp);
    let carry = if n < 0x80 {
        low + n > 0xFF
    } else {
        low + n < 0x100
    };
    let half = if n == 0 {
        false
    } else if n < 0x80 {
        spec_half_carry_add(low, n)
    } else {
        spec_half_carry_sub(low, (0x100 - n) as u8)
    };
    pack_flags(f, false, false, half, carry)
}

/// The decimal-adjust correction: driven by the subtract, half-carry and
/// carry flags the previous arithmetic left, with the carry test made before
/// the nibble test and the nibble test reading the already-corrected
/// accumulator.
pub open spec fn sp_daa(c: Cpu) -> Cpu {
    let f = c.f.0;
    if !n_of(f) {
        let high_fix = c_of(f) || c.a > 0x99;
        let a1 = if high_fix {
            add8(c.a, 0x60)
        } else {
            c.a
        };
        let a2 = if h_of(f) || (a1 & 0x0F) > 0x9 {
            add8(a1, 0x6)
        } else {
            a1
        };
        let carry = high_fix || c_of(f);
        Cpu { a: a2, f: CpuFlags(pack_flags(f, a2 == 0, n_of(f), false, carry)), ..c }
    } else {
        let a1 = if c_of(f) {
            sub8(c.a, 0x60)
        } else {
            c.a
        };
        let a2 = if h_of(f) {
            sub8(a1, 0x6)
        } else {
            a1
        };
        Cpu { a: a2, f: CpuFlags(pack_flags(f, a2 == 0, n_of(f), false, c_of(f))), ..c }
    }
}

/// The register file after a 16-bit register load: low operand byte into the
/// low register first, high byte into the high register.
pub open spec fn sp_ld_rr_nn(c: Cpu, rr: Reg16, lo: u8, hi: u8) -> Cpu {
    match rr {
        Reg16::BC => Cpu { b: hi, c: lo, ..c },
        Reg16::DE => Cpu { d: hi, e: lo, ..c },
        Reg16::HL => Cpu { h: hi, l: lo, ..c },
        Reg16::SP => Cpu { sp: ((hi as int) * 0x100 + lo) as u16, ..c },
    }
}

/// The register file after a 16-bit pop into a pair: low byte from one above
/// the stack pointer, high byte from two above.
pub open spec fn sp_pop_rr(c: Cpu, m: MemModel, rr: Reg16) -> Cpu {
    let lo = mem_read(m, add16(c.sp, 1));
    let hi = mem_read(m, add16(c.sp, 2));
    match rr {
        Reg16::BC => Cpu { b: hi, c: lo, sp: add16(c.sp, 2), ..c },
        Reg16::DE => Cpu { d: hi, e: lo, sp: add16(c.sp, 2), ..c },
        Reg16::HL => Cpu { h: hi, l: lo, sp: add16(c.sp, 2), ..c },
        Reg16::SP => c,
    }
}

/// The one-instruction delay of `EI` and `DI` resolving.
pub open spec fn resolve_interrupts(s: InterruptState) -> InterruptState {
    match s {
        InterruptState::WillEnable => InterruptState::Enabled,
        InterruptState::WillDisable => InterruptState::Disabled,
        _ => s,
    }
}

impl Cpu {
    /// Whether a branch condition holds of the current flags.
    pub fn cond(&self, cc: Cond) -> (b: bool)
        ensures
            b == cond_holds(cc, self.f.0),
    {
        match cc {
            Cond::NZ => !self.f.z(),
            Cond::Z => self.f.z(),
            Cond::NC => !self.f.c(),
            Cond::C => self.f.c(),
        }
    }

    /// Fetch the byte at the program counter and advance past it, wrapping.
    pub fn next_byte(&mut self, mmu: &Mmu) -> (v: u8)
        ensures
            v == mem_read(mmu@, old(self).pc),
            *final(self) == (Cpu { pc: add16(old(self).pc, 1), ..*old(self) }),
    {
        let ret = mmu.read_u8(self.pc);
        self.pc = self.pc.wrapping_add(1);
        ret
    }

    /// `NOP`.
    pub fn nop(&mut self)
        requires
            cycle_headroom(*old(self)),
        ensures
            *final(self) == with_cycles(*old(self), 4),
    {
        self.bump_cycles(4);
    }

    /// `STOP`: await a button press; nothing in scope wakes the processor.
    pub fn stop(&mut self)
        requires
            cycle_headroom(*old(self)),
        ensures
            *final(self) == (Cpu { run_state: RunState::Stopped, ..with_cycles(*old(self), 4) }),
    {
        self.run_state = RunState::Stopped;
        self.bump_cycles(4);
    }

    /// `HALT`: await an interrupt.
    pub fn halt(&mut self)
        requires
            cycle_headroom(*old(self)),
        ensures
            *final(self) == (Cpu { run_state: RunState::Halted, ..with_cycles(*old(self), 4) }),
    {
        self.run_state = RunState::Halted;
        self.bump_cycles(4);
    }

    /// `DI`: disable interrupts once the next instruction has completed.
    pub fn di(&mut self)
        requires
            cycle_headroom(*old(self)),
        ensures
            *final(self) == (Cpu {
                interrupts: InterruptState::WillDisable,
                ..with_cycles(*old(self), 4)
            }),
    {
        self.interrupts = InterruptState::WillDisable;
        self.bump_cycles(4);
    }

    /// `EI`: enable interrupts once the next instruction has completed.
    pub fn ei(&mut self)
        requires
            cycle_headroom(*old(self)),
        ensures
            *final(self) == (Cpu {
                interrupts: InterruptState::WillEnable,
                ..with_cycles(*old(self), 4)
            }),
    {
        self.interrupts = InterruptState::WillEnable;
        self.bump_cycles(4);
    }

    /// `SCF`: set the carry flag.
    pub fn scf(&mut self)
        requires
            cycle_headroom(*old(self)),
        ensures
            *final(self) == (Cpu {
                f: CpuFlags(pack_flags(old(self).f.0, z_of(old(self).f.0), false, false, true)),
                ..with_cycles(*old(self), 4)
            }),
    {
        let z = self.f.z();
        self.f.write_flags(z, false, false, true);
        self.bump_cycles(4);
    }

    /// `CCF`: complement the carry flag.
    pub fn ccf(&mut self)
        requires
            cycle_headroom(*old(self)),
        ensures
            *final(self) == (Cpu {
                f: CpuFlags(
                    pack_flags(
                        old(self).f.0,
                        z_of(old(self).f.0),
                        false,
                        false,
                        !c_of(old(self).f.0),
                    ),
                ),
                ..with_cycles(*old(self), 4)
            }),
    {
        let z = self.f.z();
        let carry = self.f.c();
        self.f.write_flags(z, false, false, !carry);
        self.bump_cycles(4);
    }

    /// `CPL`: complement the accumulator; sets subtract and half-carry.
    pub fn cpl(&mut self)
        requires
            cycle_headroom(*old(self)),
        ensures
            *final(self) == (Cpu {
                a: !old(self).a,
                f: CpuFlags(
                    pack_flags(
                        old(self).f.0,
                        z_of(old(self).f.0),
                        true,
                        true,
                        c_of(old(self).f.0),
                    ),
                ),
                ..with_cycles(*old(self), 4)
            }),
    {
        let z = self.f.z();
        let carry = self.f.c();
        self.a = !self.a;
        self.f.write_flags(z, true, true, carry);
        self.bump_cycles(4);
    }

    /// `DAA`.
    pub fn daa(&mut self)
        requires
            cycle_headroom(*old(self)),
        ensures
            *final(self) == with_cycles(sp_daa(*old(self)), 4),
    {
        let n = self.f.n();
        let h = self.f.h();
        let mut carry = self.f.c();
        if !n {
            if carry || self.a > 0x99 {
                self.a = self.a.wrapping_add(0x60);
                carry = true;
            }
            if h || (self.a & 0x0F) > 0x9 {
                self.a = self.a.wrapping_add(0x6);
            }
        } else {
            if carry {
                self.a = self.a.wrapping_sub(0x60);
            }
            if h {
                self.a = self.a.wrapping_sub(0x6);
            }
        }
        let z = self.a == 0;
        self.f.write_flags(z, n, false, carry);
        self.bump_cycles(4);
    }

    /// `JP HL`.
    pub fn jp_hl(&mut self)
        requires
            cycle_headroom(*old(self)),
        ensures
            *final(self) == (Cpu { pc: get16(*old(self), Reg16::HL), ..with_cycles(*old(self), 4) }),
    {
        self.pc = self.hl();
        self.bump_cycles(4);
    }

    /// `LD SP,HL`.
    pub fn ld_sp_hl(&mut self)
        requires
            cycle_headroom(*old(self)),
        ensures
            *final(self) == (Cpu { sp: get16(*old(self), Reg16::HL), ..with_cycles(*old(self), 8) }),
    {
        self.sp = self.hl();
        self.bump_cycles(8);
    }

    /// `LD r,r'`: a register-to-register copy.
    pub fn ld_r_r(&mut self, dst: Reg8, src: Reg8)
        requires
            cycle_headroom(*old(self)),
        ensures
            *final(self) == with_cycles(set8(*old(self), dst, get8(*old(self), src)), 4),
    {
        let v = self.reg8(src);
        self.set_reg8(dst, v);
        self.bump_cycles(4);
    }

    /// `LD r,n`: an immediate byte into a register.
    pub fn ld_r_n(&mut self, dst: Reg8, n: u8)
        requires
            cycle_headroom(*old(self)),
        ensures
            *final(self) == with_cycles(set8(*old(self), dst, n), 8),
    {
        self.set_reg8(dst, n);
        self.bump_cycles(8);
    }

    /// `LD r,(rr)`: a memory read through a 16-bit pair.
    pub fn ld_r_deref(&mut self, mmu: &Mmu, dst: Reg8, rr: Reg16)
        requires
            cycle_headroom(*old(self)),
        ensures
            *final(self) == with_cycles(
                set8(*old(self), dst, mem_read(mmu@, get16(*old(self), rr))),
                8,
            ),
    {
        let addr = self.reg16(rr);
        let v = mmu.read_u8(addr);
        self.set_reg8(dst, v);
        self.bump_cycles(8);
    }

    /// `LD (rr),r`: a memory write through a 16-bit pair.
    pub fn ld_deref_r(&mut self, mmu: &mut Mmu, rr: Reg16, src: Reg8)
        requires
            cycle_headroom(*old(self)),
            can_write(old(mmu)@, get16(*old(self), rr)),
        ensures
            *final(self) == with_cycles(*old(self), 8),
            final(mmu)@ == mem_write(old(mmu)@, get16(*old(self), rr), get8(*old(self), src)),
    {
        let addr = self.reg16(rr);
        let v = self.reg8(src);
        mmu.write_u8(addr, v);
        self.bump_cycles(8);
    }

    /// `LD (HL),n`: an immediate byte into memory.
    pub fn ld_deref_hl_n(&mut self, mmu: &mut Mmu, n: u8)
        requires
            cycle_headroom(*old(self)),
            can_write(old(mmu)@, get16(*old(self), Reg16::HL)),
        ensures
            *final(self) == with_cycles(*old(self), 12),
            final(mmu)@ == mem_write(old(mmu)@, get16(*old(self), Reg16::HL), n),
    {
        let addr = self.hl();
        mmu.write_u8(addr, n);
        self.bump_cycles(12);
    }

    /// `LD rr,nn`: a 16-bit immediate, low byte first.
    pub fn ld_rr_nn(&mut self, rr: Reg16, lo: u8, hi: u8)
        requires
            cycle_headroom(*old(self)),
        ensures
            *final(self) == with_cycles(sp_ld_rr_nn(*old(self), rr, lo, hi), 12),
    {
        match rr {
            Reg16::BC => {
                self.b = hi;
                self.c = lo;
            },
            Reg16::DE => {
                self.d = hi;
                self.e = lo;
            },
            Reg16::HL => {
                self.h = hi;
                self.l = lo;
            },
            Reg16::SP => {
                self.sp = (hi as u16) * 0x100 + lo as u16;
            },
        }
        self.bump_cycles(12);
    }

    /// `LD (nn),A`: the accumulator to an absolute address.
    pub fn ld_nn_a(&mut self, mmu: &mut Mmu, addr: u16)
        requires
            cycle_headroom(*old(self)),
            can_write(old(mmu)@, addr),
        ensures
            *final(self) == with_cycles(*old(self), 16),
            final(mmu)@ == mem_write(old(mmu)@, addr, old(self).a),
    {
        mmu.write_u8(addr, self.a);
        self.bump_cycles(16);
    }

    /// `LD A,(nn)`: an absolute address into the accumulator.
    pub fn ld_a_nn(&mut self, mmu: &Mmu, addr: u16)
        requires
            cycle_headroom(*old(self)),
        ensures
            *final(self) == (Cpu { a: mem_read(mmu@, addr), ..with_cycles(*old(self), 16) }),
    {
        self.a = mmu.read_u8(addr);
        self.bump_cycles(16);
    }

    /// `LD A,(C)`: high-page read at `0xFF00 + C`.
    pub fn ld_a_addr_c(&mut self, mmu: &Mmu)
        requires
            cycle_headroom(*old(self)),
        ensures
            *final(self) == (Cpu {
                a: mem_read(mmu@, (0xFF00 + old(self).c as int) as u16),
                ..with_cycles(*old(self), 8)
            }),
    {
        self.a = mmu.read_u8(0xFF00 + self.c as u16);
        self.bump_cycles(8);
    }

    /// `LD (C),A`: high-page write at `0xFF00 + C`.
    pub fn ld_addr_c_a(&mut self, mmu: &mut Mmu)
        requires
            cycle_headroom(*old(self)),
        ensures
            *final(self) == with_cycles(*old(self), 8),
            final(mmu)@ == mem_write(old(mmu)@, (0xFF00 + old(self).c as int) as u16, old(self).a),
    {
        mmu.write_u8(0xFF00 + self.c as u16, self.a);
        self.bump_cycles(8);
    }

    /// `LDH (n),A`: high-page write at `0xFF00 + n`.
    pub fn ldh_deref_n_a(&mut self, mmu: &mut Mmu, n: u8)
        requires
            cycle_headroom(*old(self)),
        ensures
            *final(self) == with_cycles(*old(self), 12),
            final(mmu)@ == mem_write(old(mmu)@, (0xFF00 + n as int) as u16, old(self).a),
    {
        mmu.write_u8(0xFF00 + n as u16, self.a);
        self.bump_cycles(12);
    }

    /// `LDH A,(n)`: high-page read at `0xFF00 + n`.
    pub fn ldh_a_deref_n(&mut self, mmu: &Mmu, n: u8)
        requires
            cycle_headroom(*old(self)),
        ensures
            *final(self) == (Cpu {
                a: mem_read(mmu@, (0xFF00 + n as int) as u16),
                ..with_cycles(*old(self), 12)
            }),
    {
        self.a = mmu.read_u8(0xFF00 + n as u16);
        self.bump_cycles(12);
    }

    /// `LD (HL+),A`: store then increment the pair.
    pub fn ld_hli_a(&mut self, mmu: &mut Mmu)
        requires
            cycle_headroom(*old(self)),
            can_write(old(mmu)@, get16(*old(self), Reg16::HL)),
        ensures
            *final(self) == with_cycles(
                set16(*old(self), Reg16::HL, add16(get16(*old(self), Reg16::HL), 1)),
                8,
            ),
            final(mmu)@ == mem_write(old(mmu)@, get16(*old(self), Reg16::HL), old(self).a),
    {
        let addr = self.hl();
        mmu.write_u8(addr, self.a);
        self.set_hl(addr.wrapping_add(1));
        self.bump_cycles(8);
    }

    /// `LD (HL-),A`: store then decrement the pair.
    pub fn ld_hld_a(&mut self, mmu: &mut Mmu)
        requires
            cycle_headroom(*old(self)),
            can_write(old(mmu)@, get16(*old(self), Reg16::HL)),
        ensures
            *final(self) == with_cycles(
                set16(*old(self), Reg16::HL, sub16(get16(*old(self), Reg16::HL), 1)),
                8,
            ),
            final(mmu)@ == mem_write(old(mmu)@, get16(*old(self), Reg16::HL), old(self).a),
    {
        let addr = self.hl();
        mmu.write_u8(addr, self.a);
        self.set_hl(addr.wrapping_sub(1));
        self.bump_cycles(8);
    }

    /// `LD A,(HL+)`: load then increment the pair.
    pub fn ld_a_hli(&mut self, mmu: &Mmu)
        requires
            cycle_headroom(*old(self)),
        ensures
            *final(self) == with_cycles(
                set16(
                    Cpu { a: mem_read(mmu@, get16(*old(self), Reg16::HL)), ..*old(self) },
                    Reg16::HL,
                    add16(get16(*old(self), Reg16::HL), 1),
                ),
                8,
            ),
    {
        let addr = self.hl();
        self.a = mmu.read_u8(addr);
        self.set_hl(addr.wrapping_add(1));
        self.bump_cycles(8);
    }

    /// `LD A,(HL-)`: load then decrement the pair.
    pub fn ld_a_hld(&mut self, mmu: &Mmu)
        requires
            cycle_headroom(*old(self)),
        ensures
            *final(self) == with_cycles(
                set16(
                    Cpu { a: mem_read(mmu@, get16(*old(self), Reg16::HL)), ..*old(self) },
                    Reg16::HL,
                    sub16(get16(*old(self), Reg16::HL), 1),
                ),
                8,
            ),
    {
        let addr = self.hl();
        self.a = mmu.read_u8(addr);
        self.set_hl(addr.wrapping_sub(1));
        self.bump_cycles(8);
    }

    /// `LD (nn),SP`: the stack pointer to an absolute address, little-endian.
    pub fn ld_deref_a16_sp(&mut self, mmu: &mut Mmu, addr: u16)
        requires
            cycle_headroom(*old(self)),
            can_write(old(mmu)@, addr),
            can_write(old(mmu)@, add16(addr, 1)),
        ensures
            *final(self) == with_cycles(*old(self), 20),
            final(mmu)@ == crate::mmu::mem_write16(old(mmu)@, addr, old(self).sp),
    {
        mmu.write_u16(addr, self.sp);
        self.bump_cycles(20);
    }

    /// `LD HL,SP+n`: the displaced stack pointer into HL, with the
    /// displacement flag rule.
    pub fn ld_hl_sp_plus_n(&mut self, n: u8)
        requires
            cycle_headroom(*old(self)),
        ensures
            *final(self) == with_cycles(
                set16(
                    Cpu {
                        f: CpuFlags(sp_disp_flags(old(self).f.0, old(self).sp, n)),
                        ..*old(self)
                    },
                    Reg16::HL,
                    add16(old(self).sp, sign_ext(n)),
                ),
                12,
            ),
    {
        self.set_disp_flags(n);
        let hl = self.sp.wrapping_add(n as i8 as u16);
        self.set_hl(hl);
        self.bump_cycles(12);
    }

    /// `ADD SP,n`: a signed displacement onto the stack pointer.
    pub fn add_sp_n(&mut self, n: u8)
        requires
            cycle_headroom(*old(self)),
        ensures
            *final(self) == (Cpu {
                sp: add16(old(self).sp, sign_ext(n)),
                f: CpuFlags(sp_disp_flags(old(self).f.0, old(self).sp, n)),
                ..with_cycles(*old(self), 16)
            }),
    {
        self.set_disp_flags(n);
        self.sp = self.sp.wrapping_add(n as i8 as u16);
        self.bump_cycles(16);
    }

    fn set_disp_flags(&mut self, n: u8)
        ensures
            *final(self) == (Cpu {
                f: CpuFlags(sp_disp_flags(old(self).f.0, old(self).sp, n)),
                ..*old(self)
            }),
    {
        let low = (self.sp & 0xFF) as u8;
        let carry = if n < 0x80 {
            low as u16 + n as u16 > 0xFF
        } else {
            (low as u16) + (n as u16) < 0x100
        };
        let half = if n == 0 {
            false
        } else if n < 0x80 {
            test_half_carry_addition(low, n)
        } else {
            test_half_carry_subtraction(low, (0x100 - n as u16) as u8)
        };
        self.f.write_flags(false, false, half, carry);
    }

    /// One arithmetic block operation on a register operand.
    pub fn alu_r(&mut self, op: AluOp, r: Reg8)
        requires
            cycle_headroom(*old(self)),
        ensures
            *final(self) == with_cycles(sp_alu(*old(self), op, get8(*old(self), r)), 4),
    {
        let v = self.reg8(r);
        self.apply_alu(op, v);
        self.bump_cycles(4);
    }

    /// One arithmetic block operation on the memory operand at HL.
    pub fn alu_deref_hl(&mut self, op: AluOp, mmu: &Mmu)
        requires
            cycle_headroom(*old(self)),
        ensures
            *final(self) == with_cycles(
                sp_alu(*old(self), op, mem_read(mmu@, get16(*old(self), Reg16::HL))),
                8,
            ),
    {
        let addr = self.hl();
        let v = mmu.read_u8(addr);
        self.apply_alu(op, v);
        self.bump_cycles(8);
    }

    /// One arithmetic block operation on an immediate operand.
    pub fn alu_n(&mut self, op: AluOp, n: u8)
        requires
            cycle_headroom(*old(self)),
        ensures
            *final(self) == with_cycles(sp_alu(*old(self), op, n), 8),
    {
        self.apply_alu(op, n);
        self.bump_cycles(8);
    }

    /// `INC r`.
    pub fn inc_r(&mut self, r: Reg8)
        requires
            cycle_headroom(*old(self)),
        ensures
            *final(self) == with_cycles(sp_inc_r(*old(self), r), 4),
    {
        let v = self.reg8(r);
        let half = test_half_carry_addition(v, 1);
        let carry = self.f.c();
        let r2 = v.wrapping_add(1);
        self.f.write_flags(r2 == 0, false, half, carry);
        self.set_reg8(r, r2);
        self.bump_cycles(4);
    }

    /// `DEC r`.
    pub fn dec_r(&mut self, r: Reg8)
        requires
            cycle_headroom(*old(self)),
        ensures
            *final(self) == with_cycles(sp_dec_r(*old(self), r), 4),
    {
        let v = self.reg8(r);
        let half = test_half_carry_subtraction(v, 1);
        let carry = self.f.c();
        let r2 = v.wrapping_sub(1);
        self.f.write_flags(r2 == 0, true, half, carry);
        self.set_reg8(r, r2);
        self.bump_cycles(4);
    }

    /// `INC (HL)`.
    pub fn inc_deref_hl(&mut self, mmu: &mut Mmu)
        requires
            cycle_headroom(*old(self)),
            can_write(old(mmu)@, get16(*old(self), Reg16::HL)),
        ensures
            *final(self) == (Cpu {
                f: CpuFlags(
                    inc_flags(old(self).f.0, mem_read(old(mmu)@, get16(*old(self), Reg16::HL))),
                ),
                ..with_cycles(*old(self), 12)
            }),
            final(mmu)@ == mem_write(
                old(mmu)@,
                get16(*old(self), Reg16::HL),
                add8(mem_read(old(mmu)@, get16(*old(self), Reg16::HL)), 1),
            ),
    {
        let addr = self.hl();
        let v = mmu.read_u8(addr);
        let half = test_half_carry_addition(v, 1);
        let carry = self.f.c();
        let r2 = v.wrapping_add(1);
        mmu.write_u8(addr, r2);
        self.f.write_flags(r2 == 0, false, half, carry);
        self.bump_cycles(12);
    }

    /// `DEC (HL)`.
    pub fn dec_deref_hl(&mut self, mmu: &mut Mmu)
        requires
            cycle_headroom(*old(self)),
            can_write(old(mmu)@, get16(*old(self), Reg16::HL)),
        ensures
            *final(self) == (Cpu {
                f: CpuFlags(
                    dec_flags(old(self).f.0, mem_read(old(mmu)@, get16(*old(self), Reg16::HL))),
                ),
                ..with_cycles(*old(self), 12)
            }),
            final(mmu)@ == mem_write(
                old(mmu)@,
                get16(*old(self), Reg16::HL),
                sub8(mem_read(old(mmu)@, get16(*old(self), Reg16::HL)), 1),
            ),
    {
        let addr = self.hl();
        let v = mmu.read_u8(addr);
        let half = test_half_carry_subtraction(v, 1);
        let carry = self.f.c();
        let r2 = v.wrapping_sub(1);
        mmu.write_u8(addr, r2);
        self.f.write_flags(r2 == 0, true, half, carry);
        self.bump_cycles(12);
    }

    /// `INC rr`: no flag effects.
    pub fn inc_rr(&mut self, rr: Reg16)
        requires
            cycle_headroom(*old(self)),
        ensures
            *final(self) == with_cycles(
                set16(*old(self), rr, add16(get16(*old(self), rr), 1)),
                8,
            ),
    {
        let v = self.reg16(rr);
        self.set_reg16(rr, v.wrapping_add(1));
        self.bump_cycles(8);
    }

    /// `DEC rr`: no flag effects.
    pub fn dec_rr(&mut self, rr: Reg16)
        requires
            cycle_headroom(*old(self)),
        ensures
            *final(self) == with_cycles(
                set16(*old(self), rr, sub16(get16(*old(self), rr), 1)),
                8,
            ),
    {
        let v = self.reg16(rr);
        self.set_reg16(rr, v.wrapping_sub(1));
        self.bump_cycles(8);
    }

    /// `ADD HL,rr`.
    pub fn add_hl_rr(&mut self, rr: Reg16)
        requires
            cycle_headroom(*old(self)),
        ensures
            *final(self) == with_cycles(sp_add_hl_rr(*old(self), rr), 8),
    {
        let (hi, lo): (u8, u8) = match rr {
            Reg16::BC => (self.b, self.c),
            Reg16::DE => (self.d, self.e),
            Reg16::HL => (self.h, self.l),
            Reg16::SP => ((self.sp >> 8) as u8, (self.sp & 0xFF) as u8),
        };
        let lcar: u8 = if self.l as u16 + lo as u16 > 0xFF {
            1
        } else {
            0
        };
        let folded = hi.wrapping_add(lcar);
        let half = test_half_carry_addition(self.h, folded);
        let ovf = (self.h as u32) * 0x100 + self.l as u32 + (hi as u32) * 0x100 + (lo as u32)
            > 0xFFFF;
        let z = self.f.z();
        self.h = self.h.wrapping_add(hi).wrapping_add(lcar);
        self.l = self.l.wrapping_add(lo);
        self.f.write_flags(z, false, half || ovf, ovf);
        self.bump_cycles(8);
    }

    /// An accumulator rotate (`RLCA`, `RLA`, `RRCA`, `RRA`): the zero flag is
    /// always cleared.
    pub fn rot_a(&mut self, op: RotOp)
        requires
            cycle_headroom(*old(self)),
        ensures
            *final(self) == with_cycles(sp_rot_a(*old(self), op), 4),
    {
        let v = self.a;
        let cin = self.f.c();
        let r = Self::rot_compute(op, v, cin);
        let carry = Self::rot_carry_of(op, v);
        self.a = r;
        self.f.write_flags(false, false, false, carry);
        self.bump_cycles(4);
    }

    /// An extended-space rotate/shift on a register: the zero flag follows
    /// the result.
    pub fn cb_rot_r(&mut self, op: RotOp, r: Reg8)
        requires
            cycle_headroom(*old(self)),
        ensures
            *final(self) == with_cycles(
                set8(
                    Cpu {
                        f: CpuFlags(rot_flags(old(self).f.0, op, get8(*old(self), r))),
                        ..*old(self)
                    },
                    r,
                    rot_result(op, get8(*old(self), r), c_of(old(self).f.0)),
                ),
                8,
            ),
    {
        let v = self.reg8(r);
        let r2 = self.apply_rot(op, v);
        self.set_reg8(r, r2);
        self.bump_cycles(8);
    }

    /// An extended-space rotate/shift on the memory operand at HL.
    pub fn cb_rot_deref_hl(&mut self, op: RotOp, mmu: &mut Mmu)
        requires
            cycle_headroom(*old(self)),
            can_write(old(mmu)@, get16(*old(self), Reg16::HL)),
        ensures
            *final(self) == (Cpu {
                f: CpuFlags(
                    rot_flags(old(self).f.0, op, mem_read(old(mmu)@, get16(*old(self), Reg16::HL))),
                ),
                ..with_cycles(*old(self), 16)
            }),
            final(mmu)@ == mem_write(
                old(mmu)@,
                get16(*old(self), Reg16::HL),
                rot_result(
                    op,
                    mem_read(old(mmu)@, get16(*old(self), Reg16::HL)),
                    c_of(old(self).f.0),
                ),
            ),
    {
        let addr = self.hl();
        let v = mmu.read_u8(addr);
        let r = self.apply_rot(op, v);
        mmu.write_u8(addr, r);
        self.bump_cycles(16);
    }

    /// `BIT b,r`: report the complement of the tested bit in the carry flag.
    pub fn bit_r(&mut self, b: u8, r: Reg8)
        requires
            cycle_headroom(*old(self)),
            b < 8,
        ensures
            *final(self) == (Cpu {
                f: CpuFlags(sp_bit_flags(old(self).f.0, b, get8(*old(self), r))),
                ..with_cycles(*old(self), 8)
            }),
    {
        let v = self.reg8(r);
        let z = self.f.z();
        self.f.write_flags(z, false, true, v & (1u8 << b) == 0);
        self.bump_cycles(8);
    }

    /// `BIT b,(HL)`.
    pub fn bit_deref_hl(&mut self, b: u8, mmu: &Mmu)
        requires
            cycle_headroom(*old(self)),
            b < 8,
        ensures
            *final(self) == (Cpu {
                f: CpuFlags(
                    sp_bit_flags(old(self).f.0, b, mem_read(mmu@, get16(*old(self), Reg16::HL))),
                ),
                ..with_cycles(*old(self), 16)
            }),
    {
        let addr = self.hl();
        let v = mmu.read_u8(addr);
        let z = self.f.z();
        self.f.write_flags(z, false, true, v & (1u8 << b) == 0);
        self.bump_cycles(16);
    }

    /// `RES b,r`: clear one bit; no flag effects.
    pub fn res_r(&mut self, b: u8, r: Reg8)
        requires
            cycle_headroom(*old(self)),
            b < 8,
        ensures
            *final(self) == with_cycles(
                set8(*old(self), r, get8(*old(self), r) & !(1u8 << b)),
                8,
            ),
    {
        let v = self.reg8(r);
        self.set_reg8(r, v & !(1u8 << b));
        self.bump_cycles(8);
    }

    /// `RES b,(HL)`.
    pub fn res_deref_hl(&mut self, b: u8, mmu: &mut Mmu)
        requires
            cycle_headroom(*old(self)),
            b < 8,
            can_write(old(mmu)@, get16(*old(self), Reg16::HL)),
        ensures
            *final(self) == with_cycles(*old(self), 16),
            final(mmu)@ == mem_write(
                old(mmu)@,
                get16(*old(self), Reg16::HL),
                mem_read(old(mmu)@, get16(*old(self), Reg16::HL)) & !(1u8 << b),
            ),
    {
        let addr = self.hl();
        let v = mmu.read_u8(addr);
        mmu.write_u8(addr, v & !(1u8 << b));
        self.bump_cycles(16);
    }

    /// `SET b,r`: set one bit; no flag effects.
    pub fn set_r(&mut self, b: u8, r: Reg8)
        requires
            cycle_headroom(*old(self)),
            b < 8,
        ensures
            *final(self) == with_cycles(
                set8(*old(self), r, get8(*old(self), r) | (1u8 << b)),
                8,
            ),
    {
        let v = self.reg8(r);
        self.set_reg8(r, v | (1u8 << b));
        self.bump_cycles(8);
    }

    /// `SET b,(HL)`.
    pub fn set_deref_hl(&mut self, b: u8, mmu: &mut Mmu)
        requires
            cycle_headroom(*old(self)),
            b < 8,
            can_write(old(mmu)@, get16(*old(self), Reg16::HL)),
        ensures
            *final(self) == with_cycles(*old(self), 16),
            final(mmu)@ == mem_write(
                old(mmu)@,
                get16(*old(self), Reg16::HL),
                mem_read(old(mmu)@, get16(*old(self), Reg16::HL)) | (1u8 << b),
            ),
    {
        let addr = self.hl();
        let v = mmu.read_u8(addr);
        mmu.write_u8(addr, v | (1u8 << b));
        self.bump_cycles(16);
    }

    /// `JR n`: a signed relative jump from past the operand.
    pub fn jr_n(&mut self, n: u8)
        requires
            cycle_headroom(*old(self)),
        ensures
            *final(self) == (Cpu {
                pc: add16(old(self).pc, sign_ext(n)),
                ..with_cycles(*old(self), 12)
            }),
    {
        self.pc = self.pc.wrapping_add(n as i8 as u16);
        self.bump_cycles(12);
    }

    /// `JR cc,n`: taken costs 12 cycles and displaces the program counter;
    /// not taken costs 8 and leaves it just past the operand.
    pub fn jr_cc(&mut self, cc: Cond, n: u8)
        requires
            cycle_headroom(*old(self)),
        ensures
            *final(self) == (if cond_holds(cc, old(self).f.0) {
                Cpu { pc: add16(old(self).pc, sign_ext(n)), ..with_cycles(*old(self), 12) }
            } else {
                with_cycles(*old(self), 8)
            }),
    {
        if self.cond(cc) {
            self.jr_n(n);
        } else {
            self.bump_cycles(8);
        }
    }

    /// `JP nn`.
    pub fn jp_nn(&mut self, addr: u16)
        requires
            cycle_headroom(*old(self)),
        ensures
            *final(self) == (Cpu { pc: addr, ..with_cycles(*old(self), 16) }),
    {
        self.pc = addr;
        self.bump_cycles(16);
    }

    /// `JP cc,nn`: taken costs 16 cycles; not taken costs 12.
    pub fn jp_cc(&mut self, cc: Cond, addr: u16)
        requires
            cycle_headroom(*old(self)),
        ensures
            *final(self) == (if cond_holds(cc, old(self).f.0) {
                Cpu { pc: addr, ..with_cycles(*old(self), 16) }
            } else {
                with_cycles(*old(self), 12)
            }),
    {
        if self.cond(cc) {
            self.jp_nn(addr);
        } else {
            self.bump_cycles(12);
        }
    }

    /// Push a 16-bit value: high byte at the stack pointer, low byte below,
    /// stack pointer down by two.
    pub fn push_u16(&mut self, mmu: &mut Mmu, value: u16)
        requires
            can_push16(old(self).sp, old(mmu)@),
        ensures
            *final(self) == (Cpu { sp: sub16(old(self).sp, 2), ..*old(self) }),
            final(mmu)@ == push16_mem(old(mmu)@, old(self).sp, value),
    {
        mmu.write_u8(self.sp, (value >> 8) as u8);
        self.sp = self.sp - 1;
        mmu.write_u8(self.sp, (value & 0xFF) as u8);
        self.sp = self.sp - 1;
    }

    /// `CALL nn`: the return address (just past the three instruction bytes)
    /// is pushed before the target operand is read back from memory.
    pub fn call_nn(&mut self, mmu: &mut Mmu)
        requires
            cycle_headroom(*old(self)),
            can_push16(old(self).sp, old(mmu)@),
        ensures
            ({
                let m1 = push16_mem(old(mmu)@, old(self).sp, add16(old(self).pc, 2));
                &&& final(mmu)@ == m1
                &&& *final(self) == (Cpu {
                    pc: crate::mmu::mem_read16(m1, old(self).pc),
                    sp: sub16(old(self).sp, 2),
                    ..with_cycles(*old(self), 24)
                })
            }),
    {
        let ret_addr = self.pc.wrapping_add(2);
        self.push_u16(mmu, ret_addr);
        let lo = self.next_byte(mmu);
        let hi = self.next_byte(mmu);
        self.pc = (hi as u16) * 0x100 + lo as u16;
        self.bump_cycles(24);
    }

    /// `CALL cc,nn`: not taken skips the operand and costs 12 cycles.
    pub fn call_cc(&mut self, cc: Cond, mmu: &mut Mmu)
        requires
            cycle_headroom(*old(self)),
            cond_holds(cc, old(self).f.0) ==> can_push16(old(self).sp, old(mmu)@),
        ensures
            ({
                if cond_holds(cc, old(self).f.0) {
                    let m1 = push16_mem(old(mmu)@, old(self).sp, add16(old(self).pc, 2));
                    &&& final(mmu)@ == m1
                    &&& *final(self) == (Cpu {
                        pc: crate::mmu::mem_read16(m1, old(self).pc),
                        sp: sub16(old(self).sp, 2),
                        ..with_cycles(*old(self), 24)
                    })
                } else {
                    &&& final(mmu)@ == old(mmu)@
                    &&& *final(self) == (Cpu {
                        pc: add16(old(self).pc, 2),
                        ..with_cycles(*old(self), 12)
                    })
                }
            }),
    {
        if self.cond(cc) {
            self.call_nn(mmu);
        } else {
            self.pc = self.pc.wrapping_add(2);
            self.bump_cycles(12);
        }
    }

    /// `RST n`: push the program counter and jump to a fixed vector.
    pub fn rst(&mut self, mmu: &mut Mmu, target: u16)
        requires
            cycle_headroom(*old(self)),
            can_push16(old(self).sp, old(mmu)@),
        ensures
            final(mmu)@ == push16_mem(old(mmu)@, old(self).sp, old(self).pc),
            *final(self) == (Cpu {
                pc: target,
                sp: sub16(old(self).sp, 2),
                ..with_cycles(*old(self), 16)
            }),
    {
        let pc = self.pc;
        self.push_u16(mmu, pc);
        self.pc = target;
        self.bump_cycles(16);
    }

    /// `RET`: pop the program counter; the stack pointer wraps silently.
    pub fn ret(&mut self, mmu: &Mmu)
        requires
            cycle_headroom(*old(self)),
        ensures
            *final(self) == (Cpu {
                pc: crate::mmu::mem_read16(mmu@, add16(old(self).sp, 1)),
                sp: add16(old(self).sp, 2),
                ..with_cycles(*old(self), 16)
            }),
    {
        self.sp = self.sp.wrapping_add(1);
        let lo = mmu.read_u8(self.sp);
        self.sp = self.sp.wrapping_add(1);
        let hi = mmu.read_u8(self.sp);
        self.pc = (hi as u16) * 0x100 + lo as u16;
        self.bump_cycles(16);
    }

    /// `RET cc`: taken costs 20 cycles; not taken costs 8.
    pub fn ret_cc(&mut self, cc: Cond, mmu: &Mmu)
        requires
            cycle_headroom(*old(self)),
        ensures
            *final(self) == (if cond_holds(cc, old(self).f.0) {
                Cpu {
                    pc: crate::mmu::mem_read16(mmu@, add16(old(self).sp, 1)),
                    sp: add16(old(self).sp, 2),
                    ..with_cycles(*old(self), 20)
                }
            } else {
                with_cycles(*old(self), 8)
            }),
    {
        if self.cond(cc) {
            self.ret(mmu);
            self.bump_cycles(4);
        } else {
            self.bump_cycles(8);
        }
    }

    /// `RETI`: return and unconditionally re-enable interrupts.
    pub fn reti(&mut self, mmu: &Mmu)
        requires
            cycle_headroom(*old(self)),
        ensures
            *final(self) == (Cpu {
                pc: crate::mmu::mem_read16(mmu@, add16(old(self).sp, 1)),
                sp: add16(old(self).sp, 2),
                interrupts: InterruptState::Enabled,
                ..with_cycles(*old(self), 16)
            }),
    {
        self.ret(mmu);
        self.interrupts = InterruptState::Enabled;
    }

    /// `PUSH rr` for the three register pairs.
    pub fn push_rr(&mut self, mmu: &mut Mmu, rr: Reg16)
        requires
            cycle_headroom(*old(self)),
            can_push16(old(self).sp, old(mmu)@),
            rr != Reg16::SP,
        ensures
            *final(self) == (Cpu {
                sp: sub16(old(self).sp, 2),
                ..with_cycles(*old(self), 16)
            }),
            final(mmu)@ == push16_mem(old(mmu)@, old(self).sp, get16(*old(self), rr)),
    {
        let v = self.reg16(rr);
        self.push_u16(mmu, v);
        self.bump_cycles(16);
    }

    /// `PUSH AF`: the accumulator above the raw flag byte.
    pub fn push_af(&mut self, mmu: &mut Mmu)
        requires
            cycle_headroom(*old(self)),
            can_push16(old(self).sp, old(mmu)@),
        ensures
            *final(self) == (Cpu {
                sp: sub16(old(self).sp, 2),
                ..with_cycles(*old(self), 16)
            }),
            final(mmu)@ == push16_mem(
                old(mmu)@,
                old(self).sp,
                ((old(self).a as int) * 0x100 + old(self).f.0) as u16,
            ),
    {
        let v = (self.a as u16) * 0x100 + self.f.0 as u16;
        self.push_u16(mmu, v);
        self.bump_cycles(16);
    }

    /// `POP rr` for the three register pairs; guarded against running off
    /// the top of the address space.
    pub fn pop_rr(&mut self, mmu: &Mmu, rr: Reg16)
        requires
            cycle_headroom(*old(self)),
            old(self).sp <= 0xFFFD,
            rr != Reg16::SP,
        ensures
            *final(self) == with_cycles(sp_pop_rr(*old(self), mmu@, rr), 12),
    {
        self.sp = self.sp + 1;
        let lo = mmu.read_u8(self.sp);
        self.sp = self.sp + 1;
        let hi = mmu.read_u8(self.sp);
        match rr {
            Reg16::BC => {
                self.b = hi;
                self.c = lo;
            },
            Reg16::DE => {
                self.d = hi;
                self.e = lo;
            },
            Reg16::HL => {
                self.h = hi;
                self.l = lo;
            },
            Reg16::SP => {},
        }
        self.bump_cycles(12);
    }

    /// `POP AF`: the low nibble of the restored flag byte is forced to zero,
    /// whatever was popped.
    pub fn pop_af(&mut self, mmu: &Mmu)
        requires
            cycle_headroom(*old(self)),
            old(self).sp <= 0xFFFD,
        ensures
            *final(self) == (Cpu {
                a: mem_read(mmu@, add16(old(self).sp, 2)),
                f: CpuFlags(mem_read(mmu@, add16(old(self).sp, 1)) & 0xF0),
                sp: add16(old(self).sp, 2),
                ..with_cycles(*old(self), 12)
            }),
            final(self).f.0 & 0x0F == 0,
    {
        self.sp = self.sp + 1;
        let lo = mmu.read_u8(self.sp);
        self.f.0 = lo & 0xF0;
        self.sp = self.sp + 1;
        let hi = mmu.read_u8(self.sp);
        self.a = hi;
        self.bump_cycles(12);
        proof {
            assert((lo & 0xF0) & 0x0F == 0) by (bit_vector);
        }
    }
}


/// The register operand encoded by the low three bits of an opcode; slot 6
/// names the memory operand and is handled apart.
pub open spec fn reg_of(k: int) -> Reg8 {
    if k == 0 {
        Reg8::B
    } else if k == 1 {
        Reg8::C
    } else if k == 2 {
        Reg8::D
    } else if k == 3 {
        Reg8::E
    } else if k == 4 {
        Reg8::H
    } else if k == 5 {
        Reg8::L
    } else {
        Reg8::A
    }
}

/// The register pair encoded by bits 4 and 5 of an opcode.
pub open spec fn rr_of(k: int) -> Reg16 {
    if k == 0 {
        Reg16::BC
    } else if k == 1 {
        Reg16::DE
    } else if k == 2 {
        Reg16::HL
    } else {
        Reg16::SP
    }
}

/// The arithmetic operation encoded by a row of the arithmetic block.
pub open spec fn aluop_of(k: int) -> AluOp {
    if k == 0 {
        AluOp::Add
    } else if k == 1 {
        AluOp::Adc
    } else if k == 2 {
        AluOp::Sub
    } else if k == 3 {
        AluOp::Sbc
    } else if k == 4 {
        AluOp::And
    } else if k == 5 {
        AluOp::Xor
    } else if k == 6 {
        AluOp::Or
    } else {
        AluOp::Cp
    }
}

/// The rotate/shift operation encoded by a row of the extended space.
pub open spec fn rotop_of(k: int) -> RotOp {
    if k == 0 {
        RotOp::Rlc
    } else if k == 1 {
        RotOp::Rrc
    } else if k == 2 {
        RotOp::Rl
    } else if k == 3 {
        RotOp::Rr
    } else if k == 4 {
        RotOp::Sla
    } else if k == 5 {
        RotOp::Sra
    } else if k == 6 {
        RotOp::Swap
    } else {
        RotOp::Srl
    }
}

/// The branch condition encoded by bits 3 and 4 of a conditional opcode.
pub open spec fn cond_of(k: int) -> Cond {
    if k == 0 {
        Cond::NZ
    } else if k == 1 {
        Cond::Z
    } else if k == 2 {
        Cond::NC
    } else {
        Cond::C
    }
}

/// Whether a dispatch index names a defined instruction. The twelve empty
/// base slots are genuinely undefined on this processor — reaching one is an
/// illegal program, not missing coverage — and the extended prefix itself is
/// not an instruction.
pub open spec fn defined_opcode(idx: usize) -> bool {
    if idx >= 0x200 {
        false
    } else if idx >= 0x100 {
        true
    } else {
        !(idx == 0xCB || idx == 0xD3 || idx == 0xDB || idx == 0xDD || idx == 0xE3 || idx == 0xE4
            || idx == 0xEB || idx == 0xEC || idx == 0xED || idx == 0xF4 || idx == 0xFC || idx
            == 0xFD)
    }
}

/// Whether the instruction at a dispatch index can run from this state: it
/// must be defined, its memory writes must land on writable addresses, and
/// its stack traffic must stay within the stack-pointer guards.
pub open spec fn instr_ok(c: Cpu, m: MemModel, idx: usize) -> bool {
    let hl = get16(c, Reg16::HL);
    &&& defined_opcode(idx)
    &&& if idx < 0x40 {
        if idx == 0x02 {
            can_write(m, get16(c, Reg16::BC))
        } else if idx == 0x12 {
            can_write(m, get16(c, Reg16::DE))
        } else if idx == 0x08 {
            let a = crate::mmu::mem_read16(m, c.pc);
            can_write(m, a) && can_write(m, add16(a, 1))
        } else if idx == 0x22 || idx == 0x32 || idx == 0x34 || idx == 0x35 || idx == 0x36 {
            can_write(m, hl)
        } else {
            true
        }
    } else if idx < 0x80 {
        if 0x70 <= idx && idx <= 0x77 && idx != 0x76 {
            can_write(m, hl)
        } else {
            true
        }
    } else if idx < 0x100 {
        if idx == 0xC5 || idx == 0xD5 || idx == 0xE5 || idx == 0xF5 || idx == 0xCD || idx % 8
            == 7 {
            can_push16(c.sp, m)
        } else if idx == 0xC4 || idx == 0xCC || idx == 0xD4 || idx == 0xDC {
            cond_holds(cond_of(((idx - 0xC0) as int) / 8), c.f.0) ==> can_push16(c.sp, m)
        } else if idx == 0xC1 || idx == 0xD1 || idx == 0xE1 || idx == 0xF1 {
            c.sp <= 0xFFFD
        } else if idx == 0xEA {
            can_write(m, crate::mmu::mem_read16(m, c.pc))
        } else {
            true
        }
    } else {
        let g = ((idx - 0x100) as int) / 8;
        if idx % 8 == 6 && !(8 <= g && g < 16) {
            can_write(m, hl)
        } else {
            true
        }
    }
}

/// The machine after one instruction of the lowest quarter of the base
/// opcode space.
pub open spec fn instr_next_low(c: Cpu, m: MemModel, idx: usize) -> (Cpu, MemModel) {
    let hl = get16(c, Reg16::HL);
    let n = mem_read(m, c.pc);
    let c1 = Cpu { pc: add16(c.pc, 1), ..c };
    let lo = mem_read(m, c.pc);
    let hi = mem_read(m, add16(c.pc, 1));
    let c2 = Cpu { pc: add16(c.pc, 2), ..c };
    if idx % 8 == 4 {
        if idx == 0x34 {
            (
                Cpu { f: CpuFlags(inc_flags(c.f.0, mem_read(m, hl))), ..with_cycles(c, 12) },
                mem_write(m, hl, add8(mem_read(m, hl), 1)),
            )
        } else {
            (with_cycles(sp_inc_r(c, reg_of((idx as int) / 8)), 4), m)
        }
    } else if idx % 8 == 5 {
        if idx == 0x35 {
            (
                Cpu { f: CpuFlags(dec_flags(c.f.0, mem_read(m, hl))), ..with_cycles(c, 12) },
                mem_write(m, hl, sub8(mem_read(m, hl), 1)),
            )
        } else {
            (with_cycles(sp_dec_r(c, reg_of((idx as int) / 8)), 4), m)
        }
    } else if idx % 8 == 6 {
        if idx == 0x36 {
            (with_cycles(c1, 12), mem_write(m, hl, n))
        } else {
            (with_cycles(set8(c1, reg_of((idx as int) / 8), n), 8), m)
        }
    } else if idx % 16 == 1 {
        (with_cycles(sp_ld_rr_nn(c2, rr_of((idx as int) / 16), lo, hi), 12), m)
    } else if idx % 16 == 3 {
        (with_cycles(set16(c, rr_of((idx as int) / 16), add16(get16(c, rr_of((idx as int) / 16)), 1)), 8), m)
    } else if idx % 16 == 0xB {
        (with_cycles(set16(c, rr_of((idx as int) / 16), sub16(get16(c, rr_of((idx as int) / 16)), 1)), 8), m)
    } else if idx % 16 == 9 {
        (with_cycles(sp_add_hl_rr(c, rr_of((idx as int) / 16)), 8), m)
    } else if idx == 0x00 {
        (with_cycles(c, 4), m)
    } else if idx == 0x02 {
        (with_cycles(c, 8), mem_write(m, get16(c, Reg16::BC), c.a))
    } else if idx == 0x07 {
        (with_cycles(sp_rot_a(c, RotOp::Rlc), 4), m)
    } else if idx == 0x08 {
        let a = crate::mmu::mem_read16(m, c.pc);
        (with_cycles(c2, 20), crate::mmu::mem_write16(m, a, c.sp))
    } else if idx == 0x0A {
        (with_cycles(set8(c, Reg8::A, mem_read(m, get16(c, Reg16::BC))), 8), m)
    } else if idx == 0x0F {
        (with_cycles(sp_rot_a(c, RotOp::Rrc), 4), m)
    } else if idx == 0x10 {
        (Cpu { run_state: RunState::Stopped, ..with_cycles(c, 4) }, m)
    } else if idx == 0x12 {
        (with_cycles(c, 8), mem_write(m, get16(c, Reg16::DE), c.a))
    } else if idx == 0x17 {
        (with_cycles(sp_rot_a(c, RotOp::Rl), 4), m)
    } else if idx == 0x18 {
        (Cpu { pc: add16(add16(c.pc, 1), sign_ext(n)), ..with_cycles(c, 12) }, m)
    } else if idx == 0x1A {
        (with_cycles(set8(c, Reg8::A, mem_read(m, get16(c, Reg16::DE))), 8), m)
    } else if idx == 0x1F {
        (with_cycles(sp_rot_a(c, RotOp::Rr), 4), m)
    } else if idx == 0x20 || idx == 0x28 || idx == 0x30 || idx == 0x38 {
        let cc = cond_of(((idx - 0x20) as int) / 8);
        if cond_holds(cc, c.f.0) {
            (Cpu { pc: add16(add16(c.pc, 1), sign_ext(n)), ..with_cycles(c, 12) }, m)
        } else {
            (with_cycles(c1, 8), m)
        }
    } else if idx == 0x22 {
        (with_cycles(set16(c, Reg16::HL, add16(hl, 1)), 8), mem_write(m, hl, c.a))
    } else if idx == 0x27 {
        (with_cycles(sp_daa(c), 4), m)
    } else if idx == 0x2A {
        (with_cycles(set16(Cpu { a: mem_read(m, hl), ..c }, Reg16::HL, add16(hl, 1)), 8), m)
    } else if idx == 0x2F {
        (
            Cpu {
                a: !c.a,
                f: CpuFlags(pack_flags(c.f.0, z_of(c.f.0), true, true, c_of(c.f.0))),
                ..with_cycles(c, 4)
            },
            m,
        )
    } else if idx == 0x32 {
        (with_cycles(set16(c, Reg16::HL, sub16(hl, 1)), 8), mem_write(m, hl, c.a))
    } else if idx == 0x37 {
        (Cpu { f: CpuFlags(pack_flags(c.f.0, z_of(c.f.0), false, false, true)), ..with_cycles(c, 4) }, m)
    } else if idx == 0x3A {
        (with_cycles(set16(Cpu { a: mem_read(m, hl), ..c }, Reg16::HL, sub16(hl, 1)), 8), m)
    } else if idx == 0x3F {
        (
            Cpu {
                f: CpuFlags(pack_flags(c.f.0, z_of(c.f.0), false, false, !c_of(c.f.0))),
                ..with_cycles(c, 4)
            },
            m,
        )
    } else {
        (c, m)
    }
}

/// The machine after one instruction of the register-copy block.
pub open spec fn instr_next_ld(c: Cpu, m: MemModel, idx: usize) -> (Cpu, MemModel) {
    let hl = get16(c, Reg16::HL);
    if idx == 0x76 {
        (Cpu { run_state: RunState::Halted, ..with_cycles(c, 4) }, m)
    } else {
        let s = (idx % 8) as int;
        let d = ((idx - 0x40) as int) / 8;
        if s == 6 {
            (with_cycles(set8(c, reg_of(d), mem_read(m, hl)), 8), m)
        } else if d == 6 {
            (with_cycles(c, 8), mem_write(m, hl, get8(c, reg_of(s))))
        } else {
            (with_cycles(set8(c, reg_of(d), get8(c, reg_of(s))), 4), m)
        }
    }
}

/// The machine after one instruction of the arithmetic block.
pub open spec fn instr_next_alu(c: Cpu, m: MemModel, idx: usize) -> (Cpu, MemModel) {
    let op = aluop_of(((idx - 0x80) as int) / 8);
    if idx % 8 == 6 {
        (with_cycles(sp_alu(c, op, mem_read(m, get16(c, Reg16::HL))), 8), m)
    } else {
        (with_cycles(sp_alu(c, op, get8(c, reg_of((idx % 8) as int))), 4), m)
    }
}

/// The machine after one instruction of the top quarter of the base opcode
/// space: stack, control flow, the immediate arithmetic forms and the
/// high-page loads.
pub open spec fn instr_next_ctrl(c: Cpu, m: MemModel, idx: usize) -> (Cpu, MemModel) {
    let n = mem_read(m, c.pc);
    let c1 = Cpu { pc: add16(c.pc, 1), ..c };
    let nn = crate::mmu::mem_read16(m, c.pc);
    let c2 = Cpu { pc: add16(c.pc, 2), ..c };
    let popped_lo = mem_read(m, add16(c.sp, 1));
    let popped_hi = mem_read(m, add16(c.sp, 2));
    if idx == 0xC3 {
        (Cpu { pc: nn, ..with_cycles(c2, 16) }, m)
    } else if idx == 0xC9 {
        (
            Cpu {
                pc: crate::mmu::mem_read16(m, add16(c.sp, 1)),
                sp: add16(c.sp, 2),
                ..with_cycles(c, 16)
            },
            m,
        )
    } else if idx == 0xCD {
        let m1 = push16_mem(m, c.sp, add16(c.pc, 2));
        (
            Cpu {
                pc: crate::mmu::mem_read16(m1, c.pc),
                sp: sub16(c.sp, 2),
                ..with_cycles(c, 24)
            },
            m1,
        )
    } else if idx == 0xD9 {
        (
            Cpu {
                pc: crate::mmu::mem_read16(m, add16(c.sp, 1)),
                sp: add16(c.sp, 2),
                interrupts: InterruptState::Enabled,
                ..with_cycles(c, 16)
            },
            m,
        )
    } else if idx == 0xE0 {
        (with_cycles(c1, 12), mem_write(m, (0xFF00 + n as int) as u16, c.a))
    } else if idx == 0xE2 {
        (with_cycles(c, 8), mem_write(m, (0xFF00 + c.c as int) as u16, c.a))
    } else if idx == 0xE8 {
        (
            Cpu {
                sp: add16(c.sp, sign_ext(n)),
                f: CpuFlags(sp_disp_flags(c.f.0, c.sp, n)),
                ..with_cycles(c1, 16)
            },
            m,
        )
    } else if idx == 0xE9 {
        (Cpu { pc: get16(c, Reg16::HL), ..with_cycles(c, 4) }, m)
    } else if idx == 0xEA {
        (with_cycles(c2, 16), mem_write(m, nn, c.a))
    } else if idx == 0xF0 {
        (Cpu { a: mem_read(m, (0xFF00 + n as int) as u16), ..with_cycles(c1, 12) }, m)
    } else if idx == 0xF1 {
        (
            Cpu {
                a: popped_hi,
                f: CpuFlags(popped_lo & 0xF0),
                sp: add16(c.sp, 2),
                ..with_cycles(c, 12)
            },
            m,
        )
    } else if idx == 0xF2 {
        (Cpu { a: mem_read(m, (0xFF00 + c.c as int) as u16), ..with_cycles(c, 8) }, m)
    } else if idx == 0xF3 {
        (Cpu { interrupts: InterruptState::WillDisable, ..with_cycles(c, 4) }, m)
    } else if idx == 0xF5 {
        (
            Cpu { sp: sub16(c.sp, 2), ..with_cycles(c, 16) },
            push16_mem(m, c.sp, ((c.a as int) * 0x100 + c.f.0) as u16),
        )
    } else if idx == 0xF8 {
        (
            with_cycles(
                set16(
                    Cpu { f: CpuFlags(sp_disp_flags(c.f.0, c.sp, n)), ..c1 },
                    Reg16::HL,
                    add16(c.sp, sign_ext(n)),
                ),
                12,
            ),
            m,
        )
    } else if idx == 0xF9 {
        (Cpu { sp: get16(c, Reg16::HL), ..with_cycles(c, 8) }, m)
    } else if idx == 0xFA {
        (Cpu { a: mem_read(m, nn), ..with_cycles(c2, 16) }, m)
    } else if idx == 0xFB {
        (Cpu { interrupts: InterruptState::WillEnable, ..with_cycles(c, 4) }, m)
    } else if idx % 8 == 7 {
        (
            Cpu { pc: (idx - 0xC7) as u16, sp: sub16(c.sp, 2), ..with_cycles(c, 16) },
            push16_mem(m, c.sp, c.pc),
        )
    } else if idx % 8 == 6 {
        (with_cycles(sp_alu(c1, aluop_of(((idx - 0xC0) as int) / 8), n), 8), m)
    } else if idx == 0xC0 || idx == 0xC8 || idx == 0xD0 || idx == 0xD8 {
        let cc = cond_of(((idx - 0xC0) as int) / 8);
        if cond_holds(cc, c.f.0) {
            (
                Cpu {
                    pc: crate::mmu::mem_read16(m, add16(c.sp, 1)),
                    sp: add16(c.sp, 2),
                    ..with_cycles(c, 20)
                },
                m,
            )
        } else {
            (with_cycles(c, 8), m)
        }
    } else if idx == 0xC1 || idx == 0xD1 || idx == 0xE1 {
        (with_cycles(sp_pop_rr(c, m, rr_of(((idx - 0xC0) as int) / 16)), 12), m)
    } else if idx == 0xC2 || idx == 0xCA || idx == 0xD2 || idx == 0xDA {
        let cc = cond_of(((idx - 0xC0) as int) / 8);
        if cond_holds(cc, c.f.0) {
            (Cpu { pc: nn, ..with_cycles(c2, 16) }, m)
        } else {
            (with_cycles(c2, 12), m)
        }
    } else if idx == 0xC4 || idx == 0xCC || idx == 0xD4 || idx == 0xDC {
        let cc = cond_of(((idx - 0xC0) as int) / 8);
        if cond_holds(cc, c.f.0) {
            let m1 = push16_mem(m, c.sp, add16(c.pc, 2));
            (
                Cpu {
                    pc: crate::mmu::mem_read16(m1, c.pc),
                    sp: sub16(c.sp, 2),
                    ..with_cycles(c, 24)
                },
                m1,
            )
        } else {
            (with_cycles(c2, 12), m)
        }
    } else if idx == 0xC5 || idx == 0xD5 || idx == 0xE5 {
        (
            Cpu { sp: sub16(c.sp, 2), ..with_cycles(c, 16) },
            push16_mem(m, c.sp, get16(c, rr_of(((idx - 0xC0) as int) / 16))),
        )
    } else {
        (c, m)
    }
}

/// The machine after one extended-space instruction: the operation is read
/// from the row, the operand from the column.
pub open spec fn instr_next_cb(c: Cpu, m: MemModel, idx: usize) -> (Cpu, MemModel) {
    let hl = get16(c, Reg16::HL);
    let g = ((idx - 0x100) as int) / 8;
    let j = (idx % 8) as int;
    if g < 8 {
        let op = rotop_of(g);
        if j == 6 {
            (
                Cpu { f: CpuFlags(rot_flags(c.f.0, op, mem_read(m, hl))), ..with_cycles(c, 16) },
                mem_write(m, hl, rot_result(op, mem_read(m, hl), c_of(c.f.0))),
            )
        } else {
            (
                with_cycles(
                    set8(
                        Cpu { f: CpuFlags(rot_flags(c.f.0, op, get8(c, reg_of(j)))), ..c },
                        reg_of(j),
                        rot_result(op, get8(c, reg_of(j)), c_of(c.f.0)),
                    ),
                    8,
                ),
                m,
            )
        }
    } else if g < 16 {
        let b = (g - 8) as u8;
        if j == 6 {
            (Cpu { f: CpuFlags(sp_bit_flags(c.f.0, b, mem_read(m, hl))), ..with_cycles(c, 16) }, m)
        } else {
            (Cpu { f: CpuFlags(sp_bit_flags(c.f.0, b, get8(c, reg_of(j)))), ..with_cycles(c, 8) }, m)
        }
    } else if g < 24 {
        let b = (g - 16) as u8;
        if j == 6 {
            (with_cycles(c, 16), mem_write(m, hl, mem_read(m, hl) & !(1u8 << b)))
        } else {
            (with_cycles(set8(c, reg_of(j), get8(c, reg_of(j)) & !(1u8 << b)), 8), m)
        }
    } else {
        let b = (g - 24) as u8;
        if j == 6 {
            (with_cycles(c, 16), mem_write(m, hl, mem_read(m, hl) | (1u8 << b)))
        } else {
            (with_cycles(set8(c, reg_of(j), get8(c, reg_of(j)) | (1u8 << b)), 8), m)
        }
    }
}

/// The machine after the instruction at a dispatch index.
pub open spec fn instr_next(c: Cpu, m: MemModel, idx: usize) -> (Cpu, MemModel) {
    if idx < 0x40 {
        instr_next_low(c, m, idx)
    } else if idx < 0x80 {
        instr_next_ld(c, m, idx)
    } else if idx < 0xC0 {
        instr_next_alu(c, m, idx)
    } else if idx < 0x100 {
        instr_next_ctrl(c, m, idx)
    } else {
        instr_next_cb(c, m, idx)
    }
}


/// Whether `step` can run from this state: room on the cycle counter, and —
/// when running — the fetched instruction valid in the sense of `instr_ok`;
/// when halted with the interrupt request raised, room on the stack for the
/// service push.
pub open spec fn step_ok(c: Cpu, m: MemModel) -> bool {
    &&& cycle_headroom(c)
    &&& match c.run_state {
        RunState::Running => {
            let op = mem_read(m, c.pc);
            if op == 0xCB {
                instr_ok(
                    Cpu { pc: add16(c.pc, 2), ..c },
                    m,
                    (0x100 + mem_read(m, add16(c.pc, 1)) as int) as usize,
                )
            } else {
                instr_ok(Cpu { pc: add16(c.pc, 1), ..c }, m, op as usize)
            }
        },
        RunState::Halted => mem_read(m, 0xFF0F) & 0x1 != 0 ==> can_push16(c.sp, m),
        RunState::Stopped => true,
    }
}

/// The machine after one `step`: fetch and dispatch when running, with the
/// deferred interrupt toggle resolved if the instruction left the interrupt
/// state alone; a four-cycle tick when halted, servicing a raised V-Blank
/// request; a bare four-cycle tick when stopped.
pub open spec fn step_next(c: Cpu, m: MemModel) -> (Cpu, MemModel) {
    match c.run_state {
        RunState::Running => {
            let op = mem_read(m, c.pc);
            let r = if op == 0xCB {
                instr_next(
                    Cpu { pc: add16(c.pc, 2), ..c },
                    m,
                    (0x100 + mem_read(m, add16(c.pc, 1)) as int) as usize,
                )
            } else {
                instr_next(Cpu { pc: add16(c.pc, 1), ..c }, m, op as usize)
            };
            let ci = r.0;
            let resolved = if ci.interrupts == c.interrupts {
                resolve_interrupts(c.interrupts)
            } else {
                ci.interrupts
            };
            (Cpu { interrupts: resolved, ..ci }, r.1)
        },
        RunState::Halted => {
            if mem_read(m, 0xFF0F) & 0x1 != 0 {
                let m1 = mem_write(m, 0xFF0F, mem_read(m, 0xFF0F) & 0xFE);
                (
                    Cpu {
                        pc: 0x0040,
                        sp: sub16(c.sp, 2),
                        run_state: RunState::Running,
                        ..with_cycles(c, 4)
                    },
                    push16_mem(m1, c.sp, c.pc),
                )
            } else {
                (with_cycles(c, 4), m)
            }
        },
        RunState::Stopped => (with_cycles(c, 4), m),
    }
}

impl Cpu {
    fn reg_sel(k: usize) -> (r: Reg8)
        requires
            k < 8,
            k != 6,
        ensures
            r == reg_of(k as int),
    {
        match k {
            0 => Reg8::B,
            1 => Reg8::C,
            2 => Reg8::D,
            3 => Reg8::E,
            4 => Reg8::H,
            5 => Reg8::L,
            _ => Reg8::A,
        }
    }

    fn rr_sel(k: usize) -> (r: Reg16)
        requires
            k < 4,
        ensures
            r == rr_of(k as int),
    {
        match k {
            0 => Reg16::BC,
            1 => Reg16::DE,
            2 => Reg16::HL,
            _ => Reg16::SP,
        }
    }

    fn aluop_sel(k: usize) -> (r: AluOp)
        requires
            k < 8,
        ensures
            r == aluop_of(k as int),
    {
        match k {
            0 => AluOp::Add,
            1 => AluOp::Adc,
            2 => AluOp::Sub,
            3 => AluOp::Sbc,
            4 => AluOp::And,
            5 => AluOp::Xor,
            6 => AluOp::Or,
            _ => AluOp::Cp,
        }
    }

    fn rotop_sel(k: usize) -> (r: RotOp)
        requires
            k < 8,
        ensures
            r == rotop_of(k as int),
    {
        match k {
            0 => RotOp::Rlc,
            1 => RotOp::Rrc,
            2 => RotOp::Rl,
            3 => RotOp::Rr,
            4 => RotOp::Sla,
            5 => RotOp::Sra,
            6 => RotOp::Swap,
            _ => RotOp::Srl,
        }
    }

    fn cond_sel(k: usize) -> (r: Cond)
        requires
            k < 4,
        ensures
            r == cond_of(k as int),
    {
        match k {
            0 => Cond::NZ,
            1 => Cond::Z,
            2 => Cond::NC,
            _ => Cond::C,
        }
    }

    /// Whether a dispatch index names a defined instruction.
    pub fn opcode_defined(index: usize) -> (r: bool)
        ensures
            r == defined_opcode(index),
    {
        if index >= 0x200 {
            false
        } else if index >= 0x100 {
            true
        } else {
            !(index == 0xCB || index == 0xD3 || index == 0xDB || index == 0xDD || index == 0xE3
                || index == 0xE4 || index == 0xEB || index == 0xEC || index == 0xED || index
                == 0xF4 || index == 0xFC || index == 0xFD)
        }
    }

    #[verifier::rlimit(60)]
    fn execute_low(&mut self, mmu: &mut Mmu, index: usize)
        requires
            index < 0x40,
            instr_ok(*old(self), old(mmu)@, index),
            cycle_headroom(*old(self)),
        ensures
            *final(self) == instr_next_low(*old(self), old(mmu)@, index).0,
            final(mmu)@ == instr_next_low(*old(self), old(mmu)@, index).1,
    {
        if index % 8 == 4 {
            if index == 0x34 {
                self.inc_deref_hl(mmu);
            } else {
                let r = Self::reg_sel(index / 8);
                self.inc_r(r);
            }
        } else if index % 8 == 5 {
            if index == 0x35 {
                self.dec_deref_hl(mmu);
            } else {
                let r = Self::reg_sel(index / 8);
                self.dec_r(r);
            }
        } else if index % 8 == 6 {
            let n = self.next_byte(mmu);
            if index == 0x36 {
                self.ld_deref_hl_n(mmu, n);
            } else {
                let r = Self::reg_sel(index / 8);
                self.ld_r_n(r, n);
            }
        } else if index % 16 == 1 {
            let lo = self.next_byte(mmu);
            let hi = self.next_byte(mmu);
            let rr = Self::rr_sel(index / 16);
            self.ld_rr_nn(rr, lo, hi);
        } else if index % 16 == 3 {
            let rr = Self::rr_sel(index / 16);
            self.inc_rr(rr);
        } else if index % 16 == 0xB {
            let rr = Self::rr_sel(index / 16);
            self.dec_rr(rr);
        } else if index % 16 == 9 {
            let rr = Self::rr_sel(index / 16);
            self.add_hl_rr(rr);
        } else if index == 0x00 {
            self.nop();
        } else if index == 0x02 {
            self.ld_deref_r(mmu, Reg16::BC, Reg8::A);
        } else if index == 0x07 {
            self.rot_a(RotOp::Rlc);
        } else if index == 0x08 {
            let lo = self.next_byte(mmu);
            let hi = self.next_byte(mmu);
            let addr = (hi as u16) * 0x100 + lo as u16;
            self.ld_deref_a16_sp(mmu, addr);
        } else if index == 0x0A {
            self.ld_r_deref(mmu, Reg8::A, Reg16::BC);
        } else if index == 0x0F {
            self.rot_a(RotOp::Rrc);
        } else if index == 0x10 {
            self.stop();
        } else if index == 0x12 {
            self.ld_deref_r(mmu, Reg16::DE, Reg8::A);
        } else if index == 0x17 {
            self.rot_a(RotOp::Rl);
        } else if index == 0x18 {
            let n = self.next_byte(mmu);
            self.jr_n(n);
        } else if index == 0x20 || index == 0x28 || index == 0x30 || index == 0x38 {
            let n = self.next_byte(mmu);
            let cc = Self::cond_sel((index - 0x20) / 8);
            self.jr_cc(cc, n);
        } else if index == 0x1A {
            self.ld_r_deref(mmu, Reg8::A, Reg16::DE);
        } else if index == 0x1F {
            self.rot_a(RotOp::Rr);
        } else if index == 0x22 {
            self.ld_hli_a(mmu);
        } else if index == 0x27 {
            self.daa();
        } else if index == 0x2A {
            self.ld_a_hli(mmu);
        } else if index == 0x2F {
            self.cpl();
        } else if index == 0x32 {
            self.ld_hld_a(mmu);
        } else if index == 0x37 {
            self.scf();
        } else if index == 0x3A {
            self.ld_a_hld(mmu);
        } else {
            self.ccf();
        }
    }

    fn execute_ld(&mut self, mmu: &mut Mmu, index: usize)
        requires
            0x40 <= index < 0x80,
            instr_ok(*old(self), old(mmu)@, index),
            cycle_headroom(*old(self)),
        ensures
            *final(self) == instr_next_ld(*old(self), old(mmu)@, index).0,
            final(mmu)@ == instr_next_ld(*old(self), old(mmu)@, index).1,
    {
        if index == 0x76 {
            self.halt();
        } else {
            let s = index % 8;
            let d = (index - 0x40) / 8;
            if s == 6 {
                let dst = Self::reg_sel(d);
                self.ld_r_deref(mmu, dst, Reg16::HL);
            } else if d == 6 {
                let src = Self::reg_sel(s);
                self.ld_deref_r(mmu, Reg16::HL, src);
            } else {
                let dst = Self::reg_sel(d);
                let src = Self::reg_sel(s);
                self.ld_r_r(dst, src);
            }
        }
    }

    fn execute_alu_block(&mut self, mmu: &Mmu, index: usize)
        requires
            0x80 <= index < 0xC0,
            cycle_headroom(*old(self)),
        ensures
            *final(self) == instr_next_alu(*old(self), mmu@, index).0,
            instr_next_alu(*old(self), mmu@, index).1 == mmu@,
    {
        let op = Self::aluop_sel((index - 0x80) / 8);
        if index % 8 == 6 {
            self.alu_deref_hl(op, mmu);
        } else {
            let r = Self::reg_sel(index % 8);
            self.alu_r(op, r);
        }
    }

    #[verifier::rlimit(60)]
    fn execute_ctrl(&mut self, mmu: &mut Mmu, index: usize)
        requires
            0xC0 <= index < 0x100,
            instr_ok(*old(self), old(mmu)@, index),
            cycle_headroom(*old(self)),
        ensures
            *final(self) == instr_next_ctrl(*old(self), old(mmu)@, index).0,
            final(mmu)@ == instr_next_ctrl(*old(self), old(mmu)@, index).1,
    {
        if index == 0xC3 {
            let lo = self.next_byte(mmu);
            let hi = self.next_byte(mmu);
            self.jp_nn((hi as u16) * 0x100 + lo as u16);
        } else if index == 0xC9 {
            self.ret(mmu);
        } else if index == 0xCD {
            self.call_nn(mmu);
        } else if index == 0xD9 {
            self.reti(mmu);
        } else if index == 0xE0 {
            let n = self.next_byte(mmu);
            self.ldh_deref_n_a(mmu, n);
        } else if index == 0xE2 {
            self.ld_addr_c_a(mmu);
        } else if index == 0xE8 {
            let n = self.next_byte(mmu);
            self.add_sp_n(n);
        } else if index == 0xE9 {
            self.jp_hl();
        } else if index == 0xEA {
            let lo = self.next_byte(mmu);
            let hi = self.next_byte(mmu);
            let addr = (hi as u16) * 0x100 + lo as u16;
            self.ld_nn_a(mmu, addr);
        } else if index == 0xF0 {
            let n = self.next_byte(mmu);
            self.ldh_a_deref_n(mmu, n);
        } else if index == 0xF1 {
            self.pop_af(mmu);
        } else if index == 0xF2 {
            self.ld_a_addr_c(mmu);
        } else if index == 0xF3 {
            self.di();
        } else if index == 0xF5 {
            self.push_af(mmu);
        } else if index == 0xF8 {
            let n = self.next_byte(mmu);
            self.ld_hl_sp_plus_n(n);
        } else if index == 0xF9 {
            self.ld_sp_hl();
        } else if index == 0xFA {
            let lo = self.next_byte(mmu);
            let hi = self.next_byte(mmu);
            let addr = (hi as u16) * 0x100 + lo as u16;
            self.ld_a_nn(mmu, addr);
        } else if index == 0xFB {
            self.ei();
        } else if index % 8 == 7 {
            let target = (index - 0xC7) as u16;
            self.rst(mmu, target);
        } else if index % 8 == 6 {
            let n = self.next_byte(mmu);
            let op = Self::aluop_sel((index - 0xC0) / 8);
            self.alu_n(op, n);
        } else if index == 0xC0 || index == 0xC8 || index == 0xD0 || index == 0xD8 {
            let cc = Self::cond_sel((index - 0xC0) / 8);
            self.ret_cc(cc, mmu);
        } else if index == 0xC1 || index == 0xD1 || index == 0xE1 {
            let rr = Self::rr_sel((index - 0xC0) / 16);
            self.pop_rr(mmu, rr);
        } else if index == 0xC2 || index == 0xCA || index == 0xD2 || index == 0xDA {
            let lo = self.next_byte(mmu);
            let hi = self.next_byte(mmu);
            let cc = Self::cond_sel((index - 0xC0) / 8);
            self.jp_cc(cc, (hi as u16) * 0x100 + lo as u16);
        } else if index == 0xC4 || index == 0xCC || index == 0xD4 || index == 0xDC {
            let cc = Self::cond_sel((index - 0xC0) / 8);
            self.call_cc(cc, mmu);
        } else if index == 0xC5 || index == 0xD5 || index == 0xE5 {
            let rr = Self::rr_sel((index - 0xC0) / 16);
            self.push_rr(mmu, rr);
        } else {
            proof {
                assert(false);
            }
        }
    }

    fn execute_cb(&mut self, mmu: &mut Mmu, index: usize)
        requires
            0x100 <= index < 0x200,
            instr_ok(*old(self), old(mmu)@, index),
            cycle_headroom(*old(self)),
        ensures
            *final(self) == instr_next_cb(*old(self), old(mmu)@, index).0,
            final(mmu)@ == instr_next_cb(*old(self), old(mmu)@, index).1,
    {
        let g = (index - 0x100) / 8;
        let j = index % 8;
        if g < 8 {
            let op = Self::rotop_sel(g);
            if j == 6 {
                self.cb_rot_deref_hl(op, mmu);
            } else {
                let r = Self::reg_sel(j);
                self.cb_rot_r(op, r);
            }
        } else if g < 16 {
            let b = (g - 8) as u8;
            if j == 6 {
                self.bit_deref_hl(b, mmu);
            } else {
                let r = Self::reg_sel(j);
                self.bit_r(b, r);
            }
        } else if g < 24 {
            let b = (g - 16) as u8;
            if j == 6 {
                self.res_deref_hl(b, mmu);
            } else {
                let r = Self::reg_sel(j);
                self.res_r(b, r);
            }
        } else {
            let b = (g - 24) as u8;
            if j == 6 {
                self.set_deref_hl(b, mmu);
            } else {
                let r = Self::reg_sel(j);
                self.set_r(b, r);
            }
        }
    }

    /// Dispatch one instruction by its index: the base opcode byte itself,
    /// or `0x100` plus the second byte for the extended space. The index
    /// must name a defined instruction whose writes the bus accepts.
    pub fn execute(&mut self, mmu: &mut Mmu, index: usize)
        requires
            instr_ok(*old(self), old(mmu)@, index),
            cycle_headroom(*old(self)),
        ensures
            *final(self) == instr_next(*old(self), old(mmu)@, index).0,
            final(mmu)@ == instr_next(*old(self), old(mmu)@, index).1,
    {
        if index < 0x40 {
            self.execute_low(mmu, index);
        } else if index < 0x80 {
            self.execute_ld(mmu, index);
        } else if index < 0xC0 {
            self.execute_alu_block(mmu, index);
        } else if index < 0x100 {
            self.execute_ctrl(mmu, index);
        } else {
            self.execute_cb(mmu, index);
        }
    }

    /// One step of the processor: fetch, decode and execute one instruction,
    /// resolving the deferred interrupt toggle afterwards; or, when halted,
    /// tick four cycles and service a raised V-Blank request by clearing its
    /// request bit, pushing the program counter and jumping to its vector;
    /// or, when stopped, tick four cycles awaiting a button press.
    pub fn step(&mut self, mmu: &mut Mmu)
        requires
            step_ok(*old(self), old(mmu)@),
        ensures
            *final(self) == step_next(*old(self), old(mmu)@).0,
            final(mmu)@ == step_next(*old(self), old(mmu)@).1,
    {
        match self.run_state {
            RunState::Running => {
                let op = self.next_byte(mmu);
                let index: usize = if op == 0xCB {
                    let op2 = self.next_byte(mmu);
                    0x100 + op2 as usize
                } else {
                    op as usize
                };
                let old_interrupts = self.interrupts;
                let resolved = match self.interrupts {
                    InterruptState::WillEnable => InterruptState::Enabled,
                    InterruptState::WillDisable => InterruptState::Disabled,
                    other => other,
                };
                self.execute(mmu, index);
                if self.interrupts == old_interrupts {
                    self.interrupts = resolved;
                }
            },
            RunState::Halted => {
                self.cycles = self.cycles + 4;
                let intf = mmu.read_u8(0xFF0F);
                if intf & 0x1 != 0 {
                    mmu.write_u8(0xFF0F, intf & 0xFE);
                    let pc = self.pc;
                    self.push_u16(mmu, pc);
                    self.pc = 0x0040;
                    self.run_state = RunState::Running;
                }
            },
            RunState::Stopped => {
                self.cycles = self.cycles + 4;
            },
        }
    }
}

/// Issuing the interrupt-enable instruction does not enable interrupts at
/// once: right after its own step the state only announces the coming
/// transition.
pub proof fn lemma_interrupt_enable_delay(c: Cpu, m: MemModel)
    requires
        step_ok(c, m),
        c.run_state == RunState::Running,
        mem_read(m, c.pc) == 0xFB,
        c.interrupts != InterruptState::WillEnable,
    ensures
        step_next(c, m).0.interrupts == InterruptState::WillEnable,
{
}

/// The announced transition lands one instruction later: when the next
/// instruction leaves the interrupt state alone, the step after it resolves
/// a pending toggle to its final state.
pub proof fn lemma_interrupt_delay_resolves(c: Cpu, m: MemModel)
    requires
        step_ok(c, m),
        c.run_state == RunState::Running,
        ({
            let op = mem_read(m, c.pc);
            let r = if op == 0xCB {
                instr_next(
                    Cpu { pc: add16(c.pc, 2), ..c },
                    m,
                    (0x100 + mem_read(m, add16(c.pc, 1)) as int) as usize,
                )
            } else {
                instr_next(Cpu { pc: add16(c.pc, 1), ..c }, m, op as usize)
            };
            r.0.interrupts == c.interrupts
        }),
    ensures
        step_next(c, m).0.interrupts == resolve_interrupts(c.interrupts),
{
}


/// A conditional relative jump pays for the branch only when it is taken:
/// with the condition false it costs 8 cycles and leaves the program
/// counter just past the instruction's two bytes; with the condition true
/// it costs 12 and lands the signed displacement away from there.
pub proof fn lemma_jr_cc_cycle_cost(c: Cpu, m: MemModel)
    requires
        step_ok(c, m),
        c.run_state == RunState::Running,
        mem_read(m, c.pc) == 0x20,
    ensures
        ({
            let n = mem_read(m, add16(c.pc, 1));
            let r = step_next(c, m);
            if z_of(c.f.0) {
                r.0.cycles == c.cycles + 8 && r.0.pc == add16(c.pc, 2)
            } else {
                r.0.cycles == c.cycles + 12 && r.0.pc == add16(add16(c.pc, 2), sign_ext(n))
            }
        }),
{
}


/// What a call pushes, a return pops: a 16-bit value pushed at the stack
/// pointer reads back, little-endian, from one above the new stack top.
pub proof fn lemma_push_pop_round_trip(m: MemModel, sp: u16, value: u16)
    requires
        can_push16(sp, m),
        m.bytes.len() == 0x10000,
        m.cart is Some ==> m.cart->Some_0.len() == 0x4000,
    ensures
        crate::mmu::mem_read16(push16_mem(m, sp, value), sub16(sp, 1)) == value,
{
    let m1 = push16_mem(m, sp, value);
    assert(mem_read(m1, sub16(sp, 1)) == lo16(value));
    assert(mem_read(m1, sp) == hi16(value));
    assert(add16(sub16(sp, 1), 1) == sp);
    assert(value >> 8 < 0x100 && value & 0xFF < 0x100) by (bit_vector);
    assert(((value >> 8) as u16) * 0x100 + (value & 0xFF) == value) by (bit_vector);
}

#[verifier::rlimit(100)]
proof fn lemma_low_cycle_bounds(c: Cpu, m: MemModel, idx: usize)
    requires
        instr_ok(c, m, idx),
        cycle_headroom(c),
        idx < 0x40,
    ensures
        c.cycles + 4 <= instr_next_low(c, m, idx).0.cycles <= c.cycles + 24,
{
}

#[verifier::rlimit(100)]
proof fn lemma_ctrl_cycle_bounds(c: Cpu, m: MemModel, idx: usize)
    requires
        instr_ok(c, m, idx),
        cycle_headroom(c),
        0xC0 <= idx < 0x100,
    ensures
        c.cycles + 4 <= instr_next_ctrl(c, m, idx).0.cycles <= c.cycles + 24,
{
}

#[verifier::rlimit(100)]
proof fn lemma_cb_cycle_bounds(c: Cpu, m: MemModel, idx: usize)
    requires
        instr_ok(c, m, idx),
        cycle_headroom(c),
        0x100 <= idx < 0x200,
    ensures
        c.cycles + 4 <= instr_next_cb(c, m, idx).0.cycles <= c.cycles + 24,
{
}

/// Every defined instruction consumes between 4 and 24 cycles.
#[verifier::rlimit(100)]
pub proof fn lemma_instr_cycle_bounds(c: Cpu, m: MemModel, idx: usize)
    requires
        instr_ok(c, m, idx),
        cycle_headroom(c),
    ensures
        c.cycles + 4 <= instr_next(c, m, idx).0.cycles <= c.cycles + 24,
{
    if idx < 0x40 {
        lemma_low_cycle_bounds(c, m, idx);
    } else if idx < 0xC0 {
    } else if idx < 0x100 {
        lemma_ctrl_cycle_bounds(c, m, idx);
    } else {
        lemma_cb_cycle_bounds(c, m, idx);
    }
}


impl Cpu {
    fn can_push_here(&self, mmu: &Mmu) -> (r: bool)
        ensures
            r == can_push16(self.sp, mmu@),
    {
        self.sp >= 2 && mmu.can_write_at(self.sp) && mmu.can_write_at(self.sp.wrapping_sub(1))
    }

    /// Whether the instruction at a dispatch index can run from this state;
    /// the executable twin of `execute`'s precondition, for drivers that
    /// must test before they step.
    pub fn instr_allowed(&self, mmu: &Mmu, index: usize) -> (r: bool)
        ensures
            r == instr_ok(*self, mmu@, index),
    {
        if !Self::opcode_defined(index) {
            return false;
        }
        let hl = self.hl();
        if index < 0x40 {
            if index == 0x02 {
                mmu.can_write_at(self.bc())
            } else if index == 0x12 {
                mmu.can_write_at(self.de())
            } else if index == 0x08 {
                let a = mmu.read_u16(self.pc);
                mmu.can_write_at(a) && mmu.can_write_at(a.wrapping_add(1))
            } else if index == 0x22 || index == 0x32 || index == 0x34 || index == 0x35 || index
                == 0x36 {
                mmu.can_write_at(hl)
            } else {
                true
            }
        } else if index < 0x80 {
            if 0x70 <= index && index <= 0x77 && index != 0x76 {
                mmu.can_write_at(hl)
            } else {
                true
            }
        } else if index < 0x100 {
            if index == 0xC5 || index == 0xD5 || index == 0xE5 || index == 0xF5 || index == 0xCD
                || index % 8 == 7 {
                self.can_push_here(mmu)
            } else if index == 0xC4 || index == 0xCC || index == 0xD4 || index == 0xDC {
                let cc = Self::cond_sel((index - 0xC0) / 8);
                !self.cond(cc) || self.can_push_here(mmu)
            } else if index == 0xC1 || index == 0xD1 || index == 0xE1 || index == 0xF1 {
                self.sp <= 0xFFFD
            } else if index == 0xEA {
                mmu.can_write_at(mmu.read_u16(self.pc))
            } else {
                true
            }
        } else {
            let g = (index - 0x100) / 8;
            if index % 8 == 6 && !(8 <= g && g < 16) {
                mmu.can_write_at(hl)
            } else {
                true
            }
        }
    }

    /// Whether `step` can run from this state; the executable twin of its
    /// precondition.
    pub fn step_ready(&self, mmu: &Mmu) -> (r: bool)
        ensures
            r == step_ok(*self, mmu@),
    {
        if !(self.cycles <= usize::MAX - 24) {
            return false;
        }
        match self.run_state {
            RunState::Running => {
                let op = mmu.read_u8(self.pc);
                if op == 0xCB {
                    let op2 = mmu.read_u8(self.pc.wrapping_add(1));
                    let probe = Cpu { pc: self.pc.wrapping_add(2), ..*self };
                    probe.instr_allowed(mmu, 0x100 + op2 as usize)
                } else {
                    let probe = Cpu { pc: self.pc.wrapping_add(1), ..*self };
                    probe.instr_allowed(mmu, op as usize)
                }
            },
            RunState::Halted => {
                mmu.read_u8(0xFF0F) & 0x1 == 0 || self.can_push_here(mmu)
            },
            RunState::Stopped => true,
        }
    }
}

} // verus!
