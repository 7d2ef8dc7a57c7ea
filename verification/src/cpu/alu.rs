//! The arithmetic and logic of the instructions, on registers alone.

use crate::bits::{bit_at, get_bit_u8};
use crate::cpu::op_code::Op;
use crate::cpu::status::Status;
use crate::cpu::Cpu;
use vstd::prelude::*;

verus! {

/// `v + 1` within a byte.
pub open spec fn inc8(v: u8) -> u8 {
    if v == 255 {
        0
    } else {
        (v + 1) as u8
    }
}

/// `v - 1` within a byte.
pub open spec fn dec8(v: u8) -> u8 {
    if v == 0 {
        255
    } else {
        (v - 1) as u8
    }
}

pub(crate) fn inc_byte(v: u8) -> (r: u8)
    ensures
        r == inc8(v),
{
    if v == 255 {
        0
    } else {
        v + 1
    }
}

pub(crate) fn dec_byte(v: u8) -> (r: u8)
    ensures
        r == dec8(v),
{
    if v == 0 {
        255
    } else {
        v - 1
    }
}

pub open spec fn is_flag_op(op: Op) -> bool {
    op == Op::Clc || op == Op::Cld || op == Op::Cli || op == Op::Clv || op == Op::Sec || op
        == Op::Sed || op == Op::Sei
}

pub open spec fn is_transfer(op: Op) -> bool {
    op == Op::Tax || op == Op::Tay || op == Op::Tsx || op == Op::Txa || op == Op::Txs || op
        == Op::Tya
}

pub open spec fn is_count(op: Op) -> bool {
    op == Op::Inx || op == Op::Iny || op == Op::Dex || op == Op::Dey
}

/// Whether two register sets hold the same instruction in progress.
pub open spec fn same_decode(a: Cpu, b: Cpu) -> bool {
    a.op == b.op && a.op_mode == b.op_mode && a.op_address == b.op_address && a.cross_page
        == b.cross_page
}

impl Cpu {
    /// The registers after `m` was added to the accumulator with carry.
    /// Overflow is set where both inputs differ in sign from the result.
    #[verifier::opaque]
    pub open spec fn added(self, m: u8) -> Cpu {
        let sum = self.a + m + (if self.p.c { 1int } else { 0 });
        let r = (sum % 256) as u8;
        Cpu {
            a: r,
            p: Status {
                c: sum > 0xff,
                v: (!(self.a ^ m) & (self.a ^ r) & 0x80) != 0,
                ..self.p
            }.with_zn(r),
            ..self
        }
    }

    /// The flags after the register value `reg` was compared with `m`.
    #[verifier::opaque]
    pub open spec fn compared(self, reg: u8, m: u8) -> Cpu {
        Cpu {
            p: Status { c: reg >= m, z: reg == m, n: (reg + 256 - m) % 256 >= 128, ..self.p },
            ..self
        }
    }

    /// The registers after the accumulator took the value `v`.
    pub open spec fn with_a(self, v: u8) -> Cpu {
        Cpu { a: v, p: self.p.with_zn(v), ..self }
    }

    /// The registers after a reading instruction found `m` as its operand.
    #[verifier::opaque]
    pub open spec fn alu_read(self, op: Op, m: u8) -> Cpu {
        match op {
            Op::Adc => self.added(m),
            Op::Sbc => self.added((255 - m) as u8),
            Op::And => self.with_a(self.a & m),
            Op::Ora => self.with_a(self.a | m),
            Op::Eor => self.with_a(self.a ^ m),
            Op::Lda => self.with_a(m),
            Op::Ldx => Cpu { x: m, p: self.p.with_zn(m), ..self },
            Op::Ldy => Cpu { y: m, p: self.p.with_zn(m), ..self },
            Op::Lax => Cpu { a: m, x: m, p: self.p.with_zn(m), ..self },
            Op::Cpa => self.compared(self.a, m),
            Op::Cpx => self.compared(self.x, m),
            Op::Cpy => self.compared(self.y, m),
            Op::Bit => Cpu {
                p: Status { z: (self.a & m) == 0, n: m >= 128, v: bit_at(m as int, 6), ..self.p },
                ..self
            },
            _ => self,
        }
    }

    /// The value that a modifying instruction makes of its operand `m`
    /// under the carry `carry`.
    #[verifier::opaque]
    pub open spec fn modified(op: Op, m: u8, carry: bool) -> u8 {
        let c: int = if carry { 1 } else { 0 };
        match op {
            Op::Inc | Op::Isb => inc8(m),
            Op::Dec | Op::Dcp => dec8(m),
            Op::Asl | Op::Slo => ((m * 2) % 256) as u8,
            Op::Lsr | Op::Sre => m / 2,
            Op::Rol | Op::Rla => ((m * 2) % 256 + c) as u8,
            Op::Ror | Op::Rra => (m / 2 + c * 128) as u8,
            _ => m,
        }
    }

    /// The carry after a modifying instruction: shifts and rotates put
    /// the bit there that left the operand.
    #[verifier::opaque]
    pub open spec fn carry_out(op: Op, m: u8, carry: bool) -> bool {
        match op {
            Op::Asl | Op::Slo | Op::Rol | Op::Rla => m >= 128,
            Op::Lsr | Op::Sre | Op::Ror | Op::Rra => m % 2 == 1,
            _ => carry,
        }
    }

    /// The registers after a modifying instruction found `m` as its
    /// operand, and the value that it writes back. The unofficial
    /// instructions combine a shift, rotate, increment or decrement with
    /// an operation on the accumulator.
    #[verifier::opaque]
    pub open spec fn alu_rmw(self, op: Op, m: u8) -> (Cpu, u8) {
        let r = Cpu::modified(op, m, self.p.c);
        let shifted = Cpu { p: Status { c: Cpu::carry_out(op, m, self.p.c), ..self.p }, ..self };
        let cpu = match op {
            Op::Slo => shifted.with_a(shifted.a | r),
            Op::Rla => shifted.with_a(shifted.a & r),
            Op::Sre => shifted.with_a(shifted.a ^ r),
            Op::Rra => shifted.added(r),
            Op::Dcp => shifted.compared(shifted.a, r),
            Op::Isb => shifted.added((255 - r) as u8),
            _ => Cpu { p: shifted.p.with_zn(r), ..shifted },
        };
        (cpu, r)
    }

    /// The byte that a storing instruction writes.
    pub open spec fn stored_value(self, op: Op) -> u8 {
        match op {
            Op::Sta => self.a,
            Op::Stx => self.x,
            Op::Sty => self.y,
            _ => self.a & self.x,
        }
    }

    /// The registers after an instruction that sets or clears a flag.
    #[verifier::opaque]
    pub open spec fn flag_set(self, op: Op) -> Cpu {
        match op {
            Op::Clc => Cpu { p: Status { c: false, ..self.p }, ..self },
            Op::Cld => Cpu { p: Status { d: false, ..self.p }, ..self },
            Op::Cli => Cpu { p: Status { i: false, ..self.p }, ..self },
            Op::Clv => Cpu { p: Status { v: false, ..self.p }, ..self },
            Op::Sec => Cpu { p: Status { c: true, ..self.p }, ..self },
            Op::Sed => Cpu { p: Status { d: true, ..self.p }, ..self },
            Op::Sei => Cpu { p: Status { i: true, ..self.p }, ..self },
            _ => self,
        }
    }

    /// The registers after an instruction that copies one register to
    /// another.
    #[verifier::opaque]
    pub open spec fn transferred(self, op: Op) -> Cpu {
        match op {
            Op::Tax => Cpu { x: self.a, p: self.p.with_zn(self.a), ..self },
            Op::Tay => Cpu { y: self.a, p: self.p.with_zn(self.a), ..self },
            Op::Tsx => Cpu { x: self.sp, p: self.p.with_zn(self.sp), ..self },
            Op::Txa => Cpu { a: self.x, p: self.p.with_zn(self.x), ..self },
            Op::Txs => Cpu { sp: self.x, ..self },
            Op::Tya => Cpu { a: self.y, p: self.p.with_zn(self.y), ..self },
            _ => self,
        }
    }

    /// The registers after an instruction that counts an index register
    /// up or down.
    #[verifier::opaque]
    pub open spec fn counted(self, op: Op) -> Cpu {
        match op {
            Op::Inx => Cpu { x: inc8(self.x), p: self.p.with_zn(inc8(self.x)), ..self },
            Op::Iny => Cpu { y: inc8(self.y), p: self.p.with_zn(inc8(self.y)), ..self },
            Op::Dex => Cpu { x: dec8(self.x), p: self.p.with_zn(dec8(self.x)), ..self },
            Op::Dey => Cpu { y: dec8(self.y), p: self.p.with_zn(dec8(self.y)), ..self },
            _ => self,
        }
    }

    /// The registers after an instruction that works on registers and
    /// flags alone: flag instructions, transfers, counts and the jump.
    #[verifier::opaque]
    pub open spec fn implied(self, op: Op) -> Cpu {
        if is_flag_op(op) {
            self.flag_set(op)
        } else if is_transfer(op) {
            self.transferred(op)
        } else if is_count(op) {
            self.counted(op)
        } else if op == Op::Jmp {
            Cpu { pc: self.op_address, ..self }
        } else {
            self
        }
    }

    /// The registers after `m` was added to the accumulator with carry.
    pub fn sum(self, m: u8) -> (r: Cpu)
        ensures
            r == self.added(m),
            same_decode(r, self),
    {
        reveal(Cpu::added);
        let sum: u16 = self.a as u16 + m as u16 + (if self.p.c { 1 } else { 0 });
        let r: u8 = (sum % 256) as u8;
        Cpu {
            a: r,
            p: Status { c: sum > 0xff, v: (!(self.a ^ m) & (self.a ^ r) & 0x80) != 0, ..self.p }.zn(
                r,
            ),
            ..self
        }
    }

    /// The registers after `reg` was compared with `m`.
    pub fn difference(self, reg: u8, m: u8) -> (r: Cpu)
        ensures
            r == self.compared(reg, m),
            same_decode(r, self),
    {
        reveal(Cpu::compared);
        Cpu {
            p: Status {
                c: reg >= m,
                z: reg == m,
                n: (reg as u16 + 256 - m as u16) % 256 >= 128,
                ..self.p
            },
            ..self
        }
    }

    /// The registers after the accumulator took the value `v`.
    pub fn loaded_a(self, v: u8) -> (r: Cpu)
        ensures
            r == self.with_a(v),
            same_decode(r, self),
    {
        Cpu { a: v, p: self.p.zn(v), ..self }
    }

    pub fn apply_read(&mut self, op: Op, m: u8)
        ensures
            *final(self) == old(self).alu_read(op, m),
            same_decode(*final(self), *old(self)),
    {
        reveal(Cpu::alu_read);
        let c: Cpu = *self;
        let next: Cpu = match op {
            Op::Adc => c.sum(m),
            Op::Sbc => c.sum(255 - m),
            Op::And => c.loaded_a(c.a & m),
            Op::Ora => c.loaded_a(c.a | m),
            Op::Eor => c.loaded_a(c.a ^ m),
            Op::Lda => c.loaded_a(m),
            Op::Ldx => Cpu { x: m, p: c.p.zn(m), ..c },
            Op::Ldy => Cpu { y: m, p: c.p.zn(m), ..c },
            Op::Lax => Cpu { a: m, x: m, p: c.p.zn(m), ..c },
            Op::Cpa => c.difference(c.a, m),
            Op::Cpx => c.difference(c.x, m),
            Op::Cpy => c.difference(c.y, m),
            Op::Bit => Cpu {
                p: Status { z: (c.a & m) == 0, n: m >= 128, v: get_bit_u8(m, 6), ..c.p },
                ..c
            },
            _ => c,
        };
        *self = next;
    }

    fn modify(op: Op, m: u8, carry: bool) -> (r: u8)
        ensures
            r == Cpu::modified(op, m, carry),
    {
        reveal(Cpu::modified);
        let c: u16 = if carry { 1 } else { 0 };
        match op {
            Op::Inc | Op::Isb => inc_byte(m),
            Op::Dec | Op::Dcp => dec_byte(m),
            Op::Asl | Op::Slo => ((m as u16 * 2) % 256) as u8,
            Op::Lsr | Op::Sre => m / 2,
            Op::Rol | Op::Rla => ((m as u16 * 2) % 256 + c) as u8,
            Op::Ror | Op::Rra => (m as u16 / 2 + c * 128) as u8,
            _ => m,
        }
    }

    fn carry_after(op: Op, m: u8, carry: bool) -> (r: bool)
        ensures
            r == Cpu::carry_out(op, m, carry),
    {
        reveal(Cpu::carry_out);
        match op {
            Op::Asl | Op::Slo | Op::Rol | Op::Rla => m >= 128,
            Op::Lsr | Op::Sre | Op::Ror | Op::Rra => m % 2 == 1,
            _ => carry,
        }
    }

    pub fn apply_rmw(&mut self, op: Op, m: u8) -> (r: u8)
        ensures
            (*final(self), r) == old(self).alu_rmw(op, m),
            same_decode(*final(self), *old(self)),
    {
        reveal(Cpu::alu_rmw);
        let r: u8 = Cpu::modify(op, m, self.p.c);
        let c: bool = Cpu::carry_after(op, m, self.p.c);
        let shifted: Cpu = Cpu { p: Status { c, ..self.p }, ..*self };
        let next: Cpu = match op {
            Op::Slo => shifted.loaded_a(shifted.a | r),
            Op::Rla => shifted.loaded_a(shifted.a & r),
            Op::Sre => shifted.loaded_a(shifted.a ^ r),
            Op::Rra => shifted.sum(r),
            Op::Dcp => shifted.difference(shifted.a, r),
            Op::Isb => shifted.sum(255 - r),
            _ => Cpu { p: shifted.p.zn(r), ..shifted },
        };
        *self = next;
        r
    }

    fn set_flag(self, op: Op) -> (r: Cpu)
        ensures
            r == self.flag_set(op),
            same_decode(r, self),
    {
        reveal(Cpu::flag_set);
        match op {
            Op::Clc => Cpu { p: Status { c: false, ..self.p }, ..self },
            Op::Cld => Cpu { p: Status { d: false, ..self.p }, ..self },
            Op::Cli => Cpu { p: Status { i: false, ..self.p }, ..self },
            Op::Clv => Cpu { p: Status { v: false, ..self.p }, ..self },
            Op::Sec => Cpu { p: Status { c: true, ..self.p }, ..self },
            Op::Sed => Cpu { p: Status { d: true, ..self.p }, ..self },
            Op::Sei => Cpu { p: Status { i: true, ..self.p }, ..self },
            _ => self,
        }
    }

    fn transfer(self, op: Op) -> (r: Cpu)
        ensures
            r == self.transferred(op),
            same_decode(r, self),
    {
        reveal(Cpu::transferred);
        match op {
            Op::Tax => Cpu { x: self.a, p: self.p.zn(self.a), ..self },
            Op::Tay => Cpu { y: self.a, p: self.p.zn(self.a), ..self },
            Op::Tsx => Cpu { x: self.sp, p: self.p.zn(self.sp), ..self },
            Op::Txa => Cpu { a: self.x, p: self.p.zn(self.x), ..self },
            Op::Txs => Cpu { sp: self.x, ..self },
            Op::Tya => Cpu { a: self.y, p: self.p.zn(self.y), ..self },
            _ => self,
        }
    }

    fn count(self, op: Op) -> (r: Cpu)
        ensures
            r == self.counted(op),
            same_decode(r, self),
    {
        reveal(Cpu::counted);
        match op {
            Op::Inx => Cpu { x: inc_byte(self.x), p: self.p.zn(inc_byte(self.x)), ..self },
            Op::Iny => Cpu { y: inc_byte(self.y), p: self.p.zn(inc_byte(self.y)), ..self },
            Op::Dex => Cpu { x: dec_byte(self.x), p: self.p.zn(dec_byte(self.x)), ..self },
            Op::Dey => Cpu { y: dec_byte(self.y), p: self.p.zn(dec_byte(self.y)), ..self },
            _ => self,
        }
    }

    pub fn apply_implied(&mut self, op: Op)
        ensures
            *final(self) == old(self).implied(op),
            same_decode(*final(self), *old(self)),
    {
        reveal(Cpu::implied);
        let c: Cpu = *self;
        let next: Cpu = match op {
            Op::Clc | Op::Cld | Op::Cli | Op::Clv | Op::Sec | Op::Sed | Op::Sei => c.set_flag(op),
            Op::Tax | Op::Tay | Op::Tsx | Op::Txa | Op::Txs | Op::Tya => c.transfer(op),
            Op::Inx | Op::Iny | Op::Dex | Op::Dey => c.count(op),
            Op::Jmp => Cpu { pc: c.op_address, ..c },
            _ => c,
        };
        *self = next;
    }
}


} // verus!
