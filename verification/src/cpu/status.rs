//! The processor status register.

use crate::bits::{bit_at, get_bit_u8};
use vstd::prelude::*;
use vstd::std_specs::convert::FromSpecImpl;
use vstd::string::StringExecFns;

verus! {

/// The seven flags. Bit 5 of the register has no flag and reads as 1; the
/// break flag exists only in the byte that is pushed on the stack.
#[derive(Clone, Copy, Debug, PartialEq, Eq, Structural)]
pub struct Status {
    pub n: bool,
    pub v: bool,
    pub b: bool,
    pub d: bool,
    pub i: bool,
    pub z: bool,
    pub c: bool,
}

/// The value of a flag at bit weight `w`.
pub open spec fn flag(b: bool, w: int) -> int {
    if b {
        w
    } else {
        0
    }
}

impl Status {
    pub open spec fn cleared() -> Status {
        Status { n: false, v: false, b: false, d: false, i: false, z: false, c: false }
    }

    /// The register as a byte: N, V, 1, B, D, I, Z, C from bit 7 down.
    pub open spec fn byte(self) -> u8 {
        (32 + flag(self.n, 128) + flag(self.v, 64) + flag(self.b, 16) + flag(self.d, 8) + flag(
            self.i,
            4,
        ) + flag(self.z, 2) + flag(self.c, 1)) as u8
    }

    /// The flags held in a byte; bits 4 and 5 are ignored.
    pub open spec fn of_byte(b: u8) -> Status {
        Status {
            n: bit_at(b as int, 7),
            v: bit_at(b as int, 6),
            b: false,
            d: bit_at(b as int, 3),
            i: bit_at(b as int, 2),
            z: bit_at(b as int, 1),
            c: bit_at(b as int, 0),
        }
    }

    /// The flags with Z and N set from the value `a`.
    pub open spec fn with_zn(self, a: u8) -> Status {
        Status { z: a == 0, n: a >= 0x80, ..self }
    }

    /// The flags as text: one letter per set flag and a dash per clear
    /// one, with a dash in the place of bit 5.
    pub open spec fn text_of(self) -> Seq<char> {
        seq![
            if self.n { 'N' } else { '-' },
            if self.v { 'V' } else { '-' },
            '-',
            if self.b { 'B' } else { '-' },
            if self.d { 'D' } else { '-' },
            if self.i { 'I' } else { '-' },
            if self.z { 'Z' } else { '-' },
            if self.c { 'C' } else { '-' },
        ]
    }

    pub fn set_zn(&mut self, a: u8)
        ensures
            *final(self) == old(self).with_zn(a),
    {
        self.z = a == 0;
        self.n = a >= 0x80;
    }

    /// The flags with Z and N set from the value `a`.
    pub fn zn(self, a: u8) -> (r: Status)
        ensures
            r == self.with_zn(a),
    {
        Status { z: a == 0, n: a >= 0x80, ..self }
    }

    pub fn to_u8(self) -> (r: u8)
        ensures
            r == self.byte(),
    {
        let n: u8 = if self.n { 128 } else { 0 };
        let v: u8 = if self.v { 64 } else { 0 };
        let b: u8 = if self.b { 16 } else { 0 };
        let d: u8 = if self.d { 8 } else { 0 };
        let i: u8 = if self.i { 4 } else { 0 };
        let z: u8 = if self.z { 2 } else { 0 };
        let c: u8 = if self.c { 1 } else { 0 };
        32 + n + v + b + d + i + z + c
    }

    /// The flags as text, such as `NV--DIZC`.
    pub fn text(&self) -> (r: String)
        ensures
            r@ == self.text_of(),
    {
        let mut s = String::new();
        proof {
            reveal_strlit("N");
            reveal_strlit("V");
            reveal_strlit("B");
            reveal_strlit("D");
            reveal_strlit("I");
            reveal_strlit("Z");
            reveal_strlit("C");
            reveal_strlit("-");
        }
        s.append(if self.n { "N" } else { "-" });
        s.append(if self.v { "V" } else { "-" });
        s.append("-");
        s.append(if self.b { "B" } else { "-" });
        s.append(if self.d { "D" } else { "-" });
        s.append(if self.i { "I" } else { "-" });
        s.append(if self.z { "Z" } else { "-" });
        s.append(if self.c { "C" } else { "-" });
        assert(s@ =~= self.text_of());
        s
    }
}

impl Default for Status {
    fn default() -> (r: Self)
        ensures
            r == Status::cleared(),
    {
        Status { n: false, v: false, b: false, d: false, i: false, z: false, c: false }
    }
}

impl From<u8> for Status {
    fn from(b: u8) -> (r: Self) {
        Status {
            n: get_bit_u8(b, 7),
            v: get_bit_u8(b, 6),
            b: false,
            d: get_bit_u8(b, 3),
            i: get_bit_u8(b, 2),
            z: get_bit_u8(b, 1),
            c: get_bit_u8(b, 0),
        }
    }
}

impl FromSpecImpl<u8> for Status {
    open spec fn obeys_from_spec() -> bool {
        true
    }

    open spec fn from_spec(b: u8) -> Status {
        Status::of_byte(b)
    }
}

/// Writing the flags out as a byte and reading them back changes nothing,
/// as long as the break flag is clear, which a byte read back never sets.
pub proof fn lemma_status_round_trip(p: Status)
    requires
        !p.b,
    ensures
        Status::of_byte(p.byte()) == p,
{
}

/// Bit 5 of the register's byte is always set.
pub proof fn lemma_status_bit5(p: Status)
    ensures
        bit_at(p.byte() as int, 5),
{
}

} // verus!
