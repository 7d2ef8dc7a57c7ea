//! The instruction set: what each opcode does and how long it takes.

use crate::bus::{advance, Bus};
use crate::cpu::addressing::{addr_cycles, AddrMode, ADDR_MODES};
use crate::cpu::alu::same_decode;
use crate::cpu::status::Status;
use crate::cpu::{machine, Cpu, Machine, IRQ_VECTOR};
use vstd::prelude::*;

verus! {

/// The instructions, official and unofficial, by mnemonic. `Cpa` is the
/// comparison with the accumulator, `Top` the three-byte no-operation,
/// `Stp` any opcode that halts the processor.
#[derive(Clone, Copy, Debug, PartialEq, Eq, Structural)]
pub enum Op {
    Adc,
    And,
    Asl,
    Bcc,
    Bcs,
    Beq,
    Bit,
    Bmi,
    Bne,
    Bpl,
    Brk,
    Bvc,
    Bvs,
    Clc,
    Cld,
    Cli,
    Clv,
    Cpa,
    Cpx,
    Cpy,
    Dcp,
    Dec,
    Dex,
    Dey,
    Eor,
    Inc,
    Inx,
    Iny,
    Isb,
    Jmp,
    Jsr,
    Lax,
    Lda,
    Ldx,
    Ldy,
    Lsr,
    Nop,
    Ora,
    Pha,
    Php,
    Pla,
    Plp,
    Rla,
    Rol,
    Ror,
    Rra,
    Rti,
    Rts,
    Sax,
    Sbc,
    Sec,
    Sed,
    Sei,
    Slo,
    Sre,
    Sta,
    Stp,
    Stx,
    Sty,
    Tax,
    Tay,
    Top,
    Tsx,
    Txa,
    Txs,
    Tya,
}

/// The instruction of each opcode.
pub const OPS: [Op; 256] = [
    Op::Brk, Op::Ora, Op::Stp, Op::Slo, Op::Nop, Op::Ora, Op::Asl, Op::Slo,
    Op::Php, Op::Ora, Op::Asl, Op::Stp, Op::Nop, Op::Ora, Op::Asl, Op::Slo,
    Op::Bpl, Op::Ora, Op::Stp, Op::Slo, Op::Nop, Op::Ora, Op::Asl, Op::Slo,
    Op::Clc, Op::Ora, Op::Nop, Op::Slo, Op::Top, Op::Ora, Op::Asl, Op::Slo,
    Op::Jsr, Op::And, Op::Stp, Op::Rla, Op::Bit, Op::And, Op::Rol, Op::Rla,
    Op::Plp, Op::And, Op::Rol, Op::Stp, Op::Bit, Op::And, Op::Rol, Op::Rla,
    Op::Bmi, Op::And, Op::Stp, Op::Rla, Op::Nop, Op::And, Op::Rol, Op::Rla,
    Op::Sec, Op::And, Op::Nop, Op::Rla, Op::Top, Op::And, Op::Rol, Op::Rla,
    Op::Rti, Op::Eor, Op::Stp, Op::Sre, Op::Nop, Op::Eor, Op::Lsr, Op::Sre,
    Op::Pha, Op::Eor, Op::Lsr, Op::Stp, Op::Jmp, Op::Eor, Op::Lsr, Op::Sre,
    Op::Bvc, Op::Eor, Op::Stp, Op::Sre, Op::Nop, Op::Eor, Op::Lsr, Op::Sre,
    Op::Cli, Op::Eor, Op::Nop, Op::Sre, Op::Top, Op::Eor, Op::Lsr, Op::Sre,
    Op::Rts, Op::Adc, Op::Stp, Op::Rra, Op::Nop, Op::Adc, Op::Ror, Op::Rra,
    Op::Pla, Op::Adc, Op::Ror, Op::Stp, Op::Jmp, Op::Adc, Op::Ror, Op::Rra,
    Op::Bvs, Op::Adc, Op::Stp, Op::Rra, Op::Nop, Op::Adc, Op::Ror, Op::Rra,
    Op::Sei, Op::Adc, Op::Nop, Op::Rra, Op::Top, Op::Adc, Op::Ror, Op::Rra,
    Op::Nop, Op::Sta, Op::Nop, Op::Sax, Op::Sty, Op::Sta, Op::Stx, Op::Sax,
    Op::Dey, Op::Nop, Op::Txa, Op::Stp, Op::Sty, Op::Sta, Op::Stx, Op::Sax,
    Op::Bcc, Op::Sta, Op::Stp, Op::Stp, Op::Sty, Op::Sta, Op::Stx, Op::Sax,
    Op::Tya, Op::Sta, Op::Txs, Op::Stp, Op::Stp, Op::Sta, Op::Stp, Op::Stp,
    Op::Ldy, Op::Lda, Op::Ldx, Op::Lax, Op::Ldy, Op::Lda, Op::Ldx, Op::Lax,
    Op::Tay, Op::Lda, Op::Tax, Op::Stp, Op::Ldy, Op::Lda, Op::Ldx, Op::Lax,
    Op::Bcs, Op::Lda, Op::Stp, Op::Lax, Op::Ldy, Op::Lda, Op::Ldx, Op::Lax,
    Op::Clv, Op::Lda, Op::Tsx, Op::Stp, Op::Ldy, Op::Lda, Op::Ldx, Op::Lax,
    Op::Cpy, Op::Cpa, Op::Nop, Op::Dcp, Op::Cpy, Op::Cpa, Op::Dec, Op::Dcp,
    Op::Iny, Op::Cpa, Op::Dex, Op::Stp, Op::Cpy, Op::Cpa, Op::Dec, Op::Dcp,
    Op::Bne, Op::Cpa, Op::Stp, Op::Dcp, Op::Nop, Op::Cpa, Op::Dec, Op::Dcp,
    Op::Cld, Op::Cpa, Op::Nop, Op::Dcp, Op::Top, Op::Cpa, Op::Dec, Op::Dcp,
    Op::Cpx, Op::Sbc, Op::Nop, Op::Isb, Op::Cpx, Op::Sbc, Op::Inc, Op::Isb,
    Op::Inx, Op::Sbc, Op::Nop, Op::Sbc, Op::Cpx, Op::Sbc, Op::Inc, Op::Isb,
    Op::Beq, Op::Sbc, Op::Stp, Op::Isb, Op::Nop, Op::Sbc, Op::Inc, Op::Isb,
    Op::Sed, Op::Sbc, Op::Nop, Op::Isb, Op::Top, Op::Sbc, Op::Inc, Op::Isb,
];

/// Cycles of each opcode as documented for the 6502, before the penalties
/// for page crosses and taken branches; 0 for the halting opcodes.
pub const BASE_CYCLES: [u8; 256] = [
    7, 6, 0, 8, 3, 3, 5, 5, 3, 2, 2, 0, 4, 4, 6, 6,
    2, 5, 0, 8, 4, 4, 6, 6, 2, 4, 2, 7, 4, 4, 7, 7,
    6, 6, 0, 8, 3, 3, 5, 5, 4, 2, 2, 0, 4, 4, 6, 6,
    2, 5, 0, 8, 4, 4, 6, 6, 2, 4, 2, 7, 4, 4, 7, 7,
    6, 6, 0, 8, 3, 3, 5, 5, 3, 2, 2, 0, 3, 4, 6, 6,
    2, 5, 0, 8, 4, 4, 6, 6, 2, 4, 2, 7, 4, 4, 7, 7,
    6, 6, 0, 8, 3, 3, 5, 5, 4, 2, 2, 0, 5, 4, 6, 6,
    2, 5, 0, 8, 4, 4, 6, 6, 2, 4, 2, 7, 4, 4, 7, 7,
    2, 6, 2, 6, 3, 3, 3, 3, 2, 2, 2, 0, 4, 4, 4, 4,
    2, 6, 0, 0, 4, 4, 4, 4, 2, 5, 2, 0, 0, 5, 0, 0,
    2, 6, 2, 6, 3, 3, 3, 3, 2, 2, 2, 0, 4, 4, 4, 4,
    2, 5, 0, 5, 4, 4, 4, 4, 2, 4, 2, 0, 4, 4, 4, 4,
    2, 6, 2, 8, 3, 3, 5, 5, 2, 2, 2, 0, 4, 4, 6, 6,
    2, 5, 0, 8, 4, 4, 6, 6, 2, 4, 2, 7, 4, 4, 7, 7,
    2, 6, 2, 8, 3, 3, 5, 5, 2, 2, 2, 2, 4, 4, 6, 6,
    2, 5, 0, 8, 4, 4, 6, 6, 2, 4, 2, 7, 4, 4, 7, 7,
];

/// Cycles of each opcode beyond its bus accesses.
pub const EXTRA_CYCLES: [u8; 256] = [
    0, 1, 0, 2, 0, 0, 1, 1, 1, 0, 1, 0, 0, 0, 1, 1,
    0, 0, 0, 2, 1, 1, 2, 2, 1, 0, 0, 2, 0, 0, 2, 2,
    1, 1, 0, 2, 0, 0, 1, 1, 2, 0, 1, 0, 0, 0, 1, 1,
    0, 0, 0, 2, 1, 1, 2, 2, 1, 0, 0, 2, 0, 0, 2, 2,
    2, 1, 0, 2, 0, 0, 1, 1, 1, 0, 1, 0, 0, 0, 1, 1,
    0, 0, 0, 2, 1, 1, 2, 2, 1, 0, 0, 2, 0, 0, 2, 2,
    3, 1, 0, 2, 0, 0, 1, 1, 2, 0, 1, 0, 0, 0, 1, 1,
    0, 0, 0, 2, 1, 1, 2, 2, 1, 0, 0, 2, 0, 0, 2, 2,
    0, 1, 0, 1, 0, 0, 0, 0, 1, 0, 1, 0, 0, 0, 0, 0,
    0, 1, 0, 0, 1, 1, 1, 1, 1, 1, 1, 0, 0, 1, 0, 0,
    0, 1, 0, 1, 0, 0, 0, 0, 1, 0, 1, 0, 0, 0, 0, 0,
    0, 0, 0, 0, 1, 1, 1, 1, 1, 0, 1, 0, 0, 0, 0, 0,
    0, 1, 0, 2, 0, 0, 1, 1, 1, 0, 1, 0, 0, 0, 1, 1,
    0, 0, 0, 2, 1, 1, 2, 2, 1, 0, 0, 2, 0, 0, 2, 2,
    0, 1, 0, 2, 0, 0, 1, 1, 1, 0, 0, 0, 0, 0, 1, 1,
    0, 0, 0, 2, 1, 1, 2, 2, 1, 0, 0, 2, 0, 0, 2, 2,
];

/// Instructions that read their operand and change registers or flags.
pub open spec fn is_read(op: Op) -> bool {
    op == Op::Adc || op == Op::Sbc || op == Op::And || op == Op::Ora || op == Op::Eor || op
        == Op::Lda || op == Op::Ldx || op == Op::Ldy || op == Op::Cpa || op == Op::Cpx || op
        == Op::Cpy || op == Op::Bit || op == Op::Lax
}

/// Instructions that read their operand, change it and write it back.
pub open spec fn is_rmw(op: Op) -> bool {
    op == Op::Inc || op == Op::Dec || op == Op::Asl || op == Op::Lsr || op == Op::Rol || op
        == Op::Ror || op == Op::Slo || op == Op::Rla || op == Op::Sre || op == Op::Rra || op
        == Op::Dcp || op == Op::Isb
}

/// Instructions that write a register to memory.
pub open spec fn is_store(op: Op) -> bool {
    op == Op::Sta || op == Op::Stx || op == Op::Sty || op == Op::Sax
}

/// The eight conditional branches.
pub open spec fn is_branch(op: Op) -> bool {
    op == Op::Bcc || op == Op::Bcs || op == Op::Beq || op == Op::Bmi || op == Op::Bne || op
        == Op::Bpl || op == Op::Bvc || op == Op::Bvs
}

/// Instructions that push or pull, subroutine calls and returns.
pub open spec fn is_stack(op: Op) -> bool {
    op == Op::Jsr || op == Op::Rts || op == Op::Rti || op == Op::Pha || op == Op::Php || op
        == Op::Pla || op == Op::Plp
}

/// The kind of an instruction as a number: 0 reading, 1 modifying,
/// 2 storing, 3 branch, 4 stack or subroutine, 5 `Nop`, 6 `Top`, 7 `Brk`,
/// 8 all that work on registers alone.
pub open spec fn op_class(op: Op) -> u8 {
    if is_read(op) {
        0
    } else if is_rmw(op) {
        1
    } else if is_store(op) {
        2
    } else if is_branch(op) {
        3
    } else if is_stack(op) {
        4
    } else if op == Op::Nop {
        5
    } else if op == Op::Top {
        6
    } else if op == Op::Brk {
        7
    } else {
        8
    }
}

/// Whether the branch `op` is taken under the flags `p`.
pub open spec fn branch_taken(op: Op, p: Status) -> bool {
    match op {
        Op::Bcc => !p.c,
        Op::Bcs => p.c,
        Op::Beq => p.z,
        Op::Bmi => p.n,
        Op::Bne => !p.z,
        Op::Bpl => !p.n,
        Op::Bvc => !p.v,
        Op::Bvs => p.v,
        _ => false,
    }
}

/// Bus cycles of the instruction `op` behind the location of its operand.
#[verifier::opaque]
pub open spec fn op_cycles(op: Op, mode: AddrMode, crossed: bool, taken: bool) -> int {
    let direct = mode == AddrMode::ACC || mode == AddrMode::IMP;
    let cross: int = if crossed { 1 } else { 0 };
    if is_read(op) {
        (if direct { 0int } else { 1 }) + cross
    } else if is_rmw(op) {
        if direct { 0 } else { 2 }
    } else if is_store(op) {
        1
    } else if is_branch(op) {
        if taken { 1 + cross } else { 0 }
    } else {
        match op {
            Op::Nop => 1,
            Op::Top => 1 + cross,
            Op::Brk => 6,
            Op::Jsr => 2,
            Op::Rts => 2,
            Op::Rti => 3,
            Op::Pha | Op::Php | Op::Pla | Op::Plp => 1,
            _ => 0,
        }
    }
}

/// Cycles that the instruction with opcode `op` takes: the documented
/// count, one more where an instruction that only reads crossed a page
/// to reach its operand, one more for a branch taken, and one more again
/// if the branch went to another page. `p` holds the flags before the
/// instruction.
#[verifier::opaque]
pub open spec fn instruction_cycles(op: u8, crossed: bool, p: Status) -> int {
    let kind = OPS[op as int];
    BASE_CYCLES[op as int] + (if (is_read(kind) || kind == Op::Top) && crossed {
        1int
    } else {
        0
    }) + (if branch_taken(kind, p) {
        if crossed { 2int } else { 1 }
    } else {
        0
    })
}

/// Whether the cycles of opcode `op` add up: fetch, operand location,
/// the instruction's own bus cycles and the idle cycles make the
/// documented count.
#[verifier::opaque]
pub open spec fn cycles_add_up(op: u8) -> bool {
    1 + addr_cycles(ADDR_MODES[op as int]) + op_cycles(
        OPS[op as int],
        ADDR_MODES[op as int],
        false,
        false,
    ) + EXTRA_CYCLES[op as int] == BASE_CYCLES[op as int]
}

proof fn lemma_cycle_rows_0(op: u8)
    requires
        0 <= op < 16,
    ensures
        OPS[op as int] != Op::Stp ==> cycles_add_up(op),
{
    reveal(cycles_add_up);
    reveal(op_cycles);
    reveal(addr_cycles);
    assert(OPS[0] != Op::Stp ==> cycles_add_up(0u8));
    assert(OPS[1] != Op::Stp ==> cycles_add_up(1u8));
    assert(OPS[2] != Op::Stp ==> cycles_add_up(2u8));
    assert(OPS[3] != Op::Stp ==> cycles_add_up(3u8));
    assert(OPS[4] != Op::Stp ==> cycles_add_up(4u8));
    assert(OPS[5] != Op::Stp ==> cycles_add_up(5u8));
    assert(OPS[6] != Op::Stp ==> cycles_add_up(6u8));
    assert(OPS[7] != Op::Stp ==> cycles_add_up(7u8));
    assert(OPS[8] != Op::Stp ==> cycles_add_up(8u8));
    assert(OPS[9] != Op::Stp ==> cycles_add_up(9u8));
    assert(OPS[10] != Op::Stp ==> cycles_add_up(10u8));
    assert(OPS[11] != Op::Stp ==> cycles_add_up(11u8));
    assert(OPS[12] != Op::Stp ==> cycles_add_up(12u8));
    assert(OPS[13] != Op::Stp ==> cycles_add_up(13u8));
    assert(OPS[14] != Op::Stp ==> cycles_add_up(14u8));
    assert(OPS[15] != Op::Stp ==> cycles_add_up(15u8));
}

proof fn lemma_cycle_rows_1(op: u8)
    requires
        16 <= op < 32,
    ensures
        OPS[op as int] != Op::Stp ==> cycles_add_up(op),
{
    reveal(cycles_add_up);
    reveal(op_cycles);
    reveal(addr_cycles);
    assert(OPS[16] != Op::Stp ==> cycles_add_up(16u8));
    assert(OPS[17] != Op::Stp ==> cycles_add_up(17u8));
    assert(OPS[18] != Op::Stp ==> cycles_add_up(18u8));
    assert(OPS[19] != Op::Stp ==> cycles_add_up(19u8));
    assert(OPS[20] != Op::Stp ==> cycles_add_up(20u8));
    assert(OPS[21] != Op::Stp ==> cycles_add_up(21u8));
    assert(OPS[22] != Op::Stp ==> cycles_add_up(22u8));
    assert(OPS[23] != Op::Stp ==> cycles_add_up(23u8));
    assert(OPS[24] != Op::Stp ==> cycles_add_up(24u8));
    assert(OPS[25] != Op::Stp ==> cycles_add_up(25u8));
    assert(OPS[26] != Op::Stp ==> cycles_add_up(26u8));
    assert(OPS[27] != Op::Stp ==> cycles_add_up(27u8));
    assert(OPS[28] != Op::Stp ==> cycles_add_up(28u8));
    assert(OPS[29] != Op::Stp ==> cycles_add_up(29u8));
    assert(OPS[30] != Op::Stp ==> cycles_add_up(30u8));
    assert(OPS[31] != Op::Stp ==> cycles_add_up(31u8));
}

proof fn lemma_cycle_rows_2(op: u8)
    requires
        32 <= op < 48,
    ensures
        OPS[op as int] != Op::Stp ==> cycles_add_up(op),
{
    reveal(cycles_add_up);
    reveal(op_cycles);
    reveal(addr_cycles);
    assert(OPS[32] != Op::Stp ==> cycles_add_up(32u8));
    assert(OPS[33] != Op::Stp ==> cycles_add_up(33u8));
    assert(OPS[34] != Op::Stp ==> cycles_add_up(34u8));
    assert(OPS[35] != Op::Stp ==> cycles_add_up(35u8));
    assert(OPS[36] != Op::Stp ==> cycles_add_up(36u8));
    assert(OPS[37] != Op::Stp ==> cycles_add_up(37u8));
    assert(OPS[38] != Op::Stp ==> cycles_add_up(38u8));
    assert(OPS[39] != Op::Stp ==> cycles_add_up(39u8));
    assert(OPS[40] != Op::Stp ==> cycles_add_up(40u8));
    assert(OPS[41] != Op::Stp ==> cycles_add_up(41u8));
    assert(OPS[42] != Op::Stp ==> cycles_add_up(42u8));
    assert(OPS[43] != Op::Stp ==> cycles_add_up(43u8));
    assert(OPS[44] != Op::Stp ==> cycles_add_up(44u8));
    assert(OPS[45] != Op::Stp ==> cycles_add_up(45u8));
    assert(OPS[46] != Op::Stp ==> cycles_add_up(46u8));
    assert(OPS[47] != Op::Stp ==> cycles_add_up(47u8));
}

proof fn lemma_cycle_rows_3(op: u8)
    requires
        48 <= op < 64,
    ensures
        OPS[op as int] != Op::Stp ==> cycles_add_up(op),
{
    reveal(cycles_add_up);
    reveal(op_cycles);
    reveal(addr_cycles);
    assert(OPS[48] != Op::Stp ==> cycles_add_up(48u8));
    assert(OPS[49] != Op::Stp ==> cycles_add_up(49u8));
    assert(OPS[50] != Op::Stp ==> cycles_add_up(50u8));
    assert(OPS[51] != Op::Stp ==> cycles_add_up(51u8));
    assert(OPS[52] != Op::Stp ==> cycles_add_up(52u8));
    assert(OPS[53] != Op::Stp ==> cycles_add_up(53u8));
    assert(OPS[54] != Op::Stp ==> cycles_add_up(54u8));
    assert(OPS[55] != Op::Stp ==> cycles_add_up(55u8));
    assert(OPS[56] != Op::Stp ==> cycles_add_up(56u8));
    assert(OPS[57] != Op::Stp ==> cycles_add_up(57u8));
    assert(OPS[58] != Op::Stp ==> cycles_add_up(58u8));
    assert(OPS[59] != Op::Stp ==> cycles_add_up(59u8));
    assert(OPS[60] != Op::Stp ==> cycles_add_up(60u8));
    assert(OPS[61] != Op::Stp ==> cycles_add_up(61u8));
    assert(OPS[62] != Op::Stp ==> cycles_add_up(62u8));
    assert(OPS[63] != Op::Stp ==> cycles_add_up(63u8));
}

proof fn lemma_cycle_rows_4(op: u8)
    requires
        64 <= op < 80,
    ensures
        OPS[op as int] != Op::Stp ==> cycles_add_up(op),
{
    reveal(cycles_add_up);
    reveal(op_cycles);
    reveal(addr_cycles);
    assert(OPS[64] != Op::Stp ==> cycles_add_up(64u8));
    assert(OPS[65] != Op::Stp ==> cycles_add_up(65u8));
    assert(OPS[66] != Op::Stp ==> cycles_add_up(66u8));
    assert(OPS[67] != Op::Stp ==> cycles_add_up(67u8));
    assert(OPS[68] != Op::Stp ==> cycles_add_up(68u8));
    assert(OPS[69] != Op::Stp ==> cycles_add_up(69u8));
    assert(OPS[70] != Op::Stp ==> cycles_add_up(70u8));
    assert(OPS[71] != Op::Stp ==> cycles_add_up(71u8));
    assert(OPS[72] != Op::Stp ==> cycles_add_up(72u8));
    assert(OPS[73] != Op::Stp ==> cycles_add_up(73u8));
    assert(OPS[74] != Op::Stp ==> cycles_add_up(74u8));
    assert(OPS[75] != Op::Stp ==> cycles_add_up(75u8));
    assert(OPS[76] != Op::Stp ==> cycles_add_up(76u8));
    assert(OPS[77] != Op::Stp ==> cycles_add_up(77u8));
    assert(OPS[78] != Op::Stp ==> cycles_add_up(78u8));
    assert(OPS[79] != Op::Stp ==> cycles_add_up(79u8));
}

proof fn lemma_cycle_rows_5(op: u8)
    requires
        80 <= op < 96,
    ensures
        OPS[op as int] != Op::Stp ==> cycles_add_up(op),
{
    reveal(cycles_add_up);
    reveal(op_cycles);
    reveal(addr_cycles);
    assert(OPS[80] != Op::Stp ==> cycles_add_up(80u8));
    assert(OPS[81] != Op::Stp ==> cycles_add_up(81u8));
    assert(OPS[82] != Op::Stp ==> cycles_add_up(82u8));
    assert(OPS[83] != Op::Stp ==> cycles_add_up(83u8));
    assert(OPS[84] != Op::Stp ==> cycles_add_up(84u8));
    assert(OPS[85] != Op::Stp ==> cycles_add_up(85u8));
    assert(OPS[86] != Op::Stp ==> cycles_add_up(86u8));
    assert(OPS[87] != Op::Stp ==> cycles_add_up(87u8));
    assert(OPS[88] != Op::Stp ==> cycles_add_up(88u8));
    assert(OPS[89] != Op::Stp ==> cycles_add_up(89u8));
    assert(OPS[90] != Op::Stp ==> cycles_add_up(90u8));
    assert(OPS[91] != Op::Stp ==> cycles_add_up(91u8));
    assert(OPS[92] != Op::Stp ==> cycles_add_up(92u8));
    assert(OPS[93] != Op::Stp ==> cycles_add_up(93u8));
    assert(OPS[94] != Op::Stp ==> cycles_add_up(94u8));
    assert(OPS[95] != Op::Stp ==> cycles_add_up(95u8));
}

proof fn lemma_cycle_rows_6(op: u8)
    requires
        96 <= op < 112,
    ensures
        OPS[op as int] != Op::Stp ==> cycles_add_up(op),
{
    reveal(cycles_add_up);
    reveal(op_cycles);
    reveal(addr_cycles);
    assert(OPS[96] != Op::Stp ==> cycles_add_up(96u8));
    assert(OPS[97] != Op::Stp ==> cycles_add_up(97u8));
    assert(OPS[98] != Op::Stp ==> cycles_add_up(98u8));
    assert(OPS[99] != Op::Stp ==> cycles_add_up(99u8));
    assert(OPS[100] != Op::Stp ==> cycles_add_up(100u8));
    assert(OPS[101] != Op::Stp ==> cycles_add_up(101u8));
    assert(OPS[102] != Op::Stp ==> cycles_add_up(102u8));
    assert(OPS[103] != Op::Stp ==> cycles_add_up(103u8));
    assert(OPS[104] != Op::Stp ==> cycles_add_up(104u8));
    assert(OPS[105] != Op::Stp ==> cycles_add_up(105u8));
    assert(OPS[106] != Op::Stp ==> cycles_add_up(106u8));
    assert(OPS[107] != Op::Stp ==> cycles_add_up(107u8));
    assert(OPS[108] != Op::Stp ==> cycles_add_up(108u8));
    assert(OPS[109] != Op::Stp ==> cycles_add_up(109u8));
    assert(OPS[110] != Op::Stp ==> cycles_add_up(110u8));
    assert(OPS[111] != Op::Stp ==> cycles_add_up(111u8));
}

proof fn lemma_cycle_rows_7(op: u8)
    requires
        112 <= op < 128,
    ensures
        OPS[op as int] != Op::Stp ==> cycles_add_up(op),
{
    reveal(cycles_add_up);
    reveal(op_cycles);
    reveal(addr_cycles);
    assert(OPS[112] != Op::Stp ==> cycles_add_up(112u8));
    assert(OPS[113] != Op::Stp ==> cycles_add_up(113u8));
    assert(OPS[114] != Op::Stp ==> cycles_add_up(114u8));
    assert(OPS[115] != Op::Stp ==> cycles_add_up(115u8));
    assert(OPS[116] != Op::Stp ==> cycles_add_up(116u8));
    assert(OPS[117] != Op::Stp ==> cycles_add_up(117u8));
    assert(OPS[118] != Op::Stp ==> cycles_add_up(118u8));
    assert(OPS[119] != Op::Stp ==> cycles_add_up(119u8));
    assert(OPS[120] != Op::Stp ==> cycles_add_up(120u8));
    assert(OPS[121] != Op::Stp ==> cycles_add_up(121u8));
    assert(OPS[122] != Op::Stp ==> cycles_add_up(122u8));
    assert(OPS[123] != Op::Stp ==> cycles_add_up(123u8));
    assert(OPS[124] != Op::Stp ==> cycles_add_up(124u8));
    assert(OPS[125] != Op::Stp ==> cycles_add_up(125u8));
    assert(OPS[126] != Op::Stp ==> cycles_add_up(126u8));
    assert(OPS[127] != Op::Stp ==> cycles_add_up(127u8));
}

proof fn lemma_cycle_rows_8(op: u8)
    requires
        128 <= op < 144,
    ensures
        OPS[op as int] != Op::Stp ==> cycles_add_up(op),
{
    reveal(cycles_add_up);
    reveal(op_cycles);
    reveal(addr_cycles);
    assert(OPS[128] != Op::Stp ==> cycles_add_up(128u8));
    assert(OPS[129] != Op::Stp ==> cycles_add_up(129u8));
    assert(OPS[130] != Op::Stp ==> cycles_add_up(130u8));
    assert(OPS[131] != Op::Stp ==> cycles_add_up(131u8));
    assert(OPS[132] != Op::Stp ==> cycles_add_up(132u8));
    assert(OPS[133] != Op::Stp ==> cycles_add_up(133u8));
    assert(OPS[134] != Op::Stp ==> cycles_add_up(134u8));
    assert(OPS[135] != Op::Stp ==> cycles_add_up(135u8));
    assert(OPS[136] != Op::Stp ==> cycles_add_up(136u8));
    assert(OPS[137] != Op::Stp ==> cycles_add_up(137u8));
    assert(OPS[138] != Op::Stp ==> cycles_add_up(138u8));
    assert(OPS[139] != Op::Stp ==> cycles_add_up(139u8));
    assert(OPS[140] != Op::Stp ==> cycles_add_up(140u8));
    assert(OPS[141] != Op::Stp ==> cycles_add_up(141u8));
    assert(OPS[142] != Op::Stp ==> cycles_add_up(142u8));
    assert(OPS[143] != Op::Stp ==> cycles_add_up(143u8));
}

proof fn lemma_cycle_rows_9(op: u8)
    requires
        144 <= op < 160,
    ensures
        OPS[op as int] != Op::Stp ==> cycles_add_up(op),
{
    reveal(cycles_add_up);
    reveal(op_cycles);
    reveal(addr_cycles);
    assert(OPS[144] != Op::Stp ==> cycles_add_up(144u8));
    assert(OPS[145] != Op::Stp ==> cycles_add_up(145u8));
    assert(OPS[146] != Op::Stp ==> cycles_add_up(146u8));
    assert(OPS[147] != Op::Stp ==> cycles_add_up(147u8));
    assert(OPS[148] != Op::Stp ==> cycles_add_up(148u8));
    assert(OPS[149] != Op::Stp ==> cycles_add_up(149u8));
    assert(OPS[150] != Op::Stp ==> cycles_add_up(150u8));
    assert(OPS[151] != Op::Stp ==> cycles_add_up(151u8));
    assert(OPS[152] != Op::Stp ==> cycles_add_up(152u8));
    assert(OPS[153] != Op::Stp ==> cycles_add_up(153u8));
    assert(OPS[154] != Op::Stp ==> cycles_add_up(154u8));
    assert(OPS[155] != Op::Stp ==> cycles_add_up(155u8));
    assert(OPS[156] != Op::Stp ==> cycles_add_up(156u8));
    assert(OPS[157] != Op::Stp ==> cycles_add_up(157u8));
    assert(OPS[158] != Op::Stp ==> cycles_add_up(158u8));
    assert(OPS[159] != Op::Stp ==> cycles_add_up(159u8));
}

proof fn lemma_cycle_rows_a(op: u8)
    requires
        160 <= op < 176,
    ensures
        OPS[op as int] != Op::Stp ==> cycles_add_up(op),
{
    reveal(cycles_add_up);
    reveal(op_cycles);
    reveal(addr_cycles);
    assert(OPS[160] != Op::Stp ==> cycles_add_up(160u8));
    assert(OPS[161] != Op::Stp ==> cycles_add_up(161u8));
    assert(OPS[162] != Op::Stp ==> cycles_add_up(162u8));
    assert(OPS[163] != Op::Stp ==> cycles_add_up(163u8));
    assert(OPS[164] != Op::Stp ==> cycles_add_up(164u8));
    assert(OPS[165] != Op::Stp ==> cycles_add_up(165u8));
    assert(OPS[166] != Op::Stp ==> cycles_add_up(166u8));
    assert(OPS[167] != Op::Stp ==> cycles_add_up(167u8));
    assert(OPS[168] != Op::Stp ==> cycles_add_up(168u8));
    assert(OPS[169] != Op::Stp ==> cycles_add_up(169u8));
    assert(OPS[170] != Op::Stp ==> cycles_add_up(170u8));
    assert(OPS[171] != Op::Stp ==> cycles_add_up(171u8));
    assert(OPS[172] != Op::Stp ==> cycles_add_up(172u8));
    assert(OPS[173] != Op::Stp ==> cycles_add_up(173u8));
    assert(OPS[174] != Op::Stp ==> cycles_add_up(174u8));
    assert(OPS[175] != Op::Stp ==> cycles_add_up(175u8));
}

proof fn lemma_cycle_rows_b(op: u8)
    requires
        176 <= op < 192,
    ensures
        OPS[op as int] != Op::Stp ==> cycles_add_up(op),
{
    reveal(cycles_add_up);
    reveal(op_cycles);
    reveal(addr_cycles);
    assert(OPS[176] != Op::Stp ==> cycles_add_up(176u8));
    assert(OPS[177] != Op::Stp ==> cycles_add_up(177u8));
    assert(OPS[178] != Op::Stp ==> cycles_add_up(178u8));
    assert(OPS[179] != Op::Stp ==> cycles_add_up(179u8));
    assert(OPS[180] != Op::Stp ==> cycles_add_up(180u8));
    assert(OPS[181] != Op::Stp ==> cycles_add_up(181u8));
    assert(OPS[182] != Op::Stp ==> cycles_add_up(182u8));
    assert(OPS[183] != Op::Stp ==> cycles_add_up(183u8));
    assert(OPS[184] != Op::Stp ==> cycles_add_up(184u8));
    assert(OPS[185] != Op::Stp ==> cycles_add_up(185u8));
    assert(OPS[186] != Op::Stp ==> cycles_add_up(186u8));
    assert(OPS[187] != Op::Stp ==> cycles_add_up(187u8));
    assert(OPS[188] != Op::Stp ==> cycles_add_up(188u8));
    assert(OPS[189] != Op::Stp ==> cycles_add_up(189u8));
    assert(OPS[190] != Op::Stp ==> cycles_add_up(190u8));
    assert(OPS[191] != Op::Stp ==> cycles_add_up(191u8));
}

proof fn lemma_cycle_rows_c(op: u8)
    requires
        192 <= op < 208,
    ensures
        OPS[op as int] != Op::Stp ==> cycles_add_up(op),
{
    reveal(cycles_add_up);
    reveal(op_cycles);
    reveal(addr_cycles);
    assert(OPS[192] != Op::Stp ==> cycles_add_up(192u8));
    assert(OPS[193] != Op::Stp ==> cycles_add_up(193u8));
    assert(OPS[194] != Op::Stp ==> cycles_add_up(194u8));
    assert(OPS[195] != Op::Stp ==> cycles_add_up(195u8));
    assert(OPS[196] != Op::Stp ==> cycles_add_up(196u8));
    assert(OPS[197] != Op::Stp ==> cycles_add_up(197u8));
    assert(OPS[198] != Op::Stp ==> cycles_add_up(198u8));
    assert(OPS[199] != Op::Stp ==> cycles_add_up(199u8));
    assert(OPS[200] != Op::Stp ==> cycles_add_up(200u8));
    assert(OPS[201] != Op::Stp ==> cycles_add_up(201u8));
    assert(OPS[202] != Op::Stp ==> cycles_add_up(202u8));
    assert(OPS[203] != Op::Stp ==> cycles_add_up(203u8));
    assert(OPS[204] != Op::Stp ==> cycles_add_up(204u8));
    assert(OPS[205] != Op::Stp ==> cycles_add_up(205u8));
    assert(OPS[206] != Op::Stp ==> cycles_add_up(206u8));
    assert(OPS[207] != Op::Stp ==> cycles_add_up(207u8));
}

proof fn lemma_cycle_rows_d(op: u8)
    requires
        208 <= op < 224,
    ensures
        OPS[op as int] != Op::Stp ==> cycles_add_up(op),
{
    reveal(cycles_add_up);
    reveal(op_cycles);
    reveal(addr_cycles);
    assert(OPS[208] != Op::Stp ==> cycles_add_up(208u8));
    assert(OPS[209] != Op::Stp ==> cycles_add_up(209u8));
    assert(OPS[210] != Op::Stp ==> cycles_add_up(210u8));
    assert(OPS[211] != Op::Stp ==> cycles_add_up(211u8));
    assert(OPS[212] != Op::Stp ==> cycles_add_up(212u8));
    assert(OPS[213] != Op::Stp ==> cycles_add_up(213u8));
    assert(OPS[214] != Op::Stp ==> cycles_add_up(214u8));
    assert(OPS[215] != Op::Stp ==> cycles_add_up(215u8));
    assert(OPS[216] != Op::Stp ==> cycles_add_up(216u8));
    assert(OPS[217] != Op::Stp ==> cycles_add_up(217u8));
    assert(OPS[218] != Op::Stp ==> cycles_add_up(218u8));
    assert(OPS[219] != Op::Stp ==> cycles_add_up(219u8));
    assert(OPS[220] != Op::Stp ==> cycles_add_up(220u8));
    assert(OPS[221] != Op::Stp ==> cycles_add_up(221u8));
    assert(OPS[222] != Op::Stp ==> cycles_add_up(222u8));
    assert(OPS[223] != Op::Stp ==> cycles_add_up(223u8));
}

proof fn lemma_cycle_rows_e(op: u8)
    requires
        224 <= op < 240,
    ensures
        OPS[op as int] != Op::Stp ==> cycles_add_up(op),
{
    reveal(cycles_add_up);
    reveal(op_cycles);
    reveal(addr_cycles);
    assert(OPS[224] != Op::Stp ==> cycles_add_up(224u8));
    assert(OPS[225] != Op::Stp ==> cycles_add_up(225u8));
    assert(OPS[226] != Op::Stp ==> cycles_add_up(226u8));
    assert(OPS[227] != Op::Stp ==> cycles_add_up(227u8));
    assert(OPS[228] != Op::Stp ==> cycles_add_up(228u8));
    assert(OPS[229] != Op::Stp ==> cycles_add_up(229u8));
    assert(OPS[230] != Op::Stp ==> cycles_add_up(230u8));
    assert(OPS[231] != Op::Stp ==> cycles_add_up(231u8));
    assert(OPS[232] != Op::Stp ==> cycles_add_up(232u8));
    assert(OPS[233] != Op::Stp ==> cycles_add_up(233u8));
    assert(OPS[234] != Op::Stp ==> cycles_add_up(234u8));
    assert(OPS[235] != Op::Stp ==> cycles_add_up(235u8));
    assert(OPS[236] != Op::Stp ==> cycles_add_up(236u8));
    assert(OPS[237] != Op::Stp ==> cycles_add_up(237u8));
    assert(OPS[238] != Op::Stp ==> cycles_add_up(238u8));
    assert(OPS[239] != Op::Stp ==> cycles_add_up(239u8));
}

proof fn lemma_cycle_rows_f(op: u8)
    requires
        240 <= op < 256,
    ensures
        OPS[op as int] != Op::Stp ==> cycles_add_up(op),
{
    reveal(cycles_add_up);
    reveal(op_cycles);
    reveal(addr_cycles);
    assert(OPS[240] != Op::Stp ==> cycles_add_up(240u8));
    assert(OPS[241] != Op::Stp ==> cycles_add_up(241u8));
    assert(OPS[242] != Op::Stp ==> cycles_add_up(242u8));
    assert(OPS[243] != Op::Stp ==> cycles_add_up(243u8));
    assert(OPS[244] != Op::Stp ==> cycles_add_up(244u8));
    assert(OPS[245] != Op::Stp ==> cycles_add_up(245u8));
    assert(OPS[246] != Op::Stp ==> cycles_add_up(246u8));
    assert(OPS[247] != Op::Stp ==> cycles_add_up(247u8));
    assert(OPS[248] != Op::Stp ==> cycles_add_up(248u8));
    assert(OPS[249] != Op::Stp ==> cycles_add_up(249u8));
    assert(OPS[250] != Op::Stp ==> cycles_add_up(250u8));
    assert(OPS[251] != Op::Stp ==> cycles_add_up(251u8));
    assert(OPS[252] != Op::Stp ==> cycles_add_up(252u8));
    assert(OPS[253] != Op::Stp ==> cycles_add_up(253u8));
    assert(OPS[254] != Op::Stp ==> cycles_add_up(254u8));
    assert(OPS[255] != Op::Stp ==> cycles_add_up(255u8));
}


/// A page cross costs a reading instruction and `Top` one cycle, a branch
/// taken costs one, and one more across pages; nothing else depends on
/// either.
pub proof fn lemma_penalties(op: Op, mode: AddrMode, crossed: bool, taken: bool)
    ensures
        op_cycles(op, mode, crossed, taken && is_branch(op)) == op_cycles(op, mode, false, false) + (
        if (is_read(op) || op == Op::Top) && crossed { 1int } else { 0 }) + (if is_branch(op)
            && taken {
            if crossed { 2int } else { 1 }
        } else {
            0
        }),
{
    reveal(op_cycles);
}

/// The cycles that an instruction spends on the bus, from the fetch of
/// its opcode to its last idle cycle, are the cycles that it is documented
/// to take.
pub proof fn lemma_instruction_cycles(op: u8, crossed: bool, p: Status)
    requires
        OPS[op as int] != Op::Stp,
    ensures
        instruction_cycles(op, crossed, p) == 1 + addr_cycles(ADDR_MODES[op as int]) + op_cycles(
            OPS[op as int],
            ADDR_MODES[op as int],
            crossed,
            branch_taken(OPS[op as int], p),
        ) + EXTRA_CYCLES[op as int],
        0 <= op_cycles(
            OPS[op as int],
            ADDR_MODES[op as int],
            crossed,
            branch_taken(OPS[op as int], p),
        ) <= 8,
{
    reveal(instruction_cycles);
    reveal(op_cycles);
    reveal(cycles_add_up);
    lemma_cycle_table(op);
    lemma_penalties(
        OPS[op as int],
        ADDR_MODES[op as int],
        crossed,
        branch_taken(OPS[op as int], p),
    );
}

/// Cycle counts add up along a chain of steps.
pub proof fn lemma_advance_chain(c0: u64, c1: u64, c2: u64, c3: u64, c4: u64, a: int, o: int, e: int)
    requires
        a >= 0,
        o >= 0,
        e >= 0,
        c1 == advance(c0, 1),
        c2 == advance(c1, a),
        c3 == advance(c2, o),
        c4 == advance(c3, e),
    ensures
        c4 == advance(c0, 1 + a + o + e),
{
}

/// For every opcode that does not halt the processor, the cycles add up.
pub proof fn lemma_cycle_table(op: u8)
    ensures
        OPS[op as int] != Op::Stp ==> cycles_add_up(op),
{
    if op < 16 {
        lemma_cycle_rows_0(op);
    } else if op < 32 {
        lemma_cycle_rows_1(op);
    } else if op < 48 {
        lemma_cycle_rows_2(op);
    } else if op < 64 {
        lemma_cycle_rows_3(op);
    } else if op < 80 {
        lemma_cycle_rows_4(op);
    } else if op < 96 {
        lemma_cycle_rows_5(op);
    } else if op < 112 {
        lemma_cycle_rows_6(op);
    } else if op < 128 {
        lemma_cycle_rows_7(op);
    } else if op < 144 {
        lemma_cycle_rows_8(op);
    } else if op < 160 {
        lemma_cycle_rows_9(op);
    } else if op < 176 {
        lemma_cycle_rows_a(op);
    } else if op < 192 {
        lemma_cycle_rows_b(op);
    } else if op < 208 {
        lemma_cycle_rows_c(op);
    } else if op < 224 {
        lemma_cycle_rows_d(op);
    } else if op < 240 {
        lemma_cycle_rows_e(op);
    } else {
        lemma_cycle_rows_f(op);
    }
}

impl Machine {
    /// Whether the operand is a register rather than a place in memory.
    pub open spec fn direct(self) -> bool {
        self.cpu.op_mode == AddrMode::ACC || self.cpu.op_mode == AddrMode::IMP
    }

    /// Reads the operand: the accumulator, or the byte at the operand's
    /// address.
    #[verifier::opaque]
    pub open spec fn operand(self) -> (Machine, u8) {
        if self.direct() {
            (self, self.cpu.a)
        } else {
            self.read(self.cpu.op_address)
        }
    }

    /// One more idle cycle if finding the operand crossed a page.
    #[verifier::opaque]
    pub open spec fn cross_ticked(self) -> Machine {
        if self.cpu.cross_page {
            self.ticked()
        } else {
            self
        }
    }

    /// The machine after a reading instruction.
    #[verifier::opaque]
    pub open spec fn read_done(self, op: Op) -> Machine {
        let (m, v) = self.operand();
        Machine { cpu: m.cpu.alu_read(op, v), ..m }.cross_ticked()
    }

    /// The machine after a modifying instruction: the result goes back to
    /// where the operand came from.
    #[verifier::opaque]
    pub open spec fn rmw_done(self, op: Op) -> Machine {
        let (m, v) = self.operand();
        let (cpu, r) = m.cpu.alu_rmw(op, v);
        if self.direct() {
            Machine { cpu: Cpu { a: r, ..cpu }, ..m }
        } else {
            Machine { cpu, ..m }.written(self.cpu.op_address, r)
        }
    }

    /// The machine after a storing instruction.
    #[verifier::opaque]
    pub open spec fn store_done(self, op: Op) -> Machine {
        self.written(self.cpu.op_address, self.cpu.stored_value(op))
    }

    /// The machine after a branch: a branch taken costs one cycle, and one
    /// more if it leaves the page.
    #[verifier::opaque]
    pub open spec fn branch_done(self, op: Op) -> Machine {
        if branch_taken(op, self.cpu.p) {
            let m = self.ticked();
            Machine { cpu: Cpu { pc: self.cpu.op_address, ..m.cpu }, ..m }.cross_ticked()
        } else {
            self
        }
    }

    /// The machine after the software interrupt: one idle cycle, the
    /// program counter and the status go on the stack, the status with
    /// its break bit set; interrupts are masked, and the program counter
    /// comes from the vector at `$FFFE`.
    #[verifier::opaque]
    pub open spec fn break_done(self) -> Machine {
        let m = self.ticked().push_word(self.cpu.pc).push_byte(
            Status { b: true, ..self.cpu.p }.byte(),
        );
        let (m2, w) = Machine {
            cpu: Cpu { p: Status { i: true, ..m.cpu.p }, ..m.cpu },
            ..m
        }.read_word(IRQ_VECTOR);
        Machine { cpu: Cpu { pc: w, ..m2.cpu }, ..m2 }
    }

    /// The machine after a jump to a subroutine: the address of the last
    /// byte of the instruction goes on the stack.
    #[verifier::opaque]
    pub open spec fn jsr_done(self) -> Machine {
        let m = self.push_word(((self.cpu.pc + 0xffff) % 0x10000) as u16);
        Machine { cpu: Cpu { pc: self.cpu.op_address, ..m.cpu }, ..m }
    }

    /// The machine after a return from a subroutine.
    #[verifier::opaque]
    pub open spec fn rts_done(self) -> Machine {
        let (m, w) = self.pop_word();
        Machine { cpu: Cpu { pc: ((w + 1) % 0x10000) as u16, ..m.cpu }, ..m }
    }

    /// The machine after a return from an interrupt: status and program
    /// counter come off the stack.
    #[verifier::opaque]
    pub open spec fn rti_done(self) -> Machine {
        let (m, b) = self.pop_byte();
        let (m2, w) = Machine { cpu: Cpu { p: Status::of_byte(b), ..m.cpu }, ..m }.pop_word();
        Machine { cpu: Cpu { pc: w, ..m2.cpu }, ..m2 }
    }

    /// The machine after the status was pushed, its break bit set.
    #[verifier::opaque]
    pub open spec fn php_done(self) -> Machine {
        self.push_byte(Status { b: true, ..self.cpu.p }.byte())
    }

    /// The machine after the accumulator was pulled off the stack.
    #[verifier::opaque]
    pub open spec fn pla_done(self) -> Machine {
        let (m, b) = self.pop_byte();
        Machine { cpu: m.cpu.with_a(b), ..m }
    }

    /// The machine after the status was pulled off the stack.
    #[verifier::opaque]
    pub open spec fn plp_done(self) -> Machine {
        let (m, b) = self.pop_byte();
        Machine { cpu: Cpu { p: Status::of_byte(b), ..m.cpu }, ..m }
    }

    /// The machine after a stack or subroutine instruction.
    #[verifier::opaque]
    pub open spec fn stack_done(self, op: Op) -> Machine {
        match op {
            Op::Jsr => self.jsr_done(),
            Op::Rts => self.rts_done(),
            Op::Rti => self.rti_done(),
            Op::Pha => self.push_byte(self.cpu.a),
            Op::Php => self.php_done(),
            Op::Pla => self.pla_done(),
            _ => self.plp_done(),
        }
    }

    /// The machine after instruction `op`, its operand located.
    #[verifier::opaque]
    pub open spec fn operated(self, op: Op) -> Machine {
        if is_read(op) {
            self.read_done(op)
        } else if is_rmw(op) {
            self.rmw_done(op)
        } else if is_store(op) {
            self.store_done(op)
        } else if is_branch(op) {
            self.branch_done(op)
        } else if is_stack(op) {
            self.stack_done(op)
        } else if op == Op::Nop {
            self.ticked()
        } else if op == Op::Top {
            self.ticked().cross_ticked()
        } else if op == Op::Brk {
            self.break_done()
        } else {
            Machine { cpu: self.cpu.implied(op), ..self }
        }
    }
}

/// The instruction of opcode `op`.
pub fn decode(op: u8) -> (k: Op)
    ensures
        k == OPS[op as int],
{
    OPS[op as usize]
}

/// The idle cycles of opcode `op`.
pub fn extra_cycles(op: u8) -> (e: u8)
    ensures
        e == EXTRA_CYCLES[op as int],
{
    EXTRA_CYCLES[op as usize]
}

impl Cpu {
    fn get_operand(&self, bus: &mut Bus) -> (v: u8)
        ensures
            (machine(*self, *final(bus)), v) == machine(*self, *old(bus)).operand(),
            final(bus).cycles == advance(
                old(bus).cycles,
                if machine(*self, *old(bus)).direct() { 0 } else { 1 },
            ),
            final(bus).dma == old(bus).dma,
    {
        reveal(Machine::operand);
        match self.op_mode {
            AddrMode::ACC | AddrMode::IMP => self.a,
            _ => bus.read(self.op_address),
        }
    }

    fn tick_cross_page(&self, bus: &mut Bus)
        ensures
            machine(*self, *final(bus)) == machine(*self, *old(bus)).cross_ticked(),
            final(bus).cycles == advance(old(bus).cycles, if self.cross_page { 1 } else { 0 }),
            final(bus).dma == old(bus).dma,
    {
        reveal(Machine::cross_ticked);
        if self.cross_page {
            bus.tick();
        }
    }

    fn run_read(&mut self, op: Op, bus: &mut Bus)
        requires
            is_read(op),
        ensures
            machine(*final(self), *final(bus)) == machine(*old(self), *old(bus)).read_done(op),
            final(bus).cycles == advance(
                old(bus).cycles,
                op_cycles(op, old(self).op_mode, old(self).cross_page, false),
            ),
            same_decode(*final(self), *old(self)),
    {
        reveal(op_cycles);
        reveal(Machine::read_done);
        let ghost m0 = machine(*self, *bus);
        let v: u8 = self.get_operand(bus);
        let ghost m = machine(*self, *bus);
        assert((m, v) == m0.operand());
        self.apply_read(op, v);
        assert(machine(*self, *bus) == (Machine { cpu: m.cpu.alu_read(op, v), ..m }));
        self.tick_cross_page(bus);
    }

    fn run_rmw(&mut self, op: Op, bus: &mut Bus)
        requires
            is_rmw(op),
        ensures
            machine(*final(self), *final(bus)) == machine(*old(self), *old(bus)).rmw_done(op),
            final(bus).cycles == advance(
                old(bus).cycles,
                op_cycles(op, old(self).op_mode, old(self).cross_page, false),
            ),
            same_decode(*final(self), *old(self)),
    {
        reveal(op_cycles);
        reveal(Machine::rmw_done);
        let ghost m0 = machine(*self, *bus);
        let v: u8 = self.get_operand(bus);
        let ghost m = machine(*self, *bus);
        assert((m, v) == m0.operand());
        let r: u8 = self.apply_rmw(op, v);
        assert((*self, r) == m.cpu.alu_rmw(op, v));
        match self.op_mode {
            AddrMode::ACC | AddrMode::IMP => {
                self.a = r;
            },
            _ => {
                bus.write(self.op_address, r);
            },
        }
    }

    fn run_store(&mut self, op: Op, bus: &mut Bus)
        requires
            is_store(op),
        ensures
            machine(*final(self), *final(bus)) == machine(*old(self), *old(bus)).store_done(op),
            final(bus).cycles == advance(old(bus).cycles, 1),
            *final(self) == *old(self),
    {
        reveal(Machine::store_done);
        let v: u8 = match op {
            Op::Sta => self.a,
            Op::Stx => self.x,
            Op::Sty => self.y,
            _ => self.a & self.x,
        };
        bus.write(self.op_address, v);
    }

    fn run_branch(&mut self, op: Op, bus: &mut Bus)
        requires
            is_branch(op),
        ensures
            machine(*final(self), *final(bus)) == machine(*old(self), *old(bus)).branch_done(op),
            final(bus).cycles == advance(
                old(bus).cycles,
                op_cycles(
                    op,
                    old(self).op_mode,
                    old(self).cross_page,
                    branch_taken(op, old(self).p),
                ),
            ),
            same_decode(*final(self), *old(self)),
            final(self).p == old(self).p,
    {
        reveal(op_cycles);
        reveal(Machine::branch_done);
        let taken: bool = match op {
            Op::Bcc => !self.p.c,
            Op::Bcs => self.p.c,
            Op::Beq => self.p.z,
            Op::Bmi => self.p.n,
            Op::Bne => !self.p.z,
            Op::Bpl => !self.p.n,
            Op::Bvc => !self.p.v,
            _ => self.p.v,
        };
        if taken {
            bus.tick();
            self.pc = self.op_address;
            self.tick_cross_page(bus);
        }
    }

    fn run_break(&mut self, bus: &mut Bus)
        ensures
            machine(*final(self), *final(bus)) == machine(*old(self), *old(bus)).break_done(),
            final(bus).cycles == advance(old(bus).cycles, 6),
            same_decode(*final(self), *old(self)),
    {
        let ghost m0 = machine(*self, *bus);
        bus.tick();
        self.push_word(self.pc, bus);
        assert(machine(*self, *bus) == m0.ticked().push_word(m0.cpu.pc));
        let pushed: Status = Status { b: true, ..self.p };
        self.push_byte(pushed.to_u8(), bus);
        let ghost m1 = m0.ticked().push_word(m0.cpu.pc).push_byte(
            Status { b: true, ..m0.cpu.p }.byte(),
        );
        assert(machine(*self, *bus) == m1);
        self.p = Status { i: true, ..self.p };
        let ghost m2 = Machine { cpu: Cpu { p: Status { i: true, ..m1.cpu.p }, ..m1.cpu }, ..m1 };
        assert(machine(*self, *bus) == m2);
        let w: u16 = self.read_word(IRQ_VECTOR, bus);
        assert((machine(*self, *bus), w) == m2.read_word(IRQ_VECTOR));
        self.pc = w;
        assert(machine(*self, *bus) == m0.break_done()) by {
            reveal(Machine::break_done);
        }
    }

    fn run_jsr(&mut self, bus: &mut Bus)
        ensures
            machine(*final(self), *final(bus)) == machine(*old(self), *old(bus)).jsr_done(),
            final(bus).cycles == advance(old(bus).cycles, 2),
            same_decode(*final(self), *old(self)),
    {
        reveal(Machine::jsr_done);
        let ret: u16 = if self.pc == 0 { 0xffff } else { self.pc - 1 };
        self.push_word(ret, bus);
        self.pc = self.op_address;
    }

    fn run_rts(&mut self, bus: &mut Bus)
        ensures
            machine(*final(self), *final(bus)) == machine(*old(self), *old(bus)).rts_done(),
            final(bus).cycles == advance(old(bus).cycles, 2),
            same_decode(*final(self), *old(self)),
    {
        reveal(Machine::rts_done);
        let w: u16 = self.pop_word(bus);
        self.pc = if w == 0xffff { 0 } else { w + 1 };
    }

    fn run_rti(&mut self, bus: &mut Bus)
        ensures
            machine(*final(self), *final(bus)) == machine(*old(self), *old(bus)).rti_done(),
            final(bus).cycles == advance(old(bus).cycles, 3),
            same_decode(*final(self), *old(self)),
    {
        reveal(Machine::rti_done);
        let ghost m0 = machine(*self, *bus);
        let b: u8 = self.pop_byte(bus);
        let ghost m = machine(*self, *bus);
        assert((m, b) == m0.pop_byte());
        self.p = Status::from(b);
        let ghost m1 = Machine { cpu: Cpu { p: Status::of_byte(b), ..m.cpu }, ..m };
        assert(machine(*self, *bus) == m1);
        let w: u16 = self.pop_word(bus);
        assert((machine(*self, *bus), w) == m1.pop_word());
        self.pc = w;
    }

    fn run_php(&mut self, bus: &mut Bus)
        ensures
            machine(*final(self), *final(bus)) == machine(*old(self), *old(bus)).php_done(),
            final(bus).cycles == advance(old(bus).cycles, 1),
            same_decode(*final(self), *old(self)),
    {
        reveal(Machine::php_done);
        let pushed: Status = Status { b: true, ..self.p };
        self.push_byte(pushed.to_u8(), bus);
    }

    fn run_pla(&mut self, bus: &mut Bus)
        ensures
            machine(*final(self), *final(bus)) == machine(*old(self), *old(bus)).pla_done(),
            final(bus).cycles == advance(old(bus).cycles, 1),
            same_decode(*final(self), *old(self)),
    {
        reveal(Machine::pla_done);
        let b: u8 = self.pop_byte(bus);
        *self = self.loaded_a(b);
    }

    fn run_plp(&mut self, bus: &mut Bus)
        ensures
            machine(*final(self), *final(bus)) == machine(*old(self), *old(bus)).plp_done(),
            final(bus).cycles == advance(old(bus).cycles, 1),
            same_decode(*final(self), *old(self)),
    {
        reveal(Machine::plp_done);
        let b: u8 = self.pop_byte(bus);
        self.p = Status::from(b);
    }

    fn run_stack(&mut self, op: Op, bus: &mut Bus)
        requires
            is_stack(op),
        ensures
            machine(*final(self), *final(bus)) == machine(*old(self), *old(bus)).stack_done(op),
            final(bus).cycles == advance(
                old(bus).cycles,
                op_cycles(op, old(self).op_mode, old(self).cross_page, false),
            ),
            same_decode(*final(self), *old(self)),
    {
        reveal(op_cycles);
        reveal(Machine::stack_done);
        match op {
            Op::Jsr => self.run_jsr(bus),
            Op::Rts => self.run_rts(bus),
            Op::Rti => self.run_rti(bus),
            Op::Pha => self.push_byte(self.a, bus),
            Op::Php => self.run_php(bus),
            Op::Pla => self.run_pla(bus),
            _ => self.run_plp(bus),
        }
    }

    /// Which of the nine kinds of instruction `op` is.
    fn class_of(op: Op) -> (c: u8)
        ensures
            c == op_class(op),
    {
        match op {
            Op::Adc | Op::Sbc | Op::And | Op::Ora | Op::Eor | Op::Lda | Op::Ldx | Op::Ldy
            | Op::Cpa | Op::Cpx | Op::Cpy | Op::Bit | Op::Lax => 0,
            Op::Inc | Op::Dec | Op::Asl | Op::Lsr | Op::Rol | Op::Ror | Op::Slo | Op::Rla
            | Op::Sre | Op::Rra | Op::Dcp | Op::Isb => 1,
            Op::Sta | Op::Stx | Op::Sty | Op::Sax => 2,
            Op::Bcc | Op::Bcs | Op::Beq | Op::Bmi | Op::Bne | Op::Bpl | Op::Bvc | Op::Bvs => 3,
            Op::Jsr | Op::Rts | Op::Rti | Op::Pha | Op::Php | Op::Pla | Op::Plp => 4,
            Op::Nop => 5,
            Op::Top => 6,
            Op::Brk => 7,
            _ => 8,
        }
    }

    /// Carries out instruction `op`, its operand located.
    pub fn operate(&mut self, op: Op, bus: &mut Bus)
        requires
            op != Op::Stp,
        ensures
            machine(*final(self), *final(bus)) == machine(*old(self), *old(bus)).operated(op),
            final(bus).cycles == advance(
                old(bus).cycles,
                op_cycles(
                    op,
                    old(self).op_mode,
                    old(self).cross_page,
                    branch_taken(op, old(self).p),
                ),
            ),
            same_decode(*final(self), *old(self)),
    {
        reveal(op_cycles);
        reveal(Machine::operated);
        reveal(Machine::cross_ticked);
        let class: u8 = Cpu::class_of(op);
        if class == 0 {
            self.run_read(op, bus);
        } else if class == 1 {
            self.run_rmw(op, bus);
        } else if class == 2 {
            self.run_store(op, bus);
        } else if class == 3 {
            self.run_branch(op, bus);
        } else if class == 4 {
            self.run_stack(op, bus);
        } else if class == 5 {
            bus.tick();
        } else if class == 6 {
            bus.tick();
            self.tick_cross_page(bus);
        } else if class == 7 {
            self.run_break(bus);
        } else {
            self.apply_implied(op);
        }
    }
}

} // verus!
