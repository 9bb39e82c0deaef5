use vstd::prelude::*;

use crate::bus::{lemma_ram_index, read16, read8, write8, BusView};
use crate::flags::{
    has_flag, set_flag, BREAK, BREAK2, CARRY, DECIMAL_MODE, INTERRUPT_DISABLE, NEGATIVE, OVERFLOW,
    ZERO,
};
use crate::opcodes::{AddressingMode, Mnemonic, OpCode};

verus! {

/// The architectural state: registers, status bits and the storage behind the bus.
pub struct CpuState {
    pub pc: u16,
    pub a: u8,
    pub x: u8,
    pub y: u8,
    pub sp: u8,
    pub p: u8,
    pub mem: BusView,
}

/// Base of the stack page.
pub const STACK: u16 = 0x0100;

/// `p` with Z set exactly when `r` is zero and N set exactly when bit 7 of `r` is.
pub open spec fn with_nz(p: u8, r: u8) -> u8 {
    set_flag(set_flag(p, ZERO, r == 0), NEGATIVE, r >> 7 == 1)
}

pub open spec fn with_a(s: CpuState, r: u8) -> CpuState {
    CpuState { a: r, p: with_nz(s.p, r), ..s }
}

pub open spec fn with_x(s: CpuState, r: u8) -> CpuState {
    CpuState { x: r, p: with_nz(s.p, r), ..s }
}

pub open spec fn with_y(s: CpuState, r: u8) -> CpuState {
    CpuState { y: r, p: with_nz(s.p, r), ..s }
}

/// Little-endian word from a zero-page pointer; the high byte's address wraps within page zero.
pub open spec fn zero_page_word(m: BusView, p: u8) -> u16 {
    (read8(m, p as u16) + 256 * read8(m, p.wrapping_add(1) as u16)) as u16
}

/// The effective address of an operand; `s.pc` points at the byte after the opcode.
pub open spec fn operand_address(s: CpuState, mode: AddressingMode) -> u16 {
    match mode {
        AddressingMode::Immediate => s.pc,
        AddressingMode::ZeroPage => read8(s.mem, s.pc) as u16,
        AddressingMode::ZeroPageX => read8(s.mem, s.pc).wrapping_add(s.x) as u16,
        AddressingMode::ZeroPageY => read8(s.mem, s.pc).wrapping_add(s.y) as u16,
        AddressingMode::Absolute => read16(s.mem, s.pc),
        AddressingMode::AbsoluteX => read16(s.mem, s.pc).wrapping_add(s.x as u16),
        AddressingMode::AbsoluteY => read16(s.mem, s.pc).wrapping_add(s.y as u16),
        AddressingMode::IndirectX => zero_page_word(s.mem, read8(s.mem, s.pc).wrapping_add(s.x)),
        AddressingMode::IndirectY => zero_page_word(s.mem, read8(s.mem, s.pc)).wrapping_add(
            s.y as u16,
        ),
        // no effective address; instructions that need one never have this mode
        AddressingMode::NoneAddressing => s.pc,
    }
}

/// The operand byte that an instruction in `mode` reads.
pub open spec fn operand(s: CpuState, mode: AddressingMode) -> u8 {
    read8(s.mem, operand_address(s, mode))
}

/// Stores `v` at `STACK + sp`, then decrements `sp`.
pub open spec fn push(s: CpuState, v: u8) -> CpuState {
    CpuState { mem: write8(s.mem, (STACK + s.sp) as u16, v), sp: s.sp.wrapping_sub(1), ..s }
}

/// Increments `sp`, then reads the byte at `STACK + sp`.
pub open spec fn pop(s: CpuState) -> (CpuState, u8) {
    let sp = s.sp.wrapping_add(1);
    (CpuState { sp, ..s }, read8(s.mem, (STACK + sp) as u16))
}

/// Pushes the high byte, then the low byte.
pub open spec fn push16(s: CpuState, v: u16) -> CpuState {
    push(push(s, (v / 256) as u8), (v % 256) as u8)
}

/// Pops the low byte, then the high byte.
pub open spec fn pop16(s: CpuState) -> (CpuState, u16) {
    let (s1, lo) = pop(s);
    let (s2, hi) = pop(s1);
    (s2, (lo + 256 * hi) as u16)
}

/// Status as pulled from the stack: B cleared, bit 5 set.
pub open spec fn pulled_status(v: u8) -> u8 {
    set_flag(set_flag(v, BREAK, false), BREAK2, true)
}

/// `A + d + C`, with carry out of bit 7 and signed overflow; no decimal mode.
pub open spec fn add_with_carry(s: CpuState, d: u8) -> CpuState {
    let sum = s.a + d + (if has_flag(s.p, CARRY) {
        1int
    } else {
        0int
    });
    let r = (sum % 256) as u8;
    let p = set_flag(
        set_flag(s.p, CARRY, sum > 255),
        OVERFLOW,
        (d ^ r) & (r ^ s.a) & 0x80 != 0,
    );
    CpuState { a: r, p: with_nz(p, r), ..s }
}

/// Compares `reg` with `v`: C when `reg >= v`, N and Z from `reg - v` modulo 256.
pub open spec fn compare(s: CpuState, reg: u8, v: u8) -> CpuState {
    CpuState { p: with_nz(set_flag(s.p, CARRY, reg >= v), reg.wrapping_sub(v)), ..s }
}

/// Where a branch taken at `pc` (the offset byte's address) lands: past the offset byte, moved
/// by the offset read as a signed byte.
pub open spec fn branch_target(pc: u16, offset: u8) -> u16 {
    if offset < 128 {
        pc.wrapping_add(1).wrapping_add(offset as u16)
    } else {
        pc.wrapping_add(1).wrapping_sub((256 - offset) as u16)
    }
}

pub open spec fn branch(s: CpuState, taken: bool) -> CpuState {
    if taken {
        CpuState { pc: branch_target(s.pc, read8(s.mem, s.pc)), ..s }
    } else {
        s
    }
}

/// Result and carry out of a shift or rotate of `v` with carry in `c`.
pub open spec fn shift(m: Mnemonic, v: u8, c: bool) -> (u8, bool) {
    let c_in: u8 = if c {
        1
    } else {
        0
    };
    match m {
        Mnemonic::Asl => (v << 1, v >> 7 == 1),
        Mnemonic::Lsr => (v >> 1, v & 1 == 1),
        Mnemonic::Rol => ((v << 1) | c_in, v >> 7 == 1),
        _ => ((v >> 1) | (c_in << 7), v & 1 == 1),
    }
}

/// A shift or rotate, on A when `mode` is `NoneAddressing`, on memory otherwise.
pub open spec fn shift_op(s: CpuState, m: Mnemonic, mode: AddressingMode) -> CpuState {
    let accumulator = mode == AddressingMode::NoneAddressing;
    let v = if accumulator {
        s.a
    } else {
        operand(s, mode)
    };
    let (r, c) = shift(m, v, has_flag(s.p, CARRY));
    let p = with_nz(set_flag(s.p, CARRY, c), r);
    if accumulator {
        CpuState { a: r, p, ..s }
    } else {
        CpuState { mem: write8(s.mem, operand_address(s, mode), r), p, ..s }
    }
}

/// Writes `r` at the operand's address and sets N and Z from it.
pub open spec fn modify(s: CpuState, mode: AddressingMode, r: u8) -> CpuState {
    CpuState { mem: write8(s.mem, operand_address(s, mode), r), p: with_nz(s.p, r), ..s }
}

pub open spec fn store(s: CpuState, mode: AddressingMode, v: u8) -> CpuState {
    CpuState { mem: write8(s.mem, operand_address(s, mode), v), ..s }
}

pub open spec fn flag_op(s: CpuState, mask: u8, on: bool) -> CpuState {
    CpuState { p: set_flag(s.p, mask, on), ..s }
}

/// Target of `JMP (p)`: where `p` ends a page, the high byte comes from the start of that same
/// page, as the NMOS 6502 does.
pub open spec fn indirect_target(m: BusView, p: u16) -> u16 {
    if p & 0x00FF == 0x00FF {
        (read8(m, p) + 256 * read8(m, p & 0xFF00)) as u16
    } else {
        read16(m, p)
    }
}

/// The effect of one instruction; `s.pc` points at the byte after the opcode.
#[verifier::opaque]
pub open spec fn execute(s: CpuState, m: Mnemonic, mode: AddressingMode) -> CpuState {
    match m {
        Mnemonic::Adc => add_with_carry(s, operand(s, mode)),
        Mnemonic::Sbc => add_with_carry(s, (255 - operand(s, mode)) as u8),
        Mnemonic::And => with_a(s, s.a & operand(s, mode)),
        Mnemonic::Eor => with_a(s, s.a ^ operand(s, mode)),
        Mnemonic::Ora => with_a(s, s.a | operand(s, mode)),
        Mnemonic::Asl | Mnemonic::Lsr | Mnemonic::Rol | Mnemonic::Ror => shift_op(s, m, mode),
        Mnemonic::Inc => modify(s, mode, operand(s, mode).wrapping_add(1)),
        Mnemonic::Dec => modify(s, mode, operand(s, mode).wrapping_sub(1)),
        Mnemonic::Inx => with_x(s, s.x.wrapping_add(1)),
        Mnemonic::Iny => with_y(s, s.y.wrapping_add(1)),
        Mnemonic::Dex => with_x(s, s.x.wrapping_sub(1)),
        Mnemonic::Dey => with_y(s, s.y.wrapping_sub(1)),
        Mnemonic::Cmp => compare(s, s.a, operand(s, mode)),
        Mnemonic::Cpx => compare(s, s.x, operand(s, mode)),
        Mnemonic::Cpy => compare(s, s.y, operand(s, mode)),
        Mnemonic::Bit => {
            let v = operand(s, mode);
            let p = set_flag(
                set_flag(set_flag(s.p, ZERO, v & s.a == 0), NEGATIVE, v >> 7 == 1),
                OVERFLOW,
                (v >> 6) & 1 == 1,
            );
            CpuState { p, ..s }
        },
        Mnemonic::Beq => branch(s, has_flag(s.p, ZERO)),
        Mnemonic::Bne => branch(s, !has_flag(s.p, ZERO)),
        Mnemonic::Bcs => branch(s, has_flag(s.p, CARRY)),
        Mnemonic::Bcc => branch(s, !has_flag(s.p, CARRY)),
        Mnemonic::Bmi => branch(s, has_flag(s.p, NEGATIVE)),
        Mnemonic::Bpl => branch(s, !has_flag(s.p, NEGATIVE)),
        Mnemonic::Bvs => branch(s, has_flag(s.p, OVERFLOW)),
        Mnemonic::Bvc => branch(s, !has_flag(s.p, OVERFLOW)),
        Mnemonic::Jmp => {
            if mode == AddressingMode::Absolute {
                CpuState { pc: read16(s.mem, s.pc), ..s }
            } else {
                CpuState { pc: indirect_target(s.mem, read16(s.mem, s.pc)), ..s }
            }
        },
        Mnemonic::Jsr => {
            let s1 = push16(s, s.pc.wrapping_add(1));
            CpuState { pc: read16(s1.mem, s.pc), ..s1 }
        },
        Mnemonic::Rts => {
            let (s1, v) = pop16(s);
            CpuState { pc: v.wrapping_add(1), ..s1 }
        },
        Mnemonic::Rti => {
            let (s1, p) = pop(s);
            let (s2, v) = pop16(s1);
            CpuState { pc: v, p: pulled_status(p), ..s2 }
        },
        Mnemonic::Pha => push(s, s.a),
        Mnemonic::Php => push(s, s.p | BREAK | BREAK2),
        Mnemonic::Pla => {
            let (s1, v) = pop(s);
            with_a(s1, v)
        },
        Mnemonic::Plp => {
            let (s1, v) = pop(s);
            CpuState { p: pulled_status(v), ..s1 }
        },
        Mnemonic::Clc => flag_op(s, CARRY, false),
        Mnemonic::Sec => flag_op(s, CARRY, true),
        Mnemonic::Cli => flag_op(s, INTERRUPT_DISABLE, false),
        Mnemonic::Sei => flag_op(s, INTERRUPT_DISABLE, true),
        Mnemonic::Cld => flag_op(s, DECIMAL_MODE, false),
        Mnemonic::Sed => flag_op(s, DECIMAL_MODE, true),
        Mnemonic::Clv => flag_op(s, OVERFLOW, false),
        Mnemonic::Lda => with_a(s, operand(s, mode)),
        Mnemonic::Ldx => with_x(s, operand(s, mode)),
        Mnemonic::Ldy => with_y(s, operand(s, mode)),
        Mnemonic::Sta => store(s, mode, s.a),
        Mnemonic::Stx => store(s, mode, s.x),
        Mnemonic::Sty => store(s, mode, s.y),
        Mnemonic::Tax => with_x(s, s.a),
        Mnemonic::Tay => with_y(s, s.a),
        Mnemonic::Txa => with_a(s, s.x),
        Mnemonic::Tya => with_a(s, s.y),
        Mnemonic::Tsx => with_x(s, s.sp),
        Mnemonic::Txs => CpuState { sp: s.x, ..s },
        Mnemonic::Nop | Mnemonic::Brk => s,
    }
}

/// `NOP` and `BRK` change nothing.
pub proof fn lemma_no_effect(s: CpuState, m: Mnemonic, mode: AddressingMode)
    requires
        m == Mnemonic::Nop || m == Mnemonic::Brk,
    ensures
        execute(s, m, mode) == s,
{
    reveal(execute);
}

/// One pass of the main loop for a decoded `op`, with `s.pc` at the opcode: step past the
/// opcode, execute, and where the instruction left the program counter where it was, step past
/// the operand bytes.
pub open spec fn after_step(s: CpuState, op: OpCode) -> CpuState {
    let operand_pc = s.pc.wrapping_add(1);
    let t = execute(CpuState { pc: operand_pc, ..s }, op.mnemonic, op.mode);
    if t.pc == operand_pc {
        CpuState { pc: operand_pc.wrapping_add((op.len - 1) as u16), ..t }
    } else {
        t
    }
}

/// Whether `m` has exactly one bit set.
pub open spec fn single_bit(m: u8) -> bool {
    m == 1 || m == 2 || m == 4 || m == 8 || m == 16 || m == 32 || m == 64 || m == 128
}

/// Setting or clearing one status bit leaves every other bit as it was.
pub proof fn lemma_set_flag(p: u8, m: u8, o: u8, on: bool)
    requires
        single_bit(m),
        single_bit(o),
    ensures
        has_flag(set_flag(p, m, on), o) == if m == o {
            on
        } else {
            has_flag(p, o)
        },
{
    if on {
        assert(((p | m) & o == o) == if m == o {
            true
        } else {
            p & o == o
        }) by (bit_vector)
            requires
                m == 1 || m == 2 || m == 4 || m == 8 || m == 16 || m == 32 || m == 64 || m == 128,
                o == 1 || o == 2 || o == 4 || o == 8 || o == 16 || o == 32 || o == 64 || o == 128,
        ;
    } else {
        assert(((p & !m) & o == o) == if m == o {
            false
        } else {
            p & o == o
        }) by (bit_vector)
            requires
                m == 1 || m == 2 || m == 4 || m == 8 || m == 16 || m == 32 || m == 64 || m == 128,
                o == 1 || o == 2 || o == 4 || o == 8 || o == 16 || o == 32 || o == 64 || o == 128,
        ;
    }
}

/// After an instruction that sets N and Z from its result `r`, Z is set exactly when `r` is
/// zero and N exactly when `r >> 7` is one; every other status bit is as it was.
pub proof fn lemma_nz_flags(p: u8, r: u8, o: u8)
    requires
        single_bit(o),
    ensures
        has_flag(with_nz(p, r), ZERO) == (r == 0),
        has_flag(with_nz(p, r), NEGATIVE) == (r >> 7 == 1),
        o != ZERO && o != NEGATIVE ==> has_flag(with_nz(p, r), o) == has_flag(p, o),
{
    let q = set_flag(p, ZERO, r == 0);
    lemma_set_flag(p, ZERO, ZERO, r == 0);
    lemma_set_flag(p, ZERO, o, r == 0);
    lemma_set_flag(q, NEGATIVE, ZERO, r >> 7 == 1);
    lemma_set_flag(q, NEGATIVE, NEGATIVE, r >> 7 == 1);
    lemma_set_flag(q, NEGATIVE, o, r >> 7 == 1);
}

/// A byte pushed and then pulled comes back, and the stack pointer returns to where it was.
pub proof fn lemma_push_pop(s: CpuState, b: u8)
    requires
        s.mem.wf(),
    ensures
        pop(push(s, b)).1 == b,
        pop(push(s, b)).0.sp == s.sp,
{
    let a = (STACK + s.sp) as u16;
    lemma_ram_index(a);
    assert(push(s, b).sp.wrapping_add(1) == s.sp);
}

/// With the carry set, `ADC v` followed by `SBC v` gives back A and the carry, wherever the
/// addition `A + v + 1` stays below 256.
pub proof fn lemma_adc_sbc(s: CpuState, v: u8)
    requires
        has_flag(s.p, CARRY),
        s.a + v + 1 <= 255,
    ensures
        add_with_carry(add_with_carry(s, v), (255 - v) as u8).a == s.a,
        has_flag(add_with_carry(add_with_carry(s, v), (255 - v) as u8).p, CARRY),
{
    let s1 = add_with_carry(s, v);
    let r1 = (s.a + v + 1) as u8;
    let p0 = set_flag(s.p, CARRY, false);
    let p1 = set_flag(p0, OVERFLOW, (v ^ r1) & (r1 ^ s.a) & 0x80 != 0);
    lemma_set_flag(s.p, CARRY, CARRY, false);
    lemma_set_flag(p0, OVERFLOW, CARRY, (v ^ r1) & (r1 ^ s.a) & 0x80 != 0);
    lemma_nz_flags(p1, r1, CARRY);
    assert(!has_flag(s1.p, CARRY));
    assert(s1.a == r1);
    let s2 = add_with_carry(s1, (255 - v) as u8);
    let r2 = s.a;
    let q0 = set_flag(s1.p, CARRY, true);
    let q1 = set_flag(q0, OVERFLOW, ((255 - v) as u8 ^ r2) & (r2 ^ r1) & 0x80 != 0);
    lemma_set_flag(s1.p, CARRY, CARRY, true);
    lemma_set_flag(q0, OVERFLOW, CARRY, ((255 - v) as u8 ^ r2) & (r2 ^ r1) & 0x80 != 0);
    lemma_nz_flags(q1, r2, CARRY);
}

/// `JMP (p)` with the pointer `p` on the last byte of a page: the target's low byte comes from
/// `p`, and its high byte from the first byte of that same page, not from the next page.
pub proof fn lemma_indirect_jump_wraps(s: CpuState)
    requires
        read16(s.mem, s.pc) & 0x00FF == 0x00FF,
    ensures
        ({
            let p = read16(s.mem, s.pc);
            let target = execute(s, Mnemonic::Jmp, AddressingMode::NoneAddressing).pc;
            &&& target % 256 == read8(s.mem, p)
            &&& target / 256 == read8(s.mem, (p / 256 * 256) as u16)
        }),
{
    reveal(execute);
    let p = read16(s.mem, s.pc);
    assert(p & 0xFF00 == p / 256 * 256) by (bit_vector);
}

} // verus!
