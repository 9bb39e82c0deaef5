use vstd::prelude::*;

verus! {

/// How an instruction finds its operand; the effective address is computed from the byte or
/// word that follows the opcode.
#[derive(Clone, Copy, Debug, PartialEq, Eq, Structural)]
pub enum AddressingMode {
    Immediate,
    ZeroPage,
    ZeroPageX,
    ZeroPageY,
    Absolute,
    AbsoluteX,
    AbsoluteY,
    IndirectX,
    IndirectY,
    /// Implied, accumulator, relative and indirect operands, which no effective address stands for.
    NoneAddressing,
}

/// The official 6502 instructions.
#[derive(Clone, Copy, Debug, PartialEq, Eq, Structural)]
pub enum Mnemonic {
    Adc,
    And,
    Asl,
    Bcc,
    Bcs,
    Beq,
    Bit,
    Bmi,
    Bne,
    Bpl,
    Brk,
    Bvc,
    Bvs,
    Clc,
    Cld,
    Cli,
    Clv,
    Cmp,
    Cpx,
    Cpy,
    Dec,
    Dex,
    Dey,
    Eor,
    Inc,
    Inx,
    Iny,
    Jmp,
    Jsr,
    Lda,
    Ldx,
    Ldy,
    Lsr,
    Nop,
    Ora,
    Pha,
    Php,
    Pla,
    Plp,
    Rol,
    Ror,
    Rti,
    Rts,
    Sbc,
    Sec,
    Sed,
    Sei,
    Sta,
    Stx,
    Sty,
    Tax,
    Tay,
    Tsx,
    Txa,
    Txs,
    Tya,
}

/// One entry of the opcode table.
#[derive(Clone, Copy, Debug, PartialEq, Eq, Structural)]
pub struct OpCode {
    pub code: u8,
    pub mnemonic: Mnemonic,
    /// Length of the instruction in bytes, opcode included.
    pub len: u8,
    /// Nominal cycle count; the interpreter does not simulate timing.
    pub cycles: u8,
    pub mode: AddressingMode,
}

/// Whether the instruction reads or writes its operand at an effective address.
pub open spec fn needs_address(m: Mnemonic) -> bool {
    match m {
        Mnemonic::Adc | Mnemonic::Sbc | Mnemonic::And | Mnemonic::Eor | Mnemonic::Ora
        | Mnemonic::Bit | Mnemonic::Cmp | Mnemonic::Cpx | Mnemonic::Cpy | Mnemonic::Dec | Mnemonic::Inc
        | Mnemonic::Lda | Mnemonic::Ldx | Mnemonic::Ldy | Mnemonic::Sta | Mnemonic::Stx
        | Mnemonic::Sty => true,
        _ => false,
    }
}

impl OpCode {
    /// A length of one to three bytes, and an addressing mode exactly where the instruction
    /// needs an effective address. Shifts and rotates without one work on A; `JMP` without one
    /// is the indirect jump.
    pub open spec fn wf(self) -> bool {
        &&& 1 <= self.len <= 3
        &&& match self.mnemonic {
            Mnemonic::Asl | Mnemonic::Lsr | Mnemonic::Rol | Mnemonic::Ror => true,
            Mnemonic::Jmp => self.mode == AddressingMode::Absolute || self.mode
                == AddressingMode::NoneAddressing,
            Mnemonic::Jsr => self.mode == AddressingMode::Absolute,
            _ => needs_address(self.mnemonic) == (self.mode != AddressingMode::NoneAddressing),
        }
    }
}

pub open spec fn op(
    code: u8,
    mnemonic: Mnemonic,
    len: u8,
    cycles: u8,
    mode: AddressingMode,
) -> OpCode {
    OpCode { code, mnemonic, len, cycles, mode }
}

/// The descriptor of each official opcode; every other byte has none.
pub open spec fn opcode_table(code: u8) -> Option<OpCode> {
    match code {
        0x00 => Some(op(0x00, Mnemonic::Brk, 1, 7, AddressingMode::NoneAddressing)),
        0xEA => Some(op(0xEA, Mnemonic::Nop, 1, 2, AddressingMode::NoneAddressing)),
        0x69 => Some(op(0x69, Mnemonic::Adc, 2, 2, AddressingMode::Immediate)),
        0x65 => Some(op(0x65, Mnemonic::Adc, 2, 3, AddressingMode::ZeroPage)),
        0x75 => Some(op(0x75, Mnemonic::Adc, 2, 4, AddressingMode::ZeroPageX)),
        0x6D => Some(op(0x6D, Mnemonic::Adc, 3, 4, AddressingMode::Absolute)),
        0x7D => Some(op(0x7D, Mnemonic::Adc, 3, 4, AddressingMode::AbsoluteX)),
        0x79 => Some(op(0x79, Mnemonic::Adc, 3, 4, AddressingMode::AbsoluteY)),
        0x61 => Some(op(0x61, Mnemonic::Adc, 2, 6, AddressingMode::IndirectX)),
        0x71 => Some(op(0x71, Mnemonic::Adc, 2, 5, AddressingMode::IndirectY)),
        0xE9 => Some(op(0xE9, Mnemonic::Sbc, 2, 2, AddressingMode::Immediate)),
        0xE5 => Some(op(0xE5, Mnemonic::Sbc, 2, 3, AddressingMode::ZeroPage)),
        0xF5 => Some(op(0xF5, Mnemonic::Sbc, 2, 4, AddressingMode::ZeroPageX)),
        0xED => Some(op(0xED, Mnemonic::Sbc, 3, 4, AddressingMode::Absolute)),
        0xFD => Some(op(0xFD, Mnemonic::Sbc, 3, 4, AddressingMode::AbsoluteX)),
        0xF9 => Some(op(0xF9, Mnemonic::Sbc, 3, 4, AddressingMode::AbsoluteY)),
        0xE1 => Some(op(0xE1, Mnemonic::Sbc, 2, 6, AddressingMode::IndirectX)),
        0xF1 => Some(op(0xF1, Mnemonic::Sbc, 2, 5, AddressingMode::IndirectY)),
        0x29 => Some(op(0x29, Mnemonic::And, 2, 2, AddressingMode::Immediate)),
        0x25 => Some(op(0x25, Mnemonic::And, 2, 3, AddressingMode::ZeroPage)),
        0x35 => Some(op(0x35, Mnemonic::And, 2, 4, AddressingMode::ZeroPageX)),
        0x2D => Some(op(0x2D, Mnemonic::And, 3, 4, AddressingMode::Absolute)),
        0x3D => Some(op(0x3D, Mnemonic::And, 3, 4, AddressingMode::AbsoluteX)),
        0x39 => Some(op(0x39, Mnemonic::And, 3, 4, AddressingMode::AbsoluteY)),
        0x21 => Some(op(0x21, Mnemonic::And, 2, 6, AddressingMode::IndirectX)),
        0x31 => Some(op(0x31, Mnemonic::And, 2, 5, AddressingMode::IndirectY)),
        0x49 => Some(op(0x49, Mnemonic::Eor, 2, 2, AddressingMode::Immediate)),
        0x45 => Some(op(0x45, Mnemonic::Eor, 2, 3, AddressingMode::ZeroPage)),
        0x55 => Some(op(0x55, Mnemonic::Eor, 2, 4, AddressingMode::ZeroPageX)),
        0x4D => Some(op(0x4D, Mnemonic::Eor, 3, 4, AddressingMode::Absolute)),
        0x5D => Some(op(0x5D, Mnemonic::Eor, 3, 4, AddressingMode::AbsoluteX)),
        0x59 => Some(op(0x59, Mnemonic::Eor, 3, 4, AddressingMode::AbsoluteY)),
        0x41 => Some(op(0x41, Mnemonic::Eor, 2, 6, AddressingMode::IndirectX)),
        0x51 => Some(op(0x51, Mnemonic::Eor, 2, 5, AddressingMode::IndirectY)),
        0x09 => Some(op(0x09, Mnemonic::Ora, 2, 2, AddressingMode::Immediate)),
        0x05 => Some(op(0x05, Mnemonic::Ora, 2, 3, AddressingMode::ZeroPage)),
        0x15 => Some(op(0x15, Mnemonic::Ora, 2, 4, AddressingMode::ZeroPageX)),
        0x0D => Some(op(0x0D, Mnemonic::Ora, 3, 4, AddressingMode::Absolute)),
        0x1D => Some(op(0x1D, Mnemonic::Ora, 3, 4, AddressingMode::AbsoluteX)),
        0x19 => Some(op(0x19, Mnemonic::Ora, 3, 4, AddressingMode::AbsoluteY)),
        0x01 => Some(op(0x01, Mnemonic::Ora, 2, 6, AddressingMode::IndirectX)),
        0x11 => Some(op(0x11, Mnemonic::Ora, 2, 5, AddressingMode::IndirectY)),
        0x0A => Some(op(0x0A, Mnemonic::Asl, 1, 2, AddressingMode::NoneAddressing)),
        0x06 => Some(op(0x06, Mnemonic::Asl, 2, 5, AddressingMode::ZeroPage)),
        0x16 => Some(op(0x16, Mnemonic::Asl, 2, 6, AddressingMode::ZeroPageX)),
        0x0E => Some(op(0x0E, Mnemonic::Asl, 3, 6, AddressingMode::Absolute)),
        0x1E => Some(op(0x1E, Mnemonic::Asl, 3, 7, AddressingMode::AbsoluteX)),
        0x4A => Some(op(0x4A, Mnemonic::Lsr, 1, 2, AddressingMode::NoneAddressing)),
        0x46 => Some(op(0x46, Mnemonic::Lsr, 2, 5, AddressingMode::ZeroPage)),
        0x56 => Some(op(0x56, Mnemonic::Lsr, 2, 6, AddressingMode::ZeroPageX)),
        0x4E => Some(op(0x4E, Mnemonic::Lsr, 3, 6, AddressingMode::Absolute)),
        0x5E => Some(op(0x5E, Mnemonic::Lsr, 3, 7, AddressingMode::AbsoluteX)),
        0x2A => Some(op(0x2A, Mnemonic::Rol, 1, 2, AddressingMode::NoneAddressing)),
        0x26 => Some(op(0x26, Mnemonic::Rol, 2, 5, AddressingMode::ZeroPage)),
        0x36 => Some(op(0x36, Mnemonic::Rol, 2, 6, AddressingMode::ZeroPageX)),
        0x2E => Some(op(0x2E, Mnemonic::Rol, 3, 6, AddressingMode::Absolute)),
        0x3E => Some(op(0x3E, Mnemonic::Rol, 3, 7, AddressingMode::AbsoluteX)),
        0x6A => Some(op(0x6A, Mnemonic::Ror, 1, 2, AddressingMode::NoneAddressing)),
        0x66 => Some(op(0x66, Mnemonic::Ror, 2, 5, AddressingMode::ZeroPage)),
        0x76 => Some(op(0x76, Mnemonic::Ror, 2, 6, AddressingMode::ZeroPageX)),
        0x6E => Some(op(0x6E, Mnemonic::Ror, 3, 6, AddressingMode::Absolute)),
        0x7E => Some(op(0x7E, Mnemonic::Ror, 3, 7, AddressingMode::AbsoluteX)),
        0xE6 => Some(op(0xE6, Mnemonic::Inc, 2, 5, AddressingMode::ZeroPage)),
        0xF6 => Some(op(0xF6, Mnemonic::Inc, 2, 6, AddressingMode::ZeroPageX)),
        0xEE => Some(op(0xEE, Mnemonic::Inc, 3, 6, AddressingMode::Absolute)),
        0xFE => Some(op(0xFE, Mnemonic::Inc, 3, 7, AddressingMode::AbsoluteX)),
        0xE8 => Some(op(0xE8, Mnemonic::Inx, 1, 2, AddressingMode::NoneAddressing)),
        0xC8 => Some(op(0xC8, Mnemonic::Iny, 1, 2, AddressingMode::NoneAddressing)),
        0xC6 => Some(op(0xC6, Mnemonic::Dec, 2, 5, AddressingMode::ZeroPage)),
        0xD6 => Some(op(0xD6, Mnemonic::Dec, 2, 6, AddressingMode::ZeroPageX)),
        0xCE => Some(op(0xCE, Mnemonic::Dec, 3, 6, AddressingMode::Absolute)),
        0xDE => Some(op(0xDE, Mnemonic::Dec, 3, 7, AddressingMode::AbsoluteX)),
        0xCA => Some(op(0xCA, Mnemonic::Dex, 1, 2, AddressingMode::NoneAddressing)),
        0x88 => Some(op(0x88, Mnemonic::Dey, 1, 2, AddressingMode::NoneAddressing)),
        0xC9 => Some(op(0xC9, Mnemonic::Cmp, 2, 2, AddressingMode::Immediate)),
        0xC5 => Some(op(0xC5, Mnemonic::Cmp, 2, 3, AddressingMode::ZeroPage)),
        0xD5 => Some(op(0xD5, Mnemonic::Cmp, 2, 4, AddressingMode::ZeroPageX)),
        0xCD => Some(op(0xCD, Mnemonic::Cmp, 3, 4, AddressingMode::Absolute)),
        0xDD => Some(op(0xDD, Mnemonic::Cmp, 3, 4, AddressingMode::AbsoluteX)),
        0xD9 => Some(op(0xD9, Mnemonic::Cmp, 3, 4, AddressingMode::AbsoluteY)),
        0xC1 => Some(op(0xC1, Mnemonic::Cmp, 2, 6, AddressingMode::IndirectX)),
        0xD1 => Some(op(0xD1, Mnemonic::Cmp, 2, 5, AddressingMode::IndirectY)),
        0xC0 => Some(op(0xC0, Mnemonic::Cpy, 2, 2, AddressingMode::Immediate)),
        0xC4 => Some(op(0xC4, Mnemonic::Cpy, 2, 3, AddressingMode::ZeroPage)),
        0xCC => Some(op(0xCC, Mnemonic::Cpy, 3, 4, AddressingMode::Absolute)),
        0xE0 => Some(op(0xE0, Mnemonic::Cpx, 2, 2, AddressingMode::Immediate)),
        0xE4 => Some(op(0xE4, Mnemonic::Cpx, 2, 3, AddressingMode::ZeroPage)),
        0xEC => Some(op(0xEC, Mnemonic::Cpx, 3, 4, AddressingMode::Absolute)),
        0x4C => Some(op(0x4C, Mnemonic::Jmp, 3, 3, AddressingMode::Absolute)),
        0x6C => Some(op(0x6C, Mnemonic::Jmp, 3, 5, AddressingMode::NoneAddressing)),
        0x20 => Some(op(0x20, Mnemonic::Jsr, 3, 6, AddressingMode::Absolute)),
        0x60 => Some(op(0x60, Mnemonic::Rts, 1, 6, AddressingMode::NoneAddressing)),
        0x40 => Some(op(0x40, Mnemonic::Rti, 1, 6, AddressingMode::NoneAddressing)),
        0xD0 => Some(op(0xD0, Mnemonic::Bne, 2, 2, AddressingMode::NoneAddressing)),
        0x70 => Some(op(0x70, Mnemonic::Bvs, 2, 2, AddressingMode::NoneAddressing)),
        0x50 => Some(op(0x50, Mnemonic::Bvc, 2, 2, AddressingMode::NoneAddressing)),
        0x30 => Some(op(0x30, Mnemonic::Bmi, 2, 2, AddressingMode::NoneAddressing)),
        0xF0 => Some(op(0xF0, Mnemonic::Beq, 2, 2, AddressingMode::NoneAddressing)),
        0xB0 => Some(op(0xB0, Mnemonic::Bcs, 2, 2, AddressingMode::NoneAddressing)),
        0x90 => Some(op(0x90, Mnemonic::Bcc, 2, 2, AddressingMode::NoneAddressing)),
        0x10 => Some(op(0x10, Mnemonic::Bpl, 2, 2, AddressingMode::NoneAddressing)),
        0x24 => Some(op(0x24, Mnemonic::Bit, 2, 3, AddressingMode::ZeroPage)),
        0x2C => Some(op(0x2C, Mnemonic::Bit, 3, 4, AddressingMode::Absolute)),
        0xD8 => Some(op(0xD8, Mnemonic::Cld, 1, 2, AddressingMode::NoneAddressing)),
        0x58 => Some(op(0x58, Mnemonic::Cli, 1, 2, AddressingMode::NoneAddressing)),
        0xB8 => Some(op(0xB8, Mnemonic::Clv, 1, 2, AddressingMode::NoneAddressing)),
        0x18 => Some(op(0x18, Mnemonic::Clc, 1, 2, AddressingMode::NoneAddressing)),
        0x38 => Some(op(0x38, Mnemonic::Sec, 1, 2, AddressingMode::NoneAddressing)),
        0x78 => Some(op(0x78, Mnemonic::Sei, 1, 2, AddressingMode::NoneAddressing)),
        0xF8 => Some(op(0xF8, Mnemonic::Sed, 1, 2, AddressingMode::NoneAddressing)),
        0xAA => Some(op(0xAA, Mnemonic::Tax, 1, 2, AddressingMode::NoneAddressing)),
        0xA8 => Some(op(0xA8, Mnemonic::Tay, 1, 2, AddressingMode::NoneAddressing)),
        0xBA => Some(op(0xBA, Mnemonic::Tsx, 1, 2, AddressingMode::NoneAddressing)),
        0x8A => Some(op(0x8A, Mnemonic::Txa, 1, 2, AddressingMode::NoneAddressing)),
        0x9A => Some(op(0x9A, Mnemonic::Txs, 1, 2, AddressingMode::NoneAddressing)),
        0x98 => Some(op(0x98, Mnemonic::Tya, 1, 2, AddressingMode::NoneAddressing)),
        0x48 => Some(op(0x48, Mnemonic::Pha, 1, 3, AddressingMode::NoneAddressing)),
        0x68 => Some(op(0x68, Mnemonic::Pla, 1, 4, AddressingMode::NoneAddressing)),
        0x08 => Some(op(0x08, Mnemonic::Php, 1, 3, AddressingMode::NoneAddressing)),
        0x28 => Some(op(0x28, Mnemonic::Plp, 1, 4, AddressingMode::NoneAddressing)),
        0xA9 => Some(op(0xA9, Mnemonic::Lda, 2, 2, AddressingMode::Immediate)),
        0xA5 => Some(op(0xA5, Mnemonic::Lda, 2, 3, AddressingMode::ZeroPage)),
        0xB5 => Some(op(0xB5, Mnemonic::Lda, 2, 4, AddressingMode::ZeroPageX)),
        0xAD => Some(op(0xAD, Mnemonic::Lda, 3, 4, AddressingMode::Absolute)),
        0xBD => Some(op(0xBD, Mnemonic::Lda, 3, 4, AddressingMode::AbsoluteX)),
        0xB9 => Some(op(0xB9, Mnemonic::Lda, 3, 4, AddressingMode::AbsoluteY)),
        0xA1 => Some(op(0xA1, Mnemonic::Lda, 2, 6, AddressingMode::IndirectX)),
        0xB1 => Some(op(0xB1, Mnemonic::Lda, 2, 5, AddressingMode::IndirectY)),
        0xA2 => Some(op(0xA2, Mnemonic::Ldx, 2, 2, AddressingMode::Immediate)),
        0xA6 => Some(op(0xA6, Mnemonic::Ldx, 2, 3, AddressingMode::ZeroPage)),
        0xB6 => Some(op(0xB6, Mnemonic::Ldx, 2, 4, AddressingMode::ZeroPageY)),
        0xAE => Some(op(0xAE, Mnemonic::Ldx, 3, 4, AddressingMode::Absolute)),
        0xBE => Some(op(0xBE, Mnemonic::Ldx, 3, 4, AddressingMode::AbsoluteY)),
        0xA0 => Some(op(0xA0, Mnemonic::Ldy, 2, 2, AddressingMode::Immediate)),
        0xA4 => Some(op(0xA4, Mnemonic::Ldy, 2, 3, AddressingMode::ZeroPage)),
        0xB4 => Some(op(0xB4, Mnemonic::Ldy, 2, 4, AddressingMode::ZeroPageX)),
        0xAC => Some(op(0xAC, Mnemonic::Ldy, 3, 4, AddressingMode::Absolute)),
        0xBC => Some(op(0xBC, Mnemonic::Ldy, 3, 4, AddressingMode::AbsoluteX)),
        0x85 => Some(op(0x85, Mnemonic::Sta, 2, 3, AddressingMode::ZeroPage)),
        0x95 => Some(op(0x95, Mnemonic::Sta, 2, 4, AddressingMode::ZeroPageX)),
        0x8D => Some(op(0x8D, Mnemonic::Sta, 3, 4, AddressingMode::Absolute)),
        0x9D => Some(op(0x9D, Mnemonic::Sta, 3, 5, AddressingMode::AbsoluteX)),
        0x99 => Some(op(0x99, Mnemonic::Sta, 3, 5, AddressingMode::AbsoluteY)),
        0x81 => Some(op(0x81, Mnemonic::Sta, 2, 6, AddressingMode::IndirectX)),
        0x91 => Some(op(0x91, Mnemonic::Sta, 2, 6, AddressingMode::IndirectY)),
        0x86 => Some(op(0x86, Mnemonic::Stx, 2, 3, AddressingMode::ZeroPage)),
        0x96 => Some(op(0x96, Mnemonic::Stx, 2, 4, AddressingMode::ZeroPageY)),
        0x8E => Some(op(0x8E, Mnemonic::Stx, 3, 4, AddressingMode::Absolute)),
        0x84 => Some(op(0x84, Mnemonic::Sty, 2, 3, AddressingMode::ZeroPage)),
        0x94 => Some(op(0x94, Mnemonic::Sty, 2, 4, AddressingMode::ZeroPageX)),
        0x8C => Some(op(0x8C, Mnemonic::Sty, 3, 4, AddressingMode::Absolute)),
        _ => None,
    }
}

impl OpCode {
    pub fn new(code: u8, mnemonic: Mnemonic, len: u8, cycles: u8, mode: AddressingMode) -> (r: OpCode)
        ensures
            r == op(code, mnemonic, len, cycles, mode),
    {
        OpCode { code, mnemonic, len, cycles, mode }
    }

    /// The descriptor of `code`, or `None` where it is no official opcode.
    pub fn lookup(code: u8) -> (r: Option<OpCode>)
        ensures
            r == opcode_table(code),
            r matches Some(op) ==> op.wf() && op.code == code,
    {
        match code {
            0x00 => Some(OpCode::new(0x00, Mnemonic::Brk, 1, 7, AddressingMode::NoneAddressing)),
            0xEA => Some(OpCode::new(0xEA, Mnemonic::Nop, 1, 2, AddressingMode::NoneAddressing)),
            0x69 => Some(OpCode::new(0x69, Mnemonic::Adc, 2, 2, AddressingMode::Immediate)),
            0x65 => Some(OpCode::new(0x65, Mnemonic::Adc, 2, 3, AddressingMode::ZeroPage)),
            0x75 => Some(OpCode::new(0x75, Mnemonic::Adc, 2, 4, AddressingMode::ZeroPageX)),
            0x6D => Some(OpCode::new(0x6D, Mnemonic::Adc, 3, 4, AddressingMode::Absolute)),
            0x7D => Some(OpCode::new(0x7D, Mnemonic::Adc, 3, 4, AddressingMode::AbsoluteX)),
            0x79 => Some(OpCode::new(0x79, Mnemonic::Adc, 3, 4, AddressingMode::AbsoluteY)),
            0x61 => Some(OpCode::new(0x61, Mnemonic::Adc, 2, 6, AddressingMode::IndirectX)),
            0x71 => Some(OpCode::new(0x71, Mnemonic::Adc, 2, 5, AddressingMode::IndirectY)),
            0xE9 => Some(OpCode::new(0xE9, Mnemonic::Sbc, 2, 2, AddressingMode::Immediate)),
            0xE5 => Some(OpCode::new(0xE5, Mnemonic::Sbc, 2, 3, AddressingMode::ZeroPage)),
            0xF5 => Some(OpCode::new(0xF5, Mnemonic::Sbc, 2, 4, AddressingMode::ZeroPageX)),
            0xED => Some(OpCode::new(0xED, Mnemonic::Sbc, 3, 4, AddressingMode::Absolute)),
            0xFD => Some(OpCode::new(0xFD, Mnemonic::Sbc, 3, 4, AddressingMode::AbsoluteX)),
            0xF9 => Some(OpCode::new(0xF9, Mnemonic::Sbc, 3, 4, AddressingMode::AbsoluteY)),
            0xE1 => Some(OpCode::new(0xE1, Mnemonic::Sbc, 2, 6, AddressingMode::IndirectX)),
            0xF1 => Some(OpCode::new(0xF1, Mnemonic::Sbc, 2, 5, AddressingMode::IndirectY)),
            0x29 => Some(OpCode::new(0x29, Mnemonic::And, 2, 2, AddressingMode::Immediate)),
            0x25 => Some(OpCode::new(0x25, Mnemonic::And, 2, 3, AddressingMode::ZeroPage)),
            0x35 => Some(OpCode::new(0x35, Mnemonic::And, 2, 4, AddressingMode::ZeroPageX)),
            0x2D => Some(OpCode::new(0x2D, Mnemonic::And, 3, 4, AddressingMode::Absolute)),
            0x3D => Some(OpCode::new(0x3D, Mnemonic::And, 3, 4, AddressingMode::AbsoluteX)),
            0x39 => Some(OpCode::new(0x39, Mnemonic::And, 3, 4, AddressingMode::AbsoluteY)),
            0x21 => Some(OpCode::new(0x21, Mnemonic::And, 2, 6, AddressingMode::IndirectX)),
            0x31 => Some(OpCode::new(0x31, Mnemonic::And, 2, 5, AddressingMode::IndirectY)),
            0x49 => Some(OpCode::new(0x49, Mnemonic::Eor, 2, 2, AddressingMode::Immediate)),
            0x45 => Some(OpCode::new(0x45, Mnemonic::Eor, 2, 3, AddressingMode::ZeroPage)),
            0x55 => Some(OpCode::new(0x55, Mnemonic::Eor, 2, 4, AddressingMode::ZeroPageX)),
            0x4D => Some(OpCode::new(0x4D, Mnemonic::Eor, 3, 4, AddressingMode::Absolute)),
            0x5D => Some(OpCode::new(0x5D, Mnemonic::Eor, 3, 4, AddressingMode::AbsoluteX)),
            0x59 => Some(OpCode::new(0x59, Mnemonic::Eor, 3, 4, AddressingMode::AbsoluteY)),
            0x41 => Some(OpCode::new(0x41, Mnemonic::Eor, 2, 6, AddressingMode::IndirectX)),
            0x51 => Some(OpCode::new(0x51, Mnemonic::Eor, 2, 5, AddressingMode::IndirectY)),
            0x09 => Some(OpCode::new(0x09, Mnemonic::Ora, 2, 2, AddressingMode::Immediate)),
            0x05 => Some(OpCode::new(0x05, Mnemonic::Ora, 2, 3, AddressingMode::ZeroPage)),
            0x15 => Some(OpCode::new(0x15, Mnemonic::Ora, 2, 4, AddressingMode::ZeroPageX)),
            0x0D => Some(OpCode::new(0x0D, Mnemonic::Ora, 3, 4, AddressingMode::Absolute)),
            0x1D => Some(OpCode::new(0x1D, Mnemonic::Ora, 3, 4, AddressingMode::AbsoluteX)),
            0x19 => Some(OpCode::new(0x19, Mnemonic::Ora, 3, 4, AddressingMode::AbsoluteY)),
            0x01 => Some(OpCode::new(0x01, Mnemonic::Ora, 2, 6, AddressingMode::IndirectX)),
            0x11 => Some(OpCode::new(0x11, Mnemonic::Ora, 2, 5, AddressingMode::IndirectY)),
            0x0A => Some(OpCode::new(0x0A, Mnemonic::Asl, 1, 2, AddressingMode::NoneAddressing)),
            0x06 => Some(OpCode::new(0x06, Mnemonic::Asl, 2, 5, AddressingMode::ZeroPage)),
            0x16 => Some(OpCode::new(0x16, Mnemonic::Asl, 2, 6, AddressingMode::ZeroPageX)),
            0x0E => Some(OpCode::new(0x0E, Mnemonic::Asl, 3, 6, AddressingMode::Absolute)),
            0x1E => Some(OpCode::new(0x1E, Mnemonic::Asl, 3, 7, AddressingMode::AbsoluteX)),
            0x4A => Some(OpCode::new(0x4A, Mnemonic::Lsr, 1, 2, AddressingMode::NoneAddressing)),
            0x46 => Some(OpCode::new(0x46, Mnemonic::Lsr, 2, 5, AddressingMode::ZeroPage)),
            0x56 => Some(OpCode::new(0x56, Mnemonic::Lsr, 2, 6, AddressingMode::ZeroPageX)),
            0x4E => Some(OpCode::new(0x4E, Mnemonic::Lsr, 3, 6, AddressingMode::Absolute)),
            0x5E => Some(OpCode::new(0x5E, Mnemonic::Lsr, 3, 7, AddressingMode::AbsoluteX)),
            0x2A => Some(OpCode::new(0x2A, Mnemonic::Rol, 1, 2, AddressingMode::NoneAddressing)),
            0x26 => Some(OpCode::new(0x26, Mnemonic::Rol, 2, 5, AddressingMode::ZeroPage)),
            0x36 => Some(OpCode::new(0x36, Mnemonic::Rol, 2, 6, AddressingMode::ZeroPageX)),
            0x2E => Some(OpCode::new(0x2E, Mnemonic::Rol, 3, 6, AddressingMode::Absolute)),
            0x3E => Some(OpCode::new(0x3E, Mnemonic::Rol, 3, 7, AddressingMode::AbsoluteX)),
            0x6A => Some(OpCode::new(0x6A, Mnemonic::Ror, 1, 2, AddressingMode::NoneAddressing)),
            0x66 => Some(OpCode::new(0x66, Mnemonic::Ror, 2, 5, AddressingMode::ZeroPage)),
            0x76 => Some(OpCode::new(0x76, Mnemonic::Ror, 2, 6, AddressingMode::ZeroPageX)),
            0x6E => Some(OpCode::new(0x6E, Mnemonic::Ror, 3, 6, AddressingMode::Absolute)),
            0x7E => Some(OpCode::new(0x7E, Mnemonic::Ror, 3, 7, AddressingMode::AbsoluteX)),
            0xE6 => Some(OpCode::new(0xE6, Mnemonic::Inc, 2, 5, AddressingMode::ZeroPage)),
            0xF6 => Some(OpCode::new(0xF6, Mnemonic::Inc, 2, 6, AddressingMode::ZeroPageX)),
            0xEE => Some(OpCode::new(0xEE, Mnemonic::Inc, 3, 6, AddressingMode::Absolute)),
            0xFE => Some(OpCode::new(0xFE, Mnemonic::Inc, 3, 7, AddressingMode::AbsoluteX)),
            0xE8 => Some(OpCode::new(0xE8, Mnemonic::Inx, 1, 2, AddressingMode::NoneAddressing)),
            0xC8 => Some(OpCode::new(0xC8, Mnemonic::Iny, 1, 2, AddressingMode::NoneAddressing)),
            0xC6 => Some(OpCode::new(0xC6, Mnemonic::Dec, 2, 5, AddressingMode::ZeroPage)),
            0xD6 => Some(OpCode::new(0xD6, Mnemonic::Dec, 2, 6, AddressingMode::ZeroPageX)),
            0xCE => Some(OpCode::new(0xCE, Mnemonic::Dec, 3, 6, AddressingMode::Absolute)),
            0xDE => Some(OpCode::new(0xDE, Mnemonic::Dec, 3, 7, AddressingMode::AbsoluteX)),
            0xCA => Some(OpCode::new(0xCA, Mnemonic::Dex, 1, 2, AddressingMode::NoneAddressing)),
            0x88 => Some(OpCode::new(0x88, Mnemonic::Dey, 1, 2, AddressingMode::NoneAddressing)),
            0xC9 => Some(OpCode::new(0xC9, Mnemonic::Cmp, 2, 2, AddressingMode::Immediate)),
            0xC5 => Some(OpCode::new(0xC5, Mnemonic::Cmp, 2, 3, AddressingMode::ZeroPage)),
            0xD5 => Some(OpCode::new(0xD5, Mnemonic::Cmp, 2, 4, AddressingMode::ZeroPageX)),
            0xCD => Some(OpCode::new(0xCD, Mnemonic::Cmp, 3, 4, AddressingMode::Absolute)),
            0xDD => Some(OpCode::new(0xDD, Mnemonic::Cmp, 3, 4, AddressingMode::AbsoluteX)),
            0xD9 => Some(OpCode::new(0xD9, Mnemonic::Cmp, 3, 4, AddressingMode::AbsoluteY)),
            0xC1 => Some(OpCode::new(0xC1, Mnemonic::Cmp, 2, 6, AddressingMode::IndirectX)),
            0xD1 => Some(OpCode::new(0xD1, Mnemonic::Cmp, 2, 5, AddressingMode::IndirectY)),
            0xC0 => Some(OpCode::new(0xC0, Mnemonic::Cpy, 2, 2, AddressingMode::Immediate)),
            0xC4 => Some(OpCode::new(0xC4, Mnemonic::Cpy, 2, 3, AddressingMode::ZeroPage)),
            0xCC => Some(OpCode::new(0xCC, Mnemonic::Cpy, 3, 4, AddressingMode::Absolute)),
            0xE0 => Some(OpCode::new(0xE0, Mnemonic::Cpx, 2, 2, AddressingMode::Immediate)),
            0xE4 => Some(OpCode::new(0xE4, Mnemonic::Cpx, 2, 3, AddressingMode::ZeroPage)),
            0xEC => Some(OpCode::new(0xEC, Mnemonic::Cpx, 3, 4, AddressingMode::Absolute)),
            0x4C => Some(OpCode::new(0x4C, Mnemonic::Jmp, 3, 3, AddressingMode::Absolute)),
            0x6C => Some(OpCode::new(0x6C, Mnemonic::Jmp, 3, 5, AddressingMode::NoneAddressing)),
            0x20 => Some(OpCode::new(0x20, Mnemonic::Jsr, 3, 6, AddressingMode::Absolute)),
            0x60 => Some(OpCode::new(0x60, Mnemonic::Rts, 1, 6, AddressingMode::NoneAddressing)),
            0x40 => Some(OpCode::new(0x40, Mnemonic::Rti, 1, 6, AddressingMode::NoneAddressing)),
            0xD0 => Some(OpCode::new(0xD0, Mnemonic::Bne, 2, 2, AddressingMode::NoneAddressing)),
            0x70 => Some(OpCode::new(0x70, Mnemonic::Bvs, 2, 2, AddressingMode::NoneAddressing)),
            0x50 => Some(OpCode::new(0x50, Mnemonic::Bvc, 2, 2, AddressingMode::NoneAddressing)),
            0x30 => Some(OpCode::new(0x30, Mnemonic::Bmi, 2, 2, AddressingMode::NoneAddressing)),
            0xF0 => Some(OpCode::new(0xF0, Mnemonic::Beq, 2, 2, AddressingMode::NoneAddressing)),
            0xB0 => Some(OpCode::new(0xB0, Mnemonic::Bcs, 2, 2, AddressingMode::NoneAddressing)),
            0x90 => Some(OpCode::new(0x90, Mnemonic::Bcc, 2, 2, AddressingMode::NoneAddressing)),
            0x10 => Some(OpCode::new(0x10, Mnemonic::Bpl, 2, 2, AddressingMode::NoneAddressing)),
            0x24 => Some(OpCode::new(0x24, Mnemonic::Bit, 2, 3, AddressingMode::ZeroPage)),
            0x2C => Some(OpCode::new(0x2C, Mnemonic::Bit, 3, 4, AddressingMode::Absolute)),
            0xD8 => Some(OpCode::new(0xD8, Mnemonic::Cld, 1, 2, AddressingMode::NoneAddressing)),
            0x58 => Some(OpCode::new(0x58, Mnemonic::Cli, 1, 2, AddressingMode::NoneAddressing)),
            0xB8 => Some(OpCode::new(0xB8, Mnemonic::Clv, 1, 2, AddressingMode::NoneAddressing)),
            0x18 => Some(OpCode::new(0x18, Mnemonic::Clc, 1, 2, AddressingMode::NoneAddressing)),
            0x38 => Some(OpCode::new(0x38, Mnemonic::Sec, 1, 2, AddressingMode::NoneAddressing)),
            0x78 => Some(OpCode::new(0x78, Mnemonic::Sei, 1, 2, AddressingMode::NoneAddressing)),
            0xF8 => Some(OpCode::new(0xF8, Mnemonic::Sed, 1, 2, AddressingMode::NoneAddressing)),
            0xAA => Some(OpCode::new(0xAA, Mnemonic::Tax, 1, 2, AddressingMode::NoneAddressing)),
            0xA8 => Some(OpCode::new(0xA8, Mnemonic::Tay, 1, 2, AddressingMode::NoneAddressing)),
            0xBA => Some(OpCode::new(0xBA, Mnemonic::Tsx, 1, 2, AddressingMode::NoneAddressing)),
            0x8A => Some(OpCode::new(0x8A, Mnemonic::Txa, 1, 2, AddressingMode::NoneAddressing)),
            0x9A => Some(OpCode::new(0x9A, Mnemonic::Txs, 1, 2, AddressingMode::NoneAddressing)),
            0x98 => Some(OpCode::new(0x98, Mnemonic::Tya, 1, 2, AddressingMode::NoneAddressing)),
            0x48 => Some(OpCode::new(0x48, Mnemonic::Pha, 1, 3, AddressingMode::NoneAddressing)),
            0x68 => Some(OpCode::new(0x68, Mnemonic::Pla, 1, 4, AddressingMode::NoneAddressing)),
            0x08 => Some(OpCode::new(0x08, Mnemonic::Php, 1, 3, AddressingMode::NoneAddressing)),
            0x28 => Some(OpCode::new(0x28, Mnemonic::Plp, 1, 4, AddressingMode::NoneAddressing)),
            0xA9 => Some(OpCode::new(0xA9, Mnemonic::Lda, 2, 2, AddressingMode::Immediate)),
            0xA5 => Some(OpCode::new(0xA5, Mnemonic::Lda, 2, 3, AddressingMode::ZeroPage)),
            0xB5 => Some(OpCode::new(0xB5, Mnemonic::Lda, 2, 4, AddressingMode::ZeroPageX)),
            0xAD => Some(OpCode::new(0xAD, Mnemonic::Lda, 3, 4, AddressingMode::Absolute)),
            0xBD => Some(OpCode::new(0xBD, Mnemonic::Lda, 3, 4, AddressingMode::AbsoluteX)),
            0xB9 => Some(OpCode::new(0xB9, Mnemonic::Lda, 3, 4, AddressingMode::AbsoluteY)),
            0xA1 => Some(OpCode::new(0xA1, Mnemonic::Lda, 2, 6, AddressingMode::IndirectX)),
            0xB1 => Some(OpCode::new(0xB1, Mnemonic::Lda, 2, 5, AddressingMode::IndirectY)),
            0xA2 => Some(OpCode::new(0xA2, Mnemonic::Ldx, 2, 2, AddressingMode::Immediate)),
            0xA6 => Some(OpCode::new(0xA6, Mnemonic::Ldx, 2, 3, AddressingMode::ZeroPage)),
            0xB6 => Some(OpCode::new(0xB6, Mnemonic::Ldx, 2, 4, AddressingMode::ZeroPageY)),
            0xAE => Some(OpCode::new(0xAE, Mnemonic::Ldx, 3, 4, AddressingMode::Absolute)),
            0xBE => Some(OpCode::new(0xBE, Mnemonic::Ldx, 3, 4, AddressingMode::AbsoluteY)),
            0xA0 => Some(OpCode::new(0xA0, Mnemonic::Ldy, 2, 2, AddressingMode::Immediate)),
            0xA4 => Some(OpCode::new(0xA4, Mnemonic::Ldy, 2, 3, AddressingMode::ZeroPage)),
            0xB4 => Some(OpCode::new(0xB4, Mnemonic::Ldy, 2, 4, AddressingMode::ZeroPageX)),
            0xAC => Some(OpCode::new(0xAC, Mnemonic::Ldy, 3, 4, AddressingMode::Absolute)),
            0xBC => Some(OpCode::new(0xBC, Mnemonic::Ldy, 3, 4, AddressingMode::AbsoluteX)),
            0x85 => Some(OpCode::new(0x85, Mnemonic::Sta, 2, 3, AddressingMode::ZeroPage)),
            0x95 => Some(OpCode::new(0x95, Mnemonic::Sta, 2, 4, AddressingMode::ZeroPageX)),
            0x8D => Some(OpCode::new(0x8D, Mnemonic::Sta, 3, 4, AddressingMode::Absolute)),
            0x9D => Some(OpCode::new(0x9D, Mnemonic::Sta, 3, 5, AddressingMode::AbsoluteX)),
            0x99 => Some(OpCode::new(0x99, Mnemonic::Sta, 3, 5, AddressingMode::AbsoluteY)),
            0x81 => Some(OpCode::new(0x81, Mnemonic::Sta, 2, 6, AddressingMode::IndirectX)),
            0x91 => Some(OpCode::new(0x91, Mnemonic::Sta, 2, 6, AddressingMode::IndirectY)),
            0x86 => Some(OpCode::new(0x86, Mnemonic::Stx, 2, 3, AddressingMode::ZeroPage)),
            0x96 => Some(OpCode::new(0x96, Mnemonic::Stx, 2, 4, AddressingMode::ZeroPageY)),
            0x8E => Some(OpCode::new(0x8E, Mnemonic::Stx, 3, 4, AddressingMode::Absolute)),
            0x84 => Some(OpCode::new(0x84, Mnemonic::Sty, 2, 3, AddressingMode::ZeroPage)),
            0x94 => Some(OpCode::new(0x94, Mnemonic::Sty, 2, 4, AddressingMode::ZeroPageX)),
            0x8C => Some(OpCode::new(0x8C, Mnemonic::Sty, 3, 4, AddressingMode::Absolute)),
            _ => None,
        }
    }
}

} // verus!
