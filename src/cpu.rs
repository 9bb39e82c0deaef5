use vstd::prelude::*;

use crate::bus::{lemma_word_compose, read16, read8, write16, write8, Bus, BusView, Memory};
use crate::flags::{
    has_flag, BREAK, BREAK2, CARRY, DECIMAL_MODE, INTERRUPT_DISABLE, NEGATIVE, OVERFLOW, ZERO,
    CpuFlags,
};
use crate::opcodes::{op, opcode_table, AddressingMode, Mnemonic, OpCode};
use crate::semantics::{
    add_with_carry, after_step, branch, compare, execute, lemma_no_effect, lemma_nz_flags,
    operand, operand_address, pop, pop16, push, push16, with_a, with_nz, CpuState, STACK,
};

verus! {

/// Stack pointer after a reset.
pub const STACK_RESET: u8 = 0xfd;

/// Status register after a reset: interrupts disabled and bit 5 set.
pub const STATUS_RESET: u8 = 0b0010_0100;

/// Where the reset vector lives.
pub const RESET_VECTOR: u16 = 0xfffc;

/// Where `load` puts a program, and where its reset vector points.
pub const PROGRAM_START: u16 = 0x0600;

/// Why the interpreter stopped short of a `BRK`.
#[derive(Clone, Copy, Debug, PartialEq, Eq, Structural)]
pub enum CpuError {
    /// The byte at `pc` is no official opcode.
    UnrecognizedOpcode { opcode: u8, pc: u16 },
    /// The run went through `u64::MAX` instructions without reaching a `BRK`.
    StepLimitReached,
}

/// What a single instruction left to do.
#[derive(Clone, Copy, Debug, PartialEq, Eq, Structural)]
pub enum StepOutcome {
    Continued,
    /// The instruction was `BRK`, which ends a run.
    Halted,
}

/// The outcome of one pass of the main loop from state `s`, with `s.pc` at the opcode.
pub open spec fn step_spec(s: CpuState) -> Result<(CpuState, StepOutcome), CpuError> {
    let code = read8(s.mem, s.pc);
    match opcode_table(code) {
        None => Err(CpuError::UnrecognizedOpcode { opcode: code, pc: s.pc }),
        Some(op) => Ok(
            (
                after_step(s, op),
                if op.mnemonic == Mnemonic::Brk {
                    StepOutcome::Halted
                } else {
                    StepOutcome::Continued
                },
            ),
        ),
    }
}

/// Whether the step from `s` succeeds and the run goes on.
pub open spec fn step_continues(s: CpuState) -> bool {
    step_spec(s) matches Ok((_, StepOutcome::Continued))
}

/// Whether the step from `s` executes a `BRK`.
pub open spec fn step_halts(s: CpuState) -> bool {
    step_spec(s) matches Ok((_, StepOutcome::Halted))
}

/// The state that a successful step from `s` makes.
pub open spec fn step_result(s: CpuState) -> CpuState {
    match step_spec(s) {
        Ok((t, _)) => t,
        Err(_) => s,
    }
}

/// Storage after copying `bytes` one by one from `base` upward, wrapping at 0xFFFF.
pub open spec fn write_bytes(m: BusView, base: u16, bytes: Seq<u8>) -> BusView
    decreases bytes.len(),
{
    if bytes.len() == 0 {
        m
    } else {
        write8(
            write_bytes(m, base, bytes.drop_last()),
            ((base + bytes.len() - 1) % 0x10000) as u16,
            bytes.last(),
        )
    }
}

/// Up to `n` passes of the main loop from `s`, stopping at the first that halts or fails.
pub open spec fn run(s: CpuState, n: nat) -> Result<(CpuState, StepOutcome), CpuError>
    decreases n,
{
    if n == 0 {
        Ok((s, StepOutcome::Continued))
    } else {
        match run(s, (n - 1) as nat) {
            Ok((t, StepOutcome::Continued)) => step_spec(t),
            other => other,
        }
    }
}

/// The storage after `load_at`: the program copied from `base`, the reset vector written.
pub open spec fn loaded(m: BusView, program: Seq<u8>, base: u16, reset_vector: u16) -> BusView {
    write16(write_bytes(m, base, program), RESET_VECTOR, reset_vector)
}

/// A taken `BEQ` with offset byte 0x80 lands 128 bytes before the address that follows the
/// offset byte: the offset is a signed byte.
pub proof fn lemma_branch_offset_signed(s: CpuState)
    requires
        read8(s.mem, s.pc) == 0xF0,
        read8(s.mem, s.pc.wrapping_add(1)) == 0x80,
        has_flag(s.p, ZERO),
    ensures
        step_spec(s) == Ok::<(CpuState, StepOutcome), CpuError>(
            (CpuState { pc: ((s.pc + 2 - 128) % 0x10000) as u16, ..s }, StepOutcome::Continued),
        ),
{
    reveal(execute);
    assert(opcode_table(0xF0) == Some(
        op(0xF0, Mnemonic::Beq, 2, 2, AddressingMode::NoneAddressing),
    ));
}

pub struct Cpu {
    pub program_counter: u16,
    pub register_a: u8,
    pub register_x: u8,
    pub register_y: u8,
    pub stack_pointer: u8,
    pub bus: Bus,
    pub flags: CpuFlags,
}

impl View for Cpu {
    type V = CpuState;

    open spec fn view(&self) -> CpuState {
        CpuState {
            pc: self.program_counter,
            a: self.register_a,
            x: self.register_x,
            y: self.register_y,
            sp: self.stack_pointer,
            p: self.flags.bits,
            mem: self.bus@,
        }
    }
}

impl Cpu {
    /// A processor with every register and status bit zero, owning `bus`.
    pub fn new(bus: Bus) -> (r: Cpu)
        ensures
            r@ == (CpuState { pc: 0, a: 0, x: 0, y: 0, sp: 0, p: 0, mem: bus@ }),
    {
        Cpu {
            program_counter: 0,
            register_a: 0,
            register_x: 0,
            register_y: 0,
            stack_pointer: 0,
            bus,
            flags: CpuFlags::from_bits_truncate(0),
        }
    }

    /// Clears A, X and Y, sets SP and P to their reset values and jumps through the reset vector.
    pub fn reset(&mut self)
        ensures
            final(self)@ == (CpuState {
                pc: read16(old(self)@.mem, RESET_VECTOR),
                a: 0,
                x: 0,
                y: 0,
                sp: STACK_RESET,
                p: STATUS_RESET,
                mem: old(self)@.mem,
            }),
    {
        self.register_a = 0;
        self.register_x = 0;
        self.register_y = 0;
        self.stack_pointer = STACK_RESET;
        self.flags = CpuFlags::from_bits_truncate(STATUS_RESET);
        self.program_counter = self.bus.mem_read_u16(RESET_VECTOR);
    }

    fn update_zero_and_negative_flags(&mut self, result: u8)
        ensures
            final(self)@ == (CpuState { p: with_nz(old(self)@.p, result), ..old(self)@ }),
            has_flag(final(self).flags.bits, ZERO) == (result == 0),
            has_flag(final(self).flags.bits, NEGATIVE) == (result >> 7 == 1),
    {
        proof {
            lemma_nz_flags(self.flags.bits, result, CARRY);
        }
        if result == 0 {
            self.flags.insert(ZERO);
        } else {
            self.flags.remove(ZERO);
        }
        if result >> 7 == 1 {
            self.flags.insert(NEGATIVE);
        } else {
            self.flags.remove(NEGATIVE);
        }
    }

    fn set_register_a(&mut self, value: u8)
        ensures
            final(self)@ == with_a(old(self)@, value),
    {
        self.register_a = value;
        self.update_zero_and_negative_flags(value);
    }

    /// The effective address of the operand, with the program counter at the operand.
    pub fn calculate_address(&self, address_mode: &AddressingMode) -> (r: u16)
        requires
            *address_mode != AddressingMode::NoneAddressing,
        ensures
            r == operand_address(self@, *address_mode),
    {
        match address_mode {
            AddressingMode::Immediate => self.program_counter,
            AddressingMode::Absolute => self.bus.mem_read_u16(self.program_counter),
            AddressingMode::AbsoluteX => {
                let base = self.bus.mem_read_u16(self.program_counter);
                base.wrapping_add(self.register_x as u16)
            },
            AddressingMode::AbsoluteY => {
                let base = self.bus.mem_read_u16(self.program_counter);
                base.wrapping_add(self.register_y as u16)
            },
            AddressingMode::ZeroPage => self.bus.mem_read(self.program_counter) as u16,
            AddressingMode::ZeroPageX => {
                let base = self.bus.mem_read(self.program_counter);
                base.wrapping_add(self.register_x) as u16
            },
            AddressingMode::ZeroPageY => {
                let base = self.bus.mem_read(self.program_counter);
                base.wrapping_add(self.register_y) as u16
            },
            AddressingMode::IndirectX => {
                let base = self.bus.mem_read(self.program_counter);
                let ptr = base.wrapping_add(self.register_x);
                self.zero_page_word(ptr)
            },
            AddressingMode::IndirectY => {
                let base = self.bus.mem_read(self.program_counter);
                let deref = self.zero_page_word(base);
                deref.wrapping_add(self.register_y as u16)
            },
            // excluded by the precondition
            AddressingMode::NoneAddressing => self.program_counter,
        }
    }

    /// The little-endian word at zero-page `ptr`, its high byte from `ptr + 1` within page zero.
    fn zero_page_word(&self, ptr: u8) -> (r: u16)
        ensures
            r == crate::semantics::zero_page_word(self@.mem, ptr),
    {
        let lo = self.bus.mem_read(ptr as u16) as u16;
        let hi = self.bus.mem_read(ptr.wrapping_add(1) as u16) as u16;
        proof {
            lemma_word_compose(lo, hi);
        }
        (hi << 8) | lo
    }

    pub fn stack_pop(&mut self) -> (r: u8)
        ensures
            (final(self)@, r) == pop(old(self)@),
    {
        self.stack_pointer = self.stack_pointer.wrapping_add(1);
        self.bus.mem_read(STACK + self.stack_pointer as u16)
    }

    pub fn stack_push(&mut self, data: u8)
        ensures
            final(self)@ == push(old(self)@, data),
    {
        self.bus.mem_write(STACK + self.stack_pointer as u16, data);
        self.stack_pointer = self.stack_pointer.wrapping_sub(1);
    }

    fn stack_push_u16(&mut self, data: u16)
        ensures
            final(self)@ == push16(old(self)@, data),
    {
        let hi = (data / 256) as u8;
        let lo = (data % 256) as u8;
        self.stack_push(hi);
        self.stack_push(lo);
    }

    fn stack_pop_u16(&mut self) -> (r: u16)
        ensures
            (final(self)@, r) == pop16(old(self)@),
    {
        let lo = self.stack_pop() as u16;
        let hi = self.stack_pop() as u16;
        proof {
            lemma_word_compose(lo, hi);
        }
        (hi << 8) | lo
    }

    fn compare(&mut self, address_mode: &AddressingMode, to_value: u8)
        requires
            *address_mode != AddressingMode::NoneAddressing,
        ensures
            final(self)@ == compare(old(self)@, to_value, operand(old(self)@, *address_mode)),
    {
        let param = self.bus.mem_read(self.calculate_address(address_mode));
        if param <= to_value {
            self.flags.insert(CARRY);
        } else {
            self.flags.remove(CARRY);
        }
        self.update_zero_and_negative_flags(to_value.wrapping_sub(param));
    }
}

impl Cpu {
    fn adc(&mut self, address_mode: &AddressingMode)
        requires
            *address_mode != AddressingMode::NoneAddressing,
        ensures
            final(self)@ == execute(old(self)@, Mnemonic::Adc, *address_mode),
    {
        proof {
            reveal(execute);
        }
        let add_param = self.bus.mem_read(self.calculate_address(address_mode));
        self.add_to_register_a(add_param)
    }

    fn and(&mut self, address_mode: &AddressingMode)
        requires
            *address_mode != AddressingMode::NoneAddressing,
        ensures
            final(self)@ == execute(old(self)@, Mnemonic::And, *address_mode),
    {
        proof {
            reveal(execute);
        }
        let and_param = self.bus.mem_read(self.calculate_address(address_mode));
        self.set_register_a(self.register_a & and_param);
    }

    fn asl_accumulator(&mut self)
        ensures
            final(self)@ == execute(old(self)@, Mnemonic::Asl, AddressingMode::NoneAddressing),
    {
        proof {
            reveal(execute);
        }
        let data = self.register_a;
        self.flags.set(CARRY, data >> 7 == 1);
        self.set_register_a(data << 1)
    }

    fn asl(&mut self, address_mode: &AddressingMode) -> (r: u8)
        requires
            *address_mode != AddressingMode::NoneAddressing,
        ensures
            final(self)@ == execute(old(self)@, Mnemonic::Asl, *address_mode),
            r == operand(old(self)@, *address_mode) << 1,
    {
        proof {
            reveal(execute);
        }
        let addr = self.calculate_address(address_mode);
        let data = self.bus.mem_read(addr);
        self.flags.set(CARRY, data >> 7 == 1);
        let result = data << 1;
        self.bus.mem_write(addr, result);
        self.update_zero_and_negative_flags(result);
        result
    }

    /// Takes the branch whose offset byte is at the program counter when `condition` holds.
    fn branch(&mut self, condition: bool)
        ensures
            final(self)@ == branch(old(self)@, condition),
    {
        if condition {
            let offset = self.bus.mem_read(self.program_counter);
            let next = self.program_counter.wrapping_add(1);
            self.program_counter = if offset < 128 {
                next.wrapping_add(offset as u16)
            } else {
                next.wrapping_sub(256 - offset as u16)
            };
        }
    }

    fn beq(&mut self)
        ensures
            final(self)@ == execute(old(self)@, Mnemonic::Beq, AddressingMode::NoneAddressing),
    {
        proof {
            reveal(execute);
        }
        self.branch(self.flags.contains(ZERO))
    }

    fn bcc(&mut self)
        ensures
            final(self)@ == execute(old(self)@, Mnemonic::Bcc, AddressingMode::NoneAddressing),
    {
        proof {
            reveal(execute);
        }
        self.branch(!self.flags.contains(CARRY))
    }

    fn bcs(&mut self)
        ensures
            final(self)@ == execute(old(self)@, Mnemonic::Bcs, AddressingMode::NoneAddressing),
    {
        proof {
            reveal(execute);
        }
        self.branch(self.flags.contains(CARRY))
    }

    fn bit(&mut self, address_mode: &AddressingMode)
        requires
            *address_mode != AddressingMode::NoneAddressing,
        ensures
            final(self)@ == execute(old(self)@, Mnemonic::Bit, *address_mode),
    {
        proof {
            reveal(execute);
        }
        let param = self.bus.mem_read(self.calculate_address(address_mode));
        self.flags.set(ZERO, param & self.register_a == 0);
        self.flags.set(NEGATIVE, param >> 7 == 1);
        self.flags.set(OVERFLOW, (param >> 6) & 1 == 1);
    }

    fn bmi(&mut self)
        ensures
            final(self)@ == execute(old(self)@, Mnemonic::Bmi, AddressingMode::NoneAddressing),
    {
        proof {
            reveal(execute);
        }
        self.branch(self.flags.contains(NEGATIVE))
    }

    fn bne(&mut self)
        ensures
            final(self)@ == execute(old(self)@, Mnemonic::Bne, AddressingMode::NoneAddressing),
    {
        proof {
            reveal(execute);
        }
        self.branch(!self.flags.contains(ZERO))
    }

    fn bpl(&mut self)
        ensures
            final(self)@ == execute(old(self)@, Mnemonic::Bpl, AddressingMode::NoneAddressing),
    {
        proof {
            reveal(execute);
        }
        self.branch(!self.flags.contains(NEGATIVE))
    }

    fn bvc(&mut self)
        ensures
            final(self)@ == execute(old(self)@, Mnemonic::Bvc, AddressingMode::NoneAddressing),
    {
        proof {
            reveal(execute);
        }
        self.branch(!self.flags.contains(OVERFLOW))
    }

    fn bvs(&mut self)
        ensures
            final(self)@ == execute(old(self)@, Mnemonic::Bvs, AddressingMode::NoneAddressing),
    {
        proof {
            reveal(execute);
        }
        self.branch(self.flags.contains(OVERFLOW))
    }

    fn clc(&mut self)
        ensures
            final(self)@ == execute(old(self)@, Mnemonic::Clc, AddressingMode::NoneAddressing),
    {
        proof {
            reveal(execute);
        }
        self.flags.remove(CARRY)
    }

    fn cld(&mut self)
        ensures
            final(self)@ == execute(old(self)@, Mnemonic::Cld, AddressingMode::NoneAddressing),
    {
        proof {
            reveal(execute);
        }
        self.flags.remove(DECIMAL_MODE)
    }

    fn cli(&mut self)
        ensures
            final(self)@ == execute(old(self)@, Mnemonic::Cli, AddressingMode::NoneAddressing),
    {
        proof {
            reveal(execute);
        }
        self.flags.remove(INTERRUPT_DISABLE)
    }

    fn clv(&mut self)
        ensures
            final(self)@ == execute(old(self)@, Mnemonic::Clv, AddressingMode::NoneAddressing),
    {
        proof {
            reveal(execute);
        }
        self.flags.remove(OVERFLOW)
    }

    fn cmp(&mut self, address_mode: &AddressingMode)
        requires
            *address_mode != AddressingMode::NoneAddressing,
        ensures
            final(self)@ == execute(old(self)@, Mnemonic::Cmp, *address_mode),
    {
        proof {
            reveal(execute);
        }
        self.compare(address_mode, self.register_a)
    }

    fn cpx(&mut self, address_mode: &AddressingMode)
        requires
            *address_mode != AddressingMode::NoneAddressing,
        ensures
            final(self)@ == execute(old(self)@, Mnemonic::Cpx, *address_mode),
    {
        proof {
            reveal(execute);
        }
        self.compare(address_mode, self.register_x)
    }

    fn cpy(&mut self, address_mode: &AddressingMode)
        requires
            *address_mode != AddressingMode::NoneAddressing,
        ensures
            final(self)@ == execute(old(self)@, Mnemonic::Cpy, *address_mode),
    {
        proof {
            reveal(execute);
        }
        self.compare(address_mode, self.register_y)
    }

    fn dec(&mut self, address_mode: &AddressingMode)
        requires
            *address_mode != AddressingMode::NoneAddressing,
        ensures
            final(self)@ == execute(old(self)@, Mnemonic::Dec, *address_mode),
    {
        proof {
            reveal(execute);
        }
        let addr = self.calculate_address(address_mode);
        let result = self.bus.mem_read(addr).wrapping_sub(1);
        self.bus.mem_write(addr, result);
        self.update_zero_and_negative_flags(result)
    }

    fn dex(&mut self)
        ensures
            final(self)@ == execute(old(self)@, Mnemonic::Dex, AddressingMode::NoneAddressing),
    {
        proof {
            reveal(execute);
        }
        let result = self.register_x.wrapping_sub(1);
        self.register_x = result;
        self.update_zero_and_negative_flags(result)
    }

    fn dey(&mut self)
        ensures
            final(self)@ == execute(old(self)@, Mnemonic::Dey, AddressingMode::NoneAddressing),
    {
        proof {
            reveal(execute);
        }
        let result = self.register_y.wrapping_sub(1);
        self.register_y = result;
        self.update_zero_and_negative_flags(result)
    }

    fn eor(&mut self, address_mode: &AddressingMode)
        requires
            *address_mode != AddressingMode::NoneAddressing,
        ensures
            final(self)@ == execute(old(self)@, Mnemonic::Eor, *address_mode),
    {
        proof {
            reveal(execute);
        }
        let param = self.bus.mem_read(self.calculate_address(address_mode));
        self.set_register_a(self.register_a ^ param)
    }

    fn inc(&mut self, address_mode: &AddressingMode)
        requires
            *address_mode != AddressingMode::NoneAddressing,
        ensures
            final(self)@ == execute(old(self)@, Mnemonic::Inc, *address_mode),
    {
        proof {
            reveal(execute);
        }
        let addr = self.calculate_address(address_mode);
        let result = self.bus.mem_read(addr).wrapping_add(1);
        self.bus.mem_write(addr, result);
        self.update_zero_and_negative_flags(result)
    }

    fn inx(&mut self)
        ensures
            final(self)@ == execute(old(self)@, Mnemonic::Inx, AddressingMode::NoneAddressing),
    {
        proof {
            reveal(execute);
        }
        let result = self.register_x.wrapping_add(1);
        self.register_x = result;
        self.update_zero_and_negative_flags(result)
    }

    fn iny(&mut self)
        ensures
            final(self)@ == execute(old(self)@, Mnemonic::Iny, AddressingMode::NoneAddressing),
    {
        proof {
            reveal(execute);
        }
        let result = self.register_y.wrapping_add(1);
        self.register_y = result;
        self.update_zero_and_negative_flags(result)
    }

    fn jump_absolute(&mut self)
        ensures
            final(self)@ == execute(old(self)@, Mnemonic::Jmp, AddressingMode::Absolute),
    {
        proof {
            reveal(execute);
        }
        self.program_counter = self.bus.mem_read_u16(self.program_counter)
    }

    /// `JMP (ind)`, with the 6502's wrap of the pointer's high byte within its page.
    fn jump_indirect(&mut self)
        ensures
            final(self)@ == execute(old(self)@, Mnemonic::Jmp, AddressingMode::NoneAddressing),
    {
        proof {
            reveal(execute);
        }
        let mem_address = self.bus.mem_read_u16(self.program_counter);
        let indirect_ref = if mem_address & 0x00FF == 0x00FF {
            let lo = self.bus.mem_read(mem_address) as u16;
            let hi = self.bus.mem_read(mem_address & 0xFF00) as u16;
            proof {
                lemma_word_compose(lo, hi);
            }
            (hi << 8) | lo
        } else {
            self.bus.mem_read_u16(mem_address)
        };
        self.program_counter = indirect_ref;
    }

    fn jsr(&mut self)
        ensures
            final(self)@ == execute(old(self)@, Mnemonic::Jsr, AddressingMode::Absolute),
    {
        proof {
            reveal(execute);
        }
        self.stack_push_u16(self.program_counter.wrapping_add(1));
        self.program_counter = self.bus.mem_read_u16(self.program_counter)
    }

    fn lda(&mut self, address_mode: &AddressingMode)
        requires
            *address_mode != AddressingMode::NoneAddressing,
        ensures
            final(self)@ == execute(old(self)@, Mnemonic::Lda, *address_mode),
    {
        proof {
            reveal(execute);
        }
        let param = self.bus.mem_read(self.calculate_address(address_mode));
        self.set_register_a(param)
    }

    fn ldx(&mut self, address_mode: &AddressingMode)
        requires
            *address_mode != AddressingMode::NoneAddressing,
        ensures
            final(self)@ == execute(old(self)@, Mnemonic::Ldx, *address_mode),
    {
        proof {
            reveal(execute);
        }
        let param = self.bus.mem_read(self.calculate_address(address_mode));
        self.register_x = param;
        self.update_zero_and_negative_flags(param)
    }

    fn ldy(&mut self, address_mode: &AddressingMode)
        requires
            *address_mode != AddressingMode::NoneAddressing,
        ensures
            final(self)@ == execute(old(self)@, Mnemonic::Ldy, *address_mode),
    {
        proof {
            reveal(execute);
        }
        let param = self.bus.mem_read(self.calculate_address(address_mode));
        self.register_y = param;
        self.update_zero_and_negative_flags(param)
    }

    fn lsr_accumulator(&mut self)
        ensures
            final(self)@ == execute(old(self)@, Mnemonic::Lsr, AddressingMode::NoneAddressing),
    {
        proof {
            reveal(execute);
        }
        let m = self.register_a;
        self.flags.set(CARRY, m & 1 == 1);
        self.set_register_a(m >> 1)
    }

    fn lsr(&mut self, address_mode: &AddressingMode)
        requires
            *address_mode != AddressingMode::NoneAddressing,
        ensures
            final(self)@ == execute(old(self)@, Mnemonic::Lsr, *address_mode),
    {
        proof {
            reveal(execute);
        }
        let addr = self.calculate_address(address_mode);
        let m = self.bus.mem_read(addr);
        self.flags.set(CARRY, m & 1 == 1);
        let data = m >> 1;
        self.bus.mem_write(addr, data);
        self.update_zero_and_negative_flags(data)
    }

    fn ora(&mut self, address_mode: &AddressingMode)
        requires
            *address_mode != AddressingMode::NoneAddressing,
        ensures
            final(self)@ == execute(old(self)@, Mnemonic::Ora, *address_mode),
    {
        proof {
            reveal(execute);
        }
        let param = self.bus.mem_read(self.calculate_address(address_mode));
        self.set_register_a(self.register_a | param)
    }

    fn pha(&mut self)
        ensures
            final(self)@ == execute(old(self)@, Mnemonic::Pha, AddressingMode::NoneAddressing),
    {
        proof {
            reveal(execute);
        }
        self.stack_push(self.register_a)
    }

    /// Pushes P with B and bit 5 set in the pushed copy only.
    fn php(&mut self)
        ensures
            final(self)@ == execute(old(self)@, Mnemonic::Php, AddressingMode::NoneAddressing),
    {
        proof {
            reveal(execute);
        }
        let mut flags = self.flags;
        flags.insert(BREAK);
        flags.insert(BREAK2);
        self.stack_push(flags.bits());
    }

    fn pla(&mut self)
        ensures
            final(self)@ == execute(old(self)@, Mnemonic::Pla, AddressingMode::NoneAddressing),
    {
        proof {
            reveal(execute);
        }
        let data = self.stack_pop();
        self.set_register_a(data);
    }

    fn plp(&mut self)
        ensures
            final(self)@ == execute(old(self)@, Mnemonic::Plp, AddressingMode::NoneAddressing),
    {
        proof {
            reveal(execute);
        }
        self.flags = CpuFlags::from_bits_truncate(self.stack_pop());
        self.flags.remove(BREAK);
        self.flags.insert(BREAK2)
    }

    /// The carry as the low bit of a byte.
    fn carry_bit(&self) -> (r: u8)
        ensures
            r == (if has_flag(self@.p, CARRY) {
                1u8
            } else {
                0u8
            }),
    {
        if self.flags.contains(CARRY) {
            1
        } else {
            0
        }
    }

    fn rol(&mut self, address_mode: &AddressingMode)
        requires
            *address_mode != AddressingMode::NoneAddressing,
        ensures
            final(self)@ == execute(old(self)@, Mnemonic::Rol, *address_mode),
    {
        proof {
            reveal(execute);
        }
        let addr = self.calculate_address(address_mode);
        let param = self.bus.mem_read(addr);
        let carry_in = self.carry_bit();
        self.flags.set(CARRY, param >> 7 == 1);
        let result = (param << 1) | carry_in;
        self.bus.mem_write(addr, result);
        self.update_zero_and_negative_flags(result)
    }

    fn rol_accumulator(&mut self)
        ensures
            final(self)@ == execute(old(self)@, Mnemonic::Rol, AddressingMode::NoneAddressing),
    {
        proof {
            reveal(execute);
        }
        let param = self.register_a;
        let carry_in = self.carry_bit();
        self.flags.set(CARRY, param >> 7 == 1);
        self.set_register_a((param << 1) | carry_in);
    }

    fn ror(&mut self, address_mode: &AddressingMode)
        requires
            *address_mode != AddressingMode::NoneAddressing,
        ensures
            final(self)@ == execute(old(self)@, Mnemonic::Ror, *address_mode),
    {
        proof {
            reveal(execute);
        }
        let addr = self.calculate_address(address_mode);
        let param = self.bus.mem_read(addr);
        let carry_in = self.carry_bit();
        self.flags.set(CARRY, param & 1 == 1);
        let result = (param >> 1) | (carry_in << 7);
        self.bus.mem_write(addr, result);
        self.update_zero_and_negative_flags(result)
    }

    fn ror_accumulator(&mut self)
        ensures
            final(self)@ == execute(old(self)@, Mnemonic::Ror, AddressingMode::NoneAddressing),
    {
        proof {
            reveal(execute);
        }
        let param = self.register_a;
        let carry_in = self.carry_bit();
        self.flags.set(CARRY, param & 1 == 1);
        self.set_register_a((param >> 1) | (carry_in << 7));
    }

    fn rti(&mut self)
        ensures
            final(self)@ == execute(old(self)@, Mnemonic::Rti, AddressingMode::NoneAddressing),
    {
        proof {
            reveal(execute);
        }
        self.flags = CpuFlags::from_bits_truncate(self.stack_pop());
        self.flags.remove(BREAK);
        self.flags.insert(BREAK2);
        self.program_counter = self.stack_pop_u16();
    }

    fn rts(&mut self)
        ensures
            final(self)@ == execute(old(self)@, Mnemonic::Rts, AddressingMode::NoneAddressing),
    {
        proof {
            reveal(execute);
        }
        self.program_counter = self.stack_pop_u16().wrapping_add(1)
    }

    /// `A - M - (1 - C)`, as `A + !M + C`.
    fn sbc(&mut self, address_mode: &AddressingMode)
        requires
            *address_mode != AddressingMode::NoneAddressing,
        ensures
            final(self)@ == execute(old(self)@, Mnemonic::Sbc, *address_mode),
    {
        proof {
            reveal(execute);
        }
        let data = self.bus.mem_read(self.calculate_address(address_mode));
        self.add_to_register_a(255 - data);
    }

    fn sec(&mut self)
        ensures
            final(self)@ == execute(old(self)@, Mnemonic::Sec, AddressingMode::NoneAddressing),
    {
        proof {
            reveal(execute);
        }
        self.flags.insert(CARRY)
    }

    fn sed(&mut self)
        ensures
            final(self)@ == execute(old(self)@, Mnemonic::Sed, AddressingMode::NoneAddressing),
    {
        proof {
            reveal(execute);
        }
        self.flags.insert(DECIMAL_MODE)
    }

    fn sei(&mut self)
        ensures
            final(self)@ == execute(old(self)@, Mnemonic::Sei, AddressingMode::NoneAddressing),
    {
        proof {
            reveal(execute);
        }
        self.flags.insert(INTERRUPT_DISABLE)
    }

    fn sta(&mut self, address_mode: &AddressingMode)
        requires
            *address_mode != AddressingMode::NoneAddressing,
        ensures
            final(self)@ == execute(old(self)@, Mnemonic::Sta, *address_mode),
    {
        proof {
            reveal(execute);
        }
        let addr = self.calculate_address(address_mode);
        self.bus.mem_write(addr, self.register_a)
    }

    fn stx(&mut self, address_mode: &AddressingMode)
        requires
            *address_mode != AddressingMode::NoneAddressing,
        ensures
            final(self)@ == execute(old(self)@, Mnemonic::Stx, *address_mode),
    {
        proof {
            reveal(execute);
        }
        let addr = self.calculate_address(address_mode);
        self.bus.mem_write(addr, self.register_x)
    }

    fn sty(&mut self, address_mode: &AddressingMode)
        requires
            *address_mode != AddressingMode::NoneAddressing,
        ensures
            final(self)@ == execute(old(self)@, Mnemonic::Sty, *address_mode),
    {
        proof {
            reveal(execute);
        }
        let addr = self.calculate_address(address_mode);
        self.bus.mem_write(addr, self.register_y)
    }

    fn tax(&mut self)
        ensures
            final(self)@ == execute(old(self)@, Mnemonic::Tax, AddressingMode::NoneAddressing),
    {
        proof {
            reveal(execute);
        }
        self.register_x = self.register_a;
        self.update_zero_and_negative_flags(self.register_x)
    }

    fn tay(&mut self)
        ensures
            final(self)@ == execute(old(self)@, Mnemonic::Tay, AddressingMode::NoneAddressing),
    {
        proof {
            reveal(execute);
        }
        self.register_y = self.register_a;
        self.update_zero_and_negative_flags(self.register_y)
    }

    fn tsx(&mut self)
        ensures
            final(self)@ == execute(old(self)@, Mnemonic::Tsx, AddressingMode::NoneAddressing),
    {
        proof {
            reveal(execute);
        }
        self.register_x = self.stack_pointer;
        self.update_zero_and_negative_flags(self.register_x)
    }

    fn txa(&mut self)
        ensures
            final(self)@ == execute(old(self)@, Mnemonic::Txa, AddressingMode::NoneAddressing),
    {
        proof {
            reveal(execute);
        }
        self.set_register_a(self.register_x)
    }

    fn txs(&mut self)
        ensures
            final(self)@ == execute(old(self)@, Mnemonic::Txs, AddressingMode::NoneAddressing),
    {
        proof {
            reveal(execute);
        }
        self.stack_pointer = self.register_x
    }

    fn tya(&mut self)
        ensures
            final(self)@ == execute(old(self)@, Mnemonic::Tya, AddressingMode::NoneAddressing),
    {
        proof {
            reveal(execute);
        }
        self.set_register_a(self.register_y)
    }

    /// Adds `data` and the carry to A, setting C, V, N and Z; decimal mode is ignored.
    fn add_to_register_a(&mut self, data: u8)
        ensures
            final(self)@ == add_with_carry(old(self)@, data),
    {
        let carry_in: u16 = if self.flags.contains(CARRY) {
            1
        } else {
            0
        };
        let sum: u16 = self.register_a as u16 + data as u16 + carry_in;
        self.flags.set(CARRY, sum > 0xff);
        let result = (sum % 256) as u8;
        self.flags.set(OVERFLOW, (data ^ result) & (result ^ self.register_a) & 0x80 != 0);
        self.set_register_a(result);
    }
}

impl Cpu {
    /// Runs the instruction that `opcode` describes, with the program counter at its operand.
    fn execute_instruction(&mut self, opcode: &OpCode)
        requires
            opcode.wf(),
        ensures
            final(self)@ == execute(old(self)@, opcode.mnemonic, opcode.mode),
    {
        match opcode.mnemonic {
            Mnemonic::Adc | Mnemonic::And | Mnemonic::Bit | Mnemonic::Cmp | Mnemonic::Cpx
            | Mnemonic::Cpy | Mnemonic::Dec | Mnemonic::Eor | Mnemonic::Inc | Mnemonic::Lda
            | Mnemonic::Ldx | Mnemonic::Ldy | Mnemonic::Ora | Mnemonic::Sbc | Mnemonic::Sta
            | Mnemonic::Stx | Mnemonic::Sty => self.execute_memory_operand(opcode),
            Mnemonic::Asl | Mnemonic::Lsr | Mnemonic::Rol | Mnemonic::Ror => {
                self.execute_shift(opcode)
            },
            Mnemonic::Bcc | Mnemonic::Bcs | Mnemonic::Beq | Mnemonic::Bmi | Mnemonic::Bne
            | Mnemonic::Bpl | Mnemonic::Bvc | Mnemonic::Bvs | Mnemonic::Jmp | Mnemonic::Jsr
            | Mnemonic::Rti | Mnemonic::Rts => self.execute_control(opcode),
            Mnemonic::Brk | Mnemonic::Clc | Mnemonic::Cld | Mnemonic::Cli | Mnemonic::Clv
            | Mnemonic::Dex | Mnemonic::Dey | Mnemonic::Inx | Mnemonic::Iny | Mnemonic::Nop
            | Mnemonic::Pha | Mnemonic::Php | Mnemonic::Pla | Mnemonic::Plp | Mnemonic::Sec
            | Mnemonic::Sed | Mnemonic::Sei | Mnemonic::Tax | Mnemonic::Tay | Mnemonic::Tsx
            | Mnemonic::Txa | Mnemonic::Txs | Mnemonic::Tya => self.execute_implied(opcode),
        }
    }

    /// Runs an instruction that reads or writes memory at an effective address.
    fn execute_memory_operand(&mut self, opcode: &OpCode)
        requires
            opcode.wf(),
            opcode.mnemonic == Mnemonic::Adc || opcode.mnemonic == Mnemonic::And
                || opcode.mnemonic == Mnemonic::Bit || opcode.mnemonic == Mnemonic::Cmp
                || opcode.mnemonic == Mnemonic::Cpx || opcode.mnemonic == Mnemonic::Cpy
                || opcode.mnemonic == Mnemonic::Dec || opcode.mnemonic == Mnemonic::Eor
                || opcode.mnemonic == Mnemonic::Inc || opcode.mnemonic == Mnemonic::Lda
                || opcode.mnemonic == Mnemonic::Ldx || opcode.mnemonic == Mnemonic::Ldy
                || opcode.mnemonic == Mnemonic::Ora || opcode.mnemonic == Mnemonic::Sbc
                || opcode.mnemonic == Mnemonic::Sta || opcode.mnemonic == Mnemonic::Stx
                || opcode.mnemonic == Mnemonic::Sty,
        ensures
            final(self)@ == execute(old(self)@, opcode.mnemonic, opcode.mode),
    {
        let mode = &opcode.mode;
        match opcode.mnemonic {
            Mnemonic::Adc => self.adc(mode),
            Mnemonic::And => self.and(mode),
            Mnemonic::Bit => self.bit(mode),
            Mnemonic::Cmp => self.cmp(mode),
            Mnemonic::Cpx => self.cpx(mode),
            Mnemonic::Cpy => self.cpy(mode),
            Mnemonic::Dec => self.dec(mode),
            Mnemonic::Eor => self.eor(mode),
            Mnemonic::Inc => self.inc(mode),
            Mnemonic::Lda => self.lda(mode),
            Mnemonic::Ldx => self.ldx(mode),
            Mnemonic::Ldy => self.ldy(mode),
            Mnemonic::Ora => self.ora(mode),
            Mnemonic::Sbc => self.sbc(mode),
            Mnemonic::Sta => self.sta(mode),
            Mnemonic::Stx => self.stx(mode),
            Mnemonic::Sty => self.sty(mode),
            _ => {},
        }
    }

    /// Runs a shift or rotate, on A or on memory.
    fn execute_shift(&mut self, opcode: &OpCode)
        requires
            opcode.wf(),
            opcode.mnemonic == Mnemonic::Asl || opcode.mnemonic == Mnemonic::Lsr
                || opcode.mnemonic == Mnemonic::Rol || opcode.mnemonic == Mnemonic::Ror,
        ensures
            final(self)@ == execute(old(self)@, opcode.mnemonic, opcode.mode),
    {
        let mode = &opcode.mode;
        match opcode.mnemonic {
            Mnemonic::Asl => {
                if opcode.mode == AddressingMode::NoneAddressing {
                    self.asl_accumulator()
                } else {
                    self.asl(mode);
                }
            },
            Mnemonic::Lsr => {
                if opcode.mode == AddressingMode::NoneAddressing {
                    self.lsr_accumulator()
                } else {
                    self.lsr(mode);
                }
            },
            Mnemonic::Rol => {
                if opcode.mode == AddressingMode::NoneAddressing {
                    self.rol_accumulator()
                } else {
                    self.rol(mode);
                }
            },
            Mnemonic::Ror => {
                if opcode.mode == AddressingMode::NoneAddressing {
                    self.ror_accumulator()
                } else {
                    self.ror(mode);
                }
            },
            _ => {},
        }
    }

    /// Runs a branch, jump, call or return.
    fn execute_control(&mut self, opcode: &OpCode)
        requires
            opcode.wf(),
            opcode.mnemonic == Mnemonic::Bcc || opcode.mnemonic == Mnemonic::Bcs
                || opcode.mnemonic == Mnemonic::Beq || opcode.mnemonic == Mnemonic::Bmi
                || opcode.mnemonic == Mnemonic::Bne || opcode.mnemonic == Mnemonic::Bpl
                || opcode.mnemonic == Mnemonic::Bvc || opcode.mnemonic == Mnemonic::Bvs
                || opcode.mnemonic == Mnemonic::Jmp || opcode.mnemonic == Mnemonic::Jsr
                || opcode.mnemonic == Mnemonic::Rti || opcode.mnemonic == Mnemonic::Rts,
        ensures
            final(self)@ == execute(old(self)@, opcode.mnemonic, opcode.mode),
    {
        match opcode.mnemonic {
            Mnemonic::Bcc => self.bcc(),
            Mnemonic::Bcs => self.bcs(),
            Mnemonic::Beq => self.beq(),
            Mnemonic::Bmi => self.bmi(),
            Mnemonic::Bne => self.bne(),
            Mnemonic::Bpl => self.bpl(),
            Mnemonic::Bvc => self.bvc(),
            Mnemonic::Bvs => self.bvs(),
            Mnemonic::Jmp => {
                if opcode.mode == AddressingMode::Absolute {
                    self.jump_absolute()
                } else {
                    self.jump_indirect()
                }
            },
            Mnemonic::Jsr => self.jsr(),
            Mnemonic::Rti => self.rti(),
            Mnemonic::Rts => self.rts(),
            _ => {},
        }
    }

    /// Runs an instruction with no operand: flags, registers, stack and the halt.
    fn execute_implied(&mut self, opcode: &OpCode)
        requires
            opcode.wf(),
            opcode.mnemonic == Mnemonic::Brk || opcode.mnemonic == Mnemonic::Clc
                || opcode.mnemonic == Mnemonic::Cld || opcode.mnemonic == Mnemonic::Cli
                || opcode.mnemonic == Mnemonic::Clv || opcode.mnemonic == Mnemonic::Dex
                || opcode.mnemonic == Mnemonic::Dey || opcode.mnemonic == Mnemonic::Inx
                || opcode.mnemonic == Mnemonic::Iny || opcode.mnemonic == Mnemonic::Nop
                || opcode.mnemonic == Mnemonic::Pha || opcode.mnemonic == Mnemonic::Php
                || opcode.mnemonic == Mnemonic::Pla || opcode.mnemonic == Mnemonic::Plp
                || opcode.mnemonic == Mnemonic::Sec || opcode.mnemonic == Mnemonic::Sed
                || opcode.mnemonic == Mnemonic::Sei || opcode.mnemonic == Mnemonic::Tax
                || opcode.mnemonic == Mnemonic::Tay || opcode.mnemonic == Mnemonic::Tsx
                || opcode.mnemonic == Mnemonic::Txa || opcode.mnemonic == Mnemonic::Txs
                || opcode.mnemonic == Mnemonic::Tya,
        ensures
            final(self)@ == execute(old(self)@, opcode.mnemonic, opcode.mode),
    {
        match opcode.mnemonic {
            Mnemonic::Brk => {
                // ends the run; no effect of its own
                proof {
                    lemma_no_effect(self@, Mnemonic::Brk, opcode.mode);
                }
            },
            Mnemonic::Clc => self.clc(),
            Mnemonic::Cld => self.cld(),
            Mnemonic::Cli => self.cli(),
            Mnemonic::Clv => self.clv(),
            Mnemonic::Dex => self.dex(),
            Mnemonic::Dey => self.dey(),
            Mnemonic::Inx => self.inx(),
            Mnemonic::Iny => self.iny(),
            Mnemonic::Nop => {
                proof {
                    lemma_no_effect(self@, Mnemonic::Nop, opcode.mode);
                }
            },
            Mnemonic::Pha => self.pha(),
            Mnemonic::Php => self.php(),
            Mnemonic::Pla => self.pla(),
            Mnemonic::Plp => self.plp(),
            Mnemonic::Sec => self.sec(),
            Mnemonic::Sed => self.sed(),
            Mnemonic::Sei => self.sei(),
            Mnemonic::Tax => self.tax(),
            Mnemonic::Tay => self.tay(),
            Mnemonic::Tsx => self.tsx(),
            Mnemonic::Txa => self.txa(),
            Mnemonic::Txs => self.txs(),
            Mnemonic::Tya => self.tya(),
            _ => {},
        }
    }

    /// One pass of the main loop: fetch the opcode at the program counter, decode it through the
    /// opcode table, execute it, and step past its operand unless it moved the program counter.
    /// An unrecognized opcode leaves the state as it was.
    pub fn step(&mut self) -> (r: Result<StepOutcome, CpuError>)
        ensures
            match step_spec(old(self)@) {
                Ok((s, outcome)) => r == Ok::<StepOutcome, CpuError>(outcome) && final(self)@ == s,
                Err(e) => r == Err::<StepOutcome, CpuError>(e) && final(self)@ == old(self)@,
            },
    {
        let code = self.bus.mem_read(self.program_counter);
        let opcode = match OpCode::lookup(code) {
            Some(opcode) => opcode,
            None => {
                return Err(CpuError::UnrecognizedOpcode { opcode: code, pc: self.program_counter });
            },
        };
        self.program_counter = self.program_counter.wrapping_add(1);
        let program_counter_state = self.program_counter;
        self.execute_instruction(&opcode);
        if program_counter_state == self.program_counter {
            self.program_counter = self.program_counter.wrapping_add((opcode.len - 1) as u16);
        }
        if opcode.mnemonic == Mnemonic::Brk {
            Ok(StepOutcome::Halted)
        } else {
            Ok(StepOutcome::Continued)
        }
    }
}

impl Cpu {
    /// Copies `program` byte by byte from `base` upward, wrapping at 0xFFFF, and points the
    /// reset vector at `reset_vector`. Registers are left as they are.
    pub fn load_at(&mut self, program: &Vec<u8>, base: u16, reset_vector: u16)
        ensures
            final(self)@ == (CpuState {
                mem: loaded(old(self)@.mem, program@, base, reset_vector),
                ..old(self)@
            }),
    {
        let ghost start = self@;
        let mut i: usize = 0;
        let mut cur_rom_address: u16 = base;
        while i < program.len()
            invariant
                i <= program.len(),
                cur_rom_address == (base + i) % 0x10000,
                self@ == (CpuState {
                    mem: write_bytes(start.mem, base, program@.take(i as int)),
                    ..start
                }),
            decreases program.len() - i,
        {
            self.bus.mem_write(cur_rom_address, program[i]);
            proof {
                assert(program@.take(i + 1).drop_last() =~= program@.take(i as int));
            }
            i = i + 1;
            cur_rom_address = cur_rom_address.wrapping_add(1);
        }
        proof {
            assert(program@.take(i as int) =~= program@);
        }
        self.bus.mem_write_u16(RESET_VECTOR, reset_vector);
    }

    /// Loads `program` at 0x0600 with the reset vector pointing there.
    pub fn load(&mut self, program: &Vec<u8>)
        ensures
            final(self)@ == (CpuState {
                mem: loaded(old(self)@.mem, program@, PROGRAM_START, PROGRAM_START),
                ..old(self)@
            }),
    {
        self.load_at(program, PROGRAM_START, PROGRAM_START)
    }

    /// Runs instructions until a `BRK`, calling `callback` once after each instruction, the
    /// `BRK` included, on the state that instruction left. At an unrecognized opcode it stops
    /// with that error, in the state in which the opcode was fetched, without calling
    /// `callback`. After `u64::MAX` instructions without a `BRK` it gives up.
    ///
    /// Whatever `callback` does, some trace of the states at the start of each pass explains
    /// the outcome: each pass but the last steps on and hands the state it made to `callback`,
    /// which leaves the next state; `Ok` comes only after a step that executed a `BRK` and one
    /// last call of `callback`, which left the final state. For a callback that leaves the
    /// processor as it found it, the outcome is that of `run` from the starting state.
    pub fn run_with_callback<F>(&mut self, callback: F) -> (r: Result<(), CpuError>) where
        F: FnMut(&mut Cpu),

        requires
            forall|c: &mut Cpu| callback.requires((c,)),
        ensures
            step_spec(old(self)@) matches Ok((_, StepOutcome::Halted)) ==> r == Ok::<
                (),
                CpuError,
            >(()),
            step_spec(old(self)@) matches Err(e) ==> r == Err::<(), CpuError>(e) && final(self)@
                == old(self)@,
            r matches Err(CpuError::UnrecognizedOpcode { opcode, pc }) ==> step_spec(final(self)@)
                == Err::<(CpuState, StepOutcome), CpuError>(
                CpuError::UnrecognizedOpcode { opcode, pc },
            ),
            exists|trace: Seq<CpuState>|
                #![trigger trace.last()]
                {
                    &&& trace.len() >= 1
                    &&& trace[0] == old(self)@
                    &&& forall|k: int|
                        #![trigger trace[k]]
                        0 <= k < trace.len() - 1 ==> step_continues(trace[k]) && exists|c: &mut Cpu|
                            #[trigger] callback.ensures((c,), ()) && mut_ref_current(c)@
                                == step_result(trace[k]) && mut_ref_future(c)@ == trace[k + 1]
                    &&& r is Ok ==> step_halts(trace.last()) && exists|c: &mut Cpu|
                        #[trigger] callback.ensures((c,), ()) && mut_ref_current(c)@
                            == step_result(trace.last()) && mut_ref_future(c)@ == final(self)@
                    &&& r is Err ==> final(self)@ == trace.last()
                    &&& r matches Err(CpuError::StepLimitReached) ==> trace.len() == u64::MAX + 1
                },
            r is Ok ==> exists|s: CpuState|
                #[trigger] step_halts(s) && exists|c: &mut Cpu|
                    #[trigger] callback.ensures((c,), ()) && mut_ref_current(c)@ == step_result(s)
                        && mut_ref_future(c)@ == final(self)@,
            (forall|c: &mut Cpu|
                #[trigger] callback.ensures((c,), ()) ==> mut_ref_future(c)@
                    == mut_ref_current(c)@) ==> {
                &&& r is Ok ==> exists|n: nat|
                    run(old(self)@, n) == Ok::<(CpuState, StepOutcome), CpuError>(
                        (final(self)@, StepOutcome::Halted),
                    )
                &&& r matches Err(CpuError::UnrecognizedOpcode { opcode, pc }) ==> exists|n: nat|
                    run(old(self)@, n) == Ok::<(CpuState, StepOutcome), CpuError>(
                        (final(self)@, StepOutcome::Continued),
                    )
                &&& r matches Err(CpuError::StepLimitReached) ==> run(
                    old(self)@,
                    u64::MAX as nat,
                ) == Ok::<(CpuState, StepOutcome), CpuError>(
                    (final(self)@, StepOutcome::Continued),
                )
            },
    {
        // the callback is called through its own binding; `original` ties it to the parameter
        let ghost original = callback;
        let mut call = callback;
        let ghost mut trace: Seq<CpuState> = seq![self@];
        let mut budget: u64 = u64::MAX;
        while budget > 0
            invariant
                call == original,
                callback == original,
                forall|c: &mut Cpu| call.requires((c,)),
                trace.len() >= 1,
                trace.len() + budget == u64::MAX + 1,
                trace[0] == old(self)@,
                trace.last() == self@,
                forall|k: int|
                    #![trigger trace[k]]
                    0 <= k < trace.len() - 1 ==> step_continues(trace[k]) && exists|c: &mut Cpu|
                        #[trigger] call.ensures((c,), ()) && mut_ref_current(c)@
                            == step_result(trace[k]) && mut_ref_future(c)@ == trace[k + 1],
                budget == u64::MAX ==> self@ == old(self)@,
                budget < u64::MAX ==> step_spec(old(self)@) matches Ok(
                    (_, StepOutcome::Continued),
                ),
                (forall|c: &mut Cpu|
                    #[trigger] call.ensures((c,), ()) ==> mut_ref_future(c)@
                        == mut_ref_current(c)@)
                ==> run(old(self)@, (u64::MAX - budget) as nat) == Ok::<
                    (CpuState, StepOutcome),
                    CpuError,
                >((self@, StepOutcome::Continued)),
            decreases budget,
        {
            let ghost before = self@;
            let ghost done = (u64::MAX - budget) as nat;
            match self.step() {
                Err(e) => {
                    assert((forall|c: &mut Cpu|
                        #[trigger] call.ensures((c,), ()) ==> mut_ref_future(c)@
                            == mut_ref_current(c)@) ==> run(old(self)@, done) == Ok::<
                        (CpuState, StepOutcome),
                        CpuError,
                    >((self@, StepOutcome::Continued)));
                    return Err(e);
                },
                Ok(outcome) => {
                    let ghost stepped = self@;
                    call(self);
                    assert(exists|c: &mut Cpu|
                        #[trigger] call.ensures((c,), ()) && mut_ref_current(c)@ == stepped
                            && mut_ref_future(c)@ == self@);
                    assert((forall|c: &mut Cpu|
                        #[trigger] call.ensures((c,), ()) ==> mut_ref_future(c)@
                            == mut_ref_current(c)@) ==> self@ == stepped);
                    assert((forall|c: &mut Cpu|
                        #[trigger] call.ensures((c,), ()) ==> mut_ref_future(c)@
                            == mut_ref_current(c)@)
                    ==> run(old(self)@, done + 1) == step_spec(before));
                    if outcome == StepOutcome::Halted {
                        assert(step_halts(before) && step_result(before) == stepped);
                        assert((forall|c: &mut Cpu|
                        #[trigger] call.ensures((c,), ()) ==> mut_ref_future(c)@
                            == mut_ref_current(c)@) ==> run(old(self)@, done + 1) == Ok::<
                            (CpuState, StepOutcome),
                            CpuError,
                        >((self@, StepOutcome::Halted)));
                        return Ok(());
                    }
                    proof {
                        let next = trace.push(self@);
                        assert forall|k: int|
                            #![trigger next[k]]
                            0 <= k < next.len() - 1 implies step_continues(next[k]) && exists|
                                c: &mut Cpu,
                            |
                                #[trigger] call.ensures((c,), ()) && mut_ref_current(c)@
                                    == step_result(next[k]) && mut_ref_future(c)@
                                    == next[k + 1] by {
                            if k < trace.len() - 1 {
                                assert(next[k] == trace[k] && next[k + 1] == trace[k + 1]);
                            } else {
                                assert(next[k] == before && next[k + 1] == self@);
                                assert(step_result(before) == stepped);
                            }
                        }
                        trace = next;
                    }
                },
            }
            budget = budget - 1;
        }
        Err(CpuError::StepLimitReached)
    }

    /// Loads `program` at 0x0600, jumps through the reset vector and runs until a `BRK`.
    /// Registers other than the program counter keep the values they had.
    pub fn load_and_run(&mut self, program: &Vec<u8>) -> (r: Result<(), CpuError>)
        ensures
            ({
                let mem = loaded(old(self)@.mem, program@, PROGRAM_START, PROGRAM_START);
                let start = CpuState { pc: read16(mem, RESET_VECTOR), mem, ..old(self)@ };
                &&& r is Ok ==> exists|n: nat|
                    run(start, n) == Ok::<(CpuState, StepOutcome), CpuError>(
                        (final(self)@, StepOutcome::Halted),
                    )
                &&& r matches Err(CpuError::StepLimitReached) ==> run(start, u64::MAX as nat)
                    == Ok::<(CpuState, StepOutcome), CpuError>(
                    (final(self)@, StepOutcome::Continued),
                )
                &&& r matches Err(CpuError::UnrecognizedOpcode { opcode, pc }) ==> exists|n: nat|
                    run(start, n) == Ok::<(CpuState, StepOutcome), CpuError>(
                        (final(self)@, StepOutcome::Continued),
                    ) && step_spec(final(self)@) == Err::<(CpuState, StepOutcome), CpuError>(
                        CpuError::UnrecognizedOpcode { opcode, pc },
                    )
            }),
    {
        self.load(program);
        self.program_counter = self.bus.mem_read_u16(RESET_VECTOR);
        let ghost start = self@;
        let ghost mut n: nat = 0;
        let mut budget: u64 = u64::MAX;
        while budget > 0
            invariant
                start == (CpuState {
                    pc: read16(
                        loaded(old(self)@.mem, program@, PROGRAM_START, PROGRAM_START),
                        RESET_VECTOR,
                    ),
                    mem: loaded(old(self)@.mem, program@, PROGRAM_START, PROGRAM_START),
                    ..old(self)@
                }),
                run(start, n) == Ok::<(CpuState, StepOutcome), CpuError>(
                    (self@, StepOutcome::Continued),
                ),
                n + budget == u64::MAX,
            decreases budget,
        {
            let outcome = self.step();
            proof {
                n = n + 1;
            }
            match outcome {
                Err(e) => {
                    proof {
                        n = (n - 1) as nat;
                    }
                    return Err(e);
                },
                Ok(StepOutcome::Halted) => {
                    assert(run(start, n) == Ok::<(CpuState, StepOutcome), CpuError>(
                        (self@, StepOutcome::Halted),
                    ));
                    return Ok(());
                },
                Ok(StepOutcome::Continued) => {},
            }
            budget = budget - 1;
        }
        Err(CpuError::StepLimitReached)
    }
}

} // verus!
