//! The execution engine: registers, status, stack pointer and the 64 KiB
//! memory, with the fetch-decode-execute loop and the per-opcode state
//! transitions.

use crate::op_codes::Mnemonic;
use crate::op_codes::OpCode;
use crate::op_codes::opcode_lookup;
use crate::processor::Processor;
use crate::processor::carry_bit;
use crate::processor::negative_bit;
use crate::processor::overflow_bit;
use crate::processor::update_zn;
use crate::processor::zero_bit;
use crate::semantics::CpuState;
use crate::semantics::Step;
use crate::semantics::faults_to;
use crate::semantics::halts_to;
use crate::semantics::mem16_at;
use crate::semantics::mem_at;
use crate::semantics::runs_to;
use crate::semantics::spec_adc;
use crate::semantics::spec_add_with_carry;
use crate::semantics::spec_advance;
use crate::semantics::spec_and;
use crate::semantics::spec_asl;
use crate::semantics::spec_asl_result;
use crate::semantics::spec_bit;
use crate::semantics::spec_branch;
use crate::semantics::spec_compare;
use crate::semantics::spec_dec;
use crate::semantics::spec_dex;
use crate::semantics::spec_dey;
use crate::semantics::spec_eor;
use crate::semantics::spec_inc;
use crate::semantics::spec_inx;
use crate::semantics::spec_iny;
use crate::semantics::spec_jmp;
use crate::semantics::spec_jsr;
use crate::semantics::spec_lda;
use crate::semantics::spec_ldx;
use crate::semantics::spec_ldy;
use crate::semantics::spec_load;
use crate::semantics::spec_lsr;
use crate::semantics::spec_lsr_result;
use crate::semantics::spec_operand_address;
use crate::semantics::spec_ora;
use crate::semantics::spec_pha;
use crate::semantics::spec_php;
use crate::semantics::spec_pla;
use crate::semantics::spec_plp;
use crate::semantics::spec_pop16;
use crate::semantics::spec_pop;
use crate::semantics::spec_push16;
use crate::semantics::spec_push;
use crate::semantics::spec_reset;
use crate::semantics::spec_rol;
use crate::semantics::spec_rol_result;
use crate::semantics::spec_ror;
use crate::semantics::spec_ror_result;
use crate::semantics::spec_rti;
use crate::semantics::spec_rts;
use crate::semantics::spec_sbc;
use crate::semantics::spec_sta;
use crate::semantics::spec_step;
use crate::semantics::spec_stx;
use crate::semantics::spec_sty;
use crate::semantics::spec_tax;
use crate::semantics::spec_tay;
use crate::semantics::spec_tsx;
use crate::semantics::spec_txa;
use crate::semantics::spec_txs;
use crate::semantics::spec_tya;
use crate::semantics::with_carry;
use crate::semantics::with_mem16;
use crate::semantics::with_mem;
use crate::stack::Stack;
use vstd::prelude::*;


verus! {

/// The highest address of the fixed stack page.
pub const STACK_BOTTOM: u16 = 0x01FF;

/// The lowest address of the fixed stack page.
pub const STACK_TOP: u16 = 0x0100;

/// Where the stack pointer stands on reset: the top of the page.
pub const STACK_RESET: u8 = 0xFF;

/// The rule by which an instruction's operand address is computed from
/// the bytes after the opcode and the index registers. `NoneAddressing`
/// covers implied-operand and accumulator-addressed instructions, which
/// never go through the generic address resolver.
#[allow(non_camel_case_types)]
#[derive(Debug, Clone, Copy, PartialEq, Eq, Structural)]
pub enum AddressingMode {
    Immediate,
    ZeroPage,
    ZeroPage_X,
    ZeroPage_Y,
    Absolute,
    Absolute_X,
    Absolute_Y,
    Indirect,
    Indirect_X,
    Indirect_Y,
    NoneAddressing,
}

/// A fatal condition that ends a run. Emulation is deterministic and
/// order-sensitive, so none of these is retryable.
#[derive(Debug, Clone, Copy, PartialEq, Eq, Structural)]
pub enum RunError {
    /// The byte fetched at `address` is not in the opcode table, so the
    /// instruction's length and semantics cannot be determined.
    UnknownOpcode { code: u8, address: u16 },
    /// An instruction asked the generic resolver for an operand address
    /// while decoded with `NoneAddressing`: an internal table/dispatch
    /// inconsistency. `address` is the program counter at the operand.
    UnresolvedMode { mode: AddressingMode, address: u16 },
    /// The run executed the full instruction budget of `run` without
    /// reaching `BRK` or a fault.
    StepLimit,
}

/// What one call of `step` did: executed an ordinary instruction,
/// halted at `BRK`, or stopped at a fatal fault.
#[derive(Debug, Clone, Copy, PartialEq, Eq, Structural)]
pub enum StepOutcome {
    Ran,
    Halted,
    Faulted(RunError),
}

/// The instruction budget of one `run`: practically unbounded, but it
/// makes every run finite.
pub const RUN_STEP_LIMIT: u64 = 0xFFFF_FFFF_FFFF_FFFF;

/// The CPU: the three 8-bit registers, the packed status register, the
/// 16-bit program counter, the stack pointer and the flat 64 KiB
/// memory, owned exclusively for the machine's lifetime.
#[derive(Debug)]
pub struct CPU {
    pub register_a: u8,
    pub register_x: u8,
    pub register_y: u8,
    pub status: Processor,
    pub program_counter: u16,
    pub stack: Stack,
    pub memory: Vec<u8>,
}

impl View for CPU {
    type V = CpuState;

    open spec fn view(&self) -> CpuState {
        CpuState {
            a: self.register_a,
            x: self.register_x,
            y: self.register_y,
            pc: self.program_counter,
            sp: self.stack._ptr,
            flags: self.status.flags,
            mem: self.memory@,
        }
    }
}

/// The fixed bounds of the stack page never change; they are carried in
/// the `Stack` value but are not part of the abstract machine state.
pub open spec fn keeps_stack_page(pre: &CPU, post: &CPU) -> bool {
    post.stack.bottom == pre.stack.bottom && post.stack.top == pre.stack.top
}

impl CPU {
    /// The memory vector covers the full 16-bit address space.
    pub open spec fn wf(&self) -> bool {
        self.memory@.len() == 0x10000
    }

    /// A CPU with zeroed registers and memory, default status, the
    /// stack pointer at the top of the stack page, and the program
    /// counter at 0.
    pub fn new() -> (r: Self)
        ensures
            r.wf(),
            r@.a == 0 && r@.x == 0 && r@.y == 0 && r@.pc == 0,
            r@.sp == 0xFF,
            r@.flags == 0b0011_0000u8,
            forall|i: int| 0 <= i < 0x10000 ==> r@.mem[i] == 0u8,
            r.stack.bottom == STACK_BOTTOM && r.stack.top == STACK_TOP,
    {
        let status = Processor::new();
        let stack = Stack::new(STACK_BOTTOM, STACK_TOP);
        proof {
            assert((0x01FFu16) as u8 == 0xFFu8) by (bit_vector);
        }
        let mut memory: Vec<u8> = Vec::new();
        let mut i: usize = 0;
        while i < 0x10000
            invariant
                i <= 0x10000,
                memory@.len() == i,
                forall|j: int| 0 <= j < i ==> memory@[j] == 0u8,
            decreases 0x10000 - i,
        {
            memory.push(0);
            i += 1;
        }
        CPU {
            register_a: 0,
            register_x: 0,
            register_y: 0,
            status,
            program_counter: 0,
            stack,
            memory,
        }
    }

    /// Reads the byte at `addr`.
    pub fn mem_read(&self, addr: u16) -> (r: u8)
        requires
            self.wf(),
        ensures
            r == mem_at(self@, addr),
    {
        return self.memory[addr as usize];
    }

    /// Writes `data` at `addr`.
    pub fn mem_write(&mut self, addr: u16, data: u8)
        requires
            old(self).wf(),
        ensures
            final(self).wf(),
            keeps_stack_page(old(self), final(self)),
            final(self)@ == with_mem(old(self)@, addr, data),
    {
        self.memory[addr as usize] = data;
    }

    /// Reads the little-endian 16-bit value at `pos`: low byte at
    /// `pos`, high byte at `pos + 1` (wrapping across the end of the
    /// address space).
    pub fn mem_read_u16(&self, pos: u16) -> (r: u16)
        requires
            self.wf(),
        ensures
            r == mem16_at(self@, pos),
    {
        let lo = self.mem_read(pos) as u16;
        let hi = self.mem_read(pos.wrapping_add(1)) as u16;
        return (hi << 8) | lo;
    }

    /// Writes the little-endian 16-bit value at `pos`: low byte at
    /// `pos`, high byte at `pos + 1` (wrapping).
    pub fn mem_write_u16(&mut self, pos: u16, data: u16)
        requires
            old(self).wf(),
        ensures
            final(self).wf(),
            keeps_stack_page(old(self), final(self)),
            final(self)@ == with_mem16(old(self)@, pos, data),
    {
        let hi = (data >> 8) as u8;
        let lo = (data & 0x00FF) as u8;
        self.mem_write(pos, lo);
        self.mem_write(pos.wrapping_add(1), hi);
    }

    /// Copies a program image into memory at `0x8000` and points the
    /// reset vector at `0x8000`. The caller pre-validates the length:
    /// a longer image would run past the end of the address space.
    pub fn load(&mut self, program: Vec<u8>)
        requires
            old(self).wf(),
            program@.len() <= 0x7FFF,
        ensures
            final(self).wf(),
            keeps_stack_page(old(self), final(self)),
            final(self)@ == spec_load(old(self)@, program@),
    {
        let mut i: usize = 0;
        while i < program.len()
            invariant
                self.wf(),
                i <= program@.len(),
                program@.len() <= 0x7FFF,
                keeps_stack_page(old(self), self),
                self@.a == old(self)@.a,
                self@.x == old(self)@.x,
                self@.y == old(self)@.y,
                self@.pc == old(self)@.pc,
                self@.sp == old(self)@.sp,
                self@.flags == old(self)@.flags,
                forall|j: int| 0 <= j < i ==> self@.mem[0x8000 + j] == program@[j],
                forall|j: int|
                    0 <= j < 0x10000 && !(0x8000 <= j < 0x8000 + i) ==> self@.mem[j] == old(
                        self,
                    )@.mem[j],
            decreases program@.len() - i,
        {
            let addr: u16 = 0x8000 + (i as u16);
            let byte = program[i];
            self.mem_write(addr, byte);
            i += 1;
        }
        self.mem_write_u16(0xFFFC, 0x8000);
        proof {
            assert((0x8000u16 & 0x00FF) as u8 == 0x00u8) by (bit_vector);
            assert((0x8000u16 >> 8) as u8 == 0x80u8) by (bit_vector);
            assert(self@.mem =~= spec_load(old(self)@, program@).mem);
            assert(self@ =~= spec_load(old(self)@, program@));
        }
    }

    /// Zeroes the registers, restores the default status byte, puts
    /// the stack pointer back at the top of the page and loads the
    /// program counter from the reset vector at `0xFFFC`.
    pub fn reset(&mut self)
        requires
            old(self).wf(),
        ensures
            final(self).wf(),
            keeps_stack_page(old(self), final(self)),
            final(self)@ == spec_reset(old(self)@),
    {
        self.register_a = 0;
        self.register_x = 0;
        self.register_y = 0;
        self.status = Processor::new();
        self.stack.set_ptr(STACK_RESET);

        self.program_counter = self.mem_read_u16(0xFFFC);
    }

    /// Moves the program counter past the operand bytes the current
    /// instruction consumed: its encoded length minus the opcode byte.
    fn advance_program_counter(&mut self, op_code_len: u8)
        requires
            old(self).wf(),
        ensures
            final(self).wf(),
            keeps_stack_page(old(self), final(self)),
            final(self)@ == spec_advance(old(self)@, op_code_len),
    {
        self.program_counter = self.program_counter.wrapping_add(
            op_code_len.wrapping_sub(1) as u16,
        );
    }

    /// Pushes one byte: writes it at `0x0100 + ptr`, then steps the
    /// pointer down (wrapping inside the page).
    pub fn stack_push(&mut self, data: u8)
        requires
            old(self).wf(),
        ensures
            final(self).wf(),
            keeps_stack_page(old(self), final(self)),
            final(self)@ == spec_push(old(self)@, data),
    {
        let addr: u16 = 0x0100 + self.stack.ptr();
        self.mem_write(addr, data);
        self.stack.incr_ptr();
    }

    /// Pops one byte: steps the pointer up (wrapping inside the page),
    /// then reads the byte at `0x0100 + ptr`.
    pub fn stack_pop(&mut self) -> (r: u8)
        requires
            old(self).wf(),
        ensures
            final(self).wf(),
            keeps_stack_page(old(self), final(self)),
            final(self)@ == spec_pop(old(self)@).0,
            r == spec_pop(old(self)@).1,
    {
        self.stack.decr_ptr();
        let addr: u16 = 0x0100 + self.stack.ptr();
        return self.mem_read(addr);
    }

    /// Pushes a 16-bit value, high byte first, so that popping
    /// reconstructs it.
    pub fn stack_push_u16(&mut self, data: u16)
        requires
            old(self).wf(),
        ensures
            final(self).wf(),
            keeps_stack_page(old(self), final(self)),
            final(self)@ == spec_push16(old(self)@, data),
    {
        self.stack_push((data >> 8) as u8);
        self.stack_push((data & 0x00FF) as u8);
    }

    /// Pops a 16-bit value: low byte first, then high byte.
    pub fn stack_pop_u16(&mut self) -> (r: u16)
        requires
            old(self).wf(),
        ensures
            final(self).wf(),
            keeps_stack_page(old(self), final(self)),
            final(self)@ == spec_pop16(old(self)@).0,
            r == spec_pop16(old(self)@).1,
    {
        let lo = self.stack_pop() as u16;
        let hi = self.stack_pop() as u16;
        return hi << 8 | lo;
    }

    /// Updates Zero and Negative from `result`: Zero is set iff the
    /// result is 0, Negative iff its bit 7 is 1.
    pub fn update_zero_and_negative_flags(&mut self, result: u8)
        requires
            old(self).wf(),
        ensures
            final(self).wf(),
            keeps_stack_page(old(self), final(self)),
            final(self)@ == (CpuState { flags: update_zn(old(self)@.flags, result), ..old(self)@ }),
    {
        if result == 0 {
            self.status.set_zero();
        } else {
            self.status.clear_zero();
        }

        if result & 0b1000_0000 != 0 {
            self.status.set_negative();
        } else {
            self.status.clear_negative();
        }
    }

    /// Resolves the effective address of the current instruction's
    /// operand for `mode`, reading relative to the program counter,
    /// which sits at the first operand byte and is not advanced here.
    /// `Indirect` reproduces the page-boundary hardware bug;
    /// `NoneAddressing` is not resolvable and reports the fault.
    pub fn get_operand_address(&self, mode: &AddressingMode) -> (r: Result<u16, RunError>)
        requires
            self.wf(),
        ensures
            r == spec_operand_address(self@, *mode),
    {
        match mode {
            AddressingMode::Immediate => Ok(self.program_counter),
            AddressingMode::ZeroPage => Ok(self.mem_read(self.program_counter) as u16),
            AddressingMode::ZeroPage_X => {
                let pos = self.mem_read(self.program_counter);
                let addr = pos.wrapping_add(self.register_x) as u16;
                return Ok(addr);
            },
            AddressingMode::ZeroPage_Y => {
                let pos = self.mem_read(self.program_counter);
                let addr = pos.wrapping_add(self.register_y) as u16;
                return Ok(addr);
            },
            AddressingMode::Absolute => Ok(self.mem_read_u16(self.program_counter)),
            AddressingMode::Absolute_X => {
                let pos = self.mem_read_u16(self.program_counter);
                let addr = pos.wrapping_add(self.register_x as u16);
                return Ok(addr);
            },
            AddressingMode::Absolute_Y => {
                let pos = self.mem_read_u16(self.program_counter);
                let addr = pos.wrapping_add(self.register_y as u16);
                return Ok(addr);
            },
            AddressingMode::Indirect => {
                let ptr = self.mem_read_u16(self.program_counter);
                if ptr & 0x00FF == 0x00FF {
                    let lo = self.mem_read(ptr);
                    let hi = self.mem_read(ptr & 0xFF00);
                    return Ok((hi as u16) << 8 | lo as u16);
                } else {
                    return Ok(self.mem_read_u16(ptr));
                }
            },
            AddressingMode::Indirect_X => {
                let base = self.mem_read(self.program_counter);

                let ptr: u8 = base.wrapping_add(self.register_x);
                let lo = self.mem_read(ptr as u16);
                let hi = self.mem_read(ptr.wrapping_add(1) as u16);
                return Ok((hi as u16) << 8 | lo as u16);
            },
            AddressingMode::Indirect_Y => {
                let base = self.mem_read(self.program_counter);

                let lo = self.mem_read(base as u16);
                let hi = self.mem_read(base.wrapping_add(1) as u16);
                let deref_base = (hi as u16) << 8 | lo as u16;
                let deref = deref_base.wrapping_add(self.register_y as u16);
                return Ok(deref);
            },
            AddressingMode::NoneAddressing => Err(
                RunError::UnresolvedMode { mode: *mode, address: self.program_counter },
            ),
        }
    }

    /// `LDA`: load the operand into the register and update Zero/Negative.
    pub fn lda(&mut self, op_code: &OpCode) -> (r: Result<(), RunError>)
        requires
            old(self).wf(),
        ensures
            final(self).wf(),
            keeps_stack_page(old(self), final(self)),
            match spec_lda(old(self)@, op_code.mode) {
                Ok(s2) => r == Ok::<(), RunError>(()) && final(self)@ == s2,
                Err(e) => r == Err::<(), RunError>(e) && final(self)@ == old(self)@,
            },
    {
        let addr = match self.get_operand_address(&op_code.mode) {
            Ok(addr) => addr,
            Err(e) => {
                return Err(e);
            },
        };
        let data = self.mem_read(addr);

        self.register_a = data;
        self.update_zero_and_negative_flags(self.register_a);
        return Ok(());
    }

    /// `LDX`: load the operand into the register and update Zero/Negative.
    pub fn ldx(&mut self, op_code: &OpCode) -> (r: Result<(), RunError>)
        requires
            old(self).wf(),
        ensures
            final(self).wf(),
            keeps_stack_page(old(self), final(self)),
            match spec_ldx(old(self)@, op_code.mode) {
                Ok(s2) => r == Ok::<(), RunError>(()) && final(self)@ == s2,
                Err(e) => r == Err::<(), RunError>(e) && final(self)@ == old(self)@,
            },
    {
        let addr = match self.get_operand_address(&op_code.mode) {
            Ok(addr) => addr,
            Err(e) => {
                return Err(e);
            },
        };
        let data = self.mem_read(addr);

        self.register_x = data;
        self.update_zero_and_negative_flags(self.register_x);
        return Ok(());
    }

    /// `LDY`: load the operand into the register and update Zero/Negative.
    pub fn ldy(&mut self, op_code: &OpCode) -> (r: Result<(), RunError>)
        requires
            old(self).wf(),
        ensures
            final(self).wf(),
            keeps_stack_page(old(self), final(self)),
            match spec_ldy(old(self)@, op_code.mode) {
                Ok(s2) => r == Ok::<(), RunError>(()) && final(self)@ == s2,
                Err(e) => r == Err::<(), RunError>(e) && final(self)@ == old(self)@,
            },
    {
        let addr = match self.get_operand_address(&op_code.mode) {
            Ok(addr) => addr,
            Err(e) => {
                return Err(e);
            },
        };
        let data = self.mem_read(addr);

        self.register_y = data;
        self.update_zero_and_negative_flags(self.register_y);
        return Ok(());
    }

    /// `STA`: store the register at the operand address; no flag effect.
    pub fn sta(&mut self, op_code: &OpCode) -> (r: Result<(), RunError>)
        requires
            old(self).wf(),
        ensures
            final(self).wf(),
            keeps_stack_page(old(self), final(self)),
            match spec_sta(old(self)@, op_code.mode) {
                Ok(s2) => r == Ok::<(), RunError>(()) && final(self)@ == s2,
                Err(e) => r == Err::<(), RunError>(e) && final(self)@ == old(self)@,
            },
    {
        let addr = match self.get_operand_address(&op_code.mode) {
            Ok(addr) => addr,
            Err(e) => {
                return Err(e);
            },
        };
        self.mem_write(addr, self.register_a);
        return Ok(());
    }

    /// `STX`: store the register at the operand address; no flag effect.
    pub fn stx(&mut self, op_code: &OpCode) -> (r: Result<(), RunError>)
        requires
            old(self).wf(),
        ensures
            final(self).wf(),
            keeps_stack_page(old(self), final(self)),
            match spec_stx(old(self)@, op_code.mode) {
                Ok(s2) => r == Ok::<(), RunError>(()) && final(self)@ == s2,
                Err(e) => r == Err::<(), RunError>(e) && final(self)@ == old(self)@,
            },
    {
        let addr = match self.get_operand_address(&op_code.mode) {
            Ok(addr) => addr,
            Err(e) => {
                return Err(e);
            },
        };
        self.mem_write(addr, self.register_x);
        return Ok(());
    }

    /// `STY`: store the register at the operand address; no flag effect.
    pub fn sty(&mut self, op_code: &OpCode) -> (r: Result<(), RunError>)
        requires
            old(self).wf(),
        ensures
            final(self).wf(),
            keeps_stack_page(old(self), final(self)),
            match spec_sty(old(self)@, op_code.mode) {
                Ok(s2) => r == Ok::<(), RunError>(()) && final(self)@ == s2,
                Err(e) => r == Err::<(), RunError>(e) && final(self)@ == old(self)@,
            },
    {
        let addr = match self.get_operand_address(&op_code.mode) {
            Ok(addr) => addr,
            Err(e) => {
                return Err(e);
            },
        };
        self.mem_write(addr, self.register_y);
        return Ok(());
    }

    /// `AND`: bitwise combine the operand into the accumulator and update Zero/Negative.
    pub fn and(&mut self, op_code: &OpCode) -> (r: Result<(), RunError>)
        requires
            old(self).wf(),
        ensures
            final(self).wf(),
            keeps_stack_page(old(self), final(self)),
            match spec_and(old(self)@, op_code.mode) {
                Ok(s2) => r == Ok::<(), RunError>(()) && final(self)@ == s2,
                Err(e) => r == Err::<(), RunError>(e) && final(self)@ == old(self)@,
            },
    {
        let addr = match self.get_operand_address(&op_code.mode) {
            Ok(addr) => addr,
            Err(e) => {
                return Err(e);
            },
        };
        let data = self.mem_read(addr);
        self.register_a = self.register_a & data;
        self.update_zero_and_negative_flags(self.register_a);
        return Ok(());
    }

    /// `ORA`: bitwise combine the operand into the accumulator and update Zero/Negative.
    pub fn ora(&mut self, op_code: &OpCode) -> (r: Result<(), RunError>)
        requires
            old(self).wf(),
        ensures
            final(self).wf(),
            keeps_stack_page(old(self), final(self)),
            match spec_ora(old(self)@, op_code.mode) {
                Ok(s2) => r == Ok::<(), RunError>(()) && final(self)@ == s2,
                Err(e) => r == Err::<(), RunError>(e) && final(self)@ == old(self)@,
            },
    {
        let addr = match self.get_operand_address(&op_code.mode) {
            Ok(addr) => addr,
            Err(e) => {
                return Err(e);
            },
        };
        let data = self.mem_read(addr);
        self.register_a = self.register_a | data;
        self.update_zero_and_negative_flags(self.register_a);
        return Ok(());
    }

    /// `EOR`: bitwise combine the operand into the accumulator and update Zero/Negative.
    pub fn eor(&mut self, op_code: &OpCode) -> (r: Result<(), RunError>)
        requires
            old(self).wf(),
        ensures
            final(self).wf(),
            keeps_stack_page(old(self), final(self)),
            match spec_eor(old(self)@, op_code.mode) {
                Ok(s2) => r == Ok::<(), RunError>(()) && final(self)@ == s2,
                Err(e) => r == Err::<(), RunError>(e) && final(self)@ == old(self)@,
            },
    {
        let addr = match self.get_operand_address(&op_code.mode) {
            Ok(addr) => addr,
            Err(e) => {
                return Err(e);
            },
        };
        let data = self.mem_read(addr);
        self.register_a = self.register_a ^ data;
        self.update_zero_and_negative_flags(self.register_a);
        return Ok(());
    }

    /// The shared ADC/SBC carry chain: adds `value` and the carry-in
    /// into the accumulator, setting Carry, Overflow, Zero and
    /// Negative exactly as the hardware does.
    fn add_with_carry(&mut self, value: u8)
        requires
            old(self).wf(),
        ensures
            final(self).wf(),
            keeps_stack_page(old(self), final(self)),
            final(self)@ == spec_add_with_carry(old(self)@, value),
    {
        let carry = self.status.carry();
        let sum: u16 = self.register_a as u16 + value as u16 + carry as u16;
        proof {
            assert(sum & 0x00FF < 0x100) by (bit_vector);
        }
        let result = (sum & 0x00FF) as u8;

        if sum > 0x00FF {
            self.status.set_carry();
        } else {
            self.status.clear_carry();
        }

        if (self.register_a ^ result) & (value ^ result) & 0x80 != 0 {
            self.status.set_overflow();
        } else {
            self.status.clear_overflow();
        }

        self.register_a = result;
        self.update_zero_and_negative_flags(result);
    }

    /// `ADC`: add the operand to the accumulator with carry-in and carry-out.
    pub fn adc(&mut self, op_code: &OpCode) -> (r: Result<(), RunError>)
        requires
            old(self).wf(),
        ensures
            final(self).wf(),
            keeps_stack_page(old(self), final(self)),
            match spec_adc(old(self)@, op_code.mode) {
                Ok(s2) => r == Ok::<(), RunError>(()) && final(self)@ == s2,
                Err(e) => r == Err::<(), RunError>(e) && final(self)@ == old(self)@,
            },
    {
        let addr = match self.get_operand_address(&op_code.mode) {
            Ok(addr) => addr,
            Err(e) => {
                return Err(e);
            },
        };
        let data = self.mem_read(addr);
        self.add_with_carry(data);
        return Ok(());
    }

    /// `SBC`: subtract the operand from the accumulator with borrow: the same carry chain run on the operand's one's complement.
    pub fn sbc(&mut self, op_code: &OpCode) -> (r: Result<(), RunError>)
        requires
            old(self).wf(),
        ensures
            final(self).wf(),
            keeps_stack_page(old(self), final(self)),
            match spec_sbc(old(self)@, op_code.mode) {
                Ok(s2) => r == Ok::<(), RunError>(()) && final(self)@ == s2,
                Err(e) => r == Err::<(), RunError>(e) && final(self)@ == old(self)@,
            },
    {
        let addr = match self.get_operand_address(&op_code.mode) {
            Ok(addr) => addr,
            Err(e) => {
                return Err(e);
            },
        };
        let data = self.mem_read(addr);
        self.add_with_carry(data ^ 0xFF);
        return Ok(());
    }

    /// `BIT`: test the operand against the accumulator: Zero from `A & operand`, Negative and Overflow copied from bits 7 and 6 of the operand.
    pub fn bit(&mut self, op_code: &OpCode) -> (r: Result<(), RunError>)
        requires
            old(self).wf(),
        ensures
            final(self).wf(),
            keeps_stack_page(old(self), final(self)),
            match spec_bit(old(self)@, op_code.mode) {
                Ok(s2) => r == Ok::<(), RunError>(()) && final(self)@ == s2,
                Err(e) => r == Err::<(), RunError>(e) && final(self)@ == old(self)@,
            },
    {
        let addr = match self.get_operand_address(&op_code.mode) {
            Ok(addr) => addr,
            Err(e) => {
                return Err(e);
            },
        };
        let data = self.mem_read(addr);

        if self.register_a & data == 0 {
            self.status.set_zero();
        } else {
            self.status.clear_zero();
        }

        if data & 0b1000_0000 != 0 {
            self.status.set_negative();
        } else {
            self.status.clear_negative();
        }

        if data & 0b0100_0000 != 0 {
            self.status.set_overflow();
        } else {
            self.status.clear_overflow();
        }
        return Ok(());
    }

    /// `CMP`: compare the register with the operand: Carry iff register >= operand, Zero iff equal, Negative from bit 7 of the wrapped difference.
    pub fn cmp(&mut self, op_code: &OpCode) -> (r: Result<(), RunError>)
        requires
            old(self).wf(),
        ensures
            final(self).wf(),
            keeps_stack_page(old(self), final(self)),
            match spec_compare(old(self)@, op_code.mode, old(self)@.a) {
                Ok(s2) => r == Ok::<(), RunError>(()) && final(self)@ == s2,
                Err(e) => r == Err::<(), RunError>(e) && final(self)@ == old(self)@,
            },
    {
        let addr = match self.get_operand_address(&op_code.mode) {
            Ok(addr) => addr,
            Err(e) => {
                return Err(e);
            },
        };
        let data = self.mem_read(addr);
        let register_data = self.register_a;

        if register_data >= data {
            self.status.set_carry();
        } else {
            self.status.clear_carry();
        }

        let diff = register_data.wrapping_sub(data);
        self.update_zero_and_negative_flags(diff);
        return Ok(());
    }

    /// `CPX`: compare the register with the operand: Carry iff register >= operand, Zero iff equal, Negative from bit 7 of the wrapped difference.
    pub fn cpx(&mut self, op_code: &OpCode) -> (r: Result<(), RunError>)
        requires
            old(self).wf(),
        ensures
            final(self).wf(),
            keeps_stack_page(old(self), final(self)),
            match spec_compare(old(self)@, op_code.mode, old(self)@.x) {
                Ok(s2) => r == Ok::<(), RunError>(()) && final(self)@ == s2,
                Err(e) => r == Err::<(), RunError>(e) && final(self)@ == old(self)@,
            },
    {
        let addr = match self.get_operand_address(&op_code.mode) {
            Ok(addr) => addr,
            Err(e) => {
                return Err(e);
            },
        };
        let data = self.mem_read(addr);
        let register_data = self.register_x;

        if register_data >= data {
            self.status.set_carry();
        } else {
            self.status.clear_carry();
        }

        let diff = register_data.wrapping_sub(data);
        self.update_zero_and_negative_flags(diff);
        return Ok(());
    }

    /// `CPY`: compare the register with the operand: Carry iff register >= operand, Zero iff equal, Negative from bit 7 of the wrapped difference.
    pub fn cpy(&mut self, op_code: &OpCode) -> (r: Result<(), RunError>)
        requires
            old(self).wf(),
        ensures
            final(self).wf(),
            keeps_stack_page(old(self), final(self)),
            match spec_compare(old(self)@, op_code.mode, old(self)@.y) {
                Ok(s2) => r == Ok::<(), RunError>(()) && final(self)@ == s2,
                Err(e) => r == Err::<(), RunError>(e) && final(self)@ == old(self)@,
            },
    {
        let addr = match self.get_operand_address(&op_code.mode) {
            Ok(addr) => addr,
            Err(e) => {
                return Err(e);
            },
        };
        let data = self.mem_read(addr);
        let register_data = self.register_y;

        if register_data >= data {
            self.status.set_carry();
        } else {
            self.status.clear_carry();
        }

        let diff = register_data.wrapping_sub(data);
        self.update_zero_and_negative_flags(diff);
        return Ok(());
    }

    /// `INC`: add 1 to the operand byte with 8-bit wraparound, write it back and update Zero/Negative.
    pub fn inc(&mut self, op_code: &OpCode) -> (r: Result<(), RunError>)
        requires
            old(self).wf(),
        ensures
            final(self).wf(),
            keeps_stack_page(old(self), final(self)),
            match spec_inc(old(self)@, op_code.mode) {
                Ok(s2) => r == Ok::<(), RunError>(()) && final(self)@ == s2,
                Err(e) => r == Err::<(), RunError>(e) && final(self)@ == old(self)@,
            },
    {
        let addr = match self.get_operand_address(&op_code.mode) {
            Ok(addr) => addr,
            Err(e) => {
                return Err(e);
            },
        };
        let data = self.mem_read(addr);
        let value = data.wrapping_add(1);
        self.mem_write(addr, value);
        self.update_zero_and_negative_flags(value);
        return Ok(());
    }

    /// `DEC`: subtract 1 from the operand byte with 8-bit wraparound, write it back and update Zero/Negative.
    pub fn dec(&mut self, op_code: &OpCode) -> (r: Result<(), RunError>)
        requires
            old(self).wf(),
        ensures
            final(self).wf(),
            keeps_stack_page(old(self), final(self)),
            match spec_dec(old(self)@, op_code.mode) {
                Ok(s2) => r == Ok::<(), RunError>(()) && final(self)@ == s2,
                Err(e) => r == Err::<(), RunError>(e) && final(self)@ == old(self)@,
            },
    {
        let addr = match self.get_operand_address(&op_code.mode) {
            Ok(addr) => addr,
            Err(e) => {
                return Err(e);
            },
        };
        let data = self.mem_read(addr);
        let value = data.wrapping_sub(1);
        self.mem_write(addr, value);
        self.update_zero_and_negative_flags(value);
        return Ok(());
    }

    /// `INX`: X + 1 with 8-bit wraparound, Zero/Negative from the
    /// result.
    pub fn inx(&mut self)
        requires
            old(self).wf(),
        ensures
            final(self).wf(),
            keeps_stack_page(old(self), final(self)),
            final(self)@ == spec_inx(old(self)@),
    {
        self.register_x = self.register_x.wrapping_add(1);
        self.update_zero_and_negative_flags(self.register_x);
    }

    /// `INY`: Y + 1 with 8-bit wraparound, Zero/Negative from the
    /// result.
    pub fn iny(&mut self)
        requires
            old(self).wf(),
        ensures
            final(self).wf(),
            keeps_stack_page(old(self), final(self)),
            final(self)@ == spec_iny(old(self)@),
    {
        self.register_y = self.register_y.wrapping_add(1);
        self.update_zero_and_negative_flags(self.register_y);
    }

    /// `DEX`: X - 1 with 8-bit wraparound, Zero/Negative from the
    /// result.
    pub fn dex(&mut self)
        requires
            old(self).wf(),
        ensures
            final(self).wf(),
            keeps_stack_page(old(self), final(self)),
            final(self)@ == spec_dex(old(self)@),
    {
        self.register_x = self.register_x.wrapping_sub(1);
        self.update_zero_and_negative_flags(self.register_x);
    }

    /// `DEY`: Y - 1 with 8-bit wraparound, Zero/Negative from the
    /// result.
    pub fn dey(&mut self)
        requires
            old(self).wf(),
        ensures
            final(self).wf(),
            keeps_stack_page(old(self), final(self)),
            final(self)@ == spec_dey(old(self)@),
    {
        self.register_y = self.register_y.wrapping_sub(1);
        self.update_zero_and_negative_flags(self.register_y);
    }

    /// `ASL`: dispatches on the opcode byte: `0x0A` operates on the
    /// accumulator, every other form on the memory operand. Returns the
    /// shifted byte.
    pub fn asl(&mut self, op_code: &OpCode) -> (r: Result<u8, RunError>)
        requires
            old(self).wf(),
        ensures
            final(self).wf(),
            keeps_stack_page(old(self), final(self)),
            match spec_asl(old(self)@, *op_code) {
                Ok(pair) => r == Ok::<u8, RunError>(pair.1) && final(self)@ == pair.0,
                Err(e) => r == Err::<u8, RunError>(e) && final(self)@ == old(self)@,
            },
    {
        let data;
        match op_code.code {
            0x0A => {
                data = self.handle_accumulator_asl();
            },
            _ => {
                data = match self.handle_non_accumulator_asl(op_code) {
                    Ok(d) => d,
                    Err(e) => {
                        return Err(e);
                    },
                };
            },
        }
        self.update_zero_and_negative_flags(data);

        return Ok(data);
    }

    /// The accumulator form of `ASL`: captures the outgoing bit into
    /// Carry and stores the shifted byte back in the accumulator.
    /// Zero/Negative are updated by the caller.
    fn handle_accumulator_asl(&mut self) -> (r: u8)
        requires
            old(self).wf(),
        ensures
            final(self).wf(),
            keeps_stack_page(old(self), final(self)),
            r == spec_asl_result(old(self)@.flags, old(self)@.a).0,
            final(self)@ == (CpuState {
                a: spec_asl_result(old(self)@.flags, old(self)@.a).0,
                flags: with_carry(old(self)@.flags, (old(self)@.a >> 7) & 1 == 1),
                ..old(self)@
            }),
    {
        let mut data = self.register_a;

        if (data >> 7 & 1) == 1 {
            self.status.set_carry()
        } else {
            self.status.clear_carry()
        }

        data = data << 1;

        self.register_a = data;

        return data;
    }

    /// The memory form of `ASL`: reads the operand byte, captures the
    /// outgoing bit into Carry and writes the shifted byte back.
    /// Zero/Negative are updated by the caller.
    fn handle_non_accumulator_asl(&mut self, op_code: &OpCode) -> (r: Result<u8, RunError>)
        requires
            old(self).wf(),
        ensures
            final(self).wf(),
            keeps_stack_page(old(self), final(self)),
            match spec_operand_address(old(self)@, op_code.mode) {
                Ok(addr) => r == Ok::<u8, RunError>(
                    spec_asl_result(old(self)@.flags, mem_at(old(self)@, addr)).0,
                ) && final(self)@ == (CpuState {
                    flags: with_carry(old(self)@.flags, (mem_at(old(self)@, addr) >> 7) & 1 == 1),
                    ..with_mem(
                        old(self)@,
                        addr,
                        spec_asl_result(old(self)@.flags, mem_at(old(self)@, addr)).0,
                    )
                }),
                Err(e) => r == Err::<u8, RunError>(e) && final(self)@ == old(self)@,
            },
    {
        let addr = match self.get_operand_address(&op_code.mode) {
            Ok(addr) => addr,
            Err(e) => {
                return Err(e);
            },
        };
        let mut data = self.mem_read(addr);

        if (data >> 7 & 1) == 1 {
            self.status.set_carry()
        } else {
            self.status.clear_carry()
        }

        data = data << 1;

        self.mem_write(addr, data);

        return Ok(data);
    }

    /// `LSR`: dispatches on the opcode byte: `0x4A` operates on the
    /// accumulator, every other form on the memory operand. Returns the
    /// shifted byte.
    pub fn lsr(&mut self, op_code: &OpCode) -> (r: Result<u8, RunError>)
        requires
            old(self).wf(),
        ensures
            final(self).wf(),
            keeps_stack_page(old(self), final(self)),
            match spec_lsr(old(self)@, *op_code) {
                Ok(pair) => r == Ok::<u8, RunError>(pair.1) && final(self)@ == pair.0,
                Err(e) => r == Err::<u8, RunError>(e) && final(self)@ == old(self)@,
            },
    {
        let data;
        match op_code.code {
            0x4A => {
                data = self.handle_accumulator_lsr();
            },
            _ => {
                data = match self.handle_non_accumulator_lsr(op_code) {
                    Ok(d) => d,
                    Err(e) => {
                        return Err(e);
                    },
                };
            },
        }
        self.update_zero_and_negative_flags(data);

        return Ok(data);
    }

    /// The accumulator form of `LSR`: captures the outgoing bit into
    /// Carry and stores the shifted byte back in the accumulator.
    /// Zero/Negative are updated by the caller.
    fn handle_accumulator_lsr(&mut self) -> (r: u8)
        requires
            old(self).wf(),
        ensures
            final(self).wf(),
            keeps_stack_page(old(self), final(self)),
            r == spec_lsr_result(old(self)@.flags, old(self)@.a).0,
            final(self)@ == (CpuState {
                a: spec_lsr_result(old(self)@.flags, old(self)@.a).0,
                flags: with_carry(old(self)@.flags, old(self)@.a & 1 == 1),
                ..old(self)@
            }),
    {
        let mut data = self.register_a;

        if (data & 1) == 1 {
            self.status.set_carry()
        } else {
            self.status.clear_carry()
        }

        data = data >> 1;

        self.register_a = data;

        return data;
    }

    /// The memory form of `LSR`: reads the operand byte, captures the
    /// outgoing bit into Carry and writes the shifted byte back.
    /// Zero/Negative are updated by the caller.
    fn handle_non_accumulator_lsr(&mut self, op_code: &OpCode) -> (r: Result<u8, RunError>)
        requires
            old(self).wf(),
        ensures
            final(self).wf(),
            keeps_stack_page(old(self), final(self)),
            match spec_operand_address(old(self)@, op_code.mode) {
                Ok(addr) => r == Ok::<u8, RunError>(
                    spec_lsr_result(old(self)@.flags, mem_at(old(self)@, addr)).0,
                ) && final(self)@ == (CpuState {
                    flags: with_carry(old(self)@.flags, mem_at(old(self)@, addr) & 1 == 1),
                    ..with_mem(
                        old(self)@,
                        addr,
                        spec_lsr_result(old(self)@.flags, mem_at(old(self)@, addr)).0,
                    )
                }),
                Err(e) => r == Err::<u8, RunError>(e) && final(self)@ == old(self)@,
            },
    {
        let addr = match self.get_operand_address(&op_code.mode) {
            Ok(addr) => addr,
            Err(e) => {
                return Err(e);
            },
        };
        let mut data = self.mem_read(addr);

        if (data & 1) == 1 {
            self.status.set_carry()
        } else {
            self.status.clear_carry()
        }

        data = data >> 1;

        self.mem_write(addr, data);

        return Ok(data);
    }

    /// `ROL`: dispatches on the opcode byte: `0x2A` operates on the
    /// accumulator, every other form on the memory operand. Returns the
    /// shifted byte.
    pub fn rol(&mut self, op_code: &OpCode) -> (r: Result<u8, RunError>)
        requires
            old(self).wf(),
        ensures
            final(self).wf(),
            keeps_stack_page(old(self), final(self)),
            match spec_rol(old(self)@, *op_code) {
                Ok(pair) => r == Ok::<u8, RunError>(pair.1) && final(self)@ == pair.0,
                Err(e) => r == Err::<u8, RunError>(e) && final(self)@ == old(self)@,
            },
    {
        let data;
        match op_code.code {
            0x2A => {
                data = self.handle_accumulator_rol();
            },
            _ => {
                data = match self.handle_non_accumulator_rol(op_code) {
                    Ok(d) => d,
                    Err(e) => {
                        return Err(e);
                    },
                };
            },
        }
        self.update_zero_and_negative_flags(data);

        return Ok(data);
    }

    /// The accumulator form of `ROL`: captures the outgoing bit into
    /// Carry and stores the shifted byte back in the accumulator.
    /// Zero/Negative are updated by the caller.
    fn handle_accumulator_rol(&mut self) -> (r: u8)
        requires
            old(self).wf(),
        ensures
            final(self).wf(),
            keeps_stack_page(old(self), final(self)),
            r == spec_rol_result(old(self)@.flags, old(self)@.a).0,
            final(self)@ == (CpuState {
                a: spec_rol_result(old(self)@.flags, old(self)@.a).0,
                flags: with_carry(old(self)@.flags, (old(self)@.a >> 7) & 1 == 1),
                ..old(self)@
            }),
    {
        let mut data = self.register_a;

        let old_carry = self.status.carry();

        if (data >> 7 & 1) == 1 {
            self.status.set_carry()
        } else {
            self.status.clear_carry()
        }

        data = data << 1 | old_carry;

        self.register_a = data;

        return data;
    }

    /// The memory form of `ROL`: reads the operand byte, captures the
    /// outgoing bit into Carry and writes the shifted byte back.
    /// Zero/Negative are updated by the caller.
    fn handle_non_accumulator_rol(&mut self, op_code: &OpCode) -> (r: Result<u8, RunError>)
        requires
            old(self).wf(),
        ensures
            final(self).wf(),
            keeps_stack_page(old(self), final(self)),
            match spec_operand_address(old(self)@, op_code.mode) {
                Ok(addr) => r == Ok::<u8, RunError>(
                    spec_rol_result(old(self)@.flags, mem_at(old(self)@, addr)).0,
                ) && final(self)@ == (CpuState {
                    flags: with_carry(old(self)@.flags, (mem_at(old(self)@, addr) >> 7) & 1 == 1),
                    ..with_mem(
                        old(self)@,
                        addr,
                        spec_rol_result(old(self)@.flags, mem_at(old(self)@, addr)).0,
                    )
                }),
                Err(e) => r == Err::<u8, RunError>(e) && final(self)@ == old(self)@,
            },
    {
        let addr = match self.get_operand_address(&op_code.mode) {
            Ok(addr) => addr,
            Err(e) => {
                return Err(e);
            },
        };
        let mut data = self.mem_read(addr);

        let old_carry = self.status.carry();

        if (data >> 7 & 1) == 1 {
            self.status.set_carry()
        } else {
            self.status.clear_carry()
        }

        data = data << 1 | old_carry;

        self.mem_write(addr, data);

        return Ok(data);
    }

    /// `ROR`: dispatches on the opcode byte: `0x6A` operates on the
    /// accumulator, every other form on the memory operand. Returns the
    /// shifted byte.
    pub fn ror(&mut self, op_code: &OpCode) -> (r: Result<u8, RunError>)
        requires
            old(self).wf(),
        ensures
            final(self).wf(),
            keeps_stack_page(old(self), final(self)),
            match spec_ror(old(self)@, *op_code) {
                Ok(pair) => r == Ok::<u8, RunError>(pair.1) && final(self)@ == pair.0,
                Err(e) => r == Err::<u8, RunError>(e) && final(self)@ == old(self)@,
            },
    {
        let data;
        match op_code.code {
            0x6A => {
                data = self.handle_accumulator_ror();
            },
            _ => {
                data = match self.handle_non_accumulator_ror(op_code) {
                    Ok(d) => d,
                    Err(e) => {
                        return Err(e);
                    },
                };
            },
        }
        self.update_zero_and_negative_flags(data);

        return Ok(data);
    }

    /// The accumulator form of `ROR`: captures the outgoing bit into
    /// Carry and stores the shifted byte back in the accumulator.
    /// Zero/Negative are updated by the caller.
    fn handle_accumulator_ror(&mut self) -> (r: u8)
        requires
            old(self).wf(),
        ensures
            final(self).wf(),
            keeps_stack_page(old(self), final(self)),
            r == spec_ror_result(old(self)@.flags, old(self)@.a).0,
            final(self)@ == (CpuState {
                a: spec_ror_result(old(self)@.flags, old(self)@.a).0,
                flags: with_carry(old(self)@.flags, old(self)@.a & 1 == 1),
                ..old(self)@
            }),
    {
        let mut data = self.register_a;

        let old_carry = self.status.carry();

        if (data & 1) == 1 {
            self.status.set_carry()
        } else {
            self.status.clear_carry()
        }

        data = data >> 1;

        if old_carry == 1 {
            data = data | 0b1000_0000;
        }

        self.register_a = data;

        return data;
    }

    /// The memory form of `ROR`: reads the operand byte, captures the
    /// outgoing bit into Carry and writes the shifted byte back.
    /// Zero/Negative are updated by the caller.
    fn handle_non_accumulator_ror(&mut self, op_code: &OpCode) -> (r: Result<u8, RunError>)
        requires
            old(self).wf(),
        ensures
            final(self).wf(),
            keeps_stack_page(old(self), final(self)),
            match spec_operand_address(old(self)@, op_code.mode) {
                Ok(addr) => r == Ok::<u8, RunError>(
                    spec_ror_result(old(self)@.flags, mem_at(old(self)@, addr)).0,
                ) && final(self)@ == (CpuState {
                    flags: with_carry(old(self)@.flags, mem_at(old(self)@, addr) & 1 == 1),
                    ..with_mem(
                        old(self)@,
                        addr,
                        spec_ror_result(old(self)@.flags, mem_at(old(self)@, addr)).0,
                    )
                }),
                Err(e) => r == Err::<u8, RunError>(e) && final(self)@ == old(self)@,
            },
    {
        let addr = match self.get_operand_address(&op_code.mode) {
            Ok(addr) => addr,
            Err(e) => {
                return Err(e);
            },
        };
        let mut data = self.mem_read(addr);

        let old_carry = self.status.carry();

        if (data & 1) == 1 {
            self.status.set_carry()
        } else {
            self.status.clear_carry()
        }

        data = data >> 1;

        if old_carry == 1 {
            data = data | 0b1000_0000;
        }

        self.mem_write(addr, data);

        return Ok(data);
    }

    /// The shared branch step: reads the signed offset byte at the
    /// program counter; when `taken`, moves the program counter by the
    /// offset relative to the address just after the offset byte, else
    /// falls through to that address.
    fn branch(&mut self, taken: bool)
        requires
            old(self).wf(),
        ensures
            final(self).wf(),
            keeps_stack_page(old(self), final(self)),
            final(self)@ == spec_branch(old(self)@, taken),
    {
        let offset = self.mem_read(self.program_counter);
        let fall_through = self.program_counter.wrapping_add(1);
        if taken {
            let extended: u16 = if offset < 0b1000_0000 {
                offset as u16
            } else {
                (offset as u16) | 0xFF00
            };
            self.program_counter = fall_through.wrapping_add(extended);
        } else {
            self.program_counter = fall_through;
        }
    }

    /// `BCC`: branch when Carry is clear.
    pub fn bcc(&mut self)
        requires
            old(self).wf(),
        ensures
            final(self).wf(),
            keeps_stack_page(old(self), final(self)),
            final(self)@ == spec_branch(old(self)@, carry_bit(old(self)@.flags) == 0),
    {
        let taken = self.status.carry() == 0;
        self.branch(taken);
    }

    /// `BCS`: branch when Carry is set.
    pub fn bcs(&mut self)
        requires
            old(self).wf(),
        ensures
            final(self).wf(),
            keeps_stack_page(old(self), final(self)),
            final(self)@ == spec_branch(old(self)@, carry_bit(old(self)@.flags) == 1),
    {
        let taken = self.status.carry() == 1;
        self.branch(taken);
    }

    /// `BNE`: branch when Zero is clear.
    pub fn bne(&mut self)
        requires
            old(self).wf(),
        ensures
            final(self).wf(),
            keeps_stack_page(old(self), final(self)),
            final(self)@ == spec_branch(old(self)@, zero_bit(old(self)@.flags) == 0),
    {
        let taken = self.status.zero() == 0;
        self.branch(taken);
    }

    /// `BEQ`: branch when Zero is set.
    pub fn beq(&mut self)
        requires
            old(self).wf(),
        ensures
            final(self).wf(),
            keeps_stack_page(old(self), final(self)),
            final(self)@ == spec_branch(old(self)@, zero_bit(old(self)@.flags) == 1),
    {
        let taken = self.status.zero() == 1;
        self.branch(taken);
    }

    /// `BPL`: branch when Negative is clear.
    pub fn bpl(&mut self)
        requires
            old(self).wf(),
        ensures
            final(self).wf(),
            keeps_stack_page(old(self), final(self)),
            final(self)@ == spec_branch(old(self)@, negative_bit(old(self)@.flags) == 0),
    {
        let taken = self.status.negative() == 0;
        self.branch(taken);
    }

    /// `BMI`: branch when Negative is set.
    pub fn bmi(&mut self)
        requires
            old(self).wf(),
        ensures
            final(self).wf(),
            keeps_stack_page(old(self), final(self)),
            final(self)@ == spec_branch(old(self)@, negative_bit(old(self)@.flags) == 1),
    {
        let taken = self.status.negative() == 1;
        self.branch(taken);
    }

    /// `BVC`: branch when Overflow is clear.
    pub fn bvc(&mut self)
        requires
            old(self).wf(),
        ensures
            final(self).wf(),
            keeps_stack_page(old(self), final(self)),
            final(self)@ == spec_branch(old(self)@, overflow_bit(old(self)@.flags) == 0),
    {
        let taken = self.status.overflow() == 0;
        self.branch(taken);
    }

    /// `BVS`: branch when Overflow is set.
    pub fn bvs(&mut self)
        requires
            old(self).wf(),
        ensures
            final(self).wf(),
            keeps_stack_page(old(self), final(self)),
            final(self)@ == spec_branch(old(self)@, overflow_bit(old(self)@.flags) == 1),
    {
        let taken = self.status.overflow() == 1;
        self.branch(taken);
    }

    /// `JMP`: set the program counter to the resolved operand address;
    /// the `Indirect` form goes through the buggy pointer dereference
    /// of the resolver.
    pub fn jmp(&mut self, op_code: &OpCode) -> (r: Result<(), RunError>)
        requires
            old(self).wf(),
        ensures
            final(self).wf(),
            keeps_stack_page(old(self), final(self)),
            match spec_jmp(old(self)@, op_code.mode) {
                Ok(s2) => r == Ok::<(), RunError>(()) && final(self)@ == s2,
                Err(e) => r == Err::<(), RunError>(e) && final(self)@ == old(self)@,
            },
    {
        let addr = match self.get_operand_address(&op_code.mode) {
            Ok(addr) => addr,
            Err(e) => {
                return Err(e);
            },
        };
        self.program_counter = addr;
        return Ok(());
    }

    /// `JSR`: push the address of the instruction's last byte (the
    /// return address minus 1, per 6502 convention) and jump to the
    /// absolute target.
    pub fn jsr(&mut self)
        requires
            old(self).wf(),
        ensures
            final(self).wf(),
            keeps_stack_page(old(self), final(self)),
            final(self)@ == spec_jsr(old(self)@),
    {
        let target = self.mem_read_u16(self.program_counter);
        let return_minus_one = self.program_counter.wrapping_add(1);
        self.stack_push_u16(return_minus_one);
        self.program_counter = target;
    }

    /// `RTS`: pop the return address and continue one byte after it.
    pub fn rts(&mut self)
        requires
            old(self).wf(),
        ensures
            final(self).wf(),
            keeps_stack_page(old(self), final(self)),
            final(self)@ == spec_rts(old(self)@),
    {
        let value = self.stack_pop_u16();
        self.program_counter = value.wrapping_add(1);
    }

    /// `RTI`: pop the status byte (the unused bits stay at 1), then
    /// pop the program counter, restoring the interrupted state.
    pub fn rti(&mut self)
        requires
            old(self).wf(),
        ensures
            final(self).wf(),
            keeps_stack_page(old(self), final(self)),
            final(self)@ == spec_rti(old(self)@),
    {
        let flags = self.stack_pop();
        self.status = Processor { flags: flags | 0b0011_0000 };
        let value = self.stack_pop_u16();
        self.program_counter = value;
    }

    /// `PHA`: push the accumulator.
    pub fn pha(&mut self)
        requires
            old(self).wf(),
        ensures
            final(self).wf(),
            keeps_stack_page(old(self), final(self)),
            final(self)@ == spec_pha(old(self)@),
    {
        self.stack_push(self.register_a);
    }

    /// `PHP`: push the status byte with the two unused bits forced to
    /// 1, as the hardware pushes them.
    pub fn php(&mut self)
        requires
            old(self).wf(),
        ensures
            final(self).wf(),
            keeps_stack_page(old(self), final(self)),
            final(self)@ == spec_php(old(self)@),
    {
        let flags = self.status.flags;
        self.stack_push(flags | 0b0011_0000);
    }

    /// `PLA`: pop into the accumulator and update Zero/Negative.
    pub fn pla(&mut self)
        requires
            old(self).wf(),
        ensures
            final(self).wf(),
            keeps_stack_page(old(self), final(self)),
            final(self)@ == spec_pla(old(self)@),
    {
        let value = self.stack_pop();
        self.register_a = value;
        self.update_zero_and_negative_flags(value);
    }

    /// `PLP`: pop into the status byte; the two unused bits stay at 1.
    pub fn plp(&mut self)
        requires
            old(self).wf(),
        ensures
            final(self).wf(),
            keeps_stack_page(old(self), final(self)),
            final(self)@ == spec_plp(old(self)@),
    {
        let value = self.stack_pop();
        self.status = Processor { flags: value | 0b0011_0000 };
    }

    /// `SEC`: set Carry; no operand, no other effect.
    pub fn sec(&mut self)
        requires
            old(self).wf(),
        ensures
            final(self).wf(),
            keeps_stack_page(old(self), final(self)),
            final(self)@ == (CpuState { flags: old(self)@.flags | 0b0000_0001, ..old(self)@ }),
    {
        self.status.set_carry();
    }

    /// `SED`: set Decimal; no operand, no other effect.
    pub fn sed(&mut self)
        requires
            old(self).wf(),
        ensures
            final(self).wf(),
            keeps_stack_page(old(self), final(self)),
            final(self)@ == (CpuState { flags: old(self)@.flags | 0b0000_1000, ..old(self)@ }),
    {
        self.status.set_decimal();
    }

    /// `SEI`: set Interrupt-disable; no operand, no other effect.
    pub fn sei(&mut self)
        requires
            old(self).wf(),
        ensures
            final(self).wf(),
            keeps_stack_page(old(self), final(self)),
            final(self)@ == (CpuState { flags: old(self)@.flags | 0b0000_0100, ..old(self)@ }),
    {
        self.status.set_interrupt();
    }

    /// `CLC`: clear Carry; no operand, no other effect.
    pub fn clc(&mut self)
        requires
            old(self).wf(),
        ensures
            final(self).wf(),
            keeps_stack_page(old(self), final(self)),
            final(self)@ == (CpuState { flags: old(self)@.flags & 0b1111_1110, ..old(self)@ }),
    {
        self.status.clear_carry();
    }

    /// `CLD`: clear Decimal; no operand, no other effect.
    pub fn cld(&mut self)
        requires
            old(self).wf(),
        ensures
            final(self).wf(),
            keeps_stack_page(old(self), final(self)),
            final(self)@ == (CpuState { flags: old(self)@.flags & 0b1111_0111, ..old(self)@ }),
    {
        self.status.clear_decimal();
    }

    /// `CLI`: clear Interrupt-disable; no operand, no other effect.
    pub fn cli(&mut self)
        requires
            old(self).wf(),
        ensures
            final(self).wf(),
            keeps_stack_page(old(self), final(self)),
            final(self)@ == (CpuState { flags: old(self)@.flags & 0b1111_1011, ..old(self)@ }),
    {
        self.status.clear_interrupt();
    }

    /// `CLV`: clear Overflow; no operand, no other effect.
    pub fn clv(&mut self)
        requires
            old(self).wf(),
        ensures
            final(self).wf(),
            keeps_stack_page(old(self), final(self)),
            final(self)@ == (CpuState { flags: old(self)@.flags & 0b1011_1111, ..old(self)@ }),
    {
        self.status.clear_overflow();
    }

    /// `TAX`: copy A into X and update Zero/Negative.
    pub fn tax(&mut self)
        requires
            old(self).wf(),
        ensures
            final(self).wf(),
            keeps_stack_page(old(self), final(self)),
            final(self)@ == spec_tax(old(self)@),
    {
        self.register_x = self.register_a;
        self.update_zero_and_negative_flags(self.register_x);
    }

    /// `TAY`: copy A into Y and update Zero/Negative.
    pub fn tay(&mut self)
        requires
            old(self).wf(),
        ensures
            final(self).wf(),
            keeps_stack_page(old(self), final(self)),
            final(self)@ == spec_tay(old(self)@),
    {
        self.register_y = self.register_a;
        self.update_zero_and_negative_flags(self.register_y);
    }

    /// `TXA`: copy X into A and update Zero/Negative.
    pub fn txa(&mut self)
        requires
            old(self).wf(),
        ensures
            final(self).wf(),
            keeps_stack_page(old(self), final(self)),
            final(self)@ == spec_txa(old(self)@),
    {
        self.register_a = self.register_x;
        self.update_zero_and_negative_flags(self.register_a);
    }

    /// `TYA`: copy Y into A and update Zero/Negative.
    pub fn tya(&mut self)
        requires
            old(self).wf(),
        ensures
            final(self).wf(),
            keeps_stack_page(old(self), final(self)),
            final(self)@ == spec_tya(old(self)@),
    {
        self.register_a = self.register_y;
        self.update_zero_and_negative_flags(self.register_a);
    }

    /// `TSX`: copy the stack pointer into X and update Zero/Negative.
    pub fn tsx(&mut self)
        requires
            old(self).wf(),
        ensures
            final(self).wf(),
            keeps_stack_page(old(self), final(self)),
            final(self)@ == spec_tsx(old(self)@),
    {
        self.register_x = self.stack.ptr() as u8;
        self.update_zero_and_negative_flags(self.register_x);
    }

    /// `TXS`: copy X into the stack pointer; no flag effect.
    pub fn txs(&mut self)
        requires
            old(self).wf(),
        ensures
            final(self).wf(),
            keeps_stack_page(old(self), final(self)),
            final(self)@ == spec_txs(old(self)@),
    {
        self.stack.set_ptr(self.register_x);
    }

    /// `NOP`: no effect beyond the normal program-counter advance,
    /// which the execution loop performs.
    pub fn nop(&mut self)
        ensures
            *final(self) == *old(self),
    {
    }

    /// Executes exactly one instruction: fetch the opcode byte at the
    /// program counter, decode it against the canonical table, perform
    /// the instruction's state transition, and advance past its
    /// operand bytes unless the instruction redirected control flow
    /// itself. The outcome mirrors `spec_step` on the abstract state.
    pub fn step(&mut self) -> (r: StepOutcome)
        requires
            old(self).wf(),
        ensures
            final(self).wf(),
            keeps_stack_page(old(self), final(self)),
            match r {
                StepOutcome::Ran => spec_step(old(self)@) == Step::Next(final(self)@),
                StepOutcome::Halted => spec_step(old(self)@) == Step::Halt(final(self)@),
                StepOutcome::Faulted(e) => spec_step(old(self)@) == Step::Fault(e, final(self)@),
            },
    {
        let code = self.mem_read(self.program_counter);
        let code_address = self.program_counter;
        self.program_counter = self.program_counter.wrapping_add(1);

        let op_code = match opcode_lookup(code) {
            Some(op_code) => op_code,
            None => {
                return StepOutcome::Faulted(
                    RunError::UnknownOpcode { code, address: code_address },
                );
            },
        };

        match op_code.mnemonic {
            Mnemonic::BRK => StepOutcome::Halted,
            Mnemonic::ADC => match self.adc(&op_code) {
                Ok(()) => {
                    self.advance_program_counter(op_code.len);
                    StepOutcome::Ran
                },
                Err(e) => StepOutcome::Faulted(e),
            },
            Mnemonic::SBC => match self.sbc(&op_code) {
                Ok(()) => {
                    self.advance_program_counter(op_code.len);
                    StepOutcome::Ran
                },
                Err(e) => StepOutcome::Faulted(e),
            },
            Mnemonic::AND => match self.and(&op_code) {
                Ok(()) => {
                    self.advance_program_counter(op_code.len);
                    StepOutcome::Ran
                },
                Err(e) => StepOutcome::Faulted(e),
            },
            Mnemonic::ORA => match self.ora(&op_code) {
                Ok(()) => {
                    self.advance_program_counter(op_code.len);
                    StepOutcome::Ran
                },
                Err(e) => StepOutcome::Faulted(e),
            },
            Mnemonic::EOR => match self.eor(&op_code) {
                Ok(()) => {
                    self.advance_program_counter(op_code.len);
                    StepOutcome::Ran
                },
                Err(e) => StepOutcome::Faulted(e),
            },
            Mnemonic::BIT => match self.bit(&op_code) {
                Ok(()) => {
                    self.advance_program_counter(op_code.len);
                    StepOutcome::Ran
                },
                Err(e) => StepOutcome::Faulted(e),
            },
            Mnemonic::LDA => match self.lda(&op_code) {
                Ok(()) => {
                    self.advance_program_counter(op_code.len);
                    StepOutcome::Ran
                },
                Err(e) => StepOutcome::Faulted(e),
            },
            Mnemonic::LDX => match self.ldx(&op_code) {
                Ok(()) => {
                    self.advance_program_counter(op_code.len);
                    StepOutcome::Ran
                },
                Err(e) => StepOutcome::Faulted(e),
            },
            Mnemonic::LDY => match self.ldy(&op_code) {
                Ok(()) => {
                    self.advance_program_counter(op_code.len);
                    StepOutcome::Ran
                },
                Err(e) => StepOutcome::Faulted(e),
            },
            Mnemonic::STA => match self.sta(&op_code) {
                Ok(()) => {
                    self.advance_program_counter(op_code.len);
                    StepOutcome::Ran
                },
                Err(e) => StepOutcome::Faulted(e),
            },
            Mnemonic::STX => match self.stx(&op_code) {
                Ok(()) => {
                    self.advance_program_counter(op_code.len);
                    StepOutcome::Ran
                },
                Err(e) => StepOutcome::Faulted(e),
            },
            Mnemonic::STY => match self.sty(&op_code) {
                Ok(()) => {
                    self.advance_program_counter(op_code.len);
                    StepOutcome::Ran
                },
                Err(e) => StepOutcome::Faulted(e),
            },
            Mnemonic::CMP => match self.cmp(&op_code) {
                Ok(()) => {
                    self.advance_program_counter(op_code.len);
                    StepOutcome::Ran
                },
                Err(e) => StepOutcome::Faulted(e),
            },
            Mnemonic::CPX => match self.cpx(&op_code) {
                Ok(()) => {
                    self.advance_program_counter(op_code.len);
                    StepOutcome::Ran
                },
                Err(e) => StepOutcome::Faulted(e),
            },
            Mnemonic::CPY => match self.cpy(&op_code) {
                Ok(()) => {
                    self.advance_program_counter(op_code.len);
                    StepOutcome::Ran
                },
                Err(e) => StepOutcome::Faulted(e),
            },
            Mnemonic::INC => match self.inc(&op_code) {
                Ok(()) => {
                    self.advance_program_counter(op_code.len);
                    StepOutcome::Ran
                },
                Err(e) => StepOutcome::Faulted(e),
            },
            Mnemonic::DEC => match self.dec(&op_code) {
                Ok(()) => {
                    self.advance_program_counter(op_code.len);
                    StepOutcome::Ran
                },
                Err(e) => StepOutcome::Faulted(e),
            },
            Mnemonic::ASL => match self.asl(&op_code) {
                Ok(_) => {
                    self.advance_program_counter(op_code.len);
                    StepOutcome::Ran
                },
                Err(e) => StepOutcome::Faulted(e),
            },
            Mnemonic::LSR => match self.lsr(&op_code) {
                Ok(_) => {
                    self.advance_program_counter(op_code.len);
                    StepOutcome::Ran
                },
                Err(e) => StepOutcome::Faulted(e),
            },
            Mnemonic::ROL => match self.rol(&op_code) {
                Ok(_) => {
                    self.advance_program_counter(op_code.len);
                    StepOutcome::Ran
                },
                Err(e) => StepOutcome::Faulted(e),
            },
            Mnemonic::ROR => match self.ror(&op_code) {
                Ok(_) => {
                    self.advance_program_counter(op_code.len);
                    StepOutcome::Ran
                },
                Err(e) => StepOutcome::Faulted(e),
            },
            Mnemonic::JMP => match self.jmp(&op_code) {
                Ok(()) => StepOutcome::Ran,
                Err(e) => StepOutcome::Faulted(e),
            },
            Mnemonic::INX => {
                self.inx();
                self.advance_program_counter(op_code.len);
                StepOutcome::Ran
            },
            Mnemonic::INY => {
                self.iny();
                self.advance_program_counter(op_code.len);
                StepOutcome::Ran
            },
            Mnemonic::DEX => {
                self.dex();
                self.advance_program_counter(op_code.len);
                StepOutcome::Ran
            },
            Mnemonic::DEY => {
                self.dey();
                self.advance_program_counter(op_code.len);
                StepOutcome::Ran
            },
            Mnemonic::PHA => {
                self.pha();
                self.advance_program_counter(op_code.len);
                StepOutcome::Ran
            },
            Mnemonic::PHP => {
                self.php();
                self.advance_program_counter(op_code.len);
                StepOutcome::Ran
            },
            Mnemonic::PLA => {
                self.pla();
                self.advance_program_counter(op_code.len);
                StepOutcome::Ran
            },
            Mnemonic::PLP => {
                self.plp();
                self.advance_program_counter(op_code.len);
                StepOutcome::Ran
            },
            Mnemonic::TAX => {
                self.tax();
                self.advance_program_counter(op_code.len);
                StepOutcome::Ran
            },
            Mnemonic::TAY => {
                self.tay();
                self.advance_program_counter(op_code.len);
                StepOutcome::Ran
            },
            Mnemonic::TXA => {
                self.txa();
                self.advance_program_counter(op_code.len);
                StepOutcome::Ran
            },
            Mnemonic::TYA => {
                self.tya();
                self.advance_program_counter(op_code.len);
                StepOutcome::Ran
            },
            Mnemonic::TSX => {
                self.tsx();
                self.advance_program_counter(op_code.len);
                StepOutcome::Ran
            },
            Mnemonic::TXS => {
                self.txs();
                self.advance_program_counter(op_code.len);
                StepOutcome::Ran
            },
            Mnemonic::SEC => {
                self.sec();
                self.advance_program_counter(op_code.len);
                StepOutcome::Ran
            },
            Mnemonic::SED => {
                self.sed();
                self.advance_program_counter(op_code.len);
                StepOutcome::Ran
            },
            Mnemonic::SEI => {
                self.sei();
                self.advance_program_counter(op_code.len);
                StepOutcome::Ran
            },
            Mnemonic::CLC => {
                self.clc();
                self.advance_program_counter(op_code.len);
                StepOutcome::Ran
            },
            Mnemonic::CLD => {
                self.cld();
                self.advance_program_counter(op_code.len);
                StepOutcome::Ran
            },
            Mnemonic::CLI => {
                self.cli();
                self.advance_program_counter(op_code.len);
                StepOutcome::Ran
            },
            Mnemonic::CLV => {
                self.clv();
                self.advance_program_counter(op_code.len);
                StepOutcome::Ran
            },
            Mnemonic::NOP => {
                self.nop();
                self.advance_program_counter(op_code.len);
                StepOutcome::Ran
            },
            Mnemonic::BCC => {
                self.bcc();
                StepOutcome::Ran
            },
            Mnemonic::BCS => {
                self.bcs();
                StepOutcome::Ran
            },
            Mnemonic::BNE => {
                self.bne();
                StepOutcome::Ran
            },
            Mnemonic::BEQ => {
                self.beq();
                StepOutcome::Ran
            },
            Mnemonic::BPL => {
                self.bpl();
                StepOutcome::Ran
            },
            Mnemonic::BMI => {
                self.bmi();
                StepOutcome::Ran
            },
            Mnemonic::BVC => {
                self.bvc();
                StepOutcome::Ran
            },
            Mnemonic::BVS => {
                self.bvs();
                StepOutcome::Ran
            },
            Mnemonic::JSR => {
                self.jsr();
                StepOutcome::Ran
            },
            Mnemonic::RTS => {
                self.rts();
                StepOutcome::Ran
            },
            Mnemonic::RTI => {
                self.rti();
                StepOutcome::Ran
            },
        }
    }

    /// Runs the fetch-decode-execute loop until `BRK`, a fault, or the
    /// instruction budget `RUN_STEP_LIMIT`; on success the machine
    /// state is one reached from the starting state by the abstract
    /// step function alone, ending at a `BRK`.
    pub fn run(&mut self) -> (r: Result<(), RunError>)
        requires
            old(self).wf(),
        ensures
            final(self).wf(),
            keeps_stack_page(old(self), final(self)),
            match r {
                Ok(()) => halts_to(old(self)@, final(self)@),
                Err(e) => faults_to(old(self)@, e, final(self)@) || (e == RunError::StepLimit
                    && runs_to(old(self)@, RUN_STEP_LIMIT as nat) == Some(final(self)@)),
            },
    {
        let ghost start = self@;
        let mut fuel: u64 = RUN_STEP_LIMIT;
        let ghost mut steps: nat = 0;
        loop
            invariant
                self.wf(),
                keeps_stack_page(old(self), self),
                start == old(self)@,
                steps + fuel == RUN_STEP_LIMIT as nat,
                runs_to(start, steps) == Some(self@),
            decreases fuel,
        {
            if fuel == 0 {
                return Err(RunError::StepLimit);
            }
            match self.step() {
                StepOutcome::Ran => {
                    fuel = fuel - 1;
                    proof {
                        steps = steps + 1;
                    }
                },
                StepOutcome::Halted => {
                    return Ok(());
                },
                StepOutcome::Faulted(e) => {
                    return Err(e);
                },
            }
        }
    }

    /// Loads a program image, resets the CPU so the program counter
    /// picks up the reset vector, and runs it: single-shot execution.
    pub fn load_and_run(&mut self, program: Vec<u8>) -> (r: Result<(), RunError>)
        requires
            old(self).wf(),
            program@.len() <= 0x7FFF,
        ensures
            final(self).wf(),
            keeps_stack_page(old(self), final(self)),
            ({
                let started = spec_reset(spec_load(old(self)@, program@));
                match r {
                    Ok(()) => halts_to(started, final(self)@),
                    Err(e) => faults_to(started, e, final(self)@) || (e == RunError::StepLimit
                        && runs_to(started, RUN_STEP_LIMIT as nat) == Some(final(self)@)),
                }
            }),
    {
        self.load(program);
        self.reset();
        return self.run();
    }
}

} // verus!
