//! The mathematical model of the machine: an abstract state, one spec
//! function per instruction family giving its exact state transition,
//! and the one-instruction step function `spec_step` that the executable
//! engine is proved to follow.
//!
//! Every transition here takes the state as it stands *after* the opcode
//! byte has been fetched, i.e. with the program counter at the first
//! operand byte.

use crate::cpu::AddressingMode;
use crate::cpu::RunError;
use crate::op_codes::Mnemonic;
use crate::op_codes::OpCode;
use crate::op_codes::opcode_spec;
use crate::processor::carry_bit;
use crate::processor::negative_bit;
use crate::processor::overflow_bit;
use crate::processor::unused_bits_set;
use crate::processor::update_zn;
use crate::processor::zero_bit;
use vstd::prelude::*;
use vstd::seq_lib::*;
use vstd::wrapping::u16_specs;
use vstd::wrapping::u8_specs;

verus! {

/// The whole observable machine state: the three 8-bit registers, the
/// 16-bit program counter, the 8-bit stack pointer, the packed flag
/// byte and the 64 KiB memory as a sequence of bytes.
#[verifier::ext_equal]
pub struct CpuState {
    pub a: u8,
    pub x: u8,
    pub y: u8,
    pub pc: u16,
    pub sp: u8,
    pub flags: u8,
    pub mem: Seq<u8>,
}

/// A state is well formed when its memory covers the full 16-bit
/// address space.
pub open spec fn state_wf(s: CpuState) -> bool {
    s.mem.len() == 0x10000
}

/// The byte stored at `addr`.
pub open spec fn mem_at(s: CpuState, addr: u16) -> u8 {
    s.mem[addr as int]
}

/// The little-endian 16-bit value stored at `pos`: low byte at `pos`,
/// high byte at `pos + 1` (wrapping across the end of the address
/// space).
pub open spec fn mem16_at(s: CpuState, pos: u16) -> u16 {
    (mem_at(s, u16_specs::wrapping_add(pos, 1)) as u16) << 8 | mem_at(s, pos) as u16
}

/// The state with `value` stored at `addr` and everything else as it
/// was.
pub open spec fn with_mem(s: CpuState, addr: u16, value: u8) -> CpuState {
    CpuState { mem: s.mem.update(addr as int, value), ..s }
}

/// The state with the little-endian 16-bit `value` stored at `pos`:
/// low byte at `pos`, high byte at `pos + 1` (wrapping).
pub open spec fn with_mem16(s: CpuState, pos: u16, value: u16) -> CpuState {
    with_mem(
        with_mem(s, pos, (value & 0x00FF) as u8),
        u16_specs::wrapping_add(pos, 1),
        (value >> 8) as u8,
    )
}

/// The effective address of the current instruction's operand, per
/// addressing mode, read relative to the program counter (which sits at
/// the first operand byte). `NoneAddressing` has no resolvable operand
/// address and yields the corresponding fault.
///
/// `Indirect` reproduces the documented hardware bug: when the
/// pointer's low byte is `0xFF`, the high byte of the target is fetched
/// from the start of the pointer's own page rather than from the next
/// page.
pub open spec fn spec_operand_address(s: CpuState, mode: AddressingMode) -> Result<u16, RunError> {
    match mode {
        AddressingMode::Immediate => Ok(s.pc),
        AddressingMode::ZeroPage => Ok(mem_at(s, s.pc) as u16),
        AddressingMode::ZeroPage_X => Ok(u8_specs::wrapping_add(mem_at(s, s.pc), s.x) as u16),
        AddressingMode::ZeroPage_Y => Ok(u8_specs::wrapping_add(mem_at(s, s.pc), s.y) as u16),
        AddressingMode::Absolute => Ok(mem16_at(s, s.pc)),
        AddressingMode::Absolute_X => Ok(
            u16_specs::wrapping_add(mem16_at(s, s.pc), s.x as u16),
        ),
        AddressingMode::Absolute_Y => Ok(
            u16_specs::wrapping_add(mem16_at(s, s.pc), s.y as u16),
        ),
        AddressingMode::Indirect => {
            let ptr = mem16_at(s, s.pc);
            if ptr & 0x00FF == 0x00FF {
                let lo = mem_at(s, ptr);
                let hi = mem_at(s, ptr & 0xFF00);
                Ok((hi as u16) << 8 | lo as u16)
            } else {
                Ok(mem16_at(s, ptr))
            }
        },
        AddressingMode::Indirect_X => {
            let ptr = u8_specs::wrapping_add(mem_at(s, s.pc), s.x);
            let lo = mem_at(s, ptr as u16);
            let hi = mem_at(s, u8_specs::wrapping_add(ptr, 1) as u16);
            Ok((hi as u16) << 8 | lo as u16)
        },
        AddressingMode::Indirect_Y => {
            let base = mem_at(s, s.pc);
            let lo = mem_at(s, base as u16);
            let hi = mem_at(s, u8_specs::wrapping_add(base, 1) as u16);
            let deref_base = (hi as u16) << 8 | lo as u16;
            Ok(u16_specs::wrapping_add(deref_base, s.y as u16))
        },
        AddressingMode::NoneAddressing => Err(
            RunError::UnresolvedMode { mode, address: s.pc },
        ),
    }
}

/// The flag byte with Carry set when `carry` holds, cleared otherwise.
pub open spec fn with_carry(f: u8, carry: bool) -> u8 {
    if carry {
        f | 0b0000_0001
    } else {
        f & 0b1111_1110
    }
}

/// The flag byte with Overflow set when `overflow` holds, cleared
/// otherwise.
pub open spec fn with_overflow(f: u8, overflow: bool) -> u8 {
    if overflow {
        f | 0b0100_0000
    } else {
        f & 0b1011_1111
    }
}

/// Binary add-with-carry of `value` into the accumulator: the standard
/// two's-complement carry chain. Carry holds the carry out of bit 7;
/// Overflow reports signed overflow; Zero and Negative follow the
/// 8-bit result.
pub open spec fn spec_add_with_carry(s: CpuState, value: u8) -> CpuState {
    let sum = (s.a + value + carry_bit(s.flags)) as u16;
    let result = (sum & 0x00FF) as u8;
    let f1 = with_carry(s.flags, sum > 0x00FF);
    let f2 = with_overflow(f1, (s.a ^ result) & (value ^ result) & 0x80 != 0);
    CpuState { a: result, flags: update_zn(f2, result), ..s }
}

/// `ADC`: add the operand to the accumulator with carry-in and
/// carry-out.
pub open spec fn spec_adc(s: CpuState, mode: AddressingMode) -> Result<CpuState, RunError> {
    match spec_operand_address(s, mode) {
        Ok(addr) => Ok(spec_add_with_carry(s, mem_at(s, addr))),
        Err(e) => Err(e),
    }
}

/// `SBC`: subtract the operand from the accumulator with borrow, which
/// on the 6502 is the same carry chain run on the operand's one's
/// complement.
pub open spec fn spec_sbc(s: CpuState, mode: AddressingMode) -> Result<CpuState, RunError> {
    match spec_operand_address(s, mode) {
        Ok(addr) => Ok(spec_add_with_carry(s, mem_at(s, addr) ^ 0xFF)),
        Err(e) => Err(e),
    }
}

/// `LDA`: load the operand into the accumulator and update
/// Zero/Negative.
pub open spec fn spec_lda(s: CpuState, mode: AddressingMode) -> Result<CpuState, RunError> {
    match spec_operand_address(s, mode) {
        Ok(addr) => {
            let value = mem_at(s, addr);
            Ok(CpuState { a: value, flags: update_zn(s.flags, value), ..s })
        },
        Err(e) => Err(e),
    }
}

/// `LDX`: load the operand into X and update Zero/Negative.
pub open spec fn spec_ldx(s: CpuState, mode: AddressingMode) -> Result<CpuState, RunError> {
    match spec_operand_address(s, mode) {
        Ok(addr) => {
            let value = mem_at(s, addr);
            Ok(CpuState { x: value, flags: update_zn(s.flags, value), ..s })
        },
        Err(e) => Err(e),
    }
}

/// `LDY`: load the operand into Y and update Zero/Negative.
pub open spec fn spec_ldy(s: CpuState, mode: AddressingMode) -> Result<CpuState, RunError> {
    match spec_operand_address(s, mode) {
        Ok(addr) => {
            let value = mem_at(s, addr);
            Ok(CpuState { y: value, flags: update_zn(s.flags, value), ..s })
        },
        Err(e) => Err(e),
    }
}

/// `STA`: store the accumulator at the operand address; no flag
/// effect.
pub open spec fn spec_sta(s: CpuState, mode: AddressingMode) -> Result<CpuState, RunError> {
    match spec_operand_address(s, mode) {
        Ok(addr) => Ok(with_mem(s, addr, s.a)),
        Err(e) => Err(e),
    }
}

/// `STX`: store X at the operand address; no flag effect.
pub open spec fn spec_stx(s: CpuState, mode: AddressingMode) -> Result<CpuState, RunError> {
    match spec_operand_address(s, mode) {
        Ok(addr) => Ok(with_mem(s, addr, s.x)),
        Err(e) => Err(e),
    }
}

/// `STY`: store Y at the operand address; no flag effect.
pub open spec fn spec_sty(s: CpuState, mode: AddressingMode) -> Result<CpuState, RunError> {
    match spec_operand_address(s, mode) {
        Ok(addr) => Ok(with_mem(s, addr, s.y)),
        Err(e) => Err(e),
    }
}

/// `AND`: bitwise-and the operand into the accumulator and update
/// Zero/Negative.
pub open spec fn spec_and(s: CpuState, mode: AddressingMode) -> Result<CpuState, RunError> {
    match spec_operand_address(s, mode) {
        Ok(addr) => {
            let value = s.a & mem_at(s, addr);
            Ok(CpuState { a: value, flags: update_zn(s.flags, value), ..s })
        },
        Err(e) => Err(e),
    }
}

/// `ORA`: bitwise-or the operand into the accumulator and update
/// Zero/Negative.
pub open spec fn spec_ora(s: CpuState, mode: AddressingMode) -> Result<CpuState, RunError> {
    match spec_operand_address(s, mode) {
        Ok(addr) => {
            let value = s.a | mem_at(s, addr);
            Ok(CpuState { a: value, flags: update_zn(s.flags, value), ..s })
        },
        Err(e) => Err(e),
    }
}

/// `EOR`: bitwise-xor the operand into the accumulator and update
/// Zero/Negative.
pub open spec fn spec_eor(s: CpuState, mode: AddressingMode) -> Result<CpuState, RunError> {
    match spec_operand_address(s, mode) {
        Ok(addr) => {
            let value = s.a ^ mem_at(s, addr);
            Ok(CpuState { a: value, flags: update_zn(s.flags, value), ..s })
        },
        Err(e) => Err(e),
    }
}

/// `BIT`: test the operand against the accumulator. Zero is set iff
/// `A & operand == 0`; Negative and Overflow copy bits 7 and 6 of the
/// operand.
pub open spec fn spec_bit(s: CpuState, mode: AddressingMode) -> Result<CpuState, RunError> {
    match spec_operand_address(s, mode) {
        Ok(addr) => {
            let value = mem_at(s, addr);
            let f1 = if s.a & value == 0 {
                s.flags | 0b0000_0010
            } else {
                s.flags & 0b1111_1101
            };
            let f2 = if value & 0b1000_0000 != 0 {
                f1 | 0b1000_0000
            } else {
                f1 & 0b0111_1111
            };
            let f3 = with_overflow(f2, value & 0b0100_0000 != 0);
            Ok(CpuState { flags: f3, ..s })
        },
        Err(e) => Err(e),
    }
}

/// A compare (`CMP`/`CPX`/`CPY`) of `register` against the operand:
/// Carry is set iff `register >= operand` (unsigned), Zero iff they are
/// equal, Negative from bit 7 of the wrapped difference. No register or
/// memory changes.
pub open spec fn spec_compare(s: CpuState, mode: AddressingMode, register: u8) -> Result<
    CpuState,
    RunError,
> {
    match spec_operand_address(s, mode) {
        Ok(addr) => {
            let value = mem_at(s, addr);
            let diff = u8_specs::wrapping_sub(register, value);
            let f1 = with_carry(s.flags, register >= value);
            Ok(CpuState { flags: update_zn(f1, diff), ..s })
        },
        Err(e) => Err(e),
    }
}

/// `INC`: add 1 to the operand byte with 8-bit wraparound, write it
/// back and update Zero/Negative.
pub open spec fn spec_inc(s: CpuState, mode: AddressingMode) -> Result<CpuState, RunError> {
    match spec_operand_address(s, mode) {
        Ok(addr) => {
            let value = u8_specs::wrapping_add(mem_at(s, addr), 1);
            Ok(CpuState { flags: update_zn(s.flags, value), ..with_mem(s, addr, value) })
        },
        Err(e) => Err(e),
    }
}

/// `DEC`: subtract 1 from the operand byte with 8-bit wraparound, write
/// it back and update Zero/Negative.
pub open spec fn spec_dec(s: CpuState, mode: AddressingMode) -> Result<CpuState, RunError> {
    match spec_operand_address(s, mode) {
        Ok(addr) => {
            let value = u8_specs::wrapping_sub(mem_at(s, addr), 1);
            Ok(CpuState { flags: update_zn(s.flags, value), ..with_mem(s, addr, value) })
        },
        Err(e) => Err(e),
    }
}

/// `INX`: X + 1 with wraparound, Zero/Negative from the result.
pub open spec fn spec_inx(s: CpuState) -> CpuState {
    let value = u8_specs::wrapping_add(s.x, 1);
    CpuState { x: value, flags: update_zn(s.flags, value), ..s }
}

/// `INY`: Y + 1 with wraparound, Zero/Negative from the result.
pub open spec fn spec_iny(s: CpuState) -> CpuState {
    let value = u8_specs::wrapping_add(s.y, 1);
    CpuState { y: value, flags: update_zn(s.flags, value), ..s }
}

/// `DEX`: X - 1 with wraparound, Zero/Negative from the result.
pub open spec fn spec_dex(s: CpuState) -> CpuState {
    let value = u8_specs::wrapping_sub(s.x, 1);
    CpuState { x: value, flags: update_zn(s.flags, value), ..s }
}

/// `DEY`: Y - 1 with wraparound, Zero/Negative from the result.
pub open spec fn spec_dey(s: CpuState) -> CpuState {
    let value = u8_specs::wrapping_sub(s.y, 1);
    CpuState { y: value, flags: update_zn(s.flags, value), ..s }
}

/// The shifted or rotated byte and the flag byte it leaves behind,
/// shared by the accumulator and memory forms. `ASL`/`ROL` shift left
/// and capture the outgoing bit 7 into Carry; `LSR`/`ROR` shift right
/// and capture the outgoing bit 0; the rotates insert the previous
/// Carry into the vacated bit. Zero/Negative follow the result.
pub open spec fn spec_asl_result(f: u8, value: u8) -> (u8, u8) {
    let new = value << 1;
    (new, update_zn(with_carry(f, (value >> 7) & 1 == 1), new))
}

/// See `spec_asl_result`.
pub open spec fn spec_lsr_result(f: u8, value: u8) -> (u8, u8) {
    let new = value >> 1;
    (new, update_zn(with_carry(f, value & 1 == 1), new))
}

/// See `spec_asl_result`.
pub open spec fn spec_rol_result(f: u8, value: u8) -> (u8, u8) {
    let new = (value << 1) | carry_bit(f);
    (new, update_zn(with_carry(f, (value >> 7) & 1 == 1), new))
}

/// See `spec_asl_result`.
pub open spec fn spec_ror_result(f: u8, value: u8) -> (u8, u8) {
    let new = if carry_bit(f) == 1 {
        (value >> 1) | 0b1000_0000
    } else {
        value >> 1
    };
    (new, update_zn(with_carry(f, value & 1 == 1), new))
}

/// A shift or rotate applied to the accumulator.
pub open spec fn spec_shift_acc(s: CpuState, shifted: (u8, u8)) -> CpuState {
    CpuState { a: shifted.0, flags: shifted.1, ..s }
}

/// A shift or rotate applied to the byte at `addr`, written back.
pub open spec fn spec_shift_mem(s: CpuState, addr: u16, shifted: (u8, u8)) -> CpuState {
    CpuState { flags: shifted.1, ..with_mem(s, addr, shifted.0) }
}

/// `ASL`: the accumulator form when the opcode byte is `0x0A`, else the
/// memory form at the resolved operand address. The second component is
/// the shifted byte, which the executable handler also returns.
pub open spec fn spec_asl(s: CpuState, op: OpCode) -> Result<(CpuState, u8), RunError> {
    if op.code == 0x0A {
        let shifted = spec_asl_result(s.flags, s.a);
        Ok((spec_shift_acc(s, shifted), shifted.0))
    } else {
        match spec_operand_address(s, op.mode) {
            Ok(addr) => {
                let shifted = spec_asl_result(s.flags, mem_at(s, addr));
                Ok((spec_shift_mem(s, addr, shifted), shifted.0))
            },
            Err(e) => Err(e),
        }
    }
}

/// `LSR`: the accumulator form when the opcode byte is `0x4A`, else the
/// memory form.
pub open spec fn spec_lsr(s: CpuState, op: OpCode) -> Result<(CpuState, u8), RunError> {
    if op.code == 0x4A {
        let shifted = spec_lsr_result(s.flags, s.a);
        Ok((spec_shift_acc(s, shifted), shifted.0))
    } else {
        match spec_operand_address(s, op.mode) {
            Ok(addr) => {
                let shifted = spec_lsr_result(s.flags, mem_at(s, addr));
                Ok((spec_shift_mem(s, addr, shifted), shifted.0))
            },
            Err(e) => Err(e),
        }
    }
}

/// `ROL`: the accumulator form when the opcode byte is `0x2A`, else the
/// memory form.
pub open spec fn spec_rol(s: CpuState, op: OpCode) -> Result<(CpuState, u8), RunError> {
    if op.code == 0x2A {
        let shifted = spec_rol_result(s.flags, s.a);
        Ok((spec_shift_acc(s, shifted), shifted.0))
    } else {
        match spec_operand_address(s, op.mode) {
            Ok(addr) => {
                let shifted = spec_rol_result(s.flags, mem_at(s, addr));
                Ok((spec_shift_mem(s, addr, shifted), shifted.0))
            },
            Err(e) => Err(e),
        }
    }
}

/// `ROR`: the accumulator form when the opcode byte is `0x6A`, else the
/// memory form.
pub open spec fn spec_ror(s: CpuState, op: OpCode) -> Result<(CpuState, u8), RunError> {
    if op.code == 0x6A {
        let shifted = spec_ror_result(s.flags, s.a);
        Ok((spec_shift_acc(s, shifted), shifted.0))
    } else {
        match spec_operand_address(s, op.mode) {
            Ok(addr) => {
                let shifted = spec_ror_result(s.flags, mem_at(s, addr));
                Ok((spec_shift_mem(s, addr, shifted), shifted.0))
            },
            Err(e) => Err(e),
        }
    }
}

/// The offset byte sign-extended to 16 bits, as branch targets add it.
pub open spec fn sign_extend(offset: u8) -> u16 {
    if offset < 0b1000_0000 {
        offset as u16
    } else {
        (offset as u16) | 0xFF00
    }
}

/// A conditional branch: the signed offset byte sits at the program
/// counter; when the condition holds the program counter moves by the
/// offset relative to the address just after the offset byte, otherwise
/// it falls through to that address.
pub open spec fn spec_branch(s: CpuState, taken: bool) -> CpuState {
    let offset = mem_at(s, s.pc);
    let fall_through = u16_specs::wrapping_add(s.pc, 1);
    if taken {
        CpuState { pc: u16_specs::wrapping_add(fall_through, sign_extend(offset)), ..s }
    } else {
        CpuState { pc: fall_through, ..s }
    }
}

/// `JMP`: set the program counter to the resolved operand address
/// (`Absolute` directly, `Indirect` through the buggy pointer
/// dereference of `spec_operand_address`).
pub open spec fn spec_jmp(s: CpuState, mode: AddressingMode) -> Result<CpuState, RunError> {
    match spec_operand_address(s, mode) {
        Ok(addr) => Ok(CpuState { pc: addr, ..s }),
        Err(e) => Err(e),
    }
}

/// One byte pushed: it is written at `0x0100 + sp`, then the pointer
/// steps down (wrapping inside the page).
pub open spec fn spec_push(s: CpuState, value: u8) -> CpuState {
    CpuState {
        sp: u8_specs::wrapping_sub(s.sp, 1),
        ..with_mem(s, (0x0100 + s.sp as u16) as u16, value)
    }
}

/// One byte popped: the pointer steps up (wrapping inside the page),
/// then the byte at `0x0100 + sp` is read.
pub open spec fn spec_pop(s: CpuState) -> (CpuState, u8) {
    let sp = u8_specs::wrapping_add(s.sp, 1);
    (CpuState { sp: sp, ..s }, mem_at(s, (0x0100 + sp as u16) as u16))
}

/// A 16-bit push: high byte first, then low byte, mirroring the chip's
/// push order, so that popping reconstructs the value.
pub open spec fn spec_push16(s: CpuState, value: u16) -> CpuState {
    spec_push(spec_push(s, (value >> 8) as u8), (value & 0x00FF) as u8)
}

/// A 16-bit pop: low byte first, then high byte.
pub open spec fn spec_pop16(s: CpuState) -> (CpuState, u16) {
    let (s1, lo) = spec_pop(s);
    let (s2, hi) = spec_pop(s1);
    (s2, (hi as u16) << 8 | lo as u16)
}

/// `PHA`: push the accumulator.
pub open spec fn spec_pha(s: CpuState) -> CpuState {
    spec_push(s, s.a)
}

/// `PHP`: push the flag byte with the two unused bits forced to 1, as
/// the hardware pushes them.
pub open spec fn spec_php(s: CpuState) -> CpuState {
    spec_push(s, s.flags | 0b0011_0000)
}

/// `PLA`: pop into the accumulator and update Zero/Negative.
pub open spec fn spec_pla(s: CpuState) -> CpuState {
    let (s1, value) = spec_pop(s);
    CpuState { a: value, flags: update_zn(s1.flags, value), ..s1 }
}

/// `PLP`: pop into the flag byte; the two unused bits stay at 1.
pub open spec fn spec_plp(s: CpuState) -> CpuState {
    let (s1, value) = spec_pop(s);
    CpuState { flags: value | 0b0011_0000, ..s1 }
}

/// `JSR`: push the address of the last byte of the 3-byte instruction
/// (the return address minus 1, per 6502 convention) and jump to the
/// absolute target. The target is read before the pushes, as the
/// hardware reads it.
pub open spec fn spec_jsr(s: CpuState) -> CpuState {
    let target = mem16_at(s, s.pc);
    let s1 = spec_push16(s, u16_specs::wrapping_add(s.pc, 1));
    CpuState { pc: target, ..s1 }
}

/// `RTS`: pop the return address and continue one byte after it.
pub open spec fn spec_rts(s: CpuState) -> CpuState {
    let (s1, value) = spec_pop16(s);
    CpuState { pc: u16_specs::wrapping_add(value, 1), ..s1 }
}

/// `RTI`: pop the flag byte (unused bits stay at 1), then pop the
/// program counter exactly as it was pushed.
pub open spec fn spec_rti(s: CpuState) -> CpuState {
    let (s1, f) = spec_pop(s);
    let (s2, value) = spec_pop16(s1);
    CpuState { flags: f | 0b0011_0000, pc: value, ..s2 }
}

/// `TAX`: copy A into X and update Zero/Negative.
pub open spec fn spec_tax(s: CpuState) -> CpuState {
    CpuState { x: s.a, flags: update_zn(s.flags, s.a), ..s }
}

/// `TAY`: copy A into Y and update Zero/Negative.
pub open spec fn spec_tay(s: CpuState) -> CpuState {
    CpuState { y: s.a, flags: update_zn(s.flags, s.a), ..s }
}

/// `TXA`: copy X into A and update Zero/Negative.
pub open spec fn spec_txa(s: CpuState) -> CpuState {
    CpuState { a: s.x, flags: update_zn(s.flags, s.x), ..s }
}

/// `TYA`: copy Y into A and update Zero/Negative.
pub open spec fn spec_tya(s: CpuState) -> CpuState {
    CpuState { a: s.y, flags: update_zn(s.flags, s.y), ..s }
}

/// `TSX`: copy the stack pointer into X and update Zero/Negative.
pub open spec fn spec_tsx(s: CpuState) -> CpuState {
    CpuState { x: s.sp, flags: update_zn(s.flags, s.sp), ..s }
}

/// `TXS`: copy X into the stack pointer; the only transfer with no flag
/// effect.
pub open spec fn spec_txs(s: CpuState) -> CpuState {
    CpuState { sp: s.x, ..s }
}

/// The program counter moved past the operand bytes already consumed:
/// one byte of the encoded length was taken by the opcode fetch.
pub open spec fn spec_advance(s: CpuState, op_len: u8) -> CpuState {
    CpuState {
        pc: u16_specs::wrapping_add(s.pc, u8_specs::wrapping_sub(op_len, 1) as u16),
        ..s
    }
}

/// The outcome of one instruction step: the machine continues in a new
/// state, halts at `BRK`, or stops at a fatal fault.
pub enum Step {
    Next(CpuState),
    Halt(CpuState),
    Fault(RunError, CpuState),
}

/// Folds an instruction transition into a step outcome, advancing the
/// program counter past the operand bytes; `s1` is the state a fault
/// leaves behind.
pub open spec fn step_of(r: Result<CpuState, RunError>, op: OpCode, s1: CpuState) -> Step {
    match r {
        Ok(s2) => Step::Next(spec_advance(s2, op.len)),
        Err(e) => Step::Fault(e, s1),
    }
}

/// Folds a shift or rotate transition into a step outcome; the shifted
/// byte does not affect the step.
pub open spec fn step_of_shift(r: Result<(CpuState, u8), RunError>, op: OpCode, s1: CpuState) -> Step {
    match r {
        Ok(pair) => Step::Next(spec_advance(pair.0, op.len)),
        Err(e) => Step::Fault(e, s1),
    }
}

/// Folds a control-flow transition into a step outcome: the instruction
/// set the program counter itself, so nothing is added.
pub open spec fn step_of_jump(r: Result<CpuState, RunError>, s1: CpuState) -> Step {
    match r {
        Ok(s2) => Step::Next(s2),
        Err(e) => Step::Fault(e, s1),
    }
}

/// One full instruction step from `s`: fetch the opcode byte at the
/// program counter, advance past it, decode it against the canonical
/// table, execute the instruction's transition, and advance past its
/// operand bytes unless the instruction redirected control flow
/// itself. `BRK` halts; an unknown opcode byte is a fatal decode
/// fault.
pub open spec fn spec_step(s: CpuState) -> Step {
    let code = mem_at(s, s.pc);
    let s1 = CpuState { pc: u16_specs::wrapping_add(s.pc, 1), ..s };
    match opcode_spec(code) {
        None => Step::Fault(RunError::UnknownOpcode { code, address: s.pc }, s1),
        Some(op) => match op.mnemonic {
            Mnemonic::BRK => Step::Halt(s1),
            Mnemonic::ADC => step_of(spec_adc(s1, op.mode), op, s1),
            Mnemonic::SBC => step_of(spec_sbc(s1, op.mode), op, s1),
            Mnemonic::AND => step_of(spec_and(s1, op.mode), op, s1),
            Mnemonic::ORA => step_of(spec_ora(s1, op.mode), op, s1),
            Mnemonic::EOR => step_of(spec_eor(s1, op.mode), op, s1),
            Mnemonic::BIT => step_of(spec_bit(s1, op.mode), op, s1),
            Mnemonic::LDA => step_of(spec_lda(s1, op.mode), op, s1),
            Mnemonic::LDX => step_of(spec_ldx(s1, op.mode), op, s1),
            Mnemonic::LDY => step_of(spec_ldy(s1, op.mode), op, s1),
            Mnemonic::STA => step_of(spec_sta(s1, op.mode), op, s1),
            Mnemonic::STX => step_of(spec_stx(s1, op.mode), op, s1),
            Mnemonic::STY => step_of(spec_sty(s1, op.mode), op, s1),
            Mnemonic::CMP => step_of(spec_compare(s1, op.mode, s1.a), op, s1),
            Mnemonic::CPX => step_of(spec_compare(s1, op.mode, s1.x), op, s1),
            Mnemonic::CPY => step_of(spec_compare(s1, op.mode, s1.y), op, s1),
            Mnemonic::INC => step_of(spec_inc(s1, op.mode), op, s1),
            Mnemonic::DEC => step_of(spec_dec(s1, op.mode), op, s1),
            Mnemonic::INX => Step::Next(spec_advance(spec_inx(s1), op.len)),
            Mnemonic::INY => Step::Next(spec_advance(spec_iny(s1), op.len)),
            Mnemonic::DEX => Step::Next(spec_advance(spec_dex(s1), op.len)),
            Mnemonic::DEY => Step::Next(spec_advance(spec_dey(s1), op.len)),
            Mnemonic::ASL => step_of_shift(spec_asl(s1, op), op, s1),
            Mnemonic::LSR => step_of_shift(spec_lsr(s1, op), op, s1),
            Mnemonic::ROL => step_of_shift(spec_rol(s1, op), op, s1),
            Mnemonic::ROR => step_of_shift(spec_ror(s1, op), op, s1),
            Mnemonic::BCC => Step::Next(spec_branch(s1, carry_bit(s1.flags) == 0)),
            Mnemonic::BCS => Step::Next(spec_branch(s1, carry_bit(s1.flags) == 1)),
            Mnemonic::BNE => Step::Next(spec_branch(s1, zero_bit(s1.flags) == 0)),
            Mnemonic::BEQ => Step::Next(spec_branch(s1, zero_bit(s1.flags) == 1)),
            Mnemonic::BPL => Step::Next(spec_branch(s1, negative_bit(s1.flags) == 0)),
            Mnemonic::BMI => Step::Next(spec_branch(s1, negative_bit(s1.flags) == 1)),
            Mnemonic::BVC => Step::Next(spec_branch(s1, overflow_bit(s1.flags) == 0)),
            Mnemonic::BVS => Step::Next(spec_branch(s1, overflow_bit(s1.flags) == 1)),
            Mnemonic::JMP => step_of_jump(spec_jmp(s1, op.mode), s1),
            Mnemonic::JSR => Step::Next(spec_jsr(s1)),
            Mnemonic::RTS => Step::Next(spec_rts(s1)),
            Mnemonic::RTI => Step::Next(spec_rti(s1)),
            Mnemonic::PHA => Step::Next(spec_advance(spec_pha(s1), op.len)),
            Mnemonic::PHP => Step::Next(spec_advance(spec_php(s1), op.len)),
            Mnemonic::PLA => Step::Next(spec_advance(spec_pla(s1), op.len)),
            Mnemonic::PLP => Step::Next(spec_advance(spec_plp(s1), op.len)),
            Mnemonic::TAX => Step::Next(spec_advance(spec_tax(s1), op.len)),
            Mnemonic::TAY => Step::Next(spec_advance(spec_tay(s1), op.len)),
            Mnemonic::TXA => Step::Next(spec_advance(spec_txa(s1), op.len)),
            Mnemonic::TYA => Step::Next(spec_advance(spec_tya(s1), op.len)),
            Mnemonic::TSX => Step::Next(spec_advance(spec_tsx(s1), op.len)),
            Mnemonic::TXS => Step::Next(spec_advance(spec_txs(s1), op.len)),
            Mnemonic::SEC => Step::Next(
                spec_advance(CpuState { flags: s1.flags | 0b0000_0001, ..s1 }, op.len),
            ),
            Mnemonic::SED => Step::Next(
                spec_advance(CpuState { flags: s1.flags | 0b0000_1000, ..s1 }, op.len),
            ),
            Mnemonic::SEI => Step::Next(
                spec_advance(CpuState { flags: s1.flags | 0b0000_0100, ..s1 }, op.len),
            ),
            Mnemonic::CLC => Step::Next(
                spec_advance(CpuState { flags: s1.flags & 0b1111_1110, ..s1 }, op.len),
            ),
            Mnemonic::CLD => Step::Next(
                spec_advance(CpuState { flags: s1.flags & 0b1111_0111, ..s1 }, op.len),
            ),
            Mnemonic::CLI => Step::Next(
                spec_advance(CpuState { flags: s1.flags & 0b1111_1011, ..s1 }, op.len),
            ),
            Mnemonic::CLV => Step::Next(
                spec_advance(CpuState { flags: s1.flags & 0b1011_1111, ..s1 }, op.len),
            ),
            Mnemonic::NOP => Step::Next(spec_advance(s1, op.len)),
        },
    }
}

/// The state after `n` successful instruction steps from `s0`, or
/// `None` if the machine halted or faulted strictly earlier.
pub open spec fn runs_to(s0: CpuState, n: nat) -> Option<CpuState>
    decreases n,
{
    if n == 0 {
        Some(s0)
    } else {
        match runs_to(s0, (n - 1) as nat) {
            Some(t) => match spec_step(t) {
                Step::Next(u) => Some(u),
                _ => None,
            },
            None => None,
        }
    }
}

/// Some number of instruction steps from `s0` reaches a state whose
/// next instruction is `BRK`, leaving the machine in `sf`.
pub open spec fn halts_to(s0: CpuState, sf: CpuState) -> bool {
    exists|n: nat, t: CpuState|
        #![trigger runs_to(s0, n), spec_step(t)]
        runs_to(s0, n) == Some(t) && spec_step(t) == Step::Halt(sf)
}

/// Some number of instruction steps from `s0` reaches a state whose
/// next instruction faults with `e`, leaving the machine in `sf`.
pub open spec fn faults_to(s0: CpuState, e: RunError, sf: CpuState) -> bool {
    exists|n: nat, t: CpuState|
        #![trigger runs_to(s0, n), spec_step(t)]
        runs_to(s0, n) == Some(t) && spec_step(t) == Step::Fault(e, sf)
}

/// `load` seen on the model: the program image overwrites memory from
/// `0x8000`, and the reset vector at `0xFFFC`/`0xFFFD` is pointed at
/// `0x8000`.
pub open spec fn spec_load(s: CpuState, program: Seq<u8>) -> CpuState {
    let loaded = Seq::new(
        s.mem.len(),
        |i: int|
            if 0x8000 <= i < 0x8000 + program.len() {
                program[i - 0x8000]
            } else {
                s.mem[i]
            },
    );
    CpuState { mem: loaded.update(0xFFFC, 0x00u8).update(0xFFFD, 0x80u8), ..s }
}

/// `reset` seen on the model: registers zeroed, flags back to the
/// construction value, the stack pointer back at the top of the page,
/// and the program counter loaded from the reset vector.
pub open spec fn spec_reset(s: CpuState) -> CpuState {
    CpuState {
        a: 0,
        x: 0,
        y: 0,
        flags: 0b0011_0000,
        sp: 0xFF,
        pc: mem16_at(s, 0xFFFC),
        ..s
    }
}


/// One push followed by one pop is the identity on the pointer and on
/// every register, returns the pushed byte, and changes memory only in
/// the slot the push wrote — at every starting pointer, including the
/// wraparound at the page boundary.
pub proof fn lemma_stack_push_pop(s: CpuState, value: u8)
    requires
        state_wf(s),
    ensures
        spec_pop(spec_push(s, value)).1 == value,
        spec_pop(spec_push(s, value)).0 == with_mem(s, (0x0100 + s.sp as u16) as u16, value),
        spec_pop(spec_push(s, value)).0.sp == s.sp,
{
    assert(spec_pop(spec_push(s, value)).0 =~= with_mem(s, (0x0100 + s.sp as u16) as u16, value));
}

/// `JSR target` followed directly by `RTS` returns the program counter
/// to the instruction immediately after the 3-byte `JSR`, restores the
/// stack pointer, and touches no register. Both states are taken after
/// the opcode fetch, so the instruction after the `JSR` sits two bytes
/// past the program counter the `JSR` transition sees.
pub proof fn lemma_jsr_rts_round_trip(s: CpuState)
    requires
        state_wf(s),
    ensures
        spec_rts(spec_jsr(s)).pc == u16_specs::wrapping_add(s.pc, 2),
        spec_rts(spec_jsr(s)).sp == s.sp,
        spec_rts(spec_jsr(s)).a == s.a,
        spec_rts(spec_jsr(s)).x == s.x,
        spec_rts(spec_jsr(s)).y == s.y,
        spec_rts(spec_jsr(s)).flags == s.flags,
{
    let pushed = u16_specs::wrapping_add(s.pc, 1);
    let hi = (pushed >> 8) as u8;
    let lo = (pushed & 0x00FF) as u8;
    assert(((pushed >> 8) as u8 as u16) << 8 | ((pushed & 0x00FF) as u8 as u16) == pushed)
        by (bit_vector);
    let t = spec_jsr(s);
    assert(spec_pop16(t).1 == pushed);
}


/// `a` brought back into the 8-bit range; meaningful for
/// `-256 <= a < 512`, which covers every pointer offset the stack
/// lemmas form.
pub open spec fn wrap256(a: int) -> int {
    if a >= 256 {
        a - 256
    } else if a < 0 {
        a + 256
    } else {
        a
    }
}

/// The state after pushing every byte of `bytes`, first byte first.
pub open spec fn spec_push_all(s: CpuState, bytes: Seq<u8>) -> CpuState
    decreases bytes.len(),
{
    if bytes.len() == 0 {
        s
    } else {
        spec_push_all(spec_push(s, bytes.first()), bytes.drop_first())
    }
}

/// The state after `n` pops, paired with the popped bytes in pop
/// order.
pub open spec fn spec_pop_all(s: CpuState, n: nat) -> (CpuState, Seq<u8>)
    decreases n,
{
    if n == 0 {
        (s, Seq::empty())
    } else {
        let (s1, value) = spec_pop(s);
        let (s2, rest) = spec_pop_all(s1, (n - 1) as nat);
        (s2, seq![value] + rest)
    }
}

/// Popping `n + 1` times is popping `n` times and then once more.
proof fn lemma_pop_all_snoc(s: CpuState, n: nat)
    ensures
        spec_pop_all(s, n + 1).0 == spec_pop(spec_pop_all(s, n).0).0,
        spec_pop_all(s, n + 1).1 == spec_pop_all(s, n).1.push(spec_pop(spec_pop_all(s, n).0).1),
    decreases n,
{
    reveal_with_fuel(spec_pop_all, 3);
    let (s1, value) = spec_pop(s);
    if n == 0 {
        assert(spec_pop_all(s, 1).1 =~= spec_pop_all(s, 0).1.push(spec_pop(spec_pop_all(s, 0).0).1));
    } else {
        lemma_pop_all_snoc(s1, (n - 1) as nat);
        assert(spec_pop_all(s, n + 1).1 =~= spec_pop_all(s, n).1.push(
            spec_pop(spec_pop_all(s, n).0).1,
        ));
    }
}

/// Pops change no memory and no register, step the pointer up by one
/// slot each, and return one byte each.
proof fn lemma_pop_all_frame(s: CpuState, n: nat)
    requires
        n <= 256,
    ensures
        spec_pop_all(s, n).0.mem == s.mem,
        spec_pop_all(s, n).0.a == s.a,
        spec_pop_all(s, n).0.x == s.x,
        spec_pop_all(s, n).0.y == s.y,
        spec_pop_all(s, n).0.pc == s.pc,
        spec_pop_all(s, n).0.flags == s.flags,
        spec_pop_all(s, n).0.sp as int == wrap256(s.sp + n),
        spec_pop_all(s, n).1.len() == n,
    decreases n,
{
    if n != 0 {
        let (s1, value) = spec_pop(s);
        lemma_pop_all_frame(s1, (n - 1) as nat);
    }
}

/// Pushes write only the `bytes.len()` slots below the starting
/// pointer: byte `i` lands at `0x0100 + wrap256(sp - i)`, every other
/// address keeps its byte, the pointer ends `bytes.len()` slots lower,
/// and no register changes.
proof fn lemma_push_all_layout(s: CpuState, bytes: Seq<u8>)
    requires
        state_wf(s),
        bytes.len() <= 256,
    ensures
        state_wf(spec_push_all(s, bytes)),
        spec_push_all(s, bytes).a == s.a,
        spec_push_all(s, bytes).x == s.x,
        spec_push_all(s, bytes).y == s.y,
        spec_push_all(s, bytes).pc == s.pc,
        spec_push_all(s, bytes).flags == s.flags,
        spec_push_all(s, bytes).sp as int == wrap256(s.sp - bytes.len()),
        forall|i: int|
            0 <= i < bytes.len() ==> spec_push_all(s, bytes).mem[0x0100 + wrap256(s.sp - i)]
                == bytes[i],
        forall|j: int|
            0 <= j < 0x10000 && (forall|i: int|
                0 <= i < bytes.len() ==> j != 0x0100 + #[trigger] wrap256(s.sp - i))
                ==> spec_push_all(s, bytes).mem[j] == s.mem[j],
    decreases bytes.len(),
{
    if bytes.len() != 0 {
        let b0 = bytes.first();
        let rest = bytes.drop_first();
        let s1 = spec_push(s, b0);
        lemma_push_all_layout(s1, rest);
        let t = spec_push_all(s, bytes);
        assert(t == spec_push_all(s1, rest));
        assert(s1.sp as int == wrap256(s.sp - 1));
        assert(s1.mem == s.mem.update(0x0100 + s.sp as int, b0));
        assert(wrap256(s1.sp - rest.len()) == wrap256(s.sp - bytes.len()));
        assert forall|i: int| 0 <= i < bytes.len() implies t.mem[0x0100 + wrap256(s.sp - i)]
            == bytes[i] by {
            if i == 0 {
                assert forall|k: int| 0 <= k < rest.len() implies 0x0100 + wrap256(s.sp as int)
                    != 0x0100 + #[trigger] wrap256(s1.sp - k) by {
                    assert(wrap256(s1.sp - k) == wrap256(s.sp - (k + 1)));
                }
                assert(t.mem[0x0100 + wrap256(s.sp as int)] == s1.mem[0x0100 + wrap256(
                    s.sp as int,
                )]);
                assert(wrap256(s.sp as int) == s.sp as int);
                assert(s1.mem[0x0100 + s.sp as int] == b0);
            } else {
                assert(wrap256(s1.sp - (i - 1)) == wrap256(s.sp - i));
                assert(t.mem[0x0100 + wrap256(s1.sp - (i - 1))] == rest[i - 1]);
                assert(rest[i - 1] == bytes[i]);
            }
        }
        assert forall|j: int|
            0 <= j < 0x10000 && (forall|i: int|
                0 <= i < bytes.len() ==> j != 0x0100 + #[trigger] wrap256(s.sp - i)) implies
            t.mem[j] == s.mem[j] by {
            assert(j != 0x0100 + wrap256(s.sp - 0));
            assert forall|k: int| 0 <= k < rest.len() implies j != 0x0100 + #[trigger] wrap256(
                s1.sp - k,
            ) by {
                assert(wrap256(s1.sp - k) == wrap256(s.sp - (k + 1)));
                assert(j != 0x0100 + wrap256(s.sp - (k + 1)));
            }
            assert(t.mem[j] == s1.mem[j]);
            assert(s1.mem[j] == s.mem[j]);
        }
    }
}

/// The stack is LIFO at every starting pointer, wraparound at the page
/// boundary included: pushing up to 256 bytes and then popping as many
/// returns the same bytes in reverse order, restores the pointer, and
/// leaves memory exactly as the pushes wrote it.
pub proof fn lemma_stack_lifo(s: CpuState, bytes: Seq<u8>)
    requires
        state_wf(s),
        bytes.len() <= 256,
    ensures
        spec_pop_all(spec_push_all(s, bytes), bytes.len()).1 == bytes.reverse(),
        spec_pop_all(spec_push_all(s, bytes), bytes.len()).0.sp == s.sp,
        spec_pop_all(spec_push_all(s, bytes), bytes.len()).0.mem == spec_push_all(s, bytes).mem,
    decreases bytes.len(),
{
    let t = spec_push_all(s, bytes);
    if bytes.len() == 0 {
        assert(spec_pop_all(t, 0).1 =~= bytes.reverse());
    } else {
        let len = bytes.len() as int;
        let s1 = spec_push(s, bytes.first());
        lemma_stack_lifo(s1, bytes.drop_first());
        lemma_pop_all_snoc(t, (len - 1) as nat);
        lemma_pop_all_frame(t, (len - 1) as nat);
        lemma_push_all_layout(s, bytes);
        let w = spec_pop_all(t, (len - 1) as nat).0;
        assert(w.sp == s1.sp && w.mem == t.mem);
        assert(wrap256(s.sp as int) == s.sp as int);
        assert(spec_pop(w).1 == t.mem[0x0100 + s.sp]);
        assert(spec_pop(w).1 == bytes[0]);
        assert(spec_pop_all(t, len as nat).1 =~= bytes.reverse());
    }
}


/// The increment and decrement instructions wrap at the 8-bit
/// boundary: decrementing 0 gives 255 and incrementing 255 gives 0,
/// for the X and Y registers and for a memory operand alike.
pub proof fn lemma_increment_decrement_wraparound(s: CpuState, value: u8)
    ensures
        s.x == 0 ==> spec_dex(s).x == 255,
        s.x == 255 ==> spec_inx(s).x == 0,
        s.y == 0 ==> spec_dey(s).y == 255,
        s.y == 255 ==> spec_iny(s).y == 0,
        value == 0 ==> u8_specs::wrapping_sub(value, 1) == 255,
        value == 255 ==> u8_specs::wrapping_add(value, 1) == 0,
{
}

/// After a `load`, a `reset` always starts the program counter at
/// `0x8000`: the load wrote the reset vector and the reset reads it.
pub proof fn lemma_reset_after_load(s: CpuState, program: Seq<u8>)
    requires
        state_wf(s),
        program.len() <= 0x7FFF,
    ensures
        spec_reset(spec_load(s, program)).pc == 0x8000,
{
    let t = spec_load(s, program);
    assert(mem_at(t, 0xFFFC) == 0x00);
    assert(mem_at(t, 0xFFFD) == 0x80);
    assert((0x80u8 as u16) << 8 | (0x00u8 as u16) == 0x8000) by (bit_vector);
}


/// Every flag mask an instruction applies keeps the unused bits set.
proof fn lemma_flag_masks_keep_unused_bits()
    by (bit_vector)
    ensures
        forall|f: u8| unused_bits_set(f) ==> unused_bits_set(#[trigger] (f | 0b0000_0001)),
        forall|f: u8| unused_bits_set(f) ==> unused_bits_set(#[trigger] (f | 0b0000_0010)),
        forall|f: u8| unused_bits_set(f) ==> unused_bits_set(#[trigger] (f | 0b0000_0100)),
        forall|f: u8| unused_bits_set(f) ==> unused_bits_set(#[trigger] (f | 0b0000_1000)),
        forall|f: u8| unused_bits_set(f) ==> unused_bits_set(#[trigger] (f | 0b0100_0000)),
        forall|f: u8| unused_bits_set(f) ==> unused_bits_set(#[trigger] (f | 0b1000_0000)),
        forall|f: u8| unused_bits_set(#[trigger] (f | 0b0011_0000)),
        forall|f: u8| unused_bits_set(f) ==> unused_bits_set(#[trigger] (f & 0b1111_1110)),
        forall|f: u8| unused_bits_set(f) ==> unused_bits_set(#[trigger] (f & 0b1111_1101)),
        forall|f: u8| unused_bits_set(f) ==> unused_bits_set(#[trigger] (f & 0b1111_1011)),
        forall|f: u8| unused_bits_set(f) ==> unused_bits_set(#[trigger] (f & 0b1111_0111)),
        forall|f: u8| unused_bits_set(f) ==> unused_bits_set(#[trigger] (f & 0b1011_1111)),
        forall|f: u8| unused_bits_set(f) ==> unused_bits_set(#[trigger] (f & 0b0111_1111)),
{
}

/// No instruction clears the unused status bits: one step from a state
/// whose flag byte has bits 4 and 5 set leaves them set, whether the
/// step continues, halts or faults.
pub proof fn lemma_step_keeps_unused_bits(s: CpuState)
    requires
        unused_bits_set(s.flags),
    ensures
        match spec_step(s) {
            Step::Next(u) => unused_bits_set(u.flags),
            Step::Halt(u) => unused_bits_set(u.flags),
            Step::Fault(e, u) => unused_bits_set(u.flags),
        },
{
    lemma_flag_masks_keep_unused_bits();
}

/// The unused status bits stay set along every run: however many
/// steps the machine takes, the flag byte keeps bits 4 and 5.
pub proof fn lemma_run_keeps_unused_bits(s0: CpuState, n: nat)
    requires
        unused_bits_set(s0.flags),
    ensures
        match runs_to(s0, n) {
            Some(t) => unused_bits_set(t.flags),
            None => true,
        },
    decreases n,
{
    if n > 0 {
        lemma_run_keeps_unused_bits(s0, (n - 1) as nat);
        match runs_to(s0, (n - 1) as nat) {
            Some(t) => {
                lemma_step_keeps_unused_bits(t);
            },
            None => {},
        }
    }
}

} // verus!
