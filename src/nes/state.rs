//! The mathematical model of the CPU: its state, and what one clock cycle does to it.
use vstd::prelude::*;
use super::alu::{
    adc_result, adc_status, asl_result, asl_status, bit_status, compare_status, lsr_result,
    lsr_status, rol_result, rol_status, ror_result, ror_status, sbc_result, sbc_status, with_flag,
    zn,
    FLAG_BREAK, FLAG_CARRY, FLAG_DECIMAL, FLAG_INTERRUPT, FLAG_OVERFLOW,
};
use super::decode::decode_spec;
use super::ops::MicroOp;

verus! {

pub const STACK_BOTTOM: u16 = 0x0100;
pub const PC_INIT_LOCATION: u16 = 0xFFFC;
pub const INTERRUPT_VEC_LOW: u16 = 0xFFFE;
pub const INTERRUPT_VEC_HIGH: u16 = 0xFFFF;
pub const MEMORY_SIZE: usize = 0x10000;

/// Everything the interpreter holds, as plain values.
pub struct CpuState {
    pub a: u8,
    pub x: u8,
    pub y: u8,
    pub pc: u16,
    pub sp: u8,
    pub p: u8,
    pub mem: Seq<u8>,
    /// The micro-operations still to run for the current instruction, front first.
    pub queue: Seq<MicroOp>,
    pub temp_addr: u16,
    pub temp_val: u8,
    pub temp_ptr: u16,
    pub page_crossed: bool,
    pub opcode: u8,
    pub running: bool,
    pub debug: bool,
}

pub open spec fn lo8(w: u16) -> u8 {
    (w % 256) as u8
}

pub open spec fn hi8(w: u16) -> u8 {
    (w / 256) as u8
}

/// The little-endian word of two bytes.
pub open spec fn word(lo: u8, hi: u8) -> u16 {
    (lo + 256 * hi) as u16
}

/// `w + d`, wrapping in 16 bits.
pub open spec fn add16(w: u16, d: int) -> u16 {
    ((w + d) % 0x10000) as u16
}

/// `b + d`, wrapping in 8 bits.
pub open spec fn add8(b: u8, d: int) -> u8 {
    ((b + d) % 256) as u8
}

/// The branch offset byte read as a two's-complement number.
pub open spec fn sign_extend(off: u8) -> int {
    if off >= 0x80 {
        off - 256
    } else {
        off as int
    }
}

pub open spec fn stack_addr(sp: u8) -> u16 {
    (0x100 + sp) as u16
}

/// The zero-page address after `ptr`: the increment wraps within page zero.
pub open spec fn zp_next(ptr: u16) -> u16 {
    add8(lo8(ptr), 1) as u16
}

pub open spec fn read_byte(s: CpuState, addr: u16) -> u8 {
    s.mem[addr as int]
}

pub open spec fn write_byte(s: CpuState, addr: u16, v: u8) -> CpuState {
    CpuState { mem: s.mem.update(addr as int, v), ..s }
}

pub open spec fn advance_pc(s: CpuState) -> CpuState {
    CpuState { pc: add16(s.pc, 1), ..s }
}

pub open spec fn push(s: CpuState, v: u8) -> CpuState {
    CpuState { sp: add8(s.sp, -1), ..write_byte(s, stack_addr(s.sp), v) }
}

pub open spec fn pulled(s: CpuState) -> u8 {
    read_byte(s, stack_addr(s.sp))
}

/// The queue after an index crossed a page (or not): a dummy cycle goes in
/// front unless one is already next.
pub open spec fn penalty(q: Seq<MicroOp>, crossed: bool) -> Seq<MicroOp> {
    if crossed && !(q.len() > 0 && q[0] == MicroOp::DummyCycle) {
        seq![MicroOp::DummyCycle] + q
    } else {
        q
    }
}

/// Adds `index` to the address whose low byte is in the latch and whose high
/// byte is `hi`, charging the penalty when the page changes.
pub open spec fn indexed(s: CpuState, hi: u8, index: u8) -> CpuState {
    let base = word(lo8(s.temp_addr), hi);
    let target = add16(base, index as int);
    CpuState {
        temp_addr: target,
        page_crossed: false,
        queue: penalty(s.queue, hi8(base) != hi8(target)),
        ..s
    }
}

/// What an instruction that consumes the operand `v` does with it.
pub open spec fn operand_effect(s: CpuState, kind: MicroOp, v: u8) -> CpuState {
    match kind {
        MicroOp::LoadAccumulator => CpuState { a: v, p: zn(s.p, v), ..s },
        MicroOp::LoadX => CpuState { x: v, p: zn(s.p, v), ..s },
        MicroOp::LoadY => CpuState { y: v, p: zn(s.p, v), ..s },
        MicroOp::LogicalAnd => CpuState { a: s.a & v, p: zn(s.p, s.a & v), ..s },
        MicroOp::ExclusiveOr => CpuState { a: s.a ^ v, p: zn(s.p, s.a ^ v), ..s },
        MicroOp::InclusiveOr => CpuState { a: s.a | v, p: zn(s.p, s.a | v), ..s },
        MicroOp::AddWithCarry => CpuState {
            a: adc_result(s.a, v, s.p),
            p: adc_status(s.a, v, s.p),
            ..s
        },
        MicroOp::SubWithCarry => CpuState {
            a: sbc_result(s.a, v, s.p),
            p: sbc_status(s.a, v, s.p),
            ..s
        },
        MicroOp::Compare => CpuState { p: compare_status(s.a, v, s.p), ..s },
        MicroOp::CompareX => CpuState { p: compare_status(s.x, v, s.p), ..s },
        MicroOp::CompareY => CpuState { p: compare_status(s.y, v, s.p), ..s },
        _ => s,
    }
}

pub open spec fn shift_result(kind: MicroOp, v: u8, p: u8) -> u8 {
    match kind {
        MicroOp::ArithmeticShiftLeft => asl_result(v),
        MicroOp::LogicalShiftRight => lsr_result(v),
        MicroOp::RotateLeft => rol_result(v, p),
        _ => ror_result(v, p),
    }
}

pub open spec fn shift_status(kind: MicroOp, v: u8, p: u8) -> u8 {
    match kind {
        MicroOp::ArithmeticShiftLeft => asl_status(v, p),
        MicroOp::LogicalShiftRight => lsr_status(v, p),
        MicroOp::RotateLeft => rol_status(v, p),
        _ => ror_status(v, p),
    }
}

/// The modify cycle of a read-modify-write shift: the value read is written
/// back unchanged while the shifted value is computed into the latch.
pub open spec fn shift_memory(s: CpuState, kind: MicroOp) -> CpuState {
    CpuState {
        temp_val: shift_result(kind, s.temp_val, s.p),
        p: shift_status(kind, s.temp_val, s.p),
        ..write_byte(s, s.temp_addr, s.temp_val)
    }
}

pub open spec fn set_status(s: CpuState, mask: u8, on: bool) -> CpuState {
    CpuState { p: with_flag(s.p, mask, on), ..s }
}

/// What micro-operation `op` does to `s`, whose queue no longer holds `op`.
pub open spec fn exec_op(s: CpuState, op: MicroOp) -> CpuState {
    match op {
        MicroOp::Empty | MicroOp::DummyCycle => s,
        MicroOp::TakeBranch(off) => {
            let target = add16(s.pc, sign_extend(off));
            CpuState {
                pc: target,
                page_crossed: false,
                queue: if hi8(s.pc) != hi8(target) {
                    s.queue.push(MicroOp::DummyCycle)
                } else {
                    s.queue
                },
                ..s
            }
        },
        MicroOp::LoadAccumulator | MicroOp::LoadX | MicroOp::LoadY | MicroOp::LogicalAnd
        | MicroOp::ExclusiveOr | MicroOp::InclusiveOr | MicroOp::AddWithCarry
        | MicroOp::SubWithCarry | MicroOp::Compare | MicroOp::CompareX | MicroOp::CompareY => {
            operand_effect(advance_pc(s), op, read_byte(s, s.pc))
        },
        MicroOp::LoadAccumulatorFromAddress => operand_effect(
            s,
            MicroOp::LoadAccumulator,
            read_byte(s, s.temp_addr),
        ),
        MicroOp::LoadXfromAddress => operand_effect(s, MicroOp::LoadX, read_byte(s, s.temp_addr)),
        MicroOp::LoadYfromAddress => operand_effect(s, MicroOp::LoadY, read_byte(s, s.temp_addr)),
        MicroOp::LogicalAndAddress => operand_effect(
            s,
            MicroOp::LogicalAnd,
            read_byte(s, s.temp_addr),
        ),
        MicroOp::ExclusiveOrAddress => operand_effect(
            s,
            MicroOp::ExclusiveOr,
            read_byte(s, s.temp_addr),
        ),
        MicroOp::InclusiveOrAddress => operand_effect(
            s,
            MicroOp::InclusiveOr,
            read_byte(s, s.temp_addr),
        ),
        MicroOp::AddWithCarryAddress => operand_effect(
            s,
            MicroOp::AddWithCarry,
            read_byte(s, s.temp_addr),
        ),
        MicroOp::SubWithCarryAddress => operand_effect(
            s,
            MicroOp::SubWithCarry,
            read_byte(s, s.temp_addr),
        ),
        MicroOp::CompareAddress => operand_effect(s, MicroOp::Compare, read_byte(s, s.temp_addr)),
        MicroOp::CompareXAddress => operand_effect(s, MicroOp::CompareX, read_byte(s, s.temp_addr)),
        MicroOp::CompareYAddress => operand_effect(s, MicroOp::CompareY, read_byte(s, s.temp_addr)),
        MicroOp::BitTestAddress => CpuState {
            p: bit_status(s.a, read_byte(s, s.temp_addr), s.p),
            ..s
        },
        MicroOp::ArithmeticShiftLeft | MicroOp::LogicalShiftRight | MicroOp::RotateLeft
        | MicroOp::RotateRight => CpuState {
            a: shift_result(op, s.a, s.p),
            p: shift_status(op, s.a, s.p),
            ..s
        },
        MicroOp::ArithmeticShiftLeftAddress => shift_memory(s, MicroOp::ArithmeticShiftLeft),
        MicroOp::LogicalShiftRightAddress => shift_memory(s, MicroOp::LogicalShiftRight),
        MicroOp::RotateLeftAddress => shift_memory(s, MicroOp::RotateLeft),
        MicroOp::RotateRightAddress => shift_memory(s, MicroOp::RotateRight),
        MicroOp::StoreAccumulator => write_byte(s, s.temp_addr, s.a),
        MicroOp::StoreX => write_byte(s, s.temp_addr, s.x),
        MicroOp::StoreY => write_byte(s, s.temp_addr, s.y),
        MicroOp::FetchLowAddrByte | MicroOp::FetchZeroPage => CpuState {
            temp_addr: read_byte(s, s.pc) as u16,
            ..advance_pc(s)
        },
        MicroOp::FetchHighAddrByte => CpuState {
            temp_addr: word(lo8(s.temp_addr), read_byte(s, s.pc)),
            ..advance_pc(s)
        },
        MicroOp::FetchInterruptLow => CpuState { pc: read_byte(s, INTERRUPT_VEC_LOW) as u16, ..s },
        MicroOp::FetchInterruptHigh => CpuState {
            pc: word(lo8(s.pc), read_byte(s, INTERRUPT_VEC_HIGH)),
            running: false,
            ..s
        },
        MicroOp::CopyLowFetchHightoPC => CpuState {
            pc: word(lo8(s.temp_addr), read_byte(s, s.pc)),
            ..s
        },
        MicroOp::FetchHighAddrByteWithX => indexed(advance_pc(s), read_byte(s, s.pc), s.x),
        MicroOp::FetchHighAddrByteWithY => indexed(advance_pc(s), read_byte(s, s.pc), s.y),
        MicroOp::AddXtoZeroPageAddress | MicroOp::AddXtoPointer => CpuState {
            temp_addr: add8(lo8(s.temp_addr), s.x as int) as u16,
            ..s
        },
        MicroOp::AddYtoZeroPageAddress => CpuState {
            temp_addr: add8(lo8(s.temp_addr), s.y as int) as u16,
            ..s
        },
        MicroOp::FetchRelativeOffset(value, cond) => CpuState {
            queue: if value == cond {
                s.queue.push(MicroOp::TakeBranch(read_byte(s, s.pc)))
            } else {
                s.queue
            },
            ..advance_pc(s)
        },
        MicroOp::LoadXAccumulator => CpuState { x: s.a, p: zn(s.p, s.a), ..s },
        MicroOp::LoadYAccumulator => CpuState { y: s.a, p: zn(s.p, s.a), ..s },
        MicroOp::LoadXStackPointer => CpuState { x: s.sp, p: zn(s.p, s.sp), ..s },
        MicroOp::LoadAccumulatorX => CpuState { a: s.x, p: zn(s.p, s.x), ..s },
        MicroOp::LoadAccumulatorY => CpuState { a: s.y, p: zn(s.p, s.y), ..s },
        MicroOp::LoadStackPointerX => CpuState { sp: s.x, ..s },
        MicroOp::PushAccumulator => push(s, s.a),
        MicroOp::PushStatus => push(s, s.p),
        MicroOp::PushStatusBreak => push(s, s.p | FLAG_BREAK),
        MicroOp::PushPCH => push(s, hi8(s.pc)),
        MicroOp::PushPCL => push(s, lo8(s.pc)),
        MicroOp::PullAccumulator => CpuState { a: pulled(s), p: zn(s.p, pulled(s)), ..s },
        MicroOp::PullStatus => CpuState { p: pulled(s), ..s },
        MicroOp::PullStatusAndIncrementSP => CpuState { p: pulled(s), sp: add8(s.sp, 1), ..s },
        MicroOp::PullPCL => CpuState { temp_addr: pulled(s) as u16, sp: add8(s.sp, 1), ..s },
        MicroOp::PullPCH => {
            let t = word(lo8(s.temp_addr), pulled(s));
            CpuState { temp_addr: t, pc: t, ..s }
        },
        MicroOp::IncrementPC => CpuState { pc: add16(s.temp_addr, 1), ..s },
        MicroOp::IncrementPC2 => advance_pc(s),
        MicroOp::IncrementSP(n) => CpuState { sp: add8(s.sp, n as int), ..s },
        MicroOp::IncrementX => CpuState { x: add8(s.x, 1), p: zn(s.p, add8(s.x, 1)), ..s },
        MicroOp::IncrementY => CpuState { y: add8(s.y, 1), p: zn(s.p, add8(s.y, 1)), ..s },
        MicroOp::DecrementX => CpuState { x: add8(s.x, -1), p: zn(s.p, add8(s.x, -1)), ..s },
        MicroOp::DecrementY => CpuState { y: add8(s.y, -1), p: zn(s.p, add8(s.y, -1)), ..s },
        MicroOp::FetchPointerLowByte => CpuState {
            temp_ptr: s.temp_addr,
            temp_addr: read_byte(s, s.temp_addr) as u16,
            ..s
        },
        MicroOp::FetchPointerHighByte => CpuState {
            temp_addr: word(lo8(s.temp_addr), read_byte(s, zp_next(s.temp_ptr))),
            ..s
        },
        MicroOp::FetchPointerHighByteWithY => indexed(s, read_byte(s, zp_next(s.temp_ptr)), s.y),
        MicroOp::ReadLowFromIndirect => CpuState {
            temp_ptr: read_byte(s, s.temp_addr) as u16,
            ..s
        },
        MicroOp::ReadHighFromIndirectLatch => {
            // The pointer's increment stays within its page.
            let high_addr = word(add8(lo8(s.temp_addr), 1), hi8(s.temp_addr));
            CpuState { pc: word(lo8(s.temp_ptr), read_byte(s, high_addr)), ..s }
        },
        MicroOp::ReadAddress => CpuState { temp_val: read_byte(s, s.temp_addr), ..s },
        MicroOp::WriteBackAndIncrement => CpuState {
            temp_val: add8(s.temp_val, 1),
            ..write_byte(s, s.temp_addr, s.temp_val)
        },
        MicroOp::WriteBackAndDecrement => CpuState {
            temp_val: add8(s.temp_val, -1),
            ..write_byte(s, s.temp_addr, s.temp_val)
        },
        MicroOp::WriteToAddress => CpuState {
            p: zn(s.p, s.temp_val),
            ..write_byte(s, s.temp_addr, s.temp_val)
        },
        MicroOp::SetCarry => set_status(s, FLAG_CARRY, true),
        MicroOp::ClearCarry => set_status(s, FLAG_CARRY, false),
        MicroOp::SetDecimalMode => set_status(s, FLAG_DECIMAL, true),
        MicroOp::ClearDecimalMode => set_status(s, FLAG_DECIMAL, false),
        MicroOp::SetInterrupt => set_status(s, FLAG_INTERRUPT, true),
        MicroOp::ClearInterrupt => set_status(s, FLAG_INTERRUPT, false),
        MicroOp::ClearOverflow => set_status(s, FLAG_OVERFLOW, false),
    }
}

/// `mem` with `bytes` copied in from address `start` on.
pub open spec fn load_at(mem: Seq<u8>, start: int, bytes: Seq<u8>) -> Seq<u8> {
    Seq::new(
        mem.len(),
        |i: int|
            if start <= i < start + bytes.len() {
                bytes[i - start]
            } else {
                mem[i]
            },
    )
}

/// `s` with `bytes` loaded from `start` and the reset vector pointing there.
pub open spec fn loaded(s: CpuState, start: u16, bytes: Seq<u8>) -> CpuState {
    let with_code = CpuState { mem: load_at(s.mem, start as int, bytes), ..s };
    write_byte(
        write_byte(with_code, PC_INIT_LOCATION, lo8(start)),
        add16(PC_INIT_LOCATION, 1),
        hi8(start),
    )
}

/// A word splits back into the bytes it was made of.
pub proof fn lemma_word(lo: u8, hi: u8)
    ensures
        lo8(word(lo, hi)) == lo,
        hi8(word(lo, hi)) == hi,
{
    assert(0 <= lo + 256 * hi < 0x10000) by (nonlinear_arith)
        requires
            lo < 256,
            hi < 256,
    ;
    assert((lo + 256 * hi) % 256 == lo && (lo + 256 * hi) / 256 == hi) by (nonlinear_arith)
        requires
            0 <= lo < 256,
            0 <= hi < 256,
    ;
}

/// At an instruction boundary the next cycle fetches an opcode.
pub open spec fn at_boundary(s: CpuState) -> bool {
    s.queue.len() == 0
}

/// The next cycle would fetch an opcode that is not implemented.
pub open spec fn stuck(s: CpuState) -> bool {
    at_boundary(s) && decode_spec(read_byte(s, s.pc), s.p) is None
}

/// One clock cycle: fetch and decode at a boundary, else run the next micro-operation.
/// A state that is stuck stays as it is.
#[verifier::opaque]
pub open spec fn cycle(s: CpuState) -> CpuState {
    if at_boundary(s) {
        let opcode = read_byte(s, s.pc);
        match decode_spec(opcode, s.p) {
            Some(ops) => CpuState { opcode, queue: ops, ..advance_pc(s) },
            None => s,
        }
    } else {
        exec_op(CpuState { queue: s.queue.drop_first(), ..s }, s.queue[0])
    }
}

/// The fetch cycle: the opcode is read and its micro-operations queued.
pub proof fn lemma_cycle_fetch(s: CpuState)
    requires
        at_boundary(s),
        decode_spec(read_byte(s, s.pc), s.p) is Some,
    ensures
        cycle(s) == (CpuState {
            opcode: read_byte(s, s.pc),
            queue: decode_spec(read_byte(s, s.pc), s.p)->0,
            ..advance_pc(s)
        }),
{
    reveal(cycle);
}

/// A cycle inside an instruction runs the next micro-operation.
pub proof fn lemma_cycle_exec(s: CpuState)
    requires
        !at_boundary(s),
    ensures
        cycle(s) == exec_op(CpuState { queue: s.queue.drop_first(), ..s }, s.queue[0]),
{
    reveal(cycle);
}

/// The state after `n` clock cycles.
pub open spec fn run(s: CpuState, n: nat) -> CpuState
    decreases n,
{
    if n == 0 {
        s
    } else {
        run(cycle(s), (n - 1) as nat)
    }
}

} // verus!
