//! The interpreter: registers, memory and the micro-operation executor.
use vstd::prelude::*;
use super::alu::{
    add_with_carry, asl, bit_test, compare, lsr, rol, ror, set_flag, set_zero_neg, sub_with_carry,
    FLAG_BREAK, FLAG_CARRY, FLAG_DECIMAL, FLAG_INTERRUPT, FLAG_OVERFLOW,
};
use super::decode::decode_opcode;
pub use super::ops::MicroOp;
use super::queue::InstructionQueue;
use super::state::{
    add16, add8, advance_pc, cycle, exec_op, hi8, lo8, load_at, loaded, operand_effect, penalty,
    push, pulled, read_byte, shift_result, shift_status, sign_extend, stuck, word, write_byte,
    CpuState, INTERRUPT_VEC_HIGH, INTERRUPT_VEC_LOW, MEMORY_SIZE, PC_INIT_LOCATION, STACK_BOTTOM,
};

verus! {

pub const STACK_PTR_TOP: u8 = 0xFF;
pub const PROGRAM_START: u16 = 0x8000;

/// Why a clock cycle could not run.
#[derive(Clone, Copy, Debug, PartialEq, Eq, Structural)]
pub enum CpuError {
    /// The opcode fetched at an instruction boundary is not implemented.
    UnimplementedOpcode(u8),
}

pub struct Cpu {
    accumulator: u8,
    index_x: u8,
    index_y: u8,
    pc: u16,
    sp: u8,
    status_p: u8,
    current_inst: InstructionQueue,
    memory: Vec<u8>,
    temp_addr: u16,
    temp_val: u8,
    temp_ptr: u16,
    page_crossed: bool,
    debug_active: bool,
    current_opcode: u8,
    running: bool,
}

impl View for Cpu {
    type V = CpuState;

    closed spec fn view(&self) -> CpuState {
        CpuState {
            a: self.accumulator,
            x: self.index_x,
            y: self.index_y,
            pc: self.pc,
            sp: self.sp,
            p: self.status_p,
            mem: self.memory@,
            queue: self.current_inst@,
            temp_addr: self.temp_addr,
            temp_val: self.temp_val,
            temp_ptr: self.temp_ptr,
            page_crossed: self.page_crossed,
            opcode: self.current_opcode,
            running: self.running,
            debug: self.debug_active,
        }
    }
}

fn make_word(lo: u8, hi: u8) -> (w: u16)
    ensures
        w == word(lo, hi),
{
    lo as u16 + hi as u16 * 256
}

fn low_byte(w: u16) -> (b: u8)
    ensures
        b == lo8(w),
{
    (w % 256) as u8
}

fn high_byte(w: u16) -> (b: u8)
    ensures
        b == hi8(w),
{
    (w / 256) as u8
}

/// The address after `t` within its page, as JMP indirect computes it.
proof fn lemma_same_page_next(t: u16)
    ensures
        lo8(t) == 0xFF ==> word(add8(lo8(t), 1), hi8(t)) == t - 0xFF,
        lo8(t) != 0xFF ==> word(add8(lo8(t), 1), hi8(t)) == t + 1,
{
    assert(t == 256 * (t / 256) + t % 256) by (nonlinear_arith);
}

impl Cpu {
    /// Memory is the full 64 KiB and the queue has room for one more push
    /// after any pop.
    pub closed spec fn wf(&self) -> bool {
        &&& self.memory@.len() == MEMORY_SIZE
        &&& self.current_inst.wf()
        &&& self.current_inst@.len() <= 7
    }

    pub fn new() -> (cpu: Self)
        ensures
            cpu.wf(),
            cpu@.mem == Seq::new(MEMORY_SIZE as nat, |i: int| 0u8),
            cpu@.a == 0 && cpu@.x == 0 && cpu@.y == 0,
            cpu@.pc == 0 && cpu@.sp == 0 && cpu@.p == 0,
            cpu@.queue.len() == 0,
            cpu@.temp_addr == 0 && cpu@.temp_val == 0 && cpu@.temp_ptr == 0,
            !cpu@.page_crossed && cpu@.opcode == 0,
            cpu@.running && !cpu@.debug,
    {
        let memory = vec![0u8; MEMORY_SIZE];
        let cpu = Self {
            accumulator: 0,
            index_x: 0,
            index_y: 0,
            pc: 0,
            sp: 0,
            status_p: 0,
            current_inst: InstructionQueue::new(),
            memory,
            temp_addr: 0,
            temp_val: 0,
            temp_ptr: 0,
            page_crossed: false,
            running: true,
            debug_active: false,
            current_opcode: 0,
        };
        assert(cpu@.mem =~= Seq::new(MEMORY_SIZE as nat, |i: int| 0u8));
        cpu
    }

    pub fn mem_read(&self, pos: u16) -> (b: u8)
        requires
            self.wf(),
        ensures
            b == read_byte(self@, pos),
    {
        self.memory[pos as usize]
    }

    /// The little-endian word at `pos` and `pos + 1` (wrapping).
    pub fn mem_read_u16(&self, pos: u16) -> (w: u16)
        requires
            self.wf(),
        ensures
            w == word(read_byte(self@, pos), read_byte(self@, add16(pos, 1))),
    {
        let low = self.mem_read(pos);
        let high = self.mem_read(pos.wrapping_add(1));
        make_word(low, high)
    }

    pub fn enable_debug(&mut self)
        ensures
            final(self)@ == (CpuState { debug: true, ..old(self)@ }),
            final(self).wf() == old(self).wf(),
    {
        self.debug_active = true;
    }

    pub fn mem_write(&mut self, pos: u16, byte: u8)
        requires
            old(self).wf(),
        ensures
            final(self).wf(),
            final(self)@ == write_byte(old(self)@, pos, byte),
    {
        self.memory.set(pos as usize, byte);
    }

    /// Writes `bytes` little-endian at `pos` and `pos + 1` (wrapping).
    pub fn mem_write_u16(&mut self, pos: u16, bytes: u16)
        requires
            old(self).wf(),
        ensures
            final(self).wf(),
            final(self)@ == write_byte(
                write_byte(old(self)@, pos, lo8(bytes)),
                add16(pos, 1),
                hi8(bytes),
            ),
    {
        self.mem_write(pos, low_byte(bytes));
        self.mem_write(pos.wrapping_add(1), high_byte(bytes));
    }

    fn set_flags_zero_neg(&mut self, value: u8)
        requires
            old(self).wf(),
        ensures
            final(self).wf(),
            final(self)@ == (CpuState { p: super::alu::zn(old(self)@.p, value), ..old(self)@ }),
    {
        self.status_p = set_zero_neg(self.status_p, value);
    }

    /// Reads the byte at PC and moves PC past it.
    fn fetch_pc_byte(&mut self) -> (b: u8)
        requires
            old(self).wf(),
        ensures
            final(self).wf(),
            b == read_byte(old(self)@, old(self)@.pc),
            final(self)@ == advance_pc(old(self)@),
    {
        let b = self.mem_read(self.pc);
        self.pc = self.pc.wrapping_add(1);
        b
    }

    fn push_stack(&mut self, v: u8)
        requires
            old(self).wf(),
        ensures
            final(self).wf(),
            final(self)@ == push(old(self)@, v),
    {
        let address: u16 = STACK_BOTTOM + self.sp as u16;
        self.mem_write(address, v);
        self.sp = self.sp.wrapping_sub(1);
    }

    fn pull_stack(&self) -> (b: u8)
        requires
            self.wf(),
        ensures
            b == pulled(self@),
    {
        self.mem_read(STACK_BOTTOM + self.sp as u16)
    }

    /// Puts a dummy cycle in front of the queue unless one is already next.
    fn add_page_cross_penalty(&mut self)
        requires
            old(self).wf(),
            old(self)@.queue.len() <= 6,
        ensures
            final(self).wf(),
            final(self)@ == (CpuState {
                page_crossed: false,
                queue: penalty(old(self)@.queue, true),
                ..old(self)@
            }),
    {
        self.page_crossed = false;
        match self.current_inst.peek_front() {
            Some(MicroOp::DummyCycle) => {},
            _ => self.current_inst.push_front(MicroOp::DummyCycle),
        }
    }

    /// Adds `index` to the address with the latched low byte and high byte `hi`.
    fn add_index(&mut self, hi: u8, index: u8)
        requires
            old(self).wf(),
            old(self)@.queue.len() <= 6,
        ensures
            final(self).wf(),
            final(self)@ == super::state::indexed(old(self)@, hi, index),
    {
        let base = make_word(low_byte(self.temp_addr), hi);
        let new_addr = base.wrapping_add(index as u16);
        self.page_crossed = high_byte(base) != high_byte(new_addr);
        self.temp_addr = new_addr;
        if self.page_crossed {
            self.add_page_cross_penalty();
        }
    }

    /// Applies an instruction that consumes the operand `value`.
    fn apply_operand(&mut self, kind: MicroOp, value: u8)
        requires
            old(self).wf(),
        ensures
            final(self).wf(),
            final(self)@ == operand_effect(old(self)@, kind, value),
    {
        match kind {
            MicroOp::LoadAccumulator => {
                self.accumulator = value;
                self.set_flags_zero_neg(value);
            },
            MicroOp::LoadX => {
                self.index_x = value;
                self.set_flags_zero_neg(value);
            },
            MicroOp::LoadY => {
                self.index_y = value;
                self.set_flags_zero_neg(value);
            },
            MicroOp::LogicalAnd => {
                self.accumulator = self.accumulator & value;
                self.set_flags_zero_neg(self.accumulator);
            },
            MicroOp::ExclusiveOr => {
                self.accumulator = self.accumulator ^ value;
                self.set_flags_zero_neg(self.accumulator);
            },
            MicroOp::InclusiveOr => {
                self.accumulator = self.accumulator | value;
                self.set_flags_zero_neg(self.accumulator);
            },
            MicroOp::AddWithCarry => self.awc(value),
            MicroOp::SubWithCarry => self.swc(value),
            MicroOp::Compare => {
                self.status_p = compare(self.accumulator, value, self.status_p);
            },
            MicroOp::CompareX => {
                self.status_p = compare(self.index_x, value, self.status_p);
            },
            MicroOp::CompareY => {
                self.status_p = compare(self.index_y, value, self.status_p);
            },
            _ => {},
        }
    }

    fn awc(&mut self, value: u8)
        requires
            old(self).wf(),
        ensures
            final(self).wf(),
            final(self)@ == operand_effect(old(self)@, MicroOp::AddWithCarry, value),
    {
        let (result, status) = add_with_carry(self.accumulator, value, self.status_p);
        self.accumulator = result;
        self.status_p = status;
    }

    fn swc(&mut self, value: u8)
        requires
            old(self).wf(),
        ensures
            final(self).wf(),
            final(self)@ == operand_effect(old(self)@, MicroOp::SubWithCarry, value),
    {
        let (result, status) = sub_with_carry(self.accumulator, value, self.status_p);
        self.accumulator = result;
        self.status_p = status;
    }

    /// The shift or rotation `kind` of `value` under the current carry: result and new status.
    fn shift(&self, kind: MicroOp, value: u8) -> (r: (u8, u8))
        ensures
            r.0 == shift_result(kind, value, self@.p),
            r.1 == shift_status(kind, value, self@.p),
    {
        match kind {
            MicroOp::ArithmeticShiftLeft => asl(value, self.status_p),
            MicroOp::LogicalShiftRight => lsr(value, self.status_p),
            MicroOp::RotateLeft => rol(value, self.status_p),
            _ => ror(value, self.status_p),
        }
    }

    fn shift_accumulator(&mut self, kind: MicroOp)
        requires
            old(self).wf(),
        ensures
            final(self).wf(),
            final(self)@ == (CpuState {
                a: shift_result(kind, old(self)@.a, old(self)@.p),
                p: shift_status(kind, old(self)@.a, old(self)@.p),
                ..old(self)@
            }),
    {
        let (result, status) = self.shift(kind, self.accumulator);
        self.accumulator = result;
        self.status_p = status;
    }

    fn shift_memory(&mut self, kind: MicroOp)
        requires
            old(self).wf(),
        ensures
            final(self).wf(),
            final(self)@ == super::state::shift_memory(old(self)@, kind),
    {
        self.mem_write(self.temp_addr, self.temp_val);
        let (result, status) = self.shift(kind, self.temp_val);
        self.temp_val = result;
        self.status_p = status;
    }

    fn set_status_flag(&mut self, mask: u8, on: bool)
        requires
            old(self).wf(),
        ensures
            final(self).wf(),
            final(self)@ == super::state::set_status(old(self)@, mask, on),
    {
        self.status_p = set_flag(self.status_p, mask, on);
    }
    spec fn is_operand_op(op: MicroOp) -> bool {
        matches!(
            op,
            MicroOp::LoadAccumulator | MicroOp::LoadX | MicroOp::LoadY | MicroOp::LogicalAnd
            | MicroOp::ExclusiveOr | MicroOp::InclusiveOr | MicroOp::AddWithCarry
            | MicroOp::SubWithCarry | MicroOp::Compare | MicroOp::CompareX | MicroOp::CompareY
            | MicroOp::LoadAccumulatorFromAddress | MicroOp::LoadXfromAddress
            | MicroOp::LoadYfromAddress | MicroOp::LogicalAndAddress
            | MicroOp::ExclusiveOrAddress | MicroOp::InclusiveOrAddress
            | MicroOp::AddWithCarryAddress | MicroOp::SubWithCarryAddress
            | MicroOp::CompareAddress | MicroOp::CompareXAddress | MicroOp::CompareYAddress
            | MicroOp::BitTestAddress
        )
    }

    spec fn is_control_op(op: MicroOp) -> bool {
        matches!(
            op,
            MicroOp::Empty | MicroOp::DummyCycle | MicroOp::TakeBranch(..)
            | MicroOp::FetchRelativeOffset(..)
        )
    }

    spec fn is_fetch_op(op: MicroOp) -> bool {
        matches!(
            op,
            MicroOp::FetchLowAddrByte | MicroOp::FetchZeroPage | MicroOp::FetchHighAddrByte
            | MicroOp::FetchInterruptLow | MicroOp::FetchInterruptHigh
            | MicroOp::CopyLowFetchHightoPC | MicroOp::FetchHighAddrByteWithX
            | MicroOp::FetchHighAddrByteWithY
        )
    }

    spec fn is_stack_op(op: MicroOp) -> bool {
        matches!(
            op,
            MicroOp::PushAccumulator | MicroOp::PushStatus | MicroOp::PushStatusBreak
            | MicroOp::PushPCH | MicroOp::PushPCL | MicroOp::PullAccumulator
            | MicroOp::PullStatus | MicroOp::PullStatusAndIncrementSP | MicroOp::PullPCL
            | MicroOp::PullPCH | MicroOp::IncrementPC | MicroOp::IncrementPC2
            | MicroOp::IncrementSP(..)
        )
    }

    spec fn is_transfer_op(op: MicroOp) -> bool {
        matches!(
            op,
            MicroOp::LoadXAccumulator | MicroOp::LoadYAccumulator | MicroOp::LoadXStackPointer
            | MicroOp::LoadAccumulatorX | MicroOp::LoadAccumulatorY | MicroOp::LoadStackPointerX
            | MicroOp::IncrementX | MicroOp::DecrementX | MicroOp::IncrementY
            | MicroOp::DecrementY
        )
    }

    spec fn is_flag_op(op: MicroOp) -> bool {
        matches!(
            op,
            MicroOp::SetCarry | MicroOp::ClearCarry | MicroOp::SetDecimalMode
            | MicroOp::ClearDecimalMode | MicroOp::SetInterrupt | MicroOp::ClearInterrupt
            | MicroOp::ClearOverflow
        )
    }

    spec fn is_zero_page_op(op: MicroOp) -> bool {
        matches!(
            op,
            MicroOp::AddXtoZeroPageAddress | MicroOp::AddXtoPointer
            | MicroOp::AddYtoZeroPageAddress | MicroOp::FetchPointerLowByte
            | MicroOp::FetchPointerHighByte | MicroOp::FetchPointerHighByteWithY
        )
    }

    spec fn is_indirect_op(op: MicroOp) -> bool {
        matches!(
            op,
            MicroOp::ReadLowFromIndirect | MicroOp::ReadHighFromIndirectLatch
        )
    }

    spec fn is_shift_op(op: MicroOp) -> bool {
        matches!(
            op,
            MicroOp::ArithmeticShiftLeft | MicroOp::LogicalShiftRight | MicroOp::RotateLeft
            | MicroOp::RotateRight | MicroOp::ArithmeticShiftLeftAddress
            | MicroOp::LogicalShiftRightAddress | MicroOp::RotateLeftAddress
            | MicroOp::RotateRightAddress
        )
    }

    spec fn is_store_op(op: MicroOp) -> bool {
        matches!(
            op,
            MicroOp::StoreAccumulator | MicroOp::StoreX | MicroOp::StoreY | MicroOp::ReadAddress
            | MicroOp::WriteBackAndIncrement | MicroOp::WriteBackAndDecrement
            | MicroOp::WriteToAddress
        )
    }

    /// Micro-operations that read an operand and apply an instruction to it.
    #[verifier::spinoff_prover]
    #[verifier::rlimit(100)]
    fn execute_operand_op(&mut self, operation: MicroOp)
        requires
            old(self).wf(),
            old(self)@.queue.len() <= 6,
            Self::is_operand_op(operation),
        ensures
            final(self).wf(),
            final(self)@ == exec_op(old(self)@, operation),
    {
        match operation {
            MicroOp::LoadAccumulator | MicroOp::LoadX | MicroOp::LoadY | MicroOp::LogicalAnd
            | MicroOp::ExclusiveOr | MicroOp::InclusiveOr | MicroOp::AddWithCarry
            | MicroOp::SubWithCarry | MicroOp::Compare | MicroOp::CompareX | MicroOp::CompareY => {
                let value = self.fetch_pc_byte();
                self.apply_operand(operation, value);
            },
            MicroOp::LoadAccumulatorFromAddress => {
                let value = self.mem_read(self.temp_addr);
                self.apply_operand(MicroOp::LoadAccumulator, value);
            },
            MicroOp::LoadXfromAddress => {
                let value = self.mem_read(self.temp_addr);
                self.apply_operand(MicroOp::LoadX, value);
            },
            MicroOp::LoadYfromAddress => {
                let value = self.mem_read(self.temp_addr);
                self.apply_operand(MicroOp::LoadY, value);
            },
            MicroOp::LogicalAndAddress => {
                let value = self.mem_read(self.temp_addr);
                self.apply_operand(MicroOp::LogicalAnd, value);
            },
            MicroOp::ExclusiveOrAddress => {
                let value = self.mem_read(self.temp_addr);
                self.apply_operand(MicroOp::ExclusiveOr, value);
            },
            MicroOp::InclusiveOrAddress => {
                let value = self.mem_read(self.temp_addr);
                self.apply_operand(MicroOp::InclusiveOr, value);
            },
            MicroOp::AddWithCarryAddress => {
                let value = self.mem_read(self.temp_addr);
                self.awc(value);
            },
            MicroOp::SubWithCarryAddress => {
                let value = self.mem_read(self.temp_addr);
                self.swc(value);
            },
            MicroOp::CompareAddress => {
                let value = self.mem_read(self.temp_addr);
                self.apply_operand(MicroOp::Compare, value);
            },
            MicroOp::CompareXAddress => {
                let value = self.mem_read(self.temp_addr);
                self.apply_operand(MicroOp::CompareX, value);
            },
            MicroOp::CompareYAddress => {
                let value = self.mem_read(self.temp_addr);
                self.apply_operand(MicroOp::CompareY, value);
            },
            MicroOp::BitTestAddress => {
                let value = self.mem_read(self.temp_addr);
                self.status_p = bit_test(self.accumulator, value, self.status_p);
            },
            _ => {},
        }
    }

    /// Branches, and the cycles that do nothing.
    #[verifier::spinoff_prover]
    #[verifier::rlimit(100)]
    fn execute_control_op(&mut self, operation: MicroOp)
        requires
            old(self).wf(),
            old(self)@.queue.len() <= 6,
            Self::is_control_op(operation),
        ensures
            final(self).wf(),
            final(self)@ == exec_op(old(self)@, operation),
    {
        match operation {
            MicroOp::Empty | MicroOp::DummyCycle => {},
            MicroOp::TakeBranch(offset) => {
                let new_addr = if offset >= 0x80 {
                    self.pc.wrapping_sub(256 - offset as u16)
                } else {
                    self.pc.wrapping_add(offset as u16)
                };
                assert(new_addr == add16(self.pc, sign_extend(offset)));
                self.page_crossed = high_byte(self.pc) != high_byte(new_addr);
                if self.page_crossed {
                    self.page_crossed = false;
                    self.current_inst.push_back(MicroOp::DummyCycle);
                }
                self.pc = new_addr;
            },
            MicroOp::FetchRelativeOffset(value, cond) => {
                let offset = self.fetch_pc_byte();
                if value == cond {
                    self.current_inst.push_back(MicroOp::TakeBranch(offset));
                }
            },
            _ => {},
        }
    }

    /// Micro-operations that fetch address bytes or a new PC.
    #[verifier::spinoff_prover]
    #[verifier::rlimit(100)]
    fn execute_fetch_op(&mut self, operation: MicroOp)
        requires
            old(self).wf(),
            old(self)@.queue.len() <= 6,
            Self::is_fetch_op(operation),
        ensures
            final(self).wf(),
            final(self)@ == exec_op(old(self)@, operation),
    {
        match operation {
            MicroOp::FetchLowAddrByte | MicroOp::FetchZeroPage => {
                let low = self.fetch_pc_byte();
                self.temp_addr = low as u16;
            },
            MicroOp::FetchHighAddrByte => {
                let high = self.fetch_pc_byte();
                self.temp_addr = make_word(low_byte(self.temp_addr), high);
            },
            MicroOp::FetchInterruptLow => {
                self.pc = self.mem_read(INTERRUPT_VEC_LOW) as u16;
            },
            MicroOp::FetchInterruptHigh => {
                let high = self.mem_read(INTERRUPT_VEC_HIGH);
                self.pc = make_word(low_byte(self.pc), high);
                // No interrupt source is modelled: the host stops here.
                self.running = false;
            },
            MicroOp::CopyLowFetchHightoPC => {
                let high = self.mem_read(self.pc);
                self.pc = make_word(low_byte(self.temp_addr), high);
            },
            MicroOp::FetchHighAddrByteWithX => {
                let high = self.fetch_pc_byte();
                self.add_index(high, self.index_x);
            },
            MicroOp::FetchHighAddrByteWithY => {
                let high = self.fetch_pc_byte();
                self.add_index(high, self.index_y);
            },
            _ => {},
        }
    }

    /// Micro-operations on the stack, the stack pointer and the return address.
    #[verifier::spinoff_prover]
    #[verifier::rlimit(100)]
    fn execute_stack_op(&mut self, operation: MicroOp)
        requires
            old(self).wf(),
            old(self)@.queue.len() <= 6,
            Self::is_stack_op(operation),
        ensures
            final(self).wf(),
            final(self)@ == exec_op(old(self)@, operation),
    {
        match operation {
            MicroOp::PushAccumulator => self.push_stack(self.accumulator),
            MicroOp::PushStatus => self.push_stack(self.status_p),
            MicroOp::PushStatusBreak => self.push_stack(self.status_p | FLAG_BREAK),
            MicroOp::PushPCH => self.push_stack(high_byte(self.pc)),
            MicroOp::PushPCL => self.push_stack(low_byte(self.pc)),
            MicroOp::PullAccumulator => {
                self.accumulator = self.pull_stack();
                self.set_flags_zero_neg(self.accumulator);
            },
            MicroOp::PullStatus => {
                self.status_p = self.pull_stack();
            },
            MicroOp::PullStatusAndIncrementSP => {
                self.status_p = self.pull_stack();
                self.sp = self.sp.wrapping_add(1);
            },
            MicroOp::PullPCL => {
                self.temp_addr = self.pull_stack() as u16;
                self.sp = self.sp.wrapping_add(1);
            },
            MicroOp::PullPCH => {
                let high = self.pull_stack();
                self.temp_addr = make_word(low_byte(self.temp_addr), high);
                self.pc = self.temp_addr;
            },
            MicroOp::IncrementPC => {
                self.pc = self.temp_addr.wrapping_add(1);
            },
            MicroOp::IncrementPC2 => {
                self.pc = self.pc.wrapping_add(1);
            },
            MicroOp::IncrementSP(value) => {
                self.sp = self.sp.wrapping_add(value);
            },
            _ => {},
        }
    }

    /// Register transfers, increments and decrements.
    #[verifier::spinoff_prover]
    #[verifier::rlimit(100)]
    fn execute_transfer_op(&mut self, operation: MicroOp)
        requires
            old(self).wf(),
            old(self)@.queue.len() <= 6,
            Self::is_transfer_op(operation),
        ensures
            final(self).wf(),
            final(self)@ == exec_op(old(self)@, operation),
    {
        match operation {
            MicroOp::LoadXAccumulator => {
                self.index_x = self.accumulator;
                self.set_flags_zero_neg(self.index_x);
            },
            MicroOp::LoadYAccumulator => {
                self.index_y = self.accumulator;
                self.set_flags_zero_neg(self.index_y);
            },
            MicroOp::LoadXStackPointer => {
                self.index_x = self.sp;
                self.set_flags_zero_neg(self.index_x);
            },
            MicroOp::LoadAccumulatorX => {
                self.accumulator = self.index_x;
                self.set_flags_zero_neg(self.accumulator);
            },
            MicroOp::LoadAccumulatorY => {
                self.accumulator = self.index_y;
                self.set_flags_zero_neg(self.accumulator);
            },
            MicroOp::LoadStackPointerX => {
                self.sp = self.index_x;
            },
            MicroOp::IncrementX => {
                self.index_x = self.index_x.wrapping_add(1);
                self.set_flags_zero_neg(self.index_x);
            },
            MicroOp::DecrementX => {
                self.index_x = self.index_x.wrapping_sub(1);
                self.set_flags_zero_neg(self.index_x);
            },
            MicroOp::IncrementY => {
                self.index_y = self.index_y.wrapping_add(1);
                self.set_flags_zero_neg(self.index_y);
            },
            MicroOp::DecrementY => {
                self.index_y = self.index_y.wrapping_sub(1);
                self.set_flags_zero_neg(self.index_y);
            },
            _ => {},
        }
    }

    /// Micro-operations that set or clear one status flag.
    #[verifier::spinoff_prover]
    #[verifier::rlimit(100)]
    fn execute_flag_op(&mut self, operation: MicroOp)
        requires
            old(self).wf(),
            old(self)@.queue.len() <= 6,
            Self::is_flag_op(operation),
        ensures
            final(self).wf(),
            final(self)@ == exec_op(old(self)@, operation),
    {
        match operation {
            MicroOp::SetCarry => self.set_status_flag(FLAG_CARRY, true),
            MicroOp::ClearCarry => self.set_status_flag(FLAG_CARRY, false),
            MicroOp::SetDecimalMode => self.set_status_flag(FLAG_DECIMAL, true),
            MicroOp::ClearDecimalMode => self.set_status_flag(FLAG_DECIMAL, false),
            MicroOp::SetInterrupt => self.set_status_flag(FLAG_INTERRUPT, true),
            MicroOp::ClearInterrupt => self.set_status_flag(FLAG_INTERRUPT, false),
            MicroOp::ClearOverflow => self.set_status_flag(FLAG_OVERFLOW, false),
            _ => {},
        }
    }

    /// Micro-operations on zero-page addresses and pointers.
    #[verifier::spinoff_prover]
    #[verifier::rlimit(100)]
    fn execute_zero_page_op(&mut self, operation: MicroOp)
        requires
            old(self).wf(),
            old(self)@.queue.len() <= 6,
            Self::is_zero_page_op(operation),
        ensures
            final(self).wf(),
            final(self)@ == exec_op(old(self)@, operation),
    {
        match operation {
            MicroOp::AddXtoZeroPageAddress | MicroOp::AddXtoPointer => {
                self.temp_addr = low_byte(self.temp_addr).wrapping_add(self.index_x) as u16;
            },
            MicroOp::AddYtoZeroPageAddress => {
                self.temp_addr = low_byte(self.temp_addr).wrapping_add(self.index_y) as u16;
            },
            MicroOp::FetchPointerLowByte => {
                self.temp_ptr = self.temp_addr;
                self.temp_addr = self.mem_read(self.temp_ptr) as u16;
            },
            MicroOp::FetchPointerHighByte => {
                let next = low_byte(self.temp_ptr).wrapping_add(1) as u16;
                let high = self.mem_read(next);
                self.temp_addr = make_word(low_byte(self.temp_addr), high);
            },
            MicroOp::FetchPointerHighByteWithY => {
                let next = low_byte(self.temp_ptr).wrapping_add(1) as u16;
                let high = self.mem_read(next);
                self.add_index(high, self.index_y);
            },
            _ => {},
        }
    }

    /// The two reads of an indirect jump's target.
    #[verifier::spinoff_prover]
    #[verifier::rlimit(100)]
    fn execute_indirect_op(&mut self, operation: MicroOp)
        requires
            old(self).wf(),
            old(self)@.queue.len() <= 6,
            Self::is_indirect_op(operation),
        ensures
            final(self).wf(),
            final(self)@ == exec_op(old(self)@, operation),
    {
        match operation {
            MicroOp::ReadLowFromIndirect => {
                self.temp_ptr = self.mem_read(self.temp_addr) as u16;
            },
            MicroOp::ReadHighFromIndirectLatch => {
                // JMP ($xxFF) takes its high byte from $xx00.
                let high_addr = if low_byte(self.temp_addr) == 0xFF {
                    self.temp_addr - 0xFF
                } else {
                    self.temp_addr + 1
                };
                proof {
                    lemma_same_page_next(self.temp_addr);
                }
                let high = self.mem_read(high_addr);
                self.pc = make_word(low_byte(self.temp_ptr), high);
            },
            _ => {},
        }
    }

    /// Shifts and rotations, of the accumulator or of the latched value.
    #[verifier::spinoff_prover]
    #[verifier::rlimit(100)]
    fn execute_shift_op(&mut self, operation: MicroOp)
        requires
            old(self).wf(),
            old(self)@.queue.len() <= 6,
            Self::is_shift_op(operation),
        ensures
            final(self).wf(),
            final(self)@ == exec_op(old(self)@, operation),
    {
        match operation {
            MicroOp::ArithmeticShiftLeft | MicroOp::LogicalShiftRight | MicroOp::RotateLeft
            | MicroOp::RotateRight => self.shift_accumulator(operation),
            MicroOp::ArithmeticShiftLeftAddress => self.shift_memory(MicroOp::ArithmeticShiftLeft),
            MicroOp::LogicalShiftRightAddress => self.shift_memory(MicroOp::LogicalShiftRight),
            MicroOp::RotateLeftAddress => self.shift_memory(MicroOp::RotateLeft),
            MicroOp::RotateRightAddress => self.shift_memory(MicroOp::RotateRight),
            _ => {},
        }
    }

    /// Stores and the reads and writes of read-modify-write instructions.
    #[verifier::spinoff_prover]
    #[verifier::rlimit(100)]
    fn execute_store_op(&mut self, operation: MicroOp)
        requires
            old(self).wf(),
            old(self)@.queue.len() <= 6,
            Self::is_store_op(operation),
        ensures
            final(self).wf(),
            final(self)@ == exec_op(old(self)@, operation),
    {
        match operation {
            MicroOp::StoreAccumulator => self.mem_write(self.temp_addr, self.accumulator),
            MicroOp::StoreX => self.mem_write(self.temp_addr, self.index_x),
            MicroOp::StoreY => self.mem_write(self.temp_addr, self.index_y),
            MicroOp::ReadAddress => {
                self.temp_val = self.mem_read(self.temp_addr);
            },
            MicroOp::WriteBackAndIncrement => {
                self.mem_write(self.temp_addr, self.temp_val);
                self.temp_val = self.temp_val.wrapping_add(1);
            },
            MicroOp::WriteBackAndDecrement => {
                self.mem_write(self.temp_addr, self.temp_val);
                self.temp_val = self.temp_val.wrapping_sub(1);
            },
            MicroOp::WriteToAddress => {
                self.mem_write(self.temp_addr, self.temp_val);
                self.set_flags_zero_neg(self.temp_val);
            },
            _ => {},
        }
    }

    fn execute_micro_op(&mut self, operation: MicroOp)
        requires
            old(self).wf(),
            old(self)@.queue.len() <= 6,
        ensures
            final(self).wf(),
            final(self)@ == exec_op(old(self)@, operation),
    {
        match operation {
            MicroOp::LoadAccumulator | MicroOp::LoadX | MicroOp::LoadY | MicroOp::LogicalAnd
            | MicroOp::ExclusiveOr | MicroOp::InclusiveOr | MicroOp::AddWithCarry
            | MicroOp::SubWithCarry | MicroOp::Compare | MicroOp::CompareX | MicroOp::CompareY
            | MicroOp::LoadAccumulatorFromAddress | MicroOp::LoadXfromAddress
            | MicroOp::LoadYfromAddress | MicroOp::LogicalAndAddress
            | MicroOp::ExclusiveOrAddress | MicroOp::InclusiveOrAddress
            | MicroOp::AddWithCarryAddress | MicroOp::SubWithCarryAddress
            | MicroOp::CompareAddress | MicroOp::CompareXAddress | MicroOp::CompareYAddress
            | MicroOp::BitTestAddress => {
                self.execute_operand_op(operation);
            },
            MicroOp::Empty | MicroOp::DummyCycle | MicroOp::TakeBranch(..)
            | MicroOp::FetchRelativeOffset(..) => {
                self.execute_control_op(operation);
            },
            MicroOp::FetchLowAddrByte | MicroOp::FetchZeroPage | MicroOp::FetchHighAddrByte
            | MicroOp::FetchInterruptLow | MicroOp::FetchInterruptHigh
            | MicroOp::CopyLowFetchHightoPC | MicroOp::FetchHighAddrByteWithX
            | MicroOp::FetchHighAddrByteWithY => {
                self.execute_fetch_op(operation);
            },
            MicroOp::PushAccumulator | MicroOp::PushStatus | MicroOp::PushStatusBreak
            | MicroOp::PushPCH | MicroOp::PushPCL | MicroOp::PullAccumulator
            | MicroOp::PullStatus | MicroOp::PullStatusAndIncrementSP | MicroOp::PullPCL
            | MicroOp::PullPCH | MicroOp::IncrementPC | MicroOp::IncrementPC2
            | MicroOp::IncrementSP(..) => {
                self.execute_stack_op(operation);
            },
            MicroOp::LoadXAccumulator | MicroOp::LoadYAccumulator | MicroOp::LoadXStackPointer
            | MicroOp::LoadAccumulatorX | MicroOp::LoadAccumulatorY | MicroOp::LoadStackPointerX
            | MicroOp::IncrementX | MicroOp::DecrementX | MicroOp::IncrementY
            | MicroOp::DecrementY => {
                self.execute_transfer_op(operation);
            },
            MicroOp::SetCarry | MicroOp::ClearCarry | MicroOp::SetDecimalMode
            | MicroOp::ClearDecimalMode | MicroOp::SetInterrupt | MicroOp::ClearInterrupt
            | MicroOp::ClearOverflow => {
                self.execute_flag_op(operation);
            },
            MicroOp::AddXtoZeroPageAddress | MicroOp::AddXtoPointer
            | MicroOp::AddYtoZeroPageAddress | MicroOp::FetchPointerLowByte
            | MicroOp::FetchPointerHighByte | MicroOp::FetchPointerHighByteWithY => {
                self.execute_zero_page_op(operation);
            },
            MicroOp::ReadLowFromIndirect | MicroOp::ReadHighFromIndirectLatch => {
                self.execute_indirect_op(operation);
            },
            MicroOp::ArithmeticShiftLeft | MicroOp::LogicalShiftRight | MicroOp::RotateLeft
            | MicroOp::RotateRight | MicroOp::ArithmeticShiftLeftAddress
            | MicroOp::LogicalShiftRightAddress | MicroOp::RotateLeftAddress
            | MicroOp::RotateRightAddress => {
                self.execute_shift_op(operation);
            },
            MicroOp::StoreAccumulator | MicroOp::StoreX | MicroOp::StoreY | MicroOp::ReadAddress
            | MicroOp::WriteBackAndIncrement | MicroOp::WriteBackAndDecrement
            | MicroOp::WriteToAddress => {
                self.execute_store_op(operation);
            },
        }
    }

    /// Runs one clock cycle. At an instruction boundary this fetches the
    /// opcode at PC and decodes it; otherwise it runs the next micro-operation.
    /// An opcode that is not implemented leaves the CPU as it was.
    pub fn tick(&mut self) -> (r: Result<(), CpuError>)
        requires
            old(self).wf(),
        ensures
            final(self).wf(),
            final(self)@ == cycle(old(self)@),
            r is Err <==> stuck(old(self)@),
            r is Err ==> r == Err::<(), CpuError>(
                CpuError::UnimplementedOpcode(read_byte(old(self)@, old(self)@.pc)),
            ),
    {
        proof {
            reveal(cycle);
        }
        if self.current_inst.is_empty() {
            let opcode = self.mem_read(self.pc);
            match decode_opcode(opcode, self.status_p) {
                Some(queue) => {
                    self.current_opcode = opcode;
                    self.pc = self.pc.wrapping_add(1);
                    self.current_inst = queue;
                    Ok(())
                },
                None => Err(CpuError::UnimplementedOpcode(opcode)),
            }
        } else {
            let ghost popped = CpuState { queue: self@.queue.drop_first(), ..self@ };
            let op = self.current_inst.pop_front();
            assert(self@ == popped);
            match op {
                Some(op) => self.execute_micro_op(op),
                None => {},
            }
            Ok(())
        }
    }
    /// Reloads PC from the reset vector, sets SP to `$FF`, clears the status,
    /// the registers, the latches and the queue, and marks the CPU running.
    pub fn reset(&mut self)
        requires
            old(self).wf(),
        ensures
            final(self).wf(),
            final(self)@ == (CpuState {
                a: 0,
                x: 0,
                y: 0,
                sp: STACK_PTR_TOP,
                p: 0,
                pc: word(
                    read_byte(old(self)@, PC_INIT_LOCATION),
                    read_byte(old(self)@, add16(PC_INIT_LOCATION, 1)),
                ),
                queue: Seq::empty(),
                temp_addr: 0,
                temp_val: 0,
                temp_ptr: 0,
                page_crossed: false,
                running: true,
                ..old(self)@
            }),
    {
        self.accumulator = 0;
        self.index_x = 0;
        self.index_y = 0;
        self.sp = STACK_PTR_TOP;
        self.status_p = 0;
        self.temp_addr = 0;
        self.temp_val = 0;
        self.temp_ptr = 0;
        self.page_crossed = false;
        self.current_inst.clear();
        self.pc = self.mem_read_u16(PC_INIT_LOCATION);
        self.running = true;
    }

    /// Copies `bytes` into memory from `start` on and points the reset vector there.
    fn load_at(&mut self, start: u16, bytes: &[u8])
        requires
            old(self).wf(),
            start + bytes@.len() <= MEMORY_SIZE,
        ensures
            final(self).wf(),
            final(self)@ == loaded(old(self)@, start, bytes@),
    {
        let mut i: usize = 0;
        assert(load_at(old(self)@.mem, start as int, bytes@.subrange(0, 0)) =~= old(self)@.mem);
        while i < bytes.len()
            invariant
                self.wf(),
                i <= bytes@.len(),
                start + bytes@.len() <= MEMORY_SIZE,
                self@ == (CpuState {
                    mem: load_at(old(self)@.mem, start as int, bytes@.subrange(0, i as int)),
                    ..old(self)@
                }),
            decreases bytes@.len() - i,
        {
            self.mem_write(start + i as u16, bytes[i]);
            i = i + 1;
            assert(self@.mem =~= load_at(
                old(self)@.mem,
                start as int,
                bytes@.subrange(0, i as int),
            ));
        }
        assert(bytes@.subrange(0, i as int) =~= bytes@);
        self.mem_write_u16(PC_INIT_LOCATION, start);
    }

    /// Loads the demo game at `$0600` and points the reset vector there.
    pub fn load_test_game(&mut self)
        requires
            old(self).wf(),
        ensures
            final(self).wf(),
            final(self)@ == loaded(old(self)@, 0x0600, test_game()),
    {
        let game_code: Vec<u8> = vec![
            0x20, 0x06, 0x06, 0x20, 0x38, 0x06, 0x20, 0x0d, 0x06, 0x20, 0x2a, 0x06, 0x60, 0xa9,
            0x02, 0x85, 0x02, 0xa9, 0x04, 0x85, 0x03, 0xa9, 0x11, 0x85, 0x10, 0xa9, 0x10, 0x85,
            0x12, 0xa9, 0x0f, 0x85, 0x14, 0xa9, 0x04, 0x85, 0x11, 0x85, 0x13, 0x85, 0x15, 0x60,
            0xa5, 0xfe, 0x85, 0x00, 0xa5, 0xfe, 0x29, 0x03, 0x18, 0x69, 0x02, 0x85, 0x01, 0x60,
            0x20, 0x4d, 0x06, 0x20, 0x8d, 0x06, 0x20, 0xc3, 0x06, 0x20, 0x19, 0x07, 0x20, 0x20,
            0x07, 0x20, 0x2d, 0x07, 0x4c, 0x38, 0x06, 0xa5, 0xff, 0xc9, 0x77, 0xf0, 0x0d, 0xc9,
            0x64, 0xf0, 0x14, 0xc9, 0x73, 0xf0, 0x1b, 0xc9, 0x61, 0xf0, 0x22, 0x60, 0xa9, 0x04,
            0x24, 0x02, 0xd0, 0x26, 0xa9, 0x01, 0x85, 0x02, 0x60, 0xa9, 0x08, 0x24, 0x02, 0xd0,
            0x1b, 0xa9, 0x02, 0x85, 0x02, 0x60, 0xa9, 0x01, 0x24, 0x02, 0xd0, 0x10, 0xa9, 0x04,
            0x85, 0x02, 0x60, 0xa9, 0x02, 0x24, 0x02, 0xd0, 0x05, 0xa9, 0x08, 0x85, 0x02, 0x60,
            0x60, 0x20, 0x94, 0x06, 0x20, 0xa8, 0x06, 0x60, 0xa5, 0x00, 0xc5, 0x10, 0xd0, 0x0d,
            0xa5, 0x01, 0xc5, 0x11, 0xd0, 0x07, 0xe6, 0x03, 0xe6, 0x03, 0x20, 0x2a, 0x06, 0x60,
            0xa2, 0x02, 0xb5, 0x10, 0xc5, 0x10, 0xd0, 0x06, 0xb5, 0x11, 0xc5, 0x11, 0xf0, 0x09,
            0xe8, 0xe8, 0xe4, 0x03, 0xf0, 0x06, 0x4c, 0xaa, 0x06, 0x4c, 0x35, 0x07, 0x60, 0xa6,
            0x03, 0xca, 0x8a, 0xb5, 0x10, 0x95, 0x12, 0xca, 0x10, 0xf9, 0xa5, 0x02, 0x4a, 0xb0,
            0x09, 0x4a, 0xb0, 0x19, 0x4a, 0xb0, 0x1f, 0x4a, 0xb0, 0x2f, 0xa5, 0x10, 0x38, 0xe9,
            0x20, 0x85, 0x10, 0x90, 0x01, 0x60, 0xc6, 0x11, 0xa9, 0x01, 0xc5, 0x11, 0xf0, 0x28,
            0x60, 0xe6, 0x10, 0xa9, 0x1f, 0x24, 0x10, 0xf0, 0x1f, 0x60, 0xa5, 0x10, 0x18, 0x69,
            0x20, 0x85, 0x10, 0xb0, 0x01, 0x60, 0xe6, 0x11, 0xa9, 0x06, 0xc5, 0x11, 0xf0, 0x0c,
            0x60, 0xc6, 0x10, 0xa5, 0x10, 0x29, 0x1f, 0xc9, 0x1f, 0xf0, 0x01, 0x60, 0x4c, 0x35,
            0x07, 0xa0, 0x00, 0xa5, 0xfe, 0x91, 0x00, 0x60, 0xa6, 0x03, 0xa9, 0x00, 0x81, 0x10,
            0xa2, 0x00, 0xa9, 0x01, 0x81, 0x10, 0x60, 0xa2, 0x00, 0xea, 0xea, 0xca, 0xd0, 0xfb,
            0x60,
        ];
        assert(game_code@ =~= test_game());
        self.load_at(0x0600, game_code.as_slice());
    }

    /// Loads `program` at `$8000` and points the reset vector there.
    pub fn load_program(&mut self, program: &[u8])
        requires
            old(self).wf(),
            program@.len() <= 0x8000,
        ensures
            final(self).wf(),
            final(self)@ == loaded(old(self)@, PROGRAM_START, program@),
    {
        self.load_at(PROGRAM_START, program);
    }

    /// Whether the next cycle fetches an opcode.
    pub fn is_at_instruction_boundary(&self) -> (b: bool)
        requires
            self.wf(),
        ensures
            b == super::state::at_boundary(self@),
    {
        self.current_inst.is_empty()
    }

    /// The micro-operations still to run for the current instruction.
    pub fn queued_micro_ops(&self) -> (v: Vec<MicroOp>)
        requires
            self.wf(),
        ensures
            v@ == self@.queue,
    {
        self.current_inst.to_vec()
    }

    pub fn get_accumulator(&self) -> (r: u8)
        ensures
            r == self@.a,
    {
        self.accumulator
    }

    pub fn get_index_x(&self) -> (r: u8)
        ensures
            r == self@.x,
    {
        self.index_x
    }

    pub fn get_index_y(&self) -> (r: u8)
        ensures
            r == self@.y,
    {
        self.index_y
    }

    pub fn get_pc(&self) -> (r: u16)
        ensures
            r == self@.pc,
    {
        self.pc
    }

    pub fn get_sp(&self) -> (r: u8)
        ensures
            r == self@.sp,
    {
        self.sp
    }

    pub fn get_status_p(&self) -> (r: u8)
        ensures
            r == self@.p,
    {
        self.status_p
    }

    pub fn get_memory(&self) -> (r: &[u8])
        ensures
            r@ == self@.mem,
    {
        self.memory.as_slice()
    }

    pub fn get_temp_addr(&self) -> (r: u16)
        ensures
            r == self@.temp_addr,
    {
        self.temp_addr
    }

    pub fn get_current_opcode(&self) -> (r: u8)
        ensures
            r == self@.opcode,
    {
        self.current_opcode
    }

    pub fn is_page_crossed(&self) -> (r: bool)
        ensures
            r == self@.page_crossed,
    {
        self.page_crossed
    }

    pub fn is_running(&self) -> (r: bool)
        ensures
            r == self@.running,
    {
        self.running
    }

    pub fn is_debug_enabled(&self) -> (r: bool)
        ensures
            r == self@.debug,
    {
        self.debug_active
    }

    pub fn set_accumulator(&mut self, val: u8)
        ensures
            final(self)@ == (CpuState { a: val, ..old(self)@ }),
            final(self).wf() == old(self).wf(),
    {
        self.accumulator = val;
    }

    pub fn set_index_x(&mut self, val: u8)
        ensures
            final(self)@ == (CpuState { x: val, ..old(self)@ }),
            final(self).wf() == old(self).wf(),
    {
        self.index_x = val;
    }

    pub fn set_index_y(&mut self, val: u8)
        ensures
            final(self)@ == (CpuState { y: val, ..old(self)@ }),
            final(self).wf() == old(self).wf(),
    {
        self.index_y = val;
    }

    pub fn set_status_p(&mut self, val: u8)
        ensures
            final(self)@ == (CpuState { p: val, ..old(self)@ }),
            final(self).wf() == old(self).wf(),
    {
        self.status_p = val;
    }

    pub fn set_sp(&mut self, val: u8)
        ensures
            final(self)@ == (CpuState { sp: val, ..old(self)@ }),
            final(self).wf() == old(self).wf(),
    {
        self.sp = val;
    }
}

/// The demo game that `load_test_game` loads.
pub open spec fn test_game() -> Seq<u8> {
    seq![
        0x20, 0x06, 0x06, 0x20, 0x38, 0x06, 0x20, 0x0d, 0x06, 0x20, 0x2a, 0x06, 0x60, 0xa9,
        0x02, 0x85, 0x02, 0xa9, 0x04, 0x85, 0x03, 0xa9, 0x11, 0x85, 0x10, 0xa9, 0x10, 0x85,
        0x12, 0xa9, 0x0f, 0x85, 0x14, 0xa9, 0x04, 0x85, 0x11, 0x85, 0x13, 0x85, 0x15, 0x60,
        0xa5, 0xfe, 0x85, 0x00, 0xa5, 0xfe, 0x29, 0x03, 0x18, 0x69, 0x02, 0x85, 0x01, 0x60,
        0x20, 0x4d, 0x06, 0x20, 0x8d, 0x06, 0x20, 0xc3, 0x06, 0x20, 0x19, 0x07, 0x20, 0x20,
        0x07, 0x20, 0x2d, 0x07, 0x4c, 0x38, 0x06, 0xa5, 0xff, 0xc9, 0x77, 0xf0, 0x0d, 0xc9,
        0x64, 0xf0, 0x14, 0xc9, 0x73, 0xf0, 0x1b, 0xc9, 0x61, 0xf0, 0x22, 0x60, 0xa9, 0x04,
        0x24, 0x02, 0xd0, 0x26, 0xa9, 0x01, 0x85, 0x02, 0x60, 0xa9, 0x08, 0x24, 0x02, 0xd0,
        0x1b, 0xa9, 0x02, 0x85, 0x02, 0x60, 0xa9, 0x01, 0x24, 0x02, 0xd0, 0x10, 0xa9, 0x04,
        0x85, 0x02, 0x60, 0xa9, 0x02, 0x24, 0x02, 0xd0, 0x05, 0xa9, 0x08, 0x85, 0x02, 0x60,
        0x60, 0x20, 0x94, 0x06, 0x20, 0xa8, 0x06, 0x60, 0xa5, 0x00, 0xc5, 0x10, 0xd0, 0x0d,
        0xa5, 0x01, 0xc5, 0x11, 0xd0, 0x07, 0xe6, 0x03, 0xe6, 0x03, 0x20, 0x2a, 0x06, 0x60,
        0xa2, 0x02, 0xb5, 0x10, 0xc5, 0x10, 0xd0, 0x06, 0xb5, 0x11, 0xc5, 0x11, 0xf0, 0x09,
        0xe8, 0xe8, 0xe4, 0x03, 0xf0, 0x06, 0x4c, 0xaa, 0x06, 0x4c, 0x35, 0x07, 0x60, 0xa6,
        0x03, 0xca, 0x8a, 0xb5, 0x10, 0x95, 0x12, 0xca, 0x10, 0xf9, 0xa5, 0x02, 0x4a, 0xb0,
        0x09, 0x4a, 0xb0, 0x19, 0x4a, 0xb0, 0x1f, 0x4a, 0xb0, 0x2f, 0xa5, 0x10, 0x38, 0xe9,
        0x20, 0x85, 0x10, 0x90, 0x01, 0x60, 0xc6, 0x11, 0xa9, 0x01, 0xc5, 0x11, 0xf0, 0x28,
        0x60, 0xe6, 0x10, 0xa9, 0x1f, 0x24, 0x10, 0xf0, 0x1f, 0x60, 0xa5, 0x10, 0x18, 0x69,
        0x20, 0x85, 0x10, 0xb0, 0x01, 0x60, 0xe6, 0x11, 0xa9, 0x06, 0xc5, 0x11, 0xf0, 0x0c,
        0x60, 0xc6, 0x10, 0xa5, 0x10, 0x29, 0x1f, 0xc9, 0x1f, 0xf0, 0x01, 0x60, 0x4c, 0x35,
        0x07, 0xa0, 0x00, 0xa5, 0xfe, 0x91, 0x00, 0x60, 0xa6, 0x03, 0xa9, 0x00, 0x81, 0x10,
        0xa2, 0x00, 0xa9, 0x01, 0x81, 0x10, 0x60, 0xa2, 0x00, 0xea, 0xea, 0xca, 0xd0, 0xfb,
        0x60,
    ]
}

} // verus!
