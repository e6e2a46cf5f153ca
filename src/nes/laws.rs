//! Properties of the interpreter over whole instructions, stated over the
//! model that every `tick` follows (`cycle`, and `run` for several cycles).
use vstd::prelude::*;
use super::alu::{
    adc_result, adc_status, carry_in, flag, lemma_flag_masks, lemma_with_flag, lemma_zn,
    sbc_result, sbc_status, with_flag, zn, FLAG_CARRY, FLAG_NEGATIVE, FLAG_OVERFLOW, FLAG_ZERO,
};
use super::decode::{address_cycles, decode_spec, skeleton};
use super::ops::{AddressingMode, InstType, MicroOp};
use super::state::{
    add16, add8, advance_pc, at_boundary, cycle, exec_op, hi8, lemma_cycle_exec,
    lemma_cycle_fetch, lemma_word, lo8, pulled, push, read_byte, run, sign_extend, word, CpuState,
    MEMORY_SIZE,
};

verus! {

/// Running `m` cycles and then `n` more is running `m + n` cycles.
pub proof fn lemma_run_add(s: CpuState, m: nat, n: nat)
    ensures
        run(run(s, m), n) == run(s, m + n),
    decreases m,
{
    if m > 0 {
        lemma_run_add(cycle(s), (m - 1) as nat, n);
        assert(run(s, m + n) == run(cycle(s), (m + n - 1) as nat));
    }
}

/// One more cycle after `n` of them.
pub proof fn lemma_run_succ(s: CpuState, n: nat)
    ensures
        run(s, n + 1) == cycle(run(s, n)),
    decreases n,
{
    if n == 0 {
        assert(run(s, 1) == run(cycle(s), 0));
    } else {
        lemma_run_succ(cycle(s), (n - 1) as nat);
        assert(run(s, n) == run(cycle(s), (n - 1) as nat));
        assert(run(s, n + 1) == run(cycle(s), n));
    }
}

/// Every step of a run is one more cycle.
pub proof fn lemma_run_steps(s: CpuState)
    ensures
        forall|j: nat| #[trigger] run(s, j + 1) == cycle(run(s, j)),
{
    assert forall|j: nat| #[trigger] run(s, j + 1) == cycle(run(s, j)) by {
        lemma_run_succ(s, j);
    }
}

pub proof fn lemma_run_one(s: CpuState)
    ensures
        run(s, 1) == cycle(s),
{
    assert(run(cycle(s), 0) == cycle(s));
}

/// A boundary state whose opcode decodes to the single micro-operation `op`
/// runs it in the second cycle and is at a boundary again.
proof fn lemma_single_op(s: CpuState, op: MicroOp)
    requires
        at_boundary(s),
        decode_spec(read_byte(s, s.pc), s.p) == Some(seq![op]),
    ensures
        run(s, 2) == exec_op(CpuState { opcode: read_byte(s, s.pc), ..advance_pc(s) }, op),
{
    lemma_cycle_fetch(s);
    let s1 = cycle(s);
    lemma_cycle_exec(s1);
    lemma_run_one(s1);
    lemma_run_add(s, 1, 1);
    lemma_run_one(s);
    assert(s1.queue.drop_first() =~= s.queue);
    assert((CpuState { queue: s1.queue.drop_first(), ..s1 }) == (CpuState {
        opcode: read_byte(s, s.pc),
        ..advance_pc(s)
    }));
}

/// The state right after the opcode fetch, as far as registers and memory go.
pub open spec fn fetched(s: CpuState) -> CpuState {
    CpuState { opcode: read_byte(s, s.pc), ..advance_pc(s) }
}

/// TAX, TAY, TXA, TYA and TSX copy their source register into their
/// destination and set Z and N from the byte moved; TXS copies X into SP and
/// leaves the status alone. Each takes two cycles and changes nothing else but PC.
pub proof fn law_transfers(s: CpuState)
    requires
        at_boundary(s),
    ensures
        read_byte(s, s.pc) == 0xAA ==> run(s, 2) == (CpuState {
            x: s.a,
            p: zn(s.p, s.a),
            ..fetched(s)
        }),
        read_byte(s, s.pc) == 0xA8 ==> run(s, 2) == (CpuState {
            y: s.a,
            p: zn(s.p, s.a),
            ..fetched(s)
        }),
        read_byte(s, s.pc) == 0x8A ==> run(s, 2) == (CpuState {
            a: s.x,
            p: zn(s.p, s.x),
            ..fetched(s)
        }),
        read_byte(s, s.pc) == 0x98 ==> run(s, 2) == (CpuState {
            a: s.y,
            p: zn(s.p, s.y),
            ..fetched(s)
        }),
        read_byte(s, s.pc) == 0xBA ==> run(s, 2) == (CpuState {
            x: s.sp,
            p: zn(s.p, s.sp),
            ..fetched(s)
        }),
        read_byte(s, s.pc) == 0x9A ==> run(s, 2) == (CpuState { sp: s.x, ..fetched(s) }),
{
    let op = read_byte(s, s.pc);
    if op == 0xAA {
        lemma_single_op(s, MicroOp::LoadXAccumulator);
    } else if op == 0xA8 {
        lemma_single_op(s, MicroOp::LoadYAccumulator);
    } else if op == 0x8A {
        lemma_single_op(s, MicroOp::LoadAccumulatorX);
    } else if op == 0x98 {
        lemma_single_op(s, MicroOp::LoadAccumulatorY);
    } else if op == 0xBA {
        lemma_single_op(s, MicroOp::LoadXStackPointer);
    } else if op == 0x9A {
        lemma_single_op(s, MicroOp::LoadStackPointerX);
    }
}

/// INX, INY, DEX and DEY step their register by one modulo 256 and set Z and N
/// from the new value, in two cycles.
pub proof fn law_register_steps(s: CpuState)
    requires
        at_boundary(s),
    ensures
        read_byte(s, s.pc) == 0xE8 ==> run(s, 2) == (CpuState {
            x: add8(s.x, 1),
            p: zn(s.p, add8(s.x, 1)),
            ..fetched(s)
        }),
        read_byte(s, s.pc) == 0xC8 ==> run(s, 2) == (CpuState {
            y: add8(s.y, 1),
            p: zn(s.p, add8(s.y, 1)),
            ..fetched(s)
        }),
        read_byte(s, s.pc) == 0xCA ==> run(s, 2) == (CpuState {
            x: add8(s.x, -1),
            p: zn(s.p, add8(s.x, -1)),
            ..fetched(s)
        }),
        read_byte(s, s.pc) == 0x88 ==> run(s, 2) == (CpuState {
            y: add8(s.y, -1),
            p: zn(s.p, add8(s.y, -1)),
            ..fetched(s)
        }),
{
    let op = read_byte(s, s.pc);
    if op == 0xE8 {
        lemma_single_op(s, MicroOp::IncrementX);
    } else if op == 0xC8 {
        lemma_single_op(s, MicroOp::IncrementY);
    } else if op == 0xCA {
        lemma_single_op(s, MicroOp::DecrementX);
    } else if op == 0x88 {
        lemma_single_op(s, MicroOp::DecrementY);
    }
}

/// The last three cycles of INC and DEC, which every addressing mode shares:
/// the byte at the effective address goes up (down) by one modulo 256, Z and N
/// come from the new value, and the instruction is over.
#[verifier::spinoff_prover]
#[verifier::rlimit(100)]
pub proof fn law_memory_steps(s: CpuState)
    requires
        s.mem.len() == MEMORY_SIZE,
        s.queue == seq![
            MicroOp::ReadAddress,
            MicroOp::WriteBackAndIncrement,
            MicroOp::WriteToAddress,
        ] || s.queue == seq![
            MicroOp::ReadAddress,
            MicroOp::WriteBackAndDecrement,
            MicroOp::WriteToAddress,
        ],
    ensures
        ({
            let old_val = read_byte(s, s.temp_addr);
            let new_val = if s.queue[1] == MicroOp::WriteBackAndIncrement {
                add8(old_val, 1)
            } else {
                add8(old_val, -1)
            };
            &&& at_boundary(run(s, 3))
            &&& run(s, 3).mem == s.mem.update(s.temp_addr as int, new_val)
            &&& run(s, 3).p == zn(s.p, new_val)
        }),
{
    lemma_run_succ(s, 0);
    lemma_run_succ(s, 1);
    lemma_run_succ(s, 2);
    lemma_cycle_exec(s);
    let s1 = cycle(s);
    lemma_cycle_exec(s1);
    let s2 = cycle(s1);
    lemma_cycle_exec(s2);
    assert(s1.queue == s.queue.drop_first());
    assert(s2.queue == s1.queue.drop_first());
    assert(s2.mem =~= s.mem.update(s.temp_addr as int, read_byte(s, s.temp_addr)));
    assert(cycle(s2).mem =~= s2.mem.update(s.temp_addr as int, s2.temp_val));
}

/// INC and DEC in every addressing mode: when the instruction ends, the byte at
/// the effective address has gone up (down) by one modulo 256, and Z and N come
/// from the new value.
pub proof fn law_inc_dec(s: CpuState, mode: AddressingMode, inst: MicroOp)
    requires
        at_boundary(s),
        s.mem.len() == MEMORY_SIZE,
        inst == MicroOp::WriteBackAndIncrement || inst == MicroOp::WriteBackAndDecrement,
        decode_spec(read_byte(s, s.pc), s.p) == Some(skeleton(mode, inst, InstType::RMW)),
    ensures
        ({
            let n = address_phase_cycles(s, mode, InstType::RMW) + 3;
            let ea = effective_address(s, mode);
            let new_val = if inst == MicroOp::WriteBackAndIncrement {
                add8(read_byte(s, ea), 1)
            } else {
                add8(read_byte(s, ea), -1)
            };
            &&& at_boundary(run(s, n))
            &&& run(s, n).mem == s.mem.update(ea as int, new_val)
            &&& run(s, n).p == zn(s.p, new_val)
        }),
{
    law_addressing(s, mode, inst, InstType::RMW);
    let m = address_phase_cycles(s, mode, InstType::RMW);
    law_memory_steps(run(s, m));
    lemma_run_add(s, m, 3);
}

/// PHA followed by PLA leaves A and SP as they were, in seven cycles.
pub proof fn law_pha_pla(s: CpuState)
    requires
        at_boundary(s),
        s.mem.len() == MEMORY_SIZE,
        read_byte(s, s.pc) == 0x48,
        read_byte(run(s, 3), run(s, 3).pc) == 0x68,
    ensures
        at_boundary(run(s, 3)),
        at_boundary(run(s, 7)),
        run(s, 7).a == s.a,
        run(s, 7).sp == s.sp,
{
    lemma_stack_round_trip(s);
}

/// PHP followed by PLP leaves P and SP as they were, in seven cycles.
pub proof fn law_php_plp(s: CpuState)
    requires
        at_boundary(s),
        s.mem.len() == MEMORY_SIZE,
        read_byte(s, s.pc) == 0x08,
        read_byte(run(s, 3), run(s, 3).pc) == 0x28,
    ensures
        at_boundary(run(s, 3)),
        at_boundary(run(s, 7)),
        run(s, 7).p == s.p,
        run(s, 7).sp == s.sp,
{
    lemma_stack_round_trip(s);
}

/// PHA and PHP: three cycles that push A (or P as it is) and move SP down.
#[verifier::spinoff_prover]
#[verifier::rlimit(100)]
proof fn lemma_push_instruction(s: CpuState)
    requires
        at_boundary(s),
        read_byte(s, s.pc) == 0x48 || read_byte(s, s.pc) == 0x08,
    ensures
        read_byte(s, s.pc) == 0x48 ==> run(s, 3) == push(fetched(s), s.a),
        read_byte(s, s.pc) == 0x08 ==> run(s, 3) == push(fetched(s), s.p),
{
    lemma_run_succ(s, 0);
    lemma_run_succ(s, 1);
    lemma_run_succ(s, 2);
    lemma_cycle_fetch(s);
    let s1 = cycle(s);
    lemma_cycle_exec(s1);
    let s2 = cycle(s1);
    lemma_cycle_exec(s2);
    assert(s2.queue == s1.queue.drop_first());
    assert(s2.queue.drop_first() =~= s.queue);
}

/// PLA and PLP: four cycles that move SP up and pull A (setting Z and N) or P.
#[verifier::spinoff_prover]
#[verifier::rlimit(100)]
proof fn lemma_pull_instruction(s: CpuState)
    requires
        at_boundary(s),
        read_byte(s, s.pc) == 0x68 || read_byte(s, s.pc) == 0x28,
    ensures
        ({
            let u = CpuState { sp: add8(s.sp, 1), ..fetched(s) };
            &&& read_byte(s, s.pc) == 0x68 ==> run(s, 4) == (CpuState {
                a: pulled(u),
                p: zn(s.p, pulled(u)),
                ..u
            })
            &&& read_byte(s, s.pc) == 0x28 ==> run(s, 4) == (CpuState { p: pulled(u), ..u })
        }),
{
    lemma_run_succ(s, 0);
    lemma_run_succ(s, 1);
    lemma_run_succ(s, 2);
    lemma_run_succ(s, 3);
    lemma_cycle_fetch(s);
    let s1 = cycle(s);
    lemma_cycle_exec(s1);
    let s2 = cycle(s1);
    lemma_cycle_exec(s2);
    let s3 = cycle(s2);
    lemma_cycle_exec(s3);
    assert(s2.queue == s1.queue.drop_first());
    assert(s3.queue == s2.queue.drop_first());
    assert(s3.queue.drop_first() =~= s.queue);
}

proof fn lemma_stack_round_trip(s: CpuState)
    requires
        at_boundary(s),
        s.mem.len() == MEMORY_SIZE,
        read_byte(s, s.pc) == 0x48 && read_byte(run(s, 3), run(s, 3).pc) == 0x68
            || read_byte(s, s.pc) == 0x08 && read_byte(run(s, 3), run(s, 3).pc) == 0x28,
    ensures
        at_boundary(run(s, 3)),
        at_boundary(run(s, 7)),
        read_byte(s, s.pc) == 0x48 ==> run(s, 7).a == s.a,
        read_byte(s, s.pc) == 0x08 ==> run(s, 7).p == s.p,
        run(s, 7).sp == s.sp,
{
    lemma_push_instruction(s);
    let t = run(s, 3);
    lemma_pull_instruction(t);
    lemma_run_add(s, 3, 4);
    assert(add8(add8(s.sp, -1), 1) == s.sp);
}

/// JMP ($ptr) takes five cycles and jumps to the little-endian word at `ptr`,
/// whose high byte is read within the page of `ptr`: at `$xxFF` it comes from `$xx00`.
#[verifier::spinoff_prover]
#[verifier::rlimit(100)]
pub proof fn law_jmp_indirect(s: CpuState)
    requires
        at_boundary(s),
        read_byte(s, s.pc) == 0x6C,
    ensures
        ({
            let ptr = word(read_byte(s, add16(s.pc, 1)), read_byte(s, add16(s.pc, 2)));
            &&& at_boundary(run(s, 5))
            &&& run(s, 5).pc == word(
                read_byte(s, ptr),
                read_byte(s, word(add8(lo8(ptr), 1), hi8(ptr))),
            )
            &&& lo8(ptr) == 0xFF ==> run(s, 5).pc == word(
                read_byte(s, ptr),
                read_byte(s, word(0, hi8(ptr))),
            )
        }),
{
    let ptr = word(read_byte(s, add16(s.pc, 1)), read_byte(s, add16(s.pc, 2)));
    lemma_run_succ(s, 0);
    lemma_run_succ(s, 1);
    lemma_run_succ(s, 2);
    lemma_run_succ(s, 3);
    lemma_run_succ(s, 4);
    lemma_cycle_fetch(s);
    let s1 = cycle(s);
    assert(s1.queue =~= seq![
        MicroOp::FetchLowAddrByte,
        MicroOp::FetchHighAddrByte,
        MicroOp::ReadLowFromIndirect,
        MicroOp::ReadHighFromIndirectLatch,
    ]);
    lemma_cycle_exec(s1);
    let s2 = cycle(s1);
    assert(s2.queue =~= seq![
        MicroOp::FetchHighAddrByte,
        MicroOp::ReadLowFromIndirect,
        MicroOp::ReadHighFromIndirectLatch,
    ]);
    assert(s2.temp_addr == read_byte(s, add16(s.pc, 1)) as u16);
    lemma_cycle_exec(s2);
    let s3 = cycle(s2);
    assert(add16(add16(s.pc, 1), 1) == add16(s.pc, 2));
    assert(s3.queue =~= seq![MicroOp::ReadLowFromIndirect, MicroOp::ReadHighFromIndirectLatch]);
    lemma_word(read_byte(s, add16(s.pc, 1)), read_byte(s, add16(s.pc, 2)));
    assert(s3.temp_addr == ptr);
    assert(s3.mem == s.mem);
    lemma_cycle_exec(s3);
    let s4 = cycle(s3);
    assert(s4.queue =~= seq![MicroOp::ReadHighFromIndirectLatch]);
    assert(s4.temp_ptr == read_byte(s, ptr) as u16);
    assert(s4.temp_addr == ptr);
    lemma_cycle_exec(s4);
    assert(cycle(s4).queue =~= s.queue);
    assert(lo8(read_byte(s, ptr) as u16) == read_byte(s, ptr));
    assert(add8(0xFF, 1) == 0);
}

pub open spec fn is_branch(opcode: u8) -> bool {
    opcode == 0x90 || opcode == 0xB0 || opcode == 0xF0 || opcode == 0xD0 || opcode == 0x30
        || opcode == 0x10 || opcode == 0x50 || opcode == 0x70
}

/// Whether branch `opcode` is taken under status `p`.
pub open spec fn branch_taken(opcode: u8, p: u8) -> bool {
    match opcode {
        0x90 => !flag(p, FLAG_CARRY),
        0xB0 => flag(p, FLAG_CARRY),
        0xF0 => flag(p, FLAG_ZERO),
        0xD0 => !flag(p, FLAG_ZERO),
        0x30 => flag(p, FLAG_NEGATIVE),
        0x10 => !flag(p, FLAG_NEGATIVE),
        0x50 => !flag(p, FLAG_OVERFLOW),
        _ => flag(p, FLAG_OVERFLOW),
    }
}

proof fn lemma_single_bit_tests(p: u8)
    ensures
        (p & FLAG_CARRY == FLAG_CARRY) == flag(p, FLAG_CARRY),
        (p & FLAG_CARRY == 0) == !flag(p, FLAG_CARRY),
        (p & FLAG_ZERO == FLAG_ZERO) == flag(p, FLAG_ZERO),
        (p & FLAG_ZERO == 0) == !flag(p, FLAG_ZERO),
        (p & FLAG_NEGATIVE == FLAG_NEGATIVE) == flag(p, FLAG_NEGATIVE),
        (p & FLAG_NEGATIVE == 0) == !flag(p, FLAG_NEGATIVE),
        (p & FLAG_OVERFLOW == FLAG_OVERFLOW) == flag(p, FLAG_OVERFLOW),
        (p & FLAG_OVERFLOW == 0) == !flag(p, FLAG_OVERFLOW),
{
    assert((p & 1u8 == 1u8 || p & 1u8 == 0u8) && (p & 2u8 == 2u8 || p & 2u8 == 0u8) && (p & 128u8
        == 128u8 || p & 128u8 == 0u8) && (p & 64u8 == 64u8 || p & 64u8 == 0u8)) by (bit_vector);
}

/// A branch reads its offset and, when not taken, is over after two cycles with
/// PC past the offset. When taken, PC moves by the sign-extended offset, which
/// costs one more cycle, and one more again when the target is on another page.
#[verifier::spinoff_prover]
#[verifier::rlimit(100)]
pub proof fn law_branch(s: CpuState)
    requires
        at_boundary(s),
        is_branch(read_byte(s, s.pc)),
    ensures
        ({
            let next = add16(s.pc, 2);
            let target = add16(next, sign_extend(read_byte(s, add16(s.pc, 1))));
            let taken = branch_taken(read_byte(s, s.pc), s.p);
            &&& !taken ==> at_boundary(run(s, 2)) && run(s, 2).pc == next
            &&& taken && hi8(next) == hi8(target) ==> !at_boundary(run(s, 2)) && at_boundary(
                run(s, 3),
            ) && run(s, 3).pc == target
            &&& taken && hi8(next) != hi8(target) ==> !at_boundary(run(s, 2)) && !at_boundary(
                run(s, 3),
            ) && at_boundary(run(s, 4)) && run(s, 4).pc == target
        }),
{
    lemma_single_bit_tests(s.p);
    let taken = branch_taken(read_byte(s, s.pc), s.p);
    lemma_run_succ(s, 0);
    lemma_run_succ(s, 1);
    lemma_run_succ(s, 2);
    lemma_run_succ(s, 3);
    lemma_cycle_fetch(s);
    let s1 = cycle(s);
    lemma_cycle_exec(s1);
    let s2 = cycle(s1);
    assert(add16(add16(s.pc, 1), 1) == add16(s.pc, 2));
    assert(s2.pc == add16(s.pc, 2));
    if taken {
        assert(s2.queue.len() == 1);
        lemma_cycle_exec(s2);
        let s3 = cycle(s2);
        if !at_boundary(s3) {
            lemma_cycle_exec(s3);
        }
    } else {
        assert(s2.queue.len() == 0);
    }
}

/// The first operand byte of the instruction at PC.
pub open spec fn operand1(s: CpuState) -> u8 {
    read_byte(s, add16(s.pc, 1))
}

/// The second operand byte of the instruction at PC.
pub open spec fn operand2(s: CpuState) -> u8 {
    read_byte(s, add16(s.pc, 2))
}

/// The address that `mode` forms from the operand, before any index is added.
pub open spec fn base_address(s: CpuState, mode: AddressingMode) -> u16 {
    let b1 = operand1(s);
    match mode {
        AddressingMode::ZeroPage | AddressingMode::ZeroPageX | AddressingMode::ZeroPageY => {
            b1 as u16
        },
        AddressingMode::Absolute | AddressingMode::AbsoluteX | AddressingMode::AbsoluteY => word(
            b1,
            operand2(s),
        ),
        AddressingMode::IndexedIndirect => {
            let ptr = add8(b1, s.x as int);
            word(read_byte(s, ptr as u16), read_byte(s, add8(ptr, 1) as u16))
        },
        AddressingMode::IndirectIndexed => word(
            read_byte(s, b1 as u16),
            read_byte(s, add8(b1, 1) as u16),
        ),
    }
}

/// The effective address of the instruction at PC in addressing mode `mode`.
/// Zero-page indexing wraps in 8 bits, absolute indexing in 16 bits, and the
/// pointer of an indirect mode is read within page zero.
pub open spec fn effective_address(s: CpuState, mode: AddressingMode) -> u16 {
    let base = base_address(s, mode);
    match mode {
        AddressingMode::ZeroPageX => add8(operand1(s), s.x as int) as u16,
        AddressingMode::ZeroPageY => add8(operand1(s), s.y as int) as u16,
        AddressingMode::AbsoluteX => add16(base, s.x as int),
        AddressingMode::AbsoluteY | AddressingMode::IndirectIndexed => add16(base, s.y as int),
        _ => base,
    }
}

/// Whether indexing moved the effective address to another page.
pub open spec fn crosses_page(s: CpuState, mode: AddressingMode) -> bool {
    match mode {
        AddressingMode::AbsoluteX | AddressingMode::AbsoluteY | AddressingMode::IndirectIndexed => {
            hi8(base_address(s, mode)) != hi8(effective_address(s, mode))
        },
        _ => false,
    }
}

pub open spec fn operand_len(mode: AddressingMode) -> int {
    match mode {
        AddressingMode::Absolute | AddressingMode::AbsoluteX | AddressingMode::AbsoluteY => 2,
        _ => 1,
    }
}

/// The cycles of an instruction in `mode` and class `class` before the
/// instruction's own cycles: the fetch, the addressing cycles, and for a read
/// one more when indexing crossed a page.
pub open spec fn address_phase_cycles(s: CpuState, mode: AddressingMode, class: InstType) -> nat {
    (1 + address_cycles(mode, class).len() + if class == InstType::Read && crosses_page(s, mode) {
        1int
    } else {
        0
    }) as nat
}

/// The cycles of a read instruction in `mode` before its own cycle.
pub open spec fn read_address_cycles(s: CpuState, mode: AddressingMode) -> nat {
    address_phase_cycles(s, mode, InstType::Read)
}

/// After `n` cycles of the instruction at `s`: only the cycles `rest` are left,
/// the effective address is latched, registers and memory are as they were, PC
/// is past the operand, and no earlier cycle ended the instruction.
pub open spec fn address_formed(
    s: CpuState,
    mode: AddressingMode,
    rest: Seq<MicroOp>,
    n: nat,
) -> bool {
    let t = run(s, n);
    &&& t.queue == rest
    &&& t.temp_addr == effective_address(s, mode)
    &&& t.a == s.a && t.x == s.x && t.y == s.y && t.sp == s.sp && t.p == s.p
    &&& t.mem == s.mem
    &&& t.pc == add16(s.pc, 1 + operand_len(mode))
    &&& forall|j: nat| 0 < j <= n ==> !at_boundary(#[trigger] run(s, j))
}

#[verifier::spinoff_prover]
#[verifier::rlimit(100)]
proof fn lemma_address_zeropage(s: CpuState, class: InstType, rest: Seq<MicroOp>)
    requires
        at_boundary(s),
        s.mem.len() == MEMORY_SIZE,
        rest.len() > 0,
        rest[0] != MicroOp::DummyCycle,
        decode_spec(read_byte(s, s.pc), s.p) == Some(
            address_cycles(AddressingMode::ZeroPage, class) + rest,
        ),
    ensures
        address_formed(
            s,
            AddressingMode::ZeroPage,
            rest,
            address_phase_cycles(s, AddressingMode::ZeroPage, class),
        ),
{
    lemma_word(operand1(s), operand2(s));
    assert(add16(add16(s.pc, 1), 1) == add16(s.pc, 2));
    assert(add16(add16(s.pc, 2), 1) == add16(s.pc, 3));
    lemma_run_steps(s);
    lemma_cycle_fetch(s);
    let s1 = cycle(s);
    assert(s1.queue =~= seq![MicroOp::FetchZeroPage] + rest);
    lemma_cycle_exec(s1);
    let s2 = cycle(s1);
    assert(s2.queue =~= Seq::<MicroOp>::empty() + rest);
}

#[verifier::spinoff_prover]
#[verifier::rlimit(100)]
proof fn lemma_address_zeropagex(s: CpuState, class: InstType, rest: Seq<MicroOp>)
    requires
        at_boundary(s),
        s.mem.len() == MEMORY_SIZE,
        rest.len() > 0,
        rest[0] != MicroOp::DummyCycle,
        decode_spec(read_byte(s, s.pc), s.p) == Some(
            address_cycles(AddressingMode::ZeroPageX, class) + rest,
        ),
    ensures
        address_formed(
            s,
            AddressingMode::ZeroPageX,
            rest,
            address_phase_cycles(s, AddressingMode::ZeroPageX, class),
        ),
{
    lemma_word(operand1(s), operand2(s));
    assert(add16(add16(s.pc, 1), 1) == add16(s.pc, 2));
    assert(add16(add16(s.pc, 2), 1) == add16(s.pc, 3));
    lemma_run_steps(s);
    lemma_cycle_fetch(s);
    let s1 = cycle(s);
    assert(s1.queue =~= seq![MicroOp::FetchZeroPage, MicroOp::AddXtoZeroPageAddress] + rest);
    lemma_cycle_exec(s1);
    let s2 = cycle(s1);
    assert(s2.queue =~= seq![MicroOp::AddXtoZeroPageAddress] + rest);
    lemma_cycle_exec(s2);
    let s3 = cycle(s2);
    assert(s3.queue =~= Seq::<MicroOp>::empty() + rest);
}

#[verifier::spinoff_prover]
#[verifier::rlimit(100)]
proof fn lemma_address_zeropagey(s: CpuState, class: InstType, rest: Seq<MicroOp>)
    requires
        at_boundary(s),
        s.mem.len() == MEMORY_SIZE,
        rest.len() > 0,
        rest[0] != MicroOp::DummyCycle,
        decode_spec(read_byte(s, s.pc), s.p) == Some(
            address_cycles(AddressingMode::ZeroPageY, class) + rest,
        ),
    ensures
        address_formed(
            s,
            AddressingMode::ZeroPageY,
            rest,
            address_phase_cycles(s, AddressingMode::ZeroPageY, class),
        ),
{
    lemma_word(operand1(s), operand2(s));
    assert(add16(add16(s.pc, 1), 1) == add16(s.pc, 2));
    assert(add16(add16(s.pc, 2), 1) == add16(s.pc, 3));
    lemma_run_steps(s);
    lemma_cycle_fetch(s);
    let s1 = cycle(s);
    assert(s1.queue =~= seq![MicroOp::FetchZeroPage, MicroOp::AddYtoZeroPageAddress] + rest);
    lemma_cycle_exec(s1);
    let s2 = cycle(s1);
    assert(s2.queue =~= seq![MicroOp::AddYtoZeroPageAddress] + rest);
    lemma_cycle_exec(s2);
    let s3 = cycle(s2);
    assert(s3.queue =~= Seq::<MicroOp>::empty() + rest);
}

#[verifier::spinoff_prover]
#[verifier::rlimit(100)]
proof fn lemma_address_absolute(s: CpuState, class: InstType, rest: Seq<MicroOp>)
    requires
        at_boundary(s),
        s.mem.len() == MEMORY_SIZE,
        rest.len() > 0,
        rest[0] != MicroOp::DummyCycle,
        decode_spec(read_byte(s, s.pc), s.p) == Some(
            address_cycles(AddressingMode::Absolute, class) + rest,
        ),
    ensures
        address_formed(
            s,
            AddressingMode::Absolute,
            rest,
            address_phase_cycles(s, AddressingMode::Absolute, class),
        ),
{
    lemma_word(operand1(s), operand2(s));
    assert(add16(add16(s.pc, 1), 1) == add16(s.pc, 2));
    assert(add16(add16(s.pc, 2), 1) == add16(s.pc, 3));
    lemma_run_steps(s);
    lemma_cycle_fetch(s);
    let s1 = cycle(s);
    assert(s1.queue =~= seq![MicroOp::FetchLowAddrByte, MicroOp::FetchHighAddrByte] + rest);
    lemma_cycle_exec(s1);
    let s2 = cycle(s1);
    assert(s2.queue =~= seq![MicroOp::FetchHighAddrByte] + rest);
    lemma_cycle_exec(s2);
    let s3 = cycle(s2);
    assert(s3.queue =~= Seq::<MicroOp>::empty() + rest);
}

#[verifier::spinoff_prover]
#[verifier::rlimit(100)]
proof fn lemma_address_absolutex_read(s: CpuState, class: InstType, rest: Seq<MicroOp>)
    requires
        at_boundary(s),
        s.mem.len() == MEMORY_SIZE,
        class == InstType::Read,
        rest.len() == 1,
        rest[0] != MicroOp::DummyCycle,
        decode_spec(read_byte(s, s.pc), s.p) == Some(
            address_cycles(AddressingMode::AbsoluteX, class) + rest,
        ),
    ensures
        address_formed(
            s,
            AddressingMode::AbsoluteX,
            rest,
            address_phase_cycles(s, AddressingMode::AbsoluteX, class),
        ),
{
    lemma_word(operand1(s), operand2(s));
    assert(add16(add16(s.pc, 1), 1) == add16(s.pc, 2));
    assert(add16(add16(s.pc, 2), 1) == add16(s.pc, 3));
    lemma_run_steps(s);
    lemma_cycle_fetch(s);
    let s1 = cycle(s);
    assert(s1.queue =~= seq![MicroOp::FetchLowAddrByte, MicroOp::FetchHighAddrByteWithX] + rest);
    lemma_cycle_exec(s1);
    let s2 = cycle(s1);
    assert(s2.queue =~= seq![MicroOp::FetchHighAddrByteWithX] + rest);
    lemma_cycle_exec(s2);
    let s3 = cycle(s2);
    assert(s2.queue.drop_first() =~= Seq::<MicroOp>::empty() + rest);
    if crosses_page(s, AddressingMode::AbsoluteX) {
        assert(s3.queue =~= seq![MicroOp::DummyCycle] + rest);
        lemma_cycle_exec(s3);
        assert(cycle(s3).queue =~= rest);
    }
}

#[verifier::spinoff_prover]
#[verifier::rlimit(100)]
proof fn lemma_address_absolutex_other(s: CpuState, class: InstType, rest: Seq<MicroOp>)
    requires
        at_boundary(s),
        s.mem.len() == MEMORY_SIZE,
        class != InstType::Read,
        rest.len() > 0,
        rest[0] != MicroOp::DummyCycle,
        decode_spec(read_byte(s, s.pc), s.p) == Some(
            address_cycles(AddressingMode::AbsoluteX, class) + rest,
        ),
    ensures
        address_formed(
            s,
            AddressingMode::AbsoluteX,
            rest,
            address_phase_cycles(s, AddressingMode::AbsoluteX, class),
        ),
{
    lemma_word(operand1(s), operand2(s));
    assert(add16(add16(s.pc, 1), 1) == add16(s.pc, 2));
    assert(add16(add16(s.pc, 2), 1) == add16(s.pc, 3));
    lemma_run_steps(s);
    lemma_cycle_fetch(s);
    let s1 = cycle(s);
    assert(s1.queue =~= seq![
        MicroOp::FetchLowAddrByte,
        MicroOp::FetchHighAddrByteWithX,
        MicroOp::DummyCycle,
    ] + rest);
    lemma_cycle_exec(s1);
    let s2 = cycle(s1);
    assert(s2.queue =~= seq![MicroOp::FetchHighAddrByteWithX, MicroOp::DummyCycle] + rest);
    lemma_cycle_exec(s2);
    let s3 = cycle(s2);
    assert(s2.queue.drop_first() =~= seq![MicroOp::DummyCycle] + rest);
    lemma_cycle_exec(s3);
    let s4 = cycle(s3);
    assert(s4.queue =~= Seq::<MicroOp>::empty() + rest);
}

proof fn lemma_address_absolutex(s: CpuState, class: InstType, rest: Seq<MicroOp>)
    requires
        at_boundary(s),
        s.mem.len() == MEMORY_SIZE,
        rest.len() > 0,
        class == InstType::Read ==> rest.len() == 1,
        rest[0] != MicroOp::DummyCycle,
        decode_spec(read_byte(s, s.pc), s.p) == Some(
            address_cycles(AddressingMode::AbsoluteX, class) + rest,
        ),
    ensures
        address_formed(
            s,
            AddressingMode::AbsoluteX,
            rest,
            address_phase_cycles(s, AddressingMode::AbsoluteX, class),
        ),
{
    if class == InstType::Read {
        lemma_address_absolutex_read(s, class, rest);
    } else {
        lemma_address_absolutex_other(s, class, rest);
    }
}

#[verifier::spinoff_prover]
#[verifier::rlimit(100)]
proof fn lemma_address_absolutey_read(s: CpuState, class: InstType, rest: Seq<MicroOp>)
    requires
        at_boundary(s),
        s.mem.len() == MEMORY_SIZE,
        class == InstType::Read,
        rest.len() == 1,
        rest[0] != MicroOp::DummyCycle,
        decode_spec(read_byte(s, s.pc), s.p) == Some(
            address_cycles(AddressingMode::AbsoluteY, class) + rest,
        ),
    ensures
        address_formed(
            s,
            AddressingMode::AbsoluteY,
            rest,
            address_phase_cycles(s, AddressingMode::AbsoluteY, class),
        ),
{
    lemma_word(operand1(s), operand2(s));
    assert(add16(add16(s.pc, 1), 1) == add16(s.pc, 2));
    assert(add16(add16(s.pc, 2), 1) == add16(s.pc, 3));
    lemma_run_steps(s);
    lemma_cycle_fetch(s);
    let s1 = cycle(s);
    assert(s1.queue =~= seq![MicroOp::FetchLowAddrByte, MicroOp::FetchHighAddrByteWithY] + rest);
    lemma_cycle_exec(s1);
    let s2 = cycle(s1);
    assert(s2.queue =~= seq![MicroOp::FetchHighAddrByteWithY] + rest);
    lemma_cycle_exec(s2);
    let s3 = cycle(s2);
    assert(s2.queue.drop_first() =~= Seq::<MicroOp>::empty() + rest);
    if crosses_page(s, AddressingMode::AbsoluteY) {
        assert(s3.queue =~= seq![MicroOp::DummyCycle] + rest);
        lemma_cycle_exec(s3);
        assert(cycle(s3).queue =~= rest);
    }
}

#[verifier::spinoff_prover]
#[verifier::rlimit(100)]
proof fn lemma_address_absolutey_other(s: CpuState, class: InstType, rest: Seq<MicroOp>)
    requires
        at_boundary(s),
        s.mem.len() == MEMORY_SIZE,
        class != InstType::Read,
        rest.len() > 0,
        rest[0] != MicroOp::DummyCycle,
        decode_spec(read_byte(s, s.pc), s.p) == Some(
            address_cycles(AddressingMode::AbsoluteY, class) + rest,
        ),
    ensures
        address_formed(
            s,
            AddressingMode::AbsoluteY,
            rest,
            address_phase_cycles(s, AddressingMode::AbsoluteY, class),
        ),
{
    lemma_word(operand1(s), operand2(s));
    assert(add16(add16(s.pc, 1), 1) == add16(s.pc, 2));
    assert(add16(add16(s.pc, 2), 1) == add16(s.pc, 3));
    lemma_run_steps(s);
    lemma_cycle_fetch(s);
    let s1 = cycle(s);
    assert(s1.queue =~= seq![
        MicroOp::FetchLowAddrByte,
        MicroOp::FetchHighAddrByteWithY,
        MicroOp::DummyCycle,
    ] + rest);
    lemma_cycle_exec(s1);
    let s2 = cycle(s1);
    assert(s2.queue =~= seq![MicroOp::FetchHighAddrByteWithY, MicroOp::DummyCycle] + rest);
    lemma_cycle_exec(s2);
    let s3 = cycle(s2);
    assert(s2.queue.drop_first() =~= seq![MicroOp::DummyCycle] + rest);
    lemma_cycle_exec(s3);
    let s4 = cycle(s3);
    assert(s4.queue =~= Seq::<MicroOp>::empty() + rest);
}

proof fn lemma_address_absolutey(s: CpuState, class: InstType, rest: Seq<MicroOp>)
    requires
        at_boundary(s),
        s.mem.len() == MEMORY_SIZE,
        rest.len() > 0,
        class == InstType::Read ==> rest.len() == 1,
        rest[0] != MicroOp::DummyCycle,
        decode_spec(read_byte(s, s.pc), s.p) == Some(
            address_cycles(AddressingMode::AbsoluteY, class) + rest,
        ),
    ensures
        address_formed(
            s,
            AddressingMode::AbsoluteY,
            rest,
            address_phase_cycles(s, AddressingMode::AbsoluteY, class),
        ),
{
    if class == InstType::Read {
        lemma_address_absolutey_read(s, class, rest);
    } else {
        lemma_address_absolutey_other(s, class, rest);
    }
}

#[verifier::spinoff_prover]
#[verifier::rlimit(100)]
proof fn lemma_address_indexedindirect(s: CpuState, class: InstType, rest: Seq<MicroOp>)
    requires
        at_boundary(s),
        s.mem.len() == MEMORY_SIZE,
        rest.len() > 0,
        rest[0] != MicroOp::DummyCycle,
        decode_spec(read_byte(s, s.pc), s.p) == Some(
            address_cycles(AddressingMode::IndexedIndirect, class) + rest,
        ),
    ensures
        address_formed(
            s,
            AddressingMode::IndexedIndirect,
            rest,
            address_phase_cycles(s, AddressingMode::IndexedIndirect, class),
        ),
{
    lemma_word(operand1(s), operand2(s));
    assert(add16(add16(s.pc, 1), 1) == add16(s.pc, 2));
    assert(add16(add16(s.pc, 2), 1) == add16(s.pc, 3));
    lemma_run_steps(s);
    lemma_cycle_fetch(s);
    let s1 = cycle(s);
    assert(s1.queue =~= seq![
        MicroOp::FetchZeroPage,
        MicroOp::AddXtoPointer,
        MicroOp::FetchPointerLowByte,
        MicroOp::FetchPointerHighByte,
    ] + rest);
    lemma_cycle_exec(s1);
    let s2 = cycle(s1);
    assert(s2.queue =~= seq![
        MicroOp::AddXtoPointer,
        MicroOp::FetchPointerLowByte,
        MicroOp::FetchPointerHighByte,
    ] + rest);
    lemma_cycle_exec(s2);
    let s3 = cycle(s2);
    assert(s3.queue =~= seq![MicroOp::FetchPointerLowByte, MicroOp::FetchPointerHighByte] + rest);
    lemma_cycle_exec(s3);
    let s4 = cycle(s3);
    assert(s4.queue =~= seq![MicroOp::FetchPointerHighByte] + rest);
    lemma_cycle_exec(s4);
    let s5 = cycle(s4);
    assert(s5.queue =~= Seq::<MicroOp>::empty() + rest);
}

#[verifier::spinoff_prover]
#[verifier::rlimit(100)]
proof fn lemma_address_indirectindexed_read(s: CpuState, class: InstType, rest: Seq<MicroOp>)
    requires
        at_boundary(s),
        s.mem.len() == MEMORY_SIZE,
        class == InstType::Read,
        rest.len() == 1,
        rest[0] != MicroOp::DummyCycle,
        decode_spec(read_byte(s, s.pc), s.p) == Some(
            address_cycles(AddressingMode::IndirectIndexed, class) + rest,
        ),
    ensures
        address_formed(
            s,
            AddressingMode::IndirectIndexed,
            rest,
            address_phase_cycles(s, AddressingMode::IndirectIndexed, class),
        ),
{
    lemma_word(operand1(s), operand2(s));
    assert(add16(add16(s.pc, 1), 1) == add16(s.pc, 2));
    assert(add16(add16(s.pc, 2), 1) == add16(s.pc, 3));
    lemma_run_steps(s);
    lemma_cycle_fetch(s);
    let s1 = cycle(s);
    assert(s1.queue =~= seq![
        MicroOp::FetchZeroPage,
        MicroOp::FetchPointerLowByte,
        MicroOp::FetchPointerHighByteWithY,
    ] + rest);
    lemma_cycle_exec(s1);
    let s2 = cycle(s1);
    assert(s2.queue =~= seq![
        MicroOp::FetchPointerLowByte,
        MicroOp::FetchPointerHighByteWithY,
    ] + rest);
    lemma_cycle_exec(s2);
    let s3 = cycle(s2);
    assert(s3.queue =~= seq![MicroOp::FetchPointerHighByteWithY] + rest);
    lemma_cycle_exec(s3);
    let s4 = cycle(s3);
    assert(s3.queue.drop_first() =~= Seq::<MicroOp>::empty() + rest);
    if crosses_page(s, AddressingMode::IndirectIndexed) {
        assert(s4.queue =~= seq![MicroOp::DummyCycle] + rest);
        lemma_cycle_exec(s4);
        assert(cycle(s4).queue =~= rest);
    }
}

#[verifier::spinoff_prover]
#[verifier::rlimit(100)]
proof fn lemma_address_indirectindexed_other(s: CpuState, class: InstType, rest: Seq<MicroOp>)
    requires
        at_boundary(s),
        s.mem.len() == MEMORY_SIZE,
        class != InstType::Read,
        rest.len() > 0,
        rest[0] != MicroOp::DummyCycle,
        decode_spec(read_byte(s, s.pc), s.p) == Some(
            address_cycles(AddressingMode::IndirectIndexed, class) + rest,
        ),
    ensures
        address_formed(
            s,
            AddressingMode::IndirectIndexed,
            rest,
            address_phase_cycles(s, AddressingMode::IndirectIndexed, class),
        ),
{
    lemma_word(operand1(s), operand2(s));
    assert(add16(add16(s.pc, 1), 1) == add16(s.pc, 2));
    assert(add16(add16(s.pc, 2), 1) == add16(s.pc, 3));
    lemma_run_steps(s);
    lemma_cycle_fetch(s);
    let s1 = cycle(s);
    assert(s1.queue =~= seq![
        MicroOp::FetchZeroPage,
        MicroOp::FetchPointerLowByte,
        MicroOp::FetchPointerHighByteWithY,
        MicroOp::DummyCycle,
    ] + rest);
    lemma_cycle_exec(s1);
    let s2 = cycle(s1);
    assert(s2.queue =~= seq![
        MicroOp::FetchPointerLowByte,
        MicroOp::FetchPointerHighByteWithY,
        MicroOp::DummyCycle,
    ] + rest);
    lemma_cycle_exec(s2);
    let s3 = cycle(s2);
    assert(s3.queue =~= seq![MicroOp::FetchPointerHighByteWithY, MicroOp::DummyCycle] + rest);
    lemma_cycle_exec(s3);
    let s4 = cycle(s3);
    assert(s3.queue.drop_first() =~= seq![MicroOp::DummyCycle] + rest);
    lemma_cycle_exec(s4);
    let s5 = cycle(s4);
    assert(s5.queue =~= Seq::<MicroOp>::empty() + rest);
}

proof fn lemma_address_indirectindexed(s: CpuState, class: InstType, rest: Seq<MicroOp>)
    requires
        at_boundary(s),
        s.mem.len() == MEMORY_SIZE,
        rest.len() > 0,
        class == InstType::Read ==> rest.len() == 1,
        rest[0] != MicroOp::DummyCycle,
        decode_spec(read_byte(s, s.pc), s.p) == Some(
            address_cycles(AddressingMode::IndirectIndexed, class) + rest,
        ),
    ensures
        address_formed(
            s,
            AddressingMode::IndirectIndexed,
            rest,
            address_phase_cycles(s, AddressingMode::IndirectIndexed, class),
        ),
{
    if class == InstType::Read {
        lemma_address_indirectindexed_read(s, class, rest);
    } else {
        lemma_address_indirectindexed_other(s, class, rest);
    }
}

/// For every instruction whose decoding follows the addressing skeleton (reads,
/// stores and read-modify-writes), in every addressing mode: after the fetch and
/// the addressing cycles, plus one for a read whose index crossed a page, the
/// effective address is latched and only the instruction's own cycles are left.
/// Zero-page indexing wraps in 8 bits and absolute indexing in 16 bits.
pub proof fn law_addressing(s: CpuState, mode: AddressingMode, inst: MicroOp, class: InstType)
    requires
        at_boundary(s),
        s.mem.len() == MEMORY_SIZE,
        inst != MicroOp::DummyCycle,
        decode_spec(read_byte(s, s.pc), s.p) == Some(skeleton(mode, inst, class)),
    ensures
        address_formed(
            s,
            mode,
            super::decode::operation_cycles(inst, class),
            address_phase_cycles(s, mode, class),
        ),
{
    let rest = super::decode::operation_cycles(inst, class);
    match mode {
        AddressingMode::ZeroPage => lemma_address_zeropage(s, class, rest),
        AddressingMode::ZeroPageX => lemma_address_zeropagex(s, class, rest),
        AddressingMode::ZeroPageY => lemma_address_zeropagey(s, class, rest),
        AddressingMode::Absolute => lemma_address_absolute(s, class, rest),
        AddressingMode::AbsoluteX => lemma_address_absolutex(s, class, rest),
        AddressingMode::AbsoluteY => lemma_address_absolutey(s, class, rest),
        AddressingMode::IndexedIndirect => lemma_address_indexedindirect(s, class, rest),
        AddressingMode::IndirectIndexed => lemma_address_indirectindexed(s, class, rest),
    }
}

/// A read instruction's own cycle follows the addressing cycles and ends it.
pub proof fn law_read_addressing(s: CpuState, mode: AddressingMode, inst: MicroOp)
    requires
        at_boundary(s),
        s.mem.len() == MEMORY_SIZE,
        inst != MicroOp::DummyCycle,
        decode_spec(read_byte(s, s.pc), s.p) == Some(skeleton(mode, inst, InstType::Read)),
    ensures
        address_formed(s, mode, seq![inst], read_address_cycles(s, mode)),
        run(s, read_address_cycles(s, mode) + 1) == exec_op(
            CpuState { queue: Seq::empty(), ..run(s, read_address_cycles(s, mode)) },
            inst,
        ),
{
    law_addressing(s, mode, inst, InstType::Read);
    let n = read_address_cycles(s, mode);
    lemma_run_succ(s, n);
    lemma_cycle_exec(run(s, n));
    assert(run(s, n).queue.drop_first() =~= Seq::<MicroOp>::empty());
}

pub open spec fn is_branch_op(op: MicroOp) -> bool {
    op is TakeBranch || op is FetchRelativeOffset
}

/// Micro-operations that add an index and may charge a page-cross cycle.
pub open spec fn is_index_op(op: MicroOp) -> bool {
    op == MicroOp::FetchHighAddrByteWithX || op == MicroOp::FetchHighAddrByteWithY || op
        == MicroOp::FetchPointerHighByteWithY
}

/// A queue whose length is its cycle count: it holds no branch, and every
/// index is followed by a dummy cycle that absorbs the page-cross penalty.
pub open spec fn steady(q: Seq<MicroOp>) -> bool {
    forall|i: int|
        0 <= i < q.len() ==> !is_branch_op(#[trigger] q[i]) && (is_index_op(q[i]) ==> i + 1
            < q.len() && q[i + 1] == MicroOp::DummyCycle)
}

/// Only branches and index additions change the queue beyond the pop.
#[verifier::spinoff_prover]
#[verifier::rlimit(100)]
proof fn lemma_exec_keeps_queue(t: CpuState, op: MicroOp)
    requires
        !is_branch_op(op),
        is_index_op(op) ==> t.queue.len() > 0 && t.queue[0] == MicroOp::DummyCycle,
    ensures
        exec_op(t, op).queue == t.queue,
{
}

/// A steady queue of `k` micro-operations ends the instruction in exactly `k` cycles.
proof fn lemma_steady_runs(s: CpuState)
    requires
        steady(s.queue),
    ensures
        at_boundary(run(s, s.queue.len())),
        forall|j: nat| j < s.queue.len() ==> !at_boundary(#[trigger] run(s, j)),
    decreases s.queue.len(),
{
    let k = s.queue.len();
    if k > 0 {
        lemma_cycle_exec(s);
        let t = CpuState { queue: s.queue.drop_first(), ..s };
        lemma_exec_keeps_queue(t, s.queue[0]);
        let s1 = cycle(s);
        assert(s1.queue == s.queue.drop_first());
        assert forall|i: int| 0 <= i < s1.queue.len() implies !is_branch_op(#[trigger] s1.queue[i])
            && (is_index_op(s1.queue[i]) ==> i + 1 < s1.queue.len() && s1.queue[i + 1]
            == MicroOp::DummyCycle) by {
            assert(s1.queue[i] == s.queue[i + 1]);
        }
        lemma_steady_runs(s1);
        assert(run(s, k) == run(s1, (k - 1) as nat));
        assert forall|j: nat| j < k implies !at_boundary(#[trigger] run(s, j)) by {
            if j > 0 {
                assert(run(s, j) == run(s1, (j - 1) as nat));
            }
        }
    }
}

/// The documented cycle count of each implemented 6502 instruction, before
/// the page-cross and branch penalties.
pub open spec fn documented_cycles(opcode: u8) -> nat {
    match opcode {
        0x09 | 0x0A | 0x10 | 0x18 | 0x29 | 0x2A | 0x30 | 0x38 | 0x49 | 0x4A | 0x50 | 0x58 | 0x69
        | 0x6A | 0x70 | 0x78 | 0x88 | 0x8A | 0x90 | 0x98 | 0x9A | 0xA0 | 0xA2 | 0xA8 | 0xA9
        | 0xAA | 0xB0 | 0xB8 | 0xBA | 0xC0 | 0xC8 | 0xC9 | 0xCA | 0xD0 | 0xD8 | 0xE0 | 0xE8
        | 0xE9 | 0xEA | 0xF0 | 0xF8 => 2,
        0x05 | 0x08 | 0x24 | 0x25 | 0x45 | 0x48 | 0x4C | 0x65 | 0x84 | 0x85 | 0x86 | 0xA4 | 0xA5
        | 0xA6 | 0xC4 | 0xC5 | 0xE4 | 0xE5 => 3,
        0x0D | 0x15 | 0x19 | 0x1D | 0x28 | 0x2C | 0x2D | 0x35 | 0x39 | 0x3D | 0x4D | 0x55 | 0x59
        | 0x5D | 0x68 | 0x6D | 0x75 | 0x79 | 0x7D | 0x8C | 0x8D | 0x8E | 0x94 | 0x95 | 0x96
        | 0xAC | 0xAD | 0xAE | 0xB4 | 0xB5 | 0xB6 | 0xB9 | 0xBC | 0xBD | 0xBE | 0xCC | 0xCD
        | 0xD5 | 0xD9 | 0xDD | 0xEC | 0xED | 0xF5 | 0xF9 | 0xFD => 4,
        0x06 | 0x11 | 0x26 | 0x31 | 0x46 | 0x51 | 0x66 | 0x6C | 0x71 | 0x99 | 0x9D | 0xB1 | 0xC6
        | 0xD1 | 0xE6 | 0xF1 => 5,
        0x01 | 0x0E | 0x16 | 0x20 | 0x21 | 0x2E | 0x36 | 0x40 | 0x41 | 0x4E | 0x56 | 0x60 | 0x61
        | 0x6E | 0x76 | 0x81 | 0x91 | 0xA1 | 0xC1 | 0xCE | 0xD6 | 0xE1 | 0xEE | 0xF6 => 6,
        0x00 | 0x1E | 0x3E | 0x5E | 0x7E | 0xDE | 0xFE => 7,
        _ => 0,
    }
}

/// Reads that take one more cycle when indexing crosses a page.
pub open spec fn has_page_penalty(opcode: u8) -> bool {
    opcode == 0x11 || opcode == 0x19 || opcode == 0x1D || opcode == 0x31
        || opcode == 0x39 || opcode == 0x3D || opcode == 0x51 || opcode == 0x59
        || opcode == 0x5D || opcode == 0x71 || opcode == 0x79 || opcode == 0x7D
        || opcode == 0xB1 || opcode == 0xB9 || opcode == 0xBC || opcode == 0xBD
        || opcode == 0xBE || opcode == 0xD1 || opcode == 0xD9 || opcode == 0xDD
        || opcode == 0xF1 || opcode == 0xF9 || opcode == 0xFD
}

/// The addressing mode of a read that has the page-cross penalty.
pub open spec fn penalty_mode(opcode: u8) -> AddressingMode {
    match opcode {
        0x1D | 0x3D | 0x5D | 0x7D | 0xBC | 0xBD | 0xDD | 0xFD => AddressingMode::AbsoluteX,
        0x19 | 0x39 | 0x59 | 0x79 | 0xB9 | 0xBE | 0xD9 | 0xF9 => AddressingMode::AbsoluteY,
        _ => AddressingMode::IndirectIndexed,
    }
}

/// The instruction cycle of a read that has the page-cross penalty.
pub open spec fn penalty_inst(opcode: u8) -> MicroOp {
    match opcode {
        0x71 | 0x79 | 0x7D => MicroOp::AddWithCarryAddress,
        0xD1 | 0xD9 | 0xDD => MicroOp::CompareAddress,
        0x51 | 0x59 | 0x5D => MicroOp::ExclusiveOrAddress,
        0x11 | 0x19 | 0x1D => MicroOp::InclusiveOrAddress,
        0xB1 | 0xB9 | 0xBD => MicroOp::LoadAccumulatorFromAddress,
        0xBE => MicroOp::LoadXfromAddress,
        0xBC => MicroOp::LoadYfromAddress,
        0x31 | 0x39 | 0x3D => MicroOp::LogicalAndAddress,
        _ => MicroOp::SubWithCarryAddress,
    }
}

#[verifier::spinoff_prover]
#[verifier::rlimit(100)]
proof fn lemma_decode_steady_0(opcode: u8, p: u8)
    requires
        opcode == 0x00 || opcode == 0x01 || opcode == 0x05 || opcode == 0x06 || opcode == 0x08
            || opcode == 0x09 || opcode == 0x0A || opcode == 0x0D || opcode == 0x0E
            || opcode == 0x15 || opcode == 0x16 || opcode == 0x18 || opcode == 0x1E
            || opcode == 0x20 || opcode == 0x21 || opcode == 0x24,
    ensures
        decode_spec(opcode, p) is Some,
        steady(decode_spec(opcode, p)->0),
        documented_cycles(opcode) == 1 + decode_spec(opcode, p)->0.len(),
{
    if opcode == 0x00 {
        assert(steady(decode_spec(0x00, p)->0));
    } else if opcode == 0x01 {
        assert(steady(decode_spec(0x01, p)->0));
    } else if opcode == 0x05 {
        assert(steady(decode_spec(0x05, p)->0));
    } else if opcode == 0x06 {
        assert(steady(decode_spec(0x06, p)->0));
    } else if opcode == 0x08 {
        assert(steady(decode_spec(0x08, p)->0));
    } else if opcode == 0x09 {
        assert(steady(decode_spec(0x09, p)->0));
    } else if opcode == 0x0A {
        assert(steady(decode_spec(0x0A, p)->0));
    } else if opcode == 0x0D {
        assert(steady(decode_spec(0x0D, p)->0));
    } else if opcode == 0x0E {
        assert(steady(decode_spec(0x0E, p)->0));
    } else if opcode == 0x15 {
        assert(steady(decode_spec(0x15, p)->0));
    } else if opcode == 0x16 {
        assert(steady(decode_spec(0x16, p)->0));
    } else if opcode == 0x18 {
        assert(steady(decode_spec(0x18, p)->0));
    } else if opcode == 0x1E {
        assert(steady(decode_spec(0x1E, p)->0));
    } else if opcode == 0x20 {
        assert(steady(decode_spec(0x20, p)->0));
    } else if opcode == 0x21 {
        assert(steady(decode_spec(0x21, p)->0));
    } else if opcode == 0x24 {
        assert(steady(decode_spec(0x24, p)->0));
    }
}

#[verifier::spinoff_prover]
#[verifier::rlimit(100)]
proof fn lemma_decode_steady_1(opcode: u8, p: u8)
    requires
        opcode == 0x25 || opcode == 0x26 || opcode == 0x28 || opcode == 0x29 || opcode == 0x2A
            || opcode == 0x2C || opcode == 0x2D || opcode == 0x2E || opcode == 0x35
            || opcode == 0x36 || opcode == 0x38 || opcode == 0x3E || opcode == 0x40
            || opcode == 0x41 || opcode == 0x45 || opcode == 0x46,
    ensures
        decode_spec(opcode, p) is Some,
        steady(decode_spec(opcode, p)->0),
        documented_cycles(opcode) == 1 + decode_spec(opcode, p)->0.len(),
{
    if opcode == 0x25 {
        assert(steady(decode_spec(0x25, p)->0));
    } else if opcode == 0x26 {
        assert(steady(decode_spec(0x26, p)->0));
    } else if opcode == 0x28 {
        assert(steady(decode_spec(0x28, p)->0));
    } else if opcode == 0x29 {
        assert(steady(decode_spec(0x29, p)->0));
    } else if opcode == 0x2A {
        assert(steady(decode_spec(0x2A, p)->0));
    } else if opcode == 0x2C {
        assert(steady(decode_spec(0x2C, p)->0));
    } else if opcode == 0x2D {
        assert(steady(decode_spec(0x2D, p)->0));
    } else if opcode == 0x2E {
        assert(steady(decode_spec(0x2E, p)->0));
    } else if opcode == 0x35 {
        assert(steady(decode_spec(0x35, p)->0));
    } else if opcode == 0x36 {
        assert(steady(decode_spec(0x36, p)->0));
    } else if opcode == 0x38 {
        assert(steady(decode_spec(0x38, p)->0));
    } else if opcode == 0x3E {
        assert(steady(decode_spec(0x3E, p)->0));
    } else if opcode == 0x40 {
        assert(steady(decode_spec(0x40, p)->0));
    } else if opcode == 0x41 {
        assert(steady(decode_spec(0x41, p)->0));
    } else if opcode == 0x45 {
        assert(steady(decode_spec(0x45, p)->0));
    } else if opcode == 0x46 {
        assert(steady(decode_spec(0x46, p)->0));
    }
}

#[verifier::spinoff_prover]
#[verifier::rlimit(100)]
proof fn lemma_decode_steady_2(opcode: u8, p: u8)
    requires
        opcode == 0x48 || opcode == 0x49 || opcode == 0x4A || opcode == 0x4C || opcode == 0x4D
            || opcode == 0x4E || opcode == 0x55 || opcode == 0x56 || opcode == 0x58
            || opcode == 0x5E || opcode == 0x60 || opcode == 0x61 || opcode == 0x65
            || opcode == 0x66 || opcode == 0x68 || opcode == 0x69,
    ensures
        decode_spec(opcode, p) is Some,
        steady(decode_spec(opcode, p)->0),
        documented_cycles(opcode) == 1 + decode_spec(opcode, p)->0.len(),
{
    if opcode == 0x48 {
        assert(steady(decode_spec(0x48, p)->0));
    } else if opcode == 0x49 {
        assert(steady(decode_spec(0x49, p)->0));
    } else if opcode == 0x4A {
        assert(steady(decode_spec(0x4A, p)->0));
    } else if opcode == 0x4C {
        assert(steady(decode_spec(0x4C, p)->0));
    } else if opcode == 0x4D {
        assert(steady(decode_spec(0x4D, p)->0));
    } else if opcode == 0x4E {
        assert(steady(decode_spec(0x4E, p)->0));
    } else if opcode == 0x55 {
        assert(steady(decode_spec(0x55, p)->0));
    } else if opcode == 0x56 {
        assert(steady(decode_spec(0x56, p)->0));
    } else if opcode == 0x58 {
        assert(steady(decode_spec(0x58, p)->0));
    } else if opcode == 0x5E {
        assert(steady(decode_spec(0x5E, p)->0));
    } else if opcode == 0x60 {
        assert(steady(decode_spec(0x60, p)->0));
    } else if opcode == 0x61 {
        assert(steady(decode_spec(0x61, p)->0));
    } else if opcode == 0x65 {
        assert(steady(decode_spec(0x65, p)->0));
    } else if opcode == 0x66 {
        assert(steady(decode_spec(0x66, p)->0));
    } else if opcode == 0x68 {
        assert(steady(decode_spec(0x68, p)->0));
    } else if opcode == 0x69 {
        assert(steady(decode_spec(0x69, p)->0));
    }
}

#[verifier::spinoff_prover]
#[verifier::rlimit(100)]
proof fn lemma_decode_steady_3(opcode: u8, p: u8)
    requires
        opcode == 0x6A || opcode == 0x6C || opcode == 0x6D || opcode == 0x6E || opcode == 0x75
            || opcode == 0x76 || opcode == 0x78 || opcode == 0x7E || opcode == 0x81
            || opcode == 0x84 || opcode == 0x85 || opcode == 0x86 || opcode == 0x88
            || opcode == 0x8A || opcode == 0x8C || opcode == 0x8D,
    ensures
        decode_spec(opcode, p) is Some,
        steady(decode_spec(opcode, p)->0),
        documented_cycles(opcode) == 1 + decode_spec(opcode, p)->0.len(),
{
    if opcode == 0x6A {
        assert(steady(decode_spec(0x6A, p)->0));
    } else if opcode == 0x6C {
        assert(steady(decode_spec(0x6C, p)->0));
    } else if opcode == 0x6D {
        assert(steady(decode_spec(0x6D, p)->0));
    } else if opcode == 0x6E {
        assert(steady(decode_spec(0x6E, p)->0));
    } else if opcode == 0x75 {
        assert(steady(decode_spec(0x75, p)->0));
    } else if opcode == 0x76 {
        assert(steady(decode_spec(0x76, p)->0));
    } else if opcode == 0x78 {
        assert(steady(decode_spec(0x78, p)->0));
    } else if opcode == 0x7E {
        assert(steady(decode_spec(0x7E, p)->0));
    } else if opcode == 0x81 {
        assert(steady(decode_spec(0x81, p)->0));
    } else if opcode == 0x84 {
        assert(steady(decode_spec(0x84, p)->0));
    } else if opcode == 0x85 {
        assert(steady(decode_spec(0x85, p)->0));
    } else if opcode == 0x86 {
        assert(steady(decode_spec(0x86, p)->0));
    } else if opcode == 0x88 {
        assert(steady(decode_spec(0x88, p)->0));
    } else if opcode == 0x8A {
        assert(steady(decode_spec(0x8A, p)->0));
    } else if opcode == 0x8C {
        assert(steady(decode_spec(0x8C, p)->0));
    } else if opcode == 0x8D {
        assert(steady(decode_spec(0x8D, p)->0));
    }
}

#[verifier::spinoff_prover]
#[verifier::rlimit(100)]
proof fn lemma_decode_steady_4(opcode: u8, p: u8)
    requires
        opcode == 0x8E || opcode == 0x91 || opcode == 0x94 || opcode == 0x95 || opcode == 0x96
            || opcode == 0x98 || opcode == 0x99 || opcode == 0x9A || opcode == 0x9D
            || opcode == 0xA0 || opcode == 0xA1 || opcode == 0xA2 || opcode == 0xA4
            || opcode == 0xA5 || opcode == 0xA6 || opcode == 0xA8,
    ensures
        decode_spec(opcode, p) is Some,
        steady(decode_spec(opcode, p)->0),
        documented_cycles(opcode) == 1 + decode_spec(opcode, p)->0.len(),
{
    if opcode == 0x8E {
        assert(steady(decode_spec(0x8E, p)->0));
    } else if opcode == 0x91 {
        assert(steady(decode_spec(0x91, p)->0));
    } else if opcode == 0x94 {
        assert(steady(decode_spec(0x94, p)->0));
    } else if opcode == 0x95 {
        assert(steady(decode_spec(0x95, p)->0));
    } else if opcode == 0x96 {
        assert(steady(decode_spec(0x96, p)->0));
    } else if opcode == 0x98 {
        assert(steady(decode_spec(0x98, p)->0));
    } else if opcode == 0x99 {
        assert(steady(decode_spec(0x99, p)->0));
    } else if opcode == 0x9A {
        assert(steady(decode_spec(0x9A, p)->0));
    } else if opcode == 0x9D {
        assert(steady(decode_spec(0x9D, p)->0));
    } else if opcode == 0xA0 {
        assert(steady(decode_spec(0xA0, p)->0));
    } else if opcode == 0xA1 {
        assert(steady(decode_spec(0xA1, p)->0));
    } else if opcode == 0xA2 {
        assert(steady(decode_spec(0xA2, p)->0));
    } else if opcode == 0xA4 {
        assert(steady(decode_spec(0xA4, p)->0));
    } else if opcode == 0xA5 {
        assert(steady(decode_spec(0xA5, p)->0));
    } else if opcode == 0xA6 {
        assert(steady(decode_spec(0xA6, p)->0));
    } else if opcode == 0xA8 {
        assert(steady(decode_spec(0xA8, p)->0));
    }
}

#[verifier::spinoff_prover]
#[verifier::rlimit(100)]
proof fn lemma_decode_steady_5(opcode: u8, p: u8)
    requires
        opcode == 0xA9 || opcode == 0xAA || opcode == 0xAC || opcode == 0xAD || opcode == 0xAE
            || opcode == 0xB4 || opcode == 0xB5 || opcode == 0xB6 || opcode == 0xB8
            || opcode == 0xBA || opcode == 0xC0 || opcode == 0xC1 || opcode == 0xC4
            || opcode == 0xC5 || opcode == 0xC6 || opcode == 0xC8,
    ensures
        decode_spec(opcode, p) is Some,
        steady(decode_spec(opcode, p)->0),
        documented_cycles(opcode) == 1 + decode_spec(opcode, p)->0.len(),
{
    if opcode == 0xA9 {
        assert(steady(decode_spec(0xA9, p)->0));
    } else if opcode == 0xAA {
        assert(steady(decode_spec(0xAA, p)->0));
    } else if opcode == 0xAC {
        assert(steady(decode_spec(0xAC, p)->0));
    } else if opcode == 0xAD {
        assert(steady(decode_spec(0xAD, p)->0));
    } else if opcode == 0xAE {
        assert(steady(decode_spec(0xAE, p)->0));
    } else if opcode == 0xB4 {
        assert(steady(decode_spec(0xB4, p)->0));
    } else if opcode == 0xB5 {
        assert(steady(decode_spec(0xB5, p)->0));
    } else if opcode == 0xB6 {
        assert(steady(decode_spec(0xB6, p)->0));
    } else if opcode == 0xB8 {
        assert(steady(decode_spec(0xB8, p)->0));
    } else if opcode == 0xBA {
        assert(steady(decode_spec(0xBA, p)->0));
    } else if opcode == 0xC0 {
        assert(steady(decode_spec(0xC0, p)->0));
    } else if opcode == 0xC1 {
        assert(steady(decode_spec(0xC1, p)->0));
    } else if opcode == 0xC4 {
        assert(steady(decode_spec(0xC4, p)->0));
    } else if opcode == 0xC5 {
        assert(steady(decode_spec(0xC5, p)->0));
    } else if opcode == 0xC6 {
        assert(steady(decode_spec(0xC6, p)->0));
    } else if opcode == 0xC8 {
        assert(steady(decode_spec(0xC8, p)->0));
    }
}

#[verifier::spinoff_prover]
#[verifier::rlimit(100)]
proof fn lemma_decode_steady_6(opcode: u8, p: u8)
    requires
        opcode == 0xC9 || opcode == 0xCA || opcode == 0xCC || opcode == 0xCD || opcode == 0xCE
            || opcode == 0xD5 || opcode == 0xD6 || opcode == 0xD8 || opcode == 0xDE
            || opcode == 0xE0 || opcode == 0xE1 || opcode == 0xE4 || opcode == 0xE5
            || opcode == 0xE6 || opcode == 0xE8 || opcode == 0xE9,
    ensures
        decode_spec(opcode, p) is Some,
        steady(decode_spec(opcode, p)->0),
        documented_cycles(opcode) == 1 + decode_spec(opcode, p)->0.len(),
{
    if opcode == 0xC9 {
        assert(steady(decode_spec(0xC9, p)->0));
    } else if opcode == 0xCA {
        assert(steady(decode_spec(0xCA, p)->0));
    } else if opcode == 0xCC {
        assert(steady(decode_spec(0xCC, p)->0));
    } else if opcode == 0xCD {
        assert(steady(decode_spec(0xCD, p)->0));
    } else if opcode == 0xCE {
        assert(steady(decode_spec(0xCE, p)->0));
    } else if opcode == 0xD5 {
        assert(steady(decode_spec(0xD5, p)->0));
    } else if opcode == 0xD6 {
        assert(steady(decode_spec(0xD6, p)->0));
    } else if opcode == 0xD8 {
        assert(steady(decode_spec(0xD8, p)->0));
    } else if opcode == 0xDE {
        assert(steady(decode_spec(0xDE, p)->0));
    } else if opcode == 0xE0 {
        assert(steady(decode_spec(0xE0, p)->0));
    } else if opcode == 0xE1 {
        assert(steady(decode_spec(0xE1, p)->0));
    } else if opcode == 0xE4 {
        assert(steady(decode_spec(0xE4, p)->0));
    } else if opcode == 0xE5 {
        assert(steady(decode_spec(0xE5, p)->0));
    } else if opcode == 0xE6 {
        assert(steady(decode_spec(0xE6, p)->0));
    } else if opcode == 0xE8 {
        assert(steady(decode_spec(0xE8, p)->0));
    } else if opcode == 0xE9 {
        assert(steady(decode_spec(0xE9, p)->0));
    }
}

#[verifier::spinoff_prover]
#[verifier::rlimit(100)]
proof fn lemma_decode_steady_7(opcode: u8, p: u8)
    requires
        opcode == 0xEA || opcode == 0xEC || opcode == 0xED || opcode == 0xEE || opcode == 0xF5
            || opcode == 0xF6 || opcode == 0xF8 || opcode == 0xFE,
    ensures
        decode_spec(opcode, p) is Some,
        steady(decode_spec(opcode, p)->0),
        documented_cycles(opcode) == 1 + decode_spec(opcode, p)->0.len(),
{
    if opcode == 0xEA {
        assert(steady(decode_spec(0xEA, p)->0));
    } else if opcode == 0xEC {
        assert(steady(decode_spec(0xEC, p)->0));
    } else if opcode == 0xED {
        assert(steady(decode_spec(0xED, p)->0));
    } else if opcode == 0xEE {
        assert(steady(decode_spec(0xEE, p)->0));
    } else if opcode == 0xF5 {
        assert(steady(decode_spec(0xF5, p)->0));
    } else if opcode == 0xF6 {
        assert(steady(decode_spec(0xF6, p)->0));
    } else if opcode == 0xF8 {
        assert(steady(decode_spec(0xF8, p)->0));
    } else if opcode == 0xFE {
        assert(steady(decode_spec(0xFE, p)->0));
    }
}

proof fn lemma_penalty_shape(opcode: u8, p: u8)
    requires
        has_page_penalty(opcode),
    ensures
        decode_spec(opcode, p) == Some(
            skeleton(penalty_mode(opcode), penalty_inst(opcode), InstType::Read),
        ),
        penalty_inst(opcode) != MicroOp::DummyCycle,
        documented_cycles(opcode) == 2 + address_cycles(penalty_mode(opcode), InstType::Read).len(),
{
}

proof fn lemma_decode_steady(opcode: u8, p: u8)
    requires
        decode_spec(opcode, p) is Some,
        !is_branch(opcode),
        !has_page_penalty(opcode),
    ensures
        steady(decode_spec(opcode, p)->0),
        documented_cycles(opcode) == 1 + decode_spec(opcode, p)->0.len(),
{
    if opcode == 0x00 || opcode == 0x01 || opcode == 0x05 || opcode == 0x06 || opcode == 0x08
        || opcode == 0x09 || opcode == 0x0A || opcode == 0x0D || opcode == 0x0E
        || opcode == 0x15 || opcode == 0x16 || opcode == 0x18 || opcode == 0x1E
        || opcode == 0x20 || opcode == 0x21 || opcode == 0x24 {
        lemma_decode_steady_0(opcode, p);
    } else if opcode == 0x25 || opcode == 0x26 || opcode == 0x28 || opcode == 0x29
        || opcode == 0x2A || opcode == 0x2C || opcode == 0x2D || opcode == 0x2E
        || opcode == 0x35 || opcode == 0x36 || opcode == 0x38 || opcode == 0x3E
        || opcode == 0x40 || opcode == 0x41 || opcode == 0x45 || opcode == 0x46 {
        lemma_decode_steady_1(opcode, p);
    } else if opcode == 0x48 || opcode == 0x49 || opcode == 0x4A || opcode == 0x4C
        || opcode == 0x4D || opcode == 0x4E || opcode == 0x55 || opcode == 0x56
        || opcode == 0x58 || opcode == 0x5E || opcode == 0x60 || opcode == 0x61
        || opcode == 0x65 || opcode == 0x66 || opcode == 0x68 || opcode == 0x69 {
        lemma_decode_steady_2(opcode, p);
    } else if opcode == 0x6A || opcode == 0x6C || opcode == 0x6D || opcode == 0x6E
        || opcode == 0x75 || opcode == 0x76 || opcode == 0x78 || opcode == 0x7E
        || opcode == 0x81 || opcode == 0x84 || opcode == 0x85 || opcode == 0x86
        || opcode == 0x88 || opcode == 0x8A || opcode == 0x8C || opcode == 0x8D {
        lemma_decode_steady_3(opcode, p);
    } else if opcode == 0x8E || opcode == 0x91 || opcode == 0x94 || opcode == 0x95
        || opcode == 0x96 || opcode == 0x98 || opcode == 0x99 || opcode == 0x9A
        || opcode == 0x9D || opcode == 0xA0 || opcode == 0xA1 || opcode == 0xA2
        || opcode == 0xA4 || opcode == 0xA5 || opcode == 0xA6 || opcode == 0xA8 {
        lemma_decode_steady_4(opcode, p);
    } else if opcode == 0xA9 || opcode == 0xAA || opcode == 0xAC || opcode == 0xAD
        || opcode == 0xAE || opcode == 0xB4 || opcode == 0xB5 || opcode == 0xB6
        || opcode == 0xB8 || opcode == 0xBA || opcode == 0xC0 || opcode == 0xC1
        || opcode == 0xC4 || opcode == 0xC5 || opcode == 0xC6 || opcode == 0xC8 {
        lemma_decode_steady_5(opcode, p);
    } else if opcode == 0xC9 || opcode == 0xCA || opcode == 0xCC || opcode == 0xCD
        || opcode == 0xCE || opcode == 0xD5 || opcode == 0xD6 || opcode == 0xD8
        || opcode == 0xDE || opcode == 0xE0 || opcode == 0xE1 || opcode == 0xE4
        || opcode == 0xE5 || opcode == 0xE6 || opcode == 0xE8 || opcode == 0xE9 {
        lemma_decode_steady_6(opcode, p);
    } else if opcode == 0xEA || opcode == 0xEC || opcode == 0xED || opcode == 0xEE
        || opcode == 0xF5 || opcode == 0xF6 || opcode == 0xF8 || opcode == 0xFE {
        lemma_decode_steady_7(opcode, p);
    }
}

/// The number of cycles the instruction at `s` takes: the documented count,
/// one more for a read whose index crosses a page, and for a branch one more
/// when taken and one more again when its target is on another page.
pub open spec fn instruction_cycles(s: CpuState) -> nat {
    let opcode = read_byte(s, s.pc);
    if is_branch(opcode) {
        let next = add16(s.pc, 2);
        let target = add16(next, sign_extend(read_byte(s, add16(s.pc, 1))));
        if !branch_taken(opcode, s.p) {
            2
        } else if hi8(next) == hi8(target) {
            3
        } else {
            4
        }
    } else if has_page_penalty(opcode) && crosses_page(s, penalty_mode(opcode)) {
        documented_cycles(opcode) + 1
    } else {
        documented_cycles(opcode)
    }
}

/// Every implemented instruction ends after exactly `instruction_cycles` ticks:
/// the next instruction boundary comes then and not before.
pub proof fn law_cycle_counts(s: CpuState)
    requires
        at_boundary(s),
        s.mem.len() == MEMORY_SIZE,
        decode_spec(read_byte(s, s.pc), s.p) is Some,
    ensures
        at_boundary(run(s, instruction_cycles(s))),
        forall|j: nat| 0 < j < instruction_cycles(s) ==> !at_boundary(#[trigger] run(s, j)),
{
    let opcode = read_byte(s, s.pc);
    if is_branch(opcode) {
        law_branch(s);
        assert forall|j: nat| 0 < j < instruction_cycles(s) implies !at_boundary(
            #[trigger] run(s, j),
        ) by {
            if j == 1 {
                lemma_run_one(s);
                lemma_cycle_fetch(s);
            }
        }
    } else if has_page_penalty(opcode) {
        lemma_penalty_shape(opcode, s.p);
        law_read_addressing(s, penalty_mode(opcode), penalty_inst(opcode));
    } else {
        lemma_decode_steady(opcode, s.p);
        lemma_cycle_fetch(s);
        let s1 = cycle(s);
        lemma_steady_runs(s1);
        let n = instruction_cycles(s);
        lemma_run_one(s);
        lemma_run_add(s, 1, (n - 1) as nat);
        assert forall|j: nat| 0 < j < n implies !at_boundary(#[trigger] run(s, j)) by {
            lemma_run_add(s, 1, (j - 1) as nat);
        }
    }
}

/// ADC adds with carry modulo 256 and SBC subtracts with borrow modulo 256;
/// C is the carry out (no borrow for SBC), V the signed overflow, Z and N
/// come from the result, and SBC is ADC of the one's complement of `M`.
#[verifier::spinoff_prover]
#[verifier::rlimit(100)]
pub proof fn law_adc_sbc(a: u8, m: u8, p: u8)
    ensures
        adc_result(a, m, p) == (a + m + carry_in(p)) % 256,
        flag(adc_status(a, m, p), FLAG_CARRY) == (a + m + carry_in(p) > 0xFF),
        flag(adc_status(a, m, p), FLAG_OVERFLOW) == ((a ^ adc_result(a, m, p)) & (m ^ adc_result(
            a,
            m,
            p,
        )) & 0x80 != 0),
        flag(adc_status(a, m, p), FLAG_ZERO) == (adc_result(a, m, p) == 0),
        flag(adc_status(a, m, p), FLAG_NEGATIVE) == (adc_result(a, m, p) >= 0x80),
        sbc_result(a, m, p) == (a - m - (1 - carry_in(p))) % 256,
        flag(sbc_status(a, m, p), FLAG_CARRY) == (a - m - (1 - carry_in(p)) >= 0),
        flag(sbc_status(a, m, p), FLAG_ZERO) == (sbc_result(a, m, p) == 0),
        flag(sbc_status(a, m, p), FLAG_NEGATIVE) == (sbc_result(a, m, p) >= 0x80),
        sbc_result(a, m, p) == adc_result(a, !m, p),
        sbc_status(a, m, p) == adc_status(a, !m, p),
{
    lemma_flag_masks();
    let r = adc_result(a, m, p);
    let q = with_flag(p, FLAG_CARRY, a + m + carry_in(p) > 0xFF);
    lemma_with_flag(zn(q, r), FLAG_OVERFLOW, (a ^ r) & (m ^ r) & 0x80 != 0, FLAG_CARRY);
    lemma_with_flag(zn(q, r), FLAG_OVERFLOW, (a ^ r) & (m ^ r) & 0x80 != 0, FLAG_ZERO);
    lemma_with_flag(zn(q, r), FLAG_OVERFLOW, (a ^ r) & (m ^ r) & 0x80 != 0, FLAG_NEGATIVE);
    lemma_with_flag(zn(q, r), FLAG_OVERFLOW, (a ^ r) & (m ^ r) & 0x80 != 0, FLAG_OVERFLOW);
    lemma_zn(q, r);
    lemma_with_flag(p, FLAG_CARRY, a + m + carry_in(p) > 0xFF, FLAG_CARRY);
    let d = sbc_result(a, m, p);
    let qs = with_flag(p, FLAG_CARRY, a - m - (1 - carry_in(p)) >= 0);
    lemma_with_flag(zn(qs, d), FLAG_OVERFLOW, (a ^ d) & (!m ^ d) & 0x80 != 0, FLAG_CARRY);
    lemma_with_flag(zn(qs, d), FLAG_OVERFLOW, (a ^ d) & (!m ^ d) & 0x80 != 0, FLAG_ZERO);
    lemma_with_flag(zn(qs, d), FLAG_OVERFLOW, (a ^ d) & (!m ^ d) & 0x80 != 0, FLAG_NEGATIVE);
    lemma_zn(qs, d);
    lemma_with_flag(p, FLAG_CARRY, a - m - (1 - carry_in(p)) >= 0, FLAG_CARRY);
    assert(!m == 255 - m) by (bit_vector);
}

} // verus!
