//! The decoder: from an opcode byte to the micro-operations of its instruction.
use vstd::prelude::*;
use super::alu::{FLAG_CARRY, FLAG_NEGATIVE, FLAG_OVERFLOW, FLAG_ZERO};
use super::ops::{AddressingMode, InstType, MicroOp};
use super::queue::InstructionQueue;

verus! {

/// The cycles that form the effective address of `mode`, for an instruction of class `class`.
///
/// Indexed modes that may cross a page spend a dummy cycle on writes and
/// read-modify-writes always; reads get it only when a page is crossed.
pub open spec fn address_cycles(mode: AddressingMode, class: InstType) -> Seq<MicroOp> {
    let dummy = if class == InstType::Read {
        Seq::<MicroOp>::empty()
    } else {
        seq![MicroOp::DummyCycle]
    };
    match mode {
        AddressingMode::ZeroPage => seq![MicroOp::FetchZeroPage],
        AddressingMode::ZeroPageX => seq![MicroOp::FetchZeroPage, MicroOp::AddXtoZeroPageAddress],
        AddressingMode::ZeroPageY => seq![MicroOp::FetchZeroPage, MicroOp::AddYtoZeroPageAddress],
        AddressingMode::Absolute => seq![MicroOp::FetchLowAddrByte, MicroOp::FetchHighAddrByte],
        AddressingMode::AbsoluteX => {
            seq![MicroOp::FetchLowAddrByte, MicroOp::FetchHighAddrByteWithX] + dummy
        },
        AddressingMode::AbsoluteY => {
            seq![MicroOp::FetchLowAddrByte, MicroOp::FetchHighAddrByteWithY] + dummy
        },
        AddressingMode::IndexedIndirect => seq![
            MicroOp::FetchZeroPage,
            MicroOp::AddXtoPointer,
            MicroOp::FetchPointerLowByte,
            MicroOp::FetchPointerHighByte,
        ],
        AddressingMode::IndirectIndexed => seq![
            MicroOp::FetchZeroPage,
            MicroOp::FetchPointerLowByte,
            MicroOp::FetchPointerHighByteWithY,
        ] + dummy,
    }
}

/// The cycles after the address is formed: the instruction's own cycle, and for a
/// read-modify-write the read before it and the final write after it.
pub open spec fn operation_cycles(inst: MicroOp, class: InstType) -> Seq<MicroOp> {
    if class == InstType::RMW {
        seq![MicroOp::ReadAddress, inst, MicroOp::WriteToAddress]
    } else {
        seq![inst]
    }
}

/// The micro-operations of instruction `inst` in addressing mode `mode`.
pub open spec fn skeleton(mode: AddressingMode, inst: MicroOp, class: InstType) -> Seq<MicroOp> {
    address_cycles(mode, class) + operation_cycles(inst, class)
}

/// The micro-operations that opcode `opcode` runs after its fetch cycle, given
/// the status byte at the fetch; `None` for an opcode that is not implemented.
pub open spec fn decode_spec(opcode: u8, status: u8) -> Option<Seq<MicroOp>> {
    match opcode {
        0x00 => Some(
            seq![
                MicroOp::IncrementPC2,
                MicroOp::PushPCH,
                MicroOp::PushPCL,
                MicroOp::PushStatusBreak,
                MicroOp::FetchInterruptLow,
                MicroOp::FetchInterruptHigh,
            ],
        ),
        0x01 => Some(
            skeleton(AddressingMode::IndexedIndirect, MicroOp::InclusiveOrAddress, InstType::Read),
        ),
        0x05 => Some(
            skeleton(AddressingMode::ZeroPage, MicroOp::InclusiveOrAddress, InstType::Read),
        ),
        0x06 => Some(
            skeleton(AddressingMode::ZeroPage, MicroOp::ArithmeticShiftLeftAddress, InstType::RMW),
        ),
        0x08 => Some(seq![MicroOp::DummyCycle, MicroOp::PushStatus]),
        0x09 => Some(seq![MicroOp::InclusiveOr]),
        0x0A => Some(seq![MicroOp::ArithmeticShiftLeft]),
        0x0D => Some(
            skeleton(AddressingMode::Absolute, MicroOp::InclusiveOrAddress, InstType::Read),
        ),
        0x0E => Some(
            skeleton(AddressingMode::Absolute, MicroOp::ArithmeticShiftLeftAddress, InstType::RMW),
        ),
        0x10 => Some(seq![MicroOp::FetchRelativeOffset(status & FLAG_NEGATIVE, 0)]),
        0x11 => Some(
            skeleton(AddressingMode::IndirectIndexed, MicroOp::InclusiveOrAddress, InstType::Read),
        ),
        0x15 => Some(
            skeleton(AddressingMode::ZeroPageX, MicroOp::InclusiveOrAddress, InstType::Read),
        ),
        0x16 => Some(
            skeleton(AddressingMode::ZeroPageX, MicroOp::ArithmeticShiftLeftAddress, InstType::RMW),
        ),
        0x18 => Some(seq![MicroOp::ClearCarry]),
        0x19 => Some(
            skeleton(AddressingMode::AbsoluteY, MicroOp::InclusiveOrAddress, InstType::Read),
        ),
        0x1D => Some(
            skeleton(AddressingMode::AbsoluteX, MicroOp::InclusiveOrAddress, InstType::Read),
        ),
        0x1E => Some(
            skeleton(AddressingMode::AbsoluteX, MicroOp::ArithmeticShiftLeftAddress, InstType::RMW),
        ),
        0x20 => Some(
            seq![
                MicroOp::FetchLowAddrByte,
                MicroOp::DummyCycle,
                MicroOp::PushPCH,
                MicroOp::PushPCL,
                MicroOp::CopyLowFetchHightoPC,
            ],
        ),
        0x21 => Some(
            skeleton(AddressingMode::IndexedIndirect, MicroOp::LogicalAndAddress, InstType::Read),
        ),
        0x24 => Some(skeleton(AddressingMode::ZeroPage, MicroOp::BitTestAddress, InstType::Read)),
        0x25 => Some(
            skeleton(AddressingMode::ZeroPage, MicroOp::LogicalAndAddress, InstType::Read),
        ),
        0x26 => Some(skeleton(AddressingMode::ZeroPage, MicroOp::RotateLeftAddress, InstType::RMW)),
        0x28 => Some(seq![MicroOp::DummyCycle, MicroOp::IncrementSP(1), MicroOp::PullStatus]),
        0x29 => Some(seq![MicroOp::LogicalAnd]),
        0x2A => Some(seq![MicroOp::RotateLeft]),
        0x2C => Some(skeleton(AddressingMode::Absolute, MicroOp::BitTestAddress, InstType::Read)),
        0x2D => Some(
            skeleton(AddressingMode::Absolute, MicroOp::LogicalAndAddress, InstType::Read),
        ),
        0x2E => Some(skeleton(AddressingMode::Absolute, MicroOp::RotateLeftAddress, InstType::RMW)),
        0x30 => Some(seq![MicroOp::FetchRelativeOffset(status & FLAG_NEGATIVE, FLAG_NEGATIVE)]),
        0x31 => Some(
            skeleton(AddressingMode::IndirectIndexed, MicroOp::LogicalAndAddress, InstType::Read),
        ),
        0x35 => Some(
            skeleton(AddressingMode::ZeroPageX, MicroOp::LogicalAndAddress, InstType::Read),
        ),
        0x36 => Some(
            skeleton(AddressingMode::ZeroPageX, MicroOp::RotateLeftAddress, InstType::RMW),
        ),
        0x38 => Some(seq![MicroOp::SetCarry]),
        0x39 => Some(
            skeleton(AddressingMode::AbsoluteY, MicroOp::LogicalAndAddress, InstType::Read),
        ),
        0x3D => Some(
            skeleton(AddressingMode::AbsoluteX, MicroOp::LogicalAndAddress, InstType::Read),
        ),
        0x3E => Some(
            skeleton(AddressingMode::AbsoluteX, MicroOp::RotateLeftAddress, InstType::RMW),
        ),
        0x40 => Some(
            seq![
                MicroOp::DummyCycle,
                MicroOp::IncrementSP(1),
                MicroOp::PullStatusAndIncrementSP,
                MicroOp::PullPCL,
                MicroOp::PullPCH,
            ],
        ),
        0x41 => Some(
            skeleton(AddressingMode::IndexedIndirect, MicroOp::ExclusiveOrAddress, InstType::Read),
        ),
        0x45 => Some(
            skeleton(AddressingMode::ZeroPage, MicroOp::ExclusiveOrAddress, InstType::Read),
        ),
        0x46 => Some(
            skeleton(AddressingMode::ZeroPage, MicroOp::LogicalShiftRightAddress, InstType::RMW),
        ),
        0x48 => Some(seq![MicroOp::DummyCycle, MicroOp::PushAccumulator]),
        0x49 => Some(seq![MicroOp::ExclusiveOr]),
        0x4A => Some(seq![MicroOp::LogicalShiftRight]),
        0x4C => Some(seq![MicroOp::FetchLowAddrByte, MicroOp::CopyLowFetchHightoPC]),
        0x4D => Some(
            skeleton(AddressingMode::Absolute, MicroOp::ExclusiveOrAddress, InstType::Read),
        ),
        0x4E => Some(
            skeleton(AddressingMode::Absolute, MicroOp::LogicalShiftRightAddress, InstType::RMW),
        ),
        0x50 => Some(seq![MicroOp::FetchRelativeOffset(status & FLAG_OVERFLOW, 0)]),
        0x51 => Some(
            skeleton(AddressingMode::IndirectIndexed, MicroOp::ExclusiveOrAddress, InstType::Read),
        ),
        0x55 => Some(
            skeleton(AddressingMode::ZeroPageX, MicroOp::ExclusiveOrAddress, InstType::Read),
        ),
        0x56 => Some(
            skeleton(AddressingMode::ZeroPageX, MicroOp::LogicalShiftRightAddress, InstType::RMW),
        ),
        0x58 => Some(seq![MicroOp::ClearInterrupt]),
        0x59 => Some(
            skeleton(AddressingMode::AbsoluteY, MicroOp::ExclusiveOrAddress, InstType::Read),
        ),
        0x5D => Some(
            skeleton(AddressingMode::AbsoluteX, MicroOp::ExclusiveOrAddress, InstType::Read),
        ),
        0x5E => Some(
            skeleton(AddressingMode::AbsoluteX, MicroOp::LogicalShiftRightAddress, InstType::RMW),
        ),
        0x60 => Some(
            seq![
                MicroOp::DummyCycle,
                MicroOp::IncrementSP(1),
                MicroOp::PullPCL,
                MicroOp::PullPCH,
                MicroOp::IncrementPC,
            ],
        ),
        0x61 => Some(
            skeleton(AddressingMode::IndexedIndirect, MicroOp::AddWithCarryAddress, InstType::Read),
        ),
        0x65 => Some(
            skeleton(AddressingMode::ZeroPage, MicroOp::AddWithCarryAddress, InstType::Read),
        ),
        0x66 => Some(
            skeleton(AddressingMode::ZeroPage, MicroOp::RotateRightAddress, InstType::RMW),
        ),
        0x68 => Some(seq![MicroOp::DummyCycle, MicroOp::IncrementSP(1), MicroOp::PullAccumulator]),
        0x69 => Some(seq![MicroOp::AddWithCarry]),
        0x6A => Some(seq![MicroOp::RotateRight]),
        0x6C => Some(
            seq![
                MicroOp::FetchLowAddrByte,
                MicroOp::FetchHighAddrByte,
                MicroOp::ReadLowFromIndirect,
                MicroOp::ReadHighFromIndirectLatch,
            ],
        ),
        0x6D => Some(
            skeleton(AddressingMode::Absolute, MicroOp::AddWithCarryAddress, InstType::Read),
        ),
        0x6E => Some(
            skeleton(AddressingMode::Absolute, MicroOp::RotateRightAddress, InstType::RMW),
        ),
        0x70 => Some(seq![MicroOp::FetchRelativeOffset(status & FLAG_OVERFLOW, FLAG_OVERFLOW)]),
        0x71 => Some(
            skeleton(AddressingMode::IndirectIndexed, MicroOp::AddWithCarryAddress, InstType::Read),
        ),
        0x75 => Some(
            skeleton(AddressingMode::ZeroPageX, MicroOp::AddWithCarryAddress, InstType::Read),
        ),
        0x76 => Some(
            skeleton(AddressingMode::ZeroPageX, MicroOp::RotateRightAddress, InstType::RMW),
        ),
        0x78 => Some(seq![MicroOp::SetInterrupt]),
        0x79 => Some(
            skeleton(AddressingMode::AbsoluteY, MicroOp::AddWithCarryAddress, InstType::Read),
        ),
        0x7D => Some(
            skeleton(AddressingMode::AbsoluteX, MicroOp::AddWithCarryAddress, InstType::Read),
        ),
        0x7E => Some(
            skeleton(AddressingMode::AbsoluteX, MicroOp::RotateRightAddress, InstType::RMW),
        ),
        0x81 => Some(
            skeleton(AddressingMode::IndexedIndirect, MicroOp::StoreAccumulator, InstType::Write),
        ),
        0x84 => Some(skeleton(AddressingMode::ZeroPage, MicroOp::StoreY, InstType::Write)),
        0x85 => Some(
            skeleton(AddressingMode::ZeroPage, MicroOp::StoreAccumulator, InstType::Write),
        ),
        0x86 => Some(skeleton(AddressingMode::ZeroPage, MicroOp::StoreX, InstType::Write)),
        0x88 => Some(seq![MicroOp::DecrementY]),
        0x8A => Some(seq![MicroOp::LoadAccumulatorX]),
        0x8C => Some(skeleton(AddressingMode::Absolute, MicroOp::StoreY, InstType::Write)),
        0x8D => Some(
            skeleton(AddressingMode::Absolute, MicroOp::StoreAccumulator, InstType::Write),
        ),
        0x8E => Some(skeleton(AddressingMode::Absolute, MicroOp::StoreX, InstType::Write)),
        0x90 => Some(seq![MicroOp::FetchRelativeOffset(status & FLAG_CARRY, 0)]),
        0x91 => Some(
            skeleton(AddressingMode::IndirectIndexed, MicroOp::StoreAccumulator, InstType::Write),
        ),
        0x94 => Some(skeleton(AddressingMode::ZeroPageX, MicroOp::StoreY, InstType::Write)),
        0x95 => Some(
            skeleton(AddressingMode::ZeroPageX, MicroOp::StoreAccumulator, InstType::Write),
        ),
        0x96 => Some(skeleton(AddressingMode::ZeroPageY, MicroOp::StoreX, InstType::Write)),
        0x98 => Some(seq![MicroOp::LoadAccumulatorY]),
        0x99 => Some(
            skeleton(AddressingMode::AbsoluteY, MicroOp::StoreAccumulator, InstType::Write),
        ),
        0x9A => Some(seq![MicroOp::LoadStackPointerX]),
        0x9D => Some(
            skeleton(AddressingMode::AbsoluteX, MicroOp::StoreAccumulator, InstType::Write),
        ),
        0xA0 => Some(seq![MicroOp::LoadY]),
        0xA1 => Some(skeleton(
            AddressingMode::IndexedIndirect,
            MicroOp::LoadAccumulatorFromAddress,
            InstType::Read,
        )),
        0xA2 => Some(seq![MicroOp::LoadX]),
        0xA4 => Some(skeleton(AddressingMode::ZeroPage, MicroOp::LoadYfromAddress, InstType::Read)),
        0xA5 => Some(
            skeleton(AddressingMode::ZeroPage, MicroOp::LoadAccumulatorFromAddress, InstType::Read),
        ),
        0xA6 => Some(skeleton(AddressingMode::ZeroPage, MicroOp::LoadXfromAddress, InstType::Read)),
        0xA8 => Some(seq![MicroOp::LoadYAccumulator]),
        0xA9 => Some(seq![MicroOp::LoadAccumulator]),
        0xAA => Some(seq![MicroOp::LoadXAccumulator]),
        0xAC => Some(skeleton(AddressingMode::Absolute, MicroOp::LoadYfromAddress, InstType::Read)),
        0xAD => Some(
            skeleton(AddressingMode::Absolute, MicroOp::LoadAccumulatorFromAddress, InstType::Read),
        ),
        0xAE => Some(skeleton(AddressingMode::Absolute, MicroOp::LoadXfromAddress, InstType::Read)),
        0xB0 => Some(seq![MicroOp::FetchRelativeOffset(status & FLAG_CARRY, FLAG_CARRY)]),
        0xB1 => Some(skeleton(
            AddressingMode::IndirectIndexed,
            MicroOp::LoadAccumulatorFromAddress,
            InstType::Read,
        )),
        0xB4 => Some(
            skeleton(AddressingMode::ZeroPageX, MicroOp::LoadYfromAddress, InstType::Read),
        ),
        0xB5 => Some(skeleton(
            AddressingMode::ZeroPageX,
            MicroOp::LoadAccumulatorFromAddress,
            InstType::Read,
        )),
        0xB6 => Some(
            skeleton(AddressingMode::ZeroPageY, MicroOp::LoadXfromAddress, InstType::Read),
        ),
        0xB8 => Some(seq![MicroOp::ClearOverflow]),
        0xB9 => Some(skeleton(
            AddressingMode::AbsoluteY,
            MicroOp::LoadAccumulatorFromAddress,
            InstType::Read,
        )),
        0xBA => Some(seq![MicroOp::LoadXStackPointer]),
        0xBC => Some(
            skeleton(AddressingMode::AbsoluteX, MicroOp::LoadYfromAddress, InstType::Read),
        ),
        0xBD => Some(skeleton(
            AddressingMode::AbsoluteX,
            MicroOp::LoadAccumulatorFromAddress,
            InstType::Read,
        )),
        0xBE => Some(
            skeleton(AddressingMode::AbsoluteY, MicroOp::LoadXfromAddress, InstType::Read),
        ),
        0xC0 => Some(seq![MicroOp::CompareY]),
        0xC1 => Some(
            skeleton(AddressingMode::IndexedIndirect, MicroOp::CompareAddress, InstType::Read),
        ),
        0xC4 => Some(skeleton(AddressingMode::ZeroPage, MicroOp::CompareYAddress, InstType::Read)),
        0xC5 => Some(skeleton(AddressingMode::ZeroPage, MicroOp::CompareAddress, InstType::Read)),
        0xC6 => Some(
            skeleton(AddressingMode::ZeroPage, MicroOp::WriteBackAndDecrement, InstType::RMW),
        ),
        0xC8 => Some(seq![MicroOp::IncrementY]),
        0xC9 => Some(seq![MicroOp::Compare]),
        0xCA => Some(seq![MicroOp::DecrementX]),
        0xCC => Some(skeleton(AddressingMode::Absolute, MicroOp::CompareYAddress, InstType::Read)),
        0xCD => Some(skeleton(AddressingMode::Absolute, MicroOp::CompareAddress, InstType::Read)),
        0xCE => Some(
            skeleton(AddressingMode::Absolute, MicroOp::WriteBackAndDecrement, InstType::RMW),
        ),
        0xD0 => Some(seq![MicroOp::FetchRelativeOffset(status & FLAG_ZERO, 0)]),
        0xD1 => Some(
            skeleton(AddressingMode::IndirectIndexed, MicroOp::CompareAddress, InstType::Read),
        ),
        0xD5 => Some(skeleton(AddressingMode::ZeroPageX, MicroOp::CompareAddress, InstType::Read)),
        0xD6 => Some(
            skeleton(AddressingMode::ZeroPageX, MicroOp::WriteBackAndDecrement, InstType::RMW),
        ),
        0xD8 => Some(seq![MicroOp::ClearDecimalMode]),
        0xD9 => Some(skeleton(AddressingMode::AbsoluteY, MicroOp::CompareAddress, InstType::Read)),
        0xDD => Some(skeleton(AddressingMode::AbsoluteX, MicroOp::CompareAddress, InstType::Read)),
        0xDE => Some(
            skeleton(AddressingMode::AbsoluteX, MicroOp::WriteBackAndDecrement, InstType::RMW),
        ),
        0xE0 => Some(seq![MicroOp::CompareX]),
        0xE1 => Some(
            skeleton(AddressingMode::IndexedIndirect, MicroOp::SubWithCarryAddress, InstType::Read),
        ),
        0xE4 => Some(skeleton(AddressingMode::ZeroPage, MicroOp::CompareXAddress, InstType::Read)),
        0xE5 => Some(
            skeleton(AddressingMode::ZeroPage, MicroOp::SubWithCarryAddress, InstType::Read),
        ),
        0xE6 => Some(
            skeleton(AddressingMode::ZeroPage, MicroOp::WriteBackAndIncrement, InstType::RMW),
        ),
        0xE8 => Some(seq![MicroOp::IncrementX]),
        0xE9 => Some(seq![MicroOp::SubWithCarry]),
        0xEA => Some(seq![MicroOp::DummyCycle]),
        0xEC => Some(skeleton(AddressingMode::Absolute, MicroOp::CompareXAddress, InstType::Read)),
        0xED => Some(
            skeleton(AddressingMode::Absolute, MicroOp::SubWithCarryAddress, InstType::Read),
        ),
        0xEE => Some(
            skeleton(AddressingMode::Absolute, MicroOp::WriteBackAndIncrement, InstType::RMW),
        ),
        0xF0 => Some(seq![MicroOp::FetchRelativeOffset(status & FLAG_ZERO, FLAG_ZERO)]),
        0xF1 => Some(
            skeleton(AddressingMode::IndirectIndexed, MicroOp::SubWithCarryAddress, InstType::Read),
        ),
        0xF5 => Some(
            skeleton(AddressingMode::ZeroPageX, MicroOp::SubWithCarryAddress, InstType::Read),
        ),
        0xF6 => Some(
            skeleton(AddressingMode::ZeroPageX, MicroOp::WriteBackAndIncrement, InstType::RMW),
        ),
        0xF8 => Some(seq![MicroOp::SetDecimalMode]),
        0xF9 => Some(
            skeleton(AddressingMode::AbsoluteY, MicroOp::SubWithCarryAddress, InstType::Read),
        ),
        0xFD => Some(
            skeleton(AddressingMode::AbsoluteX, MicroOp::SubWithCarryAddress, InstType::Read),
        ),
        0xFE => Some(
            skeleton(AddressingMode::AbsoluteX, MicroOp::WriteBackAndIncrement, InstType::RMW),
        ),
        _ => None,
    }
}

pub open spec fn is_implemented(opcode: u8) -> bool {
    decode_spec(opcode, 0) is Some
}

pub fn dispatch_generic_instruction(
    address_mode: AddressingMode,
    inst: MicroOp,
    inst_type: InstType,
) -> (q: InstructionQueue)
    ensures
        q.wf(),
        q@ == skeleton(address_mode, inst, inst_type),
{
    let mut q = InstructionQueue::new();
    match address_mode {
        AddressingMode::ZeroPage => {
            q.push_back(MicroOp::FetchZeroPage);
        },
        AddressingMode::ZeroPageX => {
            q.push_back(MicroOp::FetchZeroPage);
            q.push_back(MicroOp::AddXtoZeroPageAddress);
        },
        AddressingMode::ZeroPageY => {
            q.push_back(MicroOp::FetchZeroPage);
            q.push_back(MicroOp::AddYtoZeroPageAddress);
        },
        AddressingMode::Absolute => {
            q.push_back(MicroOp::FetchLowAddrByte);
            q.push_back(MicroOp::FetchHighAddrByte);
        },
        AddressingMode::AbsoluteX => {
            q.push_back(MicroOp::FetchLowAddrByte);
            q.push_back(MicroOp::FetchHighAddrByteWithX);
            if inst_type != InstType::Read {
                q.push_back(MicroOp::DummyCycle);
            }
        },
        AddressingMode::AbsoluteY => {
            q.push_back(MicroOp::FetchLowAddrByte);
            q.push_back(MicroOp::FetchHighAddrByteWithY);
            if inst_type != InstType::Read {
                q.push_back(MicroOp::DummyCycle);
            }
        },
        AddressingMode::IndexedIndirect => {
            q.push_back(MicroOp::FetchZeroPage);
            q.push_back(MicroOp::AddXtoPointer);
            q.push_back(MicroOp::FetchPointerLowByte);
            q.push_back(MicroOp::FetchPointerHighByte);
        },
        AddressingMode::IndirectIndexed => {
            q.push_back(MicroOp::FetchZeroPage);
            q.push_back(MicroOp::FetchPointerLowByte);
            q.push_back(MicroOp::FetchPointerHighByteWithY);
            if inst_type != InstType::Read {
                q.push_back(MicroOp::DummyCycle);
            }
        },
    }
    assert(q@ == address_cycles(address_mode, inst_type));
    if inst_type == InstType::RMW {
        q.push_back(MicroOp::ReadAddress);
        q.push_back(inst);
        q.push_back(MicroOp::WriteToAddress);
    } else {
        q.push_back(inst);
    }
    assert(q@ =~= skeleton(address_mode, inst, inst_type));
    q
}

/// Decodes `opcode`, with `status` the status byte at the fetch (branches test it there).
#[verifier::rlimit(60)]
pub fn decode_opcode(opcode: u8, status: u8) -> (r: Option<InstructionQueue>)
    ensures
        decode_spec(opcode, status) is None ==> r is None,
        decode_spec(opcode, status) is Some ==> r is Some && r->0.wf()
            && r->0@ == decode_spec(opcode, status)->0,
{
    let q = match opcode {
        0x00 => {
            let mut q = InstructionQueue::new();
            q.push_back(MicroOp::IncrementPC2);
            q.push_back(MicroOp::PushPCH);
            q.push_back(MicroOp::PushPCL);
            q.push_back(MicroOp::PushStatusBreak);
            q.push_back(MicroOp::FetchInterruptLow);
            q.push_back(MicroOp::FetchInterruptHigh);
            q
        },
        0x01 => dispatch_generic_instruction(
            AddressingMode::IndexedIndirect,
            MicroOp::InclusiveOrAddress,
            InstType::Read,
        ),
        0x05 => dispatch_generic_instruction(
            AddressingMode::ZeroPage,
            MicroOp::InclusiveOrAddress,
            InstType::Read,
        ),
        0x06 => dispatch_generic_instruction(
            AddressingMode::ZeroPage,
            MicroOp::ArithmeticShiftLeftAddress,
            InstType::RMW,
        ),
        0x08 => {
            let mut q = InstructionQueue::new();
            q.push_back(MicroOp::DummyCycle);
            q.push_back(MicroOp::PushStatus);
            q
        },
        0x09 => {
            let mut q = InstructionQueue::new();
            q.push_back(MicroOp::InclusiveOr);
            q
        },
        0x0A => {
            let mut q = InstructionQueue::new();
            q.push_back(MicroOp::ArithmeticShiftLeft);
            q
        },
        0x0D => dispatch_generic_instruction(
            AddressingMode::Absolute,
            MicroOp::InclusiveOrAddress,
            InstType::Read,
        ),
        0x0E => dispatch_generic_instruction(
            AddressingMode::Absolute,
            MicroOp::ArithmeticShiftLeftAddress,
            InstType::RMW,
        ),
        0x10 => {
            let mut q = InstructionQueue::new();
            q.push_back(MicroOp::FetchRelativeOffset(status & FLAG_NEGATIVE, 0));
            q
        },
        0x11 => dispatch_generic_instruction(
            AddressingMode::IndirectIndexed,
            MicroOp::InclusiveOrAddress,
            InstType::Read,
        ),
        0x15 => dispatch_generic_instruction(
            AddressingMode::ZeroPageX,
            MicroOp::InclusiveOrAddress,
            InstType::Read,
        ),
        0x16 => dispatch_generic_instruction(
            AddressingMode::ZeroPageX,
            MicroOp::ArithmeticShiftLeftAddress,
            InstType::RMW,
        ),
        0x18 => {
            let mut q = InstructionQueue::new();
            q.push_back(MicroOp::ClearCarry);
            q
        },
        0x19 => dispatch_generic_instruction(
            AddressingMode::AbsoluteY,
            MicroOp::InclusiveOrAddress,
            InstType::Read,
        ),
        0x1D => dispatch_generic_instruction(
            AddressingMode::AbsoluteX,
            MicroOp::InclusiveOrAddress,
            InstType::Read,
        ),
        0x1E => dispatch_generic_instruction(
            AddressingMode::AbsoluteX,
            MicroOp::ArithmeticShiftLeftAddress,
            InstType::RMW,
        ),
        0x20 => {
            let mut q = InstructionQueue::new();
            q.push_back(MicroOp::FetchLowAddrByte);
            q.push_back(MicroOp::DummyCycle);
            q.push_back(MicroOp::PushPCH);
            q.push_back(MicroOp::PushPCL);
            q.push_back(MicroOp::CopyLowFetchHightoPC);
            q
        },
        0x21 => dispatch_generic_instruction(
            AddressingMode::IndexedIndirect,
            MicroOp::LogicalAndAddress,
            InstType::Read,
        ),
        0x24 => dispatch_generic_instruction(
            AddressingMode::ZeroPage,
            MicroOp::BitTestAddress,
            InstType::Read,
        ),
        0x25 => dispatch_generic_instruction(
            AddressingMode::ZeroPage,
            MicroOp::LogicalAndAddress,
            InstType::Read,
        ),
        0x26 => dispatch_generic_instruction(
            AddressingMode::ZeroPage,
            MicroOp::RotateLeftAddress,
            InstType::RMW,
        ),
        0x28 => {
            let mut q = InstructionQueue::new();
            q.push_back(MicroOp::DummyCycle);
            q.push_back(MicroOp::IncrementSP(1));
            q.push_back(MicroOp::PullStatus);
            q
        },
        0x29 => {
            let mut q = InstructionQueue::new();
            q.push_back(MicroOp::LogicalAnd);
            q
        },
        0x2A => {
            let mut q = InstructionQueue::new();
            q.push_back(MicroOp::RotateLeft);
            q
        },
        0x2C => dispatch_generic_instruction(
            AddressingMode::Absolute,
            MicroOp::BitTestAddress,
            InstType::Read,
        ),
        0x2D => dispatch_generic_instruction(
            AddressingMode::Absolute,
            MicroOp::LogicalAndAddress,
            InstType::Read,
        ),
        0x2E => dispatch_generic_instruction(
            AddressingMode::Absolute,
            MicroOp::RotateLeftAddress,
            InstType::RMW,
        ),
        0x30 => {
            let mut q = InstructionQueue::new();
            q.push_back(MicroOp::FetchRelativeOffset(status & FLAG_NEGATIVE, FLAG_NEGATIVE));
            q
        },
        0x31 => dispatch_generic_instruction(
            AddressingMode::IndirectIndexed,
            MicroOp::LogicalAndAddress,
            InstType::Read,
        ),
        0x35 => dispatch_generic_instruction(
            AddressingMode::ZeroPageX,
            MicroOp::LogicalAndAddress,
            InstType::Read,
        ),
        0x36 => dispatch_generic_instruction(
            AddressingMode::ZeroPageX,
            MicroOp::RotateLeftAddress,
            InstType::RMW,
        ),
        0x38 => {
            let mut q = InstructionQueue::new();
            q.push_back(MicroOp::SetCarry);
            q
        },
        0x39 => dispatch_generic_instruction(
            AddressingMode::AbsoluteY,
            MicroOp::LogicalAndAddress,
            InstType::Read,
        ),
        0x3D => dispatch_generic_instruction(
            AddressingMode::AbsoluteX,
            MicroOp::LogicalAndAddress,
            InstType::Read,
        ),
        0x3E => dispatch_generic_instruction(
            AddressingMode::AbsoluteX,
            MicroOp::RotateLeftAddress,
            InstType::RMW,
        ),
        0x40 => {
            let mut q = InstructionQueue::new();
            q.push_back(MicroOp::DummyCycle);
            q.push_back(MicroOp::IncrementSP(1));
            q.push_back(MicroOp::PullStatusAndIncrementSP);
            q.push_back(MicroOp::PullPCL);
            q.push_back(MicroOp::PullPCH);
            q
        },
        0x41 => dispatch_generic_instruction(
            AddressingMode::IndexedIndirect,
            MicroOp::ExclusiveOrAddress,
            InstType::Read,
        ),
        0x45 => dispatch_generic_instruction(
            AddressingMode::ZeroPage,
            MicroOp::ExclusiveOrAddress,
            InstType::Read,
        ),
        0x46 => dispatch_generic_instruction(
            AddressingMode::ZeroPage,
            MicroOp::LogicalShiftRightAddress,
            InstType::RMW,
        ),
        0x48 => {
            let mut q = InstructionQueue::new();
            q.push_back(MicroOp::DummyCycle);
            q.push_back(MicroOp::PushAccumulator);
            q
        },
        0x49 => {
            let mut q = InstructionQueue::new();
            q.push_back(MicroOp::ExclusiveOr);
            q
        },
        0x4A => {
            let mut q = InstructionQueue::new();
            q.push_back(MicroOp::LogicalShiftRight);
            q
        },
        0x4C => {
            let mut q = InstructionQueue::new();
            q.push_back(MicroOp::FetchLowAddrByte);
            q.push_back(MicroOp::CopyLowFetchHightoPC);
            q
        },
        0x4D => dispatch_generic_instruction(
            AddressingMode::Absolute,
            MicroOp::ExclusiveOrAddress,
            InstType::Read,
        ),
        0x4E => dispatch_generic_instruction(
            AddressingMode::Absolute,
            MicroOp::LogicalShiftRightAddress,
            InstType::RMW,
        ),
        0x50 => {
            let mut q = InstructionQueue::new();
            q.push_back(MicroOp::FetchRelativeOffset(status & FLAG_OVERFLOW, 0));
            q
        },
        0x51 => dispatch_generic_instruction(
            AddressingMode::IndirectIndexed,
            MicroOp::ExclusiveOrAddress,
            InstType::Read,
        ),
        0x55 => dispatch_generic_instruction(
            AddressingMode::ZeroPageX,
            MicroOp::ExclusiveOrAddress,
            InstType::Read,
        ),
        0x56 => dispatch_generic_instruction(
            AddressingMode::ZeroPageX,
            MicroOp::LogicalShiftRightAddress,
            InstType::RMW,
        ),
        0x58 => {
            let mut q = InstructionQueue::new();
            q.push_back(MicroOp::ClearInterrupt);
            q
        },
        0x59 => dispatch_generic_instruction(
            AddressingMode::AbsoluteY,
            MicroOp::ExclusiveOrAddress,
            InstType::Read,
        ),
        0x5D => dispatch_generic_instruction(
            AddressingMode::AbsoluteX,
            MicroOp::ExclusiveOrAddress,
            InstType::Read,
        ),
        0x5E => dispatch_generic_instruction(
            AddressingMode::AbsoluteX,
            MicroOp::LogicalShiftRightAddress,
            InstType::RMW,
        ),
        0x60 => {
            let mut q = InstructionQueue::new();
            q.push_back(MicroOp::DummyCycle);
            q.push_back(MicroOp::IncrementSP(1));
            q.push_back(MicroOp::PullPCL);
            q.push_back(MicroOp::PullPCH);
            q.push_back(MicroOp::IncrementPC);
            q
        },
        0x61 => dispatch_generic_instruction(
            AddressingMode::IndexedIndirect,
            MicroOp::AddWithCarryAddress,
            InstType::Read,
        ),
        0x65 => dispatch_generic_instruction(
            AddressingMode::ZeroPage,
            MicroOp::AddWithCarryAddress,
            InstType::Read,
        ),
        0x66 => dispatch_generic_instruction(
            AddressingMode::ZeroPage,
            MicroOp::RotateRightAddress,
            InstType::RMW,
        ),
        0x68 => {
            let mut q = InstructionQueue::new();
            q.push_back(MicroOp::DummyCycle);
            q.push_back(MicroOp::IncrementSP(1));
            q.push_back(MicroOp::PullAccumulator);
            q
        },
        0x69 => {
            let mut q = InstructionQueue::new();
            q.push_back(MicroOp::AddWithCarry);
            q
        },
        0x6A => {
            let mut q = InstructionQueue::new();
            q.push_back(MicroOp::RotateRight);
            q
        },
        0x6C => {
            let mut q = InstructionQueue::new();
            q.push_back(MicroOp::FetchLowAddrByte);
            q.push_back(MicroOp::FetchHighAddrByte);
            q.push_back(MicroOp::ReadLowFromIndirect);
            q.push_back(MicroOp::ReadHighFromIndirectLatch);
            q
        },
        0x6D => dispatch_generic_instruction(
            AddressingMode::Absolute,
            MicroOp::AddWithCarryAddress,
            InstType::Read,
        ),
        0x6E => dispatch_generic_instruction(
            AddressingMode::Absolute,
            MicroOp::RotateRightAddress,
            InstType::RMW,
        ),
        0x70 => {
            let mut q = InstructionQueue::new();
            q.push_back(MicroOp::FetchRelativeOffset(status & FLAG_OVERFLOW, FLAG_OVERFLOW));
            q
        },
        0x71 => dispatch_generic_instruction(
            AddressingMode::IndirectIndexed,
            MicroOp::AddWithCarryAddress,
            InstType::Read,
        ),
        0x75 => dispatch_generic_instruction(
            AddressingMode::ZeroPageX,
            MicroOp::AddWithCarryAddress,
            InstType::Read,
        ),
        0x76 => dispatch_generic_instruction(
            AddressingMode::ZeroPageX,
            MicroOp::RotateRightAddress,
            InstType::RMW,
        ),
        0x78 => {
            let mut q = InstructionQueue::new();
            q.push_back(MicroOp::SetInterrupt);
            q
        },
        0x79 => dispatch_generic_instruction(
            AddressingMode::AbsoluteY,
            MicroOp::AddWithCarryAddress,
            InstType::Read,
        ),
        0x7D => dispatch_generic_instruction(
            AddressingMode::AbsoluteX,
            MicroOp::AddWithCarryAddress,
            InstType::Read,
        ),
        0x7E => dispatch_generic_instruction(
            AddressingMode::AbsoluteX,
            MicroOp::RotateRightAddress,
            InstType::RMW,
        ),
        0x81 => dispatch_generic_instruction(
            AddressingMode::IndexedIndirect,
            MicroOp::StoreAccumulator,
            InstType::Write,
        ),
        0x84 => dispatch_generic_instruction(
            AddressingMode::ZeroPage,
            MicroOp::StoreY,
            InstType::Write,
        ),
        0x85 => dispatch_generic_instruction(
            AddressingMode::ZeroPage,
            MicroOp::StoreAccumulator,
            InstType::Write,
        ),
        0x86 => dispatch_generic_instruction(
            AddressingMode::ZeroPage,
            MicroOp::StoreX,
            InstType::Write,
        ),
        0x88 => {
            let mut q = InstructionQueue::new();
            q.push_back(MicroOp::DecrementY);
            q
        },
        0x8A => {
            let mut q = InstructionQueue::new();
            q.push_back(MicroOp::LoadAccumulatorX);
            q
        },
        0x8C => dispatch_generic_instruction(
            AddressingMode::Absolute,
            MicroOp::StoreY,
            InstType::Write,
        ),
        0x8D => dispatch_generic_instruction(
            AddressingMode::Absolute,
            MicroOp::StoreAccumulator,
            InstType::Write,
        ),
        0x8E => dispatch_generic_instruction(
            AddressingMode::Absolute,
            MicroOp::StoreX,
            InstType::Write,
        ),
        0x90 => {
            let mut q = InstructionQueue::new();
            q.push_back(MicroOp::FetchRelativeOffset(status & FLAG_CARRY, 0));
            q
        },
        0x91 => dispatch_generic_instruction(
            AddressingMode::IndirectIndexed,
            MicroOp::StoreAccumulator,
            InstType::Write,
        ),
        0x94 => dispatch_generic_instruction(
            AddressingMode::ZeroPageX,
            MicroOp::StoreY,
            InstType::Write,
        ),
        0x95 => dispatch_generic_instruction(
            AddressingMode::ZeroPageX,
            MicroOp::StoreAccumulator,
            InstType::Write,
        ),
        0x96 => dispatch_generic_instruction(
            AddressingMode::ZeroPageY,
            MicroOp::StoreX,
            InstType::Write,
        ),
        0x98 => {
            let mut q = InstructionQueue::new();
            q.push_back(MicroOp::LoadAccumulatorY);
            q
        },
        0x99 => dispatch_generic_instruction(
            AddressingMode::AbsoluteY,
            MicroOp::StoreAccumulator,
            InstType::Write,
        ),
        0x9A => {
            let mut q = InstructionQueue::new();
            q.push_back(MicroOp::LoadStackPointerX);
            q
        },
        0x9D => dispatch_generic_instruction(
            AddressingMode::AbsoluteX,
            MicroOp::StoreAccumulator,
            InstType::Write,
        ),
        0xA0 => {
            let mut q = InstructionQueue::new();
            q.push_back(MicroOp::LoadY);
            q
        },
        0xA1 => dispatch_generic_instruction(
            AddressingMode::IndexedIndirect,
            MicroOp::LoadAccumulatorFromAddress,
            InstType::Read,
        ),
        0xA2 => {
            let mut q = InstructionQueue::new();
            q.push_back(MicroOp::LoadX);
            q
        },
        0xA4 => dispatch_generic_instruction(
            AddressingMode::ZeroPage,
            MicroOp::LoadYfromAddress,
            InstType::Read,
        ),
        0xA5 => dispatch_generic_instruction(
            AddressingMode::ZeroPage,
            MicroOp::LoadAccumulatorFromAddress,
            InstType::Read,
        ),
        0xA6 => dispatch_generic_instruction(
            AddressingMode::ZeroPage,
            MicroOp::LoadXfromAddress,
            InstType::Read,
        ),
        0xA8 => {
            let mut q = InstructionQueue::new();
            q.push_back(MicroOp::LoadYAccumulator);
            q
        },
        0xA9 => {
            let mut q = InstructionQueue::new();
            q.push_back(MicroOp::LoadAccumulator);
            q
        },
        0xAA => {
            let mut q = InstructionQueue::new();
            q.push_back(MicroOp::LoadXAccumulator);
            q
        },
        0xAC => dispatch_generic_instruction(
            AddressingMode::Absolute,
            MicroOp::LoadYfromAddress,
            InstType::Read,
        ),
        0xAD => dispatch_generic_instruction(
            AddressingMode::Absolute,
            MicroOp::LoadAccumulatorFromAddress,
            InstType::Read,
        ),
        0xAE => dispatch_generic_instruction(
            AddressingMode::Absolute,
            MicroOp::LoadXfromAddress,
            InstType::Read,
        ),
        0xB0 => {
            let mut q = InstructionQueue::new();
            q.push_back(MicroOp::FetchRelativeOffset(status & FLAG_CARRY, FLAG_CARRY));
            q
        },
        0xB1 => dispatch_generic_instruction(
            AddressingMode::IndirectIndexed,
            MicroOp::LoadAccumulatorFromAddress,
            InstType::Read,
        ),
        0xB4 => dispatch_generic_instruction(
            AddressingMode::ZeroPageX,
            MicroOp::LoadYfromAddress,
            InstType::Read,
        ),
        0xB5 => dispatch_generic_instruction(
            AddressingMode::ZeroPageX,
            MicroOp::LoadAccumulatorFromAddress,
            InstType::Read,
        ),
        0xB6 => dispatch_generic_instruction(
            AddressingMode::ZeroPageY,
            MicroOp::LoadXfromAddress,
            InstType::Read,
        ),
        0xB8 => {
            let mut q = InstructionQueue::new();
            q.push_back(MicroOp::ClearOverflow);
            q
        },
        0xB9 => dispatch_generic_instruction(
            AddressingMode::AbsoluteY,
            MicroOp::LoadAccumulatorFromAddress,
            InstType::Read,
        ),
        0xBA => {
            let mut q = InstructionQueue::new();
            q.push_back(MicroOp::LoadXStackPointer);
            q
        },
        0xBC => dispatch_generic_instruction(
            AddressingMode::AbsoluteX,
            MicroOp::LoadYfromAddress,
            InstType::Read,
        ),
        0xBD => dispatch_generic_instruction(
            AddressingMode::AbsoluteX,
            MicroOp::LoadAccumulatorFromAddress,
            InstType::Read,
        ),
        0xBE => dispatch_generic_instruction(
            AddressingMode::AbsoluteY,
            MicroOp::LoadXfromAddress,
            InstType::Read,
        ),
        0xC0 => {
            let mut q = InstructionQueue::new();
            q.push_back(MicroOp::CompareY);
            q
        },
        0xC1 => dispatch_generic_instruction(
            AddressingMode::IndexedIndirect,
            MicroOp::CompareAddress,
            InstType::Read,
        ),
        0xC4 => dispatch_generic_instruction(
            AddressingMode::ZeroPage,
            MicroOp::CompareYAddress,
            InstType::Read,
        ),
        0xC5 => dispatch_generic_instruction(
            AddressingMode::ZeroPage,
            MicroOp::CompareAddress,
            InstType::Read,
        ),
        0xC6 => dispatch_generic_instruction(
            AddressingMode::ZeroPage,
            MicroOp::WriteBackAndDecrement,
            InstType::RMW,
        ),
        0xC8 => {
            let mut q = InstructionQueue::new();
            q.push_back(MicroOp::IncrementY);
            q
        },
        0xC9 => {
            let mut q = InstructionQueue::new();
            q.push_back(MicroOp::Compare);
            q
        },
        0xCA => {
            let mut q = InstructionQueue::new();
            q.push_back(MicroOp::DecrementX);
            q
        },
        0xCC => dispatch_generic_instruction(
            AddressingMode::Absolute,
            MicroOp::CompareYAddress,
            InstType::Read,
        ),
        0xCD => dispatch_generic_instruction(
            AddressingMode::Absolute,
            MicroOp::CompareAddress,
            InstType::Read,
        ),
        0xCE => dispatch_generic_instruction(
            AddressingMode::Absolute,
            MicroOp::WriteBackAndDecrement,
            InstType::RMW,
        ),
        0xD0 => {
            let mut q = InstructionQueue::new();
            q.push_back(MicroOp::FetchRelativeOffset(status & FLAG_ZERO, 0));
            q
        },
        0xD1 => dispatch_generic_instruction(
            AddressingMode::IndirectIndexed,
            MicroOp::CompareAddress,
            InstType::Read,
        ),
        0xD5 => dispatch_generic_instruction(
            AddressingMode::ZeroPageX,
            MicroOp::CompareAddress,
            InstType::Read,
        ),
        0xD6 => dispatch_generic_instruction(
            AddressingMode::ZeroPageX,
            MicroOp::WriteBackAndDecrement,
            InstType::RMW,
        ),
        0xD8 => {
            let mut q = InstructionQueue::new();
            q.push_back(MicroOp::ClearDecimalMode);
            q
        },
        0xD9 => dispatch_generic_instruction(
            AddressingMode::AbsoluteY,
            MicroOp::CompareAddress,
            InstType::Read,
        ),
        0xDD => dispatch_generic_instruction(
            AddressingMode::AbsoluteX,
            MicroOp::CompareAddress,
            InstType::Read,
        ),
        0xDE => dispatch_generic_instruction(
            AddressingMode::AbsoluteX,
            MicroOp::WriteBackAndDecrement,
            InstType::RMW,
        ),
        0xE0 => {
            let mut q = InstructionQueue::new();
            q.push_back(MicroOp::CompareX);
            q
        },
        0xE1 => dispatch_generic_instruction(
            AddressingMode::IndexedIndirect,
            MicroOp::SubWithCarryAddress,
            InstType::Read,
        ),
        0xE4 => dispatch_generic_instruction(
            AddressingMode::ZeroPage,
            MicroOp::CompareXAddress,
            InstType::Read,
        ),
        0xE5 => dispatch_generic_instruction(
            AddressingMode::ZeroPage,
            MicroOp::SubWithCarryAddress,
            InstType::Read,
        ),
        0xE6 => dispatch_generic_instruction(
            AddressingMode::ZeroPage,
            MicroOp::WriteBackAndIncrement,
            InstType::RMW,
        ),
        0xE8 => {
            let mut q = InstructionQueue::new();
            q.push_back(MicroOp::IncrementX);
            q
        },
        0xE9 => {
            let mut q = InstructionQueue::new();
            q.push_back(MicroOp::SubWithCarry);
            q
        },
        0xEA => {
            let mut q = InstructionQueue::new();
            q.push_back(MicroOp::DummyCycle);
            q
        },
        0xEC => dispatch_generic_instruction(
            AddressingMode::Absolute,
            MicroOp::CompareXAddress,
            InstType::Read,
        ),
        0xED => dispatch_generic_instruction(
            AddressingMode::Absolute,
            MicroOp::SubWithCarryAddress,
            InstType::Read,
        ),
        0xEE => dispatch_generic_instruction(
            AddressingMode::Absolute,
            MicroOp::WriteBackAndIncrement,
            InstType::RMW,
        ),
        0xF0 => {
            let mut q = InstructionQueue::new();
            q.push_back(MicroOp::FetchRelativeOffset(status & FLAG_ZERO, FLAG_ZERO));
            q
        },
        0xF1 => dispatch_generic_instruction(
            AddressingMode::IndirectIndexed,
            MicroOp::SubWithCarryAddress,
            InstType::Read,
        ),
        0xF5 => dispatch_generic_instruction(
            AddressingMode::ZeroPageX,
            MicroOp::SubWithCarryAddress,
            InstType::Read,
        ),
        0xF6 => dispatch_generic_instruction(
            AddressingMode::ZeroPageX,
            MicroOp::WriteBackAndIncrement,
            InstType::RMW,
        ),
        0xF8 => {
            let mut q = InstructionQueue::new();
            q.push_back(MicroOp::SetDecimalMode);
            q
        },
        0xF9 => dispatch_generic_instruction(
            AddressingMode::AbsoluteY,
            MicroOp::SubWithCarryAddress,
            InstType::Read,
        ),
        0xFD => dispatch_generic_instruction(
            AddressingMode::AbsoluteX,
            MicroOp::SubWithCarryAddress,
            InstType::Read,
        ),
        0xFE => dispatch_generic_instruction(
            AddressingMode::AbsoluteX,
            MicroOp::WriteBackAndIncrement,
            InstType::RMW,
        ),
        _ => {
            return None;
        },
    };
    Some(q)
}

} // verus!
