//! The micro-operations of the interpreter: one atomic sub-cycle of work each.
use vstd::prelude::*;

verus! {

/// One clock cycle of work after the opcode fetch.
#[derive(Clone, Copy, Debug, PartialEq, Eq, Structural)]
pub enum MicroOp {
    /// Filler for unused queue slots; does nothing.
    Empty,
    TakeBranch(u8),
    ExclusiveOr,
    ExclusiveOrAddress,
    LogicalAnd,
    LogicalAndAddress,
    InclusiveOr,
    InclusiveOrAddress,
    BitTestAddress,
    AddWithCarry,
    AddWithCarryAddress,
    SubWithCarry,
    SubWithCarryAddress,
    Compare,
    CompareAddress,
    CompareX,
    CompareXAddress,
    CompareY,
    CompareYAddress,
    ArithmeticShiftLeft,
    ArithmeticShiftLeftAddress,
    LogicalShiftRight,
    LogicalShiftRightAddress,
    RotateLeft,
    RotateLeftAddress,
    RotateRight,
    RotateRightAddress,
    StoreAccumulator,
    StoreX,
    StoreY,
    LoadAccumulator,
    LoadAccumulatorFromAddress,
    LoadX,
    LoadXfromAddress,
    LoadY,
    LoadYfromAddress,
    FetchLowAddrByte,
    FetchHighAddrByte,
    FetchInterruptLow,
    FetchInterruptHigh,
    CopyLowFetchHightoPC,
    FetchHighAddrByteWithX,
    FetchHighAddrByteWithY,
    AddXtoZeroPageAddress,
    AddYtoZeroPageAddress,
    FetchZeroPage,
    /// Reads the branch offset; the branch is taken when the two bytes are equal.
    FetchRelativeOffset(u8, u8),
    LoadXAccumulator,
    LoadYAccumulator,
    LoadXStackPointer,
    LoadAccumulatorX,
    LoadStackPointerX,
    LoadAccumulatorY,
    PushAccumulator,
    /// PHP: pushes the status byte as it is.
    PushStatus,
    /// BRK: pushes the status byte with B set.
    PushStatusBreak,
    PullAccumulator,
    PullStatus,
    /// RTI: pulls the status byte and moves SP on to the return address.
    PullStatusAndIncrementSP,
    PushPCH,
    PushPCL,
    PullPCL,
    PullPCH,
    IncrementPC,
    IncrementPC2,
    IncrementSP(u8),
    IncrementX,
    IncrementY,
    DecrementX,
    DecrementY,
    DummyCycle,
    AddXtoPointer,
    FetchPointerLowByte,
    FetchPointerHighByte,
    FetchPointerHighByteWithY,
    ReadHighFromIndirectLatch,
    ReadLowFromIndirect,
    ReadAddress,
    WriteBackAndIncrement,
    WriteBackAndDecrement,
    WriteToAddress,
    SetCarry,
    ClearCarry,
    ClearDecimalMode,
    SetDecimalMode,
    ClearInterrupt,
    SetInterrupt,
    ClearOverflow,
}

/// How an instruction forms its effective address.
#[derive(Clone, Copy, Debug, PartialEq, Eq, Structural)]
pub enum AddressingMode {
    ZeroPage,
    ZeroPageX,
    ZeroPageY,
    Absolute,
    AbsoluteX,
    AbsoluteY,
    IndexedIndirect,
    IndirectIndexed,
}

/// What an instruction does with its effective address.
#[derive(Clone, Copy, Debug, PartialEq, Eq, Structural)]
pub enum InstType {
    Read,
    RMW,
    Write,
}

} // verus!
