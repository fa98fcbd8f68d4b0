//! Closed enumerations that identify resources and their sub-fields. Each
//! tag's number is its position in the declaration, counting from 1.
use vstd::prelude::*;

verus! {

/// The kind of resource that an access touches; its number is the primary sort key.
#[derive(Clone, Copy, Debug, PartialEq, Eq, Structural)]
pub enum Target {
    Start,
    Memory,
    Stack,
    Storage,
    TxAccessListAccount,
    TxAccessListAccountStorage,
    TxRefund,
    Account,
    CallContext,
    TxReceipt,
    TxLog,
}

impl Target {
    /// The tag's number: its position in the declaration, counting from 1.
    pub open spec fn ordinal(self) -> u64 {
        match self {
            Target::Start => 1,
            Target::Memory => 2,
            Target::Stack => 3,
            Target::Storage => 4,
            Target::TxAccessListAccount => 5,
            Target::TxAccessListAccountStorage => 6,
            Target::TxRefund => 7,
            Target::Account => 8,
            Target::CallContext => 9,
            Target::TxReceipt => 10,
            Target::TxLog => 11,
        }
    }

    /// The tag's number.
    pub fn to_u64(&self) -> (r: u64)
        ensures
            r == self.ordinal(),
    {
        match self {
            Target::Start => 1,
            Target::Memory => 2,
            Target::Stack => 3,
            Target::Storage => 4,
            Target::TxAccessListAccount => 5,
            Target::TxAccessListAccountStorage => 6,
            Target::TxRefund => 7,
            Target::Account => 8,
            Target::CallContext => 9,
            Target::TxReceipt => 10,
            Target::TxLog => 11,
        }
    }
}

/// The field of an account that an access touches.
#[derive(Clone, Copy, Debug, PartialEq, Eq, Structural)]
pub enum AccountFieldTag {
    Nonce,
    Balance,
    CodeHash,
}

impl AccountFieldTag {
    /// The tag's number: its position in the declaration, counting from 1.
    pub open spec fn ordinal(self) -> u64 {
        match self {
            AccountFieldTag::Nonce => 1,
            AccountFieldTag::Balance => 2,
            AccountFieldTag::CodeHash => 3,
        }
    }

    /// The tag's number.
    pub fn to_u64(&self) -> (r: u64)
        ensures
            r == self.ordinal(),
    {
        match self {
            AccountFieldTag::Nonce => 1,
            AccountFieldTag::Balance => 2,
            AccountFieldTag::CodeHash => 3,
        }
    }
}

/// The field of a call context that an access touches.
#[derive(Clone, Copy, Debug, PartialEq, Eq, Structural)]
pub enum CallContextFieldTag {
    RwCounterEndOfReversion,
    CallerId,
    TxId,
    Depth,
    CallerAddress,
    CalleeAddress,
    CallDataOffset,
    CallDataLength,
    ReturnDataOffset,
    ReturnDataLength,
    Value,
    IsSuccess,
    IsPersistent,
    IsStatic,
    LastCalleeId,
    LastCalleeReturnDataOffset,
    LastCalleeReturnDataLength,
    IsRoot,
    IsCreate,
    CodeHash,
    ProgramCounter,
    StackPointer,
    GasLeft,
    MemorySize,
    ReversibleWriteCounter,
}

impl CallContextFieldTag {
    /// The tag's number: its position in the declaration, counting from 1.
    pub open spec fn ordinal(self) -> u64 {
        match self {
            CallContextFieldTag::RwCounterEndOfReversion => 1,
            CallContextFieldTag::CallerId => 2,
            CallContextFieldTag::TxId => 3,
            CallContextFieldTag::Depth => 4,
            CallContextFieldTag::CallerAddress => 5,
            CallContextFieldTag::CalleeAddress => 6,
            CallContextFieldTag::CallDataOffset => 7,
            CallContextFieldTag::CallDataLength => 8,
            CallContextFieldTag::ReturnDataOffset => 9,
            CallContextFieldTag::ReturnDataLength => 10,
            CallContextFieldTag::Value => 11,
            CallContextFieldTag::IsSuccess => 12,
            CallContextFieldTag::IsPersistent => 13,
            CallContextFieldTag::IsStatic => 14,
            CallContextFieldTag::LastCalleeId => 15,
            CallContextFieldTag::LastCalleeReturnDataOffset => 16,
            CallContextFieldTag::LastCalleeReturnDataLength => 17,
            CallContextFieldTag::IsRoot => 18,
            CallContextFieldTag::IsCreate => 19,
            CallContextFieldTag::CodeHash => 20,
            CallContextFieldTag::ProgramCounter => 21,
            CallContextFieldTag::StackPointer => 22,
            CallContextFieldTag::GasLeft => 23,
            CallContextFieldTag::MemorySize => 24,
            CallContextFieldTag::ReversibleWriteCounter => 25,
        }
    }

    /// The tag's number.
    pub fn to_u64(&self) -> (r: u64)
        ensures
            r == self.ordinal(),
    {
        match self {
            CallContextFieldTag::RwCounterEndOfReversion => 1,
            CallContextFieldTag::CallerId => 2,
            CallContextFieldTag::TxId => 3,
            CallContextFieldTag::Depth => 4,
            CallContextFieldTag::CallerAddress => 5,
            CallContextFieldTag::CalleeAddress => 6,
            CallContextFieldTag::CallDataOffset => 7,
            CallContextFieldTag::CallDataLength => 8,
            CallContextFieldTag::ReturnDataOffset => 9,
            CallContextFieldTag::ReturnDataLength => 10,
            CallContextFieldTag::Value => 11,
            CallContextFieldTag::IsSuccess => 12,
            CallContextFieldTag::IsPersistent => 13,
            CallContextFieldTag::IsStatic => 14,
            CallContextFieldTag::LastCalleeId => 15,
            CallContextFieldTag::LastCalleeReturnDataOffset => 16,
            CallContextFieldTag::LastCalleeReturnDataLength => 17,
            CallContextFieldTag::IsRoot => 18,
            CallContextFieldTag::IsCreate => 19,
            CallContextFieldTag::CodeHash => 20,
            CallContextFieldTag::ProgramCounter => 21,
            CallContextFieldTag::StackPointer => 22,
            CallContextFieldTag::GasLeft => 23,
            CallContextFieldTag::MemorySize => 24,
            CallContextFieldTag::ReversibleWriteCounter => 25,
        }
    }
}

/// The part of a transaction log that an access touches.
#[derive(Clone, Copy, Debug, PartialEq, Eq, Structural)]
pub enum TxLogFieldTag {
    Address,
    Topic,
    Data,
}

impl TxLogFieldTag {
    /// The tag's number: its position in the declaration, counting from 1.
    pub open spec fn ordinal(self) -> u64 {
        match self {
            TxLogFieldTag::Address => 1,
            TxLogFieldTag::Topic => 2,
            TxLogFieldTag::Data => 3,
        }
    }

    /// The tag's number.
    pub fn to_u64(&self) -> (r: u64)
        ensures
            r == self.ordinal(),
    {
        match self {
            TxLogFieldTag::Address => 1,
            TxLogFieldTag::Topic => 2,
            TxLogFieldTag::Data => 3,
        }
    }
}

/// The field of a transaction receipt that an access touches.
#[derive(Clone, Copy, Debug, PartialEq, Eq, Structural)]
pub enum TxReceiptFieldTag {
    PostStateOrStatus,
    LogLength,
    CumulativeGasUsed,
}

impl TxReceiptFieldTag {
    /// The tag's number: its position in the declaration, counting from 1.
    pub open spec fn ordinal(self) -> u64 {
        match self {
            TxReceiptFieldTag::PostStateOrStatus => 1,
            TxReceiptFieldTag::LogLength => 2,
            TxReceiptFieldTag::CumulativeGasUsed => 3,
        }
    }

    /// The tag's number.
    pub fn to_u64(&self) -> (r: u64)
        ensures
            r == self.ordinal(),
    {
        match self {
            TxReceiptFieldTag::PostStateOrStatus => 1,
            TxReceiptFieldTag::LogLength => 2,
            TxReceiptFieldTag::CumulativeGasUsed => 3,
        }
    }
}

/// The number of resource kinds.
pub const NUM_TARGETS: usize = 11;

/// The target whose number is `n`, where `1 <= n <= NUM_TARGETS`.
pub open spec fn target_of(n: int) -> Target {
    if n == 1 { Target::Start }
    else if n == 2 { Target::Memory }
    else if n == 3 { Target::Stack }
    else if n == 4 { Target::Storage }
    else if n == 5 { Target::TxAccessListAccount }
    else if n == 6 { Target::TxAccessListAccountStorage }
    else if n == 7 { Target::TxRefund }
    else if n == 8 { Target::Account }
    else if n == 9 { Target::CallContext }
    else if n == 10 { Target::TxReceipt }
    else { Target::TxLog }
}

/// Each target is the one of its own number.
pub proof fn lemma_target_of_ordinal(t: Target)
    ensures
        1 <= t.ordinal() <= NUM_TARGETS,
        target_of(t.ordinal() as int) == t,
{
}

} // verus!
