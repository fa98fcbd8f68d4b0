//! The operations that an execution trace produces, and their conversion into
//! a trace container: each kind of operation becomes one kind of record.
use crate::rw::Rw;
use crate::rw_map::{concat_groups, RwMap};
use crate::tags::NUM_TARGETS;
use crate::tags::{AccountFieldTag, CallContextFieldTag, Target, TxLogFieldTag, TxReceiptFieldTag};
use crate::word::{Address, Word};
use vstd::prelude::*;

verus! {

/// A field of an account.
#[derive(Clone, Copy, Debug, PartialEq, Eq, Structural)]
pub enum AccountField {
    Nonce,
    Balance,
    CodeHash,
}

impl AccountField {
    /// The tag of the same name.
    pub open spec fn spec_tag(self) -> AccountFieldTag {
        match self {
            AccountField::Nonce => AccountFieldTag::Nonce,
            AccountField::Balance => AccountFieldTag::Balance,
            AccountField::CodeHash => AccountFieldTag::CodeHash,
        }
    }

    /// The tag of the same name, which has the same number.
    pub fn to_tag(&self) -> (r: AccountFieldTag)
        ensures
            r == self.spec_tag(),
            r.ordinal() == self.ordinal(),
    {
        match self {
            AccountField::Nonce => AccountFieldTag::Nonce,
            AccountField::Balance => AccountFieldTag::Balance,
            AccountField::CodeHash => AccountFieldTag::CodeHash,
        }
    }

    /// The field's number: its position in the declaration, counting from 1.
    pub open spec fn ordinal(self) -> u64 {
        match self {
            AccountField::Nonce => 1,
            AccountField::Balance => 2,
            AccountField::CodeHash => 3,
        }
    }
}

/// A field of a call context.
#[derive(Clone, Copy, Debug, PartialEq, Eq, Structural)]
pub enum CallContextField {
    RwCounterEndOfReversion,
    CallerId,
    TxId,
    Depth,
    CallerAddress,
    CalleeAddress,
    CallDataOffset,
    CallDataLength,
    ReturnDataOffset,
    ReturnDataLength,
    Value,
    IsSuccess,
    IsPersistent,
    IsStatic,
    LastCalleeId,
    LastCalleeReturnDataOffset,
    LastCalleeReturnDataLength,
    IsRoot,
    IsCreate,
    CodeHash,
    ProgramCounter,
    StackPointer,
    GasLeft,
    MemorySize,
    ReversibleWriteCounter,
}

impl CallContextField {
    /// The tag of the same name.
    pub open spec fn spec_tag(self) -> CallContextFieldTag {
        match self {
            CallContextField::RwCounterEndOfReversion => CallContextFieldTag::RwCounterEndOfReversion,
            CallContextField::CallerId => CallContextFieldTag::CallerId,
            CallContextField::TxId => CallContextFieldTag::TxId,
            CallContextField::Depth => CallContextFieldTag::Depth,
            CallContextField::CallerAddress => CallContextFieldTag::CallerAddress,
            CallContextField::CalleeAddress => CallContextFieldTag::CalleeAddress,
            CallContextField::CallDataOffset => CallContextFieldTag::CallDataOffset,
            CallContextField::CallDataLength => CallContextFieldTag::CallDataLength,
            CallContextField::ReturnDataOffset => CallContextFieldTag::ReturnDataOffset,
            CallContextField::ReturnDataLength => CallContextFieldTag::ReturnDataLength,
            CallContextField::Value => CallContextFieldTag::Value,
            CallContextField::IsSuccess => CallContextFieldTag::IsSuccess,
            CallContextField::IsPersistent => CallContextFieldTag::IsPersistent,
            CallContextField::IsStatic => CallContextFieldTag::IsStatic,
            CallContextField::LastCalleeId => CallContextFieldTag::LastCalleeId,
            CallContextField::LastCalleeReturnDataOffset => CallContextFieldTag::LastCalleeReturnDataOffset,
            CallContextField::LastCalleeReturnDataLength => CallContextFieldTag::LastCalleeReturnDataLength,
            CallContextField::IsRoot => CallContextFieldTag::IsRoot,
            CallContextField::IsCreate => CallContextFieldTag::IsCreate,
            CallContextField::CodeHash => CallContextFieldTag::CodeHash,
            CallContextField::ProgramCounter => CallContextFieldTag::ProgramCounter,
            CallContextField::StackPointer => CallContextFieldTag::StackPointer,
            CallContextField::GasLeft => CallContextFieldTag::GasLeft,
            CallContextField::MemorySize => CallContextFieldTag::MemorySize,
            CallContextField::ReversibleWriteCounter => CallContextFieldTag::ReversibleWriteCounter,
        }
    }

    /// The tag of the same name, which has the same number.
    pub fn to_tag(&self) -> (r: CallContextFieldTag)
        ensures
            r == self.spec_tag(),
            r.ordinal() == self.ordinal(),
    {
        match self {
            CallContextField::RwCounterEndOfReversion => CallContextFieldTag::RwCounterEndOfReversion,
            CallContextField::CallerId => CallContextFieldTag::CallerId,
            CallContextField::TxId => CallContextFieldTag::TxId,
            CallContextField::Depth => CallContextFieldTag::Depth,
            CallContextField::CallerAddress => CallContextFieldTag::CallerAddress,
            CallContextField::CalleeAddress => CallContextFieldTag::CalleeAddress,
            CallContextField::CallDataOffset => CallContextFieldTag::CallDataOffset,
            CallContextField::CallDataLength => CallContextFieldTag::CallDataLength,
            CallContextField::ReturnDataOffset => CallContextFieldTag::ReturnDataOffset,
            CallContextField::ReturnDataLength => CallContextFieldTag::ReturnDataLength,
            CallContextField::Value => CallContextFieldTag::Value,
            CallContextField::IsSuccess => CallContextFieldTag::IsSuccess,
            CallContextField::IsPersistent => CallContextFieldTag::IsPersistent,
            CallContextField::IsStatic => CallContextFieldTag::IsStatic,
            CallContextField::LastCalleeId => CallContextFieldTag::LastCalleeId,
            CallContextField::LastCalleeReturnDataOffset => CallContextFieldTag::LastCalleeReturnDataOffset,
            CallContextField::LastCalleeReturnDataLength => CallContextFieldTag::LastCalleeReturnDataLength,
            CallContextField::IsRoot => CallContextFieldTag::IsRoot,
            CallContextField::IsCreate => CallContextFieldTag::IsCreate,
            CallContextField::CodeHash => CallContextFieldTag::CodeHash,
            CallContextField::ProgramCounter => CallContextFieldTag::ProgramCounter,
            CallContextField::StackPointer => CallContextFieldTag::StackPointer,
            CallContextField::GasLeft => CallContextFieldTag::GasLeft,
            CallContextField::MemorySize => CallContextFieldTag::MemorySize,
            CallContextField::ReversibleWriteCounter => CallContextFieldTag::ReversibleWriteCounter,
        }
    }

    /// The field's number: its position in the declaration, counting from 1.
    pub open spec fn ordinal(self) -> u64 {
        match self {
            CallContextField::RwCounterEndOfReversion => 1,
            CallContextField::CallerId => 2,
            CallContextField::TxId => 3,
            CallContextField::Depth => 4,
            CallContextField::CallerAddress => 5,
            CallContextField::CalleeAddress => 6,
            CallContextField::CallDataOffset => 7,
            CallContextField::CallDataLength => 8,
            CallContextField::ReturnDataOffset => 9,
            CallContextField::ReturnDataLength => 10,
            CallContextField::Value => 11,
            CallContextField::IsSuccess => 12,
            CallContextField::IsPersistent => 13,
            CallContextField::IsStatic => 14,
            CallContextField::LastCalleeId => 15,
            CallContextField::LastCalleeReturnDataOffset => 16,
            CallContextField::LastCalleeReturnDataLength => 17,
            CallContextField::IsRoot => 18,
            CallContextField::IsCreate => 19,
            CallContextField::CodeHash => 20,
            CallContextField::ProgramCounter => 21,
            CallContextField::StackPointer => 22,
            CallContextField::GasLeft => 23,
            CallContextField::MemorySize => 24,
            CallContextField::ReversibleWriteCounter => 25,
        }
    }
}

/// A part of a transaction log.
#[derive(Clone, Copy, Debug, PartialEq, Eq, Structural)]
pub enum TxLogField {
    Address,
    Topic,
    Data,
}

impl TxLogField {
    /// The tag of the same name.
    pub open spec fn spec_tag(self) -> TxLogFieldTag {
        match self {
            TxLogField::Address => TxLogFieldTag::Address,
            TxLogField::Topic => TxLogFieldTag::Topic,
            TxLogField::Data => TxLogFieldTag::Data,
        }
    }

    /// The tag of the same name, which has the same number.
    pub fn to_tag(&self) -> (r: TxLogFieldTag)
        ensures
            r == self.spec_tag(),
            r.ordinal() == self.ordinal(),
    {
        match self {
            TxLogField::Address => TxLogFieldTag::Address,
            TxLogField::Topic => TxLogFieldTag::Topic,
            TxLogField::Data => TxLogFieldTag::Data,
        }
    }

    /// The field's number: its position in the declaration, counting from 1.
    pub open spec fn ordinal(self) -> u64 {
        match self {
            TxLogField::Address => 1,
            TxLogField::Topic => 2,
            TxLogField::Data => 3,
        }
    }
}

/// A field of a transaction receipt.
#[derive(Clone, Copy, Debug, PartialEq, Eq, Structural)]
pub enum TxReceiptField {
    PostStateOrStatus,
    LogLength,
    CumulativeGasUsed,
}

impl TxReceiptField {
    /// The tag of the same name.
    pub open spec fn spec_tag(self) -> TxReceiptFieldTag {
        match self {
            TxReceiptField::PostStateOrStatus => TxReceiptFieldTag::PostStateOrStatus,
            TxReceiptField::LogLength => TxReceiptFieldTag::LogLength,
            TxReceiptField::CumulativeGasUsed => TxReceiptFieldTag::CumulativeGasUsed,
        }
    }

    /// The tag of the same name, which has the same number.
    pub fn to_tag(&self) -> (r: TxReceiptFieldTag)
        ensures
            r == self.spec_tag(),
            r.ordinal() == self.ordinal(),
    {
        match self {
            TxReceiptField::PostStateOrStatus => TxReceiptFieldTag::PostStateOrStatus,
            TxReceiptField::LogLength => TxReceiptFieldTag::LogLength,
            TxReceiptField::CumulativeGasUsed => TxReceiptFieldTag::CumulativeGasUsed,
        }
    }

    /// The field's number: its position in the declaration, counting from 1.
    pub open spec fn ordinal(self) -> u64 {
        match self {
            TxReceiptField::PostStateOrStatus => 1,
            TxReceiptField::LogLength => 2,
            TxReceiptField::CumulativeGasUsed => 3,
        }
    }
}

/// One operation of the trace: its counter, whether it writes, and what it
/// touches.
#[derive(Clone, Copy, Debug, PartialEq, Eq)]
pub struct Operation<T> {
    pub rwc: usize,
    pub is_write: bool,
    pub op: T,
}

/// A padding operation.
#[derive(Clone, Copy, Debug, PartialEq, Eq)]
pub struct StartOp {}

/// A read or write of whether an account is warm in a transaction.
#[derive(Clone, Copy, Debug, PartialEq, Eq)]
pub struct TxAccessListAccountOp {
    pub tx_id: usize,
    pub address: Address,
    pub is_warm: bool,
    pub is_warm_prev: bool,
}

/// A read or write of whether a storage slot is warm in a transaction.
#[derive(Clone, Copy, Debug, PartialEq, Eq)]
pub struct TxAccessListAccountStorageOp {
    pub tx_id: usize,
    pub address: Address,
    pub key: Word,
    pub is_warm: bool,
    pub is_warm_prev: bool,
}

/// A read or write of a transaction's gas refund.
#[derive(Clone, Copy, Debug, PartialEq, Eq)]
pub struct TxRefundOp {
    pub tx_id: usize,
    pub value: u64,
    pub value_prev: u64,
}

/// A read or write of a field of an account.
#[derive(Clone, Copy, Debug, PartialEq, Eq)]
pub struct AccountOp {
    pub address: Address,
    pub field: AccountField,
    pub value: Word,
    pub value_prev: Word,
}

/// A read or write of a storage slot.
#[derive(Clone, Copy, Debug, PartialEq, Eq)]
pub struct StorageOp {
    pub address: Address,
    pub key: Word,
    pub value: Word,
    pub value_prev: Word,
    pub tx_id: usize,
    pub committed_value: Word,
}

/// A read or write of a field of a call context.
#[derive(Clone, Copy, Debug, PartialEq, Eq)]
pub struct CallContextOp {
    pub call_id: usize,
    pub field: CallContextField,
    pub value: Word,
}

/// A read or write of a stack slot.
#[derive(Clone, Copy, Debug, PartialEq, Eq)]
pub struct StackOp {
    pub call_id: usize,
    pub address: usize,
    pub value: Word,
}

/// A read or write of a memory byte.
#[derive(Clone, Copy, Debug, PartialEq, Eq)]
pub struct MemoryOp {
    pub call_id: usize,
    pub address: usize,
    pub value: u8,
}

/// A write of part of a transaction log.
#[derive(Clone, Copy, Debug, PartialEq, Eq)]
pub struct TxLogOp {
    pub tx_id: usize,
    pub log_id: usize,
    pub field: TxLogField,
    pub index: usize,
    pub value: Word,
}

/// A read or write of a field of a transaction receipt.
#[derive(Clone, Copy, Debug, PartialEq, Eq)]
pub struct TxReceiptOp {
    pub tx_id: usize,
    pub field: TxReceiptField,
    pub value: u64,
}

/// The operations of one execution, by kind.
#[derive(Clone, Debug)]
pub struct OperationContainer {
    pub start: Vec<Operation<StartOp>>,
    pub memory: Vec<Operation<MemoryOp>>,
    pub stack: Vec<Operation<StackOp>>,
    pub storage: Vec<Operation<StorageOp>>,
    pub tx_access_list_account: Vec<Operation<TxAccessListAccountOp>>,
    pub tx_access_list_account_storage: Vec<Operation<TxAccessListAccountStorageOp>>,
    pub tx_refund: Vec<Operation<TxRefundOp>>,
    pub account: Vec<Operation<AccountOp>>,
    pub call_context: Vec<Operation<CallContextOp>>,
    pub tx_receipt: Vec<Operation<TxReceiptOp>>,
    pub tx_log: Vec<Operation<TxLogOp>>,
}

impl OperationContainer {
    /// A container with no operations.
    pub fn new() -> (r: OperationContainer)
        ensures
            r.start@.len() == 0,
            r.memory@.len() == 0,
            r.stack@.len() == 0,
            r.storage@.len() == 0,
            r.tx_access_list_account@.len() == 0,
            r.tx_access_list_account_storage@.len() == 0,
            r.tx_refund@.len() == 0,
            r.account@.len() == 0,
            r.call_context@.len() == 0,
            r.tx_receipt@.len() == 0,
            r.tx_log@.len() == 0,
    {
        OperationContainer {
            start: Vec::new(),
            memory: Vec::new(),
            stack: Vec::new(),
            storage: Vec::new(),
            tx_access_list_account: Vec::new(),
            tx_access_list_account_storage: Vec::new(),
            tx_refund: Vec::new(),
            account: Vec::new(),
            call_context: Vec::new(),
            tx_receipt: Vec::new(),
            tx_log: Vec::new(),
        }
    }
}

pub open spec fn start_record(o: Operation<StartOp>) -> Rw {
    Rw::Start { rw_counter: o.rwc }
}

pub open spec fn memory_record(o: Operation<MemoryOp>) -> Rw {
    Rw::Memory {
        rw_counter: o.rwc,
        is_write: o.is_write,
        call_id: o.op.call_id,
        memory_address: o.op.address as u64,
        byte: o.op.value,
    }
}

pub open spec fn stack_record(o: Operation<StackOp>) -> Rw {
    Rw::Stack {
        rw_counter: o.rwc,
        is_write: o.is_write,
        call_id: o.op.call_id,
        stack_pointer: o.op.address,
        value: o.op.value,
    }
}

pub open spec fn storage_record(o: Operation<StorageOp>) -> Rw {
    Rw::AccountStorage {
        rw_counter: o.rwc,
        is_write: o.is_write,
        account_address: o.op.address,
        storage_key: o.op.key,
        value: o.op.value,
        value_prev: o.op.value_prev,
        tx_id: o.op.tx_id,
        committed_value: o.op.committed_value,
    }
}

pub open spec fn tx_access_list_account_record(o: Operation<TxAccessListAccountOp>) -> Rw {
    Rw::TxAccessListAccount {
        rw_counter: o.rwc,
        is_write: o.is_write,
        tx_id: o.op.tx_id,
        account_address: o.op.address,
        is_warm: o.op.is_warm,
        is_warm_prev: o.op.is_warm_prev,
    }
}

pub open spec fn tx_access_list_account_storage_record(
    o: Operation<TxAccessListAccountStorageOp>,
) -> Rw {
    Rw::TxAccessListAccountStorage {
        rw_counter: o.rwc,
        is_write: o.is_write,
        tx_id: o.op.tx_id,
        account_address: o.op.address,
        storage_key: o.op.key,
        is_warm: o.op.is_warm,
        is_warm_prev: o.op.is_warm_prev,
    }
}

pub open spec fn tx_refund_record(o: Operation<TxRefundOp>) -> Rw {
    Rw::TxRefund {
        rw_counter: o.rwc,
        is_write: o.is_write,
        tx_id: o.op.tx_id,
        value: o.op.value,
        value_prev: o.op.value_prev,
    }
}

pub open spec fn account_record(o: Operation<AccountOp>) -> Rw {
    Rw::Account {
        rw_counter: o.rwc,
        is_write: o.is_write,
        account_address: o.op.address,
        field_tag: o.op.field.spec_tag(),
        value: o.op.value,
        value_prev: o.op.value_prev,
    }
}

pub open spec fn call_context_record(o: Operation<CallContextOp>) -> Rw {
    Rw::CallContext {
        rw_counter: o.rwc,
        is_write: o.is_write,
        call_id: o.op.call_id,
        field_tag: o.op.field.spec_tag(),
        value: o.op.value,
    }
}

pub open spec fn tx_receipt_record(o: Operation<TxReceiptOp>) -> Rw {
    Rw::TxReceipt {
        rw_counter: o.rwc,
        is_write: o.is_write,
        tx_id: o.op.tx_id,
        field_tag: o.op.field.spec_tag(),
        value: o.op.value,
    }
}

pub open spec fn tx_log_record(o: Operation<TxLogOp>) -> Rw {
    Rw::TxLog {
        rw_counter: o.rwc,
        is_write: o.is_write,
        tx_id: o.op.tx_id,
        log_id: o.op.log_id as u64,
        field_tag: o.op.field.spec_tag(),
        index: o.op.index,
        value: o.op.value,
    }
}

fn start_rw(o: &Operation<StartOp>) -> (r: Rw)
    ensures
        r == start_record(*o),
{
    Rw::Start { rw_counter: o.rwc }
}

fn memory_rw(o: &Operation<MemoryOp>) -> (r: Rw)
    ensures
        r == memory_record(*o),
{
    Rw::Memory {
        rw_counter: o.rwc,
        is_write: o.is_write,
        call_id: o.op.call_id,
        memory_address: o.op.address as u64,
        byte: o.op.value,
    }
}

fn stack_rw(o: &Operation<StackOp>) -> (r: Rw)
    ensures
        r == stack_record(*o),
{
    Rw::Stack {
        rw_counter: o.rwc,
        is_write: o.is_write,
        call_id: o.op.call_id,
        stack_pointer: o.op.address,
        value: o.op.value,
    }
}

fn storage_rw(o: &Operation<StorageOp>) -> (r: Rw)
    ensures
        r == storage_record(*o),
{
    Rw::AccountStorage {
        rw_counter: o.rwc,
        is_write: o.is_write,
        account_address: o.op.address,
        storage_key: o.op.key,
        value: o.op.value,
        value_prev: o.op.value_prev,
        tx_id: o.op.tx_id,
        committed_value: o.op.committed_value,
    }
}

fn tx_access_list_account_rw(o: &Operation<TxAccessListAccountOp>) -> (r: Rw)
    ensures
        r == tx_access_list_account_record(*o),
{
    Rw::TxAccessListAccount {
        rw_counter: o.rwc,
        is_write: o.is_write,
        tx_id: o.op.tx_id,
        account_address: o.op.address,
        is_warm: o.op.is_warm,
        is_warm_prev: o.op.is_warm_prev,
    }
}

fn tx_access_list_account_storage_rw(o: &Operation<TxAccessListAccountStorageOp>) -> (r: Rw)
    ensures
        r == tx_access_list_account_storage_record(*o),
{
    Rw::TxAccessListAccountStorage {
        rw_counter: o.rwc,
        is_write: o.is_write,
        tx_id: o.op.tx_id,
        account_address: o.op.address,
        storage_key: o.op.key,
        is_warm: o.op.is_warm,
        is_warm_prev: o.op.is_warm_prev,
    }
}

fn tx_refund_rw(o: &Operation<TxRefundOp>) -> (r: Rw)
    ensures
        r == tx_refund_record(*o),
{
    Rw::TxRefund {
        rw_counter: o.rwc,
        is_write: o.is_write,
        tx_id: o.op.tx_id,
        value: o.op.value,
        value_prev: o.op.value_prev,
    }
}

fn account_rw(o: &Operation<AccountOp>) -> (r: Rw)
    ensures
        r == account_record(*o),
{
    Rw::Account {
        rw_counter: o.rwc,
        is_write: o.is_write,
        account_address: o.op.address,
        field_tag: o.op.field.to_tag(),
        value: o.op.value,
        value_prev: o.op.value_prev,
    }
}

fn call_context_rw(o: &Operation<CallContextOp>) -> (r: Rw)
    ensures
        r == call_context_record(*o),
{
    Rw::CallContext {
        rw_counter: o.rwc,
        is_write: o.is_write,
        call_id: o.op.call_id,
        field_tag: o.op.field.to_tag(),
        value: o.op.value,
    }
}

fn tx_receipt_rw(o: &Operation<TxReceiptOp>) -> (r: Rw)
    ensures
        r == tx_receipt_record(*o),
{
    Rw::TxReceipt {
        rw_counter: o.rwc,
        is_write: o.is_write,
        tx_id: o.op.tx_id,
        field_tag: o.op.field.to_tag(),
        value: o.op.value,
    }
}

fn tx_log_rw(o: &Operation<TxLogOp>) -> (r: Rw)
    ensures
        r == tx_log_record(*o),
{
    Rw::TxLog {
        rw_counter: o.rwc,
        is_write: o.is_write,
        tx_id: o.op.tx_id,
        log_id: o.op.log_id as u64,
        field_tag: o.op.field.to_tag(),
        index: o.op.index,
        value: o.op.value,
    }
}

/// The records of the operations outside the start list, kind after kind in
/// the order of their tag numbers.
pub open spec fn non_start_records(c: OperationContainer) -> Seq<Rw> {
    c.memory@.map_values(|o| memory_record(o)) + c.stack@.map_values(|o| stack_record(o))
        + c.storage@.map_values(|o| storage_record(o)) + c.tx_access_list_account@.map_values(
        |o| tx_access_list_account_record(o),
    ) + c.tx_access_list_account_storage@.map_values(
        |o| tx_access_list_account_storage_record(o),
    ) + c.tx_refund@.map_values(|o| tx_refund_record(o)) + c.account@.map_values(
        |o| account_record(o),
    ) + c.call_context@.map_values(|o| call_context_record(o)) + c.tx_receipt@.map_values(
        |o| tx_receipt_record(o),
    ) + c.tx_log@.map_values(|o| tx_log_record(o))
}

/// The records of a list of operations, one each, in the same order.
fn convert_all<T, F: Fn(&Operation<T>) -> Rw>(ops: &Vec<Operation<T>>, f: F) -> (r: Vec<Rw>)
    requires
        forall|i: int| 0 <= i < ops@.len() ==> #[trigger] f.requires((&ops@[i],)),
    ensures
        r@.len() == ops@.len(),
        forall|i: int| 0 <= i < ops@.len() ==> f.ensures((&ops@[i],), #[trigger] r@[i]),
{
    let mut out: Vec<Rw> = Vec::new();
    let mut i: usize = 0;
    while i < ops.len()
        invariant
            i <= ops@.len(),
            out@.len() == i,
            forall|j: int| 0 <= j < ops@.len() ==> #[trigger] f.requires((&ops@[j],)),
            forall|j: int| 0 <= j < i ==> f.ensures((&ops@[j],), #[trigger] out@[j]),
        decreases ops@.len() - i,
    {
        let rw = f(&ops[i]);
        out.push(rw);
        i = i + 1;
    }
    out
}

impl RwMap {
    /// The container of the records of an execution's operations: each
    /// operation becomes the record of its kind, with its counter, its write
    /// flag, and its sub-field mapped to the tag of the same name.
    pub fn from(container: &OperationContainer) -> (r: RwMap)
        ensures
            r.wf(),
            r.group(Target::Start) == container.start@.map_values(|o| start_record(o)),
            r.group(Target::Memory) == container.memory@.map_values(|o| memory_record(o)),
            r.group(Target::Stack) == container.stack@.map_values(|o| stack_record(o)),
            r.group(Target::Storage) == container.storage@.map_values(|o| storage_record(o)),
            r.group(Target::TxAccessListAccount) == container.tx_access_list_account@.map_values(
                |o| tx_access_list_account_record(o),
            ),
            r.group(Target::TxAccessListAccountStorage)
                == container.tx_access_list_account_storage@.map_values(
                |o| tx_access_list_account_storage_record(o),
            ),
            r.group(Target::TxRefund) == container.tx_refund@.map_values(
                |o| tx_refund_record(o),
            ),
            r.group(Target::Account) == container.account@.map_values(|o| account_record(o)),
            r.group(Target::CallContext) == container.call_context@.map_values(
                |o| call_context_record(o),
            ),
            r.group(Target::TxReceipt) == container.tx_receipt@.map_values(
                |o| tx_receipt_record(o),
            ),
            r.group(Target::TxLog) == container.tx_log@.map_values(|o| tx_log_record(o)),
            r.non_start_counters() == non_start_records(*container).map_values(
                |rw: Rw| rw.spec_rw_counter(),
            ),
    {
        let start = convert_all(&container.start, start_rw);
        let memory = convert_all(&container.memory, memory_rw);
        let stack = convert_all(&container.stack, stack_rw);
        let storage = convert_all(&container.storage, storage_rw);
        let access_account = convert_all(&container.tx_access_list_account, tx_access_list_account_rw);
        let access_storage = convert_all(&container.tx_access_list_account_storage, tx_access_list_account_storage_rw);
        let refund = convert_all(&container.tx_refund, tx_refund_rw);
        let account = convert_all(&container.account, account_rw);
        let call_context = convert_all(&container.call_context, call_context_rw);
        let receipt = convert_all(&container.tx_receipt, tx_receipt_rw);
        let log = convert_all(&container.tx_log, tx_log_rw);
        let groups = vec![
            start,
            memory,
            stack,
            storage,
            access_account,
            access_storage,
            refund,
            account,
            call_context,
            receipt,
            log,
        ];
        let r = RwMap { groups };
        assert(r.group(Target::Start) =~= container.start@.map_values(|o| start_record(o)));
        assert(r.group(Target::Memory) =~= container.memory@.map_values(|o| memory_record(o)));
        assert(r.group(Target::Stack) =~= container.stack@.map_values(|o| stack_record(o)));
        assert(r.group(Target::Storage) =~= container.storage@.map_values(|o| storage_record(o)));
        assert(r.group(Target::TxAccessListAccount) =~= container.tx_access_list_account@.map_values(
            |o| tx_access_list_account_record(o),
        ));
        assert(r.group(Target::TxAccessListAccountStorage)
            =~= container.tx_access_list_account_storage@.map_values(
            |o| tx_access_list_account_storage_record(o),
        ));
        assert(r.group(Target::TxRefund) =~= container.tx_refund@.map_values(
            |o| tx_refund_record(o),
        ));
        assert(r.group(Target::Account) =~= container.account@.map_values(|o| account_record(o)));
        assert(r.group(Target::CallContext) =~= container.call_context@.map_values(
            |o| call_context_record(o),
        ));
        assert(r.group(Target::TxReceipt) =~= container.tx_receipt@.map_values(
            |o| tx_receipt_record(o),
        ));
        assert(r.group(Target::TxLog) =~= container.tx_log@.map_values(|o| tx_log_record(o)));
        proof {
            let gs = r.group_seqs();
            reveal_with_fuel(concat_groups, 11);
            assert(concat_groups(gs, 1, NUM_TARGETS as int) =~= non_start_records(*container));
        }
        r
    }
}

} // verus!
