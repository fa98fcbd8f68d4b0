//! Access records: one variant per kind of resource, with the projections that
//! order, check and encode them.
use crate::tags::{AccountFieldTag, CallContextFieldTag, Target, TxLogFieldTag, TxReceiptFieldTag};
use crate::word::{limb_base, Address, Word};
use vstd::prelude::*;

verus! {

/// One read or write of a resource, numbered by its `rw_counter`.
#[derive(Clone, Copy, Debug, PartialEq, Eq, Structural)]
pub enum Rw {
    Start { rw_counter: usize },
    TxAccessListAccount {
        rw_counter: usize,
        is_write: bool,
        tx_id: usize,
        account_address: Address,
        is_warm: bool,
        is_warm_prev: bool,
    },
    TxAccessListAccountStorage {
        rw_counter: usize,
        is_write: bool,
        tx_id: usize,
        account_address: Address,
        storage_key: Word,
        is_warm: bool,
        is_warm_prev: bool,
    },
    TxRefund { rw_counter: usize, is_write: bool, tx_id: usize, value: u64, value_prev: u64 },
    Account {
        rw_counter: usize,
        is_write: bool,
        account_address: Address,
        field_tag: AccountFieldTag,
        value: Word,
        value_prev: Word,
    },
    AccountStorage {
        rw_counter: usize,
        is_write: bool,
        account_address: Address,
        storage_key: Word,
        value: Word,
        value_prev: Word,
        tx_id: usize,
        committed_value: Word,
    },
    CallContext {
        rw_counter: usize,
        is_write: bool,
        call_id: usize,
        field_tag: CallContextFieldTag,
        value: Word,
    },
    Stack { rw_counter: usize, is_write: bool, call_id: usize, stack_pointer: usize, value: Word },
    Memory { rw_counter: usize, is_write: bool, call_id: usize, memory_address: u64, byte: u8 },
    TxLog {
        rw_counter: usize,
        is_write: bool,
        tx_id: usize,
        log_id: u64,
        field_tag: TxLogFieldTag,
        /// The topic index for a topic, the byte index for data, 0 otherwise.
        index: usize,
        value: Word,
    },
    TxReceipt {
        rw_counter: usize,
        is_write: bool,
        tx_id: usize,
        field_tag: TxReceiptFieldTag,
        value: u64,
    },
}

/// The address that stands for a log entry: `index + field_tag * 2^32 + log_id * 2^48`.
pub open spec fn tx_log_address(index: u64, field_tag: TxLogFieldTag, log_id: u64) -> int {
    index + field_tag.ordinal() * 0x1_0000_0000 + log_id * 0x1_0000_0000_0000
}

/// The 0/1 word of a flag.
pub open spec fn flag_value(b: bool) -> int {
    if b {
        1
    } else {
        0
    }
}

/// The canonical sort key of a record: tag number, id, address (high, low),
/// field tag, storage key (high, low), counter; absent fields count as 0.
pub type CanonicalKey = (u64, usize, u32, u128, u64, u128, u128, usize);

/// Lexicographic order on canonical keys.
pub open spec fn key_tuple_le(x: CanonicalKey, y: CanonicalKey) -> bool {
    ||| x.0 < y.0
    ||| x.0 == y.0 && x.1 < y.1
    ||| x.0 == y.0 && x.1 == y.1 && x.2 < y.2
    ||| x.0 == y.0 && x.1 == y.1 && x.2 == y.2 && x.3 < y.3
    ||| x.0 == y.0 && x.1 == y.1 && x.2 == y.2 && x.3 == y.3 && x.4 < y.4
    ||| x.0 == y.0 && x.1 == y.1 && x.2 == y.2 && x.3 == y.3 && x.4 == y.4 && x.5 < y.5
    ||| x.0 == y.0 && x.1 == y.1 && x.2 == y.2 && x.3 == y.3 && x.4 == y.4 && x.5 == y.5 && x.6 < y.6
    ||| x.0 == y.0 && x.1 == y.1 && x.2 == y.2 && x.3 == y.3 && x.4 == y.4 && x.5 == y.5 && x.6 == y.6 && x.7 <= y.7
}

/// `a` comes no later than `b` in canonical order.
pub open spec fn canonical_le(a: Rw, b: Rw) -> bool {
    key_tuple_le(a.spec_canonical_key(), b.spec_canonical_key())
}

impl Rw {
    pub open spec fn spec_rw_counter(self) -> usize {
        match self {
            Rw::Start { rw_counter } => rw_counter,
            Rw::TxAccessListAccount { rw_counter, .. } => rw_counter,
            Rw::TxAccessListAccountStorage { rw_counter, .. } => rw_counter,
            Rw::TxRefund { rw_counter, .. } => rw_counter,
            Rw::Account { rw_counter, .. } => rw_counter,
            Rw::AccountStorage { rw_counter, .. } => rw_counter,
            Rw::CallContext { rw_counter, .. } => rw_counter,
            Rw::Stack { rw_counter, .. } => rw_counter,
            Rw::Memory { rw_counter, .. } => rw_counter,
            Rw::TxLog { rw_counter, .. } => rw_counter,
            Rw::TxReceipt { rw_counter, .. } => rw_counter,
        }
    }

    pub open spec fn spec_is_write(self) -> bool {
        match self {
            Rw::Start { .. } => false,
            Rw::TxAccessListAccount { is_write, .. } => is_write,
            Rw::TxAccessListAccountStorage { is_write, .. } => is_write,
            Rw::TxRefund { is_write, .. } => is_write,
            Rw::Account { is_write, .. } => is_write,
            Rw::AccountStorage { is_write, .. } => is_write,
            Rw::CallContext { is_write, .. } => is_write,
            Rw::Stack { is_write, .. } => is_write,
            Rw::Memory { is_write, .. } => is_write,
            Rw::TxLog { is_write, .. } => is_write,
            Rw::TxReceipt { is_write, .. } => is_write,
        }
    }

    pub open spec fn spec_tag(self) -> Target {
        match self {
            Rw::Start { .. } => Target::Start,
            Rw::TxAccessListAccount { .. } => Target::TxAccessListAccount,
            Rw::TxAccessListAccountStorage { .. } => Target::TxAccessListAccountStorage,
            Rw::TxRefund { .. } => Target::TxRefund,
            Rw::Account { .. } => Target::Account,
            Rw::AccountStorage { .. } => Target::Storage,
            Rw::CallContext { .. } => Target::CallContext,
            Rw::Stack { .. } => Target::Stack,
            Rw::Memory { .. } => Target::Memory,
            Rw::TxLog { .. } => Target::TxLog,
            Rw::TxReceipt { .. } => Target::TxReceipt,
        }
    }

    pub open spec fn spec_id(self) -> Option<usize> {
        match self {
            Rw::AccountStorage { tx_id, .. } => Some(tx_id),
            Rw::TxAccessListAccount { tx_id, .. } => Some(tx_id),
            Rw::TxAccessListAccountStorage { tx_id, .. } => Some(tx_id),
            Rw::TxRefund { tx_id, .. } => Some(tx_id),
            Rw::TxLog { tx_id, .. } => Some(tx_id),
            Rw::TxReceipt { tx_id, .. } => Some(tx_id),
            Rw::CallContext { call_id, .. } => Some(call_id),
            Rw::Stack { call_id, .. } => Some(call_id),
            Rw::Memory { call_id, .. } => Some(call_id),
            Rw::Start { .. } => None,
            Rw::Account { .. } => None,
        }
    }

    /// The address of the record, if it has one.
    pub open spec fn spec_address(self) -> Option<Address> {
        match self {
            Rw::TxAccessListAccount { account_address, .. } => Some(account_address),
            Rw::TxAccessListAccountStorage { account_address, .. } => Some(account_address),
            Rw::Account { account_address, .. } => Some(account_address),
            Rw::AccountStorage { account_address, .. } => Some(account_address),
            Rw::Memory { memory_address, .. } => Some(Address { lo: memory_address as u128, hi: 0 }),
            Rw::Stack { stack_pointer, .. } => Some(Address { lo: stack_pointer as u128, hi: 0 }),
            Rw::TxLog { log_id, field_tag, index, .. } => Some(
                Address { lo: tx_log_address(index as u64, field_tag, log_id) as u128, hi: 0 },
            ),
            _ => None,
        }
    }

    pub open spec fn spec_field_tag(self) -> Option<u64> {
        match self {
            Rw::Account { field_tag, .. } => Some(field_tag.ordinal()),
            Rw::CallContext { field_tag, .. } => Some(field_tag.ordinal()),
            Rw::TxReceipt { field_tag, .. } => Some(field_tag.ordinal()),
            _ => None,
        }
    }

    pub open spec fn spec_storage_key(self) -> Option<Word> {
        match self {
            Rw::AccountStorage { storage_key, .. } => Some(storage_key),
            Rw::TxAccessListAccountStorage { storage_key, .. } => Some(storage_key),
            _ => None,
        }
    }

    /// The numeric value the record reads or writes.
    pub open spec fn spec_value(self) -> int {
        match self {
            Rw::Start { .. } => 0,
            Rw::CallContext { value, .. } => value@,
            Rw::Account { value, .. } => value@,
            Rw::AccountStorage { value, .. } => value@,
            Rw::Stack { value, .. } => value@,
            Rw::TxLog { value, .. } => value@,
            Rw::TxAccessListAccount { is_warm, .. } => flag_value(is_warm),
            Rw::TxAccessListAccountStorage { is_warm, .. } => flag_value(is_warm),
            Rw::Memory { byte, .. } => byte as int,
            Rw::TxRefund { value, .. } => value as int,
            Rw::TxReceipt { value, .. } => value as int,
        }
    }

    /// The numeric previous value, for the kinds that keep a write history.
    pub open spec fn spec_value_prev(self) -> Option<int> {
        match self {
            Rw::Account { value_prev, .. } => Some(value_prev@),
            Rw::AccountStorage { value_prev, .. } => Some(value_prev@),
            Rw::TxAccessListAccount { is_warm_prev, .. } => Some(flag_value(is_warm_prev)),
            Rw::TxAccessListAccountStorage { is_warm_prev, .. } => Some(flag_value(is_warm_prev)),
            Rw::TxRefund { value_prev, .. } => Some(value_prev as int),
            _ => None,
        }
    }

    /// The numeric value at the start of the transaction, for storage.
    pub open spec fn spec_committed_value(self) -> Option<int> {
        match self {
            Rw::AccountStorage { committed_value, .. } => Some(committed_value@),
            _ => None,
        }
    }

    pub open spec fn spec_canonical_key(self) -> CanonicalKey {
        let addr = match self.spec_address() {
            Some(a) => a,
            None => Address { lo: 0, hi: 0 },
        };
        let sk = match self.spec_storage_key() {
            Some(k) => k,
            None => Word { lo: 0, hi: 0 },
        };
        (
            self.spec_tag().ordinal(),
            match self.spec_id() {
                Some(i) => i,
                None => 0,
            },
            addr.hi,
            addr.lo,
            match self.spec_field_tag() {
                Some(f) => f,
                None => 0,
            },
            sk.hi,
            sk.lo,
            self.spec_rw_counter(),
        )
    }

    /// The record's counter.
    pub fn rw_counter(&self) -> (r: usize)
        ensures
            r == self.spec_rw_counter(),
    {
        match self {
            Rw::Start { rw_counter }
            | Rw::Memory { rw_counter, .. }
            | Rw::Stack { rw_counter, .. }
            | Rw::AccountStorage { rw_counter, .. }
            | Rw::TxAccessListAccount { rw_counter, .. }
            | Rw::TxAccessListAccountStorage { rw_counter, .. }
            | Rw::TxRefund { rw_counter, .. }
            | Rw::Account { rw_counter, .. }
            | Rw::CallContext { rw_counter, .. }
            | Rw::TxLog { rw_counter, .. }
            | Rw::TxReceipt { rw_counter, .. } => *rw_counter,
        }
    }

    /// Whether the record writes; a `Start` record never does.
    pub fn is_write(&self) -> (r: bool)
        ensures
            r == self.spec_is_write(),
    {
        match self {
            Rw::Start { .. } => false,
            Rw::Memory { is_write, .. }
            | Rw::Stack { is_write, .. }
            | Rw::AccountStorage { is_write, .. }
            | Rw::TxAccessListAccount { is_write, .. }
            | Rw::TxAccessListAccountStorage { is_write, .. }
            | Rw::TxRefund { is_write, .. }
            | Rw::Account { is_write, .. }
            | Rw::CallContext { is_write, .. }
            | Rw::TxLog { is_write, .. }
            | Rw::TxReceipt { is_write, .. } => *is_write,
        }
    }

    /// The resource kind of the record.
    pub fn tag(&self) -> (r: Target)
        ensures
            r == self.spec_tag(),
    {
        match self {
            Rw::Start { .. } => Target::Start,
            Rw::Memory { .. } => Target::Memory,
            Rw::Stack { .. } => Target::Stack,
            Rw::AccountStorage { .. } => Target::Storage,
            Rw::TxAccessListAccount { .. } => Target::TxAccessListAccount,
            Rw::TxAccessListAccountStorage { .. } => Target::TxAccessListAccountStorage,
            Rw::TxRefund { .. } => Target::TxRefund,
            Rw::Account { .. } => Target::Account,
            Rw::CallContext { .. } => Target::CallContext,
            Rw::TxLog { .. } => Target::TxLog,
            Rw::TxReceipt { .. } => Target::TxReceipt,
        }
    }

    /// The transaction id or call id of the record, if it has one.
    pub fn id(&self) -> (r: Option<usize>)
        ensures
            r == self.spec_id(),
    {
        match self {
            Rw::AccountStorage { tx_id, .. }
            | Rw::TxAccessListAccount { tx_id, .. }
            | Rw::TxAccessListAccountStorage { tx_id, .. }
            | Rw::TxRefund { tx_id, .. }
            | Rw::TxLog { tx_id, .. }
            | Rw::TxReceipt { tx_id, .. } => Some(*tx_id),
            Rw::CallContext { call_id, .. }
            | Rw::Stack { call_id, .. }
            | Rw::Memory { call_id, .. } => Some(*call_id),
            Rw::Start { .. } | Rw::Account { .. } => None,
        }
    }

    /// The address of the record, if it has one: the account, the memory
    /// offset, the stack pointer, or the packed position of a log entry.
    pub fn address(&self) -> (r: Option<Address>)
        ensures
            r == self.spec_address(),
    {
        match self {
            Rw::TxAccessListAccount { account_address, .. }
            | Rw::TxAccessListAccountStorage { account_address, .. }
            | Rw::Account { account_address, .. }
            | Rw::AccountStorage { account_address, .. } => Some(*account_address),
            Rw::Memory { memory_address, .. } => Some(Address::from_u64(*memory_address)),
            Rw::Stack { stack_pointer, .. } => Some(Address::from_u64(*stack_pointer as u64)),
            Rw::TxLog { log_id, field_tag, index, .. } => {
                Some(build_tx_log_address(*index as u64, *field_tag, *log_id))
            },
            Rw::Start { .. } | Rw::CallContext { .. } | Rw::TxRefund { .. } | Rw::TxReceipt {
                ..
            } => None,
        }
    }

    /// The sub-field number of the record, for accounts, call contexts and receipts.
    pub fn field_tag(&self) -> (r: Option<u64>)
        ensures
            r == self.spec_field_tag(),
    {
        match self {
            Rw::Account { field_tag, .. } => Some(field_tag.to_u64()),
            Rw::CallContext { field_tag, .. } => Some(field_tag.to_u64()),
            Rw::TxReceipt { field_tag, .. } => Some(field_tag.to_u64()),
            Rw::Start { .. }
            | Rw::Memory { .. }
            | Rw::Stack { .. }
            | Rw::AccountStorage { .. }
            | Rw::TxAccessListAccount { .. }
            | Rw::TxAccessListAccountStorage { .. }
            | Rw::TxRefund { .. }
            | Rw::TxLog { .. } => None,
        }
    }

    /// The storage key of the record, for storage and storage access lists.
    pub fn storage_key(&self) -> (r: Option<Word>)
        ensures
            r == self.spec_storage_key(),
    {
        match self {
            Rw::AccountStorage { storage_key, .. }
            | Rw::TxAccessListAccountStorage { storage_key, .. } => Some(*storage_key),
            Rw::Start { .. }
            | Rw::CallContext { .. }
            | Rw::Stack { .. }
            | Rw::Memory { .. }
            | Rw::TxRefund { .. }
            | Rw::Account { .. }
            | Rw::TxAccessListAccount { .. }
            | Rw::TxLog { .. }
            | Rw::TxReceipt { .. } => None,
        }
    }

    /// The value the record reads or writes, as a word.
    pub fn value_assignment(&self) -> (r: Word)
        ensures
            r@ == self.spec_value(),
    {
        match self {
            Rw::Start { .. } => Word::zero(),
            Rw::CallContext { value, .. }
            | Rw::Account { value, .. }
            | Rw::AccountStorage { value, .. }
            | Rw::Stack { value, .. }
            | Rw::TxLog { value, .. } => *value,
            Rw::TxAccessListAccount { is_warm, .. }
            | Rw::TxAccessListAccountStorage { is_warm, .. } => Word::from_u64(
                if *is_warm {
                    1
                } else {
                    0
                },
            ),
            Rw::Memory { byte, .. } => Word::from_u64(*byte as u64),
            Rw::TxRefund { value, .. } | Rw::TxReceipt { value, .. } => Word::from_u64(*value),
        }
    }

    /// The previous value, as a word, for the kinds that keep a write history.
    pub fn value_prev_assignment(&self) -> (r: Option<Word>)
        ensures
            r.is_some() == self.spec_value_prev().is_some(),
            r.is_some() ==> r.unwrap()@ == self.spec_value_prev().unwrap(),
    {
        match self {
            Rw::Account { value_prev, .. } | Rw::AccountStorage { value_prev, .. } => {
                Some(*value_prev)
            },
            Rw::TxAccessListAccount { is_warm_prev, .. }
            | Rw::TxAccessListAccountStorage { is_warm_prev, .. } => Some(
                Word::from_u64(
                    if *is_warm_prev {
                        1
                    } else {
                        0
                    },
                ),
            ),
            Rw::TxRefund { value_prev, .. } => Some(Word::from_u64(*value_prev)),
            Rw::Start { .. }
            | Rw::Stack { .. }
            | Rw::Memory { .. }
            | Rw::CallContext { .. }
            | Rw::TxLog { .. }
            | Rw::TxReceipt { .. } => None,
        }
    }

    /// The value at the start of the transaction, for storage records.
    pub fn committed_value_assignment(&self) -> (r: Option<Word>)
        ensures
            r.is_some() == self.spec_committed_value().is_some(),
            r.is_some() ==> r.unwrap()@ == self.spec_committed_value().unwrap(),
    {
        match self {
            Rw::AccountStorage { committed_value, .. } => Some(*committed_value),
            _ => None,
        }
    }

    /// The warm flag and its previous value of an access-list record.
    pub fn tx_access_list_value_pair(&self) -> (r: (bool, bool))
        requires
            self is TxAccessListAccount || self is TxAccessListAccountStorage,
        ensures
            flag_value(r.0) == self.spec_value(),
            flag_value(r.1) == self.spec_value_prev().unwrap(),
    {
        match self {
            Rw::TxAccessListAccount { is_warm, is_warm_prev, .. } => (*is_warm, *is_warm_prev),
            Rw::TxAccessListAccountStorage { is_warm, is_warm_prev, .. } => (
                *is_warm,
                *is_warm_prev,
            ),
            _ => (false, false),
        }
    }

    /// The value and previous value of a refund record.
    pub fn tx_refund_value_pair(&self) -> (r: (u64, u64))
        requires
            self is TxRefund,
        ensures
            r == (self->TxRefund_value, self->TxRefund_value_prev),
    {
        match self {
            Rw::TxRefund { value, value_prev, .. } => (*value, *value_prev),
            _ => (0, 0),
        }
    }

    /// The value and previous value of an account record of the given field.
    fn account_pair(&self, expected: AccountFieldTag) -> (r: (Word, Word))
        requires
            self is Account,
            self->Account_field_tag == expected,
        ensures
            r == (self->Account_value, self->Account_value_prev),
    {
        match self {
            Rw::Account { value, value_prev, .. } => (*value, *value_prev),
            _ => (Word::zero(), Word::zero()),
        }
    }

    /// The balance and previous balance of an account balance record.
    pub fn account_balance_pair(&self) -> (r: (Word, Word))
        requires
            self is Account,
            self->Account_field_tag == AccountFieldTag::Balance,
        ensures
            r == (self->Account_value, self->Account_value_prev),
    {
        self.account_pair(AccountFieldTag::Balance)
    }

    /// The nonce and previous nonce of an account nonce record.
    pub fn account_nonce_pair(&self) -> (r: (Word, Word))
        requires
            self is Account,
            self->Account_field_tag == AccountFieldTag::Nonce,
        ensures
            r == (self->Account_value, self->Account_value_prev),
    {
        self.account_pair(AccountFieldTag::Nonce)
    }

    /// The code hash and previous code hash of an account code-hash record.
    pub fn account_codehash_pair(&self) -> (r: (Word, Word))
        requires
            self is Account,
            self->Account_field_tag == AccountFieldTag::CodeHash,
        ensures
            r == (self->Account_value, self->Account_value_prev),
    {
        self.account_pair(AccountFieldTag::CodeHash)
    }

    /// The transaction id and committed value of a storage record.
    pub fn aux_pair(&self) -> (r: (usize, Word))
        requires
            self is AccountStorage,
        ensures
            r == (self->AccountStorage_tx_id, self->AccountStorage_committed_value),
    {
        match self {
            Rw::AccountStorage { tx_id, committed_value, .. } => (*tx_id, *committed_value),
            _ => (0, Word::zero()),
        }
    }

    /// Value, previous value, transaction id and committed value of a storage record.
    pub fn storage_value_aux(&self) -> (r: (Word, Word, usize, Word))
        requires
            self is AccountStorage,
        ensures
            r == (
                self->AccountStorage_value,
                self->AccountStorage_value_prev,
                self->AccountStorage_tx_id,
                self->AccountStorage_committed_value,
            ),
    {
        match self {
            Rw::AccountStorage { value, value_prev, tx_id, committed_value, .. } => (
                *value,
                *value_prev,
                *tx_id,
                *committed_value,
            ),
            _ => (Word::zero(), Word::zero(), 0, Word::zero()),
        }
    }

    /// The value of a call-context record.
    pub fn call_context_value(&self) -> (r: Word)
        requires
            self is CallContext,
        ensures
            r == self->CallContext_value,
    {
        match self {
            Rw::CallContext { value, .. } => *value,
            _ => Word::zero(),
        }
    }

    /// The value of a stack record.
    pub fn stack_value(&self) -> (r: Word)
        requires
            self is Stack,
        ensures
            r == self->Stack_value,
    {
        match self {
            Rw::Stack { value, .. } => *value,
            _ => Word::zero(),
        }
    }

    /// The value of a receipt record.
    pub fn receipt_value(&self) -> (r: u64)
        requires
            self is TxReceipt,
        ensures
            r == self->TxReceipt_value,
    {
        match self {
            Rw::TxReceipt { value, .. } => *value,
            _ => 0,
        }
    }

    /// The byte of a memory record.
    pub fn memory_value(&self) -> (r: u8)
        requires
            self is Memory,
        ensures
            r == self->Memory_byte,
    {
        match self {
            Rw::Memory { byte, .. } => *byte,
            _ => 0,
        }
    }

    /// The canonical sort key of the record.
    pub fn canonical_key(&self) -> (r: CanonicalKey)
        ensures
            r == self.spec_canonical_key(),
    {
        let addr = match self.address() {
            Some(a) => a,
            None => Address::zero(),
        };
        let sk = match self.storage_key() {
            Some(k) => k,
            None => Word::zero(),
        };
        (
            self.tag().to_u64(),
            match self.id() {
                Some(i) => i,
                None => 0,
            },
            addr.hi,
            addr.lo,
            match self.field_tag() {
                Some(f) => f,
                None => 0,
            },
            sk.hi,
            sk.lo,
            self.rw_counter(),
        )
    }
}

/// The address that stands for a log entry, packing the entry's index, its
/// field tag and the log's id into one number.
pub fn build_tx_log_address(index: u64, field_tag: TxLogFieldTag, log_id: u64) -> (r: Address)
    ensures
        r == (Address { lo: tx_log_address(index, field_tag, log_id) as u128, hi: 0 }),
        r@ == tx_log_address(index, field_tag, log_id),
{
    let lo: u128 = index as u128 + field_tag.to_u64() as u128 * 0x1_0000_0000 + log_id as u128
        * 0x1_0000_0000_0000;
    Address { lo, hi: 0 }
}

} // verus!
