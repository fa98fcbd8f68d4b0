use rw_trace::check::{check_rows, initial_values, ViolationReason};
use rw_trace::field::Fe;
use rw_trace::operation::{
    AccountField, AccountOp, CallContextField, CallContextOp, MemoryOp, Operation,
    OperationContainer, StackOp, StartOp, StorageOp, TxLogField, TxLogOp, TxReceiptField,
    TxReceiptOp,
};
use rw_trace::row::RwRow;
use rw_trace::rw::{build_tx_log_address, Rw};
use rw_trace::rw_map::{OperationRef, RwMap};
use rw_trace::tags::{AccountFieldTag, CallContextFieldTag, Target, TxLogFieldTag};
use rw_trace::word::{Address, Word};

fn fe_limbs(f: &Fe) -> (u128, u128) {
    let lo = u128::from_le_bytes(f.repr[..16].try_into().unwrap());
    let hi = u128::from_le_bytes(f.repr[16..].try_into().unwrap());
    (lo, hi)
}

fn fe_u128(f: &Fe) -> u128 {
    let (lo, hi) = fe_limbs(f);
    assert_eq!(hi, 0);
    lo
}

fn stack(rwc: usize, is_write: bool, sp: usize, v: u64) -> Rw {
    Rw::Stack { rw_counter: rwc, is_write, call_id: 1, stack_pointer: sp, value: Word::from_u64(v) }
}

fn account(rwc: usize, is_write: bool, value: u64, value_prev: u64) -> Rw {
    Rw::Account {
        rw_counter: rwc,
        is_write,
        account_address: Address::from_u64(0xabcd),
        field_tag: AccountFieldTag::Balance,
        value: Word::from_u64(value),
        value_prev: Word::from_u64(value_prev),
    }
}

fn map_of(rows: &[Rw]) -> RwMap {
    let mut m = RwMap::new();
    for r in rows {
        m.push(*r);
    }
    m
}

#[test]
fn counters_contiguous_from_one() {
    let m = map_of(&[
        Rw::Start { rw_counter: 1 },
        stack(3, true, 1020, 1),
        stack(1, true, 1021, 2),
        account(2, false, 0, 0),
    ]);
    assert!(m.check_rw_counter_sanity());
}

#[test]
fn counters_with_gap_are_rejected() {
    let m = map_of(&[stack(1, true, 1020, 1), stack(3, false, 1020, 1)]);
    assert!(!m.check_rw_counter_sanity());
}

#[test]
fn counters_with_duplicate_are_rejected() {
    let m = map_of(&[stack(1, true, 1020, 1), account(1, false, 0, 0)]);
    assert!(!m.check_rw_counter_sanity());
}

#[test]
fn counters_not_starting_at_one_are_rejected() {
    let m = map_of(&[stack(2, true, 1020, 1), stack(3, false, 1020, 1)]);
    assert!(!m.check_rw_counter_sanity());
}

#[test]
fn empty_trace_counters_are_contiguous() {
    assert!(RwMap::new().check_rw_counter_sanity());
}

#[test]
fn padding_len_values() {
    assert_eq!(RwMap::padding_len(3, 10), 7);
    assert_eq!(RwMap::padding_len(3, 0), 1);
    assert_eq!(RwMap::padding_len(0, 0), 1);
    assert_eq!(RwMap::padding_len(0, 1), 1);
}

#[test]
fn prepad_auto_adds_one_start_row() {
    let rows = vec![Rw::Start { rw_counter: 9 }, Rw::Start { rw_counter: 8 }, stack(5, true, 3, 1), stack(6, false, 3, 1)];
    let (padded, n) = RwMap::table_assignments_prepad(&rows, 0);
    assert_eq!(n, 1);
    assert_eq!(padded, vec![Rw::Start { rw_counter: 1 }, stack(5, true, 3, 1), stack(6, false, 3, 1)]);
}

#[test]
fn prepad_to_target_length() {
    let rows = vec![Rw::Start { rw_counter: 1 }, stack(5, true, 3, 1), stack(6, false, 3, 1)];
    let (padded, n) = RwMap::table_assignments_prepad(&rows, 6);
    assert_eq!(n, 4);
    assert_eq!(padded.len(), 6);
    for i in 0..4 {
        assert_eq!(padded[i], Rw::Start { rw_counter: i + 1 });
    }
    assert_eq!(padded[4], stack(5, true, 3, 1));
    assert_eq!(padded[5], stack(6, false, 3, 1));
}

#[test]
fn prepad_keeps_start_rows_after_the_first_real_row() {
    let rows = vec![stack(5, true, 3, 1), Rw::Start { rw_counter: 7 }];
    let (padded, n) = RwMap::table_assignments_prepad(&rows, 4);
    assert_eq!(n, 2);
    assert_eq!(
        padded,
        vec![Rw::Start { rw_counter: 1 }, Rw::Start { rw_counter: 2 }, stack(5, true, 3, 1), Rw::Start { rw_counter: 7 }]
    );
}

#[test]
fn prepad_of_empty_rows() {
    let (padded, n) = RwMap::table_assignments_prepad(&Vec::new(), 0);
    assert_eq!(n, 1);
    assert_eq!(padded, vec![Rw::Start { rw_counter: 1 }]);
}

#[test]
fn canonical_order_sorts_by_key_then_counter() {
    let m = map_of(&[
        account(4, false, 0, 0),
        stack(3, false, 1021, 2),
        stack(2, true, 1020, 1),
        stack(1, true, 1021, 2),
        Rw::Start { rw_counter: 1 },
    ]);
    let rows = m.table_assignments();
    assert_eq!(
        rows,
        vec![
            Rw::Start { rw_counter: 1 },
            stack(2, true, 1020, 1),
            stack(1, true, 1021, 2),
            stack(3, false, 1021, 2),
            account(4, false, 0, 0),
        ]
    );
}

#[test]
fn canonical_order_ignores_insertion_order() {
    let recs = [
        account(4, false, 0, 0),
        stack(3, false, 1021, 2),
        stack(2, true, 1020, 1),
        stack(1, true, 1021, 2),
    ];
    let a = map_of(&recs);
    let mut rev = recs.to_vec();
    rev.reverse();
    let b = map_of(&rev);
    assert_eq!(a.table_assignments(), b.table_assignments());
    assert_eq!(a.table_assignments(), a.table_assignments());
}

#[test]
fn read_after_write_of_same_value_is_consistent() {
    let m = map_of(&[Rw::Start { rw_counter: 1 }, stack(1, true, 1020, 5), stack(2, false, 1020, 5)]);
    assert!(m.check_value().is_empty());
}

#[test]
fn read_after_write_of_other_value_is_reported() {
    let m = map_of(&[Rw::Start { rw_counter: 1 }, stack(1, true, 1020, 5), stack(2, false, 1020, 6)]);
    let errs = m.check_value();
    assert_eq!(errs.len(), 1);
    assert_eq!(errs[0].index, 2);
    assert_eq!(errs[0].reason, ViolationReason::NonFirstAccess);
    assert_eq!(errs[0].reason.message(), "non-first access reads don't change value");
    assert_eq!(errs[0].row, stack(2, false, 1020, 6));
    assert_eq!(errs[0].prev_row, stack(1, true, 1020, 5));
}

#[test]
fn first_read_of_initial_value_is_consistent() {
    let m = map_of(&[Rw::Start { rw_counter: 1 }, account(1, false, 7, 7)]);
    assert!(m.check_value().is_empty());
}

#[test]
fn first_read_of_other_value_is_reported() {
    let m = map_of(&[Rw::Start { rw_counter: 1 }, account(1, false, 8, 7)]);
    let errs = m.check_value();
    assert_eq!(errs.len(), 1);
    assert_eq!(errs[0].index, 1);
    assert_eq!(errs[0].reason, ViolationReason::FirstAccess);
    assert_eq!(errs[0].reason.message(), "first access reads don't change value");
}

#[test]
fn first_read_checked_against_given_initial_values() {
    let rows = vec![Rw::Start { rw_counter: 1 }, stack(1, false, 1020, 7)];
    let ok = check_rows(&rows, &vec![Word::zero(), Word::from_u64(7)]);
    assert!(ok.is_empty());
    let bad = check_rows(&rows, &vec![Word::zero(), Word::from_u64(8)]);
    assert_eq!(bad.len(), 1);
    assert_eq!(bad[0].reason, ViolationReason::FirstAccess);
}

#[test]
fn writes_are_never_reported_and_all_violations_are_collected() {
    let rows = vec![
        Rw::Start { rw_counter: 1 },
        stack(1, false, 1, 3),
        stack(2, false, 1, 4),
        stack(3, true, 1, 9),
        stack(4, false, 1, 8),
    ];
    let init = initial_values(&rows);
    let errs = check_rows(&rows, &init);
    let idx: Vec<usize> = errs.iter().map(|e| e.index).collect();
    assert_eq!(idx, vec![1, 2, 4]);
    assert_eq!(errs[0].reason, ViolationReason::FirstAccess);
    assert_eq!(errs[1].reason, ViolationReason::NonFirstAccess);
}

#[test]
fn initial_values_follow_runs() {
    let rows = vec![account(1, true, 5, 7), account(2, false, 5, 5), stack(3, false, 1, 0)];
    let init = initial_values(&rows);
    assert_eq!(init, vec![Word::from_u64(7), Word::from_u64(7), Word::zero()]);
}

fn storage_with_value(v: Word) -> Rw {
    Rw::AccountStorage {
        rw_counter: 3,
        is_write: true,
        account_address: Address::from_parts(0x1234, 0xffff_ffff),
        storage_key: Word::from_limbs(5, 6),
        value: v,
        value_prev: Word::from_u64(2),
        tx_id: 4,
        committed_value: Word::from_u64(1),
    }
}

#[test]
fn value_limbs_round_trip() {
    let max = u128::MAX;
    for (lo, hi) in [(0u128, 0u128), (max, 0), (max, max)] {
        let row = storage_with_value(Word::from_limbs(lo, hi)).table_assignment();
        assert_eq!(fe_u128(&row.value.lo), lo);
        assert_eq!(fe_u128(&row.value.hi), hi);
    }
}

#[test]
fn storage_row_encoding() {
    let row = storage_with_value(Word::from_u64(9)).table_assignment();
    let v: Vec<Fe> = row.values().to_vec();
    assert_eq!(fe_u128(&v[0]), 3);
    assert_eq!(fe_u128(&v[1]), 1);
    assert_eq!(fe_u128(&v[2]), 4);
    assert_eq!(fe_u128(&v[3]), 4);
    assert_eq!(fe_limbs(&v[4]), (0x1234, 0xffff_ffff));
    assert_eq!(fe_u128(&v[5]), 0);
    assert_eq!(fe_u128(&v[6]), 5);
    assert_eq!(fe_u128(&v[7]), 6);
    assert_eq!(fe_u128(&v[8]), 9);
    assert_eq!(fe_u128(&v[9]), 0);
    assert_eq!(fe_u128(&v[10]), 2);
    assert_eq!(fe_u128(&v[12]), 1);
}

#[test]
fn absent_fields_encode_as_zero() {
    let row = Rw::Start { rw_counter: 2 }.table_assignment();
    let v = row.values();
    assert_eq!(fe_u128(&v[0]), 2);
    assert_eq!(fe_u128(&v[2]), 1);
    for f in &v[3..] {
        assert_eq!(fe_u128(f), 0);
    }
}

#[test]
fn memory_and_log_addresses() {
    let mem = Rw::Memory { rw_counter: 1, is_write: true, call_id: 2, memory_address: 77, byte: 200 };
    assert_eq!(mem.address(), Some(Address::from_u64(77)));
    assert_eq!(mem.value_assignment(), Word::from_u64(200));
    let a = build_tx_log_address(3, TxLogFieldTag::Topic, 5);
    assert_eq!(a, Address::from_u64(0x5000200000003));
    let log = Rw::TxLog {
        rw_counter: 1,
        is_write: true,
        tx_id: 1,
        log_id: 5,
        field_tag: TxLogFieldTag::Topic,
        index: 3,
        value: Word::zero(),
    };
    assert_eq!(fe_u128(&log.table_assignment().address), 0x5000200000003);
}

#[test]
fn digest_is_horner_fold() {
    let row = stack(1, true, 3, 2).table_assignment();
    let r = Fe::from_u64(2);
    // elements: 1, 1, 3 (stack), 1 (call id), 3, 0, 0, 0, 2, 0, ...
    let expected = 1 + 1 * 2 + 3 * 4 + 1 * 8 + 3 * 16 + 2 * 256;
    assert_eq!(row.rlc(r), Fe::from_u64(expected));
    assert_eq!(row.rlc(r), row.rlc(r));
}

#[test]
fn digest_changes_with_any_element() {
    let base = stack(1, true, 3, 2).table_assignment();
    let r = Fe::from_u64(0x1234_5678_9abc_def1);
    let d = base.rlc(r);
    let mut other: RwRow = base;
    other.value.hi = Fe::from_u64(1);
    assert_ne!(other.rlc(r), d);
    let mut other2: RwRow = base;
    other2.rw_counter = Fe::from_u64(2);
    assert_ne!(other2.rlc(r), d);
}

#[test]
fn field_arithmetic_reduces_modulo() {
    let two64 = Fe::from_u64(u64::MAX).add(Fe::from_u64(1));
    assert_eq!(fe_limbs(&two64), (1u128 << 64, 0));
    let two128 = two64.mul(two64);
    assert_eq!(fe_limbs(&two128), (0, 1));
    let wrapped = two128.mul(two128);
    assert_eq!(
        fe_limbs(&wrapped),
        (0x992c350be41914ad34786d38fffffffd, 0x3fffffffffffffffffffffffffffffff)
    );
    assert_eq!(Fe::from_bool(true), Fe::from_u64(1));
    assert_eq!(Fe::zero(), Fe::from_bool(false));
}

#[test]
fn lookup_by_tag_and_reference() {
    let m = map_of(&[stack(1, true, 3, 2), stack(2, false, 3, 2), account(3, false, 0, 0)]);
    assert_eq!(*m.index(Target::Stack, 1), stack(2, false, 3, 2));
    assert_eq!(*m.index_by_ref(OperationRef(Target::Account, 0)), account(3, false, 0, 0));
}

#[test]
fn accessors_of_variants() {
    let acc = account(3, false, 10, 9);
    assert_eq!(acc.account_balance_pair(), (Word::from_u64(10), Word::from_u64(9)));
    assert_eq!(acc.field_tag(), Some(2));
    assert_eq!(acc.id(), None);
    assert_eq!(acc.tag(), Target::Account);
    let st = storage_with_value(Word::from_u64(9));
    assert_eq!(st.aux_pair(), (4, Word::from_u64(1)));
    assert_eq!(st.storage_value_aux(), (Word::from_u64(9), Word::from_u64(2), 4, Word::from_u64(1)));
    assert_eq!(stack(1, true, 3, 2).stack_value(), Word::from_u64(2));
    let warm = Rw::TxAccessListAccount {
        rw_counter: 1,
        is_write: true,
        tx_id: 1,
        account_address: Address::zero(),
        is_warm: true,
        is_warm_prev: false,
    };
    assert_eq!(warm.tx_access_list_value_pair(), (true, false));
    assert_eq!(warm.value_assignment(), Word::from_u64(1));
    assert_eq!(warm.value_prev_assignment(), Some(Word::zero()));
}

#[test]
fn build_from_operations() {
    let mut c = OperationContainer::new();
    c.start.push(Operation { rwc: 0, is_write: false, op: StartOp {} });
    c.stack.push(Operation { rwc: 1, is_write: true, op: StackOp { call_id: 1, address: 1023, value: Word::from_u64(4) } });
    c.memory.push(Operation { rwc: 2, is_write: false, op: MemoryOp { call_id: 1, address: 64, value: 0xaa } });
    c.account.push(Operation {
        rwc: 3,
        is_write: true,
        op: AccountOp { address: Address::from_u64(5), field: AccountField::CodeHash, value: Word::from_u64(1), value_prev: Word::zero() },
    });
    c.call_context.push(Operation {
        rwc: 4,
        is_write: false,
        op: CallContextOp { call_id: 1, field: CallContextField::IsStatic, value: Word::zero() },
    });
    c.storage.push(Operation {
        rwc: 5,
        is_write: false,
        op: StorageOp {
            address: Address::from_u64(5),
            key: Word::from_u64(1),
            value: Word::zero(),
            value_prev: Word::zero(),
            tx_id: 1,
            committed_value: Word::zero(),
        },
    });
    c.tx_log.push(Operation {
        rwc: 6,
        is_write: true,
        op: TxLogOp { tx_id: 1, log_id: 2, field: TxLogField::Data, index: 7, value: Word::from_u64(3) },
    });
    c.tx_receipt.push(Operation {
        rwc: 7,
        is_write: true,
        op: TxReceiptOp { tx_id: 1, field: TxReceiptField::LogLength, value: 1 },
    });
    let m = RwMap::from(&c);
    assert!(m.check_rw_counter_sanity());
    assert_eq!(*m.index(Target::Start, 0), Rw::Start { rw_counter: 0 });
    assert_eq!(*m.index(Target::Stack, 0), stack(1, true, 1023, 4));
    assert_eq!(m.index(Target::Memory, 0).memory_value(), 0xaa);
    match m.index(Target::Account, 0) {
        Rw::Account { field_tag, .. } => assert_eq!(*field_tag, AccountFieldTag::CodeHash),
        _ => panic!("not an account record"),
    }
    match m.index(Target::CallContext, 0) {
        Rw::CallContext { field_tag, .. } => assert_eq!(*field_tag, CallContextFieldTag::IsStatic),
        _ => panic!("not a call context record"),
    }
    assert_eq!(m.index(Target::CallContext, 0).field_tag(), Some(14));
    assert_eq!(m.index(Target::TxReceipt, 0).receipt_value(), 1);
    assert_eq!(m.index(Target::TxReceipt, 0).field_tag(), Some(2));
    assert_eq!(m.index(Target::TxLog, 0).address(), Some(build_tx_log_address(7, TxLogFieldTag::Data, 2)));
    assert_eq!(m.table_assignments().len(), 8);
    let errs = m.check_value();
    assert_eq!(errs.len(), 1);
    assert_eq!(errs[0].reason, ViolationReason::FirstAccess);
    assert_eq!(errs[0].row.memory_value(), 0xaa);
}
