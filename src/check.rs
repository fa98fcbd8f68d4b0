//! The consistency audit: a read never sees a value other than the last write
//! to the same resource, or the value the resource held before the batch.
use crate::rw::Rw;
use crate::rw_map::RwMap;
use crate::row::lemma_word_limbs;
use crate::word::Word;
use vstd::prelude::*;

verus! {

/// Why a read is inconsistent.
#[derive(Clone, Copy, Debug, PartialEq, Eq, Structural)]
pub enum ViolationReason {
    /// The first access to a resource reads other than its initial value.
    FirstAccess,
    /// A later access reads other than the value before it.
    NonFirstAccess,
}

impl ViolationReason {
    /// The reason in words.
    pub fn message(&self) -> (r: &'static str)
        ensures
            *self is FirstAccess ==> r@ == "first access reads don't change value"@,
            *self is NonFirstAccess ==> r@ == "non-first access reads don't change value"@,
    {
        match self {
            ViolationReason::FirstAccess => "first access reads don't change value",
            ViolationReason::NonFirstAccess => "non-first access reads don't change value",
        }
    }
}

/// One inconsistent read: its position in canonical order, the reason, the
/// row and the row before it.
#[derive(Clone, Copy, Debug, PartialEq, Eq, Structural)]
pub struct Violation {
    pub index: usize,
    pub reason: ViolationReason,
    pub row: Rw,
    pub prev_row: Rw,
}

/// Two records touch the same resource: their canonical keys agree in all
/// but the counter.
pub open spec fn same_resource(a: Rw, b: Rw) -> bool {
    let x = a.spec_canonical_key();
    let y = b.spec_canonical_key();
    x.0 == y.0 && x.1 == y.1 && x.2 == y.2 && x.3 == y.3 && x.4 == y.4 && x.5 == y.5 && x.6 == y.6
}

/// Whether two records touch the same resource.
pub fn is_same_resource(a: &Rw, b: &Rw) -> (r: bool)
    ensures
        r == same_resource(*a, *b),
{
    let x = a.canonical_key();
    let y = b.canonical_key();
    x.0 == y.0 && x.1 == y.1 && x.2 == y.2 && x.3 == y.3 && x.4 == y.4 && x.5 == y.5 && x.6 == y.6
}

/// The value a resource held before the batch, as the first record of its run
/// shows it: the previous value of an account or storage record, 0 otherwise.
pub open spec fn own_initial_value(r: Rw) -> int {
    match r {
        Rw::Account { value_prev, .. } => value_prev@,
        Rw::AccountStorage { value_prev, .. } => value_prev@,
        _ => 0,
    }
}

/// The initial value of the resource of `rows[i]`, taken from the first row
/// of the run of rows on that resource that holds `i`.
pub open spec fn run_initial_value(rows: Seq<Rw>, i: int) -> int
    decreases i,
{
    if i <= 0 || !same_resource(rows[i - 1], rows[i]) {
        own_initial_value(rows[i])
    } else {
        run_initial_value(rows, i - 1)
    }
}

/// The initial value of each row's resource.
pub open spec fn run_initial_values(rows: Seq<Rw>) -> Seq<int> {
    Seq::new(rows.len(), |i: int| run_initial_value(rows, i))
}

/// The violation at position `i >= 1`, if any, given the initial value
/// `init[i]` of each row's resource.
pub open spec fn violation_at(rows: Seq<Rw>, init: Seq<int>, i: int) -> Option<Violation> {
    let row = rows[i];
    let prev = rows[i - 1];
    if row.spec_is_write() {
        None
    } else if !same_resource(prev, row) {
        if row.spec_value() != init[i] {
            Some(
                Violation { index: i as usize, reason: ViolationReason::FirstAccess, row, prev_row: prev },
            )
        } else {
            None
        }
    } else if row.spec_value() != prev.spec_value() {
        Some(
            Violation { index: i as usize, reason: ViolationReason::NonFirstAccess, row, prev_row: prev },
        )
    } else {
        None
    }
}

/// The violations at positions `1..n`, in order.
pub open spec fn violations_upto(rows: Seq<Rw>, init: Seq<int>, n: int) -> Seq<Violation>
    decreases n,
{
    if n <= 1 {
        Seq::empty()
    } else {
        violations_upto(rows, init, n - 1) + match violation_at(rows, init, n - 1) {
            Some(v) => seq![v],
            None => Seq::empty(),
        }
    }
}

/// The initial value of each row's resource, read from the first row of its run.
pub fn initial_values(rows: &Vec<Rw>) -> (r: Vec<Word>)
    ensures
        r@.len() == rows@.len(),
        forall|i: int| 0 <= i < rows@.len() ==> #[trigger] r@[i]@ == run_initial_value(rows@, i),
{
    let mut out: Vec<Word> = Vec::new();
    let mut current = Word::zero();
    let mut i: usize = 0;
    while i < rows.len()
        invariant
            i <= rows@.len(),
            out@.len() == i,
            forall|j: int| 0 <= j < i ==> #[trigger] out@[j]@ == run_initial_value(rows@, j),
            i > 0 ==> current@ == run_initial_value(rows@, i - 1),
        decreases rows@.len() - i,
    {
        if i == 0 || !is_same_resource(&rows[i - 1], &rows[i]) {
            current = match &rows[i] {
                Rw::Account { value_prev, .. } => *value_prev,
                Rw::AccountStorage { value_prev, .. } => *value_prev,
                _ => Word::zero(),
            };
        }
        out.push(current);
        i = i + 1;
    }
    out
}

/// The violations of the rows, at positions `1..`, given the initial value
/// `init[i]` of the resource of each row `i`.
pub fn check_rows(rows: &Vec<Rw>, init: &Vec<Word>) -> (r: Vec<Violation>)
    requires
        init@.len() == rows@.len(),
    ensures
        r@ == violations_upto(rows@, init@.map_values(|w: Word| w@), rows@.len() as int),
{
    let ghost iv = init@.map_values(|w: Word| w@);
    let mut errs: Vec<Violation> = Vec::new();
    if rows.len() == 0 {
        return errs;
    }
    let mut idx: usize = 1;
    while idx < rows.len()
        invariant
            1 <= idx <= rows@.len(),
            init@.len() == rows@.len(),
            iv == init@.map_values(|w: Word| w@),
            errs@ == violations_upto(rows@, iv, idx as int),
        decreases rows@.len() - idx,
    {
        let row = &rows[idx];
        let prev_row = &rows[idx - 1];
        let is_first = !is_same_resource(prev_row, row);
        if !row.is_write() {
            let value = row.value_assignment();
            if is_first {
                let init_value = init[idx];
                proof {
                    lemma_word_limbs(value);
                    lemma_word_limbs(init_value);
                }
                if value != init_value {
                    errs.push(
                        Violation {
                            index: idx,
                            reason: ViolationReason::FirstAccess,
                            row: *row,
                            prev_row: *prev_row,
                        },
                    );
                }
            } else {
                let prev_value = prev_row.value_assignment();
                proof {
                    lemma_word_limbs(value);
                    lemma_word_limbs(prev_value);
                }
                if value != prev_value {
                    errs.push(
                        Violation {
                            index: idx,
                            reason: ViolationReason::NonFirstAccess,
                            row: *row,
                            prev_row: *prev_row,
                        },
                    );
                }
            }
        }
        idx = idx + 1;
    }
    errs
}

impl RwMap {
    /// Audits the container's records in canonical order: each read that
    /// opens a run on a resource must see the resource's initial value, and
    /// each later read the value before it. Returns every violation found.
    pub fn check_value(&self) -> (r: Vec<Violation>)
        requires
            self.wf(),
        ensures
            exists|rows: Seq<Rw>|
                #![trigger self.is_canonical_order(rows)]
                self.is_canonical_order(rows) && r@ == violations_upto(
                    rows,
                    run_initial_values(rows),
                    rows.len() as int,
                ),
    {
        let rows = self.table_assignments();
        let init = initial_values(&rows);
        let r = check_rows(&rows, &init);
        assert(init@.map_values(|w: Word| w@) =~= run_initial_values(rows@));
        assert(self.is_canonical_order(rows@));
        r
    }
}

} // verus!
