//! The trace container: records grouped by resource kind, their canonical
//! order, padding with `Start` rows, and the audit of counters.
use crate::rw::{canonical_le, Rw};
use crate::tags::{Target, NUM_TARGETS};
use itertools::Itertools;
use vstd::prelude::*;
use vstd::relations::{sorted_by, total_ordering};
use vstd::seq_lib::{group_to_multiset_ensures, lemma_sorted_unique};

verus! {

/// The records of groups `first..end`, in group order.
pub open spec fn concat_groups(gs: Seq<Seq<Rw>>, first: int, end: int) -> Seq<Rw>
    decreases end - first,
{
    if end <= first {
        Seq::empty()
    } else {
        concat_groups(gs, first, end - 1) + gs[end - 1]
    }
}

/// Counters ascend.
pub open spec fn counter_le(a: usize, b: usize) -> bool {
    a <= b
}

/// Sorting the counters and numbering them from 0 gives each counter its
/// number plus one: the counters are exactly `1..=n`.
pub open spec fn counters_continuous(cs: Seq<usize>) -> bool {
    forall|s: Seq<usize>|
        #![trigger s.to_multiset()]
        s.to_multiset() == cs.to_multiset() && sorted_by(s, |a: usize, b: usize| counter_le(a, b))
            ==> forall|i: int| 0 <= i < s.len() ==> s[i] == i + 1
}

/// The rows left once the leading `Start` rows are removed.
pub open spec fn strip_leading_start(rows: Seq<Rw>) -> Seq<Rw>
    decreases rows.len(),
{
    if rows.len() > 0 && rows[0] is Start {
        strip_leading_start(rows.drop_first())
    } else {
        rows
    }
}

/// `n` padding rows, numbered `1..=n`.
pub open spec fn start_rows(n: int) -> Seq<Rw> {
    Seq::new(n as nat, |i: int| Rw::Start { rw_counter: (i + 1) as usize })
}

/// How many `Start` rows precede `rows_len` real rows in a table of
/// `target_len` rows; 0 asks for the least padding, one row.
pub open spec fn padding_count(rows_len: int, target_len: int) -> int {
    if target_len > rows_len {
        target_len - rows_len
    } else {
        1
    }
}

/// A reference to a record, by resource kind and position in its group.
#[derive(Clone, Copy, Debug, PartialEq, Eq, Structural)]
pub struct OperationRef(pub Target, pub usize);

/// The records of one trace, grouped by resource kind: group `k` holds the
/// records whose tag number is `k + 1`.
#[derive(Clone, Debug)]
pub struct RwMap {
    pub groups: Vec<Vec<Rw>>,
}

impl RwMap {
    /// There is one group per resource kind.
    pub open spec fn wf(self) -> bool {
        self.groups@.len() == NUM_TARGETS
    }

    /// The groups as sequences.
    pub open spec fn group_seqs(self) -> Seq<Seq<Rw>> {
        self.groups@.map_values(|g: Vec<Rw>| g@)
    }

    /// The group of a resource kind.
    pub open spec fn group(self, tag: Target) -> Seq<Rw> {
        self.group_seqs()[tag.ordinal() - 1]
    }

    /// All records, group after group.
    pub open spec fn records(self) -> Seq<Rw> {
        concat_groups(self.group_seqs(), 0, NUM_TARGETS as int)
    }

    /// The counters of all records outside the `Start` group.
    pub open spec fn non_start_counters(self) -> Seq<usize> {
        concat_groups(self.group_seqs(), 1, NUM_TARGETS as int).map_values(
            |r: Rw| r.spec_rw_counter(),
        )
    }

    /// `rows` holds the container's records in canonical order.
    pub open spec fn is_canonical_order(self, rows: Seq<Rw>) -> bool {
        &&& rows.to_multiset() == self.records().to_multiset()
        &&& sorted_by(rows, |a: Rw, b: Rw| canonical_le(a, b))
    }

    /// An empty container.
    pub fn new() -> (r: RwMap)
        ensures
            r.wf(),
            forall|k: int| 0 <= k < NUM_TARGETS ==> r.group_seqs()[k].len() == 0,
    {
        let mut groups: Vec<Vec<Rw>> = Vec::new();
        let mut k: usize = 0;
        while k < NUM_TARGETS
            invariant
                k <= NUM_TARGETS,
                groups@.len() == k,
                forall|j: int| 0 <= j < k ==> groups@[j]@.len() == 0,
            decreases NUM_TARGETS - k,
        {
            groups.push(Vec::new());
            k = k + 1;
        }
        RwMap { groups }
    }

    /// Adds a record to the group of its resource kind.
    pub fn push(&mut self, rw: Rw)
        requires
            old(self).wf(),
        ensures
            final(self).wf(),
            final(self).group(rw.spec_tag()) == old(self).group(rw.spec_tag()).push(rw),
            forall|t: Target|
                t != rw.spec_tag() ==> #[trigger] final(self).group(t) == old(self).group(t),
    {
        let k = (rw.tag().to_u64() - 1) as usize;
        let mut g = self.groups.remove(k);
        g.push(rw);
        self.groups.insert(k, g);
        proof {
            assert forall|t: Target| t != rw.spec_tag() implies #[trigger] self.group(t) == old(
                self,
            ).group(t) by {
                crate::tags::lemma_target_of_ordinal(t);
                crate::tags::lemma_target_of_ordinal(rw.spec_tag());
            }
        }
    }

    /// The record at position `idx` of the group of `tag`.
    pub fn index(&self, tag: Target, idx: usize) -> (r: &Rw)
        requires
            self.wf(),
            idx < self.group(tag).len(),
        ensures
            *r == self.group(tag)[idx as int],
    {
        let k = (tag.to_u64() - 1) as usize;
        &self.groups[k][idx]
    }

    /// The record that a reference names.
    pub fn index_by_ref(&self, op_ref: OperationRef) -> (r: &Rw)
        requires
            self.wf(),
            op_ref.1 < self.group(op_ref.0).len(),
        ensures
            *r == self.group(op_ref.0)[op_ref.1 as int],
    {
        self.index(op_ref.0, op_ref.1)
    }

    /// The records of groups `first..`, in group order.
    fn collect_records(&self, first: usize) -> (r: Vec<Rw>)
        requires
            self.wf(),
            first <= NUM_TARGETS,
        ensures
            r@ == concat_groups(self.group_seqs(), first as int, NUM_TARGETS as int),
    {
        let ghost gs = self.group_seqs();
        let mut out: Vec<Rw> = Vec::new();
        let mut k: usize = first;
        while k < NUM_TARGETS
            invariant
                self.wf(),
                gs == self.group_seqs(),
                first <= k <= NUM_TARGETS,
                out@ == concat_groups(gs, first as int, k as int),
            decreases NUM_TARGETS - k,
        {
            let group = &self.groups[k];
            let mut i: usize = 0;
            while i < group.len()
                invariant
                    self.wf(),
                    gs == self.group_seqs(),
                    first <= k < NUM_TARGETS,
                    group@ == gs[k as int],
                    i <= group@.len(),
                    out@ == concat_groups(gs, first as int, k as int) + group@.take(i as int),
                decreases group@.len() - i,
            {
                out.push(group[i]);
                i = i + 1;
                assert(group@.take(i as int) == group@.take(i - 1 as int).push(group@[i - 1]));
            }
            assert(group@.take(group@.len() as int) == group@);
            k = k + 1;
        }
        out
    }

    /// Whether the counters outside the `Start` group, sorted and numbered
    /// from 0, each equal their number plus one.
    pub fn check_rw_counter_sanity(&self) -> (r: bool)
        requires
            self.wf(),
        ensures
            r == counters_continuous(self.non_start_counters()),
    {
        let records = self.collect_records(1);
        let mut counters: Vec<usize> = Vec::new();
        let mut i: usize = 0;
        while i < records.len()
            invariant
                i <= records@.len(),
                counters@ == records@.take(i as int).map_values(|r: Rw| r.spec_rw_counter()),
            decreases records@.len() - i,
        {
            counters.push(records[i].rw_counter());
            i = i + 1;
            assert(records@.take(i as int) == records@.take(i - 1 as int).push(records@[i - 1]));
        }
        assert(records@.take(records@.len() as int) == records@);
        let sorted = sorted_counters(counters);
        let mut ok = true;
        let mut j: usize = 0;
        while j < sorted.len()
            invariant
                j <= sorted@.len(),
                ok == forall|m: int| 0 <= m < j ==> sorted@[m] == m + 1,
            decreases sorted@.len() - j,
        {
            if sorted[j] != j + 1 {
                ok = false;
            }
            j = j + 1;
        }
        proof {
            let cs = self.non_start_counters();
            let leq = |a: usize, b: usize| counter_le(a, b);
            assert(total_ordering(leq));
            if ok {
                assert forall|s: Seq<usize>|
                    #![trigger s.to_multiset()]
                    s.to_multiset() == cs.to_multiset() && sorted_by(s, leq) implies forall|
                        m: int,
                    |
                        0 <= m < s.len() ==> s[m] == m + 1 by {
                    lemma_sorted_unique(s, sorted@, leq);
                }
            } else {
                assert(sorted@.to_multiset() == cs.to_multiset());
            }
        }
        ok
    }

    /// The number of `Start` rows to put before `rows_len` rows so that the
    /// table has `target_len` rows, or one row when `target_len` is 0. A
    /// positive `target_len` that cannot hold the rows is a caller's error.
    pub fn padding_len(rows_len: usize, target_len: usize) -> (r: usize)
        requires
            target_len == 0 || target_len > rows_len,
        ensures
            r == padding_count(rows_len as int, target_len as int),
    {
        if target_len > rows_len {
            target_len - rows_len
        } else {
            1
        }
    }

    /// The rows with their leading `Start` rows replaced by `Start` rows
    /// numbered `1..=n`, where `n` is the padding for `target_len`; returns
    /// the padded rows and `n`. The other rows keep their order and counters.
    pub fn table_assignments_prepad(rows: &Vec<Rw>, target_len: usize) -> (r: (Vec<Rw>, usize))
        requires
            target_len == 0 || target_len > strip_leading_start(rows@).len(),
        ensures
            r.1 == padding_count(strip_leading_start(rows@).len() as int, target_len as int),
            r.0@ == start_rows(r.1 as int) + strip_leading_start(rows@),
    {
        let mut k: usize = 0;
        assert(rows@.subrange(0, rows@.len() as int) == rows@);
        while k < rows.len() && matches!(rows[k], Rw::Start { .. })
            invariant
                k <= rows@.len(),
                strip_leading_start(rows@) == strip_leading_start(rows@.subrange(k as int, rows@.len() as int)),
            decreases rows@.len() - k,
        {
            assert(rows@.subrange(k as int, rows@.len() as int).drop_first() == rows@.subrange(k + 1, rows@.len() as int));
            k = k + 1;
        }
        let ghost rest = rows@.subrange(k as int, rows@.len() as int);
        assert(strip_leading_start(rest) == rest);
        let padding_length = Self::padding_len(rows.len() - k, target_len);
        let mut out: Vec<Rw> = Vec::new();
        let mut c: usize = 0;
        while c < padding_length
            invariant
                c <= padding_length,
                out@ == start_rows(c as int),
            decreases padding_length - c,
        {
            c = c + 1;
            out.push(Rw::Start { rw_counter: c });
            assert(out@ == start_rows(c as int));
        }
        let mut i: usize = k;
        while i < rows.len()
            invariant
                k <= i <= rows@.len(),
                out@ == start_rows(padding_length as int) + rows@.subrange(k as int, i as int),
            decreases rows@.len() - i,
        {
            out.push(rows[i]);
            i = i + 1;
            assert(rows@.subrange(k as int, i as int) == rows@.subrange(k as int, i - 1 as int).push(rows@[i - 1]));
        }
        (out, padding_length)
    }

    /// The container's records in canonical order: by tag number, id,
    /// address, field tag, storage key, with the counter as last tie-break.
    pub fn table_assignments(&self) -> (r: Vec<Rw>)
        requires
            self.wf(),
        ensures
            self.is_canonical_order(r@),
    {
        let mut rows = self.collect_records(0);
        sort_by_canonical_key(&mut rows);
        rows
    }
}

/// No two different records share a counter.
pub open spec fn counters_unique(rows: Seq<Rw>) -> bool {
    forall|a: Rw, b: Rw|
        #![trigger rows.contains(a), rows.contains(b)]
        rows.contains(a) && rows.contains(b) && a.spec_rw_counter() == b.spec_rw_counter() ==> a
            == b
}

/// Two sequences in canonical order with the same records, no two different
/// records sharing a counter, are the same sequence.
pub proof fn lemma_canonical_sequence_unique(x: Seq<Rw>, y: Seq<Rw>)
    requires
        sorted_by(x, |a: Rw, b: Rw| canonical_le(a, b)),
        sorted_by(y, |a: Rw, b: Rw| canonical_le(a, b)),
        x.to_multiset() == y.to_multiset(),
        forall|a: Rw, b: Rw|
            #![trigger x.to_multiset().count(a), x.to_multiset().count(b)]
            x.to_multiset().count(a) > 0 && x.to_multiset().count(b) > 0 && a.spec_rw_counter()
                == b.spec_rw_counter() ==> a == b,
    ensures
        x == y,
    decreases x.len(),
{
    broadcast use vstd::multiset::group_multiset_axioms;
    broadcast use group_to_multiset_ensures;

    if x.len() == 0 || y.len() == 0 {
        assert(x.to_multiset().len() == y.to_multiset().len());
        assert(x =~= y);
    } else {
        let m = x.to_multiset();
        let leq = |a: Rw, b: Rw| canonical_le(a, b);
        assert(m.count(x[0]) > 0);
        assert(y.to_multiset().count(y[0]) > 0);
        let i = choose|i: int| 0 <= i < x.len() && x[i] == y[0];
        let j = choose|j: int| 0 <= j < y.len() && y[j] == x[0];
        if i > 0 {
            assert(leq(x[0], x[i]));
        }
        if j > 0 {
            assert(leq(y[0], y[j]));
        }
        assert(x[0].spec_rw_counter() == y[0].spec_rw_counter());
        assert(x[0] == y[0]);
        assert(x.drop_first() =~= x.remove(0));
        assert(y.drop_first() =~= y.remove(0));
        vstd::seq_lib::to_multiset_remove(x, 0);
        vstd::seq_lib::to_multiset_remove(y, 0);
        assert(x.drop_first().to_multiset() =~= m.remove(x[0]));
        assert(y.drop_first().to_multiset() =~= y.to_multiset().remove(y[0]));
        assert forall|a: Rw, b: Rw|
            #![trigger x.drop_first().to_multiset().count(a), x.drop_first().to_multiset().count(b)]
            x.drop_first().to_multiset().count(a) > 0 && x.drop_first().to_multiset().count(b) > 0
                && a.spec_rw_counter() == b.spec_rw_counter() implies a == b by {
            assert(m.count(a) > 0);
            assert(m.count(b) > 0);
        }
        assert forall|p: int, q: int| 0 <= p < q < x.len() - 1 implies canonical_le(
            #[trigger] x.drop_first()[p],
            #[trigger] x.drop_first()[q],
        ) by {
            assert(leq(x[p + 1], x[q + 1]));
        }
        assert forall|p: int, q: int| 0 <= p < q < y.len() - 1 implies canonical_le(
            #[trigger] y.drop_first()[p],
            #[trigger] y.drop_first()[q],
        ) by {
            assert(leq(y[p + 1], y[q + 1]));
        }
        lemma_canonical_sequence_unique(x.drop_first(), y.drop_first());
        assert(x =~= y.drop_first().insert(0, y[0]));
        assert(y =~= y.drop_first().insert(0, y[0]));
    }
}

/// Canonical order depends on the records alone: two containers with the
/// same records, in whatever groups and insertion order, whose records do
/// not share counters, have the same canonical sequence.
pub proof fn lemma_canonical_order_determined(m1: RwMap, m2: RwMap, rows1: Seq<Rw>, rows2: Seq<Rw>)
    requires
        m1.records().to_multiset() == m2.records().to_multiset(),
        counters_unique(m1.records()),
        m1.is_canonical_order(rows1),
        m2.is_canonical_order(rows2),
    ensures
        rows1 == rows2,
{
    broadcast use group_to_multiset_ensures;

    let recs = m1.records();
    assert forall|a: Rw, b: Rw|
        #![trigger rows1.to_multiset().count(a), rows1.to_multiset().count(b)]
        rows1.to_multiset().count(a) > 0 && rows1.to_multiset().count(b) > 0 && a.spec_rw_counter()
            == b.spec_rw_counter() implies a == b by {
        assert(recs.contains(a));
        assert(recs.contains(b));
    }
    lemma_canonical_sequence_unique(rows1, rows2);
}

/// Relies on itertools' `Itertools::sorted`: the same counters, in ascending
/// order.
#[verifier::external_body]
fn sorted_counters(counters: Vec<usize>) -> (r: Vec<usize>)
    ensures
        r@.to_multiset() == counters@.to_multiset(),
        sorted_by(r@, |a: usize, b: usize| counter_le(a, b)),
{
    counters.into_iter().sorted().collect()
}

/// Relies on `slice::sort_by_key`: the same records, permuted so that their
/// canonical key tuples ascend, tuples being compared lexicographically.
#[verifier::external_body]
fn sort_by_canonical_key(rows: &mut Vec<Rw>)
    ensures
        final(rows)@.to_multiset() == old(rows)@.to_multiset(),
        sorted_by(final(rows)@, |a: Rw, b: Rw| canonical_le(a, b)),
{
    rows.sort_by_key(|row| row.canonical_key());
}

} // verus!
