//! Encoding of an access record as a fixed row of field elements, and the
//! random-linear-combination digest of a row.
use crate::field::{fe_from_u128, field_modulus, Fe};
use crate::rw::{flag_value, Rw};
use crate::word::{limb_base, Address, Word};
use vstd::arithmetic::div_mod::{
    lemma_fundamental_div_mod, lemma_fundamental_div_mod_converse, lemma_small_mod,
};
use vstd::prelude::*;

verus! {

/// The number of field elements in a row.
pub const ROW_WIDTH: usize = 14;

/// A 256-bit quantity as two field elements: its low and its high 128-bit limb.
#[derive(Clone, Copy, Debug, PartialEq, Eq)]
pub struct WordLimbs {
    pub lo: Fe,
    pub hi: Fe,
}

impl WordLimbs {
    pub open spec fn wf(self) -> bool {
        self.lo.wf() && self.hi.wf()
    }

    /// The limbs of a word.
    pub fn from_word(w: Word) -> (r: WordLimbs)
        ensures
            r.wf(),
            r.lo@ == w.lo,
            r.hi@ == w.hi,
    {
        WordLimbs { lo: fe_from_u128(w.lo), hi: fe_from_u128(w.hi) }
    }

    /// The low limb.
    pub fn lo(&self) -> (r: Fe)
        ensures
            r == self.lo,
    {
        self.lo
    }

    /// The high limb.
    pub fn hi(&self) -> (r: Fe)
        ensures
            r == self.hi,
    {
        self.hi
    }
}

/// The low 128-bit limb of a number.
pub open spec fn limb_lo(v: int) -> int {
    v % limb_base()
}

/// The high 128-bit limb of a number.
pub open spec fn limb_hi(v: int) -> int {
    v / limb_base()
}

/// A word's limbs are the low and high 128 bits of its value.
pub proof fn lemma_word_limbs(w: Word)
    ensures
        w.lo == limb_lo(w@),
        w.hi == limb_hi(w@),
{
    lemma_fundamental_div_mod_converse(w@, limb_base(), w.hi as int, w.lo as int);
}

/// Recombining the two limbs of a number below 2^256 gives the number back:
/// `limb_hi(v) * 2^128 + limb_lo(v) == v`, and both limbs are below 2^128.
pub proof fn lemma_limb_round_trip(v: int)
    requires
        0 <= v < limb_base() * limb_base(),
    ensures
        limb_hi(v) * limb_base() + limb_lo(v) == v,
        0 <= limb_lo(v) < limb_base(),
        0 <= limb_hi(v) < limb_base(),
{
    vstd::arithmetic::div_mod::lemma_fundamental_div_mod(v, limb_base());
    vstd::arithmetic::div_mod::lemma_div_pos_is_pos(v, limb_base());
    vstd::arithmetic::div_mod::lemma_div_by_multiple_is_strongly_ordered(
        v,
        limb_base() * limb_base(),
        limb_base(),
        limb_base(),
    );
    vstd::arithmetic::div_mod::lemma_div_by_multiple(limb_base(), limb_base());
}

/// A word's value lies below 2^256.
proof fn lemma_word_bound(w: Word)
    ensures
        0 <= w@ < limb_base() * limb_base(),
{
    let b = limb_base();
    let hi = w.hi as int;
    let lo = w.lo as int;
    assert(0 <= hi * b + lo < b * b) by (nonlinear_arith)
        requires
            0 <= hi < b,
            0 <= lo < b,
    ;
}

/// The numbers a record encodes as two limbs all lie below 2^256.
proof fn lemma_record_words_bound(rw: Rw)
    ensures
        0 <= rw.spec_value() < limb_base() * limb_base(),
        rw.spec_value_prev() is Some ==> 0 <= rw.spec_value_prev().unwrap() < limb_base()
            * limb_base(),
{
    let b = limb_base();
    assert(b * b >= b) by (nonlinear_arith)
        requires
            b >= 1,
    ;
    match rw {
        Rw::Account { value, value_prev, .. } => {
            lemma_word_bound(value);
            lemma_word_bound(value_prev);
        },
        Rw::AccountStorage { value, value_prev, .. } => {
            lemma_word_bound(value);
            lemma_word_bound(value_prev);
        },
        Rw::CallContext { value, .. } => lemma_word_bound(value),
        Rw::Stack { value, .. } => lemma_word_bound(value),
        Rw::TxLog { value, .. } => lemma_word_bound(value),
        _ => {},
    }
}

/// Encoding a record and recombining the limbs of its value as
/// `hi * 2^128 + lo` gives the value back, and so for its previous value;
/// each limb lies below 2^128.
pub proof fn lemma_encoded_value_round_trip(rw: Rw)
    ensures
        rw.spec_row_values()[9] * limb_base() + rw.spec_row_values()[8] == rw.spec_value(),
        0 <= rw.spec_row_values()[8] < limb_base(),
        0 <= rw.spec_row_values()[9] < limb_base(),
        rw.spec_value_prev() is Some ==> rw.spec_row_values()[11] * limb_base()
            + rw.spec_row_values()[10] == rw.spec_value_prev().unwrap(),
{
    lemma_record_words_bound(rw);
    lemma_limb_round_trip(rw.spec_value());
    if rw.spec_value_prev() is Some {
        lemma_limb_round_trip(rw.spec_value_prev().unwrap());
    }
}

/// One row of the read-write table, as field elements.
#[derive(Clone, Copy, Debug, PartialEq, Eq)]
pub struct RwRow {
    pub rw_counter: Fe,
    pub is_write: Fe,
    pub tag: Fe,
    pub id: Fe,
    pub address: Fe,
    pub field_tag: Fe,
    pub storage_key: WordLimbs,
    pub value: WordLimbs,
    pub value_prev: WordLimbs,
    pub init_val: WordLimbs,
}

/// Horner evaluation of `s[i..]` at `x` in the field: the element `i` is the
/// constant coefficient, the last element the leading one.
pub open spec fn horner_from(s: Seq<int>, i: int, x: int) -> int
    decreases s.len() - i,
{
    if i < 0 || i >= s.len() {
        0
    } else {
        (horner_from(s, i + 1, x) * x + s[i]) % field_modulus()
    }
}

/// The random-linear-combination of a sequence of field elements at `x`:
/// `s[0] + s[1]*x + s[2]*x^2 + ...` in the field.
pub open spec fn rlc_of(s: Seq<int>, x: int) -> int {
    horner_from(s, 0, x)
}

/// The integers of a sequence of field elements.
pub open spec fn fe_values(s: Seq<Fe>) -> Seq<int> {
    s.map_values(|f: Fe| f@)
}

impl RwRow {
    pub open spec fn wf(self) -> bool {
        &&& self.rw_counter.wf()
        &&& self.is_write.wf()
        &&& self.tag.wf()
        &&& self.id.wf()
        &&& self.address.wf()
        &&& self.field_tag.wf()
        &&& self.storage_key.wf()
        &&& self.value.wf()
        &&& self.value_prev.wf()
        &&& self.init_val.wf()
    }

    /// The row's elements in their fixed order.
    pub open spec fn spec_values(self) -> Seq<Fe> {
        seq![
            self.rw_counter,
            self.is_write,
            self.tag,
            self.id,
            self.address,
            self.field_tag,
            self.storage_key.lo,
            self.storage_key.hi,
            self.value.lo,
            self.value.hi,
            self.value_prev.lo,
            self.value_prev.hi,
            self.init_val.lo,
            self.init_val.hi,
        ]
    }

    /// The row's fourteen elements: counter, write flag, tag, id, address,
    /// field tag, then the low and high limbs of the storage key, value,
    /// previous value and initial value.
    pub fn values(&self) -> (r: [Fe; 14])
        ensures
            r@ == self.spec_values(),
    {
        let r = [
            self.rw_counter,
            self.is_write,
            self.tag,
            self.id,
            self.address,
            self.field_tag,
            self.storage_key.lo(),
            self.storage_key.hi(),
            self.value.lo(),
            self.value.hi(),
            self.value_prev.lo(),
            self.value_prev.hi(),
            self.init_val.lo(),
            self.init_val.hi(),
        ];
        assert(r@ =~= self.spec_values());
        r
    }

    /// The digest of the row: its elements folded from the last to the first
    /// as `acc * randomness + element`, starting from zero.
    pub fn rlc(&self, randomness: Fe) -> (r: Fe)
        requires
            self.wf(),
            randomness.wf(),
        ensures
            r.wf(),
            r@ == rlc_of(fe_values(self.spec_values()), randomness@),
    {
        let values = self.values();
        let ghost s = fe_values(values@);
        let mut acc = Fe::zero();
        let mut i: usize = ROW_WIDTH;
        while i > 0
            invariant
                i <= ROW_WIDTH,
                values@ == self.spec_values(),
                s == fe_values(values@),
                self.wf(),
                randomness.wf(),
                acc.wf(),
                acc@ == horner_from(s, i as int, randomness@),
            decreases i,
        {
            i = i - 1;
            let v = values[i];
            assert(v.wf());
            let prod = acc.mul(randomness);
            let next = prod.add(v);
            proof {
                vstd::arithmetic::div_mod::lemma_add_mod_noop(
                    acc@ * randomness@,
                    v@,
                    field_modulus(),
                );
                lemma_small_mod(v@ as nat, field_modulus() as nat);
            }
            acc = next;
        }
        acc
    }
}

/// Horner evaluation from `i` on reads only the elements from `i` on.
proof fn lemma_horner_suffix(s: Seq<int>, t: Seq<int>, i: int, x: int)
    requires
        s.len() == t.len(),
        0 <= i,
        forall|k: int| i <= k < s.len() ==> s[k] == t[k],
    ensures
        horner_from(s, i, x) == horner_from(t, i, x),
    decreases s.len() - i,
{
    if i < s.len() {
        lemma_horner_suffix(s, t, i + 1, x);
    }
}

/// The digest is a function of the elements and the point: two rows with the
/// same elements have the same digest at the same randomness.
pub proof fn lemma_rlc_deterministic(a: RwRow, b: RwRow, x: Fe, da: Fe, db: Fe)
    requires
        fe_values(a.spec_values()) == fe_values(b.spec_values()),
        da@ == rlc_of(fe_values(a.spec_values()), x@),
        db@ == rlc_of(fe_values(b.spec_values()), x@),
    ensures
        da@ == db@,
{
}

/// Changing only the first element of a sequence of field elements always
/// changes its digest, whatever the point.
pub proof fn lemma_rlc_separates_first_element(s: Seq<int>, t: Seq<int>, x: int)
    requires
        s.len() == t.len(),
        s.len() > 0,
        forall|k: int| 1 <= k < s.len() ==> s[k] == t[k],
        0 <= s[0] < field_modulus(),
        0 <= t[0] < field_modulus(),
        s[0] != t[0],
    ensures
        rlc_of(s, x) != rlc_of(t, x),
{
    lemma_horner_suffix(s, t, 1, x);
    let p = field_modulus();
    let h = horner_from(s, 1, x) * x;
    let u = h + s[0];
    let v = h + t[0];
    lemma_fundamental_div_mod(u, p);
    lemma_fundamental_div_mod(v, p);
    if u % p == v % p {
        let k = u / p - v / p;
        assert(s[0] - t[0] == p * k) by (nonlinear_arith)
            requires
                u == p * (u / p) + u % p,
                v == p * (v / p) + v % p,
                u % p == v % p,
                k == u / p - v / p,
                u - v == s[0] - t[0],
        ;
        assert(k == 0) by (nonlinear_arith)
            requires
                s[0] - t[0] == p * k,
                -p < s[0] - t[0] < p,
                p > 0,
        ;
    }
}

/// The field element of an address, which lies below the modulus.
pub fn fe_from_address(a: Address) -> (r: Fe)
    ensures
        r.wf(),
        r@ == a@,
{
    let two64 = fe_from_u128(0x1_0000_0000_0000_0000);
    let base = two64.mul(two64);
    let high = fe_from_u128(a.hi as u128).mul(base);
    let low = fe_from_u128(a.lo);
    proof {
        lemma_small_mod(limb_base() as nat, field_modulus() as nat);
        assert(a.hi * limb_base() < 0x1_0000_0000 * limb_base()) by (nonlinear_arith)
            requires
                a.hi < 0x1_0000_0000,
                limb_base() > 0,
        ;
        lemma_small_mod((a.hi * limb_base()) as nat, field_modulus() as nat);
        lemma_small_mod(a@ as nat, field_modulus() as nat);
    }
    low.add(high)
}

impl Rw {
    /// The integers that the row of this record holds, in row order.
    pub open spec fn spec_row_values(self) -> Seq<int> {
        let key = match self.spec_storage_key() {
            Some(k) => k@,
            None => 0,
        };
        let prev = match self.spec_value_prev() {
            Some(v) => v,
            None => 0,
        };
        let init = match self.spec_committed_value() {
            Some(v) => v,
            None => 0,
        };
        seq![
            self.spec_rw_counter() as int,
            flag_value(self.spec_is_write()),
            self.spec_tag().ordinal() as int,
            match self.spec_id() {
                Some(i) => i as int,
                None => 0,
            },
            match self.spec_address() {
                Some(a) => a@,
                None => 0,
            },
            match self.spec_field_tag() {
                Some(f) => f as int,
                None => 0,
            },
            limb_lo(key),
            limb_hi(key),
            limb_lo(self.spec_value()),
            limb_hi(self.spec_value()),
            limb_lo(prev),
            limb_hi(prev),
            limb_lo(init),
            limb_hi(init),
        ]
    }

    /// The row of this record; fields the record lacks are encoded as zero.
    pub fn table_assignment(&self) -> (r: RwRow)
        ensures
            r.wf(),
            fe_values(r.spec_values()) == self.spec_row_values(),
    {
        let id = match self.id() {
            Some(i) => i,
            None => 0,
        };
        let address = match self.address() {
            Some(a) => a,
            None => Address::zero(),
        };
        let field_tag = match self.field_tag() {
            Some(f) => f,
            None => 0,
        };
        let storage_key = match self.storage_key() {
            Some(k) => k,
            None => Word::zero(),
        };
        let value = self.value_assignment();
        let value_prev = match self.value_prev_assignment() {
            Some(v) => v,
            None => Word::zero(),
        };
        let init_val = match self.committed_value_assignment() {
            Some(v) => v,
            None => Word::zero(),
        };
        proof {
            lemma_word_limbs(storage_key);
            lemma_word_limbs(value);
            lemma_word_limbs(value_prev);
            lemma_word_limbs(init_val);
        }
        let r = RwRow {
            rw_counter: Fe::from_u64(self.rw_counter() as u64),
            is_write: Fe::from_bool(self.is_write()),
            tag: Fe::from_u64(self.tag().to_u64()),
            id: Fe::from_u64(id as u64),
            address: fe_from_address(address),
            field_tag: Fe::from_u64(field_tag),
            storage_key: WordLimbs::from_word(storage_key),
            value: WordLimbs::from_word(value),
            value_prev: WordLimbs::from_word(value_prev),
            init_val: WordLimbs::from_word(init_val),
        };
        assert(fe_values(r.spec_values()) =~= self.spec_row_values());
        r
    }
}

} // verus!
