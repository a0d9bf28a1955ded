use vstd::prelude::*;
use crate::error::Efw2Error;
use crate::num::{dec_digits, num_field, format_number_field};
use crate::text::{spaces, append_field, push_spaces};
use crate::types::W2Info;

verus! {

/// The seven summable monetary fields of an employee record, indexed in
/// the order the RW and RT records carry them.
pub open spec fn field_cents(e: W2Info, k: int) -> u64 {
    if k == 0 {
        e.wages
    } else if k == 1 {
        e.federal_tax
    } else if k == 2 {
        e.ss_wages
    } else if k == 3 {
        e.ss_tax
    } else if k == 4 {
        e.medicare_wages
    } else if k == 5 {
        e.medicare_tax
    } else {
        e.ss_tips
    }
}

/// The exact sum, in cents, of one monetary field across a sequence of
/// employee records.
pub open spec fn sum_cents(emps: Seq<W2Info>, k: int) -> nat
    decreases emps.len(),
{
    if emps.len() == 0 {
        0
    } else {
        sum_cents(emps.drop_last(), k) + field_cents(emps.last(), k) as nat
    }
}

/// A field sum over `n` records is at most `n` times the largest amount
/// a single record can carry.
pub proof fn lemma_sum_cents_bound(emps: Seq<W2Info>, k: int)
    ensures
        sum_cents(emps, k) <= emps.len() * (u64::MAX as nat),
    decreases emps.len(),
{
    if emps.len() > 0 {
        lemma_sum_cents_bound(emps.drop_last(), k);
        assert((emps.len() - 1) * (u64::MAX as nat) + (u64::MAX as nat) == emps.len() * (
        u64::MAX as nat)) by (nonlinear_arith);
    }
}

/// Extending a prefix by one record adds exactly that record's field
/// value to the prefix sum.
pub proof fn lemma_sum_cents_take(emps: Seq<W2Info>, i: int, k: int)
    requires
        0 <= i < emps.len(),
    ensures
        sum_cents(emps.take(i + 1), k) == sum_cents(emps.take(i), k) + field_cents(emps[i], k),
{
    assert(emps.take(i + 1).drop_last() =~= emps.take(i));
    assert(emps.take(i + 1).last() == emps[i]);
}

/// Running aggregate of the seven summable monetary fields and the
/// record count, updated once per employee record while the RW stream is
/// built and read once by the RT and RF builders afterwards.
pub struct RunningTotals {
    pub count: u64,
    pub wages: u128,
    pub federal_tax: u128,
    pub ss_wages: u128,
    pub ss_tax: u128,
    pub medicare_wages: u128,
    pub medicare_tax: u128,
    pub ss_tips: u128,
}

impl RunningTotals {
    /// A fresh aggregate: no records seen, every total zero.
    pub fn new() -> (r: RunningTotals)
        ensures
            r.count == 0,
            r.wages == 0,
            r.federal_tax == 0,
            r.ss_wages == 0,
            r.ss_tax == 0,
            r.medicare_wages == 0,
            r.medicare_tax == 0,
            r.ss_tips == 0,
    {
        RunningTotals {
            count: 0,
            wages: 0,
            federal_tax: 0,
            ss_wages: 0,
            ss_tax: 0,
            medicare_wages: 0,
            medicare_tax: 0,
            ss_tips: 0,
        }
    }

    /// Folds one employee record into the aggregate.  The bounds are
    /// machine limits only; a caller that adds at most `u64::MAX`
    /// records satisfies them for every input.
    pub fn add(&mut self, e: &W2Info)
        requires
            old(self).count < u64::MAX,
            old(self).wages + e.wages <= u128::MAX,
            old(self).federal_tax + e.federal_tax <= u128::MAX,
            old(self).ss_wages + e.ss_wages <= u128::MAX,
            old(self).ss_tax + e.ss_tax <= u128::MAX,
            old(self).medicare_wages + e.medicare_wages <= u128::MAX,
            old(self).medicare_tax + e.medicare_tax <= u128::MAX,
            old(self).ss_tips + e.ss_tips <= u128::MAX,
        ensures
            final(self).count == old(self).count + 1,
            final(self).wages == old(self).wages + e.wages,
            final(self).federal_tax == old(self).federal_tax + e.federal_tax,
            final(self).ss_wages == old(self).ss_wages + e.ss_wages,
            final(self).ss_tax == old(self).ss_tax + e.ss_tax,
            final(self).medicare_wages == old(self).medicare_wages + e.medicare_wages,
            final(self).medicare_tax == old(self).medicare_tax + e.medicare_tax,
            final(self).ss_tips == old(self).ss_tips + e.ss_tips,
    {
        self.count = self.count + 1;
        self.wages = self.wages + e.wages as u128;
        self.federal_tax = self.federal_tax + e.federal_tax as u128;
        self.ss_wages = self.ss_wages + e.ss_wages as u128;
        self.ss_tax = self.ss_tax + e.ss_tax as u128;
        self.medicare_wages = self.medicare_wages + e.medicare_wages as u128;
        self.medicare_tax = self.medicare_tax + e.medicare_tax as u128;
        self.ss_tips = self.ss_tips + e.ss_tips as u128;
    }
}

/// The RT (total) record: record count and the seven exact field sums.
pub open spec fn rt_spec(
    n: nat,
    wages: nat,
    federal_tax: nat,
    ss_wages: nat,
    ss_tax: nat,
    medicare_wages: nat,
    medicare_tax: nat,
    ss_tips: nat,
) -> Seq<u8> {
    seq![82u8, 84u8]  // "RT"
     + num_field(n, 7) + num_field(wages, 15) + num_field(federal_tax, 15) + num_field(
        ss_wages,
        15,
    ) + num_field(ss_tax, 15) + num_field(medicare_wages, 15) + num_field(medicare_tax, 15)
        + num_field(ss_tips, 15) + spaces(300)  // total slots this system never populates
     + spaces(98)
}

/// Whether the count and every total of the aggregate fit their slots.
pub open spec fn rt_fits(t: RunningTotals) -> bool {
    dec_digits(t.count as nat).len() <= 7 && dec_digits(t.wages as nat).len() <= 15 && dec_digits(
        t.federal_tax as nat,
    ).len() <= 15 && dec_digits(t.ss_wages as nat).len() <= 15 && dec_digits(t.ss_tax as nat).len()
        <= 15 && dec_digits(t.medicare_wages as nat).len() <= 15 && dec_digits(
        t.medicare_tax as nat,
    ).len() <= 15 && dec_digits(t.ss_tips as nat).len() <= 15
}

/// Builds the RT (total) record from the final aggregate state.
///
/// Fails with `FieldTooLongError` when the record count needs more than
/// 7 digits or a total needs more than 15.
#[verifier::rlimit(100)]
pub fn build_rt_record(t: &RunningTotals) -> (r: Result<Vec<u8>, Efw2Error>)
    ensures
        r is Ok <==> rt_fits(*t),
        (r matches Ok(v) ==> v@ == rt_spec(
            t.count as nat,
            t.wages as nat,
            t.federal_tax as nat,
            t.ss_wages as nat,
            t.ss_tax as nat,
            t.medicare_wages as nat,
            t.medicare_tax as nat,
            t.ss_tips as nat,
        ) && v@.len() == 512),
        (r matches Err(e) ==> e is FieldTooLongError),
{
    let count = format_number_field(t.count as u128, 7)?;
    let wages = format_number_field(t.wages, 15)?;
    let federal_tax = format_number_field(t.federal_tax, 15)?;
    let ss_wages = format_number_field(t.ss_wages, 15)?;
    let ss_tax = format_number_field(t.ss_tax, 15)?;
    let medicare_wages = format_number_field(t.medicare_wages, 15)?;
    let medicare_tax = format_number_field(t.medicare_tax, 15)?;
    let ss_tips = format_number_field(t.ss_tips, 15)?;

    let mut out: Vec<u8> = Vec::new();
    out.push(82u8);
    out.push(84u8);
    append_field(&mut out, &count);
    append_field(&mut out, &wages);
    append_field(&mut out, &federal_tax);
    append_field(&mut out, &ss_wages);
    append_field(&mut out, &ss_tax);
    append_field(&mut out, &medicare_wages);
    append_field(&mut out, &medicare_tax);
    append_field(&mut out, &ss_tips);
    push_spaces(&mut out, 300);
    push_spaces(&mut out, 98);
    proof {
        assert(out@ =~= rt_spec(
            t.count as nat,
            t.wages as nat,
            t.federal_tax as nat,
            t.ss_wages as nat,
            t.ss_tax as nat,
            t.medicare_wages as nat,
            t.medicare_tax as nat,
            t.ss_tips as nat,
        ));
    }
    Ok(out)
}

/// The RF (final) record: the record count again, 9 digits wide, for
/// validator cross-checking.
pub open spec fn rf_spec(n: nat) -> Seq<u8> {
    seq![82u8, 70u8]  // "RF"
     + spaces(5) + num_field(n, 9) + spaces(496)
}

/// Builds the RF (final) record.
///
/// Fails with `FieldTooLongError` when the record count needs more than
/// 9 digits.
pub fn build_rf_record(count: u64) -> (r: Result<Vec<u8>, Efw2Error>)
    ensures
        r is Ok <==> dec_digits(count as nat).len() <= 9,
        (r matches Ok(v) ==> v@ == rf_spec(count as nat) && v@.len() == 512),
        (r matches Err(e) ==> e is FieldTooLongError),
{
    let n = format_number_field(count as u128, 9)?;
    let mut out: Vec<u8> = Vec::new();
    out.push(82u8);
    out.push(70u8);
    push_spaces(&mut out, 5);
    append_field(&mut out, &n);
    push_spaces(&mut out, 496);
    proof {
        assert(out@ =~= rf_spec(count as nat));
    }
    Ok(out)
}

} // verus!
