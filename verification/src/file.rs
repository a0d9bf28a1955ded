use vstd::prelude::*;
use crate::error::Efw2Error;
use crate::num::{dec_digits, num_field};
use crate::text::append_field;
use crate::types::{ConfigInfo, RunParams, W2Info, config_ok};
use crate::ra::{ra_fits, ra_spec, build_ra_record};
use crate::re::{re_fits, re_spec, build_re_record};
use crate::rw::{rw_ok, rw_spec, build_rw_record, lemma_rw_len};
use crate::totals::{
    RunningTotals, sum_cents, lemma_sum_cents_bound, lemma_sum_cents_take, rt_spec, rf_spec,
    build_rt_record, build_rf_record,
};

verus! {

/// The RW records of all employees, in input order, concatenated.
pub open spec fn rw_stream(emps: Seq<W2Info>) -> Seq<u8>
    decreases emps.len(),
{
    if emps.len() == 0 {
        Seq::empty()
    } else {
        rw_stream(emps.drop_last()) + rw_spec(emps.last())
    }
}

/// Whether every employee record can be encoded.
pub open spec fn all_rw_ok(emps: Seq<W2Info>) -> bool {
    forall|i: int| 0 <= i < emps.len() ==> rw_ok(#[trigger] emps[i])
}

/// The RT record carrying the exact count and field sums of a sequence
/// of employee records.
pub open spec fn rt_record_of(emps: Seq<W2Info>) -> Seq<u8> {
    rt_spec(
        emps.len(),
        sum_cents(emps, 0),
        sum_cents(emps, 1),
        sum_cents(emps, 2),
        sum_cents(emps, 3),
        sum_cents(emps, 4),
        sum_cents(emps, 5),
        sum_cents(emps, 6),
    )
}

/// Whether the record count and every aggregate sum fit their RT and RF
/// slots.
pub open spec fn totals_fit(emps: Seq<W2Info>) -> bool {
    dec_digits(emps.len()).len() <= 7 && dec_digits(emps.len()).len() <= 9 && forall|k: int|
        0 <= k < 7 ==> dec_digits(#[trigger] sum_cents(emps, k)).len() <= 15
}

/// Whether a whole run can be encoded.
pub open spec fn file_ok(cfg: ConfigInfo, params: RunParams, emps: Seq<W2Info>) -> bool {
    config_ok(cfg) && ra_fits(cfg, params) && re_fits(cfg, params) && all_rw_ok(emps) && totals_fit(
        emps,
    )
}

/// The complete output stream: RA, RE, the RW records in input order,
/// RT, RF, with no separators.
pub open spec fn file_spec(cfg: ConfigInfo, params: RunParams, emps: Seq<W2Info>) -> Seq<u8> {
    ra_spec(cfg, params) + re_spec(cfg, params) + rw_stream(emps) + rt_record_of(emps) + rf_spec(
        emps.len(),
    )
}

/// The RW stream of `n` encodable records is exactly `n` 512-byte
/// records long.
pub proof fn lemma_rw_stream_len(emps: Seq<W2Info>)
    requires
        all_rw_ok(emps),
    ensures
        rw_stream(emps).len() == 512 * emps.len(),
    decreases emps.len(),
{
    if emps.len() > 0 {
        assert(all_rw_ok(emps.drop_last()));
        lemma_rw_stream_len(emps.drop_last());
        lemma_rw_len(emps.last());
    }
}

/// Builds the complete EFW2 output stream for one run: employer
/// configuration, run parameters, and the employee records in input
/// order.
///
/// Succeeds exactly when the configuration invariants hold and every
/// formatted value fits its slot; on success the output is the five
/// record types concatenated, `512 * (4 + n)` bytes for `n` employees.
/// Fails on the first violation with that record's error; no partial
/// output is returned.
pub fn build_file(cfg: &ConfigInfo, params: &RunParams, employees: &Vec<W2Info>) -> (r: Result<
    Vec<u8>,
    Efw2Error,
>)
    ensures
        r is Ok <==> file_ok(*cfg, *params, employees@),
        (r matches Ok(v) ==> v@ == file_spec(*cfg, *params, employees@)),
        (r matches Ok(v) ==> v@.len() == 512 * (4 + employees@.len())),
        (r matches Err(e) ==> (!config_ok(*cfg) ==> e is ConfigurationError)),
        (r matches Err(e) ==> !(e is InternalLengthInvariantError)),
{
    let ra = build_ra_record(cfg, params)?;
    let re = build_re_record(cfg, params)?;

    let mut totals = RunningTotals::new();
    let mut body: Vec<u8> = Vec::new();
    let mut i: usize = 0;
    while i < employees.len()
        invariant
            config_ok(*cfg),
            i <= employees.len(),
            totals.count == i,
            totals.wages == sum_cents(employees@.take(i as int), 0),
            totals.federal_tax == sum_cents(employees@.take(i as int), 1),
            totals.ss_wages == sum_cents(employees@.take(i as int), 2),
            totals.ss_tax == sum_cents(employees@.take(i as int), 3),
            totals.medicare_wages == sum_cents(employees@.take(i as int), 4),
            totals.medicare_tax == sum_cents(employees@.take(i as int), 5),
            totals.ss_tips == sum_cents(employees@.take(i as int), 6),
            body@ == rw_stream(employees@.take(i as int)),
            body@.len() == 512 * i,
            forall|j: int| 0 <= j < i ==> rw_ok(#[trigger] employees@[j]),
        decreases employees.len() - i,
    {
        let rw = match build_rw_record(&employees[i]) {
            Ok(v) => v,
            Err(e) => {
                proof {
                    assert(!rw_ok(employees@[i as int]));
                }
                return Err(e);
            },
        };
        append_field(&mut body, &rw);
        proof {
            assert(employees@.take(i as int + 1).drop_last() =~= employees@.take(i as int));
            assert(employees@.take(i as int + 1).last() == employees@[i as int]);
            let ghost prefix = employees@.take(i as int);
            lemma_sum_cents_take(employees@, i as int, 0);
            lemma_sum_cents_take(employees@, i as int, 1);
            lemma_sum_cents_take(employees@, i as int, 2);
            lemma_sum_cents_take(employees@, i as int, 3);
            lemma_sum_cents_take(employees@, i as int, 4);
            lemma_sum_cents_take(employees@, i as int, 5);
            lemma_sum_cents_take(employees@, i as int, 6);
            lemma_sum_cents_bound(prefix, 0);
            lemma_sum_cents_bound(prefix, 1);
            lemma_sum_cents_bound(prefix, 2);
            lemma_sum_cents_bound(prefix, 3);
            lemma_sum_cents_bound(prefix, 4);
            lemma_sum_cents_bound(prefix, 5);
            lemma_sum_cents_bound(prefix, 6);
            assert(prefix.len() * (u64::MAX as nat) + (u64::MAX as nat) <= u128::MAX) by (
            nonlinear_arith)
                requires
                    prefix.len() < 0x1_0000_0000_0000_0000,
            ;
        }
        totals.add(&employees[i]);
        i = i + 1;
    }
    proof {
        assert(employees@.take(employees@.len() as int) =~= employees@);
    }

    let rt = match build_rt_record(&totals) {
        Ok(v) => v,
        Err(e) => {
            return Err(e);
        },
    };
    let rf = match build_rf_record(totals.count) {
        Ok(v) => v,
        Err(e) => {
            return Err(e);
        },
    };

    let mut out: Vec<u8> = Vec::new();
    append_field(&mut out, &ra);
    append_field(&mut out, &re);
    append_field(&mut out, &body);
    append_field(&mut out, &rt);
    append_field(&mut out, &rf);
    proof {
        assert(out@ =~= file_spec(*cfg, *params, employees@));
    }
    Ok(out)
}

/// For every run of `n` employee records, the RT record's count field
/// holds `n` in 7 zero-padded digits and the RF record's count field
/// holds `n` again in 9.
pub proof fn lemma_record_counts(emps: Seq<W2Info>)
    requires
        totals_fit(emps),
    ensures
        rt_record_of(emps).subrange(2, 9) == num_field(emps.len(), 7),
        rf_spec(emps.len()).subrange(7, 16) == num_field(emps.len(), 9),
{
    assert(num_field(emps.len(), 7).len() == 7);
    assert(num_field(emps.len(), 9).len() == 9);
    assert(rt_record_of(emps).subrange(2, 9) =~= num_field(emps.len(), 7));
    assert(rf_spec(emps.len()).subrange(7, 16) =~= num_field(emps.len(), 9));
}

/// For every run, each monetary total field of the RT record holds the
/// exact sum, in cents, of that field across all employee records,
/// zero-padded to 15 digits.
#[verifier::rlimit(100)]
pub proof fn lemma_rt_reports_exact_sums(emps: Seq<W2Info>)
    requires
        totals_fit(emps),
    ensures
        rt_record_of(emps).subrange(9, 24) == num_field(sum_cents(emps, 0), 15),
        rt_record_of(emps).subrange(24, 39) == num_field(sum_cents(emps, 1), 15),
        rt_record_of(emps).subrange(39, 54) == num_field(sum_cents(emps, 2), 15),
        rt_record_of(emps).subrange(54, 69) == num_field(sum_cents(emps, 3), 15),
        rt_record_of(emps).subrange(69, 84) == num_field(sum_cents(emps, 4), 15),
        rt_record_of(emps).subrange(84, 99) == num_field(sum_cents(emps, 5), 15),
        rt_record_of(emps).subrange(99, 114) == num_field(sum_cents(emps, 6), 15),
{
    assert(num_field(emps.len(), 7).len() == 7);
    assert forall|k: int| 0 <= k < 7 implies #[trigger] num_field(sum_cents(emps, k), 15).len()
        == 15 by {
        assert(dec_digits(sum_cents(emps, k)).len() <= 15);
    }
    assert(rt_record_of(emps).subrange(9, 24) =~= num_field(sum_cents(emps, 0), 15));
    assert(rt_record_of(emps).subrange(24, 39) =~= num_field(sum_cents(emps, 1), 15));
    assert(rt_record_of(emps).subrange(39, 54) =~= num_field(sum_cents(emps, 2), 15));
    assert(rt_record_of(emps).subrange(54, 69) =~= num_field(sum_cents(emps, 3), 15));
    assert(rt_record_of(emps).subrange(69, 84) =~= num_field(sum_cents(emps, 4), 15));
    assert(rt_record_of(emps).subrange(84, 99) =~= num_field(sum_cents(emps, 5), 15));
    assert(rt_record_of(emps).subrange(99, 114) =~= num_field(sum_cents(emps, 6), 15));
}

/// Every record of a well-formed run is exactly 512 bytes, and the
/// whole output is exactly `512 * (4 + n)` bytes.
pub proof fn lemma_file_len(cfg: ConfigInfo, params: RunParams, emps: Seq<W2Info>)
    requires
        file_ok(cfg, params, emps),
    ensures
        ra_spec(cfg, params).len() == 512,
        re_spec(cfg, params).len() == 512,
        forall|i: int| 0 <= i < emps.len() ==> rw_spec(#[trigger] emps[i]).len() == 512,
        rt_record_of(emps).len() == 512,
        rf_spec(emps.len()).len() == 512,
        file_spec(cfg, params, emps).len() == 512 * (4 + emps.len() as int),
{
    assert forall|i: int| 0 <= i < emps.len() implies rw_spec(#[trigger] emps[i]).len()
        == 512 by {
        lemma_rw_len(emps[i]);
    }
    lemma_rw_stream_len(emps);
    assert forall|k: int| 0 <= k < 7 implies #[trigger] num_field(sum_cents(emps, k), 15).len()
        == 15 by {
        assert(dec_digits(sum_cents(emps, k)).len() <= 15);
    }
    assert(rt_record_of(emps).len() == 512);
}


/// The RW stream keeps input order: record `i` of the stream is exactly
/// employee `i`'s RW record, at byte offset `512 * i`.
pub proof fn lemma_rw_stream_order(emps: Seq<W2Info>, i: int)
    requires
        all_rw_ok(emps),
        0 <= i < emps.len(),
    ensures
        rw_stream(emps).subrange(512 * i, 512 * (i + 1)) == rw_spec(emps[i]),
    decreases emps.len(),
{
    assert(all_rw_ok(emps.drop_last()));
    lemma_rw_stream_len(emps.drop_last());
    lemma_rw_len(emps.last());
    if i == emps.len() - 1 {
        assert(rw_stream(emps).subrange(512 * i, 512 * (i + 1)) =~= rw_spec(emps[i]));
    } else {
        lemma_rw_stream_order(emps.drop_last(), i);
        assert(rw_stream(emps).subrange(512 * i, 512 * (i + 1)) =~= rw_stream(
            emps.drop_last(),
        ).subrange(512 * i, 512 * (i + 1)));
    }
}

/// Each record of a well-formed output stream stands at its exact
/// 512-byte slot: RA first, RE second, the RW records in input order,
/// then RT and RF.
#[verifier::rlimit(100)]
pub proof fn lemma_file_segments(cfg: ConfigInfo, params: RunParams, emps: Seq<W2Info>)
    requires
        file_ok(cfg, params, emps),
    ensures
        file_spec(cfg, params, emps).subrange(0, 512) == ra_spec(cfg, params),
        file_spec(cfg, params, emps).subrange(512, 1024) == re_spec(cfg, params),
        forall|i: int|
            0 <= i < emps.len() ==> file_spec(cfg, params, emps).subrange(
                512 * (2 + i),
                512 * (3 + i),
            ) == rw_spec(#[trigger] emps[i]),
        file_spec(cfg, params, emps).subrange(
            512 * (2 + emps.len() as int),
            512 * (3 + emps.len() as int),
        ) == rt_record_of(emps),
        file_spec(cfg, params, emps).subrange(
            512 * (3 + emps.len() as int),
            512 * (4 + emps.len() as int),
        ) == rf_spec(emps.len()),
{
    lemma_file_len(cfg, params, emps);
    lemma_rw_stream_len(emps);
    assert(file_spec(cfg, params, emps).subrange(0, 512) =~= ra_spec(cfg, params));
    assert(file_spec(cfg, params, emps).subrange(512, 1024) =~= re_spec(cfg, params));
    assert forall|i: int| 0 <= i < emps.len() implies file_spec(cfg, params, emps).subrange(
        512 * (2 + i),
        512 * (3 + i),
    ) == rw_spec(#[trigger] emps[i]) by {
        lemma_rw_stream_order(emps, i);
        assert(file_spec(cfg, params, emps).subrange(512 * (2 + i), 512 * (3 + i)) =~= rw_stream(
            emps,
        ).subrange(512 * i, 512 * (i + 1)));
    }
    assert(file_spec(cfg, params, emps).subrange(
        512 * (2 + emps.len() as int),
        512 * (3 + emps.len() as int),
    ) =~= rt_record_of(emps));
    assert(file_spec(cfg, params, emps).subrange(
        512 * (3 + emps.len() as int),
        512 * (4 + emps.len() as int),
    ) =~= rf_spec(emps.len()));
}

} // verus!
