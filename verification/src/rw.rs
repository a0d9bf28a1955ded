use vstd::prelude::*;
use crate::error::Efw2Error;
use crate::num::{dec_digits, num_field, format_number_field};
use crate::text::{
    ascii_bytes, removed, norm_text, spaces, text_field, append_field, format_text_field,
    stripped_text_field, push_spaces,
};
use crate::types::{W2Info, id_norm, id9_ok, normalize_id9};

verus! {

/// Whether an employee record's SSN normalizes to 9 digits.
pub open spec fn ssn_ok(e: W2Info) -> bool {
    id9_ok(e.ssn@)
}

/// Whether every formatted value of an employee's RW record fits its
/// slot: the name and address values in theirs, and each of the seven
/// monetary amounts in 11 digits of cents.
pub open spec fn rw_fits(e: W2Info) -> bool {
    norm_text(e.first_name@).len() <= 15 && norm_text(removed(e.middle_initial@, '.')).len() <= 15
        && norm_text(e.last_name@).len() <= 20 && norm_text(e.suffix@).len() <= 4 && norm_text(
        removed(e.address_2@, '.'),
    ).len() <= 22 && norm_text(removed(e.address_1@, '.')).len() <= 22 && norm_text(e.city@).len()
        <= 22 && norm_text(e.state@).len() <= 2 && norm_text(e.zip@).len() <= 5 && dec_digits(
        e.wages as nat,
    ).len() <= 11 && dec_digits(e.federal_tax as nat).len() <= 11 && dec_digits(
        e.ss_wages as nat,
    ).len() <= 11 && dec_digits(e.ss_tax as nat).len() <= 11 && dec_digits(
        e.medicare_wages as nat,
    ).len() <= 11 && dec_digits(e.medicare_tax as nat).len() <= 11 && dec_digits(
        e.ss_tips as nat,
    ).len() <= 11
}

/// Whether an employee record can be encoded at all.
pub open spec fn rw_ok(e: W2Info) -> bool {
    ssn_ok(e) && rw_fits(e)
}

/// The RW (employee wage) record for one employee.
pub open spec fn rw_spec(e: W2Info) -> Seq<u8> {
    seq![82u8, 87u8]  // "RW"
     + ascii_bytes(id_norm(e.ssn@)) + text_field(e.first_name@, 15) + text_field(
        removed(e.middle_initial@, '.'),
        15,
    ) + text_field(e.last_name@, 20) + text_field(e.suffix@, 4) + text_field(
        removed(e.address_2@, '.'),
        22,
    )  // location address
     + text_field(removed(e.address_1@, '.'), 22)  // delivery address
     + text_field(e.city@, 22) + text_field(e.state@, 2) + text_field(e.zip@, 5) + spaces(4)  // ZIP extension
     + spaces(5) + spaces(23) + spaces(15) + spaces(2)  // foreign address, country
     + num_field(e.wages as nat, 11) + num_field(e.federal_tax as nat, 11) + num_field(
        e.ss_wages as nat,
        11,
    ) + num_field(e.ss_tax as nat, 11) + num_field(e.medicare_wages as nat, 11) + num_field(
        e.medicare_tax as nat,
        11,
    ) + num_field(e.ss_tips as nat, 11) + spaces(220)  // benefit amounts this system never populates
     + spaces(1) + seq![48u8]  // statutory employee indicator
     + spaces(1) + seq![48u8, 48u8]  // retirement plan and third-party sick pay indicators
     + spaces(23)
}

/// Builds the RW (employee wage) record for one employee.
///
/// Fails with `InputParseError` when the SSN does not normalize to 9
/// digits, and with `FieldTooLongError` when a normalized text value or
/// an 11-digit cent amount exceeds its slot.
#[verifier::rlimit(100)]
pub fn build_rw_record(e: &W2Info) -> (r: Result<Vec<u8>, Efw2Error>)
    ensures
        r is Ok <==> rw_ok(*e),
        (r matches Ok(v) ==> v@ == rw_spec(*e) && v@.len() == 512),
        (r matches Err(err) ==> (if ssn_ok(*e) {
            err is FieldTooLongError
        } else {
            err is InputParseError
        })),
{
    let ssn = match normalize_id9(e.ssn.as_str()) {
        Some(v) => v,
        None => {
            return Err(Efw2Error::InputParseError { field: "ssn".to_owned() });
        },
    };
    let first_name = format_text_field(e.first_name.as_str(), 15)?;
    let middle_initial = stripped_text_field(e.middle_initial.as_str(), '.', 15)?;
    let last_name = format_text_field(e.last_name.as_str(), 20)?;
    let suffix = format_text_field(e.suffix.as_str(), 4)?;
    let address_2 = stripped_text_field(e.address_2.as_str(), '.', 22)?;
    let address_1 = stripped_text_field(e.address_1.as_str(), '.', 22)?;
    let city = format_text_field(e.city.as_str(), 22)?;
    let state = format_text_field(e.state.as_str(), 2)?;
    let zip = format_text_field(e.zip.as_str(), 5)?;
    let wages = format_number_field(e.wages as u128, 11)?;
    let federal_tax = format_number_field(e.federal_tax as u128, 11)?;
    let ss_wages = format_number_field(e.ss_wages as u128, 11)?;
    let ss_tax = format_number_field(e.ss_tax as u128, 11)?;
    let medicare_wages = format_number_field(e.medicare_wages as u128, 11)?;
    let medicare_tax = format_number_field(e.medicare_tax as u128, 11)?;
    let ss_tips = format_number_field(e.ss_tips as u128, 11)?;

    let mut out: Vec<u8> = Vec::new();
    out.push(82u8);
    out.push(87u8);
    append_field(&mut out, &ssn);
    append_field(&mut out, &first_name);
    append_field(&mut out, &middle_initial);
    append_field(&mut out, &last_name);
    append_field(&mut out, &suffix);
    append_field(&mut out, &address_2);
    append_field(&mut out, &address_1);
    append_field(&mut out, &city);
    append_field(&mut out, &state);
    append_field(&mut out, &zip);
    push_spaces(&mut out, 4);
    push_spaces(&mut out, 5);
    push_spaces(&mut out, 23);
    push_spaces(&mut out, 15);
    push_spaces(&mut out, 2);
    append_field(&mut out, &wages);
    append_field(&mut out, &federal_tax);
    append_field(&mut out, &ss_wages);
    append_field(&mut out, &ss_tax);
    append_field(&mut out, &medicare_wages);
    append_field(&mut out, &medicare_tax);
    append_field(&mut out, &ss_tips);
    push_spaces(&mut out, 220);
    push_spaces(&mut out, 1);
    out.push(48u8);
    push_spaces(&mut out, 1);
    out.push(48u8);
    out.push(48u8);
    push_spaces(&mut out, 23);
    proof {
        assert(out@ =~= rw_spec(*e));
    }
    Ok(out)
}

/// An encodable employee's RW record is exactly 512 bytes.
pub proof fn lemma_rw_len(e: W2Info)
    requires
        rw_ok(e),
    ensures
        rw_spec(e).len() == 512,
{
}

} // verus!
