use vstd::prelude::*;
use crate::error::Efw2Error;
use crate::num::{dec_digits, num_field, format_number_field};
use crate::text::{
    ascii_bytes, removed, norm_text, spaces, text_field, opt_field, append_field,
    format_text_field, stripped_text_field, optional_text_field, push_spaces,
};
use crate::types::{ConfigInfo, RunParams, config_ok, id_norm, normalize_id9, user_id_bytes};
use crate::ra::{company_block, company_block_fits, contact_fits, build_company_block};

verus! {

/// Whether every formatted value of the RE record fits its slot: the tax
/// year in 4 digits, the employment code in 1 byte, and the shared
/// name-and-address and contact values in theirs.
pub open spec fn re_fits(cfg: ConfigInfo, params: RunParams) -> bool {
    dec_digits(params.year as nat).len() <= 4 && company_block_fits(cfg) && norm_text(
        cfg.employment_code@,
    ).len() <= 1 && contact_fits(cfg)
}

/// The RE (employer) record: the second 512 bytes of the file.
pub open spec fn re_spec(cfg: ConfigInfo, params: RunParams) -> Seq<u8> {
    seq![82u8, 69u8]  // "RE"
     + num_field(params.year as nat, 4) + spaces(1)  // agent indicator
     + ascii_bytes(id_norm(cfg.ein@)) + spaces(9)  // agent for EIN
     + (if params.final_year {
        seq![49u8]
    } else {
        seq![48u8]
    })  // terminating business indicator
     + spaces(4)  // establishment number
     + spaces(9)  // other EIN
     + company_block(cfg) + seq![78u8]  // kind of employer: none apply
     + spaces(4) + spaces(23) + spaces(15) + spaces(2)  // foreign address, country
     + text_field(cfg.employment_code@, 1) + spaces(1)  // tax jurisdiction: not a US territory
     + seq![48u8]  // third-party sick pay indicator
     + text_field(removed(cfg.contact_name@, '.'), 27) + text_field(removed(cfg.phone@, '-'), 15)
        + spaces(5)  // phone extension
     + opt_field(cfg.fax, '-', 10) + text_field(cfg.email@, 40) + spaces(194)
}

/// Builds the RE (employer) record.
///
/// Fails with `ConfigurationError` when the EIN or user ID violates its
/// invariant, and with `FieldTooLongError` when the tax year needs more
/// than 4 digits or a normalized text value exceeds its slot.
#[verifier::rlimit(100)]
pub fn build_re_record(cfg: &ConfigInfo, params: &RunParams) -> (r: Result<Vec<u8>, Efw2Error>)
    ensures
        r is Ok <==> config_ok(*cfg) && re_fits(*cfg, *params),
        (r matches Ok(v) ==> v@ == re_spec(*cfg, *params) && v@.len() == 512),
        (r matches Err(e) ==> (if config_ok(*cfg) {
            e is FieldTooLongError
        } else {
            e is ConfigurationError
        })),
{
    let ein = match normalize_id9(cfg.ein.as_str()) {
        Some(v) => v,
        None => {
            return Err(Efw2Error::ConfigurationError { field: "ein".to_owned() });
        },
    };
    if user_id_bytes(cfg.user_id.as_str()).is_none() {
        return Err(Efw2Error::ConfigurationError { field: "user_id".to_owned() });
    }
    let year = format_number_field(params.year as u128, 4)?;
    let block = build_company_block(cfg)?;
    let employment_code = format_text_field(cfg.employment_code.as_str(), 1)?;
    let contact = stripped_text_field(cfg.contact_name.as_str(), '.', 27)?;
    let phone = stripped_text_field(cfg.phone.as_str(), '-', 15)?;
    let fax = optional_text_field(&cfg.fax, '-', 10)?;
    let email = format_text_field(cfg.email.as_str(), 40)?;

    let mut out: Vec<u8> = Vec::new();
    out.push(82u8);
    out.push(69u8);
    append_field(&mut out, &year);
    push_spaces(&mut out, 1);
    append_field(&mut out, &ein);
    push_spaces(&mut out, 9);
    if params.final_year {
        out.push(49u8);
    } else {
        out.push(48u8);
    }
    push_spaces(&mut out, 4);
    push_spaces(&mut out, 9);
    append_field(&mut out, &block);
    out.push(78u8);
    push_spaces(&mut out, 4);
    push_spaces(&mut out, 23);
    push_spaces(&mut out, 15);
    push_spaces(&mut out, 2);
    append_field(&mut out, &employment_code);
    push_spaces(&mut out, 1);
    out.push(48u8);
    append_field(&mut out, &contact);
    append_field(&mut out, &phone);
    push_spaces(&mut out, 5);
    append_field(&mut out, &fax);
    append_field(&mut out, &email);
    push_spaces(&mut out, 194);
    proof {
        assert(out@ =~= re_spec(*cfg, *params));
    }
    Ok(out)
}

} // verus!
