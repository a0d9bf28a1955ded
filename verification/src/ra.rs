use vstd::prelude::*;
use crate::error::Efw2Error;
use crate::text::{
    ascii_bytes, removed, norm_text, spaces, text_field, opt_field, opt_fits, append_field,
    format_text_field, stripped_text_field, optional_text_field, push_spaces,
};
use crate::types::{ConfigInfo, RunParams, config_ok, id_norm, normalize_id9, user_id_bytes};

verus! {

/// The resubmission identifier slot: the identifier padded to 6 bytes
/// when one was supplied, blank otherwise.
pub open spec fn wfid_field(wfid: Option<String>) -> Seq<u8> {
    match wfid {
        Some(w) => text_field(w@, 6),
        None => spaces(6),
    }
}

/// Whether the resubmission identifier fits its 6-byte slot.
pub open spec fn wfid_fits(wfid: Option<String>) -> bool {
    match wfid {
        Some(w) => norm_text(w@).len() <= 6,
        None => true,
    }
}

/// The name-and-address block shared by the RA record (as company and
/// again as submitter) and the RE record (as employer): name, location
/// address, delivery address, city, state, ZIP and blank ZIP extension.
pub open spec fn company_block(cfg: ConfigInfo) -> Seq<u8> {
    text_field(cfg.company_name@, 57) + opt_field(cfg.address_2, '.', 22) + text_field(
        removed(cfg.address_1@, '.'),
        22,
    ) + text_field(cfg.city@, 22) + text_field(cfg.state@, 2) + text_field(cfg.zip@, 5) + spaces(4)
}

/// Whether every value of the name-and-address block fits its slot.
pub open spec fn company_block_fits(cfg: ConfigInfo) -> bool {
    norm_text(cfg.company_name@).len() <= 57 && opt_fits(cfg.address_2, '.', 22) && norm_text(
        removed(cfg.address_1@, '.'),
    ).len() <= 22 && norm_text(cfg.city@).len() <= 22 && norm_text(cfg.state@).len() <= 2
        && norm_text(cfg.zip@).len() <= 5
}

/// Whether every value of the contact block fits its slot.
pub open spec fn contact_fits(cfg: ConfigInfo) -> bool {
    norm_text(removed(cfg.contact_name@, '.')).len() <= 27 && norm_text(
        removed(cfg.phone@, '-'),
    ).len() <= 15 && norm_text(cfg.email@).len() <= 40 && opt_fits(cfg.fax, '-', 10)
}

/// Whether every formatted value of the RA record fits its slot.
pub open spec fn ra_fits(cfg: ConfigInfo, params: RunParams) -> bool {
    wfid_fits(params.wfid) && company_block_fits(cfg) && contact_fits(cfg)
}

/// The RA (submitter) record: the first 512 bytes of the file.
pub open spec fn ra_spec(cfg: ConfigInfo, params: RunParams) -> Seq<u8> {
    seq![82u8, 65u8] + ascii_bytes(id_norm(cfg.ein@)) + ascii_bytes(cfg.user_id@) + spaces(4)  // vendor code
     + spaces(5) + (if params.wfid is Some {
        seq![49u8]
    } else {
        seq![48u8]
    }) + wfid_field(params.wfid) + seq![57u8, 56u8]  // software code
     + company_block(cfg)  // company block
     + spaces(5) + spaces(23) + spaces(15) + spaces(2)  // foreign address, country
     + company_block(cfg)  // submitter block
     + spaces(5) + spaces(23) + spaces(15) + spaces(2) + text_field(
        removed(cfg.contact_name@, '.'),
        27,
    ) + text_field(removed(cfg.phone@, '-'), 15) + spaces(5)  // phone extension
     + spaces(3) + text_field(cfg.email@, 40) + spaces(3) + opt_field(cfg.fax, '-', 10) + spaces(1)
        + seq![76u8]  // preparer code: self-prepared
     + spaces(12)
}

/// Builds the shared name-and-address block.
pub(crate) fn build_company_block(cfg: &ConfigInfo) -> (r: Result<Vec<u8>, Efw2Error>)
    ensures
        r is Ok <==> company_block_fits(*cfg),
        (r matches Ok(v) ==> v@ == company_block(*cfg) && v@.len() == 134),
        (r matches Err(e) ==> e is FieldTooLongError),
{
    let name = format_text_field(cfg.company_name.as_str(), 57)?;
    let addr2 = optional_text_field(&cfg.address_2, '.', 22)?;
    let addr1 = stripped_text_field(cfg.address_1.as_str(), '.', 22)?;
    let city = format_text_field(cfg.city.as_str(), 22)?;
    let state = format_text_field(cfg.state.as_str(), 2)?;
    let zip = format_text_field(cfg.zip.as_str(), 5)?;
    let mut out: Vec<u8> = Vec::new();
    append_field(&mut out, &name);
    append_field(&mut out, &addr2);
    append_field(&mut out, &addr1);
    append_field(&mut out, &city);
    append_field(&mut out, &state);
    append_field(&mut out, &zip);
    push_spaces(&mut out, 4);
    proof {
        assert(out@ =~= company_block(*cfg));
    }
    Ok(out)
}

/// Builds the RA (submitter) record.
///
/// Fails with `ConfigurationError` when the EIN does not normalize to 9
/// digits or the user ID is not 8 ASCII characters, and with
/// `FieldTooLongError` when a normalized text value exceeds its slot.
#[verifier::rlimit(100)]
pub fn build_ra_record(cfg: &ConfigInfo, params: &RunParams) -> (r: Result<Vec<u8>, Efw2Error>)
    ensures
        r is Ok <==> config_ok(*cfg) && ra_fits(*cfg, *params),
        (r matches Ok(v) ==> v@ == ra_spec(*cfg, *params) && v@.len() == 512),
        (r matches Err(e) ==> (if config_ok(*cfg) {
            e is FieldTooLongError
        } else {
            e is ConfigurationError
        })),
{
    let ein = match normalize_id9(cfg.ein.as_str()) {
        Some(v) => v,
        None => {
            return Err(Efw2Error::ConfigurationError { field: "ein".to_owned() });
        },
    };
    let user_id = match user_id_bytes(cfg.user_id.as_str()) {
        Some(v) => v,
        None => {
            return Err(Efw2Error::ConfigurationError { field: "user_id".to_owned() });
        },
    };
    let wfid = match &params.wfid {
        Some(w) => format_text_field(w.as_str(), 6)?,
        None => {
            let mut v: Vec<u8> = Vec::new();
            push_spaces(&mut v, 6);
            v
        },
    };
    let block = build_company_block(cfg)?;
    let contact = stripped_text_field(cfg.contact_name.as_str(), '.', 27)?;
    let phone = stripped_text_field(cfg.phone.as_str(), '-', 15)?;
    let email = format_text_field(cfg.email.as_str(), 40)?;
    let fax = optional_text_field(&cfg.fax, '-', 10)?;

    let mut out: Vec<u8> = Vec::new();
    out.push(82u8);
    out.push(65u8);
    append_field(&mut out, &ein);
    append_field(&mut out, &user_id);
    push_spaces(&mut out, 4);
    push_spaces(&mut out, 5);
    if params.wfid.is_some() {
        out.push(49u8);
    } else {
        out.push(48u8);
    }
    append_field(&mut out, &wfid);
    out.push(57u8);
    out.push(56u8);
    append_field(&mut out, &block);
    push_spaces(&mut out, 5);
    push_spaces(&mut out, 23);
    push_spaces(&mut out, 15);
    push_spaces(&mut out, 2);
    append_field(&mut out, &block);
    push_spaces(&mut out, 5);
    push_spaces(&mut out, 23);
    push_spaces(&mut out, 15);
    push_spaces(&mut out, 2);
    append_field(&mut out, &contact);
    append_field(&mut out, &phone);
    push_spaces(&mut out, 5);
    push_spaces(&mut out, 3);
    append_field(&mut out, &email);
    push_spaces(&mut out, 3);
    append_field(&mut out, &fax);
    push_spaces(&mut out, 1);
    out.push(76u8);
    push_spaces(&mut out, 12);
    proof {
        assert(out@ =~= ra_spec(*cfg, *params));
    }
    Ok(out)
}

/// When a resubmission identifier is supplied, the RA record's
/// resubmission indicator column holds `'1'` and the identifier is
/// right-padded into the following 6-byte slot; when none is supplied,
/// the indicator holds `'0'` and the slot is blank.
pub proof fn lemma_resubmission_indicator(cfg: ConfigInfo, params: RunParams)
    requires
        config_ok(cfg),
        wfid_fits(params.wfid),
    ensures
        params.wfid is Some ==> ra_spec(cfg, params)[28] == 49u8,
        params.wfid is None ==> ra_spec(cfg, params)[28] == 48u8,
        (params.wfid matches Some(w) ==> ra_spec(cfg, params).subrange(29, 35) == text_field(
            w@,
            6,
        )),
        params.wfid is None ==> ra_spec(cfg, params).subrange(29, 35) == spaces(6),
{
    let pre = seq![82u8, 65u8] + ascii_bytes(id_norm(cfg.ein@)) + ascii_bytes(cfg.user_id@)
        + spaces(4) + spaces(5);
    assert(pre.len() == 28);
    let ind = if params.wfid is Some {
        seq![49u8]
    } else {
        seq![48u8]
    };
    assert(ra_spec(cfg, params)[28] == ind[0]);
    match params.wfid {
        Some(w) => {
            assert(text_field(w@, 6).len() == 6);
        },
        None => {},
    }
    assert(ra_spec(cfg, params).subrange(29, 35) =~= wfid_field(params.wfid));
}

} // verus!
