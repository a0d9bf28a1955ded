use efw2::error::Efw2Error;
use efw2::file::build_file;
use efw2::types::{ConfigInfo, RunParams, W2Info};

fn config() -> ConfigInfo {
    ConfigInfo {
        ein: "12-3456789".to_string(),
        user_id: "ABCDEFGH".to_string(),
        company_name: "Acme Widgets".to_string(),
        address_1: "123 Main St".to_string(),
        address_2: None,
        city: "Springfield".to_string(),
        state: "IL".to_string(),
        zip: "62701".to_string(),
        contact_name: "Jane Public".to_string(),
        phone: "5551234567".to_string(),
        email: "jane@example.com".to_string(),
        fax: None,
        employment_code: "R".to_string(),
    }
}

fn params() -> RunParams {
    RunParams { year: 2024, wfid: None, final_year: false }
}

fn employee(ssn: &str, wages: u64) -> W2Info {
    W2Info {
        ssn: ssn.to_string(),
        first_name: "John".to_string(),
        middle_initial: "".to_string(),
        last_name: "Doe".to_string(),
        suffix: "".to_string(),
        address_1: "9 Elm St".to_string(),
        address_2: "".to_string(),
        city: "Springfield".to_string(),
        state: "IL".to_string(),
        zip: "62701".to_string(),
        email: "".to_string(),
        wages,
        federal_tax: 0,
        ss_wages: wages,
        ss_tax: 0,
        medicare_wages: wages,
        medicare_tax: 0,
        ss_tips: 0,
        taxing_state: "".to_string(),
        state_id: "".to_string(),
        state_wages: 0,
        state_tax: 0,
    }
}

#[test]
fn empty_run_emits_four_records() {
    let out = build_file(&config(), &params(), &vec![]).unwrap();
    assert_eq!(out.len(), 4 * 512);
    assert_eq!(&out[0..2], b"RA".as_slice());
    assert_eq!(&out[512..514], b"RE".as_slice());
    let rt = &out[1024..1536];
    assert_eq!(&rt[0..2], b"RT".as_slice());
    assert_eq!(&rt[2..9], b"0000000".as_slice());
    for k in 0..7 {
        assert_eq!(&rt[9 + 15 * k..24 + 15 * k], b"000000000000000".as_slice());
    }
    let rf = &out[1536..2048];
    assert_eq!(&rf[0..2], b"RF".as_slice());
    assert_eq!(&rf[7..16], b"000000000".as_slice());
}

#[test]
fn single_employee_wages_propagate() {
    let emps = vec![employee("123-45-6789", 5000000)];
    let out = build_file(&config(), &params(), &emps).unwrap();
    assert_eq!(out.len(), 5 * 512);
    let rw = &out[1024..1536];
    assert_eq!(&rw[0..2], b"RW".as_slice());
    assert_eq!(&rw[187..198], b"00005000000".as_slice());
    let rt = &out[1536..2048];
    assert_eq!(&rt[2..9], b"0000001".as_slice());
    assert_eq!(&rt[9..24], b"000000005000000".as_slice());
    let rf = &out[2048..2560];
    assert_eq!(&rf[7..16], b"000000001".as_slice());
}

#[test]
fn rw_records_keep_input_order() {
    let emps = vec![employee("111-11-1111", 100), employee("222-22-2222", 200)];
    let out = build_file(&config(), &params(), &emps).unwrap();
    assert_eq!(out.len(), 6 * 512);
    assert_eq!(&out[1024 + 2..1024 + 11], b"111111111".as_slice());
    assert_eq!(&out[1536 + 2..1536 + 11], b"222222222".as_slice());
}

#[test]
fn totals_are_exact_decimal_sums() {
    // 25 records of $999,999.99 each: the RT total must be the exact
    // cent sum with no drift.
    let mut emps = Vec::new();
    for _ in 0..25 {
        emps.push(employee("123-45-6789", 99999999));
    }
    let out = build_file(&config(), &params(), &emps).unwrap();
    assert_eq!(out.len(), (4 + 25) * 512);
    let rt_start = 512 * 27;
    let rt = &out[rt_start..rt_start + 512];
    assert_eq!(&rt[2..9], b"0000025".as_slice());
    // 25 * 99_999_999 = 2_499_999_975 cents.
    assert_eq!(&rt[9..24], b"000002499999975".as_slice());
    assert_eq!(&rt[39..54], b"000002499999975".as_slice());
}

#[test]
fn failing_record_aborts_run() {
    let emps = vec![employee("111-11-1111", 100), employee("bad", 200)];
    match build_file(&config(), &params(), &emps) {
        Err(Efw2Error::InputParseError { field }) => assert_eq!(field, "ssn"),
        other => panic!("expected InputParseError, got {:?}", other),
    }
}

#[test]
fn bad_configuration_aborts_run() {
    let mut c = config();
    c.ein = "not-an-ein".to_string();
    match build_file(&c, &params(), &vec![]) {
        Err(Efw2Error::ConfigurationError { field }) => assert_eq!(field, "ein"),
        other => panic!("expected ConfigurationError, got {:?}", other),
    }
}

#[test]
fn resubmission_flag_in_file() {
    let mut p = params();
    p.wfid = Some("R1".to_string());
    let out = build_file(&config(), &p, &vec![]).unwrap();
    assert_eq!(out[28], b'1');
    assert_eq!(&out[29..35], b"R1    ".as_slice());
    let plain = build_file(&config(), &params(), &vec![]).unwrap();
    assert_eq!(plain[28], b'0');
    assert_eq!(&plain[29..35], b"      ".as_slice());
}
