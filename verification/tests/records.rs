use efw2::error::Efw2Error;
use efw2::ra::build_ra_record;
use efw2::re::build_re_record;
use efw2::rw::build_rw_record;
use efw2::totals::{build_rf_record, build_rt_record, RunningTotals};
use efw2::types::{ConfigInfo, RunParams, W2Info};

fn config() -> ConfigInfo {
    ConfigInfo {
        ein: "12-3456789".to_string(),
        user_id: "ABCDEFGH".to_string(),
        company_name: "Acme Widgets".to_string(),
        address_1: "123 Main St.".to_string(),
        address_2: Some("Suite 4".to_string()),
        city: "Springfield".to_string(),
        state: "IL".to_string(),
        zip: "62701".to_string(),
        contact_name: "Jane Q. Public".to_string(),
        phone: "555-123-4567".to_string(),
        email: "jane@example.com".to_string(),
        fax: Some("555-765-4321".to_string()),
        employment_code: "R".to_string(),
    }
}

fn params() -> RunParams {
    RunParams { year: 2024, wfid: None, final_year: false }
}

fn employee() -> W2Info {
    W2Info {
        ssn: "123-45-6789".to_string(),
        first_name: "John".to_string(),
        middle_initial: "Q.".to_string(),
        last_name: "Doe".to_string(),
        suffix: "".to_string(),
        address_1: "9 Elm St.".to_string(),
        address_2: "".to_string(),
        city: "Springfield".to_string(),
        state: "IL".to_string(),
        zip: "62701".to_string(),
        email: "".to_string(),
        wages: 5000000,
        federal_tax: 500000,
        ss_wages: 5000000,
        ss_tax: 310000,
        medicare_wages: 5000000,
        medicare_tax: 72500,
        ss_tips: 0,
        taxing_state: "".to_string(),
        state_id: "".to_string(),
        state_wages: 0,
        state_tax: 0,
    }
}

#[test]
fn ra_record_layout() {
    let rec = build_ra_record(&config(), &params()).unwrap();
    assert_eq!(rec.len(), 512);
    assert_eq!(&rec[0..2], b"RA".as_slice());
    assert_eq!(&rec[2..11], b"123456789".as_slice());
    assert_eq!(&rec[11..19], b"ABCDEFGH".as_slice());
    assert_eq!(rec[28], b'0');
    assert_eq!(&rec[29..35], b"      ".as_slice());
    assert_eq!(&rec[35..37], b"98".as_slice());
    // Company name, uppercased and padded to 57 bytes.
    assert_eq!(&rec[37..49], b"ACME WIDGETS".as_slice());
    assert!(rec[49..94].iter().all(|&b| b == b' '));
    // Location address is address line 2, delivery address line 1 with
    // periods stripped.
    assert_eq!(&rec[94..101], b"SUITE 4".as_slice());
    assert_eq!(&rec[116..127], b"123 MAIN ST".as_slice());
    // The submitter block repeats the company block.
    assert_eq!(&rec[37..216], &rec[216..395]);
    // Contact name with periods stripped, phone with dashes stripped.
    assert_eq!(&rec[395..408], b"JANE Q PUBLIC".as_slice());
    assert_eq!(&rec[422..432], b"5551234567".as_slice());
    assert_eq!(&rec[445..461], b"JANE@EXAMPLE.COM".as_slice());
    assert_eq!(&rec[488..498], b"5557654321".as_slice());
    assert_eq!(rec[499], b'L');
    assert!(rec[500..512].iter().all(|&b| b == b' '));
}

#[test]
fn ra_resubmission_indicator_set() {
    let mut p = params();
    p.wfid = Some("AB12".to_string());
    let rec = build_ra_record(&config(), &p).unwrap();
    assert_eq!(rec[28], b'1');
    assert_eq!(&rec[29..35], b"AB12  ".as_slice());
}

#[test]
fn ra_bad_ein_fails() {
    let mut c = config();
    c.ein = "123".to_string();
    match build_ra_record(&c, &params()) {
        Err(Efw2Error::ConfigurationError { field }) => assert_eq!(field, "ein"),
        other => panic!("expected ConfigurationError, got {:?}", other),
    }
}

#[test]
fn ra_bad_user_id_fails() {
    let mut c = config();
    c.user_id = "SHORT".to_string();
    match build_ra_record(&c, &params()) {
        Err(Efw2Error::ConfigurationError { field }) => assert_eq!(field, "user_id"),
        other => panic!("expected ConfigurationError, got {:?}", other),
    }
}

#[test]
fn ra_field_too_long_fails() {
    let mut c = config();
    c.city = "A city with an exceedingly long name".to_string();
    match build_ra_record(&c, &params()) {
        Err(Efw2Error::FieldTooLongError { width, .. }) => assert_eq!(width, 22),
        other => panic!("expected FieldTooLongError, got {:?}", other),
    }
}

#[test]
fn re_record_layout() {
    let rec = build_re_record(&config(), &params()).unwrap();
    assert_eq!(rec.len(), 512);
    assert_eq!(&rec[0..2], b"RE".as_slice());
    assert_eq!(&rec[2..6], b"2024".as_slice());
    assert_eq!(&rec[7..16], b"123456789".as_slice());
    assert_eq!(rec[25], b'0');
    assert_eq!(&rec[39..51], b"ACME WIDGETS".as_slice());
    assert_eq!(rec[173], b'N');
    assert_eq!(rec[218], b'R');
    assert_eq!(rec[220], b'0');
    assert_eq!(&rec[221..234], b"JANE Q PUBLIC".as_slice());
    assert_eq!(&rec[268..278], b"5557654321".as_slice());
    assert_eq!(&rec[278..294], b"JANE@EXAMPLE.COM".as_slice());
    assert!(rec[318..512].iter().all(|&b| b == b' '));
}

#[test]
fn re_final_year_indicator() {
    let mut p = params();
    p.final_year = true;
    let rec = build_re_record(&config(), &p).unwrap();
    assert_eq!(rec[25], b'1');
}

#[test]
fn rw_record_layout() {
    let rec = build_rw_record(&employee()).unwrap();
    assert_eq!(rec.len(), 512);
    assert_eq!(&rec[0..2], b"RW".as_slice());
    assert_eq!(&rec[2..11], b"123456789".as_slice());
    assert_eq!(&rec[11..15], b"JOHN".as_slice());
    assert_eq!(&rec[26..27], b"Q".as_slice());
    assert_eq!(&rec[41..44], b"DOE".as_slice());
    // Wages in cents, 11 digits, zero-padded.
    assert_eq!(&rec[187..198], b"00005000000".as_slice());
    assert_eq!(&rec[198..209], b"00000500000".as_slice());
    assert_eq!(&rec[253..264], b"00000000000".as_slice());
    // Indicator columns.
    assert_eq!(rec[485], b'0');
    assert_eq!(rec[487], b'0');
    assert_eq!(rec[488], b'0');
}

#[test]
fn rw_bad_ssn_fails() {
    let mut e = employee();
    e.ssn = "12345".to_string();
    match build_rw_record(&e) {
        Err(Efw2Error::InputParseError { field }) => assert_eq!(field, "ssn"),
        other => panic!("expected InputParseError, got {:?}", other),
    }
}

#[test]
fn rw_amount_too_wide_fails() {
    let mut e = employee();
    e.wages = 100000000000;
    match build_rw_record(&e) {
        Err(Efw2Error::FieldTooLongError { value, width }) => {
            assert_eq!(value, "100000000000");
            assert_eq!(width, 11);
        },
        other => panic!("expected FieldTooLongError, got {:?}", other),
    }
}

#[test]
fn aggregator_sums_exactly() {
    let mut t = RunningTotals::new();
    let mut a = employee();
    a.wages = 1;
    a.ss_tips = 7;
    let mut b = employee();
    b.wages = 2;
    b.ss_tips = 9;
    t.add(&a);
    t.add(&b);
    assert_eq!(t.count, 2);
    assert_eq!(t.wages, 3);
    assert_eq!(t.ss_tips, 16);
    assert_eq!(t.federal_tax, 1000000);
}

#[test]
fn rt_record_totals() {
    let mut t = RunningTotals::new();
    t.add(&employee());
    t.add(&employee());
    let rec = build_rt_record(&t).unwrap();
    assert_eq!(rec.len(), 512);
    assert_eq!(&rec[0..2], b"RT".as_slice());
    assert_eq!(&rec[2..9], b"0000002".as_slice());
    assert_eq!(&rec[9..24], b"000000010000000".as_slice());
    assert_eq!(&rec[24..39], b"000000001000000".as_slice());
    assert!(rec[114..512].iter().all(|&b| b == b' '));
}

#[test]
fn rf_record_count() {
    let rec = build_rf_record(5).unwrap();
    assert_eq!(rec.len(), 512);
    assert_eq!(&rec[0..2], b"RF".as_slice());
    assert_eq!(&rec[2..7], b"     ".as_slice());
    assert_eq!(&rec[7..16], b"000000005".as_slice());
    assert!(rec[16..512].iter().all(|&b| b == b' '));
}
