use vstd::prelude::*;
use vstd::utf8::is_ascii_chars;
use crate::text::{ascii_bytes, removed, remove_char};

verus! {

broadcast use vstd::string::is_ascii_spec_bytes;

/// Submitter and employer identity, loaded once per run and shared by all
/// record builders.
pub struct ConfigInfo {
    pub ein: String,
    pub user_id: String,
    pub company_name: String,
    pub address_1: String,
    pub address_2: Option<String>,
    pub city: String,
    pub state: String,
    pub zip: String,
    pub contact_name: String,
    pub phone: String,
    pub email: String,
    pub fax: Option<String>,
    pub employment_code: String,
}

/// One employee's W-2 data.  Monetary amounts are non-negative integer
/// cents, so sums across records carry no rounding drift.
pub struct W2Info {
    pub ssn: String,
    pub first_name: String,
    pub middle_initial: String,
    pub last_name: String,
    pub suffix: String,
    pub address_1: String,
    pub address_2: String,
    pub city: String,
    pub state: String,
    pub zip: String,
    pub email: String,
    pub wages: u64,
    pub federal_tax: u64,
    pub ss_wages: u64,
    pub ss_tax: u64,
    pub medicare_wages: u64,
    pub medicare_tax: u64,
    pub ss_tips: u64,
    pub taxing_state: String,
    pub state_id: String,
    pub state_wages: u64,
    pub state_tax: u64,
}

/// Parameters of one run, immutable once chosen.
pub struct RunParams {
    /// The tax year being filed, written as a 4-digit field.
    pub year: u32,
    /// The resubmission identifier; when present, the RA record flags the
    /// file as a resubmission and carries the identifier.
    pub wfid: Option<String>,
    /// Whether this is the employer's final year of filing.
    pub final_year: bool,
}

/// A decimal digit character.
pub open spec fn is_digit(c: char) -> bool {
    '0' <= c && c <= '9'
}

/// An identity value (EIN or SSN) normalized by dropping `-` separators.
pub open spec fn id_norm(s: Seq<char>) -> Seq<char> {
    removed(s, '-')
}

/// Whether an identity value normalizes to exactly 9 ASCII digits.
pub open spec fn id9_ok(s: Seq<char>) -> bool {
    id_norm(s).len() == 9 && forall|i: int|
        0 <= i < id_norm(s).len() ==> is_digit(#[trigger] id_norm(s)[i])
}

/// Whether a user ID is exactly 8 ASCII characters.
pub open spec fn user_id_ok(s: Seq<char>) -> bool {
    s.len() == 8 && is_ascii_chars(s)
}

/// Whether the employer configuration satisfies its identity invariants.
pub open spec fn config_ok(cfg: ConfigInfo) -> bool {
    id9_ok(cfg.ein@) && user_id_ok(cfg.user_id@)
}

/// Strips `-` separators from an identity value and checks that what is
/// left is exactly 9 ASCII digits; returns those digit bytes.
pub fn normalize_id9(value: &str) -> (r: Option<Vec<u8>>)
    ensures
        r is Some <==> id9_ok(value@),
        (r matches Some(v) ==> v@ == ascii_bytes(id_norm(value@)) && v@.len() == 9),
{
    let stripped = remove_char(value, '-');
    let s = stripped.as_str();
    if !s.is_ascii() {
        proof {
            if id9_ok(value@) {
                let i = choose|i: int| 0 <= i < s@.len() && !('\0' <= #[trigger] s@[i] <= '\u{7f}');
                assert(is_digit(id_norm(value@)[i]));
                assert(false);
            }
        }
        return None;
    }
    let bytes = s.as_bytes();
    if bytes.len() != 9 {
        return None;
    }
    let mut out: Vec<u8> = Vec::new();
    let mut i: usize = 0;
    while i < 9
        invariant
            i <= 9,
            s@ == id_norm(value@),
            is_ascii_chars(s@),
            bytes@ == ascii_bytes(s@),
            bytes@.len() == 9,
            out@ == bytes@.take(i as int),
            forall|j: int| 0 <= j < i ==> is_digit(#[trigger] s@[j]),
        decreases 9 - i,
    {
        let b: u8 = bytes[i];
        if b < 48 || b > 57 {
            proof {
                assert(s@[i as int] as u8 == b);
                assert(!is_digit(s@[i as int]));
            }
            return None;
        }
        proof {
            assert(s@[i as int] as u8 == b);
            assert('\0' <= s@[i as int] <= '\u{7f}');
            assert(is_digit(s@[i as int]));
        }
        out.push(b);
        proof {
            assert(out@ =~= bytes@.take(i as int + 1));
        }
        i = i + 1;
    }
    proof {
        assert(out@ =~= ascii_bytes(id_norm(value@)));
    }
    Some(out)
}

/// Checks that a user ID is exactly 8 ASCII characters and returns its
/// bytes.
pub fn user_id_bytes(value: &str) -> (r: Option<Vec<u8>>)
    ensures
        r is Some <==> user_id_ok(value@),
        (r matches Some(v) ==> v@ == ascii_bytes(value@) && v@.len() == 8),
{
    if !value.is_ascii() {
        return None;
    }
    let bytes = value.as_bytes();
    if bytes.len() != 8 {
        return None;
    }
    let mut out: Vec<u8> = Vec::new();
    out.extend_from_slice(bytes);
    proof {
        assert(out@ =~= ascii_bytes(value@));
    }
    Some(out)
}

} // verus!
