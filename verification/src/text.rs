use vstd::prelude::*;
use vstd::utf8::is_ascii_chars;
use crate::error::Efw2Error;

verus! {

broadcast use vstd::string::is_ascii_spec_bytes;

/// What `unidecode::unidecode` returns for a character sequence, as bytes.
pub uninterp spec fn transliterated(s: Seq<char>) -> Seq<u8>;

/// The bytes of an ASCII character sequence, one byte per character.
pub open spec fn ascii_bytes(s: Seq<char>) -> Seq<u8> {
    Seq::new(s.len(), |i: int| s[i] as u8)
}

/// Relies on `unidecode::unidecode`: the result is a pure-ASCII
/// transliteration of the input, a function of the characters alone, and
/// every ASCII character is mapped to itself.
#[verifier::external_body]
pub(crate) fn transliterate(value: &str) -> (r: Vec<u8>)
    ensures
        r@ == transliterated(value@),
        forall|i: int| 0 <= i < r@.len() ==> r@[i] < 128,
        is_ascii_chars(value@) ==> r@ == ascii_bytes(value@),
{
    unidecode::unidecode(value).into_bytes()
}

/// `s` with every occurrence of `c` removed.
pub open spec fn removed(s: Seq<char>, c: char) -> Seq<char>
    decreases s.len(),
{
    if s.len() == 0 {
        Seq::empty()
    } else if s[0] == c {
        removed(s.drop_first(), c)
    } else {
        seq![s[0]] + removed(s.drop_first(), c)
    }
}

/// Relies on `str::replace`: every match of the pattern is replaced, so a
/// one-character pattern with an empty replacement removes each occurrence
/// of that character.
#[verifier::external_body]
pub(crate) fn remove_char(value: &str, c: char) -> (r: String)
    ensures
        r@ == removed(value@, c),
{
    value.replace(c, "")
}

/// A byte mapped to its ASCII uppercase form.
pub open spec fn upper_byte(b: u8) -> u8 {
    if 97 <= b && b <= 122 {
        (b - 32) as u8
    } else {
        b
    }
}

/// A byte sequence mapped to its ASCII uppercase form.
pub open spec fn upper_bytes(s: Seq<u8>) -> Seq<u8> {
    Seq::new(s.len(), |i: int| upper_byte(s[i]))
}

/// The normalized wire form of a text value: transliterated to ASCII,
/// then uppercased.
pub open spec fn norm_text(s: Seq<char>) -> Seq<u8> {
    upper_bytes(transliterated(s))
}

/// `n` space bytes.
pub open spec fn spaces(n: int) -> Seq<u8> {
    if n <= 0 {
        Seq::empty()
    } else {
        Seq::new(n as nat, |i: int| 32u8)
    }
}

/// `s` right-padded with spaces to `width` bytes.
pub open spec fn pad_right(s: Seq<u8>, width: int) -> Seq<u8> {
    s + spaces(width - s.len())
}

/// The full wire form of a text field: normalized, then space-padded to
/// exactly `width` bytes.
pub open spec fn text_field(s: Seq<char>, width: int) -> Seq<u8> {
    pad_right(norm_text(s), width)
}

/// Characters that normalization leaves unchanged: ASCII with no
/// lowercase letter.
pub open spec fn is_upper_ascii(s: Seq<char>) -> bool {
    is_ascii_chars(s) && forall|i: int| 0 <= i < s.len() ==> !('a' <= #[trigger] s[i] <= 'z')
}

/// Pushes `n` space bytes onto `out`.
pub(crate) fn push_spaces(out: &mut Vec<u8>, n: usize)
    ensures
        final(out)@ == old(out)@ + spaces(n as int),
{
    let mut i: usize = 0;
    while i < n
        invariant
            i <= n,
            out@ == old(out)@ + spaces(i as int),
        decreases n - i,
    {
        out.push(32u8);
        proof {
            assert(out@ =~= old(out)@ + spaces(i as int + 1));
        }
        i = i + 1;
    }
}

/// Appends a formatted field to a record under construction.
pub(crate) fn append_field(out: &mut Vec<u8>, piece: &Vec<u8>)
    ensures
        final(out)@ == old(out)@ + piece@,
{
    out.extend_from_slice(piece.as_slice());
}

/// The wire form of a field whose value is optional: the stripped,
/// normalized value when present, otherwise all spaces.
pub open spec fn opt_field(v: Option<String>, c: char, width: int) -> Seq<u8> {
    match v {
        Some(s) => text_field(removed(s@, c), width),
        None => spaces(width),
    }
}

/// Whether an optional field's normalized value fits its width.
pub open spec fn opt_fits(v: Option<String>, c: char, width: int) -> bool {
    match v {
        Some(s) => norm_text(removed(s@, c)).len() <= width,
        None => true,
    }
}

/// Strips every occurrence of `c` from `value`, then formats the rest
/// into a `width`-byte text slot.
pub fn stripped_text_field(value: &str, c: char, width: usize) -> (r: Result<Vec<u8>, Efw2Error>)
    ensures
        r is Ok <==> norm_text(removed(value@, c)).len() <= width,
        (r matches Ok(v) ==> v@ == text_field(removed(value@, c), width as int) && v@.len()
            == width),
        (r matches Err(e) ==> (e matches Efw2Error::FieldTooLongError { value: v, width: w }
            && v@ == removed(value@, c) && w == width)),
{
    let s = remove_char(value, c);
    format_text_field(s.as_str(), width)
}

/// Formats an optional field: the stripped value when present, a run of
/// spaces when absent.
pub fn optional_text_field(v: &Option<String>, c: char, width: usize) -> (r: Result<
    Vec<u8>,
    Efw2Error,
>)
    ensures
        r is Ok <==> opt_fits(*v, c, width as int),
        (r matches Ok(out) ==> out@ == opt_field(*v, c, width as int) && out@.len() == width),
        (r matches Err(e) ==> (e matches Efw2Error::FieldTooLongError { value: _, width: w }
            && w == width)),
{
    match v {
        Some(s) => stripped_text_field(s.as_str(), c, width),
        None => {
            let mut out: Vec<u8> = Vec::new();
            push_spaces(&mut out, width);
            Ok(out)
        },
    }
}

/// Normalizes and pads a human-readable text value into a fixed-width
/// slot of `length` bytes.
///
/// The value is transliterated to its closest ASCII representation and
/// uppercased; if the normalized value fits, it is left-justified and
/// right-padded with spaces, and otherwise the call fails with
/// `FieldTooLongError` carrying the offending value and the allowed
/// width.  A value that is already ASCII with no lowercase letters is
/// passed through unchanged (before padding).
pub fn format_text_field(value: &str, length: usize) -> (r: Result<Vec<u8>, Efw2Error>)
    ensures
        r is Ok <==> norm_text(value@).len() <= length,
        (r matches Ok(v) ==> v@ == text_field(value@, length as int) && v@.len() == length),
        (r matches Err(e) ==> (e matches Efw2Error::FieldTooLongError { value: v, width: w }
            && v@ == value@ && w == length)),
        is_upper_ascii(value@) ==> norm_text(value@) == ascii_bytes(value@),
{
    let t = transliterate(value);
    proof {
        if is_upper_ascii(value@) {
            assert(norm_text(value@) =~= ascii_bytes(value@)) by {
                assert forall|i: int| 0 <= i < transliterated(value@).len()
                    implies #[trigger] upper_bytes(transliterated(value@))[i]
                        == ascii_bytes(value@)[i] by {
                    assert(transliterated(value@)[i] == value@[i] as u8);
                    assert(!('a' <= value@[i] <= 'z'));
                }
            }
        }
    }
    let mut u: Vec<u8> = Vec::new();
    let mut i: usize = 0;
    while i < t.len()
        invariant
            i <= t.len(),
            t@ == transliterated(value@),
            u@ =~= upper_bytes(t@).take(i as int),
        decreases t.len() - i,
    {
        let b: u8 = t[i];
        let ub: u8 = if 97 <= b && b <= 122 {
            b - 32
        } else {
            b
        };
        u.push(ub);
        proof {
            assert(u@ =~= upper_bytes(t@).take(i as int + 1));
        }
        i = i + 1;
    }
    proof {
        assert(u@ =~= norm_text(value@));
    }
    if u.len() > length {
        Err(Efw2Error::FieldTooLongError { value: value.to_owned(), width: length })
    } else {
        let pad: usize = length - u.len();
        push_spaces(&mut u, pad);
        proof {
            assert(u@ =~= text_field(value@, length as int));
        }
        Ok(u)
    }
}

} // verus!
