use vstd::prelude::*;

verus! {

/// The errors an EFW2 run can end with.  Every one is fatal: no partial
/// output may be written once any of them has been raised.
#[derive(Debug, Clone, PartialEq, Eq)]
pub enum Efw2Error {
    /// A required identity field of the employer configuration violates its
    /// fixed-length invariant (EIN not 9 digits, user ID not 8 characters).
    ConfigurationError { field: String },
    /// An employee record carries a value that cannot be normalized into
    /// its wire form (an SSN that does not normalize to 9 digits).
    InputParseError { field: String },
    /// A formatted value exceeds its column width.  The offending value and
    /// the allowed width are carried so the source data can be corrected.
    FieldTooLongError { value: String, width: usize },
    /// An assembled record is not exactly 512 bytes.  The verified builders
    /// never produce this; it exists so that unverified callers can report
    /// a defect loudly instead of correcting it silently.
    InternalLengthInvariantError { expected: usize, actual: usize },
}

} // verus!
