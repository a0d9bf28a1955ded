//! Encoder for the SSA EFW2 fixed-width wage-filing format.
//!
//! The library turns validated employer and employee wage data into the
//! five 512-byte record types of an EFW2 submission (RA, RE, RW, RT, RF)
//! and concatenates them into a single output stream.  Text fields are
//! transliterated to ASCII, uppercased and space-padded; monetary fields
//! are integer cents, zero-padded on the left; the RT and RF records
//! carry the exact record count and the exact per-field sums of the RW
//! records that precede them.

pub mod error;
pub mod text;
pub mod num;
pub mod types;
pub mod ra;
pub mod re;
pub mod rw;
pub mod totals;
pub mod file;
