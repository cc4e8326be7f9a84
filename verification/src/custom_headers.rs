//! The header by which a client announces the size of an upload.

use crate::decimal::{
    decimal, lemma_decimal_round_trip, parse_decimal, parsed_decimal, to_decimal,
};
use vstd::utf8::encode_utf8;
use vstd::prelude::*;

verus! {

/// The name of the header that carries the size of an upload.
#[derive(Debug, Copy, Clone, PartialEq, Eq, Structural)]
pub struct XFileNameHeaderName;

/// The name of the header that carries the size of an upload.
pub const X_FILE_SIZE: XFileNameHeaderName = XFileNameHeaderName;

impl XFileNameHeaderName {
    /// The name in writing, in lower case.
    pub fn as_str(&self) -> (name: &'static str)
        ensures
            name@ == "x-file-size"@,
    {
        "x-file-size"
    }
}

/// The size of an upload in bytes, as its header announces it.
#[derive(Debug, Copy, Clone, PartialEq, Eq, Structural)]
pub struct XFileSize(pub u64);

impl XFileSize {
    /// The name of the header.
    pub fn name() -> (name: &'static str)
        ensures
            name@ == "x-file-size"@,
    {
        "x-file-size"
    }

    /// What the values of the header announce: the number that the first
    /// value holds in decimal. Later values are not read.
    pub open spec fn spec_decode(values: Seq<Vec<u8>>) -> Option<XFileSize> {
        if values.len() == 0 {
            None
        } else {
            match parsed_decimal(values[0]@) {
                Some(size) => Some(XFileSize(size)),
                None => None,
            }
        }
    }

    /// Reads the header from the values that a request gives for it.
    pub fn decode(values: &[Vec<u8>]) -> (size: Option<XFileSize>)
        ensures
            size == XFileSize::spec_decode(values@),
    {
        if values.len() == 0 {
            return None;
        }
        match parse_decimal(values[0].as_slice()) {
            Some(size) => Some(XFileSize(size)),
            None => None,
        }
    }

    /// Writes the value of the header: the size in decimal.
    pub fn encode(&self) -> (value: String)
        ensures
            value@ == decimal(self.0 as nat),
    {
        to_decimal(self.0)
    }
}

/// A size that was written into the header is read from it again, whatever
/// other values follow.
pub proof fn lemma_size_is_read_as_written(size: u64, values: Seq<Vec<u8>>)
    requires
        values.len() > 0,
        values[0]@ == encode_utf8(decimal(size as nat)),
    ensures
        XFileSize::spec_decode(values) == Some(XFileSize(size)),
{
    lemma_decimal_round_trip(size);
}

} // verus!
