//! The header that carries the name of a file.

use crate::decimal::push_char;
use crate::download::{accepted_as_header_value, is_header_value};
use vstd::prelude::*;
use vstd::utf8::encode_utf8;

verus! {

/// The name of a file, as its header carries it.
#[derive(Debug, Clone, PartialEq, Eq)]
pub struct XFileName(pub String);

/// A byte that can be read as text from a header: a tab or a visible ASCII
/// character.
pub open spec fn is_visible_ascii(byte: u8) -> bool {
    (32 <= byte < 127) || byte == 9
}

/// The text of a header value whose bytes are all ASCII.
pub open spec fn ascii_text(bytes: Seq<u8>) -> Seq<char> {
    Seq::new(bytes.len(), |i: int| bytes[i] as char)
}

impl XFileName {
    /// The name of the header.
    pub fn name() -> (name: &'static str)
        ensures
            name@ == "x-file-name"@,
    {
        "x-file-name"
    }

    /// What the values of the header say: the first value as text, if it is
    /// made of tabs and visible ASCII alone. Later values are not read.
    pub open spec fn spec_decode(values: Seq<Vec<u8>>) -> Option<Seq<char>> {
        if values.len() > 0 && forall|i: int|
            0 <= i < values[0]@.len() ==> is_visible_ascii(#[trigger] values[0]@[i]) {
            Some(ascii_text(values[0]@))
        } else {
            None
        }
    }

    /// Reads the header from the values that a request gives for it.
    pub fn decode(values: &[Vec<u8>]) -> (name: Option<XFileName>)
        ensures
            match XFileName::spec_decode(values@) {
                Some(text) => name matches Some(n) && n.0@ == text,
                None => name is None,
            },
    {
        if values.len() == 0 {
            return None;
        }
        let bytes = &values[0];
        let mut text = String::new();
        let mut i: usize = 0;
        while i < bytes.len()
            invariant
                i <= bytes@.len(),
                bytes@ == values@[0]@,
                text@ == ascii_text(bytes@.subrange(0, i as int)),
                forall|j: int| 0 <= j < i ==> is_visible_ascii(#[trigger] bytes@[j]),
            decreases bytes@.len() - i,
        {
            let byte = bytes[i];
            if !((32 <= byte && byte < 127) || byte == 9) {
                return None;
            }
            push_char(&mut text, byte as char);
            i = i + 1;
            assert(text@ =~= ascii_text(bytes@.subrange(0, i as int)));
        }
        assert(bytes@.subrange(0, i as int) =~= bytes@);
        Some(XFileName(text))
    }

    /// Writes the value of the header: the bytes of the name, where
    /// `http::HeaderValue` accepts them. A name that holds a control
    /// character has no value.
    pub fn encode(&self) -> (value: Option<Vec<u8>>)
        ensures
            match value {
                Some(bytes) => bytes@ == encode_utf8(self.0@) && is_header_value(bytes@),
                None => !is_header_value(encode_utf8(self.0@)),
            },
    {
        if accepted_as_header_value(self.0.as_str()) {
            Some(vstd::slice::slice_to_vec(self.0.as_str().as_bytes()))
        } else {
            None
        }
    }
}

} // verus!
