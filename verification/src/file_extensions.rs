//! The grammar of user-supplied file extensions: one or more groups of a dot
//! followed by at least one alphanumeric character, such as `.tar.gz`.

use crate::decimal::{decimal, push_char, to_decimal};
use vstd::prelude::*;
use vstd::string::StringExecFns;

verus! {

/// The largest number of characters an extension may have.
pub const MAX_EXTENSION_LENGTH: usize = 32;

/// A file extension that has passed the grammar check.
#[derive(Debug, Clone)]
pub struct FileExt(pub String);

/// The ways in which a string can fail to be a file extension.
#[derive(Debug, Copy, Clone, PartialEq, Eq)]
pub enum ExtensionError {
    /// A character that is neither a dot nor alphanumeric.
    NotAlphanumeric(char),
    /// The first character, which is not a dot.
    DoesNotStartWithDot(char),
    /// Two dots in a row.
    ConsecutiveDots,
    /// The last character is a dot.
    EndsWithDot,
    /// The string is empty.
    EmptyExtension,
    /// The string has more than `MAX_EXTENSION_LENGTH` characters; its length.
    TooLong(usize),
}

/// What the scanner expects of the next character.
#[derive(Debug, Copy, Clone, PartialEq, Eq)]
pub enum ScanState {
    /// Nothing has been read: the first character must be a dot.
    WantDot,
    /// A dot has just been read: a letter or digit must follow.
    WantLetters,
    /// A letter or digit has just been read: another one or a dot may follow.
    WantLettersOrDot,
}

/// Whether `c` is alphanumeric in the sense of `char::is_alphanumeric`.
pub uninterp spec fn is_alphanumeric(c: char) -> bool;

/// Asks the standard library whether `c` is alphanumeric
/// (`char::is_alphanumeric`). The answer depends on the character alone.
#[verifier::external_body]
fn alphanumeric(c: char) -> (b: bool)
    ensures
        b == is_alphanumeric(c),
{
    c.is_alphanumeric()
}

/// What the character at position `i` of `s` does wrong, given its
/// predecessor; `None` if it is acceptable there.
pub open spec fn violation(s: Seq<char>, i: int) -> Option<ExtensionError> {
    let c = s[i];
    if i == 0 {
        if c == '.' {
            None
        } else {
            Some(ExtensionError::DoesNotStartWithDot(c))
        }
    } else if c == '.' {
        if s[i - 1] == '.' {
            Some(ExtensionError::ConsecutiveDots)
        } else {
            None
        }
    } else if is_alphanumeric(c) {
        None
    } else {
        Some(ExtensionError::NotAlphanumeric(c))
    }
}

/// Position `i` holds the first unacceptable character of `s`.
pub open spec fn first_violation_at(s: Seq<char>, i: int) -> bool {
    &&& 0 <= i < s.len()
    &&& violation(s, i) is Some
    &&& forall|j: int| 0 <= j < i ==> (#[trigger] violation(s, j)) is None
}

/// Every character of `s` is acceptable in its place.
pub open spec fn no_violation(s: Seq<char>) -> bool {
    forall|j: int| 0 <= j < s.len() ==> (#[trigger] violation(s, j)) is None
}

/// The grammar itself: at most `MAX_EXTENSION_LENGTH` characters, a dot
/// first, a letter or digit last, nothing but dots, letters and digits in
/// between, and no two dots in a row.
pub open spec fn is_extension(s: Seq<char>) -> bool {
    &&& 0 < s.len() <= MAX_EXTENSION_LENGTH
    &&& s[0] == '.'
    &&& s[s.len() - 1] != '.'
    &&& forall|i: int| 0 <= i < s.len() ==> #[trigger] s[i] == '.' || is_alphanumeric(s[i])
    &&& forall|i: int| 0 < i < s.len() ==> !(s[i - 1] == '.' && #[trigger] s[i] == '.')
}

/// The error that `s` is rejected with, or `None` if `s` is accepted. The
/// length is judged first, then the characters from left to right, then the
/// end of the string.
pub open spec fn rejection(s: Seq<char>) -> Option<ExtensionError> {
    if s.len() > MAX_EXTENSION_LENGTH {
        Some(ExtensionError::TooLong(s.len() as usize))
    } else if !no_violation(s) {
        violation(s, choose|i: int| first_violation_at(s, i))
    } else if s.len() == 0 {
        Some(ExtensionError::EmptyExtension)
    } else if s[s.len() - 1] == '.' {
        Some(ExtensionError::EndsWithDot)
    } else {
        None
    }
}

/// The state of the scanner once the first `i` characters of `s` have been
/// accepted.
pub open spec fn state_after(s: Seq<char>, i: int) -> ScanState {
    if i == 0 {
        ScanState::WantDot
    } else if s[i - 1] == '.' {
        ScanState::WantLetters
    } else {
        ScanState::WantLettersOrDot
    }
}

/// One move of the scanner, as a function of the state, the character and
/// whether the character is alphanumeric.
pub open spec fn spec_step(state: ScanState, c: char, alnum: bool) -> Result<
    ScanState,
    ExtensionError,
> {
    match state {
        ScanState::WantDot => if c == '.' {
            Ok(ScanState::WantLetters)
        } else {
            Err(ExtensionError::DoesNotStartWithDot(c))
        },
        ScanState::WantLetters => if c == '.' {
            Err(ExtensionError::ConsecutiveDots)
        } else if alnum {
            Ok(ScanState::WantLettersOrDot)
        } else {
            Err(ExtensionError::NotAlphanumeric(c))
        },
        ScanState::WantLettersOrDot => if c == '.' {
            Ok(ScanState::WantLetters)
        } else if alnum {
            Ok(ScanState::WantLettersOrDot)
        } else {
            Err(ExtensionError::NotAlphanumeric(c))
        },
    }
}

/// Feeds one character to the scanner. `alnum` says whether `chr` is
/// alphanumeric.
pub fn step(state: ScanState, chr: char, alnum: bool) -> (r: Result<ScanState, ExtensionError>)
    ensures
        r == spec_step(state, chr, alnum),
{
    match state {
        ScanState::WantDot => {
            if chr != '.' {
                return Err(ExtensionError::DoesNotStartWithDot(chr));
            }
            Ok(ScanState::WantLetters)
        },
        ScanState::WantLetters => {
            if chr == '.' {
                return Err(ExtensionError::ConsecutiveDots);
            }
            if !alnum {
                return Err(ExtensionError::NotAlphanumeric(chr));
            }
            Ok(ScanState::WantLettersOrDot)
        },
        ScanState::WantLettersOrDot => {
            if chr == '.' {
                return Ok(ScanState::WantLetters);
            }
            if !alnum {
                return Err(ExtensionError::NotAlphanumeric(chr));
            }
            Ok(ScanState::WantLettersOrDot)
        },
    }
}

/// What the scanner answers once the input has ended in `state`: only a
/// letter or digit may stand last.
pub open spec fn spec_finish(state: ScanState) -> Option<ExtensionError> {
    match state {
        ScanState::WantDot => Some(ExtensionError::EmptyExtension),
        ScanState::WantLetters => Some(ExtensionError::EndsWithDot),
        ScanState::WantLettersOrDot => None,
    }
}

/// Ends the input in `state`: the error, if the input may not end there.
pub fn finish(state: ScanState) -> (error: Option<ExtensionError>)
    ensures
        error == spec_finish(state),
{
    match state {
        ScanState::WantDot => Some(ExtensionError::EmptyExtension),
        ScanState::WantLetters => Some(ExtensionError::EndsWithDot),
        ScanState::WantLettersOrDot => None,
    }
}

/// The scanner's move at position `i` agrees with `violation`, and an accepted
/// character leads to the state that belongs to position `i + 1`.
pub proof fn lemma_step_matches_violation(s: Seq<char>, i: int)
    requires
        0 <= i < s.len(),
    ensures
        match spec_step(state_after(s, i), s[i], is_alphanumeric(s[i])) {
            Ok(next) => violation(s, i) is None && next == state_after(s, i + 1),
            Err(e) => violation(s, i) == Some(e),
        },
{
}

/// The first unacceptable character is unique.
pub proof fn lemma_first_violation_unique(s: Seq<char>, i: int, j: int)
    requires
        first_violation_at(s, i),
        first_violation_at(s, j),
    ensures
        i == j,
{
    if i < j {
        assert(violation(s, i) is None);
    } else if j < i {
        assert(violation(s, j) is None);
    }
}

/// A string is accepted exactly if it follows the grammar.
pub proof fn lemma_accepted_iff_extension(s: Seq<char>)
    ensures
        rejection(s) is None <==> is_extension(s),
{
    if is_extension(s) {
        assert forall|j: int| 0 <= j < s.len() implies (#[trigger] violation(s, j)) is None by {
            assert(s[j] == '.' || is_alphanumeric(s[j]));
            if j > 0 {
                assert(!(s[j - 1] == '.' && s[j] == '.'));
            }
        }
    }
    if rejection(s) is None {
        if !no_violation(s) {
            let k = choose|k: int| 0 <= k < s.len() && (#[trigger] violation(s, k)) is Some;
            lemma_first_violation_exists(s, k);
            let i = choose|i: int| first_violation_at(s, i);
            assert(violation(s, i) is Some);
        }
        assert(no_violation(s));
        assert(violation(s, 0) is None);
        assert forall|i: int| 0 <= i < s.len() implies #[trigger] s[i] == '.' || is_alphanumeric(
            s[i],
        ) by {
            assert(violation(s, i) is None);
        }
        assert forall|i: int| 0 < i < s.len() implies !(s[i - 1] == '.' && #[trigger] s[i]
            == '.') by {
            assert(violation(s, i) is None);
        }
    }
}

/// Where some character is unacceptable, there is a first one.
pub proof fn lemma_first_violation_exists(s: Seq<char>, k: int)
    requires
        0 <= k < s.len(),
        violation(s, k) is Some,
    ensures
        exists|i: int| first_violation_at(s, i),
    decreases k,
{
    if forall|j: int| 0 <= j < k ==> (#[trigger] violation(s, j)) is None {
        assert(first_violation_at(s, k));
    } else {
        let j = choose|j: int| 0 <= j < k && (#[trigger] violation(s, j)) is Some;
        lemma_first_violation_exists(s, j);
    }
}

impl FileExt {
    /// The extension follows the grammar.
    pub open spec fn wf(&self) -> bool {
        is_extension(self.0@)
    }

    /// Checks `value` against the grammar. An accepted string is returned
    /// unchanged; a rejected one gives the error of `rejection`.
    pub fn from_str(value: &str) -> (r: Result<FileExt, ExtensionError>)
        ensures
            match r {
                Ok(ext) => ext.0@ == value@ && ext.wf() && rejection(value@) is None,
                Err(e) => rejection(value@) == Some(e) && !is_extension(value@),
            },
    {
        let length = value.unicode_len();
        proof {
            lemma_accepted_iff_extension(value@);
        }
        if length > MAX_EXTENSION_LENGTH {
            return Err(ExtensionError::TooLong(length));
        }
        let mut state = ScanState::WantDot;
        for chr in it: value.chars()
            invariant
                it.seq() == value@,
                value@.len() <= MAX_EXTENSION_LENGTH,
                state == state_after(value@, it.index() as int),
                forall|j: int| 0 <= j < it.index() ==> (#[trigger] violation(value@, j)) is None,
        {
            let ghost i = it.index() as int;
            proof {
                lemma_step_matches_violation(value@, i);
            }
            match step(state, chr, alphanumeric(chr)) {
                Ok(next) => {
                    state = next;
                },
                Err(e) => {
                    proof {
                        assert(first_violation_at(value@, i));
                        let k = choose|k: int| first_violation_at(value@, k);
                        lemma_first_violation_unique(value@, i, k);
                    }
                    return Err(e);
                },
            }
        }
        match finish(state) {
            Some(e) => Err(e),
            None => Ok(FileExt(value.to_owned())),
        }
    }
}

impl ExtensionError {
    /// The text that tells a user what is wrong with the extension.
    pub open spec fn spec_message(self) -> Seq<char> {
        match self {
            ExtensionError::NotAlphanumeric(c) =>
                "file extension must be alphanumeric, but got non-alphanumeric '"@.push(c).push(
                    '\'',
                ),
            ExtensionError::DoesNotStartWithDot(c) =>
                "expected first character of file extension to be a dot, but got '"@.push(c).push(
                    '\'',
                ),
            ExtensionError::ConsecutiveDots =>
                "file extension contains multiple dots in a row, which isn't allowed"@,
            ExtensionError::EndsWithDot =>
                "file extension must end with an alphanumeric character, not a dot"@,
            ExtensionError::TooLong(length) => "file extension must be limited to "@ + decimal(
                MAX_EXTENSION_LENGTH as nat,
            ) + " characters, but got "@ + decimal(length as nat),
            ExtensionError::EmptyExtension => "file extension must not be specified as empty"@,
        }
    }

    /// The text that tells a user what is wrong with the extension.
    pub fn message(&self) -> (text: String)
        ensures
            text@ == self.spec_message(),
    {
        match *self {
            ExtensionError::NotAlphanumeric(c) => {
                let mut text = String::from_str(
                    "file extension must be alphanumeric, but got non-alphanumeric '",
                );
                push_char(&mut text, c);
                push_char(&mut text, '\'');
                text
            },
            ExtensionError::DoesNotStartWithDot(c) => {
                let mut text = String::from_str(
                    "expected first character of file extension to be a dot, but got '",
                );
                push_char(&mut text, c);
                push_char(&mut text, '\'');
                text
            },
            ExtensionError::ConsecutiveDots => String::from_str(
                "file extension contains multiple dots in a row, which isn't allowed",
            ),
            ExtensionError::EndsWithDot => String::from_str(
                "file extension must end with an alphanumeric character, not a dot",
            ),
            ExtensionError::TooLong(length) => {
                let mut text = String::from_str("file extension must be limited to ");
                text.append(to_decimal(MAX_EXTENSION_LENGTH as u64).as_str());
                text.append(" characters, but got ");
                text.append(to_decimal(length as u64).as_str());
                text
            },
            ExtensionError::EmptyExtension => String::from_str(
                "file extension must not be specified as empty",
            ),
        }
    }
}

} // verus!
