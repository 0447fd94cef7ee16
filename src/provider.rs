//! Provider names, severity levels and the tracepoint names derived from them.
use vstd::prelude::*;
use vstd::utf8::{encode_utf8, is_ascii_chars, is_ascii_chars_encode_utf8};

verus! {

/// Provider names must be strictly shorter than this many bytes.
pub const MAX_PROVIDER_NAME_LEN: usize = 234;

/// Why a provider name was refused.
#[derive(Debug, Clone, Copy, PartialEq, Eq, Structural)]
pub enum ProviderNameError {
    Empty,
    TooLong,
    InvalidCharacters,
}

/// A character allowed in a provider name: an ASCII letter, an ASCII digit or `_`.
pub open spec fn is_name_char(c: char) -> bool {
    ('a' <= c && c <= 'z') || ('A' <= c && c <= 'Z') || ('0' <= c && c <= '9') || c == '_'
}

/// Length of a name in bytes, as UTF-8 (the count that `str::len` reports).
pub open spec fn byte_len(s: Seq<char>) -> usize {
    encode_utf8(s).len() as usize
}

pub open spec fn all_name_chars(s: Seq<char>) -> bool {
    forall|i: int| 0 <= i < s.len() ==> is_name_char(#[trigger] s[i])
}

/// The outcome of validating a name: the rules are checked in order and the
/// first that fails decides the error.
pub open spec fn provider_name_check(s: Seq<char>) -> Result<(), ProviderNameError> {
    if s.len() == 0 {
        Err(ProviderNameError::Empty)
    } else if byte_len(s) >= MAX_PROVIDER_NAME_LEN {
        Err(ProviderNameError::TooLong)
    } else if !all_name_chars(s) {
        Err(ProviderNameError::InvalidCharacters)
    } else {
        Ok(())
    }
}

pub open spec fn is_valid_provider_name(s: Seq<char>) -> bool {
    provider_name_check(s) is Ok
}

/// A name is accepted exactly when it is non-empty, shorter than 234
/// characters, and made of ASCII letters, digits and `_` only.
pub proof fn lemma_provider_name_rule(s: Seq<char>)
    requires
        s.len() <= usize::MAX,
    ensures
        is_valid_provider_name(s) <==> (0 < s.len() < MAX_PROVIDER_NAME_LEN && all_name_chars(s)),
{
    if all_name_chars(s) {
        assert(is_ascii_chars(s));
        is_ascii_chars_encode_utf8(s);
    }
}

pub open spec fn error_text(e: ProviderNameError) -> Seq<char> {
    match e {
        ProviderNameError::Empty => "Provider name cannot be empty."@,
        ProviderNameError::TooLong => "Provider name must be less than 234 characters."@,
        ProviderNameError::InvalidCharacters =>
            "Provider name must contain only ASCII letters, digits, and '_'."@,
    }
}

impl ProviderNameError {
    /// The human-readable message of this error.
    pub fn message(&self) -> (r: &'static str)
        ensures
            r@ == error_text(*self),
    {
        match self {
            ProviderNameError::Empty => "Provider name cannot be empty.",
            ProviderNameError::TooLong => "Provider name must be less than 234 characters.",
            ProviderNameError::InvalidCharacters =>
                "Provider name must contain only ASCII letters, digits, and '_'.",
        }
    }
}

pub fn is_name_character(c: char) -> (r: bool)
    ensures
        r == is_name_char(c),
{
    ('a' <= c && c <= 'z') || ('A' <= c && c <= 'Z') || ('0' <= c && c <= '9') || c == '_'
}

/// Checks a provider name: not empty, shorter than 234 bytes, and made of
/// ASCII letters, digits and `_` only.
pub fn validate_provider_name(name: &str) -> (r: Result<(), ProviderNameError>)
    ensures
        r == provider_name_check(name@),
{
    if name.is_empty() {
        return Err(ProviderNameError::Empty);
    }
    if name.len() >= MAX_PROVIDER_NAME_LEN {
        return Err(ProviderNameError::TooLong);
    }
    let n = name.unicode_len();
    let mut i: usize = 0;
    while i < n
        invariant
            n == name@.len(),
            i <= n,
            name@.len() > 0,
            byte_len(name@) < MAX_PROVIDER_NAME_LEN,
            forall|j: int| 0 <= j < i ==> is_name_char(#[trigger] name@[j]),
        decreases n - i,
    {
        let c = name.get_char(i);
        if !is_name_character(c) {
            assert(!is_name_char(name@[i as int]));
            return Err(ProviderNameError::InvalidCharacters);
        }
        i = i + 1;
    }
    Ok(())
}

/// The user_events level of an OpenTelemetry severity number: Fatal is 1
/// (critical), Error 2, Warn 3, Info 4, and Debug, Trace or an unset
/// severity (0) is 5 (verbose).
pub open spec fn level_of(severity: u8) -> u8 {
    if severity >= 21 {
        1
    } else if severity >= 17 {
        2
    } else if severity >= 13 {
        3
    } else if severity >= 9 {
        4
    } else {
        5
    }
}

pub fn severity_level(severity: u8) -> (r: u8)
    ensures
        r == level_of(severity),
        1 <= r <= 5,
{
    if severity >= 21 {
        1
    } else if severity >= 17 {
        2
    } else if severity >= 13 {
        3
    } else if severity >= 9 {
        4
    } else {
        5
    }
}

pub open spec fn level_digit(level: u8) -> char {
    if level == 1 {
        '1'
    } else if level == 2 {
        '2'
    } else if level == 3 {
        '3'
    } else if level == 4 {
        '4'
    } else {
        '5'
    }
}

/// The tracepoint for a provider and level: `<provider>_L<level>K1`
/// (the keyword is always 1).
pub open spec fn tracepoint_name_of(provider: Seq<char>, level: u8) -> Seq<char> {
    provider + seq!['_', 'L', level_digit(level), 'K', '1']
}

pub fn tracepoint_name(provider: &str, level: u8) -> (r: String)
    requires
        1 <= level <= 5,
    ensures
        r@ == tracepoint_name_of(provider@, level),
{
    let suffix = if level == 1 {
        "_L1K1"
    } else if level == 2 {
        "_L2K1"
    } else if level == 3 {
        "_L3K1"
    } else if level == 4 {
        "_L4K1"
    } else {
        "_L5K1"
    };
    proof {
        reveal_strlit("_L1K1");
        reveal_strlit("_L2K1");
        reveal_strlit("_L3K1");
        reveal_strlit("_L4K1");
        reveal_strlit("_L5K1");
    }
    assert(suffix@ =~= seq!['_', 'L', level_digit(level), 'K', '1']);
    let mut r = String::from_str(provider);
    r.append(suffix);
    r
}

} // verus!
