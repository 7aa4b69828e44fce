//! The identifier version and the text that selects it.

use vstd::prelude::*;

verus! {

/// Which kind of identifier to generate.
#[derive(Clone, Copy, Debug, PartialEq, Eq, Structural)]
pub enum UuidVersion {
    /// Random identifier; the default.
    V4,
    /// Time-ordered identifier.
    V7,
}

/// A version argument that names no known version. It keeps the text as it
/// was given, so that a caller can report it in the user's language.
#[derive(Clone, Debug, PartialEq, Eq)]
pub struct InvalidVersionArgument {
    pub value: String,
}

/// The version that a single digit stands for.
pub open spec fn version_of_digit(c: char) -> Option<UuidVersion> {
    if c == '4' {
        Some(UuidVersion::V4)
    } else if c == '7' {
        Some(UuidVersion::V7)
    } else {
        None
    }
}

/// The version that a version argument names: the digit `4` or `7`, alone or
/// after one `v` of either case. Every other text names none.
pub open spec fn version_of_text(text: Seq<char>) -> Option<UuidVersion> {
    if text.len() == 1 {
        version_of_digit(text[0])
    } else if text.len() == 2 && (text[0] == 'v' || text[0] == 'V') {
        version_of_digit(text[1])
    } else {
        None
    }
}

/// The name `as_str` gives each version.
pub open spec fn version_name(v: UuidVersion) -> Seq<char> {
    match v {
        UuidVersion::V4 => seq!['v', '4'],
        UuidVersion::V7 => seq!['v', '7'],
    }
}

fn digit_version(c: char) -> (r: Option<UuidVersion>)
    ensures
        r == version_of_digit(c),
{
    if c == '4' {
        Some(UuidVersion::V4)
    } else if c == '7' {
        Some(UuidVersion::V7)
    } else {
        None
    }
}

impl UuidVersion {
    /// Reads a version argument. Succeeds exactly on the six texts that
    /// `version_of_text` accepts; the error carries the argument unchanged.
    pub fn parse(s: &str) -> (r: Result<UuidVersion, InvalidVersionArgument>)
        ensures
            match r {
                Ok(v) => version_of_text(s@) == Some(v),
                Err(e) => version_of_text(s@) is None && e.value@ == s@,
            },
    {
        let n: usize = s.unicode_len();
        let found = if n == 1 {
            digit_version(s.get_char(0))
        } else if n == 2 {
            let lead = s.get_char(0);
            if lead == 'v' || lead == 'V' {
                digit_version(s.get_char(1))
            } else {
                None
            }
        } else {
            None
        };
        match found {
            Some(v) => Ok(v),
            None => Err(InvalidVersionArgument { value: s.to_owned() }),
        }
    }

    /// The short name of the version: `v4` or `v7`.
    pub fn as_str(&self) -> (r: &'static str)
        ensures
            r@ == version_name(*self),
    {
        match self {
            UuidVersion::V4 => {
                proof {
                    reveal_strlit("v4");
                }
                assert("v4"@ =~= version_name(UuidVersion::V4));
                "v4"
            },
            UuidVersion::V7 => {
                proof {
                    reveal_strlit("v7");
                }
                assert("v7"@ =~= version_name(UuidVersion::V7));
                "v7"
            },
        }
    }
}

impl Default for UuidVersion {
    fn default() -> (r: UuidVersion)
        ensures
            r == UuidVersion::V4,
    {
        UuidVersion::V4
    }
}

impl std::str::FromStr for UuidVersion {
    type Err = InvalidVersionArgument;

    fn from_str(s: &str) -> (r: Result<UuidVersion, InvalidVersionArgument>)
        ensures
            match r {
                Ok(v) => version_of_text(s@) == Some(v),
                Err(e) => version_of_text(s@) is None && e.value@ == s@,
            },
    {
        UuidVersion::parse(s)
    }
}

} // verus!
