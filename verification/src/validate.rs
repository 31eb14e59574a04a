//! Validation of the user-supplied variable prefix: it must consist of
//! exactly two characters, both ASCII alphabetic, counted by Unicode
//! scalar value rather than by byte.

use vstd::prelude::*;

verus! {

/// Why a proposed variable prefix was rejected.
#[derive(Clone, Debug, PartialEq, Eq, Structural)]
pub enum ValidationError {
    /// The prefix does not have exactly two characters; carries the count found.
    WrongLength { found: usize },
    /// A character of the prefix is not ASCII alphabetic; carries the
    /// character and its position.
    NonAlphabetic { character: char, position: usize },
}

/// An ASCII alphabetic character: a letter in `A..=Z` or `a..=z`.
pub open spec fn is_ascii_alpha(c: char) -> bool {
    (65 <= c as u32 && c as u32 <= 90) || (97 <= c as u32 && c as u32 <= 122)
}

/// A well-formed variable prefix: exactly two characters, both ASCII alphabetic.
pub open spec fn is_valid_prefix(s: Seq<char>) -> bool {
    s.len() == 2 && is_ascii_alpha(s[0]) && is_ascii_alpha(s[1])
}

/// Runtime test for [`is_ascii_alpha`].
pub fn is_ascii_alpha_char(c: char) -> (r: bool)
    ensures
        r == is_ascii_alpha(c),
{
    let u = c as u32;
    (65 <= u && u <= 90) || (97 <= u && u <= 122)
}

/// Validates a variable prefix: succeeds exactly on strings of two ASCII
/// alphabetic characters, and reports the specific violated rule otherwise.
pub fn var_prefix_str(s: &str) -> (r: Result<String, ValidationError>)
    ensures
        r is Ok <==> is_valid_prefix(s@),
        r is Ok ==> r.unwrap()@ == s@,
        s@.len() != 2 ==> r == Err::<String, ValidationError>(ValidationError::WrongLength {
            found: s@.len() as usize,
        }),
        s@.len() == 2 && !is_ascii_alpha(s@[0]) ==> r == Err::<String, ValidationError>(
            ValidationError::NonAlphabetic { character: s@[0], position: 0 },
        ),
        s@.len() == 2 && is_ascii_alpha(s@[0]) && !is_ascii_alpha(s@[1]) ==> r == Err::<
            String,
            ValidationError,
        >(ValidationError::NonAlphabetic { character: s@[1], position: 1 }),
{
    let len = s.unicode_len();
    if len != 2 {
        return Err(ValidationError::WrongLength { found: len });
    }
    let c0 = s.get_char(0);
    if !is_ascii_alpha_char(c0) {
        return Err(ValidationError::NonAlphabetic { character: c0, position: 0 });
    }
    let c1 = s.get_char(1);
    if !is_ascii_alpha_char(c1) {
        return Err(ValidationError::NonAlphabetic { character: c1, position: 1 });
    }
    Ok(s.to_owned())
}

} // verus!
