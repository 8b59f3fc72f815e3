use vstd::prelude::*;
use vstd::utf8::encode_utf8;

use crate::error::ContractError;

verus! {

/// Fewest bytes a member name may have.
pub const MIN_NAME_LENGTH: u64 = 3;

/// Most bytes a member name may have.
pub const MAX_NAME_LENGTH: u64 = 64;

/// A character a member name may hold: a digit, a lowercase ASCII letter, `.`, `-` or `_`.
pub open spec fn is_name_char(c: char) -> bool {
    ('0' <= c && c <= '9') || ('a' <= c && c <= 'z') || c == '.' || c == '-' || c == '_'
}

/// Length of a name in bytes, as UTF-8.
pub open spec fn byte_len(s: Seq<char>) -> nat {
    encode_utf8(s).len()
}

/// `i` is the position of the first character of `s` that a name may not hold.
pub open spec fn first_invalid_at(s: Seq<char>, i: int) -> bool {
    &&& 0 <= i < s.len()
    &&& !is_name_char(s[i])
    &&& forall|j: int| 0 <= j < i ==> is_name_char(#[trigger] s[j])
}

/// Every character of `s` may stand in a name.
pub open spec fn all_name_chars(s: Seq<char>) -> bool {
    forall|i: int| 0 <= i < s.len() ==> is_name_char(#[trigger] s[i])
}

/// The verdict on a candidate name: the length in bytes is checked first, short before
/// long, and only then the characters, from left to right.
pub open spec fn name_check(s: Seq<char>) -> Result<(), ContractError> {
    if byte_len(s) < MIN_NAME_LENGTH {
        Err(ContractError::NameTooShort { length: byte_len(s) as u64, min_length: MIN_NAME_LENGTH })
    } else if byte_len(s) > MAX_NAME_LENGTH {
        Err(ContractError::NameTooLong { length: byte_len(s) as u64, max_length: MAX_NAME_LENGTH })
    } else if all_name_chars(s) {
        Ok(())
    } else {
        Err(ContractError::InvalidCharacter { c: s[choose|i: int| first_invalid_at(s, i)] })
    }
}

/// The first invalid position of a name is unique.
pub proof fn lemma_first_invalid_unique(s: Seq<char>, i: int, k: int)
    requires
        first_invalid_at(s, i),
        first_invalid_at(s, k),
    ensures
        i == k,
{
    if i < k {
        assert(is_name_char(s[i]));
    } else if k < i {
        assert(is_name_char(s[k]));
    }
}

/// A name whose length is out of bounds is refused for its length, whatever its
/// characters: too short below the bound, too long above it, never for a character.
pub proof fn lemma_length_checked_first(s: Seq<char>)
    requires
        byte_len(s) < MIN_NAME_LENGTH || byte_len(s) > MAX_NAME_LENGTH,
    ensures
        byte_len(s) < MIN_NAME_LENGTH ==> name_check(s) is Err && name_check(s)->Err_0 is NameTooShort,
        byte_len(s) > MAX_NAME_LENGTH ==> name_check(s) is Err && name_check(s)->Err_0 is NameTooLong,
        !(name_check(s) is Err && name_check(s)->Err_0 is InvalidCharacter),
{
}

/// A name of allowed length that holds a character outside the allowed set is refused
/// with the first such character, scanning from the left.
pub proof fn lemma_first_invalid_reported(s: Seq<char>, i: int)
    requires
        MIN_NAME_LENGTH <= byte_len(s) <= MAX_NAME_LENGTH,
        0 <= i < s.len(),
        !is_name_char(s[i]),
        forall|j: int| 0 <= j < i ==> is_name_char(#[trigger] s[j]),
    ensures
        name_check(s) == Err::<(), ContractError>(ContractError::InvalidCharacter { c: s[i] }),
{
    assert(first_invalid_at(s, i));
    let k = choose|k: int| first_invalid_at(s, k);
    lemma_first_invalid_unique(s, i, k);
}

/// Whether `c` lies outside the characters a member name may hold.
pub fn invalid_char(c: char) -> (r: bool)
    ensures
        r == !is_name_char(c),
{
    let is_valid = (c >= '0' && c <= '9') || (c >= 'a' && c <= 'z') || (c == '.' || c == '-'
        || c == '_');
    !is_valid
}

/// Checks a candidate member name: 3 to 64 bytes, each character a digit, a lowercase
/// ASCII letter, `.`, `-` or `_`.
pub fn validate_name(name: &str) -> (r: Result<(), ContractError>)
    ensures
        r == name_check(name@),
{
    let length = name.as_bytes().len() as u64;
    if length < MIN_NAME_LENGTH {
        Err(ContractError::NameTooShort { length, min_length: MIN_NAME_LENGTH })
    } else if length > MAX_NAME_LENGTH {
        Err(ContractError::NameTooLong { length, max_length: MAX_NAME_LENGTH })
    } else {
        let n = name.unicode_len();
        let mut i: usize = 0;
        while i < n
            invariant
                n == name@.len(),
                i <= n,
                MIN_NAME_LENGTH <= byte_len(name@) <= MAX_NAME_LENGTH,
                forall|j: int| 0 <= j < i ==> is_name_char(#[trigger] name@[j]),
            decreases n - i,
        {
            let c = name.get_char(i);
            if invalid_char(c) {
                proof {
                    lemma_first_invalid_reported(name@, i as int);
                }
                return Err(ContractError::InvalidCharacter { c });
            }
            i += 1;
        }
        Ok(())
    }
}

} // verus!
