//! Reading settings from environment variables: what a variable's value, where it is set,
//! makes of a setting of milliseconds or of a list. The variables themselves are read by
//! the caller.
use vstd::prelude::*;

use crate::text::{chars_of, comma_pieces, comma_separated, parse_unsigned, parse_unsigned_bounded, trim_ascii};

verus! {

/// A variable is set but its value does not read as the setting's type.
#[derive(Clone, Copy, Debug, PartialEq, Eq, Structural)]
pub struct InvalidEnvValue;

/// A number of milliseconds from a variable: unset gives nothing; a set value must read as
/// an unsigned 64-bit integer, as `u64::from_str` reads it.
pub fn env_var_ms(value: Option<&str>) -> (r: Result<Option<u64>, InvalidEnvValue>)
    ensures
        value is None ==> r == Ok::<Option<u64>, InvalidEnvValue>(None),
        value matches Some(v) ==> (match parse_unsigned(v@, u64::MAX as nat) {
            Some(n) => r == Ok::<Option<u64>, InvalidEnvValue>(Some(n as u64)),
            None => r == Err::<Option<u64>, InvalidEnvValue>(InvalidEnvValue),
        }),
{
    match value {
        None => Ok(None),
        Some(v) => {
            let cs = chars_of(v);
            match parse_unsigned_bounded(cs.as_slice(), u64::MAX) {
                Some(n) => Ok(Some(n)),
                None => Err(InvalidEnvValue),
            }
        },
    }
}

/// A list from a variable: unset gives nothing; a set value is split at each comma and
/// each item trimmed of ASCII whitespace.
pub fn env_var_comma_separated(value: Option<&str>) -> (r: Option<Vec<String>>)
    ensures
        value is None ==> r is None,
        value matches Some(v) ==> r matches Some(items) && items@.map_values(|x: String| x@)
            == comma_pieces(v@).map_values(|p: Seq<char>| trim_ascii(p)),
{
    match value {
        None => None,
        Some(v) => Some(comma_separated(v)),
    }
}

} // verus!
