//! Checks on user-chosen identifiers (uids): their length, their characters, and that they
//! cannot be mistaken for generated ids.
use regex::Error as RegexError;
use regex::Regex;
use vstd::prelude::*;
use vstd::string::*;

use crate::text::chars_of;

verus! {

#[verifier::external_type_specification]
#[verifier::external_body]
pub struct ExRegex(Regex);

#[verifier::external_type_specification]
#[verifier::external_body]
pub struct ExRegexError(RegexError);

/// Whether `regex::Regex::new` accepts a pattern.
pub uninterp spec fn regex_compiles(pattern: Seq<char>) -> bool;

/// `regex::Regex::new`: whether it succeeds depends on the pattern alone (its syntax, and
/// the crate's size limits), named here and not restated. The compiled regex is opaque.
#[verifier::external_body]
fn compile(pattern: &str) -> (r: Result<Regex, RegexError>)
    ensures
        r is Ok <==> regex_compiles(pattern@),
{
    Regex::new(pattern)
}


/// The longest uid, in bytes.
pub const MAX_LENGTH: usize = 256;

/// The characters a uid may use, anchored to the whole text.
pub const LIMITED_STR_PATTERN: &'static str = "^[a-zA-Z0-9\\-_.:]+$";

/// The compiled pattern of uid characters. Only `LimitedStrPattern::new` makes one, so it
/// always holds the regex of `LIMITED_STR_PATTERN`.
pub struct LimitedStrPattern {
    re: Regex,
}

/// The characters that `[a-zA-Z0-9\-_.:]` matches.
pub open spec fn is_limited_char(c: char) -> bool {
    ||| ('a' <= c && c <= 'z')
    ||| ('A' <= c && c <= 'Z')
    ||| ('0' <= c && c <= '9')
    ||| c == '-' || c == '_' || c == '.' || c == ':'
}

/// What `^[a-zA-Z0-9\-_.:]+$` matches: a non-empty text of those characters only.
pub open spec fn limited_str_matches(s: Seq<char>) -> bool {
    s.len() > 0 && forall|i: int| 0 <= i < s.len() ==> is_limited_char(#[trigger] s[i])
}

/// `Regex::is_match` with the regex of uid characters. By the regex syntax that the crate
/// documents (`^` and `$` anchor at the ends of the text, `+` asks for at least one
/// character of the class), it matches exactly the non-empty texts of those characters.
#[verifier::external_body]
fn limited_str_is_match(pattern: &LimitedStrPattern, haystack: &str) -> (b: bool)
    ensures
        b == limited_str_matches(haystack@),
{
    pattern.re.is_match(haystack)
}

/// The pattern did not compile.
#[derive(Clone, Copy, Debug, PartialEq, Eq, Structural)]
pub enum PatternError {
    Invalid,
}

impl LimitedStrPattern {
    /// Compiles the pattern of uid characters; refused only where the regex crate does not
    /// accept the pattern.
    pub fn new() -> (r: Result<LimitedStrPattern, PatternError>)
        ensures
            r is Ok <==> regex_compiles(LIMITED_STR_PATTERN@),
            r matches Err(e) ==> e == PatternError::Invalid,
    {
        match compile(LIMITED_STR_PATTERN) {
            Ok(re) => Ok(LimitedStrPattern { re }),
            Err(_) => Err(PatternError::Invalid),
        }
    }
}

/// What is wrong with a uid.
#[derive(Clone, Copy, Debug, PartialEq, Eq, Structural)]
pub enum UidProblem {
    /// "String must be at least one character".
    Empty,
    /// "String too long".
    TooLong,
    /// The text uses other characters than the pattern allows.
    IllegalPattern,
    /// The uid starts with the prefix of generated ids.
    IdPrefix,
}

/// The length checks come first: an empty text, then one over `MAX_LENGTH` bytes; only a
/// text of acceptable length is held to the pattern.
pub open spec fn limited_str_spec(bytes: Seq<u8>, pattern_matches: bool) -> Option<UidProblem> {
    if bytes.len() == 0 {
        Some(UidProblem::Empty)
    } else if bytes.len() > MAX_LENGTH {
        Some(UidProblem::TooLong)
    } else if !pattern_matches {
        Some(UidProblem::IllegalPattern)
    } else {
        None
    }
}

/// The problem of a text, given whether it matches the pattern of uid characters.
pub fn limited_str_problem(s: &str, pattern_matches: bool) -> (r: Option<UidProblem>)
    ensures
        r == limited_str_spec(s.spec_bytes(), pattern_matches),
{
    let n = s.as_bytes().len();
    if n == 0 {
        Some(UidProblem::Empty)
    } else if n > MAX_LENGTH {
        Some(UidProblem::TooLong)
    } else if !pattern_matches {
        Some(UidProblem::IllegalPattern)
    } else {
        None
    }
}

/// Checks a text's length, and, where that passes, its characters against the pattern.
pub fn validate_limited_str(s: &str, pattern: &LimitedStrPattern) -> (r: Result<(), UidProblem>)
    ensures
        match limited_str_spec(s.spec_bytes(), limited_str_matches(s@)) {
            Some(p) => r == Err::<(), UidProblem>(p),
            None => r is Ok,
        },
{
    let matched = limited_str_is_match(pattern, s);
    match limited_str_problem(s, matched) {
        Some(p) => Err(p),
        None => Ok(()),
    }
}

pub open spec fn has_prefix(s: Seq<char>, prefix: Seq<char>) -> bool {
    prefix.len() <= s.len() && s.subrange(0, prefix.len() as int) == prefix
}

/// Whether `s` starts with `prefix`.
pub fn starts_with(s: &str, prefix: &str) -> (b: bool)
    ensures
        b == has_prefix(s@, prefix@),
{
    let a = chars_of(s);
    let p = chars_of(prefix);
    if p.len() > a.len() {
        return false;
    }
    let mut i: usize = 0;
    while i < p.len()
        invariant
            a@ == s@,
            p@ == prefix@,
            p@.len() <= a@.len(),
            i <= p@.len(),
            forall|j: int| 0 <= j < i ==> a@[j] == p@[j],
        decreases p@.len() - i,
    {
        if a[i] != p[i] {
            assert(a@.subrange(0, p@.len() as int)[i as int] != p@[i as int]);
            return false;
        }
        i = i + 1;
    }
    assert(a@.subrange(0, p@.len() as int) =~= p@);
    true
}

/// All the problems of a uid: that of its length or characters, if any, then that of
/// starting like a generated id.
pub open spec fn uid_problems(bytes: Seq<u8>, chars: Seq<char>, id_prefix: Seq<char>, pattern_matches: bool) -> Seq<UidProblem> {
    (match limited_str_spec(bytes, pattern_matches) {
        Some(p) => seq![p],
        None => Seq::empty(),
    }) + (if has_prefix(chars, id_prefix) {
        seq![UidProblem::IdPrefix]
    } else {
        Seq::empty()
    })
}

/// Validates a uid: it must be a limited string and must not start with the prefix of the
/// ids of its kind. Every problem found is reported.
pub fn validate_uid(s: &str, id_prefix: &str, pattern: &LimitedStrPattern) -> (r: Result<(), Vec<UidProblem>>)
    ensures
        ({
            let problems = uid_problems(s.spec_bytes(), s@, id_prefix@, limited_str_matches(s@));
            &&& problems.len() == 0 ==> r is Ok
            &&& problems.len() > 0 ==> (r matches Err(v) && v@ == problems)
        }),
{
    let matched = limited_str_is_match(pattern, s);
    let mut problems: Vec<UidProblem> = Vec::new();
    match limited_str_problem(s, matched) {
        Some(p) => problems.push(p),
        None => {},
    }
    if starts_with(s, id_prefix) {
        problems.push(UidProblem::IdPrefix);
    }
    assert(problems@ =~= uid_problems(s.spec_bytes(), s@, id_prefix@, matched));
    if problems.len() == 0 {
        Ok(())
    } else {
        Err(problems)
    }
}

} // verus!
