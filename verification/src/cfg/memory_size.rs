//! Memory sizes in configuration: a number of bytes, with an optional unit, or a percentage
//! of the memory available to the process.
use sysinfo::System;
use vstd::prelude::*;

use crate::text::{decimal, lemma_decimal_digits, u64_to_decimal, push_char, all_digits, digits_value, is_ascii_whitespace, is_ascii_ws, is_digit, parse_unsigned, parse_unsigned_bounded};

verus! {

#[derive(Debug, Copy, Clone, PartialEq, Eq, Structural)]
pub enum MemorySize {
    Bytes(u64),
    Percent(u8),
}

/// Why a memory size was refused.
#[derive(Debug, Copy, Clone, PartialEq, Eq, Structural)]
pub enum MemorySizeError {
    /// The number before the unit (or the whole text) is not an integer in range.
    NotANumber,
    /// The unit is not one of b, kb, kib, mb, mib, gb, gib, tb, tib (in any case) or `%`.
    UnknownSuffix,
    /// The number of bytes does not fit 64 bits.
    TooLarge,
}

/// Whether `c` lower-cases (`char::to_lowercase`) to the ASCII lower-case letter `x`.
pub open spec fn folds_to(c: char, x: char) -> bool {
    c == x || (c as int) == (x as int) - 32 || (x == 'k' && c == '\u{212A}')
}

/// Whether `s` lower-cases to the ASCII lower-case word `w`.
pub open spec fn folds_to_word(s: Seq<char>, w: Seq<char>) -> bool {
    s.len() == w.len() && forall|i: int| 0 <= i < s.len() ==> folds_to(#[trigger] s[i], w[i])
}

/// The multiplier of a unit suffix.
pub open spec fn unit_multiplier(suffix: Seq<char>) -> Option<u64> {
    if folds_to_word(suffix, seq!['b']) {
        Some(1)
    } else if folds_to_word(suffix, seq!['k', 'b']) {
        Some(1000)
    } else if folds_to_word(suffix, seq!['k', 'i', 'b']) {
        Some(1024)
    } else if folds_to_word(suffix, seq!['m', 'b']) {
        Some(1_000_000)
    } else if folds_to_word(suffix, seq!['m', 'i', 'b']) {
        Some(1_048_576)
    } else if folds_to_word(suffix, seq!['g', 'b']) {
        Some(1_000_000_000)
    } else if folds_to_word(suffix, seq!['g', 'i', 'b']) {
        Some(1_073_741_824)
    } else if folds_to_word(suffix, seq!['t', 'b']) {
        Some(1_000_000_000_000)
    } else if folds_to_word(suffix, seq!['t', 'i', 'b']) {
        Some(1_099_511_627_776)
    } else {
        None
    }
}

/// The text without underscores and ASCII whitespace.
pub open spec fn strip_separators(s: Seq<char>) -> Seq<char>
    decreases s.len(),
{
    if s.len() == 0 {
        Seq::empty()
    } else {
        let r = strip_separators(s.drop_last());
        if s.last() == '_' || is_ascii_ws(s.last()) {
            r
        } else {
            r.push(s.last())
        }
    }
}

/// `i` is the position of the first character of `s` that is not an ASCII digit.
pub open spec fn is_first_non_digit(s: Seq<char>, i: int) -> bool {
    &&& 0 <= i < s.len()
    &&& !is_digit(s[i])
    &&& forall|j: int| 0 <= j < i ==> is_digit(#[trigger] s[j])
}

/// What a memory size text means: digits, then optionally `%` or a byte unit.
pub open spec fn parse_memory_size(text: Seq<char>) -> Result<MemorySize, MemorySizeError> {
    let v = strip_separators(text);
    if exists|i: int| is_first_non_digit(v, i) {
        let i = choose|i: int| is_first_non_digit(v, i);
        let prefix = v.subrange(0, i);
        let suffix = v.subrange(i, v.len() as int);
        if suffix == seq!['%'] {
            match parse_unsigned(prefix, 255) {
                Some(p) => Ok(MemorySize::Percent(p as u8)),
                None => Err(MemorySizeError::NotANumber),
            }
        } else {
            match unit_multiplier(suffix) {
                None => Err(MemorySizeError::UnknownSuffix),
                Some(m) => match parse_unsigned(prefix, u64::MAX as nat) {
                    None => Err(MemorySizeError::NotANumber),
                    Some(n) => if n * m > u64::MAX {
                        Err(MemorySizeError::TooLarge)
                    } else {
                        Ok(MemorySize::Bytes((n * m) as u64))
                    },
                },
            }
        }
    } else {
        match parse_unsigned(v, u64::MAX as nat) {
            Some(n) => Ok(MemorySize::Bytes(n as u64)),
            None => Err(MemorySizeError::NotANumber),
        }
    }
}

/// A text without underscores or ASCII whitespace keeps all its characters.
proof fn lemma_strip_plain(s: Seq<char>)
    requires
        forall|i: int| 0 <= i < s.len() ==> #[trigger] s[i] != '_' && !is_ascii_ws(s[i]),
    ensures
        strip_separators(s) == s,
    decreases s.len(),
{
    if s.len() > 0 {
        lemma_strip_plain(s.drop_last());
        assert(s.drop_last().push(s.last()) =~= s);
    }
}

/// Digits followed by a unit that is not `%`: the number times the unit's multiplier.
proof fn lemma_digits_then_unit(d: Seq<char>, u: Seq<char>, m: u64)
    requires
        d.len() > 0,
        all_digits(d),
        u.len() > 0,
        !is_digit(u[0]),
        forall|i: int| 0 <= i < u.len() ==> #[trigger] u[i] != '_' && !is_ascii_ws(u[i]),
        u != seq!['%'],
        unit_multiplier(u) == Some(m),
        m >= 1,
    ensures
        digits_value(d) * m <= u64::MAX ==> parse_memory_size(d + u) == Ok::<MemorySize, MemorySizeError>(
            MemorySize::Bytes((digits_value(d) * m) as u64),
        ),
{
    let s = d + u;
    assert forall|i: int| 0 <= i < s.len() implies #[trigger] s[i] != '_' && !is_ascii_ws(s[i]) by {
        if i < d.len() {
            assert(is_digit(d[i]));
        } else {
            assert(s[i] == u[i - d.len()]);
        }
    }
    lemma_strip_plain(s);
    assert(is_first_non_digit(s, d.len() as int));
    let k = choose|k: int| is_first_non_digit(s, k);
    if k < d.len() {
        assert(is_digit(s[k]));
    } else if k > d.len() {
        assert(is_digit(s[d.len() as int]));
    }
    assert(s.subrange(0, d.len() as int) =~= d);
    assert(s.subrange(d.len() as int, s.len() as int) =~= u);
    if digits_value(d) * m <= u64::MAX {
        assert(digits_value(d) <= digits_value(d) * m) by (nonlinear_arith)
            requires
                m >= 1,
        ;
        assert(d[0] != '+') by {
            assert(is_digit(d[0]));
        }
    }
}

/// A unit written in any case: its letters, none of them a digit, an underscore or
/// whitespace.
proof fn lemma_unit_letters(u: Seq<char>, w: Seq<char>)
    requires
        folds_to_word(u, w),
        w.len() > 0,
        forall|i: int| 0 <= i < w.len() ==> 'a' <= #[trigger] w[i] <= 'z',
    ensures
        u.len() > 0,
        !is_digit(u[0]),
        forall|i: int| 0 <= i < u.len() ==> #[trigger] u[i] != '_' && !is_ascii_ws(u[i]),
        u != seq!['%'],
{
    assert(folds_to(u[0], w[0]));
    assert forall|i: int| 0 <= i < u.len() implies #[trigger] u[i] != '_' && !is_ascii_ws(u[i]) by {
        assert(folds_to(u[i], w[i]));
    }
    if u == seq!['%'] {
        assert(u[0] == '%');
    }
}

/// Each unit, in any case, multiplies the number before it by its documented factor, as
/// long as the product fits in 64 bits: b = 1, kb = 10^3, kib = 2^10, mb = 10^6,
/// mib = 2^20, gb = 10^9, gib = 2^30, tb = 10^12 and tib = 2^40 bytes. A bare number is
/// that many bytes, and a number with `%` is that percentage.
pub proof fn lemma_memory_units(d: Seq<char>)
    requires
        d.len() > 0,
        all_digits(d),
    ensures
        digits_value(d) <= u64::MAX ==> parse_memory_size(d) == Ok::<MemorySize, MemorySizeError>(
            MemorySize::Bytes(digits_value(d) as u64),
        ),
        digits_value(d) <= 255 ==> parse_memory_size(d + seq!['%']) == Ok::<MemorySize, MemorySizeError>(
            MemorySize::Percent(digits_value(d) as u8),
        ),
        forall|u: Seq<char>| folds_to_word(u, seq!['b']) && digits_value(d) <= u64::MAX
            ==> #[trigger] parse_memory_size(d + u) == Ok::<MemorySize, MemorySizeError>(
            MemorySize::Bytes(digits_value(d) as u64),
        ),
        forall|u: Seq<char>| folds_to_word(u, seq!['k', 'b']) && digits_value(d) * 1000 <= u64::MAX
            ==> #[trigger] parse_memory_size(d + u) == Ok::<MemorySize, MemorySizeError>(
            MemorySize::Bytes((digits_value(d) * 1000) as u64),
        ),
        forall|u: Seq<char>| folds_to_word(u, seq!['k', 'i', 'b']) && digits_value(d) * 1024 <= u64::MAX
            ==> #[trigger] parse_memory_size(d + u) == Ok::<MemorySize, MemorySizeError>(
            MemorySize::Bytes((digits_value(d) * 1024) as u64),
        ),
        forall|u: Seq<char>| folds_to_word(u, seq!['m', 'b']) && digits_value(d) * 1000000 <= u64::MAX
            ==> #[trigger] parse_memory_size(d + u) == Ok::<MemorySize, MemorySizeError>(
            MemorySize::Bytes((digits_value(d) * 1000000) as u64),
        ),
        forall|u: Seq<char>| folds_to_word(u, seq!['m', 'i', 'b']) && digits_value(d) * 1048576 <= u64::MAX
            ==> #[trigger] parse_memory_size(d + u) == Ok::<MemorySize, MemorySizeError>(
            MemorySize::Bytes((digits_value(d) * 1048576) as u64),
        ),
        forall|u: Seq<char>| folds_to_word(u, seq!['g', 'b']) && digits_value(d) * 1000000000 <= u64::MAX
            ==> #[trigger] parse_memory_size(d + u) == Ok::<MemorySize, MemorySizeError>(
            MemorySize::Bytes((digits_value(d) * 1000000000) as u64),
        ),
        forall|u: Seq<char>| folds_to_word(u, seq!['g', 'i', 'b']) && digits_value(d) * 1073741824 <= u64::MAX
            ==> #[trigger] parse_memory_size(d + u) == Ok::<MemorySize, MemorySizeError>(
            MemorySize::Bytes((digits_value(d) * 1073741824) as u64),
        ),
        forall|u: Seq<char>| folds_to_word(u, seq!['t', 'b']) && digits_value(d) * 1000000000000 <= u64::MAX
            ==> #[trigger] parse_memory_size(d + u) == Ok::<MemorySize, MemorySizeError>(
            MemorySize::Bytes((digits_value(d) * 1000000000000) as u64),
        ),
        forall|u: Seq<char>| folds_to_word(u, seq!['t', 'i', 'b']) && digits_value(d) * 1099511627776 <= u64::MAX
            ==> #[trigger] parse_memory_size(d + u) == Ok::<MemorySize, MemorySizeError>(
            MemorySize::Bytes((digits_value(d) * 1099511627776) as u64),
        ),
{
    lemma_memory_bare_and_percent(d);
    lemma_unit_law(d, seq!['b'], 1);
    lemma_unit_law(d, seq!['k', 'b'], 1000);
    lemma_unit_law(d, seq!['k', 'i', 'b'], 1024);
    lemma_unit_law(d, seq!['m', 'b'], 1000000);
    lemma_unit_law(d, seq!['m', 'i', 'b'], 1048576);
    lemma_unit_law(d, seq!['g', 'b'], 1000000000);
    lemma_unit_law(d, seq!['g', 'i', 'b'], 1073741824);
    lemma_unit_law(d, seq!['t', 'b'], 1000000000000);
    lemma_unit_law(d, seq!['t', 'i', 'b'], 1099511627776);
}

/// Two lower-case words that a text folds to are the same word, so the text folds to a
/// word exactly when its lower-case form equals it.
proof fn lemma_fold_same(u: Seq<char>, w: Seq<char>, x: Seq<char>)
    requires
        folds_to_word(u, w),
        forall|i: int| 0 <= i < w.len() ==> 'a' <= #[trigger] w[i] <= 'z',
        forall|i: int| 0 <= i < x.len() ==> 'a' <= #[trigger] x[i] <= 'z',
    ensures
        folds_to_word(u, x) == folds_to_word(w, x),
{
    if u.len() == x.len() {
        assert forall|i: int| 0 <= i < u.len() implies folds_to(#[trigger] u[i], x[i]) == folds_to(w[i], x[i]) by {
            assert(folds_to(u[i], w[i]));
            assert('a' <= w[i] <= 'z' && 'a' <= x[i] <= 'z');
        }
        if folds_to_word(u, x) {
            assert forall|i: int| 0 <= i < w.len() implies folds_to(#[trigger] w[i], x[i]) by {
                assert(folds_to(u[i], x[i]));
            }
        }
        if folds_to_word(w, x) {
            assert forall|i: int| 0 <= i < u.len() implies folds_to(#[trigger] u[i], x[i]) by {
                assert(folds_to(w[i], x[i]));
            }
        }
    }
}

/// A unit in any case has the multiplier of its lower-case form.
proof fn lemma_multiplier_folds(u: Seq<char>, w: Seq<char>)
    requires
        folds_to_word(u, w),
        forall|i: int| 0 <= i < w.len() ==> 'a' <= #[trigger] w[i] <= 'z',
    ensures
        unit_multiplier(u) == unit_multiplier(w),
{
    lemma_fold_same(u, w, seq!['b']);
    lemma_fold_same(u, w, seq!['k', 'b']);
    lemma_fold_same(u, w, seq!['k', 'i', 'b']);
    lemma_fold_same(u, w, seq!['m', 'b']);
    lemma_fold_same(u, w, seq!['m', 'i', 'b']);
    lemma_fold_same(u, w, seq!['g', 'b']);
    lemma_fold_same(u, w, seq!['g', 'i', 'b']);
    lemma_fold_same(u, w, seq!['t', 'b']);
    lemma_fold_same(u, w, seq!['t', 'i', 'b']);
}

/// Every spelling of the lower-case unit `w` multiplies the digits before it by `m`.
proof fn lemma_unit_law(d: Seq<char>, w: Seq<char>, m: u64)
    requires
        d.len() > 0,
        all_digits(d),
        w.len() > 0,
        forall|i: int| 0 <= i < w.len() ==> 'a' <= #[trigger] w[i] <= 'z',
        unit_multiplier(w) == Some(m),
        m >= 1,
    ensures
        forall|u: Seq<char>| folds_to_word(u, w) && digits_value(d) * m <= u64::MAX
            ==> #[trigger] parse_memory_size(d + u) == Ok::<MemorySize, MemorySizeError>(
            MemorySize::Bytes((digits_value(d) * m) as u64),
        ),
{
    assert forall|u: Seq<char>| folds_to_word(u, w) && digits_value(d) * m <= u64::MAX
        implies #[trigger] parse_memory_size(d + u) == Ok::<MemorySize, MemorySizeError>(
        MemorySize::Bytes((digits_value(d) * m) as u64),
    ) by {
        lemma_unit_letters(u, w);
        lemma_multiplier_folds(u, w);
        lemma_digits_then_unit(d, u, m);
    }
}

/// A bare number of bytes, and a percentage.
proof fn lemma_memory_bare_and_percent(d: Seq<char>)
    requires
        d.len() > 0,
        all_digits(d),
    ensures
        digits_value(d) <= u64::MAX ==> parse_memory_size(d) == Ok::<MemorySize, MemorySizeError>(
            MemorySize::Bytes(digits_value(d) as u64),
        ),
        digits_value(d) <= 255 ==> parse_memory_size(d + seq!['%']) == Ok::<MemorySize, MemorySizeError>(
            MemorySize::Percent(digits_value(d) as u8),
        ),
{
    assert(is_digit(d[0]));
    assert forall|i: int| 0 <= i < d.len() implies #[trigger] d[i] != '_' && !is_ascii_ws(d[i]) by {
        assert(is_digit(d[i]));
    }
    lemma_strip_plain(d);
    assert forall|i: int| !is_first_non_digit(d, i) by {
        if 0 <= i < d.len() {
            assert(is_digit(d[i]));
        }
    }
    let s = d + seq!['%'];
    assert forall|i: int| 0 <= i < s.len() implies #[trigger] s[i] != '_' && !is_ascii_ws(s[i]) by {
        if i < d.len() {
            assert(is_digit(d[i]));
        }
    }
    lemma_strip_plain(s);
    assert(is_first_non_digit(s, d.len() as int));
    let k = choose|k: int| is_first_non_digit(s, k);
    if k < d.len() {
        assert(is_digit(s[k]));
    } else if k > d.len() {
        assert(is_digit(s[d.len() as int]));
    }
    assert(s.subrange(0, d.len() as int) =~= d);
    assert(s.subrange(d.len() as int, s.len() as int) =~= seq!['%']);
}

/// Number of bytes that a size means, given the memory available to the process.
pub open spec fn size_in_bytes(size: MemorySize, system_memory: u64) -> int {
    match size {
        MemorySize::Bytes(b) => b as int,
        MemorySize::Percent(p) => if system_memory == 0 {
            33554432int
        } else {
            (p as int) * (system_memory as int) / 100
        },
    }
}

fn strip_separator_chars(s: &[char]) -> (v: Vec<char>)
    ensures
        v@ == strip_separators(s@),
{
    let mut v: Vec<char> = Vec::new();
    let mut i: usize = 0;
    while i < s.len()
        invariant
            i <= s@.len(),
            v@ == strip_separators(s@.subrange(0, i as int)),
        decreases s@.len() - i,
    {
        let c = s[i];
        proof {
            assert(s@.subrange(0, i + 1).drop_last() =~= s@.subrange(0, i as int));
        }
        if !(c == '_' || is_ascii_whitespace(c)) {
            v.push(c);
        }
        i = i + 1;
    }
    assert(s@.subrange(0, i as int) =~= s@);
    v
}

fn folds(c: char, x: char) -> (b: bool)
    requires
        'a' <= x <= 'z',
    ensures
        b == folds_to(c, x),
{
    let upper = ((x as u8) - 32) as char;
    c == x || c == upper || (x == 'k' && c == '\u{212A}')
}

fn folds_word(s: &[char], w: &[char]) -> (b: bool)
    requires
        forall|i: int| 0 <= i < w@.len() ==> 'a' <= #[trigger] w@[i] <= 'z',
    ensures
        b == folds_to_word(s@, w@),
{
    if s.len() != w.len() {
        return false;
    }
    let mut i: usize = 0;
    while i < s.len()
        invariant
            s@.len() == w@.len(),
            i <= s@.len(),
            forall|i: int| 0 <= i < w@.len() ==> 'a' <= #[trigger] w@[i] <= 'z',
            forall|j: int| 0 <= j < i ==> folds_to(#[trigger] s@[j], w@[j]),
        decreases s@.len() - i,
    {
        if !folds(s[i], w[i]) {
            return false;
        }
        i = i + 1;
    }
    true
}

fn multiplier_of(suffix: &[char]) -> (r: Option<u64>)
    ensures
        r == unit_multiplier(suffix@),
{
    let b = ['b'];
    let kb = ['k', 'b'];
    let kib = ['k', 'i', 'b'];
    let mb = ['m', 'b'];
    let mib = ['m', 'i', 'b'];
    let gb = ['g', 'b'];
    let gib = ['g', 'i', 'b'];
    let tb = ['t', 'b'];
    let tib = ['t', 'i', 'b'];
    assert(b@ =~= seq!['b']);
    assert(kb@ =~= seq!['k', 'b']);
    assert(kib@ =~= seq!['k', 'i', 'b']);
    assert(mb@ =~= seq!['m', 'b']);
    assert(mib@ =~= seq!['m', 'i', 'b']);
    assert(gb@ =~= seq!['g', 'b']);
    assert(gib@ =~= seq!['g', 'i', 'b']);
    assert(tb@ =~= seq!['t', 'b']);
    assert(tib@ =~= seq!['t', 'i', 'b']);
    if folds_word(suffix, &b) {
        Some(1)
    } else if folds_word(suffix, &kb) {
        Some(1000)
    } else if folds_word(suffix, &kib) {
        Some(1024)
    } else if folds_word(suffix, &mb) {
        Some(1_000_000)
    } else if folds_word(suffix, &mib) {
        Some(1_048_576)
    } else if folds_word(suffix, &gb) {
        Some(1_000_000_000)
    } else if folds_word(suffix, &gib) {
        Some(1_073_741_824)
    } else if folds_word(suffix, &tb) {
        Some(1_000_000_000_000)
    } else if folds_word(suffix, &tib) {
        Some(1_099_511_627_776)
    } else {
        None
    }
}

fn first_non_digit(s: &[char]) -> (r: Option<usize>)
    ensures
        r matches Some(i) ==> is_first_non_digit(s@, i as int),
        r is None ==> forall|i: int| !is_first_non_digit(s@, i),
{
    let mut i: usize = 0;
    while i < s.len()
        invariant
            i <= s@.len(),
            forall|j: int| 0 <= j < i ==> is_digit(#[trigger] s@[j]),
        decreases s@.len() - i,
    {
        if !('0' <= s[i] && s[i] <= '9') {
            return Some(i);
        }
        i = i + 1;
    }
    proof {
        assert forall|k: int| !is_first_non_digit(s@, k) by {
            if 0 <= k < s@.len() {
                assert(is_digit(s@[k]));
            }
        }
    }
    None
}

#[verifier::external_type_specification]
#[verifier::external_body]
pub struct ExSystem(System);

/// `sysinfo::System::new_all`: a snapshot of the machine, where sysinfo can take one.
#[verifier::external_body]
fn load_system() -> Option<System> {
    System::new_all().ok()
}

/// `System::cgroup_limits`: the memory limit of the process's cgroup, where there is one.
#[verifier::external_body]
fn cgroup_memory_limit(sys: &System) -> Option<u64> {
    sys.cgroup_limits().map(|limits| limits.total_memory)
}

/// `System::total_memory`: the machine's RAM in bytes.
#[verifier::external_body]
fn total_memory(sys: &System) -> u64 {
    sys.total_memory()
}

/// The memory available to the process, from what sysinfo reported: 0 where it could not
/// take a snapshot of the machine; else the process's cgroup limit where it has one, and
/// the machine's RAM where it has none.
pub open spec fn memory_choice(loaded: bool, cgroup_limit: Option<u64>, total: u64) -> u64 {
    if !loaded {
        0
    } else {
        match cgroup_limit {
            Some(limit) => limit,
            None => total,
        }
    }
}

/// Picks the memory available to the process from what sysinfo reported.
pub fn available_memory(loaded: bool, cgroup_limit: Option<u64>, total: u64) -> (r: u64)
    ensures
        r == memory_choice(loaded, cgroup_limit, total),
{
    if !loaded {
        0
    } else {
        match cgroup_limit {
            Some(limit) => limit,
            None => total,
        }
    }
}

/// The memory available to the process, as sysinfo reports it on this machine (see
/// `available_memory` for the choice made from what it reports).
fn system_memory() -> u64 {
    match load_system() {
        None => available_memory(false, None, 0),
        Some(sys) => {
            let limit = cgroup_memory_limit(&sys);
            let total = total_memory(&sys);
            available_memory(true, limit, total)
        },
    }
}

impl MemorySize {
    /// Reads a memory size: `1024`, `1_024 KiB`, `10mb`, `50%`, ...
    pub fn parse(text: &str) -> (r: Result<MemorySize, MemorySizeError>)
        ensures
            r == parse_memory_size(text@),
    {
        let chars = crate::text::chars_of(text);
        let v = strip_separator_chars(&chars);
        match first_non_digit(&v) {
            Some(i) => {
                proof {
                    let k = choose|k: int| is_first_non_digit(v@, k);
                    if k < i {
                        assert(is_digit(v@[k]));
                    } else if i < k {
                        assert(is_digit(v@[i as int]));
                    }
                }
                let prefix = crate::text::sub_chars(&v, 0, i);
                let suffix = crate::text::sub_chars(&v, i, v.len());
                if suffix.len() == 1 && suffix[0] == '%' {
                    assert(suffix@ =~= seq!['%']);
                    match parse_unsigned_bounded(&prefix, 255) {
                        Some(p) => Ok(MemorySize::Percent(p as u8)),
                        None => Err(MemorySizeError::NotANumber),
                    }
                } else {
                    assert(suffix@ != seq!['%']);
                    match multiplier_of(&suffix) {
                        None => Err(MemorySizeError::UnknownSuffix),
                        Some(m) => match parse_unsigned_bounded(&prefix, u64::MAX) {
                            None => Err(MemorySizeError::NotANumber),
                            Some(n) => match n.checked_mul(m) {
                                None => Err(MemorySizeError::TooLarge),
                                Some(b) => Ok(MemorySize::Bytes(b)),
                            },
                        },
                    }
                }
            },
            None => match parse_unsigned_bounded(&v, u64::MAX) {
                Some(n) => Ok(MemorySize::Bytes(n)),
                None => Err(MemorySizeError::NotANumber),
            },
        }
    }

    /// The size of fjall's default block cache (32 MiB).
    pub fn fjall_default_cache() -> (r: MemorySize)
        ensures
            r == MemorySize::Bytes(33554432u64),
    {
        MemorySize::Bytes(32 * 1024 * 1024)
    }

    /// Number of bytes, given the memory available to the process (0 where unknown, in
    /// which case a percentage falls back to fjall's default cache size).
    pub fn as_bytes_with_memory(&self, system_memory: u64) -> (r: u64)
        requires
            self matches MemorySize::Percent(p) ==> (p as int) * (system_memory as int) <= u64::MAX,
        ensures
            r == size_in_bytes(*self, system_memory),
    {
        match self {
            MemorySize::Percent(pct) => {
                if system_memory == 0 {
                    match Self::fjall_default_cache() {
                        MemorySize::Bytes(b) => b,
                        MemorySize::Percent(_) => 0,
                    }
                } else {
                    (*pct as u64) * system_memory / 100
                }
            },
            MemorySize::Bytes(bytes) => *bytes,
        }
    }

    /// Number of bytes, against the memory available to this process. A percentage whose
    /// byte count would not fit 64 bits gives `u64::MAX`.
    pub fn as_bytes(&self) -> (r: u64)
        ensures
            self matches MemorySize::Bytes(b) ==> r == b,
            self matches MemorySize::Percent(p) ==> exists|m: u64| #[trigger] percent_outcome(*p, m, r),
    {
        match self {
            MemorySize::Percent(p) => {
                let memory = system_memory();
                if (*p as u64).checked_mul(memory).is_none() {
                    assert(percent_outcome(*p, memory, u64::MAX));
                    return u64::MAX;
                }
                let r = self.as_bytes_with_memory(memory);
                assert(percent_outcome(*p, memory, r));
                r
            },
            MemorySize::Bytes(b) => *b,
        }
    }
}

/// What a percentage comes to against `memory` bytes: its share, or `u64::MAX` where that
/// cannot be computed in 64 bits.
pub open spec fn percent_outcome(p: u8, memory: u64, r: u64) -> bool {
    if (p as int) * (memory as int) > u64::MAX {
        r == u64::MAX
    } else {
        r as int == size_in_bytes(MemorySize::Percent(p), memory)
    }
}


/// How a memory size is written back: its number of bytes, or its percentage with `%`.
pub open spec fn memory_size_text(m: MemorySize) -> Seq<char> {
    match m {
        MemorySize::Bytes(b) => decimal(b as nat),
        MemorySize::Percent(p) => decimal(p as nat).push('%'),
    }
}

impl MemorySize {
    /// The text that a memory size is written as.
    pub fn to_text(&self) -> (s: String)
        ensures
            s@ == memory_size_text(*self),
    {
        match self {
            MemorySize::Bytes(b) => u64_to_decimal(*b),
            MemorySize::Percent(p) => {
                let mut s = u64_to_decimal(*p as u64);
                push_char(&mut s, '%');
                s
            },
        }
    }
}

proof fn lemma_strip_keeps_plain(s: Seq<char>)
    requires
        forall|i: int| 0 <= i < s.len() ==> #[trigger] s[i] != '_' && !is_ascii_ws(s[i]),
    ensures
        strip_separators(s) == s,
    decreases s.len(),
{
    if s.len() > 0 {
        lemma_strip_keeps_plain(s.drop_last());
        assert(s.drop_last().push(s.last()) =~= s);
    }
}

proof fn lemma_decimal_plain(n: nat)
    ensures
        forall|i: int| 0 <= i < decimal(n).len() ==> #[trigger] decimal(n)[i] != '_' && !is_ascii_ws(decimal(n)[i]),
        parse_unsigned(decimal(n), n) == Some(n),
        forall|max: nat| n <= max ==> #[trigger] parse_unsigned(decimal(n), max) == Some(n),
{
    lemma_decimal_digits(n);
    assert forall|i: int| 0 <= i < decimal(n).len() implies #[trigger] decimal(n)[i] != '_' && !is_ascii_ws(decimal(n)[i]) by {
        assert(is_digit(decimal(n)[i]));
    }
}

/// Writing a memory size and reading the text back gives the same size.
pub proof fn lemma_memory_size_round_trip(m: MemorySize)
    ensures
        parse_memory_size(memory_size_text(m)) == Ok::<MemorySize, MemorySizeError>(m),
{
    match m {
        MemorySize::Bytes(b) => {
            let t = decimal(b as nat);
            lemma_decimal_plain(b as nat);
            lemma_decimal_digits(b as nat);
            lemma_strip_keeps_plain(t);
            assert forall|i: int| !is_first_non_digit(t, i) by {
                if 0 <= i < t.len() {
                    assert(is_digit(t[i]));
                }
            }
            assert(parse_unsigned(t, u64::MAX as nat) == Some(b as nat));
        },
        MemorySize::Percent(p) => {
            let d = decimal(p as nat);
            let t = d.push('%');
            lemma_decimal_plain(p as nat);
            lemma_decimal_digits(p as nat);
            assert forall|i: int| 0 <= i < t.len() implies #[trigger] t[i] != '_' && !is_ascii_ws(t[i]) by {
                if i < d.len() {
                    assert(t[i] == d[i]);
                }
            }
            lemma_strip_keeps_plain(t);
            let k = d.len() as int;
            assert forall|j: int| 0 <= j < k implies is_digit(#[trigger] t[j]) by {
                assert(t[j] == d[j]);
            }
            assert(is_first_non_digit(t, k));
            let c = choose|c: int| is_first_non_digit(t, c);
            if c < k {
                assert(is_digit(t[c]));
            } else if k < c {
                assert(is_digit(t[k]));
            }
            assert(t.subrange(0, k) =~= d);
            assert(t.subrange(k, t.len() as int) =~= seq!['%']);
            assert(parse_unsigned(d, 255) == Some(p as nat));
        },
    }
}

impl std::str::FromStr for MemorySize {
    type Err = MemorySizeError;

    fn from_str(s: &str) -> (r: Result<MemorySize, MemorySizeError>)
        ensures
            r == parse_memory_size(s@),
    {
        MemorySize::parse(s)
    }
}

} // verus!
