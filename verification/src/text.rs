//! Character-level helpers shared by the parsers of this crate.
use vstd::prelude::*;

verus! {

/// Unicode `White_Space` property, as used by `char::is_whitespace` and `str::trim`.
pub open spec fn is_unicode_whitespace(c: char) -> bool {
    ||| ('\t' <= c && c <= '\r')
    ||| c == ' '
    ||| c == '\u{85}'
    ||| c == '\u{A0}'
    ||| c == '\u{1680}'
    ||| ('\u{2000}' <= c && c <= '\u{200A}')
    ||| c == '\u{2028}'
    ||| c == '\u{2029}'
    ||| c == '\u{202F}'
    ||| c == '\u{205F}'
    ||| c == '\u{3000}'
}

/// Whether `c` has the Unicode `White_Space` property.
pub fn is_whitespace(c: char) -> (b: bool)
    ensures
        b == is_unicode_whitespace(c),
{
    ('\t' <= c && c <= '\r') || c == ' ' || c == '\u{85}' || c == '\u{A0}' || c == '\u{1680}'
        || ('\u{2000}' <= c && c <= '\u{200A}') || c == '\u{2028}' || c == '\u{2029}'
        || c == '\u{202F}' || c == '\u{205F}' || c == '\u{3000}'
}

/// ASCII whitespace as defined by `char::is_ascii_whitespace`.
pub open spec fn is_ascii_ws(c: char) -> bool {
    c == ' ' || c == '\t' || c == '\n' || c == '\x0C' || c == '\r'
}

pub fn is_ascii_whitespace(c: char) -> (b: bool)
    ensures
        b == is_ascii_ws(c),
{
    c == ' ' || c == '\t' || c == '\n' || c == '\x0C' || c == '\r'
}

pub open spec fn is_digit(c: char) -> bool {
    '0' <= c && c <= '9'
}

/// The characters of a string, in order.
pub fn chars_of(s: &str) -> (v: Vec<char>)
    ensures
        v@ == s@,
{
    let n = s.unicode_len();
    let mut v: Vec<char> = Vec::new();
    let mut i: usize = 0;
    while i < n
        invariant
            n == s@.len(),
            i <= n,
            v@ == s@.subrange(0, i as int),
        decreases n - i,
    {
        let c = s.get_char(i);
        v.push(c);
        i = i + 1;
    }
    v
}

/// Appends one character to a string.
#[verifier::external_body]
pub fn push_char(s: &mut String, c: char)
    ensures
        final(s)@ == old(s)@.push(c),
{
    s.push(c)
}

/// A string made of the given characters.
pub fn string_of(v: &[char]) -> (s: String)
    ensures
        s@ == v@,
{
    let mut s = String::new();
    let mut i: usize = 0;
    while i < v.len()
        invariant
            i <= v@.len(),
            s@ == v@.subrange(0, i as int),
        decreases v@.len() - i,
    {
        push_char(&mut s, v[i]);
        i = i + 1;
    }
    s
}


pub open spec fn digit_char(d: nat) -> char
    recommends
        d < 10,
{
    ((d + 48) as u8) as char
}

pub open spec fn digit_value(c: char) -> nat {
    (c as nat - 48) as nat
}

/// Decimal representation of a natural number, without leading zeros.
pub open spec fn decimal(n: nat) -> Seq<char>
    decreases n,
{
    if n < 10 {
        seq![digit_char(n)]
    } else {
        decimal(n / 10).push(digit_char(n % 10))
    }
}

/// Decimal representation of an integer, with a leading `-` when negative.
pub open spec fn signed_decimal(n: int) -> Seq<char> {
    if n < 0 {
        seq!['-'] + decimal((-n) as nat)
    } else {
        decimal(n as nat)
    }
}

/// The value of a run of decimal digits.
pub open spec fn digits_value(s: Seq<char>) -> nat
    decreases s.len(),
{
    if s.len() == 0 {
        0
    } else {
        digits_value(s.drop_last()) * 10 + digit_value(s.last())
    }
}

pub open spec fn all_digits(s: Seq<char>) -> bool {
    forall|i: int| 0 <= i < s.len() ==> is_digit(#[trigger] s[i])
}

/// What the standard library's unsigned integer parsing accepts: an optional `+`, then
/// one or more ASCII digits whose value does not exceed `max`.
pub open spec fn parse_unsigned(s: Seq<char>, max: nat) -> Option<nat> {
    let d = if s.len() > 0 && s[0] == '+' { s.drop_first() } else { s };
    if d.len() > 0 && all_digits(d) && digits_value(d) <= max {
        Some(digits_value(d))
    } else {
        None
    }
}

proof fn lemma_digits_value_push(s: Seq<char>, c: char)
    ensures
        digits_value(s.push(c)) == digits_value(s) * 10 + digit_value(c),
{
    assert(s.push(c).drop_last() =~= s);
}

proof fn lemma_digits_value_prefix(s: Seq<char>, k: int)
    requires
        0 <= k <= s.len(),
    ensures
        digits_value(s.subrange(0, k)) <= digits_value(s),
    decreases s.len() - k,
{
    if k < s.len() {
        lemma_digits_value_prefix(s, k + 1);
        assert(s.subrange(0, k + 1).drop_last() =~= s.subrange(0, k));
    } else {
        assert(s.subrange(0, k) =~= s);
    }
}

pub proof fn lemma_digit_char(d: nat)
    requires
        d < 10,
    ensures
        is_digit(digit_char(d)),
        digit_value(digit_char(d)) == d,
        digit_char(d) != '_' && !is_ascii_ws(digit_char(d)) && digit_char(d) != '+',
{
    let b = (d + 48) as u8;
    assert(b as int == d + 48);
    assert((b as char) as int == b as int);
}

/// The decimal text of a number is made of digits whose value is the number.
pub proof fn lemma_decimal_digits(n: nat)
    ensures
        all_digits(decimal(n)),
        digits_value(decimal(n)) == n,
        decimal(n).len() >= 1,
        decimal(n)[0] != '+',
    decreases n,
{
    if n < 10 {
        lemma_digit_char(n);
        assert(seq![digit_char(n)].drop_last() =~= Seq::<char>::empty());
        assert(digits_value(Seq::<char>::empty()) == 0);
    } else {
        lemma_decimal_digits(n / 10);
        lemma_digit_char(n % 10);
        lemma_digits_value_push(decimal(n / 10), digit_char(n % 10));
        assert(decimal(n)[0] == decimal(n / 10)[0]);
    }
}

fn digit_of(d: u64) -> (c: char)
    requires
        d < 10,
    ensures
        c == digit_char(d as nat),
{
    let b: u8 = (d as u8) + 48;
    b as char
}

/// The decimal text of an unsigned integer, as `to_string` writes it.
pub fn u64_to_decimal(n: u64) -> (s: String)
    ensures
        s@ == decimal(n as nat),
    decreases n,
{
    if n < 10 {
        let mut s = String::new();
        push_char(&mut s, digit_of(n));
        proof {
            assert(s@ =~= seq![digit_char(n as nat)]);
        }
        s
    } else {
        let mut s = u64_to_decimal(n / 10);
        push_char(&mut s, digit_of(n % 10));
        s
    }
}

/// The decimal text of a signed integer, as `to_string` writes it.
pub fn i64_to_decimal(n: i64) -> (s: String)
    ensures
        s@ == signed_decimal(n as int),
{
    if n < 0 {
        let mag: u64 = if n == i64::MIN {
            9223372036854775808u64
        } else {
            (-n) as u64
        };
        let digits = u64_to_decimal(mag);
        let mut s = String::new();
        push_char(&mut s, '-');
        let r = s.concat(digits.as_str());
        proof {
            assert(r@ =~= seq!['-'] + decimal((-(n as int)) as nat));
        }
        r
    } else {
        u64_to_decimal(n as u64)
    }
}

/// Parses an unsigned integer the way `u64::from_str` does, with `max` as the upper bound.
pub fn parse_unsigned_bounded(s: &[char], max: u64) -> (r: Option<u64>)
    ensures
        r == (match parse_unsigned(s@, max as nat) {
            Some(v) => Some(v as u64),
            None => None::<u64>,
        }),
{
    let start: usize = if s.len() > 0 && s[0] == '+' { 1 } else { 0 };
    let ghost d = if s@.len() > 0 && s@[0] == '+' { s@.drop_first() } else { s@ };
    assert(d =~= s@.subrange(start as int, s@.len() as int));
    if start >= s.len() {
        assert(d.len() == 0);
        return None;
    }
    let mut acc: u64 = 0;
    let mut i: usize = start;
    while i < s.len()
        invariant
            start <= i <= s@.len(),
            d == (if s@.len() > 0 && s@[0] == '+' { s@.drop_first() } else { s@ }),
            d =~= s@.subrange(start as int, s@.len() as int),
            all_digits(s@.subrange(start as int, i as int)),
            acc as nat == digits_value(s@.subrange(start as int, i as int)),
            acc <= max,
        decreases s@.len() - i,
    {
        let c = s[i];
        proof {
            assert(s@.subrange(start as int, i + 1) =~= s@.subrange(start as int, i as int).push(c));
            lemma_digits_value_push(s@.subrange(start as int, i as int), c);
        }
        if !('0' <= c && c <= '9') {
            proof {
                assert(d[i - start] == c);
                assert(!is_digit(d[i - start]));
                assert(!all_digits(d));
            }
            return None;
        }
        let dv: u64 = (c as u64) - 48;
        if dv > max || acc > (max - dv) / 10 {
            proof {
                let p = s@.subrange(start as int, i + 1);
                assert(digits_value(p) > max) by (nonlinear_arith)
                    requires
                        digits_value(p) == acc * 10 + dv,
                        dv > max || acc > (max - dv) / 10,
                        dv <= 9,
                ;
                assert(p =~= d.subrange(0, (i + 1 - start) as int));
                lemma_digits_value_prefix(d, (i + 1 - start) as int);
            }
            return None;
        }
        acc = acc * 10 + dv;
        i = i + 1;
    }
    proof {
        assert(s@.subrange(start as int, s@.len() as int) =~= d);
    }
    Some(acc)
}


/// `i` is the position of the first whitespace character of `s`.
pub open spec fn is_first_ws(s: Seq<char>, i: int) -> bool {
    &&& 0 <= i < s.len()
    &&& is_unicode_whitespace(s[i])
    &&& forall|j: int| 0 <= j < i ==> !is_unicode_whitespace(#[trigger] s[j])
}

/// `str::split_once(char::is_whitespace)`: the text before the first whitespace character
/// and the text after it.
pub open spec fn split_once_ws(s: Seq<char>) -> Option<(Seq<char>, Seq<char>)> {
    if exists|i: int| is_first_ws(s, i) {
        let i = choose|i: int| is_first_ws(s, i);
        Some((s.subrange(0, i), s.subrange(i + 1, s.len() as int)))
    } else {
        None
    }
}

/// `k` is the number of whitespace characters that `s` starts with.
pub open spec fn is_leading_ws_len(s: Seq<char>, k: int) -> bool {
    &&& 0 <= k <= s.len()
    &&& forall|j: int| 0 <= j < k ==> is_unicode_whitespace(#[trigger] s[j])
    &&& (k == s.len() || !is_unicode_whitespace(s[k]))
}

/// `k` is the number of whitespace characters that `s` ends with.
pub open spec fn is_trailing_ws_len(s: Seq<char>, k: int) -> bool {
    &&& 0 <= k <= s.len()
    &&& forall|j: int| s.len() - k <= j < s.len() ==> is_unicode_whitespace(#[trigger] s[j])
    &&& (k == s.len() || !is_unicode_whitespace(s[s.len() - k - 1]))
}

/// `str::trim_start`.
pub open spec fn trim_start(s: Seq<char>) -> Seq<char> {
    let k = choose|k: int| is_leading_ws_len(s, k);
    s.subrange(k, s.len() as int)
}

/// `str::trim_end`.
pub open spec fn trim_end(s: Seq<char>) -> Seq<char> {
    let k = choose|k: int| is_trailing_ws_len(s, k);
    s.subrange(0, s.len() - k)
}

/// `str::trim`.
pub open spec fn trim(s: Seq<char>) -> Seq<char> {
    trim_end(trim_start(s))
}

/// A text that neither starts nor ends with whitespace is its own trim.
pub proof fn lemma_trim_unpadded(s: Seq<char>)
    requires
        s.len() > 0,
        !is_unicode_whitespace(s[0]),
        !is_unicode_whitespace(s[s.len() - 1]),
    ensures
        trim(s) == s,
{
    let k = choose|k: int| is_leading_ws_len(s, k);
    assert(is_leading_ws_len(s, 0));
    lemma_leading_ws_unique(s, k, 0);
    assert(trim_start(s) =~= s);
    let j = choose|j: int| is_trailing_ws_len(s, j);
    assert(is_trailing_ws_len(s, 0));
    lemma_trailing_ws_unique(s, j, 0);
    assert(trim_end(s) =~= s);
}

pub proof fn lemma_first_ws_unique(s: Seq<char>, i: int, j: int)
    requires
        is_first_ws(s, i),
        is_first_ws(s, j),
    ensures
        i == j,
{
    if i < j {
        assert(!is_unicode_whitespace(s[i]));
    } else if j < i {
        assert(!is_unicode_whitespace(s[j]));
    }
}

pub proof fn lemma_leading_ws_unique(s: Seq<char>, i: int, j: int)
    requires
        is_leading_ws_len(s, i),
        is_leading_ws_len(s, j),
    ensures
        i == j,
{
    if i < j {
        assert(is_unicode_whitespace(s[i]));
    } else if j < i {
        assert(is_unicode_whitespace(s[j]));
    }
}

pub proof fn lemma_trailing_ws_unique(s: Seq<char>, i: int, j: int)
    requires
        is_trailing_ws_len(s, i),
        is_trailing_ws_len(s, j),
    ensures
        i == j,
{
    if i < j {
        assert(is_unicode_whitespace(s[s.len() - i - 1]));
    } else if j < i {
        assert(is_unicode_whitespace(s[s.len() - j - 1]));
    }
}

/// Position of the first whitespace character, if any.
pub fn find_first_ws(s: &[char]) -> (r: Option<usize>)
    ensures
        r matches Some(i) ==> is_first_ws(s@, i as int),
        r is None ==> forall|j: int| 0 <= j < s@.len() ==> !is_unicode_whitespace(#[trigger] s@[j]),
        r is None <==> split_once_ws(s@) is None,
        r matches Some(i) ==> split_once_ws(s@) == Some(
            (s@.subrange(0, i as int), s@.subrange(i + 1, s@.len() as int)),
        ),
{
    let mut i: usize = 0;
    while i < s.len()
        invariant
            i <= s@.len(),
            forall|j: int| 0 <= j < i ==> !is_unicode_whitespace(#[trigger] s@[j]),
        decreases s@.len() - i,
    {
        if is_whitespace(s[i]) {
            proof {
                assert(is_first_ws(s@, i as int));
                let k = choose|k: int| is_first_ws(s@, k);
                lemma_first_ws_unique(s@, i as int, k);
            }
            return Some(i);
        }
        i = i + 1;
    }
    proof {
        assert forall|k: int| !is_first_ws(s@, k) by {
            if 0 <= k < s@.len() {
                assert(!is_unicode_whitespace(s@[k]));
            }
        }
    }
    None
}

/// Number of leading whitespace characters.
pub fn leading_ws_len(s: &[char]) -> (k: usize)
    ensures
        is_leading_ws_len(s@, k as int),
        trim_start(s@) == s@.subrange(k as int, s@.len() as int),
{
    let mut i: usize = 0;
    while i < s.len() && is_whitespace(s[i])
        invariant
            i <= s@.len(),
            forall|j: int| 0 <= j < i ==> is_unicode_whitespace(#[trigger] s@[j]),
        decreases s@.len() - i,
    {
        i = i + 1;
    }
    proof {
        assert(is_leading_ws_len(s@, i as int));
        let k = choose|k: int| is_leading_ws_len(s@, k);
        lemma_leading_ws_unique(s@, i as int, k);
    }
    i
}

/// Number of trailing whitespace characters.
pub fn trailing_ws_len(s: &[char]) -> (k: usize)
    ensures
        is_trailing_ws_len(s@, k as int),
        trim_end(s@) == s@.subrange(0, s@.len() - k),
{
    let mut k: usize = 0;
    while k < s.len() && is_whitespace(s[s.len() - 1 - k])
        invariant
            k <= s@.len(),
            forall|j: int| s@.len() - k <= j < s@.len() ==> is_unicode_whitespace(#[trigger] s@[j]),
        decreases s@.len() - k,
    {
        k = k + 1;
    }
    proof {
        assert(is_trailing_ws_len(s@, k as int));
        let c = choose|c: int| is_trailing_ws_len(s@, c);
        lemma_trailing_ws_unique(s@, k as int, c);
    }
    k
}

/// The characters `s[from..to]`.
pub fn sub_chars(s: &[char], from: usize, to: usize) -> (v: Vec<char>)
    requires
        from <= to <= s@.len(),
    ensures
        v@ == s@.subrange(from as int, to as int),
{
    let mut v: Vec<char> = Vec::new();
    let mut i: usize = from;
    while i < to
        invariant
            from <= i <= to,
            to <= s@.len(),
            v@ == s@.subrange(from as int, i as int),
        decreases to - i,
    {
        v.push(s[i]);
        i = i + 1;
    }
    v
}

/// `str::trim_start` on characters.
pub fn trim_start_chars(s: &[char]) -> (v: Vec<char>)
    ensures
        v@ == trim_start(s@),
{
    let k = leading_ws_len(s);
    sub_chars(s, k, s.len())
}

/// `str::trim` on characters.
pub fn trim_chars(s: &[char]) -> (v: Vec<char>)
    ensures
        v@ == trim(s@),
{
    let t = trim_start_chars(s);
    let k = trailing_ws_len(&t);
    sub_chars(&t, 0, t.len() - k)
}

/// `str::trim_ascii_start`: drops leading ASCII whitespace.
pub open spec fn trim_ascii_start(s: Seq<char>) -> Seq<char>
    decreases s.len(),
{
    if s.len() > 0 && is_ascii_ws(s[0]) {
        trim_ascii_start(s.drop_first())
    } else {
        s
    }
}

/// `str::trim_ascii_end`: drops trailing ASCII whitespace.
pub open spec fn trim_ascii_end(s: Seq<char>) -> Seq<char>
    decreases s.len(),
{
    if s.len() > 0 && is_ascii_ws(s.last()) {
        trim_ascii_end(s.drop_last())
    } else {
        s
    }
}

/// `str::trim_ascii`.
pub open spec fn trim_ascii(s: Seq<char>) -> Seq<char> {
    trim_ascii_end(trim_ascii_start(s))
}

/// `str::trim_ascii` on characters.
pub fn trim_ascii_chars(s: &[char]) -> (v: Vec<char>)
    ensures
        v@ == trim_ascii(s@),
{
    let mut start: usize = 0;
    assert(s@.subrange(0, s@.len() as int) =~= s@);
    while start < s.len() && is_ascii_whitespace(s[start])
        invariant
            start <= s@.len(),
            trim_ascii_start(s@) == trim_ascii_start(s@.subrange(start as int, s@.len() as int)),
        decreases s@.len() - start,
    {
        assert(s@.subrange(start as int, s@.len() as int).drop_first() =~= s@.subrange(start + 1, s@.len() as int));
        start = start + 1;
    }
    let ghost mid = s@.subrange(start as int, s@.len() as int);
    assert(trim_ascii_start(s@) == mid);
    let mut end: usize = s.len();
    assert(mid.subrange(0, mid.len() as int) =~= mid);
    while end > start && is_ascii_whitespace(s[end - 1])
        invariant
            start <= end <= s@.len(),
            mid == s@.subrange(start as int, s@.len() as int),
            trim_ascii_end(mid) == trim_ascii_end(s@.subrange(start as int, end as int)),
        decreases end - start,
    {
        assert(s@.subrange(start as int, end as int).drop_last() =~= s@.subrange(start as int, end - 1));
        end = end - 1;
    }
    sub_chars(s, start, end)
}

/// The pieces of a text between commas, as `str::split(',')` yields them: one more piece
/// than there are commas.
pub open spec fn comma_pieces(s: Seq<char>) -> Seq<Seq<char>>
    decreases s.len(),
{
    if s.len() == 0 {
        seq![Seq::empty()]
    } else {
        let prev = comma_pieces(s.drop_last());
        if s.last() == ',' {
            prev.push(Seq::empty())
        } else {
            prev.update(prev.len() - 1, prev.last().push(s.last()))
        }
    }
}

pub proof fn lemma_comma_pieces_nonempty(s: Seq<char>)
    ensures
        comma_pieces(s).len() >= 1,
    decreases s.len(),
{
    if s.len() > 0 {
        lemma_comma_pieces_nonempty(s.drop_last());
    }
}

/// The comma-separated items of a text, each trimmed of ASCII whitespace: `s.split(',')`
/// then `str::trim_ascii` on each piece.
pub fn comma_separated(s: &str) -> (v: Vec<String>)
    ensures
        v@.map_values(|x: String| x@) == comma_pieces(s@).map_values(|p: Seq<char>| trim_ascii(p)),
{
    let cs = chars_of(s);
    let mut out: Vec<String> = Vec::new();
    let mut cur: Vec<char> = Vec::new();
    let mut i: usize = 0;
    while i < cs.len()
        invariant
            cs@ == s@,
            i <= cs@.len(),
            comma_pieces(cs@.subrange(0, i as int)).len() == out@.len() + 1,
            cur@ == comma_pieces(cs@.subrange(0, i as int)).last(),
            forall|k: int| 0 <= k < out@.len() ==> #[trigger] out@[k]@ == trim_ascii(comma_pieces(cs@.subrange(0, i as int))[k]),
        decreases cs@.len() - i,
    {
        let ghost pre = cs@.subrange(0, i as int);
        let ghost next = cs@.subrange(0, i + 1);
        assert(next.drop_last() =~= pre);
        let c = cs[i];
        proof {
            lemma_comma_pieces_nonempty(pre);
        }
        if c == ',' {
            let piece = trim_ascii_chars(cur.as_slice());
            out.push(string_of(piece.as_slice()));
            cur = Vec::new();
        } else {
            cur.push(c);
        }
        i = i + 1;
    }
    assert(cs@.subrange(0, i as int) =~= cs@);
    let last = trim_ascii_chars(cur.as_slice());
    out.push(string_of(last.as_slice()));
    assert(out@.map_values(|x: String| x@) =~= comma_pieces(s@).map_values(|p: Seq<char>| trim_ascii(p)));
    out
}

} // verus!
