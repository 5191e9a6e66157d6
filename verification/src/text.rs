//! Text helpers: exact string comparison, trailing-slash trimming and the
//! decimal parsing of unsigned integers that configuration values use.
use vstd::prelude::*;

verus! {

/// `s` with every trailing `'/'` removed (what `str::trim_end_matches('/')` gives).
pub open spec fn trim_end_slashes(s: Seq<char>) -> Seq<char>
    decreases s.len(),
{
    if s.len() > 0 && s.last() == '/' {
        trim_end_slashes(s.drop_last())
    } else {
        s
    }
}

/// Whether `c` is one of the ASCII digits `0`..`9`.
pub open spec fn is_digit(c: char) -> bool {
    ('0' as int) <= (c as int) <= ('9' as int)
}

/// The numeric value of the digit `c`.
pub open spec fn digit_value(c: char) -> int {
    (c as int) - ('0' as int)
}

/// Whether every character of `s` is a decimal digit.
pub open spec fn all_digits(s: Seq<char>) -> bool {
    forall|i: int| 0 <= i < s.len() ==> is_digit(#[trigger] s[i])
}

/// The value of the decimal numeral `s` (most significant digit first).
pub open spec fn decimal_value(s: Seq<char>) -> int
    decreases s.len(),
{
    if s.len() == 0 {
        0
    } else {
        decimal_value(s.drop_last()) * 10 + digit_value(s.last())
    }
}

/// The digits of an unsigned numeral: one leading `'+'` is allowed and dropped.
pub open spec fn unsigned_digits(s: Seq<char>) -> Seq<char> {
    if s.len() > 0 && s[0] == '+' {
        s.drop_first()
    } else {
        s
    }
}

/// What Rust's `str::parse` gives for an unsigned integer type whose largest
/// value is `max`: the value when `s` is an optional `'+'` followed by at least
/// one digit and nothing else, and the value does not exceed `max`; otherwise
/// nothing.
pub open spec fn parse_unsigned_spec(s: Seq<char>, max: int) -> Option<int> {
    let d = unsigned_digits(s);
    if d.len() > 0 && all_digits(d) && decimal_value(d) <= max {
        Some(decimal_value(d))
    } else {
        None
    }
}

/// A numeral made of digits has a non-negative value.
pub proof fn lemma_decimal_value_nonneg(s: Seq<char>)
    requires
        all_digits(s),
    ensures
        decimal_value(s) >= 0,
    decreases s.len(),
{
    if s.len() > 0 {
        assert(all_digits(s.drop_last())) by {
            assert forall|i: int| 0 <= i < s.drop_last().len() implies is_digit(
                #[trigger] s.drop_last()[i],
            ) by {
                assert(s.drop_last()[i] == s[i]);
            }
        }
        lemma_decimal_value_nonneg(s.drop_last());
        assert(is_digit(s[s.len() - 1]));
    }
}

/// Reading more digits never lowers the value of a numeral.
pub proof fn lemma_decimal_prefix_le(s: Seq<char>, k: int)
    requires
        all_digits(s),
        0 <= k <= s.len(),
    ensures
        decimal_value(s.subrange(0, k)) <= decimal_value(s),
    decreases s.len(),
{
    if k < s.len() {
        let p = s.drop_last();
        assert(all_digits(p)) by {
            assert forall|i: int| 0 <= i < p.len() implies is_digit(#[trigger] p[i]) by {
                assert(p[i] == s[i]);
            }
        }
        lemma_decimal_prefix_le(p, k);
        assert(p.subrange(0, k) =~= s.subrange(0, k));
        lemma_decimal_value_nonneg(p);
        assert(is_digit(s[s.len() - 1]));
    } else {
        assert(s.subrange(0, k) =~= s);
    }
}

/// Trimming removes exactly the trailing slashes: the result is a prefix of
/// the input, everything after it is `'/'`, and it does not itself end in `'/'`.
pub proof fn lemma_trim_removes_only_trailing_slashes(s: Seq<char>)
    ensures
        trim_end_slashes(s).len() <= s.len(),
        trim_end_slashes(s) == s.subrange(0, trim_end_slashes(s).len() as int),
        forall|j: int| trim_end_slashes(s).len() <= j < s.len() ==> s[j] == '/',
        trim_end_slashes(s).len() > 0 ==> trim_end_slashes(s).last() != '/',
    decreases s.len(),
{
    if s.len() > 0 && s.last() == '/' {
        let p = s.drop_last();
        lemma_trim_removes_only_trailing_slashes(p);
        let t = trim_end_slashes(p);
        assert(p.subrange(0, t.len() as int) =~= s.subrange(0, t.len() as int));
        assert forall|j: int| t.len() <= j < s.len() implies s[j] == '/' by {
            if j < s.len() - 1 {
                assert(s[j] == p[j]);
            }
        }
    } else {
        assert(s.subrange(0, s.len() as int) =~= s);
    }
}

/// A numeral's value: each digit appended multiplies the value so far by ten
/// and adds the digit, which lies between 0 and 9.
pub proof fn lemma_decimal_value_push(s: Seq<char>, c: char)
    ensures
        decimal_value(Seq::<char>::empty()) == 0,
        decimal_value(s.push(c)) == 10 * decimal_value(s) + (c as int) - ('0' as int),
        is_digit(c) ==> 0 <= digit_value(c) <= 9,
        is_digit(c) <==> ('0' as int) <= (c as int) <= ('9' as int),
{
    assert(s.push(c).drop_last() =~= s);
}

/// What parsing accepts: a parsed value is never above the limit; nothing
/// parses from an empty text or a lone `'+'`; a text whose digits (after an
/// optional leading `'+'`) hold a non-digit does not parse; and a text of
/// digits parses to its value when it is within the limit.
pub proof fn lemma_parse_unsigned_accepts(s: Seq<char>, max: int)
    ensures
        parse_unsigned_spec(s, max) matches Some(v) ==> 0 <= v <= max,
        parse_unsigned_spec(Seq::<char>::empty(), max) is None,
        parse_unsigned_spec(seq!['+'], max) is None,
        (exists|i: int| 0 <= i < unsigned_digits(s).len() && !is_digit(unsigned_digits(s)[i]))
            ==> parse_unsigned_spec(s, max) is None,
        (s.len() > 0 && s[0] != '+' && all_digits(s) && decimal_value(s) <= max) ==> parse_unsigned_spec(
            s,
            max,
        ) == Some(decimal_value(s)),
        (s.len() > 0 && s[0] == '+') ==> unsigned_digits(s) == s.drop_first(),
        (s.len() > 0 && s[0] != '+' && !is_digit(s[0])) ==> parse_unsigned_spec(s, max) is None,
        (s.len() > 1 && s[0] == '+' && !is_digit(s[1])) ==> parse_unsigned_spec(s, max) is None,
{
    if parse_unsigned_spec(s, max) is Some {
        lemma_decimal_value_nonneg(unsigned_digits(s));
    }
    assert(seq!['+'].drop_first() =~= Seq::<char>::empty());
    if s.len() > 1 && s[0] == '+' && !is_digit(s[1]) {
        assert(unsigned_digits(s)[0] == s[1]);
    }
    if s.len() > 0 && s[0] != '+' && !is_digit(s[0]) {
        assert(unsigned_digits(s)[0] == s[0]);
    }
}

/// Exact comparison of two strings, character by character.
pub fn text_eq(a: &str, b: &str) -> (r: bool)
    ensures
        r == (a@ == b@),
{
    let n = a.unicode_len();
    let m = b.unicode_len();
    if n != m {
        return false;
    }
    let mut i: usize = 0;
    while i < n
        invariant
            n == a@.len(),
            m == b@.len(),
            n == m,
            i <= n,
            forall|j: int| 0 <= j < i ==> a@[j] == b@[j],
        decreases n - i,
    {
        if a.get_char(i) != b.get_char(i) {
            return false;
        }
        i = i + 1;
    }
    assert(a@ =~= b@);
    true
}

/// `s` without its trailing `'/'` characters.
pub fn trim_trailing_slashes(s: &str) -> (r: String)
    ensures
        r@ == trim_end_slashes(s@),
{
    let n = s.unicode_len();
    let mut end: usize = n;
    assert(s@.subrange(0, n as int) =~= s@);
    while end > 0 && s.get_char(end - 1) == '/'
        invariant
            n == s@.len(),
            end <= n,
            trim_end_slashes(s@) == trim_end_slashes(s@.subrange(0, end as int)),
        decreases end,
    {
        assert(s@.subrange(0, end as int).drop_last() =~= s@.subrange(0, end - 1));
        end = end - 1;
    }
    let kept = s.substring_char(0, end);
    String::from_str(kept)
}

/// Parses a decimal unsigned integer no larger than `max`, as Rust's
/// `str::parse` does for an unsigned type whose largest value is `max`.
pub fn parse_unsigned(s: &str, max: u64) -> (r: Option<u64>)
    ensures
        r is Some <==> parse_unsigned_spec(s@, max as int) is Some,
        r matches Some(v) ==> parse_unsigned_spec(s@, max as int) == Some(v as int),
{
    let n = s.unicode_len();
    let mut start: usize = 0;
    if n > 0 && s.get_char(0) == '+' {
        start = 1;
    }
    let ghost d = s@.subrange(start as int, n as int);
    assert(d =~= unsigned_digits(s@));
    if start >= n {
        return None;
    }
    let mut acc: u64 = 0;
    let mut i: usize = start;
    assert(d.subrange(0, 0) =~= Seq::<char>::empty());
    while i < n
        invariant
            n == s@.len(),
            start <= i <= n,
            d == s@.subrange(start as int, n as int),
            d == unsigned_digits(s@),
            all_digits(d.subrange(0, i - start)),
            acc as int == decimal_value(d.subrange(0, i - start)),
            acc <= max,
        decreases n - i,
    {
        let c = s.get_char(i);
        let code = c as u32;
        assert(d[i - start] == c);
        if code < 48 || code > 57 {
            assert(!all_digits(d)) by {
                assert(!is_digit(d[i - start]));
            }
            return None;
        }
        let next: u128 = (acc as u128) * 10 + ((code - 48) as u128);
        let ghost k = i - start + 1;
        assert(d.subrange(0, k).drop_last() =~= d.subrange(0, i - start));
        assert(all_digits(d.subrange(0, k))) by {
            assert forall|j: int| 0 <= j < k implies is_digit(#[trigger] d.subrange(0, k)[j]) by {
                if j < k - 1 {
                    assert(d.subrange(0, k)[j] == d.subrange(0, i - start)[j]);
                }
            }
        }
        assert(next as int == decimal_value(d.subrange(0, k)));
        if next > max as u128 {
            proof {
                if all_digits(d) {
                    lemma_decimal_prefix_le(d, k);
                }
            }
            return None;
        }
        acc = next as u64;
        i = i + 1;
    }
    assert(d.subrange(0, n - start) =~= d);
    Some(acc)
}

} // verus!
