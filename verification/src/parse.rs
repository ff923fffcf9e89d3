//! Character-level reading of text fields: splitting on a separator, the first
//! whitespace-separated word, and decimal integers as Rust's `i32::from_str`
//! reads them.
use vstd::prelude::*;

verus! {

/// The characters of a string slice.
pub fn chars_of(s: &str) -> (v: Vec<char>)
    ensures
        v@ == s@,
{
    let mut v: Vec<char> = Vec::new();
    for c in it: s.chars()
        invariant
            it.seq() == s@,
            v@ == s@.take(it.index() as int),
    {
        v.push(c);
        proof {
            assert(v@ =~= s@.take(it.index() as int + 1));
        }
    }
    proof {
        assert(s@.take(s@.len() as int) =~= s@);
    }
    v
}

/// A string holding the given characters.
pub fn string_of(v: &Vec<char>) -> (s: String)
    ensures
        s@ == v@,
{
    let mut s = String::new();
    let mut i: usize = 0;
    while i < v.len()
        invariant
            i <= v.len(),
            s@ == v@.take(i as int),
        decreases v.len() - i,
    {
        crate::text::push_char(&mut s, v[i]);
        i += 1;
        proof {
            assert(s@ =~= v@.take(i as int));
        }
    }
    proof {
        assert(v@.take(v@.len() as int) =~= v@);
    }
    s
}

/// The pieces of `s` between occurrences of `sep`, as `str::split` yields them
/// (an empty text gives one empty piece).
pub open spec fn split_on(s: Seq<char>, sep: char) -> Seq<Seq<char>>
    decreases s.len(),
{
    if s.len() == 0 {
        seq![Seq::<char>::empty()]
    } else {
        let parts = split_on(s.drop_last(), sep);
        if s.last() == sep {
            parts.push(Seq::<char>::empty())
        } else {
            parts.update(parts.len() - 1, parts.last().push(s.last()))
        }
    }
}

pub(crate) proof fn lemma_split_on_nonempty(s: Seq<char>, sep: char)
    ensures
        split_on(s, sep).len() >= 1,
    decreases s.len(),
{
    if s.len() > 0 {
        lemma_split_on_nonempty(s.drop_last(), sep);
    }
}

/// Splits `s` on `sep`, as `str::split(sep)` does.
pub fn split_chars(s: &Vec<char>, sep: char) -> (parts: Vec<Vec<char>>)
    ensures
        parts@.len() == split_on(s@, sep).len(),
        forall|i: int| 0 <= i < parts@.len() ==> (#[trigger] parts@[i])@ == split_on(s@, sep)[i],
{
    let mut parts: Vec<Vec<char>> = Vec::new();
    let mut cur: Vec<char> = Vec::new();
    let mut i: usize = 0;
    while i < s.len()
        invariant
            i <= s.len(),
            split_on(s@.take(i as int), sep).len() == parts@.len() + 1,
            forall|j: int|
                0 <= j < parts@.len() ==> (#[trigger] parts@[j])@ == split_on(
                    s@.take(i as int),
                    sep,
                )[j],
            cur@ == split_on(s@.take(i as int), sep).last(),
        decreases s.len() - i,
    {
        let c = s[i];
        proof {
            assert(s@.take(i as int + 1).drop_last() =~= s@.take(i as int));
            lemma_split_on_nonempty(s@.take(i as int), sep);
        }
        if c == sep {
            let done = cur;
            parts.push(done);
            cur = Vec::new();
        } else {
            cur.push(c);
        }
        i += 1;
    }
    parts.push(cur);
    proof {
        assert(s@.take(s@.len() as int) =~= s@);
    }
    parts
}

/// Unicode white space, as `char::is_whitespace` classifies it.
pub open spec fn is_white_space(c: char) -> bool {
    ||| c == ' '
    ||| ('\t' <= c <= '\r')
    ||| c == '\u{85}'
    ||| c == '\u{a0}'
    ||| c == '\u{1680}'
    ||| ('\u{2000}' <= c <= '\u{200a}')
    ||| c == '\u{2028}'
    ||| c == '\u{2029}'
    ||| c == '\u{202f}'
    ||| c == '\u{205f}'
    ||| c == '\u{3000}'
}

pub(crate) fn white_space(c: char) -> (b: bool)
    ensures
        b == is_white_space(c),
{
    c == ' ' || ('\t' <= c && c <= '\r') || c == '\u{85}' || c == '\u{a0}' || c == '\u{1680}'
        || ('\u{2000}' <= c && c <= '\u{200a}') || c == '\u{2028}' || c == '\u{2029}' || c
        == '\u{202f}' || c == '\u{205f}' || c == '\u{3000}'
}

/// The leading run of non-white-space characters of `s`.
pub open spec fn leading_word(s: Seq<char>) -> Seq<char>
    decreases s.len(),
{
    if s.len() == 0 || is_white_space(s[0]) {
        Seq::empty()
    } else {
        seq![s[0]] + leading_word(s.skip(1))
    }
}

/// The first white-space-separated word of `s`, as `split_whitespace().next()` gives it.
pub open spec fn first_word(s: Seq<char>) -> Option<Seq<char>>
    decreases s.len(),
{
    if s.len() == 0 {
        None
    } else if is_white_space(s[0]) {
        first_word(s.skip(1))
    } else {
        Some(leading_word(s))
    }
}

proof fn lemma_leading_word_prefix(s: Seq<char>, i: int)
    requires
        0 <= i <= s.len(),
        forall|j: int| 0 <= j < i ==> !is_white_space(#[trigger] s[j]),
    ensures
        leading_word(s) == s.take(i) + leading_word(s.skip(i)),
    decreases i,
{
    if i > 0 {
        lemma_leading_word_prefix(s.skip(1), i - 1);
        assert(s.skip(1).skip(i - 1) =~= s.skip(i));
        assert(seq![s[0]] + s.skip(1).take(i - 1) =~= s.take(i));
    } else {
        assert(s.take(0) =~= Seq::<char>::empty());
        assert(s.skip(0) =~= s);
    }
}

proof fn lemma_first_word_skip(s: Seq<char>, i: int)
    requires
        0 <= i <= s.len(),
        forall|j: int| 0 <= j < i ==> is_white_space(#[trigger] s[j]),
    ensures
        first_word(s) == first_word(s.skip(i)),
    decreases i,
{
    if i > 0 {
        lemma_first_word_skip(s.skip(1), i - 1);
        assert(s.skip(1).skip(i - 1) =~= s.skip(i));
    } else {
        assert(s.skip(0) =~= s);
    }
}

/// The first white-space-separated word of `s`, if any.
pub fn first_word_of(s: &Vec<char>) -> (w: Option<Vec<char>>)
    ensures
        match first_word(s@) {
            Some(x) => w matches Some(v) && v@ == x,
            None => w is None,
        },
{
    let mut i: usize = 0;
    while i < s.len() && white_space(s[i])
        invariant
            i <= s.len(),
            forall|j: int| 0 <= j < i ==> is_white_space(#[trigger] s@[j]),
        decreases s.len() - i,
    {
        i += 1;
    }
    proof {
        lemma_first_word_skip(s@, i as int);
    }
    if i == s.len() {
        assert(s@.skip(i as int).len() == 0);
        return None;
    }
    let start = i;
    let mut word: Vec<char> = Vec::new();
    while i < s.len() && !white_space(s[i])
        invariant
            start <= i <= s.len(),
            forall|j: int| start <= j < i ==> !is_white_space(#[trigger] s@[j]),
            word@ == s@.subrange(start as int, i as int),
        decreases s.len() - i,
    {
        word.push(s[i]);
        i += 1;
        proof {
            assert(word@ =~= s@.subrange(start as int, i as int));
        }
    }
    proof {
        let t = s@.skip(start as int);
        assert forall|j: int| 0 <= j < i - start implies !is_white_space(#[trigger] t[j]) by {
            assert(t[j] == s@[start + j]);
        }
        lemma_leading_word_prefix(t, i - start);
        assert(t.take(i - start) =~= word@);
        let rest = t.skip(i - start);
        assert(rest.len() == 0 || is_white_space(rest[0]));
        assert(leading_word(rest) =~= Seq::<char>::empty());
        assert(word@ + Seq::<char>::empty() =~= word@);
    }
    Some(word)
}

/// An ASCII decimal digit.
pub open spec fn is_digit(c: char) -> bool {
    '0' <= c <= '9'
}

/// The value of a string of decimal digits.
pub open spec fn digits_value(s: Seq<char>) -> int
    decreases s.len(),
{
    if s.len() == 0 {
        0
    } else {
        digits_value(s.drop_last()) * 10 + (s.last() as int - 48)
    }
}

/// The digits of a signed decimal: without a leading `+` or `-`.
pub open spec fn unsigned_part(s: Seq<char>) -> Seq<char> {
    if s.len() > 0 && (s[0] == '-' || s[0] == '+') {
        s.skip(1)
    } else {
        s
    }
}

/// The `i32` that `i32::from_str` reads from `s`: an optional `+` or `-`, then
/// one or more ASCII digits, with a value in range.
pub open spec fn parsed_i32(s: Seq<char>) -> Option<i32> {
    let digits = unsigned_part(s);
    if s.len() == 0 || digits.len() == 0 || !(forall|i: int|
        0 <= i < digits.len() ==> is_digit(#[trigger] digits[i])) {
        None
    } else {
        let v = if s[0] == '-' {
            -digits_value(digits)
        } else {
            digits_value(digits)
        };
        if i32::MIN <= v <= i32::MAX {
            Some(v as i32)
        } else {
            None
        }
    }
}

proof fn lemma_digits_value_grows(s: Seq<char>, k: int)
    requires
        0 <= k <= s.len(),
        forall|i: int| 0 <= i < s.len() ==> is_digit(#[trigger] s[i]),
    ensures
        digits_value(s) >= digits_value(s.take(k)) >= 0,
    decreases s.len(),
{
    if s.len() > 0 {
        if k == s.len() {
            assert(s.take(k) =~= s);
            lemma_digits_value_grows(s.drop_last(), 0);
            assert(s.drop_last().take(0) =~= s.take(0));
        } else {
            lemma_digits_value_grows(s.drop_last(), k);
            assert(s.drop_last().take(k) =~= s.take(k));
            assert(is_digit(s[s.len() - 1]));
        }
    } else {
        assert(s.take(k) =~= s);
    }
}

/// Reads an `i32` as `i32::from_str` does; `None` where it reports an error.
pub fn parse_i32(s: &Vec<char>) -> (v: Option<i32>)
    ensures
        v == parsed_i32(s@),
{
    let n = s.len();
    if n == 0 {
        return None;
    }
    let neg = s[0] == '-';
    let start: usize = if s[0] == '-' || s[0] == '+' {
        1
    } else {
        0
    };
    let ghost digits = unsigned_part(s@);
    assert(digits =~= s@.skip(start as int));
    if start == n {
        return None;
    }
    let mut i = start;
    while i < n
        invariant
            start <= i <= n == s@.len(),
            digits =~= s@.skip(start as int),
            digits == unsigned_part(s@),
            s@.len() > 0 && (s@[0] == '-') == neg,
            forall|j: int| start <= j < i ==> is_digit(#[trigger] s@[j]),
        decreases n - i,
    {
        if !('0' <= s[i] && s[i] <= '9') {
            assert(digits[i - start] == s@[i as int]);
            assert(!is_digit(digits[i - start]));
            assert(!(forall|j: int| 0 <= j < digits.len() ==> is_digit(#[trigger] digits[j])));
            assert(digits == unsigned_part(s@));
            assert(parsed_i32(s@) is None);
            return None;
        }
        i += 1;
    }
    assert forall|j: int| 0 <= j < digits.len() implies is_digit(#[trigger] digits[j]) by {
        assert(digits[j] == s@[start + j]);
    }
    let mut acc: u64 = 0;
    let mut k = start;
    while k < n
        invariant
            start <= k <= n == s@.len(),
            digits =~= s@.skip(start as int),
            digits == unsigned_part(s@),
            s@.len() > 0 && (s@[0] == '-') == neg,
            forall|j: int| 0 <= j < digits.len() ==> is_digit(#[trigger] digits[j]),
            acc == digits_value(digits.take(k - start)),
            acc <= 2147483648u64,
        decreases n - k,
    {
        proof {
            assert(digits[k - start] == s@[k as int]);
            assert(digits.take(k - start + 1).drop_last() =~= digits.take(k - start));
            assert(is_digit(s@[k as int]));
        }
        let d = (s[k] as u32 - 48u32) as u64;
        assert(digits_value(digits.take(k - start + 1)) == acc * 10 + d);
        acc = acc * 10 + d;
        k += 1;
        if acc > 2147483648u64 {
            proof {
                lemma_digits_value_grows(digits, k - start);
                assert(digits_value(digits) > 2147483648);
                assert(digits == unsigned_part(s@));
                assert(parsed_i32(s@) is None);
            }
            return None;
        }
    }
    assert(digits.take(n - start) =~= digits);
    if neg {
        Some((0i64 - acc as i64) as i32)
    } else if acc <= 2147483647u64 {
        Some(acc as i32)
    } else {
        None
    }
}

/// The digits of an unsigned decimal: without a leading `+`.
pub open spec fn unsigned_digits(s: Seq<char>) -> Seq<char> {
    if s.len() > 0 && s[0] == '+' {
        s.skip(1)
    } else {
        s
    }
}

/// The `u64` that `u64::from_str` reads from `s`: an optional `+`, then one or
/// more ASCII digits, with a value in range.
pub open spec fn parsed_u64(s: Seq<char>) -> Option<u64> {
    let digits = unsigned_digits(s);
    if digits.len() == 0 || !(forall|i: int| 0 <= i < digits.len() ==> is_digit(#[trigger] digits[i])) {
        None
    } else if digits_value(digits) <= u64::MAX {
        Some(digits_value(digits) as u64)
    } else {
        None
    }
}

/// Reads a `u64` as `u64::from_str` does; `None` where it reports an error.
pub fn parse_u64(s: &Vec<char>) -> (v: Option<u64>)
    ensures
        v == parsed_u64(s@),
{
    let n = s.len();
    let start: usize = if n > 0 && s[0] == '+' {
        1
    } else {
        0
    };
    let ghost digits = unsigned_digits(s@);
    assert(digits =~= s@.skip(start as int));
    if start == n {
        return None;
    }
    let mut i = start;
    while i < n
        invariant
            start <= i <= n == s@.len(),
            digits =~= s@.skip(start as int),
            digits == unsigned_digits(s@),
            forall|j: int| start <= j < i ==> is_digit(#[trigger] s@[j]),
        decreases n - i,
    {
        if !('0' <= s[i] && s[i] <= '9') {
            assert(digits[i - start] == s@[i as int]);
            assert(!is_digit(digits[i - start]));
            return None;
        }
        i += 1;
    }
    assert forall|j: int| 0 <= j < digits.len() implies is_digit(#[trigger] digits[j]) by {
        assert(digits[j] == s@[start + j]);
    }
    let mut acc: u128 = 0;
    let mut k = start;
    while k < n
        invariant
            start <= k <= n == s@.len(),
            digits =~= s@.skip(start as int),
            digits == unsigned_digits(s@),
            forall|j: int| 0 <= j < digits.len() ==> is_digit(#[trigger] digits[j]),
            acc == digits_value(digits.take(k - start)),
            acc <= u64::MAX,
        decreases n - k,
    {
        proof {
            assert(digits[k - start] == s@[k as int]);
            assert(digits.take(k - start + 1).drop_last() =~= digits.take(k - start));
            assert(is_digit(s@[k as int]));
        }
        let d = (s[k] as u32 - 48u32) as u128;
        assert(digits_value(digits.take(k - start + 1)) == acc * 10 + d);
        acc = acc * 10 + d;
        k += 1;
        if acc > u64::MAX as u128 {
            proof {
                lemma_digits_value_grows(digits, k - start);
            }
            return None;
        }
    }
    assert(digits.take(n - start) =~= digits);
    Some(acc as u64)
}

} // verus!
