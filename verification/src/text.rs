//! Text helpers: decimal numbers, path tails and ASCII case folding, each
//! with the sequence of characters it stands for.

use vstd::prelude::*;

verus! {

/// The character of a decimal digit.
pub open spec fn digit_char(d: nat) -> char
    recommends
        d < 10,
{
    ((d + 48) as u32) as char
}

/// Decimal representation of `n`, most significant digit first, with no
/// leading zeros (`0` is written as a single `0`).
pub open spec fn decimal(n: nat) -> Seq<char>
    decreases n,
{
    if n < 10 {
        seq![digit_char(n)]
    } else {
        decimal(n / 10).push(digit_char(n % 10))
    }
}

/// The number that a string of decimal digits stands for.
pub open spec fn decimal_value(s: Seq<char>) -> int
    decreases s.len(),
{
    if s.len() == 0 {
        0
    } else {
        decimal_value(s.drop_last()) * 10 + (s.last() as int - 48)
    }
}

/// Whether `c` is one of the digits `0` to `9`.
pub open spec fn is_digit(c: char) -> bool {
    '0' <= c && c <= '9'
}

/// The decimal representation of `n` is made of digits only, has no leading
/// zero unless it is `0` itself, and reads back as `n`.
pub proof fn lemma_decimal_reads_back(n: nat)
    ensures
        decimal(n).len() > 0,
        forall|i: int| 0 <= i < decimal(n).len() ==> is_digit(#[trigger] decimal(n)[i]),
        decimal(n)[0] == '0' ==> n == 0,
        decimal_value(decimal(n)) == n,
    decreases n,
{
    if n >= 10 {
        lemma_decimal_reads_back(n / 10);
        let d = decimal(n);
        assert(d.drop_last() =~= decimal(n / 10));
        assert(d[0] == decimal(n / 10)[0]);
        assert(d.last() as int == (n % 10) + 48);
        assert(decimal_value(d) == decimal_value(decimal(n / 10)) * 10 + (n % 10));
        assert((n / 10) * 10 + n % 10 == n);
    } else {
        assert(decimal(n).last() as int == n + 48);
        assert(decimal(n).drop_last() =~= Seq::<char>::empty());
        assert(decimal_value(decimal(n)) == decimal_value(Seq::<char>::empty()) * 10 + n);
    }
}

/// `digits` is a non-empty string of decimal digits that reads as `n`.
pub open spec fn is_decimal_of(digits: Seq<char>, n: nat) -> bool {
    &&& digits.len() > 0
    &&& forall|i: int| 0 <= i < digits.len() ==> is_digit(#[trigger] digits[i])
    &&& decimal_value(digits) == n
}

/// The one-character string of a decimal digit.
fn digit_str(d: u64) -> (r: &'static str)
    requires
        d < 10,
    ensures
        r@ == seq![digit_char(d as nat)],
{
    proof {
        reveal_strlit("0");
        reveal_strlit("1");
        reveal_strlit("2");
        reveal_strlit("3");
        reveal_strlit("4");
        reveal_strlit("5");
        reveal_strlit("6");
        reveal_strlit("7");
        reveal_strlit("8");
        reveal_strlit("9");
    }
    if d == 0 {
        "0"
    } else if d == 1 {
        "1"
    } else if d == 2 {
        "2"
    } else if d == 3 {
        "3"
    } else if d == 4 {
        "4"
    } else if d == 5 {
        "5"
    } else if d == 6 {
        "6"
    } else if d == 7 {
        "7"
    } else if d == 8 {
        "8"
    } else {
        "9"
    }
}

/// Appends the decimal representation of `n` to `out`.
pub fn push_decimal(out: &mut String, n: u64)
    ensures
        final(out)@ == old(out)@ + decimal(n as nat),
    decreases n,
{
    if n >= 10 {
        push_decimal(out, n / 10);
    }
    out.append(digit_str(n % 10));
    proof {
        if n >= 10 {
            assert(decimal(n as nat) == decimal((n / 10) as nat).push(digit_char((n % 10) as nat)));
        }
    }
}

/// The part of `s` after the last occurrence of `sep`; all of `s` when
/// `sep` does not occur in it.
pub open spec fn spec_tail_after(s: Seq<char>, sep: char) -> Seq<char>
    decreases s.len(),
{
    if s.len() == 0 {
        s
    } else if s.last() == sep {
        Seq::empty()
    } else {
        spec_tail_after(s.drop_last(), sep).push(s.last())
    }
}

/// The tail after `sep` is the last segment of `s`: a suffix of `s` with no
/// `sep` in it, which is either all of `s` or comes right after a `sep`.
pub proof fn lemma_tail_after_is_last_segment(s: Seq<char>, sep: char)
    ensures
        spec_tail_after(s, sep).len() <= s.len(),
        spec_tail_after(s, sep) == s.subrange(s.len() - spec_tail_after(s, sep).len(), s.len() as int),
        forall|i: int|
            0 <= i < spec_tail_after(s, sep).len() ==> #[trigger] spec_tail_after(s, sep)[i] != sep,
        spec_tail_after(s, sep).len() < s.len() ==> s[s.len() - spec_tail_after(s, sep).len() - 1]
            == sep,
    decreases s.len(),
{
    if s.len() > 0 {
        lemma_tail_after_is_last_segment(s.drop_last(), sep);
        let t = spec_tail_after(s, sep);
        if s.last() == sep {
            assert(s.subrange(s.len() as int, s.len() as int) =~= t);
        } else {
            let u = spec_tail_after(s.drop_last(), sep);
            assert(t == u.push(s.last()));
            assert(t =~= s.subrange(s.len() - t.len(), s.len() as int));
            assert forall|i: int| 0 <= i < t.len() implies #[trigger] t[i] != sep by {
                if i < u.len() {
                    assert(t[i] == u[i]);
                }
            }
            if t.len() < s.len() {
                assert(s[s.len() - t.len() - 1] == s.drop_last()[s.drop_last().len() - u.len() - 1]);
            }
        }
    } else {
        assert(s.subrange(0, 0) =~= s);
    }
}

/// The part of `s` after the last `sep`, as `s.rsplit(sep).next()` gives it.
pub fn tail_after(s: &str, sep: char) -> (r: &str)
    ensures
        r@ == spec_tail_after(s@, sep),
{
    let n = s.unicode_len();
    let mut start: usize = 0;
    let mut i: usize = 0;
    while i < n
        invariant
            n == s@.len(),
            start <= i <= n,
            spec_tail_after(s@.take(i as int), sep) == s@.subrange(start as int, i as int),
        decreases n - i,
    {
        let c = s.get_char(i);
        proof {
            let t = s@.take(i + 1);
            assert(t.drop_last() =~= s@.take(i as int));
            assert(t.last() == c);
        }
        if c == sep {
            start = i + 1;
        }
        i = i + 1;
        assert(spec_tail_after(s@.take(i as int), sep) =~= s@.subrange(start as int, i as int));
    }
    assert(s@.take(n as int) =~= s@);
    s.substring_char(start, n)
}

/// ASCII lower-casing of one character; other characters are unchanged.
pub open spec fn ascii_lower_char(c: char) -> char {
    if 'A' <= c && c <= 'Z' {
        ((c as u32) + 32) as char
    } else {
        c
    }
}

/// ASCII lower-casing of a string, as `str::to_ascii_lowercase` does it.
pub open spec fn ascii_lower(s: Seq<char>) -> Seq<char> {
    s.map_values(|c: char| ascii_lower_char(c))
}

/// ASCII lower-casing keeps the length, turns each capital `A`–`Z` into the
/// matching small letter, and leaves every other character as it is.
pub proof fn lemma_ascii_lower(s: Seq<char>)
    ensures
        ascii_lower(s).len() == s.len(),
        forall|i: int|
            0 <= i < s.len() && 'A' <= s[i] && s[i] <= 'Z' ==> 'a' <= #[trigger] ascii_lower(s)[i]
                && ascii_lower(s)[i] <= 'z' && ascii_lower(s)[i] as int == s[i] as int + 32,
        forall|i: int|
            0 <= i < s.len() && !('A' <= s[i] && s[i] <= 'Z') ==> #[trigger] ascii_lower(s)[i]
                == s[i],
{
}

/// Taking the part after the last separator commutes with ASCII
/// lower-casing, for a separator that is not an ASCII letter.
pub proof fn lemma_tail_after_lower(s: Seq<char>, sep: char)
    requires
        !('A' <= sep && sep <= 'Z'),
        !('a' <= sep && sep <= 'z'),
    ensures
        spec_tail_after(ascii_lower(s), sep) == ascii_lower(spec_tail_after(s, sep)),
    decreases s.len(),
{
    if s.len() > 0 {
        let t = ascii_lower(s);
        assert(t.drop_last() =~= ascii_lower(s.drop_last()));
        assert(t.last() == ascii_lower_char(s.last()));
        lemma_tail_after_lower(s.drop_last(), sep);
        if s.last() != sep {
            assert(ascii_lower(spec_tail_after(s.drop_last(), sep).push(s.last())) =~= ascii_lower(
                spec_tail_after(s.drop_last(), sep),
            ).push(ascii_lower_char(s.last())));
        } else {
            assert(ascii_lower(Seq::<char>::empty()) =~= Seq::<char>::empty());
        }
    } else {
        assert(ascii_lower(s) =~= Seq::<char>::empty());
    }
}

fn lower_char(c: char) -> (r: char)
    ensures
        r == ascii_lower_char(c),
{
    if 'A' <= c && c <= 'Z' {
        ((c as u8) + 32) as char
    } else {
        c
    }
}

/// Whether the ASCII lower-casing of `s` is exactly `lit`.
pub fn lower_equals(s: &str, lit: &str) -> (r: bool)
    ensures
        r == (ascii_lower(s@) == lit@),
{
    let n = s.unicode_len();
    let m = lit.unicode_len();
    if n != m {
        assert(ascii_lower(s@).len() != lit@.len());
        return false;
    }
    let mut i: usize = 0;
    while i < n
        invariant
            n == s@.len(),
            n == lit@.len(),
            i <= n,
            forall|j: int| 0 <= j < i ==> ascii_lower_char(#[trigger] s@[j]) == lit@[j],
        decreases n - i,
    {
        if lower_char(s.get_char(i)) != lit.get_char(i) {
            assert(ascii_lower(s@)[i as int] != lit@[i as int]);
            return false;
        }
        i = i + 1;
    }
    assert(ascii_lower(s@) =~= lit@);
    true
}

} // verus!
