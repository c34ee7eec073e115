//! Text helpers: decimal rendering of integers and simple prefix and
//! suffix tests on strings.

use vstd::prelude::*;

verus! {

/// The ASCII character of a decimal digit.
pub open spec fn digit_char(d: nat) -> char {
    if d == 0 { '0' }
    else if d == 1 { '1' }
    else if d == 2 { '2' }
    else if d == 3 { '3' }
    else if d == 4 { '4' }
    else if d == 5 { '5' }
    else if d == 6 { '6' }
    else if d == 7 { '7' }
    else if d == 8 { '8' }
    else { '9' }
}

/// The decimal notation of a natural number, without leading zeros.
pub open spec fn decimal(n: nat) -> Seq<char>
    decreases n,
{
    if n < 10 {
        seq![digit_char(n)]
    } else {
        decimal(n / 10).push(digit_char(n % 10))
    }
}

/// The decimal notation of an integer, with a leading `-` when negative.
pub open spec fn signed_decimal(i: int) -> Seq<char> {
    if i < 0 {
        seq!['-'] + decimal((-i) as nat)
    } else {
        decimal(i as nat)
    }
}

/// The value of a decimal digit character.
pub open spec fn digit_value(c: char) -> int {
    (c as int) - 48
}

/// The number that a string of decimal digits denotes, read left to right.
pub open spec fn read_decimal(s: Seq<char>) -> int
    decreases s.len(),
{
    if s.len() == 0 {
        0
    } else {
        read_decimal(s.drop_last()) * 10 + digit_value(s.last())
    }
}

/// A character is an ASCII decimal digit.
pub open spec fn is_digit(c: char) -> bool {
    48 <= (c as int) <= 57
}

/// The character of a digit below ten is an ASCII digit of that value.
proof fn lemma_digit_char(d: nat)
    requires
        d < 10,
    ensures
        is_digit(digit_char(d)),
        digit_value(digit_char(d)) == d,
{
}

/// The decimal notation of `n` is a non-empty string of ASCII digits that
/// reads back as `n`, with no leading zero unless `n` is zero.
pub proof fn law_decimal_reads_back(n: nat)
    ensures
        decimal(n).len() >= 1,
        forall|k: int| 0 <= k < decimal(n).len() ==> is_digit(#[trigger] decimal(n)[k]),
        read_decimal(decimal(n)) == n,
        n > 0 ==> decimal(n)[0] != '0',
    decreases n,
{
    if n < 10 {
        lemma_digit_char(n);
        assert(decimal(n).drop_last() =~= Seq::<char>::empty());
        assert(read_decimal(decimal(n)) == read_decimal(decimal(n).drop_last()) * 10 + digit_value(
            decimal(n).last(),
        ));
    } else {
        law_decimal_reads_back(n / 10);
        lemma_digit_char(n % 10);
        let d = decimal(n);
        assert(d.drop_last() =~= decimal(n / 10));
        assert forall|k: int| 0 <= k < d.len() implies is_digit(#[trigger] d[k]) by {
            if k < d.len() - 1 {
                assert(d[k] == decimal(n / 10)[k]);
            }
        }
        assert(d[0] == decimal(n / 10)[0]);
        assert(d.last() == digit_char(n % 10));
        assert(read_decimal(d) == read_decimal(d.drop_last()) * 10 + digit_value(d.last()));
        assert(read_decimal(d) == (n / 10) * 10 + n % 10);
    }
}

/// The signed notation of `i` starts with `-` exactly when `i` is
/// negative; a non-negative number is written as its decimal notation, and
/// what follows the `-` of a negative one reads back as its magnitude.
pub proof fn law_signed_decimal(i: int)
    ensures
        signed_decimal(i).len() >= 1,
        (signed_decimal(i)[0] == '-') <==> i < 0,
        i >= 0 ==> signed_decimal(i) == decimal(i as nat),
        i >= 0 ==> read_decimal(signed_decimal(i)) == i,
        i < 0 ==> read_decimal(signed_decimal(i).drop_first()) == -i,
{
    if i < 0 {
        law_decimal_reads_back((-i) as nat);
        assert(signed_decimal(i).drop_first() =~= decimal((-i) as nat));
    } else {
        law_decimal_reads_back(i as nat);
        assert(is_digit(decimal(i as nat)[0]));
    }
}

fn digit_str(d: u64) -> (s: &'static str)
    requires
        d < 10,
    ensures
        s@ == seq![digit_char(d as nat)],
{
    proof {
        reveal_strlit("0");
        reveal_strlit("1");
        reveal_strlit("2");
        reveal_strlit("3");
        reveal_strlit("4");
        reveal_strlit("5");
        reveal_strlit("6");
        reveal_strlit("7");
        reveal_strlit("8");
        reveal_strlit("9");
    }
    if d == 0 { "0" }
    else if d == 1 { "1" }
    else if d == 2 { "2" }
    else if d == 3 { "3" }
    else if d == 4 { "4" }
    else if d == 5 { "5" }
    else if d == 6 { "6" }
    else if d == 7 { "7" }
    else if d == 8 { "8" }
    else { "9" }
}

/// Renders an unsigned integer in decimal, as `format!("{}", n)` does.
pub fn u64_to_string(n: u64) -> (s: String)
    ensures
        s@ == decimal(n as nat),
    decreases n,
{
    if n < 10 {
        String::from_str(digit_str(n))
    } else {
        let mut s = u64_to_string(n / 10);
        s.append(digit_str(n % 10));
        s
    }
}

/// Renders a signed integer in decimal, as `format!("{}", i)` does.
pub fn i64_to_string(i: i64) -> (s: String)
    ensures
        s@ == signed_decimal(i as int),
{
    if i < 0 {
        let magnitude: u64 = if i == i64::MIN {
            9223372036854775808u64
        } else {
            (-i) as u64
        };
        let mut s = String::from_str("-");
        proof {
            reveal_strlit("-");
        }
        let digits = u64_to_string(magnitude);
        s.append(digits.as_str());
        s
    } else {
        u64_to_string(i as u64)
    }
}


/// `p` is a prefix of `s`.
pub open spec fn is_prefix(p: Seq<char>, s: Seq<char>) -> bool {
    p.len() <= s.len() && s.subrange(0, p.len() as int) == p
}

/// `p` is a suffix of `s`.
pub open spec fn is_suffix(p: Seq<char>, s: Seq<char>) -> bool {
    p.len() <= s.len() && s.subrange(s.len() - p.len(), s.len() as int) == p
}

/// `s` with every leading repetition of a non-empty `p` removed; `s`
/// itself when `p` is empty.
pub open spec fn trim_start(s: Seq<char>, p: Seq<char>) -> Seq<char>
    decreases s.len(),
{
    if p.len() > 0 && is_prefix(p, s) {
        trim_start(s.skip(p.len() as int), p)
    } else {
        s
    }
}

/// Whether `p` occurs in `s` at character position `at`.
fn occurs_at(s: &str, at: usize, p: &str) -> (r: bool)
    requires
        at <= s@.len(),
    ensures
        r == is_prefix(p@, s@.skip(at as int)),
{
    let n = s.unicode_len();
    let m = p.unicode_len();
    if m > n - at {
        return false;
    }
    let mut k: usize = 0;
    while k < m
        invariant
            n == s@.len(),
            m == p@.len(),
            at + m <= n,
            k <= m,
            forall|j: int| 0 <= j < k ==> s@[at + j] == p@[j],
        decreases m - k,
    {
        if s.get_char(at + k) != p.get_char(k) {
            assert(s@.skip(at as int).subrange(0, m as int)[k as int] != p@[k as int]);
            return false;
        }
        k = k + 1;
    }
    assert(s@.skip(at as int).subrange(0, m as int) =~= p@);
    true
}

/// Whether two strings hold the same characters.
pub fn same_text(a: &str, b: &str) -> (r: bool)
    ensures
        r == (a@ == b@),
{
    if a.unicode_len() != b.unicode_len() {
        return false;
    }
    assert(a@.skip(0) =~= a@);
    let r = occurs_at(a, 0, b);
    proof {
        if r {
            assert(a@.subrange(0, b@.len() as int) =~= a@);
        }
    }
    r
}

/// Whether `s` starts with `p`, as `str::starts_with` tells.
pub fn starts_with(s: &str, p: &str) -> (r: bool)
    ensures
        r == is_prefix(p@, s@),
{
    assert(s@.skip(0) =~= s@);
    occurs_at(s, 0, p)
}

/// Whether `s` ends with `p`, as `str::ends_with` tells.
pub fn ends_with(s: &str, p: &str) -> (r: bool)
    ensures
        r == is_suffix(p@, s@),
{
    let n = s.unicode_len();
    let m = p.unicode_len();
    if m > n {
        return false;
    }
    let r = occurs_at(s, n - m, p);
    proof {
        if r {
            assert(s@.subrange(n - m, n as int) =~= s@.skip(n - m).subrange(0, m as int));
        } else if is_suffix(p@, s@) {
            assert(s@.subrange(n - m, n as int) =~= s@.skip(n - m).subrange(0, m as int));
        }
    }
    r
}

/// `s` with every leading repetition of `p` removed, as
/// `str::trim_start_matches` gives it for a string pattern.
pub fn trim_start_matches<'a>(s: &'a str, p: &str) -> (r: &'a str)
    ensures
        r@ == trim_start(s@, p@),
{
    let n = s.unicode_len();
    let m = p.unicode_len();
    let mut i: usize = 0;
    assert(s@.skip(0) =~= s@);
    if m == 0 {
        assert(s@.subrange(0, n as int) =~= s@);
        return s.substring_char(0, n);
    }
    while occurs_at(s, i, p)
        invariant
            n == s@.len(),
            m == p@.len(),
            m > 0,
            i <= n,
            trim_start(s@, p@) == trim_start(s@.skip(i as int), p@),
        decreases n - i,
    {
        assert(s@.skip(i as int).skip(m as int) =~= s@.skip(i + m));
        i = i + m;
    }
    assert(s@.subrange(i as int, n as int) =~= s@.skip(i as int));
    s.substring_char(i, n)
}

} // verus!
