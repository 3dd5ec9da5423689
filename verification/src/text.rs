//! Character-level text utilities: whitespace scanning, token boundaries,
//! digit-string parsing and decimal/octal rendering of integers.
//!
//! Everything here is pure; the spec functions are the mathematical model
//! that the rest of the crate's contracts are written against.

use vstd::prelude::*;
use vstd::string::*;

verus! {

/// Whitespace that separates fields inside one listing line.
pub open spec fn is_ws(c: char) -> bool {
    c == ' ' || c == '\t'
}

/// Whitespace stripped by `trim`: field whitespace plus line ends.
pub open spec fn is_trim_ws(c: char) -> bool {
    c == ' ' || c == '\t' || c == '\n' || c == '\r'
}

pub open spec fn is_digit(c: char) -> bool {
    '0' <= c && c <= '9'
}

pub open spec fn digit_val(c: char) -> int {
    c as int - '0' as int
}

/// A word character, as in the timestamp month token.
pub open spec fn is_word_char(c: char) -> bool {
    ('a' <= c && c <= 'z') || ('A' <= c && c <= 'Z') || ('0' <= c && c <= '9') || c == '_'
}

pub open spec fn all_digits(t: Seq<char>) -> bool {
    forall|k: int| 0 <= k < t.len() ==> is_digit(#[trigger] t[k])
}

/// The value of a digit string read in base ten.
pub open spec fn digits_val(t: Seq<char>) -> int
    decreases t.len(),
{
    if t.len() == 0 {
        0
    } else {
        digits_val(t.drop_last()) * 10 + digit_val(t.last())
    }
}

/// Index of the first non-whitespace character at or after `i`.
pub open spec fn spec_skip_ws(s: Seq<char>, i: nat) -> nat
    decreases s.len() - i,
{
    if i >= s.len() {
        s.len()
    } else if is_ws(s[i as int]) {
        spec_skip_ws(s, i + 1)
    } else {
        i
    }
}

/// Index just past the token that starts at `i`: the first whitespace
/// character at or after `i`, or the end of the text.
pub open spec fn spec_token_end(s: Seq<char>, i: nat) -> nat
    decreases s.len() - i,
{
    if i >= s.len() {
        s.len()
    } else if is_ws(s[i as int]) {
        i
    } else {
        spec_token_end(s, i + 1)
    }
}

/// The largest index `< j` holding `c`, or `-1` if there is none.
pub open spec fn spec_rfind(s: Seq<char>, j: nat, c: char) -> int
    decreases j,
{
    if j == 0 {
        -1
    } else if s[j - 1] == c {
        j - 1
    } else {
        spec_rfind(s, (j - 1) as nat, c)
    }
}

pub fn skip_ws(s: &str, n: usize, i: usize) -> (r: usize)
    requires
        n == s@.len(),
        i <= n,
    ensures
        r == spec_skip_ws(s@, i as nat),
        i <= r <= n,
        r < n ==> !is_ws(s@[r as int]),
        forall|k: int| i <= k < r ==> is_ws(#[trigger] s@[k]),
    decreases n - i,
{
    if i < n {
        let c = s.get_char(i);
        if c == ' ' || c == '\t' {
            return skip_ws(s, n, i + 1);
        }
    }
    i
}

pub fn token_end(s: &str, n: usize, i: usize) -> (r: usize)
    requires
        n == s@.len(),
        i <= n,
    ensures
        r == spec_token_end(s@, i as nat),
        i <= r <= n,
        r < n ==> is_ws(s@[r as int]),
        forall|k: int| i <= k < r ==> !is_ws(#[trigger] s@[k]),
    decreases n - i,
{
    if i < n {
        let c = s.get_char(i);
        if !(c == ' ' || c == '\t') {
            return token_end(s, n, i + 1);
        }
    }
    i
}

/// The last occurrence of `c` strictly before index `j`.
pub fn rfind_before(s: &str, n: usize, j: usize, c: char) -> (r: Option<usize>)
    requires
        n == s@.len(),
        j <= n,
    ensures
        match r {
            Some(k) => k == spec_rfind(s@, j as nat, c) && k < j && s@[k as int] == c,
            None => spec_rfind(s@, j as nat, c) == -1,
        },
    decreases j,
{
    if j == 0 {
        None
    } else if s.get_char(j - 1) == c {
        Some(j - 1)
    } else {
        rfind_before(s, n, j - 1, c)
    }
}

pub fn all_digits_range(s: &str, n: usize, i: usize, j: usize) -> (r: bool)
    requires
        n == s@.len(),
        i <= j <= n,
    ensures
        r == all_digits(s@.subrange(i as int, j as int)),
    decreases j - i,
{
    if i == j {
        true
    } else {
        let c = s.get_char(i);
        if c >= '0' && c <= '9' {
            let r = all_digits_range(s, n, i + 1, j);
            proof {
                let t = s@.subrange(i as int, j as int);
                let u = s@.subrange(i + 1, j as int);
                if r {
                    assert forall|k: int| 0 <= k < t.len() implies is_digit(#[trigger] t[k]) by {
                        if k > 0 {
                            assert(t[k] == u[k - 1]);
                        }
                    }
                } else {
                    let k = choose|k: int| 0 <= k < u.len() && !is_digit(#[trigger] u[k]);
                    assert(t[k + 1] == u[k]);
                }
            }
            r
        } else {
            proof {
                let t = s@.subrange(i as int, j as int);
                assert(!is_digit(t[0]));
            }
            false
        }
    }
}

/// A longer all-digit string never has a smaller value than a prefix of it.
proof fn lemma_digits_val_prefix(t: Seq<char>, m: int)
    requires
        0 <= m <= t.len(),
        all_digits(t),
    ensures
        digits_val(t.take(m)) >= 0,
        digits_val(t) >= digits_val(t.take(m)),
    decreases t.len() - m,
{
    if m == 0 {
        assert(t.take(0).len() == 0);
        lemma_digits_val_nonneg(t);
    } else if m == t.len() {
        assert(t.take(m) =~= t);
        lemma_digits_val_nonneg(t);
    } else {
        lemma_digits_val_prefix(t, m + 1);
        assert(t.take(m + 1).drop_last() =~= t.take(m));
        assert(digits_val(t.take(m + 1)) == digits_val(t.take(m)) * 10 + digit_val(t[m]));
        lemma_digits_val_nonneg(t.take(m));
        assert(is_digit(t[m]));
    }
}

proof fn lemma_digits_val_nonneg(t: Seq<char>)
    requires
        all_digits(t),
    ensures
        digits_val(t) >= 0,
    decreases t.len(),
{
    if t.len() > 0 {
        assert(all_digits(t.drop_last())) by {
            assert(forall|k: int| 0 <= k < t.len() - 1 ==> t.drop_last()[k] == #[trigger] t[k]);
        }
        lemma_digits_val_nonneg(t.drop_last());
        assert(is_digit(t.last()));
    }
}

/// A digit string of at most four digits stays below ten thousand.
pub proof fn lemma_digits_val_small(t: Seq<char>)
    requires
        all_digits(t),
    ensures
        digits_val(t) >= 0,
        t.len() <= 1 ==> digits_val(t) <= 9,
        t.len() <= 2 ==> digits_val(t) <= 99,
        t.len() <= 3 ==> digits_val(t) <= 999,
        t.len() <= 4 ==> digits_val(t) <= 9999,
    decreases t.len(),
{
    if t.len() == 0 {
    } else {
        assert(all_digits(t.drop_last())) by {
            assert(forall|k: int| 0 <= k < t.len() - 1 ==> t.drop_last()[k] == #[trigger] t[k]);
        }
        lemma_digits_val_small(t.drop_last());
        assert(is_digit(t.last()));
    }
}

/// Parses the decimal digit string `s[i..j]` as an unsigned integer,
/// refusing empty or non-digit text and any value above `bound`.
pub fn parse_uint(s: &str, n: usize, i: usize, j: usize, bound: u64) -> (r: Option<u64>)
    requires
        n == s@.len(),
        i <= j <= n,
        bound >= 9,
    ensures
        ({
            let t = s@.subrange(i as int, j as int);
            match r {
                Some(v) => i < j && all_digits(t) && digits_val(t) == v && v <= bound,
                None => !(i < j && all_digits(t) && digits_val(t) <= bound),
            }
        }),
{
    if i == j {
        return None;
    }
    let ghost t = s@.subrange(i as int, j as int);
    let mut val: u64 = 0;
    let mut k: usize = i;
    while k < j
        invariant
            n == s@.len(),
            i <= k <= j <= n,
            bound >= 9,
            t == s@.subrange(i as int, j as int),
            all_digits(t.take(k - i)),
            val == digits_val(t.take(k - i)),
            val <= bound,
        decreases j - k,
    {
        let c = s.get_char(k);
        if !(c >= '0' && c <= '9') {
            proof {
                assert(t[k - i] == s@[k as int]);
                assert(!is_digit(t[k - i]));
            }
            return None;
        }
        let d: u64 = (c as u32) as u64 - 48;
        proof {
            assert(d == digit_val(s@[k as int]));
        }
        if val > (bound - d) / 10 {
            proof {
                vstd::arithmetic::div_mod::lemma_fundamental_div_mod((bound - d) as int, 10);
                let q = ((bound - d) as int) / 10;
                assert(val * 10 >= (q + 1) * 10);
                assert(val * 10 + d > bound);
                assert(t.take(k - i + 1).drop_last() =~= t.take(k - i));
                assert(t.take(k - i + 1).last() == t[k - i]);
                assert(t[k - i] == s@[k as int]);
                assert(digits_val(t.take(k - i + 1)) == val * 10 + d);
                if all_digits(t) {
                    lemma_digits_val_prefix(t, k - i + 1);
                }
            }
            return None;
        }
        proof {
            vstd::arithmetic::div_mod::lemma_fundamental_div_mod((bound - d) as int, 10);
            assert(val * 10 <= ((bound - d) as int / 10) * 10);
            assert(val * 10 + d <= bound);
            assert(t.take(k - i + 1).drop_last() =~= t.take(k - i));
            assert(t.take(k - i + 1).last() == t[k - i]);
            assert(t[k - i] == s@[k as int]);
            assert(forall|x: int| 0 <= x < k - i ==> t.take(k - i + 1)[x] == #[trigger] t.take(k - i)[x]);
        }
        val = val * 10 + d;
        k += 1;
    }
    proof {
        assert(t.take(j - i) =~= t);
    }
    Some(val)
}

/// Decimal digit string of `n`, most significant digit first.
pub open spec fn spec_dec_digit(n: int) -> char {
    if n == 0 { '0' }
    else if n == 1 { '1' }
    else if n == 2 { '2' }
    else if n == 3 { '3' }
    else if n == 4 { '4' }
    else if n == 5 { '5' }
    else if n == 6 { '6' }
    else if n == 7 { '7' }
    else if n == 8 { '8' }
    else { '9' }
}

pub open spec fn spec_dec(n: int) -> Seq<char>
    decreases n,
{
    if n < 10 {
        seq![spec_dec_digit(n)]
    } else {
        spec_dec(n / 10) + seq![spec_dec_digit(n % 10)]
    }
}

pub open spec fn spec_oct(n: int) -> Seq<char>
    decreases n,
{
    if n < 8 {
        seq![spec_dec_digit(n)]
    } else {
        spec_oct(n / 8) + seq![spec_dec_digit(n % 8)]
    }
}

fn dec_digit_str(d: u8) -> (r: &'static str)
    requires
        d < 10,
    ensures
        r@ == seq![spec_dec_digit(d as int)],
{
    proof {
        reveal_strlit("0");
        reveal_strlit("1");
        reveal_strlit("2");
        reveal_strlit("3");
        reveal_strlit("4");
        reveal_strlit("5");
        reveal_strlit("6");
        reveal_strlit("7");
        reveal_strlit("8");
        reveal_strlit("9");
    }
    let r: &'static str = match d {
        0 => "0",
        1 => "1",
        2 => "2",
        3 => "3",
        4 => "4",
        5 => "5",
        6 => "6",
        7 => "7",
        8 => "8",
        _ => "9",
    };
    proof {
        assert(r@ =~= seq![spec_dec_digit(d as int)]);
    }
    r
}

/// Renders `n` in decimal.
pub fn dec_u64(n: u64) -> (r: String)
    ensures
        r@ == spec_dec(n as int),
    decreases n,
{
    if n < 10 {
        String::from_str(dec_digit_str(n as u8))
    } else {
        let mut s = dec_u64(n / 10);
        s.append(dec_digit_str((n % 10) as u8));
        s
    }
}

/// Renders `n` in octal, as `chmod` and `mkdir -m` expect.
pub fn oct_u32(n: u32) -> (r: String)
    ensures
        r@ == spec_oct(n as int),
    decreases n,
{
    if n < 8 {
        String::from_str(dec_digit_str(n as u8))
    } else {
        let mut s = oct_u32(n / 8);
        s.append(dec_digit_str((n % 8) as u8));
        s
    }
}

pub open spec fn spec_pad2(n: int) -> Seq<char> {
    if n < 10 {
        seq!['0'] + spec_dec(n)
    } else {
        spec_dec(n)
    }
}

pub open spec fn spec_pad4(n: int) -> Seq<char> {
    if n < 10 {
        seq!['0', '0', '0'] + spec_dec(n)
    } else if n < 100 {
        seq!['0', '0'] + spec_dec(n)
    } else if n < 1000 {
        seq!['0'] + spec_dec(n)
    } else {
        spec_dec(n)
    }
}

/// Renders `n` zero-padded to two digits.
pub fn pad2_u8(n: u8) -> (r: String)
    requires
        n < 100,
    ensures
        r@ == spec_pad2(n as int),
{
    proof {
        reveal_strlit("0");
    }
    if n < 10 {
        let mut s = String::from_str("0");
        s.append(dec_digit_str(n));
        proof {
            assert(s@ =~= spec_pad2(n as int));
        }
        s
    } else {
        dec_u64(n as u64)
    }
}

/// Renders `n` zero-padded to four digits.
pub fn pad4_u32(n: u32) -> (r: String)
    requires
        n < 10000,
    ensures
        r@ == spec_pad4(n as int),
{
    proof {
        reveal_strlit("0");
        reveal_strlit("00");
        reveal_strlit("000");
    }
    let mut s = if n < 10 {
        String::from_str("000")
    } else if n < 100 {
        String::from_str("00")
    } else if n < 1000 {
        String::from_str("0")
    } else {
        String::new()
    };
    let d = dec_u64(n as u64);
    s.append(d.as_str());
    proof {
        assert(s@ =~= spec_pad4(n as int));
    }
    s
}

/// Index of the first non-trim-whitespace character at or after `i`.
pub open spec fn spec_ltrim(s: Seq<char>, i: nat) -> nat
    decreases s.len() - i,
{
    if i >= s.len() {
        s.len()
    } else if is_trim_ws(s[i as int]) {
        spec_ltrim(s, i + 1)
    } else {
        i
    }
}

/// Index just past the last non-trim-whitespace character before `j`.
pub open spec fn spec_rtrim(s: Seq<char>, j: nat) -> nat
    decreases j,
{
    if j == 0 {
        0
    } else if is_trim_ws(s[j - 1]) {
        spec_rtrim(s, (j - 1) as nat)
    } else {
        j
    }
}

/// The text with leading and trailing whitespace removed.
pub open spec fn spec_trim(s: Seq<char>) -> Seq<char> {
    if spec_ltrim(s, 0) == s.len() {
        Seq::empty()
    } else {
        s.subrange(spec_ltrim(s, 0) as int, spec_rtrim(s, s.len()) as int)
    }
}

/// `spec_rtrim` never exceeds its bound.
pub proof fn lemma_rtrim_le(s: Seq<char>, j: nat)
    requires
        j <= s.len(),
    ensures
        spec_rtrim(s, j) <= j,
    decreases j,
{
    if j > 0 && is_trim_ws(s[j - 1]) {
        lemma_rtrim_le(s, (j - 1) as nat);
    }
}

pub proof fn lemma_rtrim_past_content(s: Seq<char>, j: nat, i: nat)
    requires
        i < j <= s.len(),
        !is_trim_ws(s[i as int]),
    ensures
        spec_rtrim(s, j) > i,
    decreases j,
{
    if j - 1 > i && is_trim_ws(s[j - 1]) {
        lemma_rtrim_past_content(s, (j - 1) as nat, i);
    }
}

fn ltrim_at(s: &str, n: usize, i: usize) -> (r: usize)
    requires
        n == s@.len(),
        i <= n,
    ensures
        r == spec_ltrim(s@, i as nat),
        i <= r <= n,
        r < n ==> !is_trim_ws(s@[r as int]),
    decreases n - i,
{
    if i < n {
        let c = s.get_char(i);
        if c == ' ' || c == '\t' || c == '\n' || c == '\r' {
            return ltrim_at(s, n, i + 1);
        }
    }
    i
}

fn rtrim_at(s: &str, n: usize, j: usize) -> (r: usize)
    requires
        n == s@.len(),
        j <= n,
    ensures
        r == spec_rtrim(s@, j as nat),
        r <= j,
    decreases j,
{
    if j > 0 {
        let c = s.get_char(j - 1);
        if c == ' ' || c == '\t' || c == '\n' || c == '\r' {
            return rtrim_at(s, n, j - 1);
        }
    }
    j
}

/// Strips leading and trailing whitespace.
pub fn trim<'a>(s: &'a str, n: usize) -> (r: &'a str)
    requires
        n == s@.len(),
    ensures
        r@ == spec_trim(s@),
{
    let l = ltrim_at(s, n, 0);
    if l == n {
        proof {
            reveal_strlit("");
            assert(""@ =~= spec_trim(s@));
        }
        ""
    } else {
        let rr = rtrim_at(s, n, n);
        proof {
            lemma_rtrim_past_content(s@, n as nat, l as nat);
        }
        s.substring_char(l, rr)
    }
}

/// First index in `[i, j)` holding `c`, or `j`.
pub open spec fn spec_find_char_before(s: Seq<char>, i: nat, j: nat, c: char) -> nat
    decreases j - i,
{
    if i >= j {
        j
    } else if s[i as int] == c {
        i
    } else {
        spec_find_char_before(s, i + 1, j, c)
    }
}

pub fn find_char_before(s: &str, n: usize, i: usize, j: usize, c: char) -> (r: usize)
    requires
        n == s@.len(),
        i <= j <= n,
    ensures
        r == spec_find_char_before(s@, i as nat, j as nat, c),
        i <= r <= j,
    decreases j - i,
{
    if i >= j {
        j
    } else if s.get_char(i) == c {
        i
    } else {
        find_char_before(s, n, i + 1, j, c)
    }
}

} // verus!
