//! Verified text helpers: decimal, hexadecimal and binary rendering of
//! register values, string equality, and substring search.

use vstd::prelude::*;
use vstd::string::StrSliceExecFns;
use vstd::string::StringExecFns;

verus! {

/// The character for one decimal digit.
pub open spec fn spec_dec_digit(d: nat) -> char {
    if d == 0 {
        '0'
    } else if d == 1 {
        '1'
    } else if d == 2 {
        '2'
    } else if d == 3 {
        '3'
    } else if d == 4 {
        '4'
    } else if d == 5 {
        '5'
    } else if d == 6 {
        '6'
    } else if d == 7 {
        '7'
    } else if d == 8 {
        '8'
    } else {
        '9'
    }
}

/// The decimal rendering of a number, most significant digit first,
/// without sign and without leading zeros (a single `'0'` for zero).
pub open spec fn spec_dec(n: nat) -> Seq<char>
    decreases n,
{
    if n < 10 {
        seq![spec_dec_digit(n)]
    } else {
        spec_dec(n / 10) + seq![spec_dec_digit(n % 10)]
    }
}

/// One decimal digit as a string slice.
fn dec_digit_str(d: u64) -> (r: &'static str)
    requires
        d < 10,
    ensures
        r@ == seq![spec_dec_digit(d as nat)],
{
    proof {
        reveal_strlit("0");
        reveal_strlit("1");
        reveal_strlit("2");
        reveal_strlit("3");
        reveal_strlit("4");
        reveal_strlit("5");
        reveal_strlit("6");
        reveal_strlit("7");
        reveal_strlit("8");
        reveal_strlit("9");
    }
    if d == 0 {
        "0"
    } else if d == 1 {
        "1"
    } else if d == 2 {
        "2"
    } else if d == 3 {
        "3"
    } else if d == 4 {
        "4"
    } else if d == 5 {
        "5"
    } else if d == 6 {
        "6"
    } else if d == 7 {
        "7"
    } else if d == 8 {
        "8"
    } else {
        "9"
    }
}

/// Renders a number in decimal.
pub fn u64_to_dec(n: u64) -> (r: String)
    ensures
        r@ == spec_dec(n as nat),
    decreases n,
{
    if n < 10 {
        String::from_str(dec_digit_str(n))
    } else {
        let mut s = u64_to_dec(n / 10);
        s.append(dec_digit_str(n % 10));
        s
    }
}

/// The character for one hexadecimal digit, upper case.
pub open spec fn spec_hex_digit(d: nat) -> char {
    if d < 10 {
        spec_dec_digit(d)
    } else if d == 10 {
        'A'
    } else if d == 11 {
        'B'
    } else if d == 12 {
        'C'
    } else if d == 13 {
        'D'
    } else if d == 14 {
        'E'
    } else {
        'F'
    }
}

/// One hexadecimal digit as a string slice.
fn hex_digit_str(d: u16) -> (r: &'static str)
    requires
        d < 16,
    ensures
        r@ == seq![spec_hex_digit(d as nat)],
{
    proof {
        reveal_strlit("A");
        reveal_strlit("B");
        reveal_strlit("C");
        reveal_strlit("D");
        reveal_strlit("E");
        reveal_strlit("F");
    }
    if d < 10 {
        dec_digit_str(d as u64)
    } else if d == 10 {
        "A"
    } else if d == 11 {
        "B"
    } else if d == 12 {
        "C"
    } else if d == 13 {
        "D"
    } else if d == 14 {
        "E"
    } else {
        "F"
    }
}

/// The hexadecimal rendering of a register value: `0x` followed by four
/// upper-case digits, most significant first.
pub open spec fn spec_hex4(v: u16) -> Seq<char> {
    "0x"@ + seq![
        spec_hex_digit((v as nat / 0x1000) % 16),
        spec_hex_digit((v as nat / 0x100) % 16),
        spec_hex_digit((v as nat / 0x10) % 16),
        spec_hex_digit(v as nat % 16),
    ]
}

/// Renders a register value as `0x` plus four upper-case hexadecimal digits.
pub fn u16_to_hex4(v: u16) -> (r: String)
    ensures
        r@ == spec_hex4(v),
{
    let mut s = String::from_str("0x");
    s.append(hex_digit_str((v / 0x1000) % 16));
    s.append(hex_digit_str((v / 0x100) % 16));
    s.append(hex_digit_str((v / 0x10) % 16));
    s.append(hex_digit_str(v % 16));
    s
}

/// The binary digits of `v` over `width` bit positions, most significant
/// bit first.
pub open spec fn spec_bin_digits(v: nat, width: nat) -> Seq<char>
    decreases width,
{
    if width == 0 {
        Seq::empty()
    } else {
        spec_bin_digits(v / 2, (width - 1) as nat) + seq![spec_dec_digit(v % 2)]
    }
}

/// The binary rendering of a register value: `0b` followed by sixteen
/// zero-padded binary digits.
pub open spec fn spec_bin16(v: u16) -> Seq<char> {
    "0b"@ + spec_bin_digits(v as nat, 16)
}

/// Appends the binary digits of `v` over `width` bit positions.
fn append_bin_digits(s: &mut String, v: u16, width: u16)
    requires
        width <= 16,
    ensures
        final(s)@ == old(s)@ + spec_bin_digits(v as nat, width as nat),
    decreases width,
{
    if width == 0 {
        proof {
            assert(s@ =~= s@ + spec_bin_digits(v as nat, 0));
        }
    } else {
        append_bin_digits(s, v / 2, width - 1);
        s.append(dec_digit_str((v % 2) as u64));
        proof {
            assert(old(s)@ + spec_bin_digits(v as nat, width as nat) =~= old(s)@
                + spec_bin_digits(v as nat / 2, (width - 1) as nat) + seq![
                spec_dec_digit(v as nat % 2),
            ]);
        }
    }
}

/// Renders a register value as `0b` plus sixteen zero-padded binary digits.
pub fn u16_to_bin16(v: u16) -> (r: String)
    ensures
        r@ == spec_bin16(v),
{
    let mut s = String::from_str("0b");
    append_bin_digits(&mut s, v, 16);
    s
}

/// Whether two strings hold the same characters.
pub fn str_eq(a: &str, b: &str) -> (r: bool)
    ensures
        r == (a@ == b@),
{
    let alen = a.unicode_len();
    let blen = b.unicode_len();
    if alen != blen {
        return false;
    }
    let mut i: usize = 0;
    while i < alen
        invariant
            alen == a@.len(),
            blen == b@.len(),
            alen == blen,
            i <= alen,
            forall|j: int| 0 <= j < i ==> a@[j] == b@[j],
        decreases alen - i,
    {
        if a.get_char(i) != b.get_char(i) {
            return false;
        }
        i = i + 1;
    }
    proof {
        assert(a@ =~= b@);
    }
    true
}

/// Whether `pat` occurs in `s` as a contiguous run of characters.
pub open spec fn spec_contains(s: Seq<char>, pat: Seq<char>) -> bool {
    exists|i: int|
        0 <= i && i + pat.len() <= s.len() && #[trigger] s.subrange(i, i + pat.len() as int)
            == pat
}

/// Whether `pat` matches `s` at character offset `at`.
fn matches_at(s: &str, pat: &str, at: usize) -> (r: bool)
    requires
        at + pat@.len() <= s@.len(),
    ensures
        r == (s@.subrange(at as int, at + pat@.len() as int) == pat@),
{
    let n = s.unicode_len();
    let m = pat.unicode_len();
    let mut k: usize = 0;
    while k < m
        invariant
            n == s@.len(),
            m == pat@.len(),
            at + m <= n,
            k <= m,
            forall|l: int| 0 <= l < k ==> s@[at + l] == pat@[l],
        decreases m - k,
    {
        if s.get_char(at + k) != pat.get_char(k) {
            proof {
                assert(s@.subrange(at as int, at + pat@.len() as int)[k as int] != pat@[k as int]);
            }
            return false;
        }
        k = k + 1;
    }
    proof {
        assert(s@.subrange(at as int, at + pat@.len() as int) =~= pat@);
    }
    true
}

/// Substring search: whether `pat` occurs anywhere in `s`.
pub fn contains_substring(s: &str, pat: &str) -> (r: bool)
    ensures
        r == spec_contains(s@, pat@),
{
    let n = s.unicode_len();
    let m = pat.unicode_len();
    if m > n {
        return false;
    }
    if m == 0 {
        proof {
            assert(s@.subrange(0, 0 + pat@.len() as int) =~= pat@);
        }
        return true;
    }
    let mut i: usize = 0;
    while i <= n - m
        invariant
            n == s@.len(),
            m == pat@.len(),
            0 < m <= n,
            i <= n - m + 1,
            forall|j: int|
                0 <= j < i ==> #[trigger] s@.subrange(j, j + pat@.len() as int) != pat@,
        decreases n - i,
    {
        if matches_at(s, pat, i) {
            return true;
        }
        i = i + 1;
    }
    false
}

} // verus!
