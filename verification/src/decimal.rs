//! Decimal rendering of unsigned numbers: plain digits, zero-padded fields,
//! and fraction digits with the trailing zeros removed.

use vstd::prelude::*;
use vstd::string::StringExecFns;
use vstd::string::StrSliceExecFns;

verus! {

/// The character for one decimal digit.
pub open spec fn digit_char(d: int) -> char {
    if d == 0 {
        '0'
    } else if d == 1 {
        '1'
    } else if d == 2 {
        '2'
    } else if d == 3 {
        '3'
    } else if d == 4 {
        '4'
    } else if d == 5 {
        '5'
    } else if d == 6 {
        '6'
    } else if d == 7 {
        '7'
    } else if d == 8 {
        '8'
    } else {
        '9'
    }
}

/// The decimal digits of `n`, most significant first, with no leading zeros
/// (a single `'0'` for zero).
pub open spec fn dec_digits(n: nat) -> Seq<char>
    decreases n,
{
    if n < 10 {
        seq![digit_char(n as int)]
    } else {
        dec_digits(n / 10).push(digit_char((n % 10) as int))
    }
}

/// `k` zero characters (none for `k <= 0`).
pub open spec fn zeros(k: int) -> Seq<char> {
    if k > 0 {
        Seq::new(k as nat, |i: int| '0')
    } else {
        Seq::empty()
    }
}

/// `n` in decimal, left-padded with zeros to at least `width` characters.
pub open spec fn padded_dec(n: nat, width: int) -> Seq<char> {
    zeros(width - dec_digits(n).len()) + dec_digits(n)
}

/// The same digits with every trailing `'0'` removed.
pub open spec fn trim_zeros(s: Seq<char>) -> Seq<char>
    decreases s.len(),
{
    if s.len() > 0 && s.last() == '0' {
        trim_zeros(s.drop_last())
    } else {
        s
    }
}

pub open spec fn pow10(e: nat) -> nat
    decreases e,
{
    if e == 0 {
        1
    } else {
        10 * pow10((e - 1) as nat)
    }
}

proof fn lemma_dec_digits_len(n: nat)
    ensures
        dec_digits(n).len() >= 1,
    decreases n,
{
    if n >= 10 {
        lemma_dec_digits_len(n / 10);
    }
}

proof fn lemma_pow10_ge(e: nat)
    ensures
        pow10(e) >= 1,
        e >= 1 ==> pow10(e) >= 10,
    decreases e,
{
    if e >= 1 {
        lemma_pow10_ge((e - 1) as nat);
    }
}

fn digit_str(d: u64) -> (r: &'static str)
    requires
        d < 10,
    ensures
        r@ =~= seq![digit_char(d as int)],
{
    proof {
        reveal_strlit("0");
        reveal_strlit("1");
        reveal_strlit("2");
        reveal_strlit("3");
        reveal_strlit("4");
        reveal_strlit("5");
        reveal_strlit("6");
        reveal_strlit("7");
        reveal_strlit("8");
        reveal_strlit("9");
    }
    match d {
        0 => "0",
        1 => "1",
        2 => "2",
        3 => "3",
        4 => "4",
        5 => "5",
        6 => "6",
        7 => "7",
        8 => "8",
        _ => "9",
    }
}

/// `n` in decimal with no leading zeros.
pub fn u64_to_dec(n: u64) -> (r: String)
    ensures
        r@ == dec_digits(n as nat),
    decreases n,
{
    if n < 10 {
        String::from_str(digit_str(n))
    } else {
        let mut s = u64_to_dec(n / 10);
        s.append(digit_str(n % 10));
        proof {
            assert(s@ =~= dec_digits((n / 10) as nat).push(digit_char((n % 10) as int)));
        }
        s
    }
}

/// `n` in decimal, left-padded with zeros to at least `width` characters.
pub fn format_padded(n: u64, width: usize) -> (r: String)
    ensures
        r@ == padded_dec(n as nat, width as int),
{
    let digits = u64_to_dec(n);
    let dlen = digits.as_str().unicode_len();
    let mut s = String::new();
    let mut j: usize = dlen;
    while j < width
        invariant
            dlen == dec_digits(n as nat).len(),
            dlen <= j,
            j <= width || j == dlen,
            s@ =~= zeros(j - dlen),
        decreases width - j,
    {
        s.append("0");
        j = j + 1;
        proof {
            reveal_strlit("0");
            assert(s@ =~= zeros(j - dlen));
        }
    }
    s.append(digits.as_str());
    proof {
        assert(s@ =~= padded_dec(n as nat, width as int));
    }
    s
}

proof fn lemma_trim_push_zero(s: Seq<char>)
    ensures
        trim_zeros(s.push('0')) == trim_zeros(s),
{
    assert(s.push('0').drop_last() =~= s);
}

proof fn lemma_dec_digits_times10(m: nat)
    requires
        m >= 1,
    ensures
        dec_digits(m * 10) == dec_digits(m).push('0'),
{
    assert(m * 10 >= 10);
    assert((m * 10) / 10 == m) by (nonlinear_arith);
    assert((m * 10) % 10 == 0) by (nonlinear_arith);
}

proof fn lemma_trim_padded_times10(m: nat, w: int)
    requires
        m >= 1,
    ensures
        trim_zeros(padded_dec(m * 10, w)) == trim_zeros(padded_dec(m, w - 1)),
{
    lemma_dec_digits_times10(m);
    lemma_dec_digits_len(m);
    assert(padded_dec(m * 10, w) =~= padded_dec(m, w - 1).push('0'));
    lemma_trim_push_zero(padded_dec(m, w - 1));
}

proof fn lemma_trim_padded_id(m: nat, w: int)
    requires
        m % 10 != 0,
    ensures
        trim_zeros(padded_dec(m, w)) == padded_dec(m, w),
{
    lemma_dec_digits_len(m);
    assert(dec_digits(m).last() == digit_char((m % 10) as int));
    assert(padded_dec(m, w).last() == dec_digits(m).last());
    assert(padded_dec(m, w).last() != '0');
}

/// The fraction digits of `frac` (at most `10^width - 1`) padded to `width`
/// places, with the trailing zeros removed; `frac` must not be zero.
pub fn format_fraction(frac: u64, width: usize) -> (r: String)
    requires
        1 <= frac,
        frac < pow10(width as nat),
        1 <= width,
    ensures
        r@ == trim_zeros(padded_dec(frac as nat, width as int)),
{
    let mut f = frac;
    let mut w: usize = width;
    while f % 10 == 0
        invariant
            1 <= f,
            1 <= w,
            f < pow10(w as nat),
            trim_zeros(padded_dec(f as nat, w as int)) == trim_zeros(
                padded_dec(frac as nat, width as int),
            ),
        decreases f,
    {
        proof {
            vstd::arithmetic::div_mod::lemma_fundamental_div_mod(f as int, 10);
            assert(f == 10 * (f / 10));
            assert(f >= 10);
            assert(f / 10 >= 1);
            assert(pow10(w as nat) == 10 * pow10((w - 1) as nat));
            assert(f / 10 < pow10((w - 1) as nat)) by (nonlinear_arith)
                requires
                    f < 10 * pow10((w - 1) as nat),
                    f == 10 * (f / 10),
            ;
            lemma_pow10_ge((w - 1) as nat);
            if w - 1 == 0 {
                assert(pow10((w - 1) as nat) == 1);
                assert(false);
            }
            lemma_trim_padded_times10((f / 10) as nat, w as int);
            assert((f / 10) * 10 == f) by (nonlinear_arith)
                requires
                    f == 10 * (f / 10),
            ;
        }
        f = f / 10;
        w = w - 1;
    }
    proof {
        lemma_trim_padded_id(f as nat, w as int);
    }
    format_padded(f, w)
}

} // verus!
