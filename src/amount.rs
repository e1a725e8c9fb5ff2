//! Amounts in satoshis and their decimal rendering in whole coins.
use vstd::prelude::*;
use vstd::string::*;

verus! {

/// Satoshis in one coin.
pub const SATS_PER_COIN: u128 = 100_000_000;

/// The character of a decimal digit.
pub open spec fn digit_char(d: nat) -> char {
    if d == 0 { '0' }
    else if d == 1 { '1' }
    else if d == 2 { '2' }
    else if d == 3 { '3' }
    else if d == 4 { '4' }
    else if d == 5 { '5' }
    else if d == 6 { '6' }
    else if d == 7 { '7' }
    else if d == 8 { '8' }
    else { '9' }
}

/// The decimal digits of `n`, without leading zeros (`0` is written `"0"`).
pub open spec fn decimal(n: nat) -> Seq<char>
    decreases n,
{
    if n < 10 {
        seq![digit_char(n)]
    } else {
        decimal(n / 10).push(digit_char(n % 10))
    }
}

/// The last `width` decimal digits of `n`, padded with leading zeros.
pub open spec fn padded_digits(n: nat, width: nat) -> Seq<char>
    decreases width,
{
    if width == 0 {
        seq![]
    } else {
        padded_digits(n / 10, (width - 1) as nat).push(digit_char(n % 10))
    }
}

/// `s` without its trailing `'0'` characters.
pub open spec fn trim_trailing_zeros(s: Seq<char>) -> Seq<char>
    decreases s.len(),
{
    if s.len() > 0 && s.last() == '0' {
        trim_trailing_zeros(s.drop_last())
    } else {
        s
    }
}

/// Ten to the power `w`.
pub open spec fn pow10(w: nat) -> nat
    decreases w,
{
    if w == 0 { 1 } else { 10 * pow10((w - 1) as nat) }
}

/// An amount of satoshis written in whole coins: the integer part, then, when the
/// amount is not a whole number of coins, a point and the eight fractional digits
/// without trailing zeros (`12100000000` is `"121"`, `10099990000` is `"100.9999"`).
pub open spec fn coin_text(sats: nat) -> Seq<char> {
    let whole = sats / (SATS_PER_COIN as nat);
    let frac = sats % (SATS_PER_COIN as nat);
    if frac == 0 {
        decimal(whole)
    } else {
        decimal(whole) + seq!['.'] + trim_trailing_zeros(padded_digits(frac, 8))
    }
}

fn digit_str(d: u128) -> (r: &'static str)
    requires
        d < 10,
    ensures
        r@ == seq![digit_char(d as nat)],
{
    if d == 0 {
        proof { reveal_strlit("0"); }
        "0"
    } else if d == 1 {
        proof { reveal_strlit("1"); }
        "1"
    } else if d == 2 {
        proof { reveal_strlit("2"); }
        "2"
    } else if d == 3 {
        proof { reveal_strlit("3"); }
        "3"
    } else if d == 4 {
        proof { reveal_strlit("4"); }
        "4"
    } else if d == 5 {
        proof { reveal_strlit("5"); }
        "5"
    } else if d == 6 {
        proof { reveal_strlit("6"); }
        "6"
    } else if d == 7 {
        proof { reveal_strlit("7"); }
        "7"
    } else if d == 8 {
        proof { reveal_strlit("8"); }
        "8"
    } else {
        proof { reveal_strlit("9"); }
        "9"
    }
}

/// Writes `n` in decimal.
pub fn decimal_text(n: u128) -> (r: String)
    ensures
        r@ == decimal(n as nat),
    decreases n,
{
    if n < 10 {
        String::from_str(digit_str(n))
    } else {
        let mut s = decimal_text(n / 10);
        s.append(digit_str(n % 10));
        s
    }
}

fn padded_text(n: u128, width: u8) -> (r: String)
    ensures
        r@ == padded_digits(n as nat, width as nat),
    decreases width,
{
    if width == 0 {
        String::new()
    } else {
        let mut s = padded_text(n / 10, width - 1);
        s.append(digit_str(n % 10));
        s
    }
}

proof fn lemma_trim_step(n: nat, width: nat)
    requires
        width > 0,
    ensures
        n % 10 == 0 ==> trim_trailing_zeros(padded_digits(n, width)) == trim_trailing_zeros(
            padded_digits(n / 10, (width - 1) as nat),
        ),
        n % 10 != 0 ==> trim_trailing_zeros(padded_digits(n, width)) == padded_digits(n, width),
{
    let s = padded_digits(n, width);
    let p = padded_digits(n / 10, (width - 1) as nat);
    assert(s == p.push(digit_char(n % 10)));
    assert(s.drop_last() =~= p);
}

/// A nonzero multiple of ten below `10^width` has at least two digits.
proof fn lemma_no_room(n: nat, width: nat)
    requires
        n < pow10(width),
        n > 0,
        n % 10 == 0,
    ensures
        width > 1,
        n / 10 < pow10((width - 1) as nat),
{
    reveal_with_fuel(pow10, 2);
    assert(width != 0);
    if width == 1 {
        assert(false);
    }
}

/// Writes an amount of satoshis in whole coins, as `coin_text` states.
pub fn coin_amount_text(sats: u128) -> (r: String)
    ensures
        r@ == coin_text(sats as nat),
{
    let whole = sats / SATS_PER_COIN;
    let frac = sats % SATS_PER_COIN;
    let mut s = decimal_text(whole);
    if frac != 0 {
        proof { reveal_strlit("."); }
        s.append(".");
        let mut f: u128 = frac;
        let mut w: u8 = 8;
        proof {
            reveal_with_fuel(pow10, 9);
        }
        while f % 10 == 0
            invariant
                0 < f < pow10(w as nat),
                w <= 8,
                trim_trailing_zeros(padded_digits(f as nat, w as nat)) == trim_trailing_zeros(
                    padded_digits(frac as nat, 8),
                ),
            decreases w,
        {
            proof {
                lemma_no_room(f as nat, w as nat);
                lemma_trim_step(f as nat, w as nat);
            }
            f = f / 10;
            w = w - 1;
        }
        proof {
            assert(w > 0) by {
                if w == 0 {
                    assert(pow10(0) == 1);
                }
            }
            lemma_trim_step(f as nat, w as nat);
        }
        let tail = padded_text(f, w);
        s.append(tail.as_str());
    }
    s
}

} // verus!
