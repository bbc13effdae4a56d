//! Text shown on the badge's screen: decimal numbers, labelled counts and
//! voltages.

use vstd::prelude::*;
use vstd::string::StringExecFns;

verus! {

/// The character of decimal digit `d`.
pub open spec fn digit_char(d: int) -> char {
    if d == 0 {
        '0'
    } else if d == 1 {
        '1'
    } else if d == 2 {
        '2'
    } else if d == 3 {
        '3'
    } else if d == 4 {
        '4'
    } else if d == 5 {
        '5'
    } else if d == 6 {
        '6'
    } else if d == 7 {
        '7'
    } else if d == 8 {
        '8'
    } else {
        '9'
    }
}

/// `n` written in decimal, without leading zeros.
pub open spec fn spec_decimal(n: nat) -> Seq<char>
    decreases n,
{
    if n < 10 {
        seq![digit_char(n as int)]
    } else {
        spec_decimal(n / 10).push(digit_char((n % 10) as int))
    }
}

/// The text of decimal digit `d`.
fn digit_str(d: u32) -> (s: &'static str)
    requires
        d < 10,
    ensures
        s@ == seq![digit_char(d as int)],
{
    if d == 0 {
        proof { reveal_strlit("0"); }
        "0"
    } else if d == 1 {
        proof { reveal_strlit("1"); }
        "1"
    } else if d == 2 {
        proof { reveal_strlit("2"); }
        "2"
    } else if d == 3 {
        proof { reveal_strlit("3"); }
        "3"
    } else if d == 4 {
        proof { reveal_strlit("4"); }
        "4"
    } else if d == 5 {
        proof { reveal_strlit("5"); }
        "5"
    } else if d == 6 {
        proof { reveal_strlit("6"); }
        "6"
    } else if d == 7 {
        proof { reveal_strlit("7"); }
        "7"
    } else if d == 8 {
        proof { reveal_strlit("8"); }
        "8"
    } else {
        proof { reveal_strlit("9"); }
        "9"
    }
}

/// `n` written in decimal.
pub fn decimal(n: u32) -> (s: String)
    ensures
        s@ == spec_decimal(n as nat),
    decreases n,
{
    if n < 10 {
        String::from_str(digit_str(n))
    } else {
        let mut s = decimal(n / 10);
        s.append(digit_str(n % 10));
        s
    }
}

/// `label` followed by `n` in decimal.
pub fn labelled_count(label: &str, n: u32) -> (s: String)
    ensures
        s@ == label@ + spec_decimal(n as nat),
{
    let mut s = String::from_str(label);
    let digits = decimal(n);
    s.append(digits.as_str());
    s
}

/// `n`, which is below 100, as two digits with a leading zero.
pub open spec fn spec_two_digits(n: nat) -> Seq<char> {
    seq![digit_char((n / 10) as int), digit_char((n % 10) as int)]
}

/// A voltage given in millivolts, as volts with two decimals and a `V`,
/// cut (not rounded) to centivolts: 3704 mV is `3.70V`.
pub open spec fn spec_volts(millivolts: nat) -> Seq<char> {
    let centivolts = millivolts / 10;
    spec_decimal(centivolts / 100) + seq!['.'] + spec_two_digits(centivolts % 100) + seq!['V']
}

/// A voltage given in millivolts, as volts with two decimals and a `V`.
pub fn volts(millivolts: u32) -> (s: String)
    ensures
        s@ == spec_volts(millivolts as nat),
{
    let centivolts = millivolts / 10;
    let mut s = decimal(centivolts / 100);
    proof { reveal_strlit("."); reveal_strlit("V"); }
    s.append(".");
    let fraction = centivolts % 100;
    s.append(digit_str(fraction / 10));
    s.append(digit_str(fraction % 10));
    s.append("V");
    s
}

/// The text of a voltage is the whole volts in decimal, a point, exactly two
/// digits (tenths and hundredths of a volt, a leading zero kept) and `V`.
pub proof fn law_volts_keep_two_decimals(millivolts: nat)
    ensures
        spec_volts(millivolts).len() == spec_decimal(millivolts / 1000).len() + 4,
        spec_volts(millivolts).take(spec_decimal(millivolts / 1000).len() as int)
            == spec_decimal(millivolts / 1000),
        spec_volts(millivolts)[spec_volts(millivolts).len() - 4] == '.',
        spec_volts(millivolts)[spec_volts(millivolts).len() - 3] as int == 48 + (millivolts / 100)
            % 10,
        spec_volts(millivolts)[spec_volts(millivolts).len() - 2] as int == 48 + (millivolts / 10)
            % 10,
        spec_volts(millivolts)[spec_volts(millivolts).len() - 1] == 'V',
{
    let c = millivolts / 10;
    let r = c % 100;
    assert(c / 100 == millivolts / 1000) by (nonlinear_arith)
        requires
            c == millivolts / 10,
    ;
    assert(r / 10 == (millivolts / 100) % 10 && r % 10 == (millivolts / 10) % 10) by (nonlinear_arith)
        requires
            c == millivolts / 10,
            r == c % 100,
    ;
    let w = spec_decimal(c / 100);
    let s = spec_volts(millivolts);
    assert(s == w + seq!['.'] + spec_two_digits(r) + seq!['V']);
    assert(s.take(w.len() as int) =~= w);
    assert(s[w.len() as int] == '.');
    assert(s[w.len() + 1int] == digit_char((r / 10) as int));
    assert(s[w.len() + 2int] == digit_char((r % 10) as int));
    assert(0 <= r / 10 < 10 && 0 <= r % 10 < 10);
    lemma_digit_char_code((r / 10) as int);
    lemma_digit_char_code((r % 10) as int);
}

/// The character of digit `d` has code `'0' + d`.
proof fn lemma_digit_char_code(d: int)
    requires
        0 <= d < 10,
    ensures
        digit_char(d) as int == 48 + d,
{
}

/// A signed byte in decimal, with a leading `-` when negative.
pub open spec fn spec_signed_decimal(n: i8) -> Seq<char> {
    if n < 0 {
        seq!['-'] + spec_decimal((-n) as nat)
    } else {
        spec_decimal(n as nat)
    }
}

/// A signed byte in decimal.
pub fn signed_decimal(n: i8) -> (s: String)
    ensures
        s@ == spec_signed_decimal(n),
{
    if n < 0 {
        proof { reveal_strlit("-"); }
        let magnitude: u32 = (0i32 - n as i32) as u32;
        let mut s = String::from_str("-");
        let digits = decimal(magnitude);
        s.append(digits.as_str());
        s
    } else {
        decimal(n as u32)
    }
}

} // verus!
