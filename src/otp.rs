//! One-time passcodes: six zero-padded decimal digits drawn at random,
//! and decimal formatting of integers.

use vstd::prelude::*;

use rand::Rng;

verus! {

/// The number of distinct passcodes: codes are drawn from 000000 to 999999.
pub const CODE_SPACE: u32 = 1000000;

/// How long a passcode stays valid: fifteen minutes, in seconds.
pub const OTP_LIFETIME_SECS: i64 = 900;

/// The decimal digit `d` (0 to 9) as a character.
pub open spec fn digit_char(d: int) -> char {
    if d == 0 {
        '0'
    } else if d == 1 {
        '1'
    } else if d == 2 {
        '2'
    } else if d == 3 {
        '3'
    } else if d == 4 {
        '4'
    } else if d == 5 {
        '5'
    } else if d == 6 {
        '6'
    } else if d == 7 {
        '7'
    } else if d == 8 {
        '8'
    } else {
        '9'
    }
}

pub open spec fn is_digit(c: char) -> bool {
    '0' <= c && c <= '9'
}

/// Six decimal digits.
pub open spec fn is_code(s: Seq<char>) -> bool {
    s.len() == 6 && forall|i: int| 0 <= i < 6 ==> is_digit(#[trigger] s[i])
}

/// The number `n` written with six digits, zero-padded on the left.
pub open spec fn code_text(n: int) -> Seq<char> {
    seq![
        digit_char(n / 100000 % 10),
        digit_char(n / 10000 % 10),
        digit_char(n / 1000 % 10),
        digit_char(n / 100 % 10),
        digit_char(n / 10 % 10),
        digit_char(n % 10),
    ]
}

/// Relies on rand::thread_rng and rand::Rng::gen_range: a value drawn
/// uniformly from zero up to, not including, the bound.
#[verifier::external_body]
fn random_below(bound: u32) -> (r: u32)
    requires
        bound > 0,
    ensures
        r < bound,
{
    rand::thread_rng().gen_range(0..bound)
}

pub(crate) fn digit_text(d: u32) -> (r: &'static str)
    requires
        d < 10,
    ensures
        r@ == seq![digit_char(d as int)],
{
    if d == 0 {
        proof { reveal_strlit("0"); }
        "0"
    } else if d == 1 {
        proof { reveal_strlit("1"); }
        "1"
    } else if d == 2 {
        proof { reveal_strlit("2"); }
        "2"
    } else if d == 3 {
        proof { reveal_strlit("3"); }
        "3"
    } else if d == 4 {
        proof { reveal_strlit("4"); }
        "4"
    } else if d == 5 {
        proof { reveal_strlit("5"); }
        "5"
    } else if d == 6 {
        proof { reveal_strlit("6"); }
        "6"
    } else if d == 7 {
        proof { reveal_strlit("7"); }
        "7"
    } else if d == 8 {
        proof { reveal_strlit("8"); }
        "8"
    } else {
        proof { reveal_strlit("9"); }
        "9"
    }
}

/// Writes a number below one million as a six-digit passcode.
pub fn format_code(n: u32) -> (r: String)
    requires
        n < CODE_SPACE,
    ensures
        r@ == code_text(n as int),
        is_code(r@),
{
    let mut r = String::new();
    r.append(digit_text(n / 100000 % 10));
    r.append(digit_text(n / 10000 % 10));
    r.append(digit_text(n / 1000 % 10));
    r.append(digit_text(n / 100 % 10));
    r.append(digit_text(n / 10 % 10));
    r.append(digit_text(n % 10));
    assert(r@ =~= code_text(n as int));
    proof {
        lemma_code_text_is_code(n as int);
    }
    r
}

pub proof fn lemma_code_text_is_code(n: int)
    requires
        0 <= n,
    ensures
        is_code(code_text(n)),
{
    let s = code_text(n);
    assert forall|i: int| 0 <= i < 6 implies is_digit(#[trigger] s[i]) by {
    }
}

/// A fresh passcode: six digits drawn uniformly from 000000 to 999999.
pub fn generate_otp() -> (r: String)
    ensures
        is_code(r@),
        exists|n: int| 0 <= n < CODE_SPACE && r@ == code_text(n),
{
    let n = random_below(CODE_SPACE);
    format_code(n)
}

/// The decimal digits of a natural number, without leading zeros.
pub open spec fn nat_digits(n: nat) -> Seq<char>
    decreases n,
{
    if n < 10 {
        seq![digit_char(n as int)]
    } else {
        nat_digits(n / 10).push(digit_char((n % 10) as int))
    }
}

/// An integer in decimal, with a leading `-` when negative.
pub open spec fn int_text(n: int) -> Seq<char> {
    if n < 0 {
        seq!['-'] + nat_digits((-n) as nat)
    } else {
        nat_digits(n as nat)
    }
}

/// Writes an integer in decimal.
pub fn decimal_text(n: i32) -> (r: String)
    ensures
        r@ == int_text(n as int),
{
    if n == 0 {
        let zero = digit_text(0).to_string();
        assert(zero@ =~= int_text(0));
        return zero;
    }
    let wide = n as i64;
    let mut m: u64 = if wide < 0 { (-wide) as u64 } else { wide as u64 };
    let ghost whole = m as nat;
    let mut r = String::new();
    assert(nat_digits(whole) =~= nat_digits(m as nat) + r@);
    loop
        invariant_except_break
            m > 0,
            nat_digits(whole) == nat_digits(m as nat) + r@,
        invariant
            whole == if n < 0 { (-n) as nat } else { n as nat },
        ensures
            nat_digits(whole) == r@,
        decreases m,
    {
        let d = (m % 10) as u32;
        let ghost mm = m as nat;
        r = digit_text(d).to_string().concat(r.as_str());
        m = m / 10;
        if m == 0 {
            assert(nat_digits(mm) =~= seq![digit_char(d as int)]);
            assert(nat_digits(whole) =~= r@);
            break;
        }
        assert(nat_digits(mm) == nat_digits(m as nat).push(digit_char(d as int)));
        assert(nat_digits(whole) =~= nat_digits(m as nat) + r@);
    }
    if n < 0 {
        let neg = "-".to_string().concat(r.as_str());
        proof {
            reveal_strlit("-");
        }
        assert("-"@ =~= seq!['-']);
        assert(neg@ =~= int_text(n as int));
        neg
    } else {
        r
    }
}

} // verus!
