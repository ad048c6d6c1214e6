//! Verification code issuer: a one-time six-digit numeric code.
//!
//! The code is drawn from [100000, 999999) by an outside random source and
//! rendered to its decimal digits by verified code.

use vstd::prelude::*;

verus! {

/// Smallest six-digit code.
pub const CODE_MIN: u32 = 100000;

/// One past the largest code ever drawn.
pub const CODE_MAX: u32 = 999999;

/// The decimal digit character for a value in 0..10.
pub open spec fn digit_char(d: int) -> char {
    ('0' as u8 + d) as char
}

/// The six decimal digits of a six-digit code, most significant first.
pub open spec fn code_seq(n: int) -> Seq<char> {
    seq![
        digit_char(n / 100000 % 10),
        digit_char(n / 10000 % 10),
        digit_char(n / 1000 % 10),
        digit_char(n / 100 % 10),
        digit_char(n / 10 % 10),
        digit_char(n % 10),
    ]
}

/// Relies on rand's `Rng::gen_range`: a value sampled uniformly from the
/// given half-open range, here [100000, 999999).
#[verifier::external_body]
pub fn gen_rand_num() -> (r: u32)
    ensures
        CODE_MIN <= r < CODE_MAX,
{
    let mut rng = rand::thread_rng();
    let random_number: u32 = rand::Rng::gen_range(&mut rng, 100_000..999_999);
    random_number
}

fn digit_str(d: u32) -> (r: &'static str)
    requires
        d < 10,
    ensures
        r@ == seq![digit_char(d as int)],
{
    let r: &'static str = match d {
        0 => "0",
        1 => "1",
        2 => "2",
        3 => "3",
        4 => "4",
        5 => "5",
        6 => "6",
        7 => "7",
        8 => "8",
        _ => {
            assert(d == 9);
            "9"
        },
    };
    proof {
        reveal_strlit("0");
        reveal_strlit("1");
        reveal_strlit("2");
        reveal_strlit("3");
        reveal_strlit("4");
        reveal_strlit("5");
        reveal_strlit("6");
        reveal_strlit("7");
        reveal_strlit("8");
        reveal_strlit("9");
        assert(r@ =~= seq![digit_char(d as int)]);
    }
    r
}

/// Render a six-digit code to its decimal string.
pub fn code_string(code: u32) -> (r: String)
    requires
        CODE_MIN <= code < CODE_MAX,
    ensures
        r@ == code_seq(code as int),
        r@.len() == 6,
{
    let mut out = String::new();
    out.append(digit_str(code / 100000 % 10));
    out.append(digit_str(code / 10000 % 10));
    out.append(digit_str(code / 1000 % 10));
    out.append(digit_str(code / 100 % 10));
    out.append(digit_str(code / 10 % 10));
    out.append(digit_str(code % 10));
    proof {
        assert(out@ =~= code_seq(code as int));
    }
    out
}

} // verus!
