//! Decimal rendering of amounts and the wording of replies.

use vstd::prelude::*;
use vstd::string::*;

verus! {

/// Base units per whole token.
pub const BASE_UNITS_PER_TOKEN: u64 = 1_000_000_000;

/// The character of one decimal digit; values above nine render as `9`.
pub open spec fn digit_char(d: nat) -> char {
    if d == 0 {
        '0'
    } else if d == 1 {
        '1'
    } else if d == 2 {
        '2'
    } else if d == 3 {
        '3'
    } else if d == 4 {
        '4'
    } else if d == 5 {
        '5'
    } else if d == 6 {
        '6'
    } else if d == 7 {
        '7'
    } else if d == 8 {
        '8'
    } else {
        '9'
    }
}

/// The decimal numeral of `n`, without leading zeros.
pub open spec fn decimal(n: nat) -> Seq<char>
    decreases n,
{
    if n < 10 {
        seq![digit_char(n)]
    } else {
        decimal(n / 10).push(digit_char(n % 10))
    }
}

/// The digits of `frac / (10 * scale)` after the decimal point, most
/// significant first, ending with the last digit that is not zero.
pub open spec fn fraction_digits(frac: nat, scale: nat) -> Seq<char>
    decreases scale,
{
    if frac == 0 || scale == 0 {
        Seq::<char>::empty()
    } else {
        seq![digit_char(frac / scale)] + fraction_digits(frac % scale, scale / 10)
    }
}

/// An amount of base units written in whole tokens: the integer part, and
/// where the amount is no whole number of tokens, a point and the
/// fractional digits without trailing zeros.
pub open spec fn token_amount(amount: nat) -> Seq<char> {
    let whole = amount / (BASE_UNITS_PER_TOKEN as nat);
    let frac = amount % (BASE_UNITS_PER_TOKEN as nat);
    if frac == 0 {
        decimal(whole)
    } else {
        decimal(whole) + seq!['.'] + fraction_digits(frac, (BASE_UNITS_PER_TOKEN / 10) as nat)
    }
}

/// The place values of the nine fractional digits, and zero once the last
/// place is passed.
spec fn is_scale(scale: u64) -> bool {
    ||| scale == 0
    ||| scale == 1
    ||| scale == 10
    ||| scale == 100
    ||| scale == 1_000
    ||| scale == 10_000
    ||| scale == 100_000
    ||| scale == 1_000_000
    ||| scale == 10_000_000
    ||| scale == 100_000_000
}

fn digit_str(d: u64) -> (r: &'static str)
    requires
        d < 10,
    ensures
        r@ == seq![digit_char(d as nat)],
{
    proof {
        reveal_strlit("0");
        reveal_strlit("1");
        reveal_strlit("2");
        reveal_strlit("3");
        reveal_strlit("4");
        reveal_strlit("5");
        reveal_strlit("6");
        reveal_strlit("7");
        reveal_strlit("8");
        reveal_strlit("9");
    }
    let r = if d == 0 {
        "0"
    } else if d == 1 {
        "1"
    } else if d == 2 {
        "2"
    } else if d == 3 {
        "3"
    } else if d == 4 {
        "4"
    } else if d == 5 {
        "5"
    } else if d == 6 {
        "6"
    } else if d == 7 {
        "7"
    } else if d == 8 {
        "8"
    } else {
        "9"
    };
    assert(r@ =~= seq![digit_char(d as nat)]);
    r
}

/// Writes `n` as a decimal numeral.
pub fn format_decimal(n: u64) -> (r: String)
    ensures
        r@ == decimal(n as nat),
    decreases n,
{
    if n < 10 {
        String::from_str(digit_str(n))
    } else {
        let mut r = format_decimal(n / 10);
        r.append(digit_str(n % 10));
        r
    }
}

/// Writes an amount of base units in whole tokens.
pub fn format_token_amount(amount: u64) -> (r: String)
    ensures
        r@ == token_amount(amount as nat),
{
    let mut r = format_decimal(amount / BASE_UNITS_PER_TOKEN);
    let mut frac: u64 = amount % BASE_UNITS_PER_TOKEN;
    if frac == 0 {
        return r;
    }
    proof {
        reveal_strlit(".");
    }
    r.append(".");
    let ghost head = r@;
    let ghost frac0 = frac as nat;
    let mut scale: u64 = BASE_UNITS_PER_TOKEN / 10;
    while frac != 0 && scale != 0
        invariant
            is_scale(scale),
            frac == 0 || frac < 10 * scale,
            head + fraction_digits(frac0, (BASE_UNITS_PER_TOKEN / 10) as nat) == r@
                + fraction_digits(frac as nat, scale as nat),
        decreases scale,
    {
        let ghost before = r@;
        assert(frac / scale < 10 && frac % scale < scale) by (nonlinear_arith)
            requires
                frac < 10 * scale,
                scale > 0,
        ;
        r.append(digit_str(frac / scale));
        proof {
            assert(before + (seq![digit_char((frac / scale) as nat)] + fraction_digits(
                (frac % scale) as nat,
                (scale / 10) as nat,
            )) =~= r@ + fraction_digits((frac % scale) as nat, (scale / 10) as nat));
        }
        frac = frac % scale;
        scale = scale / 10;
    }
    proof {
        assert(fraction_digits(frac as nat, scale as nat) =~= Seq::<char>::empty());
        assert(r@ + Seq::<char>::empty() =~= r@);
        assert(head =~= decimal((amount / BASE_UNITS_PER_TOKEN) as nat) + seq!['.']);
    }
    r
}

/// The content of an optional string.
pub open spec fn text_of(s: Option<String>) -> Option<Seq<char>> {
    match s {
        Some(s) => Some(s@),
        None => None,
    }
}

/// What a claim with an unacceptable address is told.
pub open spec fn invalid_address_text() -> Seq<char> {
    "Invalid Solana address"@
}

/// What a claim is told while `remaining` seconds of its cooldown are left.
pub open spec fn rate_limited_text(remaining: u64) -> Seq<char> {
    "Rate limited. Try again in "@ + decimal(remaining as nat) + " seconds"@
}

/// What a claim is told when the upstream node reports an error.
pub open spec fn upstream_error_text(message: Seq<char>) -> Seq<char> {
    "RPC Error: "@ + message
}

/// What a claim is told when the upstream reply cannot be decoded.
pub open spec fn decode_error_text(detail: Seq<char>) -> Seq<char> {
    "Parse error: "@ + detail
}

/// What a claim is told when the upstream node cannot be reached.
pub open spec fn transport_error_text(detail: Seq<char>) -> Seq<char> {
    "Request failed: "@ + detail
}

/// What a claim is told when the upstream reply holds neither a result nor
/// an error.
pub open spec fn empty_response_text() -> Seq<char> {
    "No result from RPC"@
}

/// The confirmation of an airdrop of `amount` base units to `address`.
pub open spec fn airdropped_text(amount: u64, address: Seq<char>) -> Seq<char> {
    "Airdropped "@ + token_amount(amount as nat) + " SOL to "@ + address
}

/// `prefix` followed by `detail`.
pub fn prefixed(prefix: &str, detail: &str) -> (r: String)
    ensures
        r@ == prefix@ + detail@,
{
    let mut r = String::from_str(prefix);
    r.append(detail);
    r
}

/// Words the reply to a claim that is still cooling down.
pub fn rate_limited_message(remaining: u64) -> (r: String)
    ensures
        r@ == rate_limited_text(remaining),
{
    let number = format_decimal(remaining);
    let mut r = prefixed("Rate limited. Try again in ", number.as_str());
    r.append(" seconds");
    r
}

/// Words the confirmation of a successful airdrop.
pub fn airdropped_message(amount: u64, address: &str) -> (r: String)
    ensures
        r@ == airdropped_text(amount, address@),
{
    let tokens = format_token_amount(amount);
    let mut r = prefixed("Airdropped ", tokens.as_str());
    r.append(" SOL to ");
    r.append(address);
    r
}

} // verus!
