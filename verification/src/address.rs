//! The coarse address check applied to every claim.

use vstd::prelude::*;
use vstd::string::*;

verus! {

/// Shortest accepted address, in characters, after trimming.
pub const MIN_ADDRESS_LEN: usize = 32;

/// Longest accepted address, in characters, after trimming.
pub const MAX_ADDRESS_LEN: usize = 44;

/// The code points that carry the Unicode property `White_Space`.
pub open spec fn is_white_space(c: char) -> bool {
    let u = c as u32;
    ||| 0x09 <= u <= 0x0D
    ||| u == 0x20
    ||| u == 0x85
    ||| u == 0xA0
    ||| u == 0x1680
    ||| 0x2000 <= u <= 0x200A
    ||| u == 0x2028
    ||| u == 0x2029
    ||| u == 0x202F
    ||| u == 0x205F
    ||| u == 0x3000
}

/// `s` without its leading white space.
pub open spec fn trim_front(s: Seq<char>) -> Seq<char>
    decreases s.len(),
{
    if s.len() > 0 && is_white_space(s.first()) {
        trim_front(s.drop_first())
    } else {
        s
    }
}

/// `s` without its trailing white space.
pub open spec fn trim_back(s: Seq<char>) -> Seq<char>
    decreases s.len(),
{
    if s.len() > 0 && is_white_space(s.last()) {
        trim_back(s.drop_last())
    } else {
        s
    }
}

/// `s` without leading and trailing white space.
pub open spec fn trimmed(s: Seq<char>) -> Seq<char> {
    trim_back(trim_front(s))
}

/// Whether a raw address passes the length heuristic: between 32 and 44
/// characters once trimmed, whatever the characters are.
pub open spec fn address_accepted(raw: Seq<char>) -> bool {
    MIN_ADDRESS_LEN <= trimmed(raw).len() <= MAX_ADDRESS_LEN
}

/// The address was rejected: its trimmed length lies outside the accepted
/// range.
#[derive(Debug, Clone, Copy, PartialEq, Eq, Structural)]
pub struct InvalidAddressError;

/// Trusted: `str::trim` of the standard library. Its documentation says
/// that it returns the slice with leading and trailing white space removed,
/// white space being the Unicode property `White_Space`; the contract
/// states exactly that.
#[verifier::external_body]
fn trim<'a>(s: &'a str) -> (r: &'a str)
    ensures
        r@ == trimmed(s@),
{
    s.trim()
}

/// Trims a raw address and checks its length. Returns the trimmed address
/// exactly when the raw one is accepted.
pub fn validate_address(raw: &str) -> (r: Result<String, InvalidAddressError>)
    ensures
        address_accepted(raw@) ==> r is Ok && r->Ok_0@ == trimmed(raw@),
        !address_accepted(raw@) ==> r is Err,
{
    let clean = trim(raw);
    let n: usize = clean.unicode_len();
    if n < MIN_ADDRESS_LEN || n > MAX_ADDRESS_LEN {
        Err(InvalidAddressError)
    } else {
        Ok(String::from_str(clean))
    }
}

} // verus!
