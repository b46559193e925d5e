//! Session tokens: 64 lowercase hexadecimal characters drawn at random.

use vstd::prelude::*;
use rand::Rng;

verus! {

/// Number of characters in a session token.
pub const TOKEN_LEN: usize = 64;

/// The alphabet a token is drawn from.
pub open spec fn hex_digit(d: nat) -> char
    recommends
        d < 16,
{
    if d < 10 {
        ((d + 48) as u8) as char
    } else {
        ((d + 87) as u8) as char
    }
}

/// A lowercase hexadecimal character.
pub open spec fn is_hex_char(c: char) -> bool {
    ('0' <= c && c <= '9') || ('a' <= c && c <= 'f')
}

/// A well-formed session token.
pub open spec fn is_token(s: Seq<char>) -> bool {
    s.len() == TOKEN_LEN && forall|i: int| 0 <= i < s.len() ==> is_hex_char(#[trigger] s[i])
}

/// The token spelled by a sequence of digit values.
pub open spec fn token_of(digits: Seq<u8>) -> Seq<char> {
    digits.map_values(|d: u8| hex_digit(d as nat))
}

/// Relies on rand's `Rng::gen_range` over `0..16` with the thread-local
/// generator: the value lies in the half-open range.
#[verifier::external_body]
fn random_nibble() -> (r: u8)
    ensures
        r < 16,
{
    rand::thread_rng().gen_range(0..16u8)
}

/// The one-character string for a hexadecimal digit value.
pub fn hex_char(d: u8) -> (c: &'static str)
    requires
        d < 16,
    ensures
        c@ == seq![hex_digit(d as nat)],
{
    let table = "0123456789abcdef";
    proof {
        reveal_strlit("0123456789abcdef");
    }
    let c = table.substring_ascii(d as usize, d as usize + 1);
    proof {
        assert(c@ =~= seq![hex_digit(d as nat)]);
    }
    c
}

/// Spells a token from digit values in `0..16`, one character per digit.
pub fn token_from_digits(digits: &Vec<u8>) -> (s: String)
    requires
        forall|i: int| 0 <= i < digits@.len() ==> digits@[i] < 16,
    ensures
        s@ == token_of(digits@),
{
    let mut s = String::new();
    let mut i: usize = 0;
    while i < digits.len()
        invariant
            i <= digits@.len(),
            forall|k: int| 0 <= k < digits@.len() ==> digits@[k] < 16,
            s@ == token_of(digits@.subrange(0, i as int)),
        decreases digits@.len() - i,
    {
        let c = hex_char(digits[i]);
        s.append(c);
        proof {
            assert(digits@.subrange(0, i + 1) == digits@.subrange(0, i as int).push(digits@[i as int]));
        }
        i = i + 1;
    }
    proof {
        assert(digits@.subrange(0, digits@.len() as int) == digits@);
    }
    s
}

/// Draws a fresh session token.
pub fn generate_token() -> (s: String)
    ensures
        is_token(s@),
{
    let mut digits: Vec<u8> = Vec::new();
    let mut i: usize = 0;
    while i < TOKEN_LEN
        invariant
            i <= TOKEN_LEN,
            digits@.len() == i,
            forall|k: int| 0 <= k < digits@.len() ==> digits@[k] < 16,
        decreases TOKEN_LEN - i,
    {
        digits.push(random_nibble());
        i = i + 1;
    }
    let s = token_from_digits(&digits);
    assert forall|k: int| 0 <= k < s@.len() implies is_hex_char(#[trigger] s@[k]) by {
        let d = digits@[k];
        assert(s@[k] == hex_digit(d as nat));
    }
    s
}

} // verus!
