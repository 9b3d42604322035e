//! The format of the access token that the phone remote presents.
//!
//! A token is made of two 64-bit values, each written as sixteen lowercase
//! hexadecimal digits with leading zeros, so a token is always 32
//! characters long. Gathering the two values (from the clock and the
//! process id) and keeping the token in the keychain belong to the caller.

use vstd::prelude::*;

verus! {

/// The lowercase hexadecimal digit for a value below sixteen.
pub open spec fn hex_char(d: nat) -> char {
    if d < 10 {
        ((d + 48) as u8) as char
    } else {
        ((d - 10 + 97) as u8) as char
    }
}

/// The last `n` hexadecimal digits of `x`, most significant first, with
/// leading zeros.
pub open spec fn hex_digits(x: nat, n: nat) -> Seq<char>
    decreases n,
{
    if n == 0 {
        Seq::empty()
    } else {
        hex_digits(x / 16, (n - 1) as nat).push(hex_char(x % 16))
    }
}

/// The token made of `h1` and `h2`.
pub open spec fn spec_token(h1: u64, h2: u64) -> Seq<char> {
    hex_digits(h1 as nat, 16) + hex_digits(h2 as nat, 16)
}

/// Whether a character is a lowercase hexadecimal digit.
pub open spec fn is_lower_hex(c: char) -> bool {
    ('0' <= c && c <= '9') || ('a' <= c && c <= 'f')
}

/// The value of a sequence of hexadecimal digits, most significant first.
pub open spec fn hex_value(s: Seq<char>) -> nat
    decreases s.len(),
{
    if s.len() == 0 {
        0
    } else {
        hex_value(s.drop_last()) * 16 + digit_value(s.last())
    }
}

/// The value of one lowercase hexadecimal digit.
pub open spec fn digit_value(c: char) -> nat {
    if '0' <= c && c <= '9' {
        (c as nat - 48) as nat
    } else {
        (c as nat - 87) as nat
    }
}

/// Appends one character to a string.
#[verifier::external_body]
fn push_char(s: &mut String, c: char)
    ensures
        final(s)@ == old(s)@.push(c),
{
    s.push(c);
}

/// The lowercase hexadecimal digit for `d`.
fn hex_char_exec(d: u64) -> (c: char)
    requires
        d < 16,
    ensures
        c == hex_char(d as nat),
{
    if d < 10 {
        ((d + 48) as u8) as char
    } else {
        ((d - 10 + 97) as u8) as char
    }
}

/// Appends the last `n` hexadecimal digits of `x` to `out`.
fn push_hex_digits(out: &mut String, x: u64, n: u64)
    ensures
        final(out)@ == old(out)@ + hex_digits(x as nat, n as nat),
    decreases n,
{
    if n > 0 {
        push_hex_digits(out, x / 16, n - 1);
        push_char(out, hex_char_exec(x % 16));
        assert(final(out)@ =~= old(out)@ + hex_digits(x as nat, n as nat));
    } else {
        assert(old(out)@ + hex_digits(x as nat, 0) =~= old(out)@);
    }
}

/// Builds the token from two 64-bit values: `h1`, then `h2`, each as sixteen
/// lowercase hexadecimal digits.
pub fn generate_token(h1: u64, h2: u64) -> (token: String)
    ensures
        token@ == spec_token(h1, h2),
        token@.len() == 32,
        forall|i: int| 0 <= i < token@.len() ==> is_lower_hex(#[trigger] token@[i]),
{
    let mut token = String::new();
    push_hex_digits(&mut token, h1, 16);
    push_hex_digits(&mut token, h2, 16);
    proof {
        lemma_hex_digits_shape(h1 as nat, 16);
        lemma_hex_digits_shape(h2 as nat, 16);
    }
    token
}

/// `hex_digits(x, n)` has `n` characters, all lowercase hexadecimal digits.
pub proof fn lemma_hex_digits_shape(x: nat, n: nat)
    ensures
        hex_digits(x, n).len() == n,
        forall|i: int| 0 <= i < n ==> is_lower_hex(#[trigger] hex_digits(x, n)[i]),
    decreases n,
{
    if n > 0 {
        lemma_hex_digits_shape(x / 16, (n - 1) as nat);
        let d = x % 16;
        assert(is_lower_hex(hex_char(d)));
    }
}

/// Sixteen to the power `n`.
pub open spec fn pow16(n: nat) -> nat
    decreases n,
{
    if n == 0 {
        1
    } else {
        16 * pow16((n - 1) as nat)
    }
}

/// Reading `hex_digits(x, n)` back gives `x` modulo `16^n`.
pub proof fn lemma_hex_digits_value(x: nat, n: nat)
    ensures
        pow16(n) > 0,
        hex_value(hex_digits(x, n)) == x % pow16(n),
    decreases n,
{
    if n == 0 {
        assert(x % 1 == 0) by (nonlinear_arith);
    } else {
        let m = (n - 1) as nat;
        lemma_hex_digits_value(x / 16, m);
        let s = hex_digits(x, n);
        assert(s.drop_last() =~= hex_digits(x / 16, m));
        let d = x % 16;
        assert(digit_value(hex_char(d)) == d);
        vstd::arithmetic::div_mod::lemma_breakdown(x as int, 16, pow16(m) as int);
        assert(16 * pow16(m) == pow16(n));
        assert(hex_value(s) == hex_value(hex_digits(x / 16, m)) * 16 + d);
        assert((x / 16) % pow16(m) * 16 == 16 * ((x / 16) % pow16(m))) by (nonlinear_arith);
    }
}

/// A token determines the two values it was made of: its first sixteen
/// digits read back as `h1` and its last sixteen as `h2`.
pub proof fn lemma_token_decodes(h1: u64, h2: u64)
    ensures
        hex_value(spec_token(h1, h2).subrange(0, 16)) == h1,
        hex_value(spec_token(h1, h2).subrange(16, 32)) == h2,
{
    lemma_hex_digits_shape(h1 as nat, 16);
    lemma_hex_digits_shape(h2 as nat, 16);
    lemma_hex_digits_value(h1 as nat, 16);
    lemma_hex_digits_value(h2 as nat, 16);
    let t = spec_token(h1, h2);
    assert(t.subrange(0, 16) =~= hex_digits(h1 as nat, 16));
    assert(t.subrange(16, 32) =~= hex_digits(h2 as nat, 16));
    assert(pow16(16) == 0x1_0000_0000_0000_0000) by {
        reveal_with_fuel(pow16, 17);
    }
}

/// Two tokens are equal only when they were made of the same two values.
pub proof fn lemma_token_injective(h1: u64, h2: u64, k1: u64, k2: u64)
    requires
        spec_token(h1, h2) == spec_token(k1, k2),
    ensures
        h1 == k1,
        h2 == k2,
{
    lemma_token_decodes(h1, h2);
    lemma_token_decodes(k1, k2);
}

} // verus!
