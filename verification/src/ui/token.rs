//! The secret that a page carries.
use vstd::prelude::*;
use crate::number::{hex_char, hex_digit, hex_value, lemma_hex_digit};

verus! {

/// How many digits a secret has.
pub const TOKEN_DIGITS: usize = 16;

/// The number that a secret starts from: the time in nanoseconds and the number of the process.
pub open spec fn seed_of(nanos: u128, pid: u32) -> u64 {
    (nanos as u64) ^ ((pid as u64) << 48u64)
}

/// The number after `s`.
pub open spec fn next_state(s: u64) -> u64 {
    let a = s ^ (s << 13u64);
    let b = a ^ (a >> 7u64);
    b ^ (b << 17u64)
}

/// The number `n` steps after `s`.
pub open spec fn state_after(s: u64, n: nat) -> u64
    decreases n,
{
    if n == 0 {
        s
    } else {
        next_state(state_after(s, (n - 1) as nat))
    }
}

/// The secret that starts from `seed`: the last hexadecimal digit of each number after it.
pub open spec fn token_of(seed: u64) -> Seq<char> {
    Seq::new(
        TOKEN_DIGITS as nat,
        |i: int| hex_digit((state_after(seed, (i + 1) as nat) % 16) as nat),
    )
}

fn step(s: u64) -> (r: u64)
    ensures
        r == next_state(s),
{
    let a: u64 = s ^ (s << 13u64);
    let b: u64 = a ^ (a >> 7u64);
    b ^ (b << 17u64)
}

/// Makes a secret of the time and the number of the process.
pub fn make_token(nanos: u128, pid: u32) -> (r: String)
    ensures
        r@ == token_of(seed_of(nanos, pid)),
{
    let seed: u64 = (#[verifier::truncate] (nanos as u64)) ^ ((pid as u64) << 48u64);
    let mut state: u64 = seed;
    let mut token = String::new();
    let mut i: usize = 0;
    assert(token@ =~= token_of(seed).take(0));
    while i < TOKEN_DIGITS
        invariant
            i <= TOKEN_DIGITS,
            state == state_after(seed, i as nat),
            token@ == token_of(seed).take(i as int),
        decreases TOKEN_DIGITS - i,
    {
        state = step(state);
        token.push(hex_char((state % 16) as u8));
        i = i + 1;
        assert(token@ =~= token_of(seed).take(i as int));
    }
    assert(token_of(seed).take(i as int) =~= token_of(seed));
    token
}

/// A secret has sixteen hexadecimal digits, whatever it starts from.
pub proof fn law_token_is_hex(seed: u64)
    ensures
        token_of(seed).len() == TOKEN_DIGITS,
        forall|i: int|
            0 <= i < TOKEN_DIGITS ==> hex_value(#[trigger] token_of(seed)[i]) is Some,
{
    assert forall|i: int| 0 <= i < TOKEN_DIGITS implies hex_value(
        #[trigger] token_of(seed)[i],
    ) is Some by {
        lemma_hex_digit((state_after(seed, (i + 1) as nat) % 16) as nat);
    }
}

} // verus!
