//! Commit-reveal derivation of a die face from the two players' secrets.

use cosmwasm_std::Uint128;
use rand::{RngCore, SeedableRng};
use rand_chacha::ChaChaRng;
use sha2::{Digest, Sha256};
use vstd::arithmetic::div_mod::{lemma_basic_div, lemma_div_denominator, lemma_fundamental_div_mod};
use vstd::arithmetic::power::{lemma_pow0, lemma_pow_adds, lemma_pow_positive, pow};
use vstd::prelude::*;

verus! {

/// Byte `i` (counted from the most significant end) of the 16-byte big-endian
/// encoding of `x`.
pub open spec fn be_byte(x: u128, i: int) -> u8 {
    ((x as nat / pow(256, (15 - i) as nat) as nat) % 256) as u8
}

/// The fixed-width big-endian encoding of a secret: 16 bytes, most significant first.
pub open spec fn be_bytes(x: u128) -> Seq<u8> {
    Seq::new(16, |i: int| be_byte(x, i))
}

/// The 32 bytes fed to the digest: player one's secret, then player two's.
pub open spec fn combined_bytes(secret_one: u128, secret_two: u128) -> Seq<u8> {
    be_bytes(secret_one) + be_bytes(secret_two)
}

/// The number that a sequence of bytes stands for, most significant first.
pub open spec fn be_value(bytes: Seq<u8>) -> nat
    decreases bytes.len(),
{
    if bytes.len() == 0 {
        0
    } else {
        be_value(bytes.drop_last()) * 256 + bytes.last() as nat
    }
}

/// The SHA-256 digest of `data`.
pub uninterp spec fn sha256_of(data: Seq<u8>) -> Seq<u8>;

/// The first 32-bit word of the ChaCha20 key stream keyed by `seed`, with
/// stream and block counter at zero.
pub uninterp spec fn chacha20_first_word(seed: Seq<u8>) -> u32;

/// The die face that a 32-bit word stands for.
pub open spec fn roll_of_word(word: u32) -> u8 {
    (word % 6 + 1) as u8
}

/// The die face that two secrets give, in the order player one, player two.
pub open spec fn roll_of_secrets(secret_one: u128, secret_two: u128) -> u8 {
    roll_of_word(chacha20_first_word(sha256_of(combined_bytes(secret_one, secret_two))))
}

/// Calls `cosmwasm_std::Uint128::new(..).to_be_bytes()`. Trusted: the result is
/// the 16-byte big-endian representation of `secret`.
#[verifier::external_body]
fn secret_to_be_bytes(secret: u128) -> (bytes: [u8; 16])
    ensures
        bytes@ == be_bytes(secret),
{
    Uint128::new(secret).to_be_bytes()
}

/// Calls `sha2::Sha256::digest`. Trusted: the result is the digest of the
/// bytes given, a function of those bytes alone.
#[verifier::external_body]
fn sha256(data: &Vec<u8>) -> (digest: [u8; 32])
    ensures
        digest@ == sha256_of(data@),
{
    Sha256::digest(data).into()
}

/// Seeds a `rand_chacha::ChaChaRng` with `from_seed` and draws one word from it
/// with `next_u32`. Trusted: the word is a function of the seed alone.
#[verifier::external_body]
fn first_word(seed: [u8; 32]) -> (word: u32)
    ensures
        word == chacha20_first_word(seed@),
{
    ChaChaRng::from_seed(seed).next_u32()
}

proof fn lemma_sixteen_bytes_hold_a_secret()
    ensures
        pow(256, 16) == 0x1_0000_0000_0000_0000_0000_0000_0000_0000,
{
    reveal_with_fuel(pow, 5);
    assert(pow(256, 4) == 0x1_0000_0000);
    lemma_pow_adds(256, 4, 4);
    assert(pow(256, 8) == 0x1_0000_0000_0000_0000);
    lemma_pow_adds(256, 8, 8);
}

/// The first `k` bytes of the encoding stand for `x` without its last
/// `16 - k` bytes.
proof fn lemma_prefix_value(x: u128, k: nat)
    requires
        k <= 16,
    ensures
        be_value(be_bytes(x).subrange(0, k as int)) == x as nat / pow(256, (16 - k) as nat) as nat,
    decreases k,
{
    let prefix = be_bytes(x).subrange(0, k as int);
    if k == 0 {
        lemma_sixteen_bytes_hold_a_secret();
        lemma_basic_div(x as int, pow(256, 16));
    } else {
        lemma_prefix_value(x, (k - 1) as nat);
        assert(prefix.drop_last() =~= be_bytes(x).subrange(0, k - 1));
        assert(prefix.last() == be_byte(x, k - 1));
        let d = pow(256, (16 - k) as nat);
        lemma_pow_positive(256, (16 - k) as nat);
        assert(pow(256, (17 - k) as nat) == 256 * d) by {
            reveal_with_fuel(pow, 2);
        }
        let q = x as int / d;
        lemma_div_denominator(x as int, d, 256);
        assert(d * 256 == 256 * d);
        lemma_fundamental_div_mod(q, 256);
    }
}

/// Reading the 16 bytes of an encoding as a number gives the secret back.
pub proof fn encoding_round_trip(x: u128)
    ensures
        be_value(be_bytes(x)) == x,
{
    lemma_prefix_value(x, 16);
    assert(be_bytes(x).subrange(0, 16) =~= be_bytes(x));
    lemma_pow0(256);
    assert(pow(256, (16 - 16) as nat) == 1);
    assert(x as nat / 1 == x as nat);
}

/// The 32 bytes that are hashed determine both secrets and their order: two
/// pairs of secrets with the same bytes are the same pair.
pub proof fn combined_bytes_determine_the_pair(a_one: u128, a_two: u128, b_one: u128, b_two: u128)
    requires
        combined_bytes(a_one, a_two) == combined_bytes(b_one, b_two),
    ensures
        a_one == b_one,
        a_two == b_two,
{
    let bytes = combined_bytes(a_one, a_two);
    assert(bytes.subrange(0, 16) =~= be_bytes(a_one));
    assert(bytes.subrange(16, 32) =~= be_bytes(a_two));
    assert(bytes.subrange(0, 16) =~= be_bytes(b_one));
    assert(bytes.subrange(16, 32) =~= be_bytes(b_two));
    encoding_round_trip(a_one);
    encoding_round_trip(a_two);
    encoding_round_trip(b_one);
    encoding_round_trip(b_two);
}

/// The bytes that are hashed for a roll: both secrets, big-endian, 16 bytes each.
pub fn combined_secret(secret_one: u128, secret_two: u128) -> (bytes: Vec<u8>)
    ensures
        bytes@ == combined_bytes(secret_one, secret_two),
        bytes@.len() == 32,
{
    let first = secret_to_be_bytes(secret_one);
    let second = secret_to_be_bytes(secret_two);
    let mut bytes: Vec<u8> = Vec::new();
    let mut i: usize = 0;
    while i < 16
        invariant
            i <= 16,
            bytes@ == first@.subrange(0, i as int),
        decreases 16 - i,
    {
        bytes.push(first[i]);
        i += 1;
    }
    let mut j: usize = 0;
    while j < 16
        invariant
            j <= 16,
            bytes@ == first@ + second@.subrange(0, j as int),
        decreases 16 - j,
    {
        bytes.push(second[j]);
        j += 1;
    }
    bytes
}

/// Reduces a 32-bit word to a die face.
pub fn roll_from_word(word: u32) -> (roll: u8)
    ensures
        roll == roll_of_word(word),
        1 <= roll <= 6,
{
    let face: u32 = word % 6 + 1;
    face as u8
}

/// Derives the die face from the two secrets. The face depends on the ordered
/// pair of secrets and on nothing else.
pub fn derive_roll(secret_one: u128, secret_two: u128) -> (roll: u8)
    ensures
        roll == roll_of_secrets(secret_one, secret_two),
        1 <= roll <= 6,
{
    let combined = combined_secret(secret_one, secret_two);
    let seed = sha256(&combined);
    let word = first_word(seed);
    roll_from_word(word)
}

} // verus!
