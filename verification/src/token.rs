//! Session tokens: the SHA-256 digest, in hexadecimal, of 32 random bytes
//! followed by the time in seconds.

use vstd::prelude::*;
use crate::clock::current_time;

verus! {

/// How many random bytes go into a token.
pub const TOKEN_RANDOM_BYTES: usize = 32;

/// The SHA-256 digest of a sequence of bytes, as 64 lower-case hexadecimal
/// digits.
pub uninterp spec fn sha256_hex_of(data: Seq<u8>) -> Seq<char>;

/// `rand::Rng::gen` on the generator of the current thread: one random
/// byte. Nothing is claimed of a random value. The generator gives up only
/// where the operating system has no random numbers to seed it with.
#[verifier::external_body]
fn random_byte() -> (byte: u8)
{
    rand::Rng::gen(&mut rand::thread_rng())
}

/// `sha2::Sha256::digest`, written out by the digest's `LowerHex`.
#[verifier::external_body]
fn sha256_hex(data: &Vec<u8>) -> (digest: String)
    ensures
        digest@ == sha256_hex_of(data@),
{
    let digest = <sha2::Sha256 as sha2::Digest>::digest(data.as_slice());
    format!("{:x}", digest)
}

/// The eight bytes of a number, the most significant first.
pub open spec fn spec_be_bytes(n: u64) -> Seq<u8> {
    seq![
        ((n >> 56) & 0xff) as u8,
        ((n >> 48) & 0xff) as u8,
        ((n >> 40) & 0xff) as u8,
        ((n >> 32) & 0xff) as u8,
        ((n >> 24) & 0xff) as u8,
        ((n >> 16) & 0xff) as u8,
        ((n >> 8) & 0xff) as u8,
        (n & 0xff) as u8,
    ]
}

/// The number that eight bytes write, the most significant first.
pub open spec fn spec_be_value(bytes: Seq<u8>) -> int {
    bytes[0] * 0x100_0000_0000_0000 + bytes[1] * 0x1_0000_0000_0000 + bytes[2] * 0x100_0000_0000
        + bytes[3] * 0x1_0000_0000 + bytes[4] * 0x100_0000 + bytes[5] * 0x1_0000 + bytes[6] * 0x100
        + bytes[7]
}

fn byte_at(n: u64, shift: u64) -> (byte: u8)
    requires
        shift <= 56,
    ensures
        byte == ((n >> shift) & 0xff) as u8,
{
    let low: u64 = (n >> shift) & 0xff;
    assert(low <= 0xff) by (bit_vector)
        requires
            low == (n >> shift) & 0xff,
    ;
    low as u8
}

/// The eight bytes of a number, the most significant first.
pub fn be_bytes(n: u64) -> (bytes: Vec<u8>)
    ensures
        bytes@ == spec_be_bytes(n),
{
    let mut bytes: Vec<u8> = Vec::new();
    bytes.push(byte_at(n, 56));
    bytes.push(byte_at(n, 48));
    bytes.push(byte_at(n, 40));
    bytes.push(byte_at(n, 32));
    bytes.push(byte_at(n, 24));
    bytes.push(byte_at(n, 16));
    bytes.push(byte_at(n, 8));
    bytes.push(byte_at(n, 0));
    proof {
        assert(n >> 0 == n) by (bit_vector);
        assert(bytes@ =~= spec_be_bytes(n));
    }
    bytes
}

/// The bytes of a number write that number.
pub proof fn lemma_be_bytes_write_the_number(n: u64)
    ensures
        spec_be_bytes(n).len() == 8,
        spec_be_value(spec_be_bytes(n)) == n,
{
    assert(((n >> 56) & 0xff) * 0x100_0000_0000_0000 + ((n >> 48) & 0xff) * 0x1_0000_0000_0000 + ((n
        >> 40) & 0xff) * 0x100_0000_0000 + ((n >> 32) & 0xff) * 0x1_0000_0000 + ((n >> 24) & 0xff)
        * 0x100_0000 + ((n >> 16) & 0xff) * 0x1_0000 + ((n >> 8) & 0xff) * 0x100 + (n & 0xff) == n)
        by (bit_vector);
    assert((n >> 56) & 0xff <= 0xff) by (bit_vector);
    assert((n >> 48) & 0xff <= 0xff) by (bit_vector);
    assert((n >> 40) & 0xff <= 0xff) by (bit_vector);
    assert((n >> 32) & 0xff <= 0xff) by (bit_vector);
    assert((n >> 24) & 0xff <= 0xff) by (bit_vector);
    assert((n >> 16) & 0xff <= 0xff) by (bit_vector);
    assert((n >> 8) & 0xff <= 0xff) by (bit_vector);
    assert(n & 0xff <= 0xff) by (bit_vector);
}

/// The token for the given random bytes and time.
pub open spec fn spec_session_token_for(random: Seq<u8>, seconds: u64) -> Seq<char> {
    sha256_hex_of(random + spec_be_bytes(seconds))
}

/// The token for the given random bytes and time.
pub fn session_token_for(random: &Vec<u8>, seconds: u64) -> (token: String)
    ensures
        token@ == spec_session_token_for(random@, seconds),
{
    let mut data: Vec<u8> = Vec::new();
    let mut i: usize = 0;
    while i < random.len()
        invariant
            i <= random.len(),
            data@ == random@.subrange(0, i as int),
        decreases random.len() - i,
    {
        data.push(random[i]);
        proof {
            assert(random@.subrange(0, i + 1) =~= random@.subrange(0, i as int).push(
                random@[i as int],
            ));
        }
        i += 1;
    }
    let time = be_bytes(seconds);
    let mut k: usize = 0;
    while k < time.len()
        invariant
            k <= time.len(),
            data@ == random@ + time@.subrange(0, k as int),
        decreases time.len() - k,
    {
        data.push(time[k]);
        proof {
            assert(random@ + time@.subrange(0, k + 1) =~= (random@ + time@.subrange(
                0,
                k as int,
            )).push(time@[k as int]));
        }
        k += 1;
    }
    proof {
        assert(random@.subrange(0, random@.len() as int) =~= random@);
        assert(time@.subrange(0, time@.len() as int) =~= time@);
    }
    sha256_hex(&data)
}

/// A new session token, from 32 fresh random bytes and the present time in
/// seconds since 1970. Whatever came up, the token is the one that
/// `session_token_for` makes of it.
pub fn generate_session_token() -> (token: String)
    ensures
        exists|random: Seq<u8>, seconds: u64|
            random.len() == TOKEN_RANDOM_BYTES && token@ == spec_session_token_for(random, seconds),
{
    let mut random: Vec<u8> = Vec::new();
    while random.len() < TOKEN_RANDOM_BYTES
        invariant
            random.len() <= TOKEN_RANDOM_BYTES,
        decreases TOKEN_RANDOM_BYTES - random.len(),
    {
        random.push(random_byte());
    }
    let now = current_time();
    let seconds: u64 = if now.seconds >= 0 {
        now.seconds as u64
    } else {
        0
    };
    session_token_for(&random, seconds)
}

} // verus!
