//! The primitives everything else is built from: a random-byte source, XOR
//! with a repeating mask, a keyed hash over BLAKE3's extendable output, and
//! key derivation with Argon2id.

use crate::consts::keyed_hash_size;
use crate::error::CryptError;
use vstd::prelude::*;

verus! {

/// Byte that masks the key for the inner hash.
pub const IPAD: u8 = 0x36;

/// Byte that masks the key for the outer hash.
pub const OPAD: u8 = 0x5c;

/// `fixed` with the bytes of `mask`, repeated as often as needed, XORed onto it.
pub open spec fn xor_repeat(fixed: Seq<u8>, mask: Seq<u8>) -> Seq<u8> {
    Seq::new(fixed.len(), |i: int| fixed[i] ^ mask[i % (mask.len() as int)])
}

/// What `exclusiveOR` returns: the masked bytes, unless the mask is empty.
pub open spec fn xor_outcome(fixed: Seq<u8>, mask: Seq<u8>) -> Result<Seq<u8>, CryptError> {
    if mask.len() == 0 {
        Err(CryptError::EmptyMask)
    } else {
        Ok(xor_repeat(fixed, mask))
    }
}

/// The bytes of a result, where it holds any.
pub open spec fn bytes_of(r: Result<Vec<u8>, CryptError>) -> Result<Seq<u8>, CryptError> {
    match r {
        Ok(bytes) => Ok(bytes@),
        Err(e) => Err(e),
    }
}

/// XOR with a repeating, nonempty mask.
pub(crate) fn xor_with(fixed: &Vec<u8>, mask: &Vec<u8>) -> (out: Vec<u8>)
    requires
        mask.len() > 0,
    ensures
        out@ == xor_repeat(fixed@, mask@),
{
    let mut out: Vec<u8> = Vec::new();
    let mut offset: usize = 0;
    while offset < fixed.len()
        invariant
            mask.len() > 0,
            offset <= fixed.len(),
            out@ == xor_repeat(fixed@, mask@).take(offset as int),
        decreases fixed.len() - offset,
    {
        out.push(fixed[offset] ^ mask[offset % mask.len()]);
        offset += 1;
    }
    out
}

/// XOR of `fixed` with `modular`, which is repeated (or cut) to the length of
/// `fixed`. An empty `modular` is rejected.
pub fn exclusiveOR(fixed: &Vec<u8>, modular: &Vec<u8>) -> (r: Result<Vec<u8>, CryptError>)
    ensures
        bytes_of(r) == xor_outcome(fixed@, modular@),
{
    if modular.len() == 0 {
        Err(CryptError::EmptyMask)
    } else {
        Ok(xor_with(fixed, modular))
    }
}

/// Masking twice with the same mask gives the bytes back.
pub proof fn lemma_xor_repeat_cancels(fixed: Seq<u8>, mask: Seq<u8>)
    ensures
        xor_repeat(xor_repeat(fixed, mask), mask) == fixed,
{
    assert forall|i: int| 0 <= i < fixed.len() implies xor_repeat(xor_repeat(fixed, mask), mask)[i]
        == fixed[i] by {
        let a = fixed[i];
        let b = mask[i % (mask.len() as int)];
        assert((a ^ b) ^ b == a) by (bit_vector);
    }
    assert(xor_repeat(xor_repeat(fixed, mask), mask) =~= fixed);
}

/// The XOR is its own inverse: what a nonempty mask made of `fixed`, the
/// same mask turns back into `fixed`.
pub proof fn lemma_xor_self_inverse(fixed: Seq<u8>, mask: Seq<u8>)
    requires
        mask.len() > 0,
    ensures
        xor_outcome(fixed, mask) matches Ok(masked) && xor_outcome(masked, mask) == Ok::<
            Seq<u8>,
            CryptError,
        >(fixed),
{
    lemma_xor_repeat_cancels(fixed, mask);
}

/// `rand::thread_rng`: the handle of the calling thread's generator.
#[verifier::external_body]
fn thread_rng() -> rand::rngs::ThreadRng {
    rand::thread_rng()
}

/// `rand::Rng::gen_range` on the inclusive range of all bytes: the range
/// is never empty, so the call returns. Nothing holds of every draw but
/// that it is a byte.
#[verifier::external_body]
fn gen_byte(rng: &mut rand::rngs::ThreadRng) -> u8 {
    rand::Rng::gen_range(rng, 0..=u8::MAX)
}

/// `size` bytes from the thread's random generator, each drawn from all
/// 256 values.
pub fn randomness(size: u16) -> (bytes: Vec<u8>)
    ensures
        bytes@.len() == size,
{
    let mut rng = thread_rng();
    let mut bytes: Vec<u8> = Vec::new();
    let mut drawn: u16 = 0;
    while drawn < size
        invariant
            drawn <= size,
            bytes@.len() == drawn,
        decreases size - drawn,
    {
        bytes.push(gen_byte(&mut rng));
        drawn += 1;
    }
    bytes
}

/// The first `out_len` bytes of BLAKE3's extendable output for `input`.
pub uninterp spec fn blake3_xof(input: Seq<u8>, out_len: nat) -> Seq<u8>;

/// `blake3::Hasher`: a fresh unkeyed hasher is fed `input` in one `update`,
/// and `OutputReader::fill` writes the first `out_len` bytes of the output
/// stream of `finalize_xof`. The digest is a function of the input and the
/// requested length, and exactly that many bytes come back.
#[verifier::external_body]
fn blake3_extend(input: &Vec<u8>, out_len: usize) -> (out: Vec<u8>)
    ensures
        out@ == blake3_xof(input@, out_len as nat),
        out@.len() == out_len,
{
    let mut out = vec![0u8; out_len];
    blake3::Hasher::new().update(input.as_slice()).finalize_xof().fill(&mut out);
    out
}

/// The length of a keyed hash: the requested one, or the configured default.
pub open spec fn keyed_hash_len(out_size: Option<u16>) -> nat {
    match out_size {
        Some(size) => size as nat,
        None => keyed_hash_size().default as nat,
    }
}

/// The keyed hash of `message` under `key`, `out_len` bytes long: the key is
/// masked with [`IPAD`] and hashed with the message, and that digest is
/// hashed again behind the key masked with [`OPAD`].
pub open spec fn keyed_hash(message: Seq<u8>, key: Seq<u8>, out_len: nat) -> Seq<u8> {
    let inner = blake3_xof(xor_repeat(key, seq![IPAD]) + message, out_len);
    blake3_xof(xor_repeat(key, seq![OPAD]) + inner, out_len)
}

/// The concatenation of two byte strings.
pub(crate) fn concat(head: Vec<u8>, tail: &Vec<u8>) -> (out: Vec<u8>)
    ensures
        out@ == head@ + tail@,
{
    let mut out = head;
    let mut i: usize = 0;
    while i < tail.len()
        invariant
            i <= tail.len(),
            out@ == head@ + tail@.take(i as int),
        decreases tail.len() - i,
    {
        out.push(tail[i]);
        i += 1;
    }
    out
}

/// Keyed hash of `input` under `key`. `outSize` is the number of bytes
/// wanted; without it the configured keyed-hash size is used.
pub fn keyedHash(input: &Vec<u8>, key: &Vec<u8>, outSize: Option<u16>) -> (hash: Vec<u8>)
    ensures
        hash@ == keyed_hash(input@, key@, keyed_hash_len(outSize)),
        hash@.len() == keyed_hash_len(outSize),
{
    let ipad: Vec<u8> = vec![IPAD];
    let opad: Vec<u8> = vec![OPAD];
    assert(ipad@ =~= seq![IPAD]);
    assert(opad@ =~= seq![OPAD]);
    let out_len: usize = match outSize {
        Some(size) => size as usize,
        None => keyed_hash_size().default as usize,
    };
    let inner = blake3_extend(&concat(xor_with(key, &ipad), input), out_len);
    blake3_extend(&concat(xor_with(key, &opad), &inner), out_len)
}

/// The `out_len` bytes that Argon2id (version 0x13, 4096 KiB of memory, three
/// passes, one lane, no secret, no associated data) derives from `password`
/// and `salt`.
pub uninterp spec fn argon2id_output(password: Seq<u8>, salt: Seq<u8>, out_len: nat) -> Seq<u8>;

/// The inputs that Argon2id accepts: at least four bytes of output, at least
/// eight bytes of salt, and none of the three lengths beyond 32 bits.
pub open spec fn argon2id_accepts(password: Seq<u8>, salt: Seq<u8>, out_len: nat) -> bool {
    &&& 4 <= out_len <= 0xFFFF_FFFF
    &&& 8 <= salt.len() <= 0xFFFF_FFFF
    &&& password.len() <= 0xFFFF_FFFF
}

/// `argon2::Argon2::hash_password_into`, on a context made by `Argon2::new`
/// from the default algorithm and version and from the parameters that
/// `ParamsBuilder` yields once `output_len` is set. The builder refuses an
/// output shorter than `Params::MIN_OUTPUT_LEN` or longer than
/// `Params::MAX_OUTPUT_LEN`; the hash refuses a salt shorter than
/// `MIN_SALT_LEN` or longer than `MAX_SALT_LEN` and a password longer than
/// `MAX_PWD_LEN`; nothing else fails. The output buffer has the configured
/// length, is filled whole, and depends on the three arguments alone.
#[verifier::external_body]
fn argon2id_hash(password: &Vec<u8>, salt: &Vec<u8>, out_len: usize) -> (r: Result<
    Vec<u8>,
    argon2::Error,
>)
    ensures
        r is Ok <==> argon2id_accepts(password@, salt@, out_len as nat),
        r matches Ok(out) ==> out@ == argon2id_output(password@, salt@, out_len as nat)
            && out@.len() == out_len,
{
    let mut builder = argon2::ParamsBuilder::new();
    builder.output_len(out_len)?;
    let params = builder.params()?;
    let hasher = argon2::Argon2::new(
        argon2::Algorithm::default(),
        argon2::Version::default(),
        params,
    );
    let mut out = vec![0u8; out_len];
    hasher.hash_password_into(password, salt, &mut out)?;
    Ok(out)
}

/// What key derivation returns: the derived bytes where Argon2id accepts the
/// inputs, a derivation failure where it does not.
pub open spec fn derived_key(salt: Seq<u8>, password: Seq<u8>, out_len: nat) -> Result<
    Seq<u8>,
    CryptError,
> {
    if argon2id_accepts(password, salt, out_len) {
        Ok(argon2id_output(password, salt, out_len))
    } else {
        Err(CryptError::Derivation)
    }
}

/// Stretches `password` into `outLen` bytes, keyed by `salt`.
pub fn deriveKey(salt: &Vec<u8>, password: &Vec<u8>, outLen: usize) -> (r: Result<
    Vec<u8>,
    CryptError,
>)
    ensures
        bytes_of(r) == derived_key(salt@, password@, outLen as nat),
        r matches Ok(key) ==> key@.len() == outLen,
{
    match argon2id_hash(password, salt, outLen) {
        Ok(key) => Ok(key),
        Err(_) => Err(CryptError::Derivation),
    }
}

} // verus!
