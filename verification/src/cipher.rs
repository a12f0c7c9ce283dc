//! The keystream mode: the payload is cut into blocks, and each block is
//! XORed with a keystream block that depends on the block's index and on the
//! ciphertext block before it.

use crate::consts::{block_size, crypt_key_size};
use crate::error::CryptError;
use crate::ops::{
    bytes_of, concat, keyedHash, keyed_hash, lemma_xor_repeat_cancels, xor_repeat, xor_with,
};
use vstd::prelude::*;

verus! {

/// The `width` low bytes of `value`, most significant first.
pub open spec fn be_bytes(value: nat, width: nat) -> Seq<u8>
    decreases width,
{
    if width == 0 {
        Seq::empty()
    } else {
        be_bytes(value / 256, (width - 1) as nat).push((value % 256) as u8)
    }
}

/// The `width` low bytes of `value`, most significant first.
pub fn big_endian(value: u64, width: usize) -> (out: Vec<u8>)
    ensures
        out@ == be_bytes(value as nat, width as nat),
{
    let mut out: Vec<u8> = Vec::new();
    let mut rest: u64 = value;
    let mut left: usize = width;
    while left > 0
        invariant
            be_bytes(value as nat, width as nat) == be_bytes(rest as nat, left as nat) + out@,
        decreases left,
    {
        let low: u8 = (rest % 256) as u8;
        let ghost tail = out@;
        assert(be_bytes(rest as nat, left as nat) + tail =~= be_bytes(
            (rest / 256) as nat,
            (left - 1) as nat,
        ) + (seq![low] + tail));
        out.insert(0, low);
        assert(out@ =~= seq![low] + tail);
        rest = rest / 256;
        left -= 1;
    }
    out
}

/// The first-block anchor: the keyed hash of the IV, as long as the key.
pub open spec fn anchor(key: Seq<u8>, iv: Seq<u8>) -> Seq<u8> {
    keyed_hash(iv, key, key.len())
}

/// The keystream block for the block at `index`: the keyed hash of the
/// index, masked with the chain value.
pub open spec fn keystream(key: Seq<u8>, index: nat, chain: Seq<u8>) -> Seq<u8> {
    xor_repeat(keyed_hash(be_bytes(index, 8), key, key.len()), chain)
}

/// The next block of `rest`: `size` bytes, or what is left.
pub open spec fn head_block(rest: Seq<u8>, size: nat) -> Seq<u8> {
    if size <= rest.len() {
        rest.take(size as int)
    } else {
        rest
    }
}

/// The ciphertext of `rest`, whose first block has the index `index` and is
/// chained to `chain`. Each ciphertext block is the chain value of the next.
pub open spec fn encrypt_from(
    key: Seq<u8>,
    size: nat,
    index: nat,
    chain: Seq<u8>,
    rest: Seq<u8>,
) -> Seq<u8>
    decreases rest.len(),
{
    if size == 0 || rest.len() == 0 {
        Seq::empty()
    } else {
        let head = head_block(rest, size);
        let out = xor_repeat(head, keystream(key, index, chain));
        out + encrypt_from(key, size, index + 1, out, rest.skip(head.len() as int))
    }
}

/// The plaintext of the ciphertext `rest`, whose first block has the index
/// `index` and is chained to `chain`. Each ciphertext block is the chain
/// value of the next.
pub open spec fn decrypt_from(
    key: Seq<u8>,
    size: nat,
    index: nat,
    chain: Seq<u8>,
    rest: Seq<u8>,
) -> Seq<u8>
    decreases rest.len(),
{
    if size == 0 || rest.len() == 0 {
        Seq::empty()
    } else {
        let head = head_block(rest, size);
        let out = xor_repeat(head, keystream(key, index, chain));
        out + decrypt_from(key, size, index + 1, head, rest.skip(head.len() as int))
    }
}

/// The ciphertext of `plain` under the sub-key `key`, in blocks of `size`.
pub open spec fn encrypted(key: Seq<u8>, iv: Seq<u8>, size: nat, plain: Seq<u8>) -> Seq<u8> {
    encrypt_from(key, size, 0, anchor(key, iv), plain)
}

/// The plaintext of `cipher` under the sub-key `key`, in blocks of `size`.
pub open spec fn decrypted(key: Seq<u8>, iv: Seq<u8>, size: nat, cipher: Seq<u8>) -> Seq<u8> {
    decrypt_from(key, size, 0, anchor(key, iv), cipher)
}

/// The ciphertext is as long as the plaintext.
pub proof fn lemma_encrypt_from_len(
    key: Seq<u8>,
    size: nat,
    index: nat,
    chain: Seq<u8>,
    rest: Seq<u8>,
)
    requires
        size > 0,
    ensures
        encrypt_from(key, size, index, chain, rest).len() == rest.len(),
    decreases rest.len(),
{
    if rest.len() > 0 {
        let head = head_block(rest, size);
        let out = xor_repeat(head, keystream(key, index, chain));
        lemma_encrypt_from_len(key, size, index + 1, out, rest.skip(head.len() as int));
    }
}

/// Deciphering from the same index and chain value undoes enciphering.
pub proof fn lemma_decrypt_from_inverts(
    key: Seq<u8>,
    size: nat,
    index: nat,
    chain: Seq<u8>,
    plain: Seq<u8>,
)
    requires
        size > 0,
    ensures
        decrypt_from(key, size, index, chain, encrypt_from(key, size, index, chain, plain))
            == plain,
    decreases plain.len(),
{
    if plain.len() > 0 {
        let head = head_block(plain, size);
        let stream = keystream(key, index, chain);
        let out = xor_repeat(head, stream);
        let rest = plain.skip(head.len() as int);
        let tail = encrypt_from(key, size, index + 1, out, rest);
        let cipher = out + tail;
        lemma_encrypt_from_len(key, size, index + 1, out, rest);
        assert(head_block(cipher, size) =~= out);
        assert(cipher.skip(out.len() as int) =~= tail);
        lemma_xor_repeat_cancels(head, stream);
        lemma_decrypt_from_inverts(key, size, index + 1, out, rest);
        assert(head + rest =~= plain);
    }
}

/// The plaintext is as long as the ciphertext.
pub proof fn lemma_decrypt_from_len(
    key: Seq<u8>,
    size: nat,
    index: nat,
    chain: Seq<u8>,
    rest: Seq<u8>,
)
    requires
        size > 0,
    ensures
        decrypt_from(key, size, index, chain, rest).len() == rest.len(),
    decreases rest.len(),
{
    if rest.len() > 0 {
        let head = head_block(rest, size);
        lemma_decrypt_from_len(key, size, index + 1, head, rest.skip(head.len() as int));
    }
}

/// The plaintext is as long as the ciphertext: nothing is cut off.
pub proof fn lemma_decrypted_len(key: Seq<u8>, iv: Seq<u8>, size: nat, cipher: Seq<u8>)
    requires
        size > 0,
    ensures
        decrypted(key, iv, size, cipher).len() == cipher.len(),
{
    lemma_decrypt_from_len(key, size, 0, anchor(key, iv), cipher);
}

/// The ciphertext is as long as the plaintext: nothing is padded.
pub proof fn lemma_encrypted_len(key: Seq<u8>, iv: Seq<u8>, size: nat, plain: Seq<u8>)
    requires
        size > 0,
    ensures
        encrypted(key, iv, size, plain).len() == plain.len(),
{
    lemma_encrypt_from_len(key, size, 0, anchor(key, iv), plain);
}

/// Decryption under the same sub-key, IV and block size gives the plaintext
/// back.
pub proof fn lemma_cipher_round_trip(key: Seq<u8>, iv: Seq<u8>, size: nat, plain: Seq<u8>)
    requires
        size > 0,
    ensures
        decrypted(key, iv, size, encrypted(key, iv, size, plain)) == plain,
{
    lemma_decrypt_from_inverts(key, size, 0, anchor(key, iv), plain);
}

/// A payload of exactly one block is masked with the keystream block of
/// index 0, chained to the anchor, and nothing follows it.
pub proof fn lemma_single_block(key: Seq<u8>, iv: Seq<u8>, size: nat, plain: Seq<u8>)
    requires
        size > 0,
        plain.len() == size,
    ensures
        encrypted(key, iv, size, plain) == xor_repeat(plain, keystream(key, 0, anchor(key, iv))),
{
    let out = xor_repeat(plain, keystream(key, 0, anchor(key, iv)));
    assert(head_block(plain, size) =~= plain);
    assert(plain.skip(plain.len() as int).len() == 0);
    assert(encrypt_from(key, size, 1, out, plain.skip(plain.len() as int)) =~= Seq::<u8>::empty());
    assert(out + Seq::<u8>::empty() =~= out);
}

/// An empty payload has an empty ciphertext.
pub proof fn lemma_empty_payload(key: Seq<u8>, iv: Seq<u8>, size: nat)
    ensures
        encrypted(key, iv, size, Seq::empty()) == Seq::<u8>::empty(),
{
}

/// What the sizes of a cipher pass amount to under their policies: the block
/// size is judged first, then the length of the sub-key.
pub open spec fn cipher_constraint(key: Seq<u8>, size: u16) -> Result<(), CryptError> {
    match block_size().verdict(size as int) {
        Err(e) => Err(e),
        Ok(_) => crypt_key_size().verdict(key.len() as int),
    }
}

/// What enciphering returns.
pub open spec fn enciphered(key: Seq<u8>, iv: Seq<u8>, size: u16, plain: Seq<u8>) -> Result<
    Seq<u8>,
    CryptError,
> {
    match cipher_constraint(key, size) {
        Err(e) => Err(e),
        Ok(_) => Ok(encrypted(key, iv, size as nat, plain)),
    }
}

/// What deciphering returns.
pub open spec fn deciphered(key: Seq<u8>, iv: Seq<u8>, size: u16, cipher: Seq<u8>) -> Result<
    Seq<u8>,
    CryptError,
> {
    match cipher_constraint(key, size) {
        Err(e) => Err(e),
        Ok(_) => Ok(decrypted(key, iv, size as nat, cipher)),
    }
}

/// The bytes of `data` from `from` up to `to`.
fn slice_copy(data: &Vec<u8>, from: usize, to: usize) -> (out: Vec<u8>)
    requires
        from <= to <= data.len(),
    ensures
        out@ == data@.subrange(from as int, to as int),
{
    let mut out: Vec<u8> = Vec::new();
    let mut i: usize = from;
    while i < to
        invariant
            from <= i <= to <= data.len(),
            out@ == data@.subrange(from as int, i as int),
        decreases to - i,
    {
        out.push(data[i]);
        i += 1;
    }
    out
}

/// Checks the sizes of a cipher pass against their policies.
fn check_cipher_sizes(key: &Vec<u8>, size: u16) -> (r: Result<(), CryptError>)
    ensures
        r == cipher_constraint(key@, size),
{
    match block_size().check(size) {
        Err(e) => Err(e),
        Ok(_) => crypt_key_size().check_len(key.len()),
    }
}

/// One pass of the keystream mode over `input`. `forward` tells whether the
/// input is plaintext, so that the output is what chains the blocks, or
/// ciphertext, so that the input is.
pub(crate) fn pass(key: &Vec<u8>, iv: &Vec<u8>, size: u16, input: &Vec<u8>, forward: bool) -> (out:
    Vec<u8>)
    requires
        size > 0,
        0 < key.len() <= u16::MAX,
    ensures
        forward ==> out@ == encrypted(key@, iv@, size as nat, input@),
        !forward ==> out@ == decrypted(key@, iv@, size as nat, input@),
{
    let hash_len: u16 = key.len() as u16;
    let mut out: Vec<u8> = Vec::new();
    let mut chain: Vec<u8> = keyedHash(iv, key, Some(hash_len));
    let mut index: usize = 0;
    let mut start: usize = 0;
    assert(input@.skip(0) =~= input@);
    while start < input.len()
        invariant
            size > 0,
            0 < key.len() <= u16::MAX,
            hash_len == key.len(),
            index <= start <= input.len(),
            chain@.len() > 0,
            forward ==> encrypted(key@, iv@, size as nat, input@) == out@ + encrypt_from(
                key@,
                size as nat,
                index as nat,
                chain@,
                input@.skip(start as int),
            ),
            !forward ==> decrypted(key@, iv@, size as nat, input@) == out@ + decrypt_from(
                key@,
                size as nat,
                index as nat,
                chain@,
                input@.skip(start as int),
            ),
        decreases input.len() - start,
    {
        let end: usize = if input.len() - start > size as usize {
            start + size as usize
        } else {
            input.len()
        };
        let head = slice_copy(input, start, end);
        let tag = keyedHash(&big_endian(index as u64, 8), key, Some(hash_len));
        let counter = xor_with(&tag, &chain);
        let block = xor_with(&head, &counter);
        proof {
            let rest = input@.skip(start as int);
            let left = input@.skip(end as int);
            assert(head@ =~= head_block(rest, size as nat));
            assert(rest.skip(head@.len() as int) =~= left);
            let after = (index + 1) as nat;
            let sealed = encrypt_from(key@, size as nat, after, block@, left);
            let opened = decrypt_from(key@, size as nat, after, head@, left);
            assert(out@ + (block@ + sealed) =~= (out@ + block@) + sealed);
            assert(out@ + (block@ + opened) =~= (out@ + block@) + opened);
        }
        out = concat(out, &block);
        chain = if forward {
            block
        } else {
            head
        };
        index += 1;
        start = end;
    }
    out
}

/// Encrypts `input` under the sub-key `key`. The block size and the length
/// of the sub-key are checked against their policies first.
pub fn encipher(key: &Vec<u8>, iv: &Vec<u8>, size: u16, input: &Vec<u8>) -> (r: Result<
    Vec<u8>,
    CryptError,
>)
    ensures
        bytes_of(r) == enciphered(key@, iv@, size, input@),
        r matches Ok(out) ==> out@.len() == input@.len(),
{
    proof {
        if size > 0 {
            lemma_encrypted_len(key@, iv@, size as nat, input@);
        }
    }
    match check_cipher_sizes(key, size) {
        Err(e) => Err(e),
        Ok(_) => Ok(pass(key, iv, size, input, true)),
    }
}

/// Decrypts `input` under the sub-key `key`. The block size and the length
/// of the sub-key are checked against their policies first.
pub fn decipher(key: &Vec<u8>, iv: &Vec<u8>, size: u16, input: &Vec<u8>) -> (r: Result<
    Vec<u8>,
    CryptError,
>)
    ensures
        bytes_of(r) == deciphered(key@, iv@, size, input@),
        r matches Ok(out) ==> out@.len() == input@.len(),
{
    proof {
        if size > 0 {
            lemma_decrypted_len(key@, iv@, size as nat, input@);
        }
    }
    match check_cipher_sizes(key, size) {
        Err(e) => Err(e),
        Ok(_) => Ok(pass(key, iv, size, input, false)),
    }
}

} // verus!
