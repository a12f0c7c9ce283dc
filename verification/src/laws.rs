//! What holds of the engine as a whole: what was encrypted decrypts to
//! itself, what was tampered with is turned down, and the keys keep signing
//! and verifying apart.

use crate::cipher::{
    anchor, keystream, lemma_cipher_round_trip, lemma_decrypted_len, lemma_empty_payload,
    lemma_encrypted_len, lemma_single_block,
};
use crate::error::{CryptError, ErrorKind};
use crate::keys::Signing::{dilithium5_accepts, Pair, PUBLIC_KEY_BYTES, SIGNATURE_BYTES};
use crate::keys::KeysView;
use crate::ops::{derived_key, xor_repeat};
use crate::target::Target;
use crate::{CryptView, IntegrityView};
use vstd::prelude::*;

verus! {

/// The job that hands the ciphertext `cyphered` of a finished encryption
/// back for decryption: same block size, IV and stored integrity value.
pub open spec fn reversal(sealed: CryptView, keys: KeysView, cyphered: Seq<u8>) -> CryptView {
    CryptView { target: Target::Decrypt, keys, input: cyphered, ..sealed }
}

/// `bytes` with the bits of `mask` flipped in the byte at `at`.
pub open spec fn flipped(bytes: Seq<u8>, at: int, mask: u8) -> Seq<u8> {
    bytes.update(at, bytes[at] ^ mask)
}

/// Flipping bits changes the bytes.
pub proof fn lemma_flipped_differs(bytes: Seq<u8>, at: int, mask: u8)
    requires
        0 <= at < bytes.len(),
        mask != 0,
    ensures
        flipped(bytes, at, mask) != bytes,
        flipped(bytes, at, mask).len() == bytes.len(),
{
    let byte = bytes[at];
    assert(mask != 0 ==> byte ^ mask != byte) by (bit_vector);
    assert(flipped(bytes, at, mask)[at] != bytes[at]);
}

/// The keystream pass undoes itself: where enciphering succeeds, deciphering
/// its output with the same keys, IV and block size returns the input,
/// whatever the input's length.
pub proof fn lemma_cypher_round_trip(job: CryptView)
    requires
        job.target == Target::Encrypt,
        job.cyphered().0 is Ok,
    ensures
        ({
            let (cyphered, keyed) = job.cyphered();
            reversal(keyed, keyed.keys, cyphered->Ok_0).cyphered().0 == Ok::<
                Seq<u8>,
                CryptError,
            >(job.input)
        }),
{
    let key = job.keys.sub_key_outcome().0->Ok_0;
    lemma_cipher_round_trip(key, job.iv, job.block_size as nat, job.input);
}

/// The keystream pass keeps the length, in either direction; an empty input
/// has an empty output.
pub proof fn lemma_cypher_len(job: CryptView)
    requires
        job.cyphered().0 is Ok,
    ensures
        job.cyphered().0->Ok_0.len() == job.input.len(),
        job.input.len() == 0 ==> job.cyphered().0 == Ok::<Seq<u8>, CryptError>(Seq::empty()),
{
    let key = job.keys.sub_key_outcome().0->Ok_0;
    lemma_encrypted_len(key, job.iv, job.block_size as nat, job.input);
    lemma_decrypted_len(key, job.iv, job.block_size as nat, job.input);
    if job.input.len() == 0 {
        assert(job.cyphered().0->Ok_0 =~= Seq::<u8>::empty());
    }
}

/// An input of exactly one block is enciphered as one block: it is masked
/// with the keystream block of index 0, whose only chain value is the anchor
/// derived from the IV.
pub proof fn lemma_cypher_single_block(job: CryptView)
    requires
        job.target == Target::Encrypt,
        job.input.len() == job.block_size,
        job.cyphered().0 is Ok,
    ensures
        ({
            let key = job.keys.sub_key_outcome().0->Ok_0;
            job.cyphered().0 == Ok::<Seq<u8>, CryptError>(
                xor_repeat(job.input, keystream(key, 0, anchor(key, job.iv))),
            )
        }),
{
    let key = job.keys.sub_key_outcome().0->Ok_0;
    lemma_single_block(key, job.iv, job.block_size as nat, job.input);
}

/// Encryption succeeds exactly where it is owed: the sizes of the job and
/// of the keys are within their policies, the sub-key is cached or can be
/// derived, and, where a signature is asked for, the secret signing key is
/// there.
pub proof fn lemma_sealing_succeeds(job: CryptView)
    requires
        job.target == Target::Encrypt,
    ensures
        job.processed().0 is Ok <==> {
            &&& job.constraint() is Ok
            &&& job.keys.constraint() is Ok
            &&& (job.keys.sub_key is Some || job.keys.derivable())
            &&& (job.integrity is Signed ==> job.keys.signing is Some
                && job.keys.signing->Some_0.secret is Some)
        },
{
}

/// Round trip with a tag: where encryption with a keyed-hash tag succeeds,
/// decrypting its ciphertext with the same keys, IV, block size and the tag
/// it stored returns the payload.
pub proof fn lemma_round_trip_unsigned(job: CryptView)
    requires
        job.target == Target::Encrypt,
        job.integrity is Unsigned,
        job.processed().0 is Ok,
    ensures
        ({
            let (cyphered, sealed) = job.processed();
            reversal(sealed, sealed.keys, cyphered->Ok_0).processed().0 == Ok::<
                Seq<u8>,
                CryptError,
            >(job.input)
        }),
{
    let (cyphered, sealed) = job.processed();
    let key = job.keys.sub_key_outcome().0->Ok_0;
    lemma_cipher_round_trip(key, job.iv, job.block_size as nat, job.input);
    let back = reversal(sealed, sealed.keys, cyphered->Ok_0);
    assert(back.construction(back.input) == job.construction(cyphered->Ok_0));
}

/// Round trip with a signature: where encryption with a signature succeeds
/// under a keypair whose halves belong together, decrypting its ciphertext
/// with the public view of the keys, the same IV and block size and the
/// signature it stored returns the payload.
pub proof fn lemma_round_trip_signed(job: CryptView)
    requires
        job.keys.consistent(),
        job.target == Target::Encrypt,
        job.integrity is Signed,
        job.keys.signing matches Some(pair) && pair.complete(),
        job.processed().0 is Ok,
    ensures
        ({
            let (cyphered, sealed) = job.processed();
            &&& sealed.keys.public_only() matches Ok(public)
            &&& reversal(sealed, public, cyphered->Ok_0).processed().0 == Ok::<
                Seq<u8>,
                CryptError,
            >(job.input)
        }),
{
    let (cyphered, sealed) = job.processed();
    let key = job.keys.sub_key_outcome().0->Ok_0;
    lemma_cipher_round_trip(key, job.iv, job.block_size as nat, job.input);
    let public = sealed.keys.public_only()->Ok_0;
    let back = reversal(sealed, public, cyphered->Ok_0);
    assert(back.construction(back.input) == job.construction(cyphered->Ok_0));
    assert(public.sub_key_outcome().0 == Ok::<Seq<u8>, CryptError>(key));
}

/// Encryption keeps the length: the ciphertext is as long as the payload,
/// and an empty payload has an empty ciphertext, whose construction is still
/// signed or tagged.
pub proof fn lemma_sealed_len(job: CryptView)
    requires
        job.target == Target::Encrypt,
        job.processed().0 is Ok,
    ensures
        job.processed().0->Ok_0.len() == job.input.len(),
        job.processed().1.integrity.value() is Some,
        job.input.len() == 0 ==> job.processed().0->Ok_0 == Seq::<u8>::empty(),
{
    let key = job.keys.sub_key_outcome().0->Ok_0;
    lemma_encrypted_len(key, job.iv, job.block_size as nat, job.input);
    if job.input.len() == 0 {
        assert(job.input =~= Seq::<u8>::empty());
        lemma_empty_payload(key, job.iv, job.block_size as nat);
    }
}

/// Verification comes first: decryption returns a plaintext only if the
/// stored tag is the tag of what was received, or Dilithium5 accepts the
/// stored signature for it under the public key.
pub proof fn lemma_verified_before_decrypted(job: CryptView)
    requires
        job.target == Target::Decrypt,
        job.processed().0 is Ok,
    ensures
        match job.integrity {
            IntegrityView::Unsigned(tag) => tag == Some(
                CryptView::tag(
                    job.keys.sub_key_outcome().0->Ok_0,
                    job.construction(job.input),
                ),
            ),
            IntegrityView::Signed(signature) => {
                &&& signature matches Some(signature)
                &&& job.keys.signing matches Some(pair)
                &&& pair.public matches Some(public)
                &&& dilithium5_accepts(signature, job.construction(job.input), public)
            },
        },
{
}

/// A tampered tag is detected: if any bits of any byte of the stored tag
/// are flipped after an encryption, decryption fails for want of integrity.
pub proof fn lemma_tampered_tag_detected(job: CryptView, at: int, mask: u8)
    requires
        job.target == Target::Encrypt,
        job.integrity is Unsigned,
        job.processed().0 is Ok,
        0 <= at < job.processed().1.integrity.value()->Some_0.len(),
        mask != 0,
    ensures
        ({
            let (cyphered, sealed) = job.processed();
            let tag = sealed.integrity.value()->Some_0;
            let tampered = CryptView {
                integrity: IntegrityView::Unsigned(Some(flipped(tag, at, mask))),
                ..reversal(sealed, sealed.keys, cyphered->Ok_0)
            };
            &&& tampered.processed().0 == Err::<Seq<u8>, CryptError>(CryptError::InvalidTag)
            &&& CryptError::InvalidTag.kind() == ErrorKind::Integrity
        }),
{
    let (cyphered, sealed) = job.processed();
    let tag = sealed.integrity.value()->Some_0;
    lemma_flipped_differs(tag, at, mask);
    let back = reversal(sealed, sealed.keys, cyphered->Ok_0);
    assert(back.construction(back.input) == job.construction(cyphered->Ok_0));
}

/// A tampered ciphertext is detected wherever the keyed hash tells the two
/// constructions apart: if bits of a byte of the ciphertext are flipped
/// after an encryption, and the tag of what is then received is not the
/// stored one, decryption fails for want of integrity.
pub proof fn lemma_tampered_ciphertext_detected(job: CryptView, at: int, mask: u8)
    requires
        job.target == Target::Encrypt,
        job.integrity is Unsigned,
        job.processed().0 is Ok,
        0 <= at < job.processed().0->Ok_0.len(),
        mask != 0,
        ({
            let (cyphered, sealed) = job.processed();
            CryptView::tag(
                job.keys.sub_key_outcome().0->Ok_0,
                sealed.construction(flipped(cyphered->Ok_0, at, mask)),
            ) != sealed.integrity.value()->Some_0
        }),
    ensures
        ({
            let (cyphered, sealed) = job.processed();
            reversal(sealed, sealed.keys, flipped(cyphered->Ok_0, at, mask)).processed().0
                == Err::<Seq<u8>, CryptError>(CryptError::InvalidTag)
        }),
{
}

/// A tampered IV is detected wherever the keyed hash tells the two
/// constructions apart: if bits of a byte of the IV are flipped after an
/// encryption, and the tag of what is then received is not the stored one,
/// decryption fails for want of integrity, also for an empty payload.
pub proof fn lemma_tampered_iv_detected(job: CryptView, at: int, mask: u8)
    requires
        job.target == Target::Encrypt,
        job.integrity is Unsigned,
        job.processed().0 is Ok,
        0 <= at < job.iv.len(),
        mask != 0,
        ({
            let (cyphered, sealed) = job.processed();
            CryptView::tag(
                job.keys.sub_key_outcome().0->Ok_0,
                (CryptView { iv: flipped(job.iv, at, mask), ..sealed }).construction(
                    cyphered->Ok_0,
                ),
            ) != sealed.integrity.value()->Some_0
        }),
    ensures
        ({
            let (cyphered, sealed) = job.processed();
            (CryptView {
                iv: flipped(job.iv, at, mask),
                ..reversal(sealed, sealed.keys, cyphered->Ok_0)
            }).processed().0 == Err::<Seq<u8>, CryptError>(CryptError::InvalidTag)
        }),
{
}

/// Tampered ciphertext or IV is detected wherever the keyed hash tells the
/// two constructions apart: a decryption whose stored tag is not the tag of
/// what was received fails for want of integrity, once the sizes hold and
/// the sub-key is there, and returns no plaintext.
pub proof fn lemma_wrong_tag_detected(job: CryptView, tag: Seq<u8>)
    requires
        job.target == Target::Decrypt,
        job.integrity == IntegrityView::Unsigned(Some(tag)),
        job.constraint() is Ok,
        job.keys.sub_key_outcome().0 matches Ok(key) && tag != CryptView::tag(
            key,
            job.construction(job.input),
        ),
    ensures
        job.processed().0 == Err::<Seq<u8>, CryptError>(CryptError::InvalidTag),
{
}

/// A tampered signature, or a signature on tampered ciphertext or IV, is
/// detected wherever Dilithium5 turns it down: a verifying party whose
/// stored signature is as long as before then fails for want of integrity,
/// and gets no plaintext.
pub proof fn lemma_wrong_signature_detected(job: CryptView, signature: Seq<u8>, public: Seq<u8>)
    requires
        job.target == Target::Decrypt,
        job.integrity == IntegrityView::Signed(Some(signature)),
        job.constraint() is Ok,
        job.keys.signing == Some(Pair { secret: None, public: Some(public) }),
        public.len() == PUBLIC_KEY_BYTES,
        signature.len() <= SIGNATURE_BYTES,
        !dilithium5_accepts(signature, job.construction(job.input), public),
    ensures
        job.processed() == (Err::<Seq<u8>, CryptError>(CryptError::InvalidSignature), job),
        CryptError::InvalidSignature.kind() == ErrorKind::Integrity,
{
}

/// Key derivation is a function of its inputs: two results for the same
/// salt, password and length are the same.
pub proof fn lemma_derivation_deterministic(
    salt: Seq<u8>,
    password: Seq<u8>,
    out_len: nat,
    first: Result<Seq<u8>, CryptError>,
    second: Result<Seq<u8>, CryptError>,
)
    requires
        first == derived_key(salt, password, out_len),
        second == derived_key(salt, password, out_len),
    ensures
        first == second,
{
}

/// The sub-key is cached: a second request returns what the first returned
/// and leaves the keys as the first left them.
pub proof fn lemma_sub_key_cached(keys: KeysView)
    requires
        keys.sub_key_outcome().0 is Ok,
    ensures
        ({
            let (first, cached) = keys.sub_key_outcome();
            &&& cached.sub_key == Some(first->Ok_0)
            &&& cached.sub_key_outcome() == (first, cached)
        }),
{
}

/// Signing and verifying are kept apart: whoever holds the secret key is
/// refused verification, whatever the message and the signature.
pub proof fn lemma_secret_holder_cannot_verify(pair: Pair, message: Seq<u8>, signature: Seq<u8>)
    requires
        pair.secret is Some,
    ensures
        pair.verified(message, signature) == Err::<bool, CryptError>(CryptError::SecretKeyPresent),
        CryptError::SecretKeyPresent.kind() == ErrorKind::NotAvailable,
{
}

/// A signed payload cannot be decrypted with keys that still hold the
/// secret signing key.
pub proof fn lemma_secret_holder_cannot_decrypt(job: CryptView)
    requires
        job.target == Target::Decrypt,
        job.integrity matches IntegrityView::Signed(Some(_)),
        job.constraint() is Ok,
        job.keys.signing matches Some(pair) && pair.secret is Some,
    ensures
        job.processed() == (Err::<Seq<u8>, CryptError>(CryptError::SecretKeyPresent), job),
{
}

/// The public view holds no secret signing key and no cached sub-key; salt,
/// key and public key are the same. A sub-key asked of it is derived anew.
pub proof fn lemma_public_view_stripped(keys: KeysView)
    requires
        keys.public_only() is Ok,
    ensures
        ({
            let public = keys.public_only()->Ok_0;
            &&& public.signing matches Some(pair) && pair.secret is None && pair.public
                == keys.signing->Some_0.public
            &&& public.sub_key is None
            &&& public.salt == keys.salt
            &&& public.cypher == keys.cypher
            &&& public.constraint() is Ok ==> public.sub_key_outcome().0 == derived_key(
                keys.salt,
                keys.cypher,
                keys.cypher.len(),
            )
        }),
{
}

} // verus!
