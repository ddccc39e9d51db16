//! Authenticated encryption of one file's contents.
//!
//! A stored file is `nonce || ciphertext || tag`: a 12-byte random nonce,
//! then AES-256-GCM output under key material taken from the passphrase,
//! with empty associated data.

use ring::aead::{Aad, LessSafeKey, Nonce, UnboundKey, AES_256_GCM};
use ring::rand::{SecureRandom, SystemRandom};
use vstd::prelude::*;
use vstd::string::StringSliceAdditionalSpecFns;

verus! {

/// Length of the key material handed to the cipher.
pub const KEY_LEN: usize = 32;

/// Length of the nonce stored at the front of an encrypted file.
pub const NONCE_LEN: usize = 12;

/// Length of the authentication tag that the cipher appends.
pub const TAG_LEN: usize = 16;

/// The longest input that AES-GCM seals under one nonce: the 32-bit block
/// counter, less the two blocks it uses itself, times 16 bytes.
pub const MAX_SEAL_LEN: u64 = 68719476704;

/// Why a single-file operation failed.
#[derive(Debug, Clone, Copy, PartialEq, Eq, Structural)]
pub enum CipherError {
    /// The operating system's secure random source gave no nonce.
    RandomSource,
    /// The cipher refused the key, the nonce or the input.
    Seal,
    /// The stored bytes are too short to hold a nonce.
    TooShort,
    /// The tag did not verify: wrong passphrase, or bytes that are not an
    /// intact encryption.
    Authentication,
}

/// Key material for a passphrase whose encoding is `secret`: its first 32
/// bytes, zero-padded when it is shorter.
pub open spec fn key_material(secret: Seq<u8>) -> Seq<u8> {
    Seq::new(KEY_LEN as nat, |i: int| if i < secret.len() { secret[i] } else { 0u8 })
}

/// What AES-256-GCM sealing with empty associated data gives for `key`,
/// `nonce` and `plaintext` (ciphertext followed by the tag), if it succeeds.
pub uninterp spec fn aes_gcm_seal(key: Seq<u8>, nonce: Seq<u8>, plaintext: Seq<u8>) -> Option<Seq<u8>>;

/// What AES-256-GCM opening with empty associated data gives for `key`,
/// `nonce` and `sealed` (ciphertext followed by the tag), if the tag verifies.
pub uninterp spec fn aes_gcm_open(key: Seq<u8>, nonce: Seq<u8>, sealed: Seq<u8>) -> Option<Seq<u8>>;

/// `stored` is an encryption of `plaintext` under `key`: a nonce followed by
/// what sealing gives under that nonce.
pub open spec fn is_sealing(key: Seq<u8>, plaintext: Seq<u8>, stored: Seq<u8>) -> bool {
    &&& stored.len() >= NONCE_LEN
    &&& aes_gcm_seal(key, stored.take(NONCE_LEN as int), plaintext) == Some(
        stored.skip(NONCE_LEN as int),
    )
}

/// What decrypting the stored bytes under `key` gives.
pub open spec fn decrypted(key: Seq<u8>, stored: Seq<u8>) -> Result<Seq<u8>, CipherError> {
    if stored.len() < NONCE_LEN {
        Err(CipherError::TooShort)
    } else {
        match aes_gcm_open(key, stored.take(NONCE_LEN as int), stored.skip(NONCE_LEN as int)) {
            Some(p) => Ok(p),
            None => Err(CipherError::Authentication),
        }
    }
}

/// The bytes of an outcome, as a value of the model.
pub open spec fn bytes_result(r: Result<Vec<u8>, CipherError>) -> Result<Seq<u8>, CipherError> {
    match r {
        Ok(v) => Ok(v@),
        Err(e) => Err(e),
    }
}

/// Relies on ring's `SecureRandom::fill` for `SystemRandom`: it fills the
/// buffer in place and reports whether the system source answered.
#[verifier::external_body]
fn fill_random(buf: &mut Vec<u8>) -> (ok: bool)
    ensures
        final(buf)@.len() == old(buf)@.len(),
{
    SystemRandom::new().fill(buf.as_mut_slice()).is_ok()
}

/// Relies on ring's `LessSafeKey::seal_in_place_append_tag` with
/// `AES_256_GCM` and empty associated data: it succeeds for a 32-byte key, a
/// 12-byte nonce and an input of at most `MAX_SEAL_LEN` bytes; the ciphertext
/// keeps the plaintext's length, the 16-byte tag is appended, and opening the
/// result with the same key and nonce gives the plaintext back.
#[verifier::external_body]
fn seal(key: &[u8], nonce: &[u8], data: Vec<u8>) -> (r: Option<Vec<u8>>)
    ensures
        r is Some <==> aes_gcm_seal(key@, nonce@, data@) is Some,
        key@.len() == KEY_LEN && nonce@.len() == NONCE_LEN && data@.len() <= MAX_SEAL_LEN
            ==> r is Some,
        r matches Some(c) ==> aes_gcm_seal(key@, nonce@, data@) == Some(c@),
        r matches Some(c) ==> c@.len() == data@.len() + TAG_LEN,
        r matches Some(c) ==> aes_gcm_open(key@, nonce@, c@) == Some(data@),
{
    let key = LessSafeKey::new(UnboundKey::new(&AES_256_GCM, key).ok()?);
    let nonce = Nonce::try_assume_unique_for_key(nonce).ok()?;
    let mut data = data;
    key.seal_in_place_append_tag(nonce, Aad::empty(), &mut data).ok()?;
    Some(data)
}

/// Relies on ring's `LessSafeKey::open_in_place` with `AES_256_GCM` and
/// empty associated data: it returns the plaintext when the tag verifies.
/// The input must hold the 16-byte tag, the plaintext is the input less the
/// tag, and a verified tag means that sealing the plaintext under the same
/// key and nonce gives the input back.
#[verifier::external_body]
fn open(key: &[u8], nonce: &[u8], sealed: Vec<u8>) -> (r: Option<Vec<u8>>)
    ensures
        r is Some <==> aes_gcm_open(key@, nonce@, sealed@) is Some,
        r matches Some(p) ==> aes_gcm_open(key@, nonce@, sealed@) == Some(p@),
        r matches Some(p) ==> sealed@.len() >= TAG_LEN && p@.len() == sealed@.len() - TAG_LEN,
        r matches Some(p) ==> aes_gcm_seal(key@, nonce@, p@) == Some(sealed@),
{
    let key = LessSafeKey::new(UnboundKey::new(&AES_256_GCM, key).ok()?);
    let nonce = Nonce::try_assume_unique_for_key(nonce).ok()?;
    let mut sealed = sealed;
    let plain = key.open_in_place(nonce, Aad::empty(), &mut sealed).ok()?;
    Some(plain.to_vec())
}

/// Key material for a passphrase: its UTF-8 bytes, cut or zero-padded to 32.
pub fn derive_key(passphrase: &str) -> (key: Vec<u8>)
    ensures
        key@ == key_material(passphrase.spec_bytes()),
{
    let bytes = passphrase.as_bytes();
    let mut key: Vec<u8> = Vec::new();
    let mut i: usize = 0;
    while i < KEY_LEN
        invariant
            i <= KEY_LEN,
            bytes@ == passphrase.spec_bytes(),
            key@ == key_material(bytes@).take(i as int),
        decreases KEY_LEN - i,
    {
        if i < bytes.len() {
            key.push(bytes[i]);
        } else {
            key.push(0u8);
        }
        i += 1;
    }
    assert(key@ == key_material(bytes@));
    key
}

/// Seals `plaintext` under `key` with the given nonce and lays the result out
/// as it is stored: the nonce, then ciphertext and tag.
pub fn seal_with_nonce(plaintext: Vec<u8>, key: &Vec<u8>, nonce: &Vec<u8>) -> (r: Result<
    Vec<u8>,
    CipherError,
>)
    requires
        nonce@.len() == NONCE_LEN,
    ensures
        match aes_gcm_seal(key@, nonce@, plaintext@) {
            Some(c) => r matches Ok(out) && out@ == nonce@ + c,
            None => r == Err::<Vec<u8>, CipherError>(CipherError::Seal),
        },
        key@.len() == KEY_LEN && plaintext@.len() <= MAX_SEAL_LEN ==> r is Ok,
        r matches Ok(out) ==> is_sealing(key@, plaintext@, out@),
        r matches Ok(out) ==> out@.len() == plaintext@.len() + NONCE_LEN + TAG_LEN,
        r matches Ok(out) ==> decrypted(key@, out@) == Ok::<Seq<u8>, CipherError>(plaintext@),
{
    let ghost p = plaintext@;
    match seal(key.as_slice(), nonce.as_slice(), plaintext) {
        Some(sealed) => {
            let mut out = nonce.clone();
            let mut i: usize = 0;
            while i < sealed.len()
                invariant
                    i <= sealed@.len(),
                    out@ == nonce@ + sealed@.take(i as int),
                decreases sealed@.len() - i,
            {
                out.push(sealed[i]);
                i += 1;
            }
            assert(sealed@.take(sealed@.len() as int) == sealed@);
            assert(out@.take(NONCE_LEN as int) == nonce@);
            assert(out@.skip(NONCE_LEN as int) == sealed@);
            Ok(out)
        },
        None => Err(CipherError::Seal),
    }
}

/// Encrypts `plaintext` under `key` with the nonce that the random source
/// drew, if it drew one: no draw, no encryption.
pub fn seal_with_draw(plaintext: Vec<u8>, key: &Vec<u8>, draw: Option<Vec<u8>>) -> (r: Result<
    Vec<u8>,
    CipherError,
>)
    requires
        draw matches Some(n) ==> n@.len() == NONCE_LEN,
    ensures
        draw is None ==> r == Err::<Vec<u8>, CipherError>(CipherError::RandomSource),
        draw matches Some(n) ==> match aes_gcm_seal(key@, n@, plaintext@) {
            Some(c) => r matches Ok(out) && out@ == n@ + c,
            None => r == Err::<Vec<u8>, CipherError>(CipherError::Seal),
        },
        draw is Some && key@.len() == KEY_LEN && plaintext@.len() <= MAX_SEAL_LEN ==> r is Ok,
        r matches Ok(out) ==> is_sealing(key@, plaintext@, out@),
        r matches Ok(out) ==> out@.len() == plaintext@.len() + NONCE_LEN + TAG_LEN,
        r matches Ok(out) ==> decrypted(key@, out@) == Ok::<Seq<u8>, CipherError>(plaintext@),
{
    match draw {
        Some(nonce) => seal_with_nonce(plaintext, key, &nonce),
        None => Err(CipherError::RandomSource),
    }
}

/// Encrypts `plaintext` under `key` with a fresh random nonce.
pub fn encrypt_with_key(plaintext: Vec<u8>, key: &Vec<u8>) -> (r: Result<Vec<u8>, CipherError>)
    ensures
        key@.len() == KEY_LEN && plaintext@.len() <= MAX_SEAL_LEN ==> (r is Ok || r == Err::<
            Vec<u8>,
            CipherError,
        >(CipherError::RandomSource)),
        r matches Ok(out) ==> is_sealing(key@, plaintext@, out@),
        r matches Ok(out) ==> out@.len() == plaintext@.len() + NONCE_LEN + TAG_LEN,
        r matches Ok(out) ==> decrypted(key@, out@) == Ok::<Seq<u8>, CipherError>(plaintext@),
        r matches Err(e) ==> e == CipherError::RandomSource || e == CipherError::Seal,
{
    let mut nonce: Vec<u8> = vec![0u8; NONCE_LEN];
    let draw = if fill_random(&mut nonce) {
        Some(nonce)
    } else {
        None
    };
    seal_with_draw(plaintext, key, draw)
}

/// Encrypts a file's contents under a passphrase: on success the result is
/// a fresh nonce followed by ciphertext and tag, 28 bytes longer than the
/// input, and decrypting it with the same passphrase gives the input back.
pub fn encrypt_data(plaintext: Vec<u8>, passphrase: &str) -> (r: Result<Vec<u8>, CipherError>)
    ensures
        plaintext@.len() <= MAX_SEAL_LEN ==> (r is Ok || r == Err::<Vec<u8>, CipherError>(
            CipherError::RandomSource,
        )),
        r matches Ok(out) ==> is_sealing(key_material(passphrase.spec_bytes()), plaintext@, out@),
        r matches Ok(out) ==> out@.len() == plaintext@.len() + NONCE_LEN + TAG_LEN,
        r matches Ok(out) ==> decrypted(key_material(passphrase.spec_bytes()), out@) == Ok::<
            Seq<u8>,
            CipherError,
        >(plaintext@),
        r matches Err(e) ==> e == CipherError::RandomSource || e == CipherError::Seal,
{
    let key = derive_key(passphrase);
    encrypt_with_key(plaintext, &key)
}

/// Decrypts stored bytes under `key`: the first 12 bytes are the nonce, the
/// rest ciphertext and tag.
pub fn open_with_key(stored: Vec<u8>, key: &Vec<u8>) -> (r: Result<Vec<u8>, CipherError>)
    ensures
        bytes_result(r) == decrypted(key@, stored@),
        r matches Ok(p) ==> stored@.len() >= NONCE_LEN + TAG_LEN && p@.len() == stored@.len()
            - NONCE_LEN - TAG_LEN,
        r matches Ok(p) ==> is_sealing(key@, p@, stored@),
{
    if stored.len() < NONCE_LEN {
        return Err(CipherError::TooShort);
    }
    let mut nonce: Vec<u8> = Vec::new();
    let mut sealed: Vec<u8> = Vec::new();
    let mut i: usize = 0;
    while i < stored.len()
        invariant
            NONCE_LEN <= stored@.len(),
            i <= stored@.len(),
            nonce@ == stored@.take(if i < NONCE_LEN { i as int } else { NONCE_LEN as int }),
            sealed@ == (if i < NONCE_LEN { Seq::<u8>::empty() } else { stored@.subrange(
                NONCE_LEN as int,
                i as int,
            ) }),
        decreases stored@.len() - i,
    {
        if i < NONCE_LEN {
            nonce.push(stored[i]);
        } else {
            sealed.push(stored[i]);
        }
        i += 1;
    }
    assert(sealed@ == stored@.skip(NONCE_LEN as int));
    match open(key.as_slice(), nonce.as_slice(), sealed) {
        Some(plain) => Ok(plain),
        None => Err(CipherError::Authentication),
    }
}

/// Decrypts a file's stored bytes under a passphrase.
pub fn decrypt_data(stored: Vec<u8>, passphrase: &str) -> (r: Result<Vec<u8>, CipherError>)
    ensures
        bytes_result(r) == decrypted(key_material(passphrase.spec_bytes()), stored@),
        r matches Ok(p) ==> stored@.len() >= NONCE_LEN + TAG_LEN && p@.len() == stored@.len()
            - NONCE_LEN - TAG_LEN,
        r matches Ok(p) ==> is_sealing(key_material(passphrase.spec_bytes()), p@, stored@),
{
    let key = derive_key(passphrase);
    open_with_key(stored, &key)
}

/// Passphrases whose encodings differ at a position below 32 that both
/// reach give different key material.
pub proof fn lemma_distinct_passphrases_distinct_keys(a: Seq<u8>, b: Seq<u8>)
    requires
        exists|i: int| 0 <= i < KEY_LEN && i < a.len() && i < b.len() && a[i] != b[i],
    ensures
        key_material(a) != key_material(b),
{
    let i = choose|i: int| 0 <= i < KEY_LEN && i < a.len() && i < b.len() && a[i] != b[i];
    assert(key_material(a)[i] != key_material(b)[i]);
}

} // verus!
