//! Sealing of stored secrets (such as refresh tokens): AES-256-GCM with a
//! fresh 96-bit nonce, the nonce prepended to the ciphertext, the whole
//! encoded as standard base64.

use vstd::prelude::*;
use vstd::utf8::{decode_utf8, encode_utf8, encode_utf8_decode_utf8, encode_utf8_valid_utf8, valid_utf8};
use aes_gcm::aead::{AeadCore, AeadMut, KeyInit, Nonce, OsRng};
use aes_gcm::{Aes256Gcm, Key};
use base64::Engine;

verus! {

/// The largest plaintext, in bytes, that AES-GCM encrypts (`aes_gcm::P_MAX`).
pub open spec fn max_plaintext_len() -> int {
    0x10_0000_0000
}

/// What `Aes256Gcm::encrypt` returns for a key, a nonce and a plaintext.
pub uninterp spec fn aes256gcm_sealed(key: Seq<u8>, nonce: Seq<u8>, plaintext: Seq<u8>) -> Seq<u8>;

/// What `Aes256Gcm::decrypt` returns for a key, a nonce and a ciphertext
/// (`None` when the ciphertext does not authenticate).
pub uninterp spec fn aes256gcm_opened(key: Seq<u8>, nonce: Seq<u8>, ciphertext: Seq<u8>) -> Option<
    Seq<u8>,
>;

/// What the standard base64 engine's `encode` returns for some bytes.
pub uninterp spec fn base64_encoded(bytes: Seq<u8>) -> Seq<char>;

/// What the standard base64 engine's `decode` returns for a text (`None`
/// when the text is not valid base64).
pub uninterp spec fn base64_decoded(text: Seq<char>) -> Option<Seq<u8>>;

/// `n` bytes can be base64 encoded without the encoded length overflowing.
pub open spec fn base64_fits(n: int) -> bool {
    4 * ((n + 2) / 3) <= usize::MAX
}

/// Calls `Aes256Gcm::generate_nonce` with the operating system's random
/// number generator. The nonce is random; its length is the algorithm's
/// nonce size, 12 bytes.
#[verifier::external_body]
fn generate_nonce() -> (r: Vec<u8>)
    ensures
        r@.len() == 12,
{
    Aes256Gcm::generate_nonce(&mut OsRng).to_vec()
}

/// Calls `Aes256Gcm::encrypt` (no associated data). It fails only for a
/// plaintext longer than `P_MAX`; its result, the ciphertext followed by the
/// 16-byte tag, is named `aes256gcm_sealed`.
#[verifier::external_body]
fn aes_seal(key: &[u8], nonce: &[u8], plaintext: &[u8]) -> (r: Option<Vec<u8>>)
    requires
        key@.len() == 32,
        nonce@.len() == 12,
    ensures
        r is Some <==> plaintext@.len() <= max_plaintext_len(),
        r matches Some(c) ==> c@ == aes256gcm_sealed(key@, nonce@, plaintext@),
        r matches Some(c) ==> c@.len() == plaintext@.len() + 16,
{
    let mut cipher = Aes256Gcm::new(Key::<Aes256Gcm>::from_slice(key));
    cipher.encrypt(Nonce::<Aes256Gcm>::from_slice(nonce), plaintext).ok()
}

/// Calls `Aes256Gcm::decrypt` (no associated data); its result is named
/// `aes256gcm_opened`. What it opens with the key and nonce that sealed a
/// plaintext is that plaintext.
#[verifier::external_body]
fn aes_open(key: &[u8], nonce: &[u8], ciphertext: &[u8]) -> (r: Option<Vec<u8>>)
    requires
        key@.len() == 32,
        nonce@.len() == 12,
    ensures
        r matches Some(p) ==> aes256gcm_opened(key@, nonce@, ciphertext@) == Some(p@),
        r is None ==> aes256gcm_opened(key@, nonce@, ciphertext@) is None,
        r is None ==> forall|p: Seq<u8>|
            p.len() <= max_plaintext_len() ==> ciphertext@ != #[trigger] aes256gcm_sealed(
                key@,
                nonce@,
                p,
            ),
        r matches Some(v) ==> forall|p: Seq<u8>|
            p.len() <= max_plaintext_len() && ciphertext@ == #[trigger] aes256gcm_sealed(
                key@,
                nonce@,
                p,
            ) ==> v@ == p,
{
    let mut cipher = Aes256Gcm::new(Key::<Aes256Gcm>::from_slice(key));
    cipher.decrypt(Nonce::<Aes256Gcm>::from_slice(nonce), ciphertext).ok()
}

/// Calls `STANDARD.encode` of the `base64` crate; its result is named
/// `base64_encoded`.
#[verifier::external_body]
fn b64_encode(bytes: &[u8]) -> (r: String)
    requires
        base64_fits(bytes@.len() as int),
    ensures
        r@ == base64_encoded(bytes@),
{
    base64::engine::general_purpose::STANDARD.encode(bytes)
}

/// Calls `STANDARD.decode` of the `base64` crate; its result is named
/// `base64_decoded`. Decoding the encoding of some bytes gives them back.
#[verifier::external_body]
fn b64_decode(text: &str) -> (r: Option<Vec<u8>>)
    ensures
        r matches Some(b) ==> base64_decoded(text@) == Some(b@),
        r is None ==> base64_decoded(text@) is None,
        r is None ==> forall|b: Seq<u8>|
            base64_fits(b.len() as int) ==> text@ != #[trigger] base64_encoded(b),
        r matches Some(v) ==> forall|b: Seq<u8>|
            base64_fits(b.len() as int) && text@ == #[trigger] base64_encoded(b) ==> v@ == b,
{
    base64::engine::general_purpose::STANDARD.decode(text).ok()
}

/// Calls `String::from_utf8`: it succeeds exactly on valid UTF-8, giving
/// the characters those bytes encode.
#[verifier::external_body]
fn utf8_string(bytes: Vec<u8>) -> (r: Option<String>)
    ensures
        r is Some <==> valid_utf8(bytes@),
        r matches Some(s) ==> s@ == decode_utf8(bytes@),
{
    String::from_utf8(bytes).ok()
}

/// Why sealing or opening a token failed.
#[derive(Debug, Clone, Copy, PartialEq, Eq, Structural)]
pub enum EncryptionError {
    /// The token is too long to encrypt.
    Encrypt,
    /// The sealed token is not base64.
    Decode,
    /// The ciphertext does not authenticate under the key.
    Decrypt,
    /// The decrypted bytes are not UTF-8.
    Utf8,
}

/// The bytes of a sealed token: the nonce, then the AES-256-GCM ciphertext
/// of the token's UTF-8 bytes under `key` and `nonce`.
pub open spec fn sealed_bytes(key: Seq<u8>, nonce: Seq<u8>, token: Seq<char>) -> Seq<u8> {
    nonce + aes256gcm_sealed(key, nonce, encode_utf8(token))
}

/// The sealed form of `token` under `key` with `nonce`.
pub open spec fn sealed_token(key: Seq<u8>, nonce: Seq<u8>, token: Seq<char>) -> Seq<char> {
    base64_encoded(sealed_bytes(key, nonce, token))
}

/// `token` was sealed under `key` with a 12-byte nonce `n`, and fitted: its
/// bytes are the nonce, the ciphertext as long as the token's UTF-8 bytes,
/// and the 16-byte tag.
pub open spec fn is_sealing_of(token: Seq<char>, key: Seq<u8>, n: Seq<u8>, t: Seq<char>) -> bool {
    &&& n.len() == 12
    &&& encode_utf8(t).len() <= max_plaintext_len()
    &&& sealed_bytes(key, n, t).len() == encode_utf8(t).len() + 28
    &&& base64_fits(sealed_bytes(key, n, t).len() as int)
    &&& token == sealed_token(key, n, t)
}

/// What opening `token` under `key` gives.
pub open spec fn opened_token(key: Seq<u8>, token: Seq<char>) -> Result<Seq<char>, EncryptionError> {
    match base64_decoded(token) {
        None => Err(EncryptionError::Decode),
        Some(d) => match aes256gcm_opened(key, d.take(12), d.skip(12)) {
            None => Err(EncryptionError::Decrypt),
            Some(p) => if valid_utf8(p) {
                Ok(decode_utf8(p))
            } else {
                Err(EncryptionError::Utf8)
            },
        },
    }
}

/// Seals `token` under `key` with the given nonce: the nonce followed by the
/// AES-256-GCM ciphertext of the token's UTF-8 bytes, base64 encoded.
pub fn seal_token(key: &[u8], nonce: &[u8], token: &str) -> (r: Result<String, EncryptionError>)
    requires
        key@.len() == 32,
        nonce@.len() == 12,
        base64_fits(encode_utf8(token@).len() + 28int),
    ensures
        r is Ok <==> encode_utf8(token@).len() <= max_plaintext_len(),
        r matches Ok(s) ==> s@ == sealed_token(key@, nonce@, token@) && is_sealing_of(
            s@,
            key@,
            nonce@,
            token@,
        ),
        r matches Err(e) ==> e == EncryptionError::Encrypt,
{
    let plaintext = token.as_bytes();
    let ciphertext = match aes_seal(key, nonce, plaintext) {
        Some(c) => c,
        None => return Err(EncryptionError::Encrypt),
    };
    let mut merged: Vec<u8> = Vec::new();
    let mut i: usize = 0;
    while i < nonce.len()
        invariant
            i <= nonce@.len(),
            merged@ =~= nonce@.take(i as int),
        decreases nonce.len() - i,
    {
        merged.push(nonce[i]);
        i = i + 1;
    }
    let mut j: usize = 0;
    while j < ciphertext.len()
        invariant
            nonce@.len() == 12,
            j <= ciphertext@.len(),
            merged@ =~= nonce@ + ciphertext@.take(j as int),
        decreases ciphertext.len() - j,
    {
        merged.push(ciphertext[j]);
        j = j + 1;
    }
    assert(ciphertext@.take(j as int) =~= ciphertext@);
    Ok(b64_encode(merged.as_slice()))
}

/// Seals `token` under `key` with a fresh random nonce.
pub fn encrypt(key: &[u8], token: &str) -> (r: Result<String, EncryptionError>)
    requires
        key@.len() == 32,
        base64_fits(encode_utf8(token@).len() + 28int),
    ensures
        r is Ok <==> encode_utf8(token@).len() <= max_plaintext_len(),
        r matches Ok(s) ==> exists|n: Seq<u8>| is_sealing_of(s@, key@, n, token@),
        r matches Err(e) ==> e == EncryptionError::Encrypt,
{
    let nonce = generate_nonce();
    seal_token(key, nonce.as_slice(), token)
}

/// Opens a sealed token under `key`: base64 decoding, the first 12 bytes as
/// the nonce, AES-256-GCM decryption of the rest, then UTF-8 decoding.
/// A token sealed under `key` opens to itself.
pub fn decrypt(key: &[u8], token: &str) -> (r: Result<String, EncryptionError>)
    requires
        key@.len() == 32,
        base64_decoded(token@) matches Some(d) ==> d.len() >= 12,
    ensures
        r matches Ok(s) ==> opened_token(key@, token@) == Ok::<Seq<char>, EncryptionError>(s@),
        r matches Err(e) ==> opened_token(key@, token@) == Err::<Seq<char>, EncryptionError>(e),
        forall|n: Seq<u8>, t: Seq<char>|
            #[trigger] is_sealing_of(token@, key@, n, t) ==> (r matches Ok(s) && s@ == t),
{
    let decoded = match b64_decode(token) {
        Some(d) => d,
        None => {
            proof {
                assert forall|n: Seq<u8>, t: Seq<char>|
                    #[trigger] is_sealing_of(token@, key@, n, t) implies false by {
                    assert(base64_encoded(sealed_bytes(key@, n, t)) == token@);
                }
            }
            return Err(EncryptionError::Decode);
        },
    };
    let (nonce, ciphertext) = decoded.as_slice().split_at(12);
    assert(nonce@ =~= decoded@.take(12));
    assert(ciphertext@ =~= decoded@.skip(12));
    let plaintext = match aes_open(key, nonce, ciphertext) {
        Some(p) => p,
        None => {
            proof {
                assert forall|n: Seq<u8>, t: Seq<char>|
                    #[trigger] is_sealing_of(token@, key@, n, t) implies false by {
                    let b = sealed_bytes(key@, n, t);
                    assert(base64_encoded(b) == token@);
                    assert(decoded@ == b);
                    assert(b.take(12) =~= n);
                    assert(b.skip(12) =~= aes256gcm_sealed(key@, n, encode_utf8(t)));
                }
            }
            return Err(EncryptionError::Decrypt);
        },
    };
    proof {
        assert forall|n: Seq<u8>, t: Seq<char>|
            #[trigger] is_sealing_of(token@, key@, n, t) implies plaintext@ == encode_utf8(t) by {
            let b = sealed_bytes(key@, n, t);
            assert(base64_encoded(b) == token@);
            assert(decoded@ == b);
            assert(b.take(12) =~= n);
            assert(b.skip(12) =~= aes256gcm_sealed(key@, n, encode_utf8(t)));
        }
        assert forall|t: Seq<char>| plaintext@ == encode_utf8(t) implies valid_utf8(plaintext@)
            && decode_utf8(plaintext@) == t by {
            encode_utf8_valid_utf8(t);
            encode_utf8_decode_utf8(t);
        }
    }
    match utf8_string(plaintext) {
        Some(s) => Ok(s),
        None => Err(EncryptionError::Utf8),
    }
}

/// Opens a sealed token like `decrypt`, first checking that the decoded
/// token holds a whole nonce; `None` when it does not.
pub fn checked_decrypt(key: &[u8], token: &str) -> (r: Option<Result<String, EncryptionError>>)
    requires
        key@.len() == 32,
    ensures
        r is None <==> (base64_decoded(token@) matches Some(d) && d.len() < 12),
        r matches Some(Ok(s)) ==> opened_token(key@, token@) == Ok::<Seq<char>, EncryptionError>(s@),
        r matches Some(Err(e)) ==> opened_token(key@, token@) == Err::<Seq<char>, EncryptionError>(e),
        forall|n: Seq<u8>, t: Seq<char>|
            #[trigger] is_sealing_of(token@, key@, n, t) ==> (r matches Some(Ok(s)) && s@ == t),
{
    match b64_decode(token) {
        Some(d) => {
            if d.len() < 12 {
                proof {
                    assert forall|n: Seq<u8>, t: Seq<char>|
                        #[trigger] is_sealing_of(token@, key@, n, t) implies false by {
                        assert(base64_encoded(sealed_bytes(key@, n, t)) == token@);
                    }
                }
                return None;
            }
        },
        None => {},
    }
    Some(decrypt(key, token))
}

} // verus!
