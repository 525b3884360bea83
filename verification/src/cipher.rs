//! The message cipher: RSA keypair generation, encryption of a plaintext
//! under a public key with PKCS#1 v1.5 padding, base64 transport encoding,
//! and decryption under the matching private key.
//!
//! Ciphertexts are randomized by the padding, so nothing names "the"
//! ciphertext of a plaintext; instead, encryption promises that whatever
//! ciphertext came back decrypts, under the private half of the same
//! keypair, to the plaintext it was given.

use crate::err::ErrKind;
use crate::err::YokaiErr;
use crate::units::KeyPair;
use vstd::prelude::*;
use vstd::utf8::decode_utf8;
use vstd::utf8::encode_utf8;
use vstd::utf8::valid_utf8;

verus! {

/// The PKCS#1 public-key PEM that belongs to a consistent RSA private-key
/// PEM, as openssl's `Rsa::public_key_to_pem_pkcs1` serializes it. Only
/// [`generate_keypair`] states anything about this name, so it speaks only
/// of keypairs that were actually generated together.
pub uninterp spec fn rsa_public_pem_of(private_pem: Seq<char>) -> Seq<char>;

/// Whether openssl's `Rsa::public_key_from_pem_pkcs1` accepts this text as
/// a PKCS#1 public-key PEM: a function of the text alone.
pub uninterp spec fn rsa_pub_parses(public_pem: Seq<char>) -> bool;

/// The PKCS#1 v1.5 payload capacity, in bytes, of the RSA key held in a
/// public-key PEM: the modulus size minus the 11 bytes of padding overhead,
/// as derived from openssl's `Rsa::size`.
pub uninterp spec fn rsa_pub_capacity(public_pem: Seq<char>) -> nat;

/// What openssl's `Rsa::private_key_from_pem` followed by `private_decrypt`
/// with PKCS#1 v1.5 padding returns for a raw ciphertext and a private-key
/// PEM: the unpadded plaintext bytes, or `None` when parsing, decryption or
/// the padding check fails. Decryption is a function of its two arguments.
pub uninterp spec fn rsa_plain_of(cipher: Seq<u8>, private_pem: Seq<char>) -> Option<Seq<u8>>;

/// What base64's standard alphabet encoder returns for a byte sequence.
pub uninterp spec fn b64_of(bytes: Seq<u8>) -> Seq<char>;

/// What base64's standard alphabet decoder returns: the decoded bytes, or
/// `None` for strings that are not well-formed standard base64.
pub uninterp spec fn b64_bytes_of(s: Seq<char>) -> Option<Seq<u8>>;

/// Relies on openssl's `Rsa::generate(2048)`, `public_key_to_pem_pkcs1` and
/// `private_key_to_pem`: a fresh 2048-bit keypair whose two PEM strings are
/// serialized from the same key, giving a 256-byte modulus and so a 245-byte
/// PKCS#1 v1.5 payload capacity.
#[verifier::external_body]
pub fn generate_keypair() -> (r: Result<KeyPair, YokaiErr>)
    ensures
        r matches Ok(pair) ==> {
            &&& pair.public_key@ == rsa_public_pem_of(pair.private_key@)
            &&& rsa_pub_capacity(pair.public_key@) == 245
            &&& rsa_pub_parses(pair.public_key@)
            &&& pair.public_key@.len() > 0
            &&& pair.private_key@.len() > 0
        },
        r matches Err(e) ==> e.kind == ErrKind::Crypto,
{
    let err = |d: String| YokaiErr { details: d, kind: ErrKind::Crypto };
    let keys = openssl::rsa::Rsa::generate(2048).map_err(|e| err(e.to_string()))?;
    let public_pem = keys.public_key_to_pem_pkcs1().map_err(|e| err(e.to_string()))?;
    let private_pem = keys.private_key_to_pem().map_err(|e| err(e.to_string()))?;
    let public = String::from_utf8(public_pem).map_err(|e| err(e.to_string()))?;
    let private = String::from_utf8(private_pem).map_err(|e| err(e.to_string()))?;
    Ok(KeyPair { public_key: public, private_key: private })
}

/// Relies on openssl's `Rsa::public_key_from_pem_pkcs1` and `public_encrypt`
/// with PKCS#1 v1.5 padding: an unparsable PEM is rejected; on success the
/// ciphertext is exactly one RSA block (the modulus size, the capacity plus
/// the 11 bytes of padding) and decrypts, under any private key of the same
/// pair, to the input; inputs over the key's capacity are rejected.
#[verifier::external_body]
fn rsa_encrypt_bytes(msg: &[u8], public_pem: &str) -> (r: Result<Vec<u8>, String>)
    requires
        msg@.len() <= 0x7fff_ffff,
    ensures
        r matches Ok(c) ==> msg@.len() <= rsa_pub_capacity(public_pem@),
        r matches Ok(c) ==> c@.len() == rsa_pub_capacity(public_pem@) + 11,
        r matches Ok(c) ==> c@.len() <= 0x7fff_ffff,
        !rsa_pub_parses(public_pem@) ==> r is Err,
        r matches Ok(c) ==> forall|private_pem: Seq<char>|
            rsa_public_pem_of(private_pem) == public_pem@ ==> rsa_plain_of(c@, private_pem)
                == Some(msg@),
{
    let key = match openssl::rsa::Rsa::public_key_from_pem_pkcs1(public_pem.as_bytes()) {
        Ok(key) => key,
        Err(e) => return Err(e.to_string()),
    };
    let mut buffer = vec![0u8; key.size() as usize];
    match key.public_encrypt(msg, &mut buffer, openssl::rsa::Padding::PKCS1) {
        Ok(written) => {
            buffer.truncate(written);
            Ok(buffer)
        },
        Err(e) => Err(e.to_string()),
    }
}

/// Relies on openssl's `Rsa::private_key_from_pem` and `private_decrypt`
/// with PKCS#1 v1.5 padding: decryption is a function of the ciphertext and
/// the key, succeeding exactly when openssl's decryption does.
#[verifier::external_body]
fn rsa_decrypt_bytes(cipher: &[u8], private_pem: &str) -> (r: Result<Vec<u8>, String>)
    requires
        cipher@.len() <= 0x7fff_ffff,
    ensures
        r matches Ok(p) ==> rsa_plain_of(cipher@, private_pem@) == Some(p@),
        r is Err ==> rsa_plain_of(cipher@, private_pem@) is None,
{
    let key = match openssl::rsa::Rsa::private_key_from_pem(private_pem.as_bytes()) {
        Ok(key) => key,
        Err(e) => return Err(e.to_string()),
    };
    let mut buffer = vec![0u8; key.size() as usize];
    match key.private_decrypt(cipher, &mut buffer, openssl::rsa::Padding::PKCS1) {
        Ok(written) => {
            buffer.truncate(written);
            Ok(buffer)
        },
        Err(e) => Err(e.to_string()),
    }
}

/// Relies on base64's `STANDARD` engine `encode`: a function of the bytes
/// alone, no longer than four times their count plus padding, and decoded
/// back to the same bytes by the matching decoder.
#[verifier::external_body]
fn b64_encode(bytes: &[u8]) -> (r: String)
    ensures
        r@ == b64_of(bytes@),
        b64_bytes_of(r@) == Some(bytes@),
{
    base64::Engine::encode(&base64::engine::general_purpose::STANDARD, bytes)
}

/// Relies on base64's `STANDARD` engine `decode`: a function of the string
/// alone, failing exactly on input that is not well-formed standard base64,
/// and never longer than its input.
#[verifier::external_body]
fn b64_decode(s: &str) -> (r: Result<Vec<u8>, String>)
    ensures
        r matches Ok(v) ==> b64_bytes_of(s@) == Some(v@) && v@.len() <= s@.len(),
        r is Err ==> b64_bytes_of(s@) is None,
{
    match base64::Engine::decode(&base64::engine::general_purpose::STANDARD, s) {
        Ok(v) => Ok(v),
        Err(e) => Err(e.to_string()),
    }
}

/// Relies on `String::from_utf8`: succeeds exactly on valid UTF-8 and
/// decodes it to the character sequence vstd's UTF-8 model gives.
#[verifier::external_body]
fn bytes_to_string(v: Vec<u8>) -> (r: Result<String, String>)
    ensures
        r matches Ok(s) ==> valid_utf8(v@) && s@ == decode_utf8(v@),
        r is Err ==> !valid_utf8(v@),
{
    match String::from_utf8(v) {
        Ok(s) => Ok(s),
        Err(e) => Err(e.to_string()),
    }
}

/// What decrypting a base64 ciphertext under a private-key PEM yields:
/// base64-decode, RSA-decrypt, then read the plaintext bytes as UTF-8 text;
/// `None` as soon as any step fails.
pub open spec fn decrypt_spec(cipher: Seq<char>, private_pem: Seq<char>) -> Option<Seq<char>> {
    match b64_bytes_of(cipher) {
        Option::None => Option::None,
        Option::Some(bytes) => if bytes.len() > 0x7fff_ffff {
            Option::None
        } else {
            match rsa_plain_of(bytes, private_pem) {
                Option::None => Option::None,
                Option::Some(plain) => if valid_utf8(plain) {
                    Option::Some(decode_utf8(plain))
                } else {
                    Option::None
                },
            }
        },
    }
}

/// A ciphertext that encryption may return for a plaintext under a public
/// key: under any private key whose pair the public key belongs to, it
/// decrypts back to the plaintext.
pub open spec fn encrypt_ok(msg: Seq<char>, public_pem: Seq<char>, cipher: Seq<char>) -> bool {
    forall|private_pem: Seq<char>|
        rsa_public_pem_of(private_pem) == public_pem ==> #[trigger] decrypt_spec(
            cipher,
            private_pem,
        ) == Some(msg)
}

/// Encrypts a plaintext under a PKCS#1 public-key PEM and encodes the
/// single RSA block of ciphertext as standard base64. Fails whenever the
/// key text does not parse or the plaintext's UTF-8 form exceeds the key's
/// PKCS#1 v1.5 capacity.
pub fn encrypt_message(msg: &str, public_key: &str) -> (r: Result<String, YokaiErr>)
    ensures
        r matches Ok(c) ==> encrypt_ok(msg@, public_key@, c@),
        r matches Ok(c) ==> exists|raw: Seq<u8>|
            {
                &&& c@ == b64_of(raw)
                &&& #[trigger] b64_bytes_of(c@) == Some(raw)
                &&& raw.len() == rsa_pub_capacity(public_key@) + 11
            },
        encode_utf8(msg@).len() > rsa_pub_capacity(public_key@) ==> r is Err,
        encode_utf8(msg@).len() > 0x7fff_ffff ==> r is Err,
        !rsa_pub_parses(public_key@) ==> r is Err,
        r matches Err(e) ==> e.kind == ErrKind::Crypto,
{
    let bytes: &[u8] = msg.as_bytes();
    if bytes.len() > 0x7fff_ffff {
        return Err(YokaiErr::of_kind(ErrKind::Crypto, "Plaintext is too large to encrypt."));
    }
    let cipher: Vec<u8> = match rsa_encrypt_bytes(bytes, public_key) {
        Ok(cipher) => cipher,
        Err(details) => {
            return Err(YokaiErr::of_kind(ErrKind::Crypto, details.as_str()));
        },
    };
    let encoded: String = b64_encode(cipher.as_slice());
    proof {
        vstd::utf8::encode_utf8_valid_utf8(msg@);
        vstd::utf8::encode_utf8_decode_utf8(msg@);
        assert forall|private_pem: Seq<char>|
            rsa_public_pem_of(private_pem) == public_key@ implies #[trigger] decrypt_spec(
            encoded@,
            private_pem,
        ) == Some(msg@) by {
            assert(rsa_plain_of(cipher@, private_pem) == Some(encode_utf8(msg@)));
        }
    }
    Ok(encoded)
}

/// Decodes a base64 ciphertext and decrypts it under a private-key PEM,
/// returning the plaintext as text. Succeeds exactly when decoding,
/// decryption and the UTF-8 reading all do.
pub fn decrypt_message(encrypted_msg: &str, private_key: &str) -> (r: Result<String, YokaiErr>)
    ensures
        r matches Ok(m) ==> decrypt_spec(encrypted_msg@, private_key@) == Some(m@),
        r is Err ==> decrypt_spec(encrypted_msg@, private_key@) is None,
        r matches Err(e) ==> e.kind == ErrKind::Crypto,
{
    let cipher: Vec<u8> = match b64_decode(encrypted_msg) {
        Ok(cipher) => cipher,
        Err(details) => {
            return Err(YokaiErr::of_kind(ErrKind::Crypto, details.as_str()));
        },
    };
    if cipher.len() > 0x7fff_ffff {
        return Err(YokaiErr::of_kind(ErrKind::Crypto, "Ciphertext is too large to decrypt."));
    }
    let plain: Vec<u8> = match rsa_decrypt_bytes(cipher.as_slice(), private_key) {
        Ok(plain) => plain,
        Err(details) => {
            return Err(YokaiErr::of_kind(ErrKind::Crypto, details.as_str()));
        },
    };
    match bytes_to_string(plain) {
        Ok(text) => Ok(text),
        Err(details) => Err(YokaiErr::of_kind(ErrKind::Crypto, details.as_str())),
    }
}

/// Round trip: a ciphertext that encryption produced under the public half
/// of a keypair decrypts, under the private half, to the original plaintext.
pub proof fn lemma_encrypt_decrypt_round_trip(
    msg: Seq<char>,
    public_pem: Seq<char>,
    private_pem: Seq<char>,
    cipher: Seq<char>,
)
    requires
        public_pem == rsa_public_pem_of(private_pem),
        encrypt_ok(msg, public_pem, cipher),
    ensures
        decrypt_spec(cipher, private_pem) == Some(msg),
{
    assert(decrypt_spec(cipher, private_pem) == Some(msg));
}

} // verus!
