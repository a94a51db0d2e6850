//! The envelope that protects content at rest: a random 96-bit nonce, the
//! AES-256-GCM ciphertext and its 128-bit tag, concatenated and written as
//! base64 text. The format carries no version or algorithm marker.

use crate::error::{Malformed, Resource, VaultError};
use crate::primitives::{
    aes256gcm_open, aes256gcm_opened, aes256gcm_seal, aes256gcm_sealed, base64_bytes,
    base64_decode, base64_encode, base64_text, encodable_len, os_random_fill, MAX_PLAINTEXT_LEN,
    TAG_LEN,
};
use vstd::prelude::*;
use vstd::slice::slice_subrange;

verus! {

/// Length in bytes of the nonce that opens every envelope.
pub const NONCE_LEN: usize = 12;

/// Length in bytes of the symmetric key.
pub const KEY_LEN: usize = 32;

/// The fewest bytes that a decoded envelope may hold: a nonce and one more.
pub const MIN_ENVELOPE_LEN: usize = 13;

/// Whether a plaintext of `len` bytes fits in an envelope: the cipher seals
/// it, and the text of nonce, ciphertext and tag fits in one allocation.
pub open spec fn sealable(len: nat) -> bool {
    len <= MAX_PLAINTEXT_LEN && encodable_len(NONCE_LEN as nat + len + TAG_LEN as nat)
}

/// The bytes of an envelope: the nonce, then the sealed payload.
pub open spec fn envelope_layout(nonce: Seq<u8>, sealed: Seq<u8>) -> Seq<u8> {
    nonce + sealed
}

/// The envelope text for `plaintext` under `key` with the given nonce.
pub open spec fn envelope_text(key: Seq<u8>, nonce: Seq<u8>, plaintext: Seq<u8>) -> Seq<char> {
    base64_text(envelope_layout(nonce, aes256gcm_sealed(key, nonce, plaintext)))
}

/// `envelope` is what sealing `plaintext` under `key` with `nonce` gives,
/// together with what the codec and the cipher guarantee of their own output:
/// the text decodes to the bytes it was made from, and the sealed payload,
/// sixteen bytes longer than the plaintext, opens to the plaintext.
pub open spec fn seals(envelope: Seq<char>, key: Seq<u8>, nonce: Seq<u8>, plaintext: Seq<u8>) -> bool {
    let sealed = aes256gcm_sealed(key, nonce, plaintext);
    &&& nonce.len() == NONCE_LEN
    &&& sealed.len() == plaintext.len() + TAG_LEN
    &&& envelope == envelope_text(key, nonce, plaintext)
    &&& base64_bytes(envelope) == Some(envelope_layout(nonce, sealed))
    &&& aes256gcm_opened(key, nonce, sealed) == Some(plaintext)
}

/// What opening the decoded bytes of an envelope under `key` gives.
pub open spec fn opened_envelope(bytes: Seq<u8>, key: Seq<u8>) -> Result<Seq<u8>, VaultError> {
    if bytes.len() < MIN_ENVELOPE_LEN {
        Err(VaultError::Validation(Malformed::CiphertextTooShort { len: bytes.len() as usize }))
    } else {
        match aes256gcm_opened(
            key,
            bytes.subrange(0, NONCE_LEN as int),
            bytes.subrange(NONCE_LEN as int, bytes.len() as int),
        ) {
            Some(plaintext) => Ok(plaintext),
            None => Err(VaultError::AuthenticationFailure),
        }
    }
}

/// What decrypting the envelope text `encoded` under `key` gives.
pub open spec fn decrypted(encoded: Seq<char>, key: Seq<u8>) -> Result<Seq<u8>, VaultError> {
    match base64_bytes(encoded) {
        Some(bytes) => opened_envelope(bytes, key),
        None => Err(VaultError::Validation(Malformed::Encoding)),
    }
}

/// Decryption undoes encryption: an envelope that seals a plaintext under a
/// key and any nonce decrypts under that key to the same plaintext.
pub proof fn lemma_decrypt_inverts_encrypt(
    envelope: Seq<char>,
    key: Seq<u8>,
    nonce: Seq<u8>,
    plaintext: Seq<u8>,
)
    requires
        seals(envelope, key, nonce, plaintext),
    ensures
        decrypted(envelope, key) == Ok::<Seq<u8>, VaultError>(plaintext),
{
    let sealed = aes256gcm_sealed(key, nonce, plaintext);
    let bytes = envelope_layout(nonce, sealed);
    assert(bytes.subrange(0, NONCE_LEN as int) =~= nonce);
    assert(bytes.subrange(NONCE_LEN as int, bytes.len() as int) =~= sealed);
}

/// An envelope shows its nonce: the first twelve of its decoded bytes. So
/// envelopes that were sealed with different nonces are different texts,
/// whatever their keys and plaintexts.
pub proof fn lemma_envelope_shows_nonce(
    envelope: Seq<char>,
    key: Seq<u8>,
    nonce: Seq<u8>,
    plaintext: Seq<u8>,
    other_envelope: Seq<char>,
    other_key: Seq<u8>,
    other_nonce: Seq<u8>,
    other_plaintext: Seq<u8>,
)
    requires
        seals(envelope, key, nonce, plaintext),
        seals(other_envelope, other_key, other_nonce, other_plaintext),
    ensures
        base64_bytes(envelope) matches Some(bytes) && bytes.len() == NONCE_LEN + plaintext.len()
            + TAG_LEN && bytes.subrange(0, NONCE_LEN as int) == nonce,
        nonce != other_nonce ==> envelope != other_envelope,
{
    let bytes = envelope_layout(nonce, aes256gcm_sealed(key, nonce, plaintext));
    let other_bytes = envelope_layout(
        other_nonce,
        aes256gcm_sealed(other_key, other_nonce, other_plaintext),
    );
    assert(bytes.subrange(0, NONCE_LEN as int) =~= nonce);
    assert(other_bytes.subrange(0, NONCE_LEN as int) =~= other_nonce);
}

/// Lays out an envelope: the nonce followed by the sealed payload.
pub fn envelope_bytes(nonce: &[u8; 12], sealed: &[u8]) -> (bytes: Vec<u8>)
    ensures
        bytes@ == envelope_layout(nonce@, sealed@),
{
    let mut bytes: Vec<u8> = Vec::new();
    bytes.extend_from_slice(nonce.as_slice());
    bytes.extend_from_slice(sealed);
    bytes
}

/// Seals `plaintext` under `key` with the given nonce and returns the
/// envelope text. The nonce must never repeat under one key; `encrypt` draws
/// a fresh one for every call.
pub fn encrypt_with_nonce(plaintext: &[u8], key: &[u8; 32], nonce: &[u8; 12]) -> (r: Result<
    String,
    VaultError,
>)
    ensures
        r is Ok <==> sealable(plaintext@.len()),
        r matches Ok(envelope) ==> seals(envelope@, key@, nonce@, plaintext@),
        r matches Ok(envelope) ==> decrypted(envelope@, key@) == Ok::<Seq<u8>, VaultError>(
            plaintext@,
        ),
        r matches Err(e) ==> e == VaultError::Validation(
            Malformed::PayloadTooLong { len: plaintext@.len() as usize },
        ),
{
    let too_long = Err(
        VaultError::Validation(Malformed::PayloadTooLong { len: plaintext.len() }),
    );
    let longest: usize = (isize::MAX as usize - 4) / 4;
    if plaintext.len() > usize::MAX - (NONCE_LEN + TAG_LEN) || (plaintext.len() + (NONCE_LEN
        + TAG_LEN)) / 3 > longest {
        return too_long;
    }
    let sealed = match aes256gcm_seal(key, nonce.as_slice(), plaintext) {
        Ok(sealed) => sealed,
        Err(_) => {
            return too_long;
        },
    };
    let bytes = envelope_bytes(nonce, sealed.as_slice());
    let envelope = base64_encode(bytes.as_slice());
    proof {
        lemma_decrypt_inverts_encrypt(envelope@, key@, nonce@, plaintext@);
    }
    Ok(envelope)
}

/// Encrypts `plaintext` under `key` into an envelope text, with a nonce drawn
/// afresh from the operating system's random source.
///
/// The random source decides whether the call succeeds and which nonce is
/// used; whatever it gave, a returned envelope decrypts to `plaintext`.
pub fn encrypt(plaintext: &[u8], key: &[u8; 32]) -> (r: Result<String, VaultError>)
    ensures
        !sealable(plaintext@.len()) ==> r is Err,
        r matches Ok(envelope) ==> exists|nonce: Seq<u8>|
            #[trigger] seals(envelope@, key@, nonce, plaintext@),
        r matches Ok(envelope) ==> decrypted(envelope@, key@) == Ok::<Seq<u8>, VaultError>(
            plaintext@,
        ),
        r matches Err(e) ==> e == VaultError::Configuration(Resource::RandomSource) || (
        !sealable(plaintext@.len()) && e == VaultError::Validation(
            Malformed::PayloadTooLong { len: plaintext@.len() as usize },
        )),
{
    let mut nonce = [0u8; 12];
    match os_random_fill(&mut nonce) {
        Ok(()) => encrypt_with_nonce(plaintext, key, &nonce),
        Err(_) => Err(VaultError::Configuration(Resource::RandomSource)),
    }
}

/// Opens the decoded bytes of an envelope: rejects fewer than 13 bytes, takes
/// the first 12 as the nonce and authenticates and decrypts the rest.
pub fn open_envelope(bytes: &[u8], key: &[u8; 32]) -> (r: Result<Vec<u8>, VaultError>)
    ensures
        match r {
            Ok(plaintext) => opened_envelope(bytes@, key@) == Ok::<Seq<u8>, VaultError>(
                plaintext@,
            ),
            Err(e) => opened_envelope(bytes@, key@) == Err::<Seq<u8>, VaultError>(e),
        },
{
    if bytes.len() < MIN_ENVELOPE_LEN {
        return Err(VaultError::Validation(Malformed::CiphertextTooShort { len: bytes.len() }));
    }
    let nonce = slice_subrange(bytes, 0, NONCE_LEN);
    let sealed = slice_subrange(bytes, NONCE_LEN, bytes.len());
    match aes256gcm_open(key, nonce, sealed) {
        Ok(plaintext) => Ok(plaintext),
        Err(_) => Err(VaultError::AuthenticationFailure),
    }
}

/// Decrypts an envelope text under `key`. A text that is not base64 or that
/// decodes to fewer than 13 bytes is malformed; anything else that does not
/// authenticate under `key` fails without detail, and no plaintext is
/// returned for it.
pub fn decrypt(encoded: &str, key: &[u8; 32]) -> (r: Result<Vec<u8>, VaultError>)
    ensures
        match r {
            Ok(plaintext) => decrypted(encoded@, key@) == Ok::<Seq<u8>, VaultError>(plaintext@),
            Err(e) => decrypted(encoded@, key@) == Err::<Seq<u8>, VaultError>(e),
        },
{
    match base64_decode(encoded) {
        Ok(bytes) => open_envelope(bytes.as_slice(), key),
        Err(_) => Err(VaultError::Validation(Malformed::Encoding)),
    }
}

/// What the secret storage of the operating system answered when it was
/// asked for the key entry.
#[derive(Clone, Debug, PartialEq, Eq)]
pub enum StoredKey {
    /// The entry exists and holds this text.
    Found(String),
    /// The storage works and holds no such entry.
    Missing,
    /// The storage could not be reached or read.
    Unavailable,
}

/// What the caller of `KeyManager::get_or_create_key` has to do next.
#[derive(Clone, Debug, PartialEq, Eq)]
pub enum KeyStep {
    /// The key is settled for the rest of the process.
    Ready([u8; 32]),
    /// A fresh key was generated. The caller writes `encoded` to the secret
    /// storage and reports the outcome to `KeyManager::key_persisted`; until
    /// then the key is not in use.
    Persist { key: [u8; 32], encoded: String },
}

/// The key that a stored text stands for: the text must be base64 and
/// decode to exactly 32 bytes.
pub open spec fn stored_key(encoded: Seq<char>) -> Result<Seq<u8>, VaultError> {
    match base64_bytes(encoded) {
        Some(bytes) => if bytes.len() == KEY_LEN {
            Ok(bytes)
        } else {
            Err(VaultError::Validation(Malformed::KeyLength { len: bytes.len() as usize }))
        },
        None => Err(VaultError::Validation(Malformed::Encoding)),
    }
}

/// Reads a key out of the text that the secret storage holds.
pub fn key_from_stored(encoded: &str) -> (r: Result<[u8; 32], VaultError>)
    ensures
        match r {
            Ok(key) => stored_key(encoded@) == Ok::<Seq<u8>, VaultError>(key@),
            Err(e) => stored_key(encoded@) == Err::<Seq<u8>, VaultError>(e),
        },
{
    let bytes = match base64_decode(encoded) {
        Ok(bytes) => bytes,
        Err(_) => {
            return Err(VaultError::Validation(Malformed::Encoding));
        },
    };
    if bytes.len() != KEY_LEN {
        return Err(VaultError::Validation(Malformed::KeyLength { len: bytes.len() }));
    }
    let mut key = [0u8; 32];
    let mut i: usize = 0;
    while i < KEY_LEN
        invariant
            i <= KEY_LEN,
            bytes@.len() == KEY_LEN,
            forall|j: int| 0 <= j < i ==> key@[j] == bytes@[j],
        decreases KEY_LEN - i,
    {
        key[i] = bytes[i];
        i += 1;
    }
    assert(key@ =~= bytes@);
    Ok(key)
}

/// Writes a key as the text that the secret storage is to hold. Reading that
/// text back gives the same key: this is what keeps the key stable across
/// restarts against one secret storage.
pub fn encode_key(key: &[u8; 32]) -> (encoded: String)
    ensures
        encoded@ == base64_text(key@),
        stored_key(encoded@) == Ok::<Seq<u8>, VaultError>(key@),
{
    base64_encode(key.as_slice())
}

/// Holds the key once it is settled. One manager is made when the process
/// starts and handed by reference to whoever needs the key.
pub struct KeyManager {
    cached: Option<[u8; 32]>,
}

impl KeyManager {
    /// The settled key, if there is one.
    pub closed spec fn settled(&self) -> Option<[u8; 32]> {
        self.cached
    }

    /// A manager with no key settled yet.
    pub fn new() -> (manager: Self)
        ensures
            manager.settled() is None,
    {
        KeyManager { cached: None }
    }

    /// The settled key, if there is one; the secret storage is not needed
    /// once this returns a key.
    pub fn cached_key(&self) -> (key: Option<[u8; 32]>)
        ensures
            key == self.settled(),
    {
        self.cached
    }

    /// Settles the key from what the secret storage answered.
    ///
    /// A settled key is returned as it is, whatever the storage said, and
    /// stays settled. Otherwise a stored text is validated and settled; a
    /// missing entry makes a fresh random key that the caller has yet to
    /// persist; an unreachable storage is a configuration error.
    pub fn get_or_create_key(&mut self, lookup: StoredKey) -> (r: Result<KeyStep, VaultError>)
        ensures
            old(self).settled() matches Some(key) ==> final(self).settled() == Some(key) && r
                == Ok::<KeyStep, VaultError>(KeyStep::Ready(key)),
            old(self).settled() is None ==> match lookup {
                StoredKey::Found(encoded) => match r {
                    Ok(step) => step matches KeyStep::Ready(key) && final(self).settled() == Some(
                        key,
                    ) && stored_key(encoded@) == Ok::<Seq<u8>, VaultError>(key@),
                    Err(e) => final(self).settled() is None && stored_key(encoded@) == Err::<
                        Seq<u8>,
                        VaultError,
                    >(e),
                },
                StoredKey::Missing => final(self).settled() is None && match r {
                    Ok(step) => step matches KeyStep::Persist { key, encoded } && encoded@
                        == base64_text(key@) && stored_key(encoded@) == Ok::<Seq<u8>, VaultError>(
                        key@,
                    ),
                    Err(e) => e == VaultError::Configuration(Resource::RandomSource),
                },
                StoredKey::Unavailable => final(self).settled() is None && r == Err::<
                    KeyStep,
                    VaultError,
                >(VaultError::Configuration(Resource::SecretStore)),
            },
    {
        if let Some(key) = self.cached {
            return Ok(KeyStep::Ready(key));
        }
        match lookup {
            StoredKey::Found(encoded) => {
                let key = key_from_stored(encoded.as_str())?;
                self.cached = Some(key);
                Ok(KeyStep::Ready(key))
            },
            StoredKey::Missing => {
                let mut key = [0u8; 32];
                match os_random_fill(&mut key) {
                    Ok(()) => {
                        let encoded = encode_key(&key);
                        Ok(KeyStep::Persist { key, encoded })
                    },
                    Err(_) => Err(VaultError::Configuration(Resource::RandomSource)),
                }
            },
            StoredKey::Unavailable => Err(VaultError::Configuration(Resource::SecretStore)),
        }
    }

    /// Takes the outcome of persisting a fresh key. A key that was written
    /// becomes the settled key unless one is settled already: the first
    /// settled key stays. A failed write settles nothing and is a
    /// configuration error.
    pub fn key_persisted(&mut self, key: [u8; 32], written: bool) -> (r: Result<
        [u8; 32],
        VaultError,
    >)
        ensures
            !written ==> final(self).settled() == old(self).settled() && r == Err::<
                [u8; 32],
                VaultError,
            >(VaultError::Configuration(Resource::SecretStore)),
            written ==> final(self).settled() == Some(
                match old(self).settled() {
                    Some(first) => first,
                    None => key,
                },
            ) && Some(r->Ok_0) == final(self).settled() && r is Ok,
    {
        if !written {
            return Err(VaultError::Configuration(Resource::SecretStore));
        }
        match self.cached {
            Some(first) => Ok(first),
            None => {
                self.cached = Some(key);
                Ok(key)
            },
        }
    }
}

} // verus!
