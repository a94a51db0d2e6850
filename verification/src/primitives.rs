//! The calls that leave this library. Each function here is believed by the
//! verifier on the strength of its contract alone; everything else in the
//! crate is proved from these contracts.

use aes_gcm::aead::{Aead, KeyInit};
use aes_gcm::{Aes256Gcm, Key, Nonce};
use argon2::password_hash::{PasswordHash, PasswordHasher, PasswordVerifier, SaltString};
use argon2::Argon2;
use base64::engine::general_purpose::STANDARD;
use base64::Engine;
use rand::rngs::OsRng;
use rand::RngCore;
use vstd::prelude::*;
use vstd::utf8::{decode_utf8, valid_utf8};

verus! {

/// The error of `aes_gcm`: a unit value that says only that an operation failed.
#[verifier::external_type_specification]
#[verifier::external_body]
pub struct ExAeadError(aes_gcm::Error);

/// The error of `base64` for a text that does not decode.
#[verifier::external_type_specification]
#[verifier::external_body]
pub struct ExDecodeError(base64::DecodeError);

/// The error of `rand` for a random source that could not deliver.
#[verifier::external_type_specification]
#[verifier::external_body]
pub struct ExRandError(rand::Error);

/// The longest plaintext, in bytes, that AES-GCM seals (`aes_gcm::P_MAX`).
pub const MAX_PLAINTEXT_LEN: u64 = 0x10_0000_0000;

/// Length in bytes of the authentication tag that follows a ciphertext.
pub const TAG_LEN: usize = 16;

/// The text that `base64`'s standard engine (standard alphabet, padded)
/// gives for `data`.
pub uninterp spec fn base64_text(data: Seq<u8>) -> Seq<char>;

/// The bytes that `base64`'s standard engine decodes `text` to, or `None`
/// where it rejects the text.
pub uninterp spec fn base64_bytes(text: Seq<char>) -> Option<Seq<u8>>;

/// The ciphertext followed by its tag that AES-256-GCM gives for `plaintext`
/// under `key` and `nonce`, with no associated data.
pub uninterp spec fn aes256gcm_sealed(key: Seq<u8>, nonce: Seq<u8>, plaintext: Seq<u8>) -> Seq<u8>;

/// The plaintext that AES-256-GCM recovers from `sealed` (a ciphertext
/// followed by its tag) under `key` and `nonce`, or `None` where the tag
/// does not authenticate.
pub uninterp spec fn aes256gcm_opened(key: Seq<u8>, nonce: Seq<u8>, sealed: Seq<u8>) -> Option<
    Seq<u8>,
>;

/// Whether the text that encodes `len` bytes, at most `4 * (len / 3) + 4`
/// characters, fits in one allocation, which holds at most `isize::MAX` bytes.
pub open spec fn encodable_len(len: nat) -> bool {
    (len / 3) * 4 + 4 <= isize::MAX
}

/// `Engine::encode` on `base64`'s `STANDARD` engine. The call panics where the
/// encoded length overflows `usize` or exceeds what one allocation holds,
/// which `requires` leaves out. The result is named, and the engine decodes
/// what it encoded back to the same bytes.
#[verifier::external_body]
pub(crate) fn base64_encode(data: &[u8]) -> (text: String)
    requires
        encodable_len(data@.len()),
    ensures
        text@ == base64_text(data@),
        base64_bytes(text@) == Some(data@),
{
    STANDARD.encode(data)
}

/// `Engine::decode` on `base64`'s `STANDARD` engine: the named bytes, or the
/// engine's error exactly where it rejects the text.
#[verifier::external_body]
pub(crate) fn base64_decode(text: &str) -> (r: Result<Vec<u8>, base64::DecodeError>)
    ensures
        r is Ok <==> base64_bytes(text@) is Some,
        r matches Ok(data) ==> base64_bytes(text@) == Some(data@),
{
    STANDARD.decode(text)
}

/// `Aead::encrypt` of `Aes256Gcm` with no associated data. The nonce is
/// handed over by `Nonce::from_slice`, which panics on any length but 12, and
/// the output is allocated for the plaintext and the tag together, which
/// panics beyond `isize::MAX` bytes. The call fails exactly
/// where the plaintext is longer than `aes_gcm::P_MAX`; otherwise it gives the
/// named ciphertext with a 16-byte tag appended, which the same cipher opens
/// to the plaintext again under the same key and nonce.
#[verifier::external_body]
pub(crate) fn aes256gcm_seal(key: &[u8; 32], nonce: &[u8], plaintext: &[u8]) -> (r: Result<
    Vec<u8>,
    aes_gcm::Error,
>)
    requires
        nonce@.len() == 12,
        plaintext@.len() + TAG_LEN <= isize::MAX,
    ensures
        r is Ok <==> plaintext@.len() <= MAX_PLAINTEXT_LEN,
        r matches Ok(sealed) ==> {
            &&& sealed@ == aes256gcm_sealed(key@, nonce@, plaintext@)
            &&& sealed@.len() == plaintext@.len() + TAG_LEN
            &&& aes256gcm_opened(key@, nonce@, sealed@) == Some(plaintext@)
        },
{
    Aes256Gcm::new(Key::<Aes256Gcm>::from_slice(key)).encrypt(Nonce::from_slice(nonce), plaintext)
}

/// `Aead::decrypt` of `Aes256Gcm` with no associated data, the nonce handed
/// over as in `aes256gcm_seal`: the named
/// plaintext, or the cipher's error exactly where the input does not
/// authenticate. An input shorter than the tag never authenticates, and a
/// plaintext is as long as the input without its tag.
#[verifier::external_body]
pub(crate) fn aes256gcm_open(key: &[u8; 32], nonce: &[u8], sealed: &[u8]) -> (r: Result<
    Vec<u8>,
    aes_gcm::Error,
>)
    requires
        nonce@.len() == 12,
    ensures
        r is Ok <==> aes256gcm_opened(key@, nonce@, sealed@) is Some,
        r matches Ok(plaintext) ==> {
            &&& aes256gcm_opened(key@, nonce@, sealed@) == Some(plaintext@)
            &&& plaintext@.len() + TAG_LEN == sealed@.len()
        },
        sealed@.len() < TAG_LEN ==> r is Err,
{
    Aes256Gcm::new(Key::<Aes256Gcm>::from_slice(key)).decrypt(Nonce::from_slice(nonce), sealed)
}

/// `RngCore::try_fill_bytes` on `OsRng`: overwrites the buffer with bytes of
/// the operating system's random source, or reports that the source failed.
/// Nothing is promised of the bytes.
#[verifier::external_body]
pub(crate) fn os_random_fill<const N: usize>(buffer: &mut [u8; N]) -> (r: Result<(), rand::Error>)
{
    OsRng.try_fill_bytes(buffer)
}

/// The error of `argon2` and `password_hash`.
#[verifier::external_type_specification]
#[verifier::external_body]
pub struct ExPasswordHashError(argon2::password_hash::Error);

/// The error of `String::from_utf8`, which still holds the rejected bytes.
#[verifier::external_type_specification]
#[verifier::external_body]
pub struct ExFromUtf8Error(std::string::FromUtf8Error);

/// The longest password, in bytes, that Argon2 accepts (`argon2::MAX_PWD_LEN`).
pub const MAX_PASSWORD_LEN: u64 = 0xFFFF_FFFF;

/// The PHC string that Argon2id with `argon2`'s default parameters gives for
/// `password` with the 16 raw salt bytes `salt`.
pub uninterp spec fn argon2_phc(password: Seq<u8>, salt: Seq<u8>) -> Seq<char>;

/// Whether `password_hash` parses `stored` as a PHC string.
pub uninterp spec fn phc_parses(stored: Seq<char>) -> bool;

/// Whether Argon2, run with the parameters and salt that the PHC string
/// `stored` names, gives for `password` the hash that `stored` holds.
pub uninterp spec fn argon2_verifies(password: Seq<u8>, stored: Seq<char>) -> bool;

/// The hyphenated lower-case text of the version 4 UUID that `uuid` builds
/// from 16 random bytes.
pub uninterp spec fn uuid_v4_hyphenated(random: Seq<u8>) -> Seq<char>;

/// The RFC 3339 text, with six digits of fraction and the offset `+00:00`,
/// that `chrono` gives for the instant `secs` seconds and `nanos` nanoseconds
/// after the start of 1970 in UTC.
pub uninterp spec fn utc_rfc3339_micros(secs: i64, nanos: u32) -> Seq<char>;

/// The first second of the year 0, in seconds since the start of 1970.
pub const FIRST_SECOND: i64 = -62_167_219_200;

/// The last second of the year 9999, in seconds since the start of 1970.
pub const LAST_SECOND: i64 = 253_402_300_799;

/// The number of nanoseconds in a second.
pub const NANOS_PER_SECOND: u32 = 1_000_000_000;

/// Whether an instant lies in the years 0 to 9999 and counts less than a
/// second of nanoseconds.
pub open spec fn in_four_digit_years(secs: i64, nanos: u32) -> bool {
    FIRST_SECOND <= secs && secs <= LAST_SECOND && nanos < NANOS_PER_SECOND
}

/// Whether `text` begins with `$argon2`, as every PHC string of the Argon2
/// family does.
pub open spec fn has_argon2_marker(text: Seq<char>) -> bool {
    text.len() >= 7 && text.subrange(0, 7) == seq!['$', 'a', 'r', 'g', 'o', 'n', '2']
}

/// `PasswordHasher::hash_password` of `Argon2::default()`, with the salt made
/// from 16 raw bytes by `SaltString::encode_b64` and the hash written out by
/// `to_string`. It fails exactly where the password is longer than
/// `argon2::MAX_PWD_LEN`. The PHC string it gives is named; it begins with
/// the algorithm's identifier `argon2id` behind a `$`, parses again, and
/// verifies the password it was made from.
#[verifier::external_body]
pub(crate) fn argon2_hash(password: &[u8], salt: &[u8; 16]) -> (r: Result<
    String,
    argon2::password_hash::Error,
>)
    ensures
        r is Ok <==> password@.len() <= MAX_PASSWORD_LEN,
        r matches Ok(phc) ==> {
            &&& phc@ == argon2_phc(password@, salt@)
            &&& has_argon2_marker(phc@)
            &&& phc_parses(phc@)
            &&& argon2_verifies(password@, phc@)
        },
{
    let salt = SaltString::encode_b64(salt)?;
    let hash = Argon2::default().hash_password(password, &salt)?;
    Ok(hash.to_string())
}

/// `PasswordHash::new` on `stored`, then `PasswordVerifier::verify_password`
/// of `Argon2::default()` on what it parsed. The parser's error comes back
/// exactly where `stored` does not parse; otherwise the result says whether
/// verification succeeded. Verification runs with the cost parameters that
/// `stored` names, so its time and memory are those of the stored hash.
#[verifier::external_body]
pub(crate) fn argon2_verify(password: &[u8], stored: &str) -> (r: Result<
    bool,
    argon2::password_hash::Error,
>)
    ensures
        r is Ok <==> phc_parses(stored@),
        r matches Ok(verified) ==> verified == argon2_verifies(password@, stored@),
{
    match PasswordHash::new(stored) {
        Ok(parsed) => Ok(Argon2::default().verify_password(password, &parsed).is_ok()),
        Err(e) => Err(e),
    }
}

/// `Builder::from_random_bytes` of `uuid`, which sets the version and variant
/// bits over the given bytes, written out by `to_string`: the named text, 32
/// lower-case hexadecimal digits in five groups with a hyphen between them,
/// the third group led by the version digit `4`.
#[verifier::external_body]
pub(crate) fn uuid_v4_text(random: &[u8; 16]) -> (text: String)
    ensures
        text@ == uuid_v4_hyphenated(random@),
        text@.len() == 36,
        text@[8] == '-' && text@[13] == '-' && text@[18] == '-' && text@[23] == '-',
        text@[14] == '4',
{
    uuid::Builder::from_random_bytes(*random).into_uuid().to_string()
}

/// `DateTime::from_timestamp` of `chrono`, written out by `to_rfc3339_opts`
/// with microseconds and a numeric offset. `from_timestamp` gives `None` for
/// an instant outside its calendar or a nanosecond count it does not accept.
/// For an instant of the years 0 to 9999 with less than a second of
/// nanoseconds it gives a date, and the text is then 32 characters long: four
/// digits of year, the date and the time of day in two digits each, six
/// digits of fraction, and `+00:00`.
#[verifier::external_body]
pub(crate) fn utc_timestamp(secs: i64, nanos: u32) -> (r: Option<String>)
    ensures
        r matches Some(text) ==> text@ == utc_rfc3339_micros(secs, nanos),
        r is Some || !in_four_digit_years(secs, nanos),
        r matches Some(text) ==> in_four_digit_years(secs, nanos) ==> text@.len() == 32,
{
    match chrono::DateTime::from_timestamp(secs, nanos) {
        Some(instant) => Some(instant.to_rfc3339_opts(chrono::SecondsFormat::Micros, false)),
        None => None,
    }
}

/// `String::from_utf8`: the text that the bytes encode, or an error exactly
/// where they are not valid UTF-8.
#[verifier::external_body]
pub(crate) fn string_from_utf8(bytes: Vec<u8>) -> (r: Result<String, std::string::FromUtf8Error>)
    ensures
        r is Ok <==> valid_utf8(bytes@),
        r matches Ok(text) ==> text@ == decode_utf8(bytes@),
{
    String::from_utf8(bytes)
}

} // verus!
