//! What the vault offers its caller: sealing a session for the store,
//! reading one back, and the passphrase gate. Every function here works on
//! plain values; the application moves them to and from the store.

use crate::crypto::{decrypt, decrypted, encrypt, sealable, seals};
use crate::db::{Lookup, LookupView, SessionMetaView, SessionRecord, SessionRecordView, Written};
use crate::error::{Malformed, Resource, VaultError};
use crate::primitives::{
    argon2_hash, argon2_phc, argon2_verifies, argon2_verify, has_argon2_marker,
    in_four_digit_years, os_random_fill, phc_parses, string_from_utf8, utc_rfc3339_micros,
    utc_timestamp, uuid_v4_hyphenated, uuid_v4_text, FIRST_SECOND, LAST_SECOND, MAX_PASSWORD_LEN,
    NANOS_PER_SECOND,
};
use vstd::prelude::*;
use vstd::string::StrSliceExecFns;
use vstd::utf8::{decode_utf8, encode_utf8, encode_utf8_decode_utf8, encode_utf8_valid_utf8, valid_utf8};

verus! {

/// The metadata that the caller gives with the content of a session.
#[derive(Clone, Debug, PartialEq, Eq)]
pub struct SessionMetadataInput {
    pub average_vibe: String,
    pub dominant_state: String,
    pub duration_ms: u64,
    pub word_count: u32,
}

/// The name of the setting that holds the passphrase hash.
pub const PASSPHRASE_SETTING: &'static str = "vault_passphrase_hash";

/// Puts a record together from its parts.
pub fn session_record(
    id: String,
    created_at: String,
    encrypted_content: String,
    metadata: SessionMetadataInput,
) -> (record: SessionRecord)
    ensures
        record@ == (SessionRecordView {
            meta: SessionMetaView {
                id: id@,
                average_vibe: metadata.average_vibe@,
                dominant_state: metadata.dominant_state@,
                duration_ms: metadata.duration_ms,
                word_count: metadata.word_count,
                created_at: created_at@,
            },
            encrypted_content: encrypted_content@,
        }),
{
    SessionRecord {
        id,
        encrypted_content,
        average_vibe: metadata.average_vibe,
        dominant_state: metadata.dominant_state,
        duration_ms: metadata.duration_ms,
        word_count: metadata.word_count,
        created_at,
    }
}

/// The content of a session whose stored envelope is `encrypted`: the
/// plaintext under `key`, read as UTF-8.
pub open spec fn session_content(encrypted: Seq<char>, key: Seq<u8>) -> Result<
    Seq<char>,
    VaultError,
> {
    match decrypted(encrypted, key) {
        Ok(bytes) => if valid_utf8(bytes) {
            Ok(decode_utf8(bytes))
        } else {
            Err(VaultError::Validation(Malformed::ContentEncoding))
        },
        Err(e) => Err(e),
    }
}

/// What loading a session gives for an answer of the store.
pub open spec fn loaded_content(answer: LookupView, key: Seq<u8>) -> Result<Seq<char>, VaultError> {
    match answer {
        LookupView::Found(encrypted) => session_content(encrypted, key),
        LookupView::NoRows => Err(VaultError::NotFound),
        LookupView::Failed => Err(VaultError::Storage),
    }
}

/// Length in characters of every session timestamp.
pub const TIMESTAMP_LEN: usize = 32;

/// Writes the instant `secs` seconds and `nanos` nanoseconds after the start
/// of 1970 as a session timestamp: RFC 3339 in UTC, with microseconds, always
/// 32 characters long. An instant outside the years 0 to 9999, or with a
/// second or more of nanoseconds, has no such timestamp and is rejected.
pub fn session_timestamp(secs: i64, nanos: u32) -> (r: Result<String, VaultError>)
    ensures
        r is Ok <==> in_four_digit_years(secs, nanos),
        r matches Ok(text) ==> text@ == utc_rfc3339_micros(secs, nanos) && text@.len()
            == TIMESTAMP_LEN,
        r matches Err(e) ==> e == VaultError::Validation(Malformed::Timestamp),
{
    if secs < FIRST_SECOND || secs > LAST_SECOND || nanos >= NANOS_PER_SECOND {
        return Err(VaultError::Validation(Malformed::Timestamp));
    }
    match utc_timestamp(secs, nanos) {
        Some(text) => Ok(text),
        None => Err(VaultError::Validation(Malformed::Timestamp)),
    }
}

/// Makes the record for a new session that is saved at the instant
/// `now_secs` seconds and `now_nanos` nanoseconds after the start of 1970: a
/// random version 4 UUID as its id, the instant as its timestamp, and the
/// content encrypted under `key`. The application reads the clock and hands
/// the record to the store; the content is encrypted before the store is
/// touched, and only its envelope goes into the record.
///
/// An instant without a timestamp is rejected before anything is drawn.
/// After that the random source decides whether the call succeeds, and which
/// id and nonce are used; whatever it gave, the record carries the metadata
/// unchanged, the timestamp of the instant, and an envelope of the content.
pub fn save_session(
    content: &str,
    metadata: SessionMetadataInput,
    key: &[u8; 32],
    now_secs: i64,
    now_nanos: u32,
) -> (r: Result<SessionRecord, VaultError>)
    ensures
        !in_four_digit_years(now_secs, now_nanos) ==> r == Err::<SessionRecord, VaultError>(
            VaultError::Validation(Malformed::Timestamp),
        ),
        !sealable(encode_utf8(content@).len()) ==> r is Err,
        r matches Ok(record) ==> {
            &&& record@.meta.average_vibe == metadata.average_vibe@
            &&& record@.meta.dominant_state == metadata.dominant_state@
            &&& record@.meta.duration_ms == metadata.duration_ms
            &&& record@.meta.word_count == metadata.word_count
            &&& record@.meta.created_at == utc_rfc3339_micros(now_secs, now_nanos)
            &&& record@.meta.created_at.len() == TIMESTAMP_LEN
            &&& exists|random: Seq<u8>| record@.meta.id == #[trigger] uuid_v4_hyphenated(random)
            &&& record@.meta.id.len() == 36
            &&& exists|nonce: Seq<u8>| #[trigger]
                seals(record@.encrypted_content, key@, nonce, encode_utf8(content@))
            &&& session_content(record@.encrypted_content, key@) == Ok::<Seq<char>, VaultError>(
                content@,
            )
        },
        r matches Err(e) ==> {
            ||| e == VaultError::Validation(Malformed::Timestamp) && !in_four_digit_years(
                now_secs,
                now_nanos,
            )
            ||| e == VaultError::Configuration(Resource::RandomSource)
            ||| e == VaultError::Validation(
                Malformed::PayloadTooLong { len: encode_utf8(content@).len() as usize },
            ) && !sealable(encode_utf8(content@).len())
        },
{
    let created_at = session_timestamp(now_secs, now_nanos)?;
    let mut random = [0u8; 16];
    if os_random_fill(&mut random).is_err() {
        return Err(VaultError::Configuration(Resource::RandomSource));
    }
    let id = uuid_v4_text(&random);
    let encrypted_content = encrypt(content.as_bytes(), key)?;
    proof {
        encode_utf8_valid_utf8(content@);
        encode_utf8_decode_utf8(content@);
    }
    Ok(session_record(id, created_at, encrypted_content, metadata))
}

/// Reads the content of a session from an answer of the store: decrypts the
/// stored envelope under `key` and reads the plaintext as UTF-8. A session
/// that is not there is an error, never an empty content.
pub fn load_session_content(answer: Lookup, key: &[u8; 32]) -> (r: Result<String, VaultError>)
    ensures
        match r {
            Ok(text) => loaded_content(answer@, key@) == Ok::<Seq<char>, VaultError>(text@),
            Err(e) => loaded_content(answer@, key@) == Err::<Seq<char>, VaultError>(e),
        },
{
    let encrypted = crate::db::load_session_content(answer)?;
    let plaintext = decrypt(encrypted.as_str(), key)?;
    match string_from_utf8(plaintext) {
        Ok(text) => Ok(text),
        Err(_) => Err(VaultError::Validation(Malformed::ContentEncoding)),
    }
}

/// Whether a stored hash is of the current scheme: the salted, memory-hard
/// one, whose hashes describe themselves by the leading marker `$argon2`.
/// Anything else that is stored counts as a hash of the legacy scheme.
pub open spec fn is_current_format(stored: Seq<char>) -> bool {
    has_argon2_marker(stored)
}

/// What verifying `passphrase` against a stored hash of the current scheme
/// gives: whether it matches, or an error where the hash does not parse.
pub open spec fn passphrase_verified(passphrase: Seq<char>, stored: Seq<char>) -> Result<
    bool,
    VaultError,
> {
    if phc_parses(stored) {
        Ok(argon2_verifies(encode_utf8(passphrase), stored))
    } else {
        Err(VaultError::Validation(Malformed::StoredHash))
    }
}

/// Whether a passphrase is set, for an answer of the store to the query for
/// the passphrase setting: a hash is stored and it is not empty.
pub open spec fn passphrase_set(answer: LookupView) -> Result<bool, VaultError> {
    match answer {
        LookupView::Found(stored) => Ok(stored.len() > 0),
        LookupView::NoRows => Ok(false),
        LookupView::Failed => Err(VaultError::Storage),
    }
}

/// What the caller of `verify_vault_passphrase` has to do next.
#[derive(Clone, Copy, Debug, PartialEq, Eq)]
pub enum GateStep {
    /// The verification is over, with this result.
    Done(Result<bool, VaultError>),
    /// The stored hash is of the legacy scheme. The caller overwrites the
    /// passphrase setting with `CLEARED_HASH` and reports the outcome to
    /// `stored_hash_cleared`, whose result ends the verification.
    ClearStoredHash,
}

/// The value that replaces a legacy hash: the empty text, which tells that a
/// new passphrase has to be set.
pub const CLEARED_HASH: &'static str = "";

/// The step that verifying `passphrase` takes for an answer of the store to
/// the query for the passphrase setting.
pub open spec fn gate_step(passphrase: Seq<char>, answer: LookupView) -> GateStep {
    match answer {
        LookupView::Found(stored) => if is_current_format(stored) {
            GateStep::Done(passphrase_verified(passphrase, stored))
        } else {
            GateStep::ClearStoredHash
        },
        LookupView::NoRows => GateStep::Done(Err(VaultError::NoPassphraseSet)),
        LookupView::Failed => GateStep::Done(Err(VaultError::Storage)),
    }
}

/// How a verification that met a legacy hash ends, for an answer of the
/// store to the overwriting of the setting.
pub open spec fn reset_outcome(answer: Written) -> Result<bool, VaultError> {
    if answer is Done {
        Err(VaultError::PassphraseResetRequired)
    } else {
        Err(VaultError::Storage)
    }
}

/// A stored hash that is not of the current scheme is never verified,
/// whatever the passphrase: it is cleared, the verification ends in
/// `PassphraseResetRequired`, and from then on no passphrase is set.
pub proof fn lemma_legacy_hash_forces_reset(passphrase: Seq<char>, stored: Seq<char>, rows: usize)
    requires
        !is_current_format(stored),
    ensures
        gate_step(passphrase, LookupView::Found(stored)) == GateStep::ClearStoredHash,
        reset_outcome(Written::Done { rows }) == Err::<bool, VaultError>(
            VaultError::PassphraseResetRequired,
        ),
        passphrase_set(LookupView::Found(CLEARED_HASH@)) == Ok::<bool, VaultError>(false),
        gate_step(passphrase, LookupView::Found(CLEARED_HASH@)) == GateStep::ClearStoredHash,
{
    reveal_strlit("");
}

/// Whether `stored` is a hash of the current scheme.
pub fn has_scheme_marker(stored: &str) -> (r: bool)
    ensures
        r == is_current_format(stored@),
{
    let marker: [char; 7] = ['$', 'a', 'r', 'g', 'o', 'n', '2'];
    if stored.unicode_len() < 7 {
        return false;
    }
    let mut i: usize = 0;
    while i < 7
        invariant
            i <= 7,
            stored@.len() >= 7,
            marker@ == seq!['$', 'a', 'r', 'g', 'o', 'n', '2'],
            forall|j: int| 0 <= j < i ==> stored@[j] == marker@[j],
        decreases 7 - i,
    {
        if stored.get_char(i) != marker[i] {
            assert(stored@.subrange(0, 7)[i as int] == stored@[i as int]);
            return false;
        }
        i += 1;
    }
    assert(stored@.subrange(0, 7) =~= marker@);
    true
}

/// Hashes `passphrase` under the current scheme with the given 16 salt bytes.
/// A salt must not be used twice; `hash_passphrase` draws a fresh one.
pub fn hash_passphrase_with_salt(passphrase: &str, salt: &[u8; 16]) -> (r: Result<
    String,
    VaultError,
>)
    ensures
        r is Ok <==> encode_utf8(passphrase@).len() <= MAX_PASSWORD_LEN,
        r matches Ok(hash) ==> {
            &&& hash@ == argon2_phc(encode_utf8(passphrase@), salt@)
            &&& is_current_format(hash@)
            &&& passphrase_verified(passphrase@, hash@) == Ok::<bool, VaultError>(true)
        },
        r matches Err(e) ==> e == VaultError::Validation(Malformed::Passphrase),
{
    match argon2_hash(passphrase.as_bytes(), salt) {
        Ok(hash) => Ok(hash),
        Err(_) => Err(VaultError::Validation(Malformed::Passphrase)),
    }
}

/// Hashes `passphrase` under the current scheme with a salt drawn afresh
/// from the operating system's random source.
///
/// The random source decides whether the call succeeds and which salt is
/// used; whatever it gave, a returned hash is of the current scheme and
/// verifies `passphrase`.
pub fn hash_passphrase(passphrase: &str) -> (r: Result<String, VaultError>)
    ensures
        encode_utf8(passphrase@).len() > MAX_PASSWORD_LEN ==> r is Err,
        r matches Ok(hash) ==> {
            &&& exists|salt: Seq<u8>|
                hash@ == #[trigger] argon2_phc(encode_utf8(passphrase@), salt)
            &&& is_current_format(hash@)
            &&& passphrase_verified(passphrase@, hash@) == Ok::<bool, VaultError>(true)
        },
        r matches Err(e) ==> e == VaultError::Configuration(Resource::RandomSource) || (
        encode_utf8(passphrase@).len() > MAX_PASSWORD_LEN && e == VaultError::Validation(
            Malformed::Passphrase,
        )),
{
    let mut salt = [0u8; 16];
    match os_random_fill(&mut salt) {
        Ok(()) => hash_passphrase_with_salt(passphrase, &salt),
        Err(_) => Err(VaultError::Configuration(Resource::RandomSource)),
    }
}

/// Verifies `passphrase` against a stored hash of the current scheme, by the
/// constant-time comparison of the key derivation function.
pub fn verify_passphrase(passphrase: &str, stored_hash: &str) -> (r: Result<bool, VaultError>)
    ensures
        r == passphrase_verified(passphrase@, stored_hash@),
{
    match argon2_verify(passphrase.as_bytes(), stored_hash) {
        Ok(verified) => Ok(verified),
        Err(_) => Err(VaultError::Validation(Malformed::StoredHash)),
    }
}

/// Whether a passphrase is set, for an answer of the store to the query for
/// the passphrase setting.
pub fn has_vault_passphrase(answer: Lookup) -> (r: Result<bool, VaultError>)
    ensures
        r == passphrase_set(answer@),
{
    match crate::db::get_setting(answer)? {
        Some(stored) => Ok(!stored.as_str().is_empty()),
        None => Ok(false),
    }
}

/// Makes the hash that sets `passphrase`: the application writes it to the
/// passphrase setting, over whatever is there. Verifying `passphrase` against
/// the setting then succeeds.
pub fn set_vault_passphrase(passphrase: &str) -> (r: Result<String, VaultError>)
    ensures
        encode_utf8(passphrase@).len() > MAX_PASSWORD_LEN ==> r is Err,
        r matches Ok(hash) ==> {
            &&& passphrase_set(LookupView::Found(hash@)) == Ok::<bool, VaultError>(true)
            &&& gate_step(passphrase@, LookupView::Found(hash@)) == GateStep::Done(Ok(true))
        },
        r matches Err(e) ==> e == VaultError::Configuration(Resource::RandomSource) || (
        encode_utf8(passphrase@).len() > MAX_PASSWORD_LEN && e == VaultError::Validation(
            Malformed::Passphrase,
        )),
{
    hash_passphrase(passphrase)
}

/// Verifies `passphrase` for an answer of the store to the query for the
/// passphrase setting. No stored hash is `NoPassphraseSet`. A stored hash of
/// the legacy scheme is not compared at all: the caller is told to clear it.
/// A hash of the current scheme is verified.
pub fn verify_vault_passphrase(passphrase: &str, answer: Lookup) -> (step: GateStep)
    ensures
        step == gate_step(passphrase@, answer@),
{
    match answer {
        Lookup::Found(stored) => {
            if has_scheme_marker(stored.as_str()) {
                GateStep::Done(verify_passphrase(passphrase, stored.as_str()))
            } else {
                GateStep::ClearStoredHash
            }
        },
        Lookup::NoRows => GateStep::Done(Err(VaultError::NoPassphraseSet)),
        Lookup::Failed => GateStep::Done(Err(VaultError::Storage)),
    }
}

/// Ends a verification that met a legacy hash, for an answer of the store
/// to the overwriting of the setting: the caller has to ask for a new
/// passphrase. This is a signal to the caller and no success; a hash that
/// could not be cleared is a failure of the store.
pub fn stored_hash_cleared(answer: Written) -> (r: Result<bool, VaultError>)
    ensures
        r == reset_outcome(answer),
{
    match answer {
        Written::Done { .. } => Err(VaultError::PassphraseResetRequired),
        _ => Err(VaultError::Storage),
    }
}

} // verus!
