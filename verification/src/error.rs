use vstd::prelude::*;

verus! {

/// A resource of the host that the vault needs and could not reach.
#[derive(Clone, Copy, Debug, PartialEq, Eq, Structural)]
pub enum Resource {
    /// The secret storage of the operating system.
    SecretStore,
    /// The directory that holds the store file.
    DataDirectory,
    /// The secure random source of the operating system.
    RandomSource,
    /// The clock of the operating system.
    Clock,
}

/// The reason why a value was rejected as malformed.
#[derive(Clone, Copy, Debug, PartialEq, Eq, Structural)]
pub enum Malformed {
    /// A stored key decoded to `len` bytes instead of 32.
    KeyLength { len: usize },
    /// A text is not valid base64.
    Encoding,
    /// A decoded envelope holds only `len` bytes, fewer than 13.
    CiphertextTooShort { len: usize },
    /// A payload of `len` bytes is longer than an envelope can carry.
    PayloadTooLong { len: usize },
    /// A stored passphrase hash carries the scheme marker but does not parse.
    StoredHash,
    /// A passphrase is longer than the key derivation function accepts.
    Passphrase,
    /// Decrypted content is not valid UTF-8.
    ContentEncoding,
    /// An instant lies outside the years 0 to 9999, or counts a second or
    /// more of nanoseconds, and has no timestamp of the fixed width.
    Timestamp,
}

/// Every failure that the vault reports.
#[derive(Clone, Copy, Debug, PartialEq, Eq, Structural)]
pub enum VaultError {
    /// A resource of the host is unavailable.
    Configuration(Resource),
    /// A value is malformed.
    Validation(Malformed),
    /// An envelope did not authenticate under the key. Deliberately carries
    /// no detail, so that it cannot serve as an oracle.
    AuthenticationFailure,
    /// No session has the requested id.
    NotFound,
    /// A session with the same id is already stored.
    UniqueConstraintViolation,
    /// The stored passphrase hash is of the legacy scheme and was cleared;
    /// the caller must ask for a new passphrase.
    PassphraseResetRequired,
    /// No passphrase hash is stored.
    NoPassphraseSet,
    /// The lock that guards the store is poisoned.
    Lock,
    /// The backing store failed for a reason of its own.
    Storage,
}

impl VaultError {
    /// The text that the caller is shown for this error. The two signals of
    /// the passphrase gate have fixed texts that callers match on.
    pub open spec fn message_text(self) -> Seq<char> {
        match self {
            VaultError::Configuration(Resource::SecretStore) => "secret store unavailable"@,
            VaultError::Configuration(Resource::DataDirectory) => "data directory unavailable"@,
            VaultError::Configuration(Resource::RandomSource) => "random source unavailable"@,
            VaultError::Configuration(Resource::Clock) => "clock unavailable"@,
            VaultError::Validation(Malformed::KeyLength { .. }) => "invalid key length"@,
            VaultError::Validation(Malformed::Encoding) => "malformed encoding"@,
            VaultError::Validation(Malformed::CiphertextTooShort { .. }) => "ciphertext too short"@,
            VaultError::Validation(Malformed::PayloadTooLong { .. }) => "payload too long"@,
            VaultError::Validation(Malformed::StoredHash) => "malformed passphrase hash"@,
            VaultError::Validation(Malformed::Passphrase) => "passphrase too long"@,
            VaultError::Validation(Malformed::ContentEncoding) => "content is not valid UTF-8"@,
            VaultError::Validation(Malformed::Timestamp) => "instant out of range"@,
            VaultError::AuthenticationFailure => "decryption failed"@,
            VaultError::NotFound => "session not found"@,
            VaultError::UniqueConstraintViolation => "session id already exists"@,
            VaultError::PassphraseResetRequired => "passphrase_reset_required"@,
            VaultError::NoPassphraseSet => "no passphrase set"@,
            VaultError::Lock => "store lock poisoned"@,
            VaultError::Storage => "store failure"@,
        }
    }

    /// Renders the error for the caller.
    pub fn message(&self) -> (text: &'static str)
        ensures
            text@ == self.message_text(),
    {
        match self {
            VaultError::Configuration(Resource::SecretStore) => "secret store unavailable",
            VaultError::Configuration(Resource::DataDirectory) => "data directory unavailable",
            VaultError::Configuration(Resource::RandomSource) => "random source unavailable",
            VaultError::Configuration(Resource::Clock) => "clock unavailable",
            VaultError::Validation(Malformed::KeyLength { .. }) => "invalid key length",
            VaultError::Validation(Malformed::Encoding) => "malformed encoding",
            VaultError::Validation(Malformed::CiphertextTooShort { .. }) => "ciphertext too short",
            VaultError::Validation(Malformed::PayloadTooLong { .. }) => "payload too long",
            VaultError::Validation(Malformed::StoredHash) => "malformed passphrase hash",
            VaultError::Validation(Malformed::Passphrase) => "passphrase too long",
            VaultError::Validation(Malformed::ContentEncoding) => "content is not valid UTF-8",
            VaultError::Validation(Malformed::Timestamp) => "instant out of range",
            VaultError::AuthenticationFailure => "decryption failed",
            VaultError::NotFound => "session not found",
            VaultError::UniqueConstraintViolation => "session id already exists",
            VaultError::PassphraseResetRequired => "passphrase_reset_required",
            VaultError::NoPassphraseSet => "no passphrase set",
            VaultError::Lock => "store lock poisoned",
            VaultError::Storage => "store failure",
        }
    }
}

} // verus!
