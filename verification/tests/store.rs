use vessel::commands::{session_record, session_timestamp, SessionMetadataInput, TIMESTAMP_LEN};
use vessel::db::{
    bytes_le, delete_session, duration_from_column, duration_to_column, get_setting,
    insert_by_recency, load_session_content, load_session_list, no_later, save_session,
    set_setting, Listing, Lookup, SessionMeta, SessionRecord, Written,
};
use vessel::error::{Malformed, Resource, VaultError};

fn meta(id: &str, created_at: &str) -> SessionMeta {
    SessionMeta {
        id: id.to_string(),
        average_vibe: "calm".to_string(),
        dominant_state: "flow".to_string(),
        duration_ms: 1500,
        word_count: 42,
        created_at: created_at.to_string(),
    }
}

const T1: &str = "2024-01-01T08:00:00.000000+00:00";
const T2: &str = "2024-01-01T09:30:00.250000+00:00";
const T3: &str = "2024-03-15T00:00:00.000001+00:00";

/// 2015-05-15T00:00:00Z, in seconds since the start of 1970.
const NOW: i64 = 1_431_648_000;

fn ids(list: &[SessionMeta]) -> Vec<String> {
    list.iter().map(|m| m.id.clone()).collect()
}

#[test]
fn a_listing_runs_from_the_most_recent_to_the_oldest() {
    let orders: [[usize; 3]; 6] =
        [[0, 1, 2], [0, 2, 1], [1, 0, 2], [1, 2, 0], [2, 0, 1], [2, 1, 0]];
    let sessions = [meta("a", T1), meta("b", T2), meta("c", T3)];
    for order in orders {
        let rows: Vec<SessionMeta> = order.iter().map(|&i| sessions[i].clone()).collect();
        let list = load_session_list(Listing::Rows(rows)).unwrap();
        assert_eq!(list, vec![meta("c", T3), meta("b", T2), meta("a", T1)]);
    }
}

#[test]
fn a_listing_keeps_every_session() {
    let rows = vec![meta("a", T2), meta("b", T1), meta("c", T2), meta("d", T3), meta("e", T1)];
    let list = load_session_list(Listing::Rows(rows.clone())).unwrap();
    assert_eq!(list.len(), 5);
    let mut listed = ids(&list);
    listed.sort();
    assert_eq!(listed, vec!["a", "b", "c", "d", "e"]);
    assert_eq!(list[0], meta("d", T3));
    assert_eq!(list[1].created_at, T2);
    assert_eq!(list[2].created_at, T2);
    assert_eq!(list[3].created_at, T1);
    assert_eq!(list[4].created_at, T1);
}

#[test]
fn an_empty_store_lists_nothing() {
    assert_eq!(load_session_list(Listing::Rows(Vec::new())), Ok(Vec::new()));
}

#[test]
fn a_listing_that_failed_is_a_store_failure() {
    assert_eq!(load_session_list(Listing::Failed), Err(VaultError::Storage));
}

#[test]
fn inserting_keeps_the_order() {
    let mut list = vec![meta("c", T3), meta("a", T1)];
    insert_by_recency(&mut list, meta("b", T2));
    assert_eq!(ids(&list), vec!["c", "b", "a"]);
    insert_by_recency(&mut list, meta("z", "2025-01-01T00:00:00.000000+00:00"));
    insert_by_recency(&mut list, meta("o", "1999-12-31T23:59:59.999999+00:00"));
    assert_eq!(ids(&list), vec!["z", "c", "b", "a", "o"]);
}

#[test]
fn timestamps_compare_as_texts() {
    assert!(bytes_le(b"", b""));
    assert!(bytes_le(b"", b"a"));
    assert!(!bytes_le(b"a", b""));
    assert!(bytes_le(b"abc", b"abc"));
    assert!(bytes_le(b"abc", b"abd"));
    assert!(!bytes_le(b"abd", b"abc"));
    assert!(bytes_le(b"ab", b"abc"));
    assert!(!bytes_le(b"abc", b"ab"));
    assert!(bytes_le(&[0x7f], &[0x80]));
    assert!(no_later(&meta("a", T1), &meta("b", T2)));
    assert!(!no_later(&meta("b", T2), &meta("a", T1)));
    assert!(no_later(&meta("a", T1), &meta("b", T1)));
    assert!(no_later(
        &meta("a", "2024-01-01T08:00:00.000999+00:00"),
        &meta("b", "2024-01-01T08:00:00.001000+00:00")
    ));
}

#[test]
fn deleting_an_absent_session_succeeds_every_time() {
    assert_eq!(delete_session(Written::Done { rows: 0 }), Ok(()));
    assert_eq!(delete_session(Written::Done { rows: 0 }), Ok(()));
    assert_eq!(delete_session(Written::Done { rows: 1 }), Ok(()));
}

#[test]
fn a_delete_that_could_not_run_is_a_store_failure() {
    assert_eq!(delete_session(Written::Failed), Err(VaultError::Storage));
}

#[test]
fn an_absent_session_is_not_found() {
    assert_eq!(load_session_content(Lookup::NoRows), Err(VaultError::NotFound));
    assert_eq!(
        vessel::commands::load_session_content(Lookup::NoRows, &[0u8; 32]),
        Err(VaultError::NotFound)
    );
}

#[test]
fn stored_content_is_handed_on_as_it_is() {
    assert_eq!(load_session_content(Lookup::Found("abc".to_string())), Ok("abc".to_string()));
    assert_eq!(load_session_content(Lookup::Found(String::new())), Ok(String::new()));
    assert_eq!(load_session_content(Lookup::Failed), Err(VaultError::Storage));
}

#[test]
fn a_taken_id_is_a_unique_constraint_violation() {
    assert_eq!(save_session(Written::Conflict), Err(VaultError::UniqueConstraintViolation));
    assert_eq!(save_session(Written::Done { rows: 1 }), Ok(()));
    assert_eq!(save_session(Written::Failed), Err(VaultError::Storage));
}

#[test]
fn settings_are_read_and_written() {
    assert_eq!(get_setting(Lookup::Found("v".to_string())), Ok(Some("v".to_string())));
    assert_eq!(get_setting(Lookup::Found(String::new())), Ok(Some(String::new())));
    assert_eq!(get_setting(Lookup::NoRows), Ok(None));
    assert_eq!(get_setting(Lookup::Failed), Err(VaultError::Storage));
    assert_eq!(set_setting(Written::Done { rows: 1 }), Ok(()));
    assert_eq!(set_setting(Written::Failed), Err(VaultError::Storage));
    assert_eq!(set_setting(Written::Conflict), Err(VaultError::Storage));
}

fn input() -> SessionMetadataInput {
    SessionMetadataInput {
        average_vibe: "calm".to_string(),
        dominant_state: "flow".to_string(),
        duration_ms: u64::MAX,
        word_count: u32::MAX,
    }
}

#[test]
fn a_record_is_put_together_from_its_parts() {
    let record = session_record("id".to_string(), T1.to_string(), "env".to_string(), input());
    assert_eq!(
        record,
        SessionRecord {
            id: "id".to_string(),
            encrypted_content: "env".to_string(),
            average_vibe: "calm".to_string(),
            dominant_state: "flow".to_string(),
            duration_ms: u64::MAX,
            word_count: u32::MAX,
            created_at: T1.to_string(),
        }
    );
    assert_eq!(
        record.meta(),
        SessionMeta {
            id: "id".to_string(),
            average_vibe: "calm".to_string(),
            dominant_state: "flow".to_string(),
            duration_ms: u64::MAX,
            word_count: u32::MAX,
            created_at: T1.to_string(),
        }
    );
}

#[test]
fn a_saved_session_reads_back() {
    let key = [11u8; 32];
    let content = "Dear diary, 今日は晴れ.";
    let record = vessel::commands::save_session(content, input(), &key, NOW, 0).unwrap();
    assert_eq!(record.average_vibe, "calm");
    assert_eq!(record.dominant_state, "flow");
    assert_eq!(record.duration_ms, u64::MAX);
    assert_eq!(record.word_count, u32::MAX);
    assert_ne!(record.encrypted_content, content);
    let loaded = vessel::commands::load_session_content(
        Lookup::Found(record.encrypted_content.clone()),
        &key,
    );
    assert_eq!(loaded, Ok(content.to_string()));
    let other_key = vessel::commands::load_session_content(
        Lookup::Found(record.encrypted_content),
        &[12u8; 32],
    );
    assert_eq!(other_key, Err(VaultError::AuthenticationFailure));
}

#[test]
fn a_session_id_is_a_version_four_uuid() {
    let record = vessel::commands::save_session("x", input(), &[1u8; 32], NOW, 0).unwrap();
    let id: Vec<char> = record.id.chars().collect();
    assert_eq!(id.len(), 36);
    for (i, c) in id.iter().enumerate() {
        if i == 8 || i == 13 || i == 18 || i == 23 {
            assert_eq!(*c, '-');
        } else {
            assert!(c.is_ascii_digit() || ('a'..='f').contains(c));
        }
    }
    assert_eq!(id[14], '4');
    assert!(matches!(id[19], '8' | '9' | 'a' | 'b'));
    let other = vessel::commands::save_session("x", input(), &[1u8; 32], NOW, 0).unwrap();
    assert_ne!(record.id, other.id);
}

#[test]
fn a_session_is_stamped_with_the_instant_it_is_saved_at() {
    let key = [1u8; 32];
    let record = vessel::commands::save_session("x", input(), &key, NOW, 250_000_999).unwrap();
    assert_eq!(record.created_at, "2015-05-15T00:00:00.250000+00:00");
    let later = vessel::commands::save_session("x", input(), &key, NOW + 1, 0).unwrap();
    assert_eq!(later.created_at, "2015-05-15T00:00:01.000000+00:00");
    assert!(no_later(&record.meta(), &later.meta()));
    assert!(!no_later(&later.meta(), &record.meta()));
}

#[test]
fn every_timestamp_has_the_same_width() {
    assert_eq!(TIMESTAMP_LEN, 32);
    let instants: [(i64, u32, &str); 7] = [
        (0, 0, "1970-01-01T00:00:00.000000+00:00"),
        (0, 999_999_999, "1970-01-01T00:00:00.999999+00:00"),
        (0, 1_000, "1970-01-01T00:00:00.000001+00:00"),
        (-1, 0, "1969-12-31T23:59:59.000000+00:00"),
        (1_709_210_096, 123_456_789, "2024-02-29T12:34:56.123456+00:00"),
        (-62_167_219_200, 0, "0000-01-01T00:00:00.000000+00:00"),
        (253_402_300_799, 999_999_999, "9999-12-31T23:59:59.999999+00:00"),
    ];
    for (secs, nanos, text) in instants {
        let stamp = session_timestamp(secs, nanos).unwrap();
        assert_eq!(stamp, text);
        assert_eq!(stamp.chars().count(), TIMESTAMP_LEN);
    }
}

#[test]
fn an_instant_without_a_timestamp_is_rejected() {
    let rejected = Err(VaultError::Validation(Malformed::Timestamp));
    assert_eq!(session_timestamp(253_402_300_800, 0), rejected);
    assert_eq!(session_timestamp(-62_167_219_201, 0), rejected);
    assert_eq!(session_timestamp(i64::MAX, 0), rejected);
    assert_eq!(session_timestamp(i64::MIN, 0), rejected);
    assert_eq!(session_timestamp(0, 1_000_000_000), rejected);
    assert_eq!(session_timestamp(59, 1_500_000_000), rejected);
    assert_eq!(
        vessel::commands::save_session("x", input(), &[1u8; 32], i64::MAX, 0),
        Err(VaultError::Validation(Malformed::Timestamp))
    );
}

#[test]
fn every_duration_fits_the_integer_column() {
    assert_eq!(duration_to_column(0), 0);
    assert_eq!(duration_to_column(1500), 1500);
    assert_eq!(duration_to_column(i64::MAX as u64), i64::MAX);
    assert_eq!(duration_to_column(i64::MAX as u64 + 1), i64::MIN);
    assert_eq!(duration_to_column(u64::MAX), -1);
    assert_eq!(duration_from_column(-1), u64::MAX);
    assert_eq!(duration_from_column(i64::MIN), 1u64 << 63);
    for duration in [0u64, 1, 1500, i64::MAX as u64, (i64::MAX as u64) + 1, u64::MAX - 1, u64::MAX]
    {
        assert_eq!(duration_from_column(duration_to_column(duration)), duration);
    }
}

#[test]
fn content_that_is_not_text_is_malformed() {
    let key = [1u8; 32];
    let envelope = vessel::crypto::encrypt(&[0xff, 0xfe, 0x00], &key).unwrap();
    assert_eq!(
        vessel::commands::load_session_content(Lookup::Found(envelope), &key),
        Err(VaultError::Validation(Malformed::ContentEncoding))
    );
}

#[test]
fn stored_content_that_is_no_envelope_is_malformed() {
    let key = [1u8; 32];
    assert_eq!(
        vessel::commands::load_session_content(Lookup::Found("???".to_string()), &key),
        Err(VaultError::Validation(Malformed::Encoding))
    );
    assert_eq!(
        vessel::commands::load_session_content(Lookup::Found(String::new()), &key),
        Err(VaultError::Validation(Malformed::CiphertextTooShort { len: 0 }))
    );
}

#[test]
fn every_error_has_a_text() {
    let errors = [
        VaultError::Configuration(Resource::SecretStore),
        VaultError::Configuration(Resource::DataDirectory),
        VaultError::Configuration(Resource::RandomSource),
        VaultError::Configuration(Resource::Clock),
        VaultError::Validation(Malformed::KeyLength { len: 3 }),
        VaultError::Validation(Malformed::Encoding),
        VaultError::Validation(Malformed::CiphertextTooShort { len: 3 }),
        VaultError::Validation(Malformed::PayloadTooLong { len: 3 }),
        VaultError::Validation(Malformed::StoredHash),
        VaultError::Validation(Malformed::Passphrase),
        VaultError::Validation(Malformed::ContentEncoding),
        VaultError::Validation(Malformed::Timestamp),
        VaultError::AuthenticationFailure,
        VaultError::NotFound,
        VaultError::UniqueConstraintViolation,
        VaultError::PassphraseResetRequired,
        VaultError::NoPassphraseSet,
        VaultError::Lock,
        VaultError::Storage,
    ];
    for (i, a) in errors.iter().enumerate() {
        assert!(!a.message().is_empty());
        for b in errors.iter().skip(i + 1) {
            assert_ne!(a.message(), b.message());
        }
    }
    assert_eq!(VaultError::AuthenticationFailure.message(), "decryption failed");
    assert_eq!(VaultError::NotFound.message(), "session not found");
}
