//! The persistence contract of the session store. The store itself is a
//! relational database that the application talks to; this module holds the
//! records, what each answer of the store means, and the order of a listing.

use crate::error::VaultError;
use vstd::multiset::Multiset;
use vstd::prelude::*;
use vstd::seq_lib::to_multiset_remove;
use vstd::utf8::encode_utf8;

verus! {

/// A stored session: metadata and the envelope of its content. A record is
/// written once and never updated.
#[derive(Clone, Debug, PartialEq, Eq)]
pub struct SessionRecord {
    pub id: String,
    pub encrypted_content: String,
    pub average_vibe: String,
    pub dominant_state: String,
    pub duration_ms: u64,
    pub word_count: u32,
    pub created_at: String,
}

/// A session without its content, as a listing shows it.
#[derive(Clone, Debug, PartialEq, Eq)]
pub struct SessionMeta {
    pub id: String,
    pub average_vibe: String,
    pub dominant_state: String,
    pub duration_ms: u64,
    pub word_count: u32,
    pub created_at: String,
}

/// The mathematical value of a `SessionMeta`.
pub ghost struct SessionMetaView {
    pub id: Seq<char>,
    pub average_vibe: Seq<char>,
    pub dominant_state: Seq<char>,
    pub duration_ms: u64,
    pub word_count: u32,
    pub created_at: Seq<char>,
}

/// The mathematical value of a `SessionRecord`.
pub ghost struct SessionRecordView {
    pub meta: SessionMetaView,
    pub encrypted_content: Seq<char>,
}

impl View for SessionMeta {
    type V = SessionMetaView;

    open spec fn view(&self) -> SessionMetaView {
        SessionMetaView {
            id: self.id@,
            average_vibe: self.average_vibe@,
            dominant_state: self.dominant_state@,
            duration_ms: self.duration_ms,
            word_count: self.word_count,
            created_at: self.created_at@,
        }
    }
}

impl View for SessionRecord {
    type V = SessionRecordView;

    open spec fn view(&self) -> SessionRecordView {
        SessionRecordView {
            meta: SessionMetaView {
                id: self.id@,
                average_vibe: self.average_vibe@,
                dominant_state: self.dominant_state@,
                duration_ms: self.duration_ms,
                word_count: self.word_count,
                created_at: self.created_at@,
            },
            encrypted_content: self.encrypted_content@,
        }
    }
}

impl SessionRecord {
    /// The record without its content.
    pub fn meta(&self) -> (meta: SessionMeta)
        ensures
            meta@ == self@.meta,
    {
        SessionMeta {
            id: self.id.clone(),
            average_vibe: self.average_vibe.clone(),
            dominant_state: self.dominant_state.clone(),
            duration_ms: self.duration_ms,
            word_count: self.word_count,
            created_at: self.created_at.clone(),
        }
    }
}

/// The duration that a value of the store's signed 64-bit integer column
/// stands for: durations up to `i64::MAX` are kept as they are, the larger
/// ones as the negative numbers that are 2^64 below them.
pub open spec fn column_duration(column: i64) -> u64 {
    if column >= 0 {
        column as u64
    } else {
        (column + 0x1_0000_0000_0000_0000) as u64
    }
}

/// The value under which a duration is kept in the store's signed 64-bit
/// integer column. Every duration has one, and reading it gives the duration
/// back.
pub fn duration_to_column(duration_ms: u64) -> (column: i64)
    ensures
        column_duration(column) == duration_ms,
        duration_ms <= i64::MAX ==> column == duration_ms,
{
    if duration_ms <= 0x7fff_ffff_ffff_ffff {
        duration_ms as i64
    } else {
        let above: u64 = duration_ms - 0x8000_0000_0000_0000;
        i64::MIN + (above as i64)
    }
}

/// The duration that a value of the store's integer column stands for.
pub fn duration_from_column(column: i64) -> (duration_ms: u64)
    ensures
        duration_ms == column_duration(column),
{
    if column >= 0 {
        column as u64
    } else {
        let above: i64 = column - i64::MIN;
        0x8000_0000_0000_0000 + (above as u64)
    }
}

/// The answer of the store to a query for one text value.
#[derive(Clone, Debug, PartialEq, Eq)]
pub enum Lookup {
    /// The row exists and holds this value.
    Found(String),
    /// The query ran and matched no row.
    NoRows,
    /// The query could not be run.
    Failed,
}

/// The mathematical value of a `Lookup`.
pub ghost enum LookupView {
    Found(Seq<char>),
    NoRows,
    Failed,
}

impl View for Lookup {
    type V = LookupView;

    open spec fn view(&self) -> LookupView {
        match self {
            Lookup::Found(value) => LookupView::Found(value@),
            Lookup::NoRows => LookupView::NoRows,
            Lookup::Failed => LookupView::Failed,
        }
    }
}

/// The answer of the store to a statement that writes.
#[derive(Clone, Copy, Debug, PartialEq, Eq, Structural)]
pub enum Written {
    /// The statement ran and changed `rows` rows.
    Done { rows: usize },
    /// The statement was refused because a row with the same primary key exists.
    Conflict,
    /// The statement could not be run.
    Failed,
}

/// The answer of the store to the query for all sessions.
#[derive(Clone, Debug, PartialEq, Eq)]
pub enum Listing {
    /// Every row of the table, in whatever order the store gave them.
    Rows(Vec<SessionMeta>),
    /// The query could not be run, or a row could not be read.
    Failed,
}

/// What reading a setting gives for an answer of the store: the value, or
/// nothing where no row has the key.
pub fn get_setting(answer: Lookup) -> (r: Result<Option<String>, VaultError>)
    ensures
        match answer {
            Lookup::Found(value) => r matches Ok(Some(stored)) && stored@ == value@,
            Lookup::NoRows => r matches Ok(None),
            Lookup::Failed => r matches Err(e) && e == VaultError::Storage,
        },
{
    match answer {
        Lookup::Found(value) => Ok(Some(value)),
        Lookup::NoRows => Ok(None),
        Lookup::Failed => Err(VaultError::Storage),
    }
}

/// What writing a setting gives for an answer of the store. The statement
/// replaces an existing row, so nothing but a run statement is success.
pub fn set_setting(answer: Written) -> (r: Result<(), VaultError>)
    ensures
        r is Ok <==> answer is Done,
        r matches Err(e) ==> e == VaultError::Storage,
{
    match answer {
        Written::Done { .. } => Ok(()),
        _ => Err(VaultError::Storage),
    }
}

/// What saving a session gives for an answer of the store. A record whose id
/// is taken is refused, never retried and never ignored.
pub fn save_session(answer: Written) -> (r: Result<(), VaultError>)
    ensures
        match answer {
            Written::Done { .. } => r is Ok,
            Written::Conflict => r matches Err(e) && e == VaultError::UniqueConstraintViolation,
            Written::Failed => r matches Err(e) && e == VaultError::Storage,
        },
{
    match answer {
        Written::Done { .. } => Ok(()),
        Written::Conflict => Err(VaultError::UniqueConstraintViolation),
        Written::Failed => Err(VaultError::Storage),
    }
}

/// What loading the content of a session gives for an answer of the store.
/// A session that is not there is an error, never an empty content.
pub fn load_session_content(answer: Lookup) -> (r: Result<String, VaultError>)
    ensures
        match answer {
            Lookup::Found(content) => r matches Ok(loaded) && loaded@ == content@,
            Lookup::NoRows => r matches Err(e) && e == VaultError::NotFound,
            Lookup::Failed => r matches Err(e) && e == VaultError::Storage,
        },
{
    match answer {
        Lookup::Found(content) => Ok(content),
        Lookup::NoRows => Err(VaultError::NotFound),
        Lookup::Failed => Err(VaultError::Storage),
    }
}

/// What deleting a session gives for an answer of the store. Deleting a
/// session that is not there changes no row and is success all the same.
pub fn delete_session(answer: Written) -> (r: Result<(), VaultError>)
    ensures
        r is Ok <==> answer is Done,
        r matches Err(e) ==> e == VaultError::Storage,
{
    match answer {
        Written::Done { .. } => Ok(()),
        _ => Err(VaultError::Storage),
    }
}

/// Whether `a` comes before `b` or equals it, byte by byte from index `i` on.
pub open spec fn lex_le_from(a: Seq<u8>, b: Seq<u8>, i: int) -> bool
    decreases a.len() - i,
{
    if i >= a.len() {
        true
    } else if i >= b.len() {
        false
    } else if a[i] != b[i] {
        a[i] < b[i]
    } else {
        lex_le_from(a, b, i + 1)
    }
}

/// Lexicographic order on bytes: the order in which texts are compared.
pub open spec fn lex_le(a: Seq<u8>, b: Seq<u8>) -> bool {
    lex_le_from(a, b, 0)
}

/// Whether session `a` was created no later than session `b`. Timestamps are
/// written so that their order as texts is their order in time.
pub open spec fn created_no_later(a: SessionMetaView, b: SessionMetaView) -> bool {
    lex_le(encode_utf8(a.created_at), encode_utf8(b.created_at))
}

/// Whether a listing runs from the most recent session to the oldest.
pub open spec fn recency_ordered(list: Seq<SessionMeta>) -> bool {
    forall|i: int, j: int| 0 <= i < j < list.len() ==> created_no_later(list[j]@, list[i]@)
}

/// Of any two byte strings, one comes no later than the other.
pub proof fn lemma_lex_le_total(a: Seq<u8>, b: Seq<u8>, i: int)
    requires
        0 <= i,
    ensures
        lex_le_from(a, b, i) || lex_le_from(b, a, i),
    decreases a.len() - i,
{
    if i < a.len() && i < b.len() && a[i] == b[i] {
        lemma_lex_le_total(a, b, i + 1);
    }
}

/// What comes no later than something that comes no later than a third
/// comes no later than the third.
pub proof fn lemma_lex_le_transitive(a: Seq<u8>, b: Seq<u8>, c: Seq<u8>, i: int)
    requires
        0 <= i,
        lex_le_from(a, b, i),
        lex_le_from(b, c, i),
    ensures
        lex_le_from(a, c, i),
    decreases a.len() - i,
{
    if i < a.len() && a[i] == b[i] && b[i] == c[i] {
        lemma_lex_le_transitive(a, b, c, i + 1);
    }
}

/// Compares two byte strings in lexicographic order.
pub fn bytes_le(a: &[u8], b: &[u8]) -> (r: bool)
    ensures
        r == lex_le(a@, b@),
{
    let mut i: usize = 0;
    while i < a.len() && i < b.len()
        invariant
            i <= a@.len(),
            i <= b@.len(),
            lex_le(a@, b@) == lex_le_from(a@, b@, i as int),
        decreases a@.len() - i,
    {
        if a[i] != b[i] {
            return a[i] < b[i];
        }
        i += 1;
    }
    i >= a.len()
}

/// Whether `a` was created no later than `b`.
pub fn no_later(a: &SessionMeta, b: &SessionMeta) -> (r: bool)
    ensures
        r == created_no_later(a@, b@),
{
    bytes_le(a.created_at.as_str().as_bytes(), b.created_at.as_str().as_bytes())
}

/// Puts `item` into a listing that runs from the most recent to the oldest,
/// before the first session that is no more recent than it.
pub fn insert_by_recency(list: &mut Vec<SessionMeta>, item: SessionMeta)
    requires
        recency_ordered(old(list)@),
    ensures
        recency_ordered(final(list)@),
        exists|at: int|
            0 <= at <= old(list)@.len() && final(list)@ == #[trigger] old(list)@.insert(at, item),
        final(list)@.to_multiset() == old(list)@.to_multiset().insert(item),
{
    let mut at: usize = 0;
    while at < list.len() && !no_later(&list[at], &item)
        invariant
            at <= list@.len(),
            *list == *old(list),
            forall|i: int| 0 <= i < at ==> created_no_later(item@, #[trigger] list@[i]@),
        decreases list@.len() - at,
    {
        proof {
            lemma_lex_le_total(
                encode_utf8(list@[at as int]@.created_at),
                encode_utf8(item@.created_at),
                0,
            );
        }
        at += 1;
    }
    let ghost before = list@;
    assert(at < before.len() ==> created_no_later(before[at as int]@, item@));
    list.insert(at, item);
    proof {
        let after = list@;
        assert forall|i: int, j: int| 0 <= i < j < after.len() implies created_no_later(
            after[j]@,
            after[i]@,
        ) by {
            if j == at {
                assert(after[i] == before[i]);
            } else if i == at {
                assert(after[j] == before[j - 1]);
                if j - 1 > at {
                    assert(created_no_later(before[j - 1]@, before[at as int]@));
                    lemma_lex_le_transitive(
                        encode_utf8(before[j - 1]@.created_at),
                        encode_utf8(before[at as int]@.created_at),
                        encode_utf8(item@.created_at),
                        0,
                    );
                }
            } else {
                let bi = if i < at { i } else { i - 1 };
                let bj = if j < at { j } else { j - 1 };
                assert(after[i] == before[bi]);
                assert(after[j] == before[bj]);
            }
        }
        assert(after.remove(at as int) =~= before);
        to_multiset_remove(after, at as int);
        assert(after.contains(item)) by {
            assert(after[at as int] == item);
        }
        after.to_multiset_ensures();
        assert(after.to_multiset() =~= before.to_multiset().insert(item));
    }
}

/// The listing of all sessions for an answer of the store: the same
/// sessions, from the most recent to the oldest.
pub fn load_session_list(answer: Listing) -> (r: Result<Vec<SessionMeta>, VaultError>)
    ensures
        match answer {
            Listing::Rows(rows) => r matches Ok(list) && recency_ordered(list@)
                && list@.to_multiset() == rows@.to_multiset(),
            Listing::Failed => r matches Err(e) && e == VaultError::Storage,
        },
{
    let mut rest = match answer {
        Listing::Rows(rows) => rows,
        Listing::Failed => {
            return Err(VaultError::Storage);
        },
    };
    let ghost rows = rest@;
    let mut list: Vec<SessionMeta> = Vec::new();
    proof {
        list@.to_multiset_ensures();
        assert(list@.to_multiset() =~= Multiset::<SessionMeta>::empty());
    }
    loop
        invariant
            answer matches Listing::Rows(given) && given@ == rows,
            recency_ordered(list@),
            list@.to_multiset().add(rest@.to_multiset()) == rows.to_multiset(),
        decreases rest@.len(),
    {
        let ghost pending = rest@;
        let ghost sorted = list@;
        match rest.pop() {
            Some(item) => {
                proof {
                    assert(rest@ =~= pending.remove(pending.len() - 1));
                    to_multiset_remove(pending, pending.len() - 1);
                    pending.to_multiset_ensures();
                    assert(pending.contains(item)) by {
                        assert(pending[pending.len() - 1] == item);
                    }
                }
                insert_by_recency(&mut list, item);
                assert(list@.to_multiset().add(rest@.to_multiset()) =~= sorted.to_multiset().add(
                    pending.to_multiset(),
                ));
            },
            None => {
                proof {
                    assert(rest@.to_multiset() =~= Multiset::<SessionMeta>::empty()) by {
                        rest@.to_multiset_ensures();
                        assert(rest@.to_multiset().len() == 0);
                    }
                    assert(list@.to_multiset() =~= rows.to_multiset());
                }
                return Ok(list);
            },
        }
    }
}

} // verus!
