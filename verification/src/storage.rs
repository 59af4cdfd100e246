//! Key-value persistence: the in-memory store and the persisted gateway
//! session record (its validation and its JSON form).
use vstd::prelude::*;

use crate::json::{
    json_insert, json_object, json_parse_bytes, json_string, json_to_vec, json_u64, opt_str,
    opt_u64, record_member, record_shape, spec_has_only, spec_json_as_array, spec_json_get,
    spec_json_is_object, spec_json_parse_bytes, spec_json_plain_object, spec_opt_str, spec_opt_u64, spec_record_member,
    spec_record_shape,
};
use crate::table::KeyedTable;
use crate::text::{concat2, is_blank, spec_is_blank, to_owned_string};

verus! {

/// Why a storage operation failed.
#[derive(Debug, PartialEq, Eq)]
pub enum StorageError {
    Backend(String),
}

impl StorageError {
    /// The message shown for this error.
    pub fn message(&self) -> (res: String)
        ensures
            res@ == (match *self {
                StorageError::Backend(m) => "storage backend error: "@ + m@,
            }),
    {
        match self {
            StorageError::Backend(m) => concat2("storage backend error: ", m.as_str()),
        }
    }
}

/// What a gateway connection needs to resume after a restart.
#[derive(Debug, PartialEq, Eq)]
pub struct GatewaySessionRecord {
    pub session_id: String,
    pub seq: u64,
    pub resume_url: String,
}

pub struct GatewaySessionRecordView {
    pub session_id: Seq<char>,
    pub seq: u64,
    pub resume_url: Seq<char>,
}

impl View for GatewaySessionRecord {
    type V = GatewaySessionRecordView;

    open spec fn view(&self) -> GatewaySessionRecordView {
        GatewaySessionRecordView {
            session_id: self.session_id@,
            seq: self.seq,
            resume_url: self.resume_url@,
        }
    }
}

impl Clone for GatewaySessionRecord {
    fn clone(&self) -> (res: Self)
        ensures
            res@ == self@,
    {
        GatewaySessionRecord {
            session_id: self.session_id.clone(),
            seq: self.seq,
            resume_url: self.resume_url.clone(),
        }
    }
}

/// The key the gateway session is kept under.
pub const GATEWAY_SESSION_STORAGE_KEY: &'static str = "gateway.session.v1";

/// Reason given for a blank session id.
pub const EMPTY_SESSION_ID: &'static str = "gateway session_id cannot be empty";

/// Reason given for a blank resume URL.
pub const EMPTY_RESUME_URL: &'static str = "gateway resume_url cannot be empty";

/// Prefix of the reason given for stored bytes that are not a session record.
pub const UNREADABLE_SESSION: &'static str = "failed to deserialize gateway session: ";

/// Cause given when the stored JSON does not have the record's fields.
pub const NOT_A_SESSION_RECORD: &'static str = "expected session_id, seq and resume_url";

/// Whether a record may be stored: a blank session id is refused first, then a blank resume URL.
pub open spec fn spec_validate_session(r: GatewaySessionRecordView) -> Result<(), Seq<char>> {
    if spec_is_blank(r.session_id) {
        Err(EMPTY_SESSION_ID@)
    } else if spec_is_blank(r.resume_url) {
        Err(EMPTY_RESUME_URL@)
    } else {
        Ok(())
    }
}

/// The error that carries a refusal reason.
pub open spec fn spec_backend_error(res: Result<(), StorageError>, reason: Seq<char>) -> bool {
    res matches Err(StorageError::Backend(m)) && m@ == reason
}

/// Refuses a record that could not be resumed from: its session id and its
/// resume URL must not be blank.
pub fn validate_gateway_session(session: &GatewaySessionRecord) -> (res: Result<(), StorageError>)
    ensures
        match spec_validate_session(session@) {
            Ok(()) => res is Ok,
            Err(reason) => spec_backend_error(res, reason),
        },
{
    if is_blank(session.session_id.as_str()) {
        return Err(StorageError::Backend(to_owned_string(EMPTY_SESSION_ID)));
    }
    if is_blank(session.resume_url.as_str()) {
        return Err(StorageError::Backend(to_owned_string(EMPTY_RESUME_URL)));
    }
    Ok(())
}

/// The JSON object a record is stored as: its three fields as members, and
/// nothing else.
pub open spec fn spec_session_document(doc: serde_json::Value, r: GatewaySessionRecordView) -> bool {
    &&& spec_json_is_object(doc)
    &&& spec_json_as_array(doc) is None
    &&& spec_opt_str(spec_json_get(doc, "session_id"@)) == Some(r.session_id)
    &&& spec_opt_u64(spec_json_get(doc, "seq"@)) == Some(r.seq)
    &&& spec_opt_str(spec_json_get(doc, "resume_url"@)) == Some(r.resume_url)
    &&& spec_has_only(doc, set!["session_id"@, "seq"@, "resume_url"@])
}

/// Bytes that hold a record: `serde_json` reads them as its document.
pub open spec fn spec_encodes_session(bytes: Seq<u8>, r: GatewaySessionRecordView) -> bool {
    spec_json_parse_bytes(bytes) matches Ok(doc) && spec_session_document(doc, r)
}

/// The bytes a valid record is stored as: the JSON document of its fields,
/// written by `serde_json`; an invalid record is refused as
/// `validate_gateway_session` refuses it.
pub fn encode_gateway_session(session: &GatewaySessionRecord) -> (res: Result<Vec<u8>, StorageError>)
    ensures
        match spec_validate_session(session@) {
            Ok(()) => res matches Ok(bytes) && spec_encodes_session(bytes@, session@),
            Err(reason) => res matches Err(StorageError::Backend(m)) && m@ == reason,
        },
{
    match validate_gateway_session(session) {
        Ok(()) => {},
        Err(e) => return Err(e),
    }
    proof {
        reveal_strlit("session_id");
        reveal_strlit("seq");
        reveal_strlit("resume_url");
        assert("session_id"@.len() != "seq"@.len());
        assert("session_id"@[0] != "resume_url"@[0]);
        assert("seq"@.len() != "resume_url"@.len());
    }
    let mut doc = json_object();
    json_insert(&mut doc, "session_id", json_string(session.session_id.as_str()));
    json_insert(&mut doc, "seq", json_u64(session.seq));
    json_insert(&mut doc, "resume_url", json_string(session.resume_url.as_str()));
    let bytes = json_to_vec(&doc);
    proof {
        assert(spec_json_plain_object(doc));
    }
    Ok(bytes)
}

/// The record read from a JSON document: an object with the three fields
/// (other members are ignored), or an array of exactly the three values in
/// order; `None` when a field is missing or of the wrong kind.
pub open spec fn spec_session_from_json(doc: serde_json::Value) -> Option<GatewaySessionRecordView> {
    let sid = spec_opt_str(spec_record_member(doc, 0, "session_id"@));
    let seq = spec_opt_u64(spec_record_member(doc, 1, "seq"@));
    let url = spec_opt_str(spec_record_member(doc, 2, "resume_url"@));
    if spec_record_shape(doc, 3) && sid is Some && seq is Some && url is Some {
        Some(GatewaySessionRecordView { session_id: sid->0, seq: seq->0, resume_url: url->0 })
    } else {
        None
    }
}

/// What loading the stored bytes gives: nothing stored is no session;
/// bytes that are not a record are an error; a record is validated.
pub open spec fn spec_decode_session(stored: Option<Seq<u8>>, res: Result<Option<GatewaySessionRecord>, StorageError>) -> bool {
    match stored {
        None => res == Ok::<Option<GatewaySessionRecord>, StorageError>(None),
        Some(bytes) => match spec_json_parse_bytes(bytes) {
            Err(cause) => res matches Err(StorageError::Backend(m)) && m@ == UNREADABLE_SESSION@ + cause,
            Ok(doc) => match spec_session_from_json(doc) {
                None => res matches Err(StorageError::Backend(m)) && m@ == UNREADABLE_SESSION@
                    + NOT_A_SESSION_RECORD@,
                Some(r) => match spec_validate_session(r) {
                    Err(reason) => res matches Err(StorageError::Backend(m)) && m@ == reason,
                    Ok(()) => res matches Ok(Some(rec)) && rec@ == r,
                },
            },
        },
    }
}

/// The bytes a store returned, as a sequence.
pub open spec fn spec_stored_bytes(stored: Option<Vec<u8>>) -> Option<Seq<u8>> {
    match stored {
        Some(b) => Some(b@),
        None => None,
    }
}

/// Reads the record out of a JSON document.
fn session_from_json(doc: &serde_json::Value) -> (res: Option<GatewaySessionRecord>)
    ensures
        match spec_session_from_json(*doc) {
            None => res is None,
            Some(r) => res matches Some(rec) && rec@ == r,
        },
{
    if !record_shape(doc, 3) {
        return None;
    }
    let session_id = match opt_str(&record_member(doc, 0, "session_id")) {
        Some(s) => s,
        None => return None,
    };
    let seq = match opt_u64(&record_member(doc, 1, "seq")) {
        Some(n) => n,
        None => return None,
    };
    let resume_url = match opt_str(&record_member(doc, 2, "resume_url")) {
        Some(s) => s,
        None => return None,
    };
    Some(GatewaySessionRecord { session_id, seq, resume_url })
}

/// Loads the gateway session from what the store holds under its key.
pub fn decode_gateway_session(stored: Option<Vec<u8>>) -> (res: Result<Option<GatewaySessionRecord>, StorageError>)
    ensures
        spec_decode_session(spec_stored_bytes(stored), res),
{
    let bytes = match stored {
        Some(b) => b,
        None => return Ok(None),
    };
    let doc = match json_parse_bytes(bytes.as_slice()) {
        Ok(d) => d,
        Err(cause) => {
            return Err(StorageError::Backend(concat2(UNREADABLE_SESSION, cause.as_str())));
        },
    };
    let session = match session_from_json(&doc) {
        Some(s) => s,
        None => {
            return Err(StorageError::Backend(concat2(UNREADABLE_SESSION, NOT_A_SESSION_RECORD)));
        },
    };
    match validate_gateway_session(&session) {
        Ok(()) => Ok(Some(session)),
        Err(e) => Err(e),
    }
}

// ---------------------------------------------------------------------------
// The in-memory store
// ---------------------------------------------------------------------------

/// A key-value store held in memory.
#[derive(Debug)]
pub struct MemoryStore {
    table: KeyedTable<Vec<u8>>,
}

impl View for MemoryStore {
    type V = Map<Seq<char>, Seq<u8>>;

    closed spec fn view(&self) -> Map<Seq<char>, Seq<u8>> {
        self.table@.map_values(|v: Vec<u8>| v@)
    }
}

impl MemoryStore {
    /// An empty store.
    pub fn new() -> (res: Self)
        ensures
            res@ == Map::<Seq<char>, Seq<u8>>::empty(),
    {
        let res = MemoryStore { table: KeyedTable::new() };
        assert(res@ =~= Map::<Seq<char>, Seq<u8>>::empty());
        res
    }

    /// The value kept under `key`, if any.
    pub fn get(&self, key: &str) -> (res: Option<Vec<u8>>)
        ensures
            match res {
                Some(v) => self@.contains_key(key@) && self@[key@] == v@,
                None => !self@.contains_key(key@),
            },
    {
        match self.table.get(key) {
            Some(v) => Some(v.clone()),
            None => None,
        }
    }

    /// Keeps `value` under `key`, replacing what was there.
    pub fn set(&mut self, key: &str, value: Vec<u8>)
        ensures
            final(self)@ == old(self)@.insert(key@, value@),
    {
        let ghost v = value@;
        self.table.insert(key, value);
        assert(self@ =~= old(self)@.insert(key@, v));
    }

    /// Forgets `key` and its value.
    pub fn delete(&mut self, key: &str)
        ensures
            final(self)@ == old(self)@.remove(key@),
    {
        let _ = self.table.remove(key);
        assert(self@ =~= old(self)@.remove(key@));
    }
}

/// What a store gives back: a read returns the last value written under the
/// key, a delete leaves nothing there, and neither touches another key.
pub proof fn law_store_read_after_write(store: Map<Seq<char>, Seq<u8>>, key: Seq<char>, value: Seq<u8>, other: Seq<char>)
    requires
        other != key,
    ensures
        store.insert(key, value).contains_key(key) && store.insert(key, value)[key] == value,
        !store.remove(key).contains_key(key),
        store.insert(key, value).contains_key(other) == store.contains_key(other),
        store.contains_key(other) ==> store.insert(key, value)[other] == store[other],
        store.remove(key).contains_key(other) == store.contains_key(other),
{
}

/// What a store holds under a key, if anything.
pub open spec fn spec_lookup(store: Map<Seq<char>, Seq<u8>>, key: Seq<char>) -> Option<Seq<u8>> {
    if store.contains_key(key) {
        Some(store[key])
    } else {
        None
    }
}

/// Saving a valid record and loading it back gives the record: the bytes
/// `encode_gateway_session` stores decode to it. Clearing the key and loading
/// gives no record.
pub proof fn law_saved_session_loads_back(
    store: Map<Seq<char>, Seq<u8>>,
    key: Seq<char>,
    r: GatewaySessionRecordView,
    bytes: Seq<u8>,
    loaded: Result<Option<GatewaySessionRecord>, StorageError>,
    cleared: Result<Option<GatewaySessionRecord>, StorageError>,
)
    requires
        spec_validate_session(r) is Ok,
        spec_encodes_session(bytes, r),
        spec_decode_session(spec_lookup(store.insert(key, bytes), key), loaded),
        spec_decode_session(spec_lookup(store.remove(key), key), cleared),
    ensures
        loaded matches Ok(Some(rec)) && rec@ == r,
        cleared == Ok::<Option<GatewaySessionRecord>, StorageError>(None),
{
    let doc = spec_json_parse_bytes(bytes)->Ok_0;
    assert(spec_session_from_json(doc) == Some(r));
}

} // verus!
