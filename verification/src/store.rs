//! The store adapter: the status document held under its key, loading with
//! defaulting on every read failure, saving with a fresh timestamp, and
//! reset. The durable engine behind it is outside this library; its read
//! outcomes arrive as `StoreReadEvent`, its write failures as `StoreError`.

use vstd::prelude::*;
use vstd::string::StringExecFns;

use crate::clock::now_rfc3339;
use crate::codec::parse_spec;
use crate::codec::ser_spec;
use crate::codec::parse_status;
use crate::codec::serialize_status;
use crate::status::ModelState;
use crate::status::ModelStatus;
use crate::status::OnboardingStatus;
use crate::status::StatusView;
use crate::status::default_spec;
use crate::status::eq_except_last_updated;
use crate::status::safe_seq;
use crate::status::stamp_spec;

verus! {

/// What a read of the status key returned.
#[derive(Debug, Clone)]
pub enum StoreReadEvent {
    /// The store itself could not be opened.
    Unavailable,
    /// The store opened, but holds no status key.
    Missing,
    /// The text held under the status key.
    Found(String),
}

/// Which path a load took. The three fallback paths are behaviorally
/// identical to the caller but distinguishable here, for diagnostics.
#[derive(Clone, Copy, Debug, PartialEq, Eq, Structural)]
pub enum LoadSource {
    /// The store could not be opened; the default was returned.
    StoreUnavailable,
    /// No document was stored; the default was returned.
    NoDocument,
    /// A document was stored but did not match the schema; the default
    /// was returned.
    SchemaMismatch,
    /// The stored document was returned.
    Stored,
}

/// Failure of a persisted write.
#[derive(Debug, Clone)]
pub enum StoreError {
    /// The store could not be opened. On a write this is an error, not a
    /// fallback.
    OpenFailed(String),
    /// The document does not meet the schema and was not written.
    SerializeRejected,
    /// The write happened but the durable flush failed.
    FlushFailed(String),
}

/// The caller-facing message of a write failure, prefixed with the
/// operation that failed.
pub open spec fn store_error_message(e: StoreError) -> Seq<char> {
    match e {
        StoreError::OpenFailed(d) => "Failed to access onboarding store: "@ + d@,
        StoreError::SerializeRejected => "Failed to serialize onboarding status"@,
        StoreError::FlushFailed(d) => "Failed to save onboarding store to disk: "@ + d@,
    }
}

impl StoreError {
    /// Render the failure for the caller, prefixed with the operation.
    pub fn message(&self) -> (r: String)
        ensures
            r@ == store_error_message(*self),
    {
        match self {
            StoreError::OpenFailed(d) => {
                let mut m = String::from_str("Failed to access onboarding store: ");
                m.append(d.as_str());
                m
            },
            StoreError::SerializeRejected => String::from_str(
                "Failed to serialize onboarding status",
            ),
            StoreError::FlushFailed(d) => {
                let mut m = String::from_str("Failed to save onboarding store to disk: ");
                m.append(d.as_str());
                m
            },
        }
    }
}

/// A view pinned to the default status in everything but its timestamp.
pub open spec fn is_default_status(v: StatusView) -> bool {
    v == default_spec(v.last_updated) && safe_seq(v.last_updated)
}

// The abstract store: the content of the status key, or nothing.

/// Whether the store holds a status document — "initialized", as opposed
/// to "never initialized".
pub open spec fn slot_exists(slot: Option<Seq<char>>) -> bool {
    slot is Some
}

/// The content of the status key after a save of `d` stamped with `t`.
pub open spec fn save_slot(d: StatusView, t: Seq<char>) -> Option<Seq<char>> {
    Some(ser_spec(stamp_spec(d, t)))
}

/// The content of the status key after a reset.
pub open spec fn reset_slot(slot: Option<Seq<char>>) -> Option<Seq<char>> {
    None
}

/// What a load returns on a given slot, defaulting with timestamp `t`:
/// the stored document if it parses, the default otherwise.
pub open spec fn load_slot(slot: Option<Seq<char>>, t: Seq<char>) -> (StatusView, LoadSource) {
    match slot {
        None => (default_spec(t), LoadSource::NoDocument),
        Some(doc) => match parse_spec(doc) {
            Some(v) => (v, LoadSource::Stored),
            None => (default_spec(t), LoadSource::SchemaMismatch),
        },
    }
}

/// The document store adapter, holding the status key in memory. The
/// caller that owns durable storage mirrors this content to it and feeds
/// read outcomes and write failures back as events.
pub struct StatusStore {
    slot: Option<String>,
}

impl View for StatusStore {
    type V = Option<Seq<char>>;

    closed spec fn view(&self) -> Option<Seq<char>> {
        match self.slot {
            Some(doc) => Some(doc@),
            None => None,
        }
    }
}

impl StatusStore {
    /// An empty store: never initialized.
    pub fn new() -> (r: Self)
        ensures
            r@ is None,
    {
        StatusStore { slot: None }
    }

    /// A store holding the given document text, as read back from
    /// durable storage.
    pub fn from_document(doc: Option<String>) -> (r: Self)
        ensures
            (doc matches Some(d) ==> r@ == Some(d@)),
            (doc is None ==> r@ is None),
    {
        StatusStore { slot: doc }
    }

    /// The document text to mirror to durable storage.
    pub fn document(&self) -> (r: Option<String>)
        ensures
            (r matches Some(d) ==> self@ == Some(d@)),
            (r is None ==> self@ is None),
    {
        match &self.slot {
            Some(d) => Some(d.clone()),
            None => None,
        }
    }

    /// Whether the store holds a status document: distinguishes "never
    /// initialized" from "initialized with defaults".
    pub fn has_document(&self) -> (r: bool)
        ensures
            r == slot_exists(self@),
    {
        match &self.slot {
            Some(_) => true,
            None => false,
        }
    }
}

/// The default status stamped with the given timestamp.
fn default_with(now: String) -> (r: OnboardingStatus)
    ensures
        r@ == default_spec(now@),
{
    let r = OnboardingStatus {
        version: String::from_str("1.0"),
        completed: false,
        current_step: 1,
        model_status: ModelStatus {
            parakeet: ModelState::NotDownloaded,
            summary: ModelState::NotDownloaded,
        },
        last_updated: now,
    };
    proof {
        assert(r@ =~= default_spec(r.last_updated@));
    }
    r
}

/// Resolve what a read of the document store produced into a status:
/// the stored document when it parses against the schema, the default
/// status otherwise — a store that cannot be opened, a missing key and a
/// schema mismatch are all non-fatal on the read path, and each is named
/// by the returned `LoadSource`.
pub fn resolve_load(ev: StoreReadEvent) -> (r: (OnboardingStatus, LoadSource))
    ensures
        (ev is Unavailable ==> r.1 == LoadSource::StoreUnavailable && is_default_status(r.0@)),
        (ev is Missing ==> r.1 == LoadSource::NoDocument && is_default_status(r.0@)),
        (ev matches StoreReadEvent::Found(doc) ==> match parse_spec(doc@) {
            Some(v) => r.0@ == v && r.1 == LoadSource::Stored,
            None => r.1 == LoadSource::SchemaMismatch && is_default_status(r.0@),
        }),
{
    match ev {
        StoreReadEvent::Unavailable => (default_with(now_rfc3339()), LoadSource::StoreUnavailable),
        StoreReadEvent::Missing => (default_with(now_rfc3339()), LoadSource::NoDocument),
        StoreReadEvent::Found(doc) => {
            match parse_status(doc.as_str()) {
                Some(st) => (st, LoadSource::Stored),
                None => (default_with(now_rfc3339()), LoadSource::SchemaMismatch),
            }
        },
    }
}

/// Load the status from the store, with the defaulting of `resolve_load`.
pub fn load_onboarding_status(store: &StatusStore) -> (r: (OnboardingStatus, LoadSource))
    ensures
        (store@ is None ==> r.1 == LoadSource::NoDocument && is_default_status(r.0@)),
        (store@ matches Some(doc) ==> match parse_spec(doc) {
            Some(v) => r.0@ == v && r.1 == LoadSource::Stored,
            None => r.1 == LoadSource::SchemaMismatch && is_default_status(r.0@),
        }),
{
    match store.document() {
        Some(doc) => resolve_load(StoreReadEvent::Found(doc)),
        None => resolve_load(StoreReadEvent::Missing),
    }
}

/// Save the status: stamp `last_updated` with the current time, serialize,
/// and write the document under the status key. A document that does not
/// meet the schema is rejected as a serialization failure and the store is
/// left unchanged.
pub fn save_onboarding_status(store: &mut StatusStore, status: &OnboardingStatus) -> (r: Result<
    (),
    StoreError,
>)
    ensures
        (status@.wf_core() ==> r is Ok && exists|t: Seq<char>|
            safe_seq(t) && final(store)@ == save_slot(status@, t)),
        (!status@.wf_core() ==> (r matches Err(e) && e is SerializeRejected && final(store)@ == old(
            store,
        )@)),
{
    let version_ok = {
        let tag = String::from_str("1.0");
        status.version == tag
    };
    let step_ok = 1 <= status.current_step && status.current_step <= 5;
    if !(version_ok && step_ok) {
        return Err(StoreError::SerializeRejected);
    }
    let now = now_rfc3339();
    let ghost t = now@;
    let mut stamped = status.clone_status();
    stamped.stamp(now);
    let doc = serialize_status(&stamped);
    store.slot = Some(doc);
    proof {
        assert(safe_seq(t) && final(store)@ == save_slot(status@, t));
    }
    Ok(())
}

/// Reset: delete the status key. Deleting an absent key is not an error,
/// and afterwards the store reads as never initialized.
pub fn reset_onboarding_status(store: &mut StatusStore)
    ensures
        final(store)@ == reset_slot(old(store)@),
{
    store.slot = None;
}

// The laws of the adapter, over the abstract store.

/// Loading after saving returns the saved document: every field of `d` is
/// kept except `last_updated`, which carries the stamp of the save. The
/// slot then exists.
pub proof fn lemma_load_after_save(d: StatusView, t: Seq<char>, t2: Seq<char>)
    requires
        d.wf_core(),
        safe_seq(t),
    ensures
        load_slot(save_slot(d, t), t2).0 == stamp_spec(d, t),
        load_slot(save_slot(d, t), t2).1 == LoadSource::Stored,
        eq_except_last_updated(load_slot(save_slot(d, t), t2).0, d),
        load_slot(save_slot(d, t), t2).0.last_updated == t,
        slot_exists(save_slot(d, t)),
{
    crate::codec::lemma_round_trip(stamp_spec(d, t));
}

/// A never-initialized store loads as the default status, and holds no
/// document.
pub proof fn lemma_empty_store_defaults(t: Seq<char>)
    ensures
        load_slot(None, t) == (default_spec(t), LoadSource::NoDocument),
        !slot_exists(None::<Seq<char>>),
{
}

/// Reset leaves no document whatever the prior state, and is idempotent:
/// resetting twice is the same as resetting once.
pub proof fn lemma_reset_idempotent(slot: Option<Seq<char>>)
    ensures
        !slot_exists(reset_slot(slot)),
        reset_slot(reset_slot(slot)) == reset_slot(slot),
{
}

} // verus!
