use onboarding::commands::{
    get_onboarding_status, reset_onboarding_status_cmd, save_onboarding_status_cmd,
};
use onboarding::store::{
    load_onboarding_status, reset_onboarding_status, resolve_load, save_onboarding_status,
    LoadSource, StatusStore, StoreError, StoreReadEvent,
};
use onboarding::{ModelState, ModelStatus, OnboardingStatus};

fn in_progress(step: u8) -> OnboardingStatus {
    OnboardingStatus {
        version: "1.0".to_string(),
        completed: false,
        current_step: step,
        model_status: ModelStatus {
            parakeet: ModelState::Downloading,
            summary: ModelState::NotDownloaded,
        },
        last_updated: "2000-01-01T00:00:00+00:00".to_string(),
    }
}

fn assert_default_shape(s: &OnboardingStatus) {
    assert_eq!(s.version, "1.0");
    assert!(!s.completed);
    assert_eq!(s.current_step, 1);
    assert_eq!(s.model_status.parakeet, ModelState::NotDownloaded);
    assert_eq!(s.model_status.summary, ModelState::NotDownloaded);
}

#[test]
fn empty_store_loads_default_and_has_no_document() {
    let store = StatusStore::new();
    assert!(!store.has_document());
    let (status, source) = load_onboarding_status(&store);
    assert_default_shape(&status);
    assert_eq!(source, LoadSource::NoDocument);
    assert_eq!(get_onboarding_status(&store), None);
}

#[test]
fn load_after_save_returns_saved_document() {
    let mut store = StatusStore::new();
    let d = in_progress(3);
    save_onboarding_status(&mut store, &d).expect("save must succeed");
    assert!(store.has_document());
    let (loaded, source) = load_onboarding_status(&store);
    assert_eq!(source, LoadSource::Stored);
    assert_eq!(loaded.version, d.version);
    assert_eq!(loaded.completed, d.completed);
    assert_eq!(loaded.current_step, d.current_step);
    assert_eq!(loaded.model_status, d.model_status);
    // The save stamped a fresh timestamp, at or after the old one.
    assert!(loaded.last_updated >= d.last_updated);
    assert_ne!(loaded.last_updated, d.last_updated);
    // The stamp is an RFC 3339 timestamp from the clock, not an echo.
    assert!(loaded.last_updated.contains('T'));
    assert!(loaded.last_updated.len() >= 20);
}

#[test]
fn reset_clears_and_is_idempotent() {
    let mut store = StatusStore::new();
    save_onboarding_status(&mut store, &in_progress(2)).expect("save must succeed");
    assert!(store.has_document());
    reset_onboarding_status(&mut store);
    assert!(!store.has_document());
    assert_eq!(get_onboarding_status(&store), None);
    // Resetting an already-reset store succeeds and changes nothing.
    assert_eq!(reset_onboarding_status_cmd(&mut store), Ok(()));
    assert!(!store.has_document());
    assert_eq!(reset_onboarding_status_cmd(&mut store), Ok(()));
    assert!(!store.has_document());
}

#[test]
fn save_rejects_schema_breaking_document() {
    let mut store = StatusStore::new();
    let mut bad = in_progress(2);
    bad.version = "0.9".to_string();
    match save_onboarding_status(&mut store, &bad) {
        Err(StoreError::SerializeRejected) => {}
        other => panic!("expected a serialization rejection, got {:?}", other),
    }
    assert!(!store.has_document());

    let mut bad_step = in_progress(2);
    bad_step.current_step = 0;
    assert!(save_onboarding_status(&mut store, &bad_step).is_err());
    bad_step.current_step = 6;
    assert!(save_onboarding_status(&mut store, &bad_step).is_err());
    assert!(!store.has_document());
}

#[test]
fn resolve_load_distinguishes_sources() {
    let (s, src) = resolve_load(StoreReadEvent::Unavailable);
    assert_default_shape(&s);
    assert_eq!(src, LoadSource::StoreUnavailable);

    let (s, src) = resolve_load(StoreReadEvent::Missing);
    assert_default_shape(&s);
    assert_eq!(src, LoadSource::NoDocument);

    let (s, src) = resolve_load(StoreReadEvent::Found("{not json".to_string()));
    assert_default_shape(&s);
    assert_eq!(src, LoadSource::SchemaMismatch);

    let doc = onboarding::codec::serialize_status(&in_progress(4));
    let (s, src) = resolve_load(StoreReadEvent::Found(doc));
    assert_eq!(src, LoadSource::Stored);
    assert_eq!(s.current_step, 4);
}

#[test]
fn error_messages_name_the_operation() {
    assert_eq!(
        StoreError::OpenFailed("no filesystem".to_string()).message(),
        "Failed to access onboarding store: no filesystem"
    );
    assert_eq!(
        StoreError::SerializeRejected.message(),
        "Failed to serialize onboarding status"
    );
    assert_eq!(
        StoreError::FlushFailed("disk full".to_string()).message(),
        "Failed to save onboarding store to disk: disk full"
    );
}

#[test]
fn save_cmd_reports_prefixed_error() {
    let mut store = StatusStore::new();
    let mut bad = in_progress(1);
    bad.version = "2.0".to_string();
    let err = save_onboarding_status_cmd(&mut store, &bad).unwrap_err();
    assert_eq!(
        err,
        "Failed to save onboarding status: Failed to serialize onboarding status"
    );
    assert!(!store.has_document());
    let good = in_progress(1);
    assert_eq!(save_onboarding_status_cmd(&mut store, &good), Ok(()));
    assert!(store.has_document());
}

#[test]
fn get_status_distinguishes_default_from_stored() {
    let mut store = StatusStore::new();
    assert_eq!(get_onboarding_status(&store), None);
    let fresh = OnboardingStatus {
        version: "1.0".to_string(),
        completed: false,
        current_step: 1,
        model_status: ModelStatus {
            parakeet: ModelState::NotDownloaded,
            summary: ModelState::NotDownloaded,
        },
        last_updated: "2000-01-01T00:00:00+00:00".to_string(),
    };
    save_onboarding_status(&mut store, &fresh).expect("save must succeed");
    // A stored document equal to the default in everything but its
    // timestamp is still "initialized", not "never initialized".
    let got = get_onboarding_status(&store).expect("stored document must be returned");
    assert_default_shape(&got);
}

#[test]
fn store_document_round_trips_through_mirror() {
    let mut store = StatusStore::new();
    save_onboarding_status(&mut store, &in_progress(5)).expect("save must succeed");
    let doc = store.document();
    assert!(doc.is_some());
    let mirrored = StatusStore::from_document(doc);
    let (a, _) = load_onboarding_status(&store);
    let (b, _) = load_onboarding_status(&mirrored);
    assert_eq!(a, b);
}
