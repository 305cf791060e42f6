use onboarding::codec::{parse_status, serialize_status};
use onboarding::{ModelState, ModelStatus, OnboardingStatus};

fn status(
    completed: bool,
    step: u8,
    parakeet: ModelState,
    summary: ModelState,
    last_updated: &str,
) -> OnboardingStatus {
    OnboardingStatus {
        version: "1.0".to_string(),
        completed,
        current_step: step,
        model_status: ModelStatus { parakeet, summary },
        last_updated: last_updated.to_string(),
    }
}

const CANONICAL_FRESH: &str = "{\"version\":\"1.0\",\"completed\":false,\"current_step\":1,\"model_status\":{\"parakeet\":\"not_downloaded\",\"summary\":\"not_downloaded\"},\"last_updated\":\"2024-01-01T00:00:00+00:00\"}";

const CANONICAL_DONE: &str = "{\"version\":\"1.0\",\"completed\":true,\"current_step\":5,\"model_status\":{\"parakeet\":\"downloaded\",\"summary\":\"downloaded\"},\"last_updated\":\"2024-06-30T12:34:56.789+00:00\"}";

#[test]
fn serialize_fresh_exact() {
    let s = status(
        false,
        1,
        ModelState::NotDownloaded,
        ModelState::NotDownloaded,
        "2024-01-01T00:00:00+00:00",
    );
    assert_eq!(serialize_status(&s), CANONICAL_FRESH);
}

#[test]
fn serialize_done_exact() {
    let s = status(
        true,
        5,
        ModelState::Downloaded,
        ModelState::Downloaded,
        "2024-06-30T12:34:56.789+00:00",
    );
    assert_eq!(serialize_status(&s), CANONICAL_DONE);
}

#[test]
fn parse_canonical_exact() {
    let parsed = parse_status(CANONICAL_DONE).expect("canonical document must parse");
    assert_eq!(parsed.version, "1.0");
    assert!(parsed.completed);
    assert_eq!(parsed.current_step, 5);
    assert_eq!(parsed.model_status.parakeet, ModelState::Downloaded);
    assert_eq!(parsed.model_status.summary, ModelState::Downloaded);
    assert_eq!(parsed.last_updated, "2024-06-30T12:34:56.789+00:00");
}

#[test]
fn round_trip_every_state() {
    let states = [
        ModelState::NotDownloaded,
        ModelState::Downloading,
        ModelState::Downloaded,
    ];
    for &completed in &[false, true] {
        for step in 1..=5u8 {
            for &p in &states {
                for &m in &states {
                    let s = status(completed, step, p, m, "2025-12-31T23:59:59+00:00");
                    let back = parse_status(&serialize_status(&s));
                    assert_eq!(back, Some(s));
                }
            }
        }
    }
}

#[test]
fn round_trip_default() {
    // serialize(default()) -> deserialize -> equal to default() in all
    // fields, the timestamp included, since serialization does not stamp.
    let d = OnboardingStatus::default();
    let back = parse_status(&serialize_status(&d));
    assert_eq!(back, Some(d));
}

#[test]
fn parse_rejects_empty() {
    assert_eq!(parse_status(""), None);
}

#[test]
fn parse_rejects_other_version() {
    let doc = CANONICAL_FRESH.replace("\"1.0\"", "\"2.0\"");
    assert_eq!(parse_status(&doc), None);
}

#[test]
fn parse_rejects_step_out_of_range() {
    assert_eq!(parse_status(&CANONICAL_FRESH.replace(":1,", ":0,")), None);
    assert_eq!(parse_status(&CANONICAL_FRESH.replace(":1,", ":6,")), None);
    assert_eq!(parse_status(&CANONICAL_FRESH.replace(":1,", ":12,")), None);
}

#[test]
fn parse_rejects_unknown_token() {
    let doc = CANONICAL_FRESH.replace("not_downloaded\",\"summary", "halfway\",\"summary");
    assert_eq!(parse_status(&doc), None);
}

#[test]
fn parse_rejects_reordered_fields() {
    let doc = "{\"completed\":false,\"version\":\"1.0\",\"current_step\":1,\"model_status\":{\"parakeet\":\"not_downloaded\",\"summary\":\"not_downloaded\"},\"last_updated\":\"2024-01-01T00:00:00+00:00\"}";
    assert_eq!(parse_status(doc), None);
}

#[test]
fn parse_rejects_old_permission_schema() {
    // A document of the historical schema variant: a permission record in
    // place of the step counter. Discarded wholesale, not merged.
    let doc = "{\"version\":\"1.0\",\"completed\":false,\"permissions\":{\"microphone\":\"notDetermined\",\"systemAudio\":\"denied\"},\"last_updated\":\"2023-03-03T00:00:00+00:00\"}";
    assert_eq!(parse_status(doc), None);
}

#[test]
fn parse_rejects_trailing_garbage() {
    let mut doc = CANONICAL_FRESH.to_string();
    doc.push_str(" ");
    assert_eq!(parse_status(&doc), None);
}

#[test]
fn parse_rejects_unsafe_timestamp() {
    let doc = CANONICAL_FRESH.replace("2024-01-01T00:00:00+00:00", "a\\b");
    assert_eq!(parse_status(&doc), None);
}

#[test]
fn serialize_is_injective_on_examples() {
    let a = status(
        false,
        2,
        ModelState::Downloading,
        ModelState::NotDownloaded,
        "2024-01-01T00:00:00+00:00",
    );
    let b = status(
        false,
        2,
        ModelState::NotDownloaded,
        ModelState::Downloading,
        "2024-01-01T00:00:00+00:00",
    );
    assert_ne!(serialize_status(&a), serialize_status(&b));
}
