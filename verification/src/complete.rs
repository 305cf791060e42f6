//! The completion orchestrator: marks the wizard complete in the document
//! store first, then propagates the selected model configuration to the
//! relational settings store. The two stores fail independently; the
//! machine here fixes the order, the partial-failure contract, and the
//! caller-facing messages, while the caller performs the actual store and
//! database work between steps.

use vstd::prelude::*;
use vstd::pervasive::unreached;
use vstd::string::StringExecFns;

use crate::status::OnboardingStatus;
use crate::status::StatusView;
use crate::status::complete_spec;
use crate::status::default_spec;
use crate::status::safe_seq;
use crate::store::StoreError;
use crate::store::StoreReadEvent;
use crate::store::store_error_message;
use crate::store::resolve_load;
use crate::codec::parse_spec;

verus! {

/// The configuration written for the summary capability: the provider is
/// fixed, the model is the caller's selection, and the remaining fields are
/// sentinel values the settings schema requires of every provider.
#[derive(Debug, Clone)]
pub struct ModelConfig {
    pub provider: String,
    pub model: String,
    pub aux_model: String,
    pub endpoint: Option<String>,
}

/// The configuration written for the transcription capability.
#[derive(Debug, Clone)]
pub struct TranscriptConfig {
    pub provider: String,
    pub model: String,
}

/// Where the completion run stands: what it waits for next.
#[derive(Debug)]
pub enum CompletePhase {
    /// Waiting for the wizard store to be read.
    AwaitLoad { summary_model: String },
    /// Waiting for the completed status to be written to the wizard store.
    AwaitSave { summary_model: String },
    /// Waiting for the summary configuration write.
    AwaitSummaryWrite,
    /// Waiting for the transcription configuration write; a failure of the
    /// summary write is carried along, not forgotten.
    AwaitTranscriptWrite { summary_error: Option<String> },
    /// Done; `failed` is `None` on full success, else the message of every
    /// write that failed.
    Finished { failed: Option<String> },
}

/// What the caller observed between steps.
#[derive(Debug)]
pub enum CompleteEvent {
    /// The wizard store was read.
    Loaded(StoreReadEvent),
    /// The completed status was written to the wizard store, or not.
    Saved(Result<(), StoreError>),
    /// The summary configuration was written, or failed with a detail.
    SummaryWritten(Result<(), String>),
    /// The transcription configuration was written, or failed with a detail.
    TranscriptWritten(Result<(), String>),
}

/// What the caller must do next.
#[derive(Debug)]
pub enum CompleteAction {
    /// Read the status key of the wizard store.
    ReadStatus,
    /// Persist this status to the wizard store.
    SaveStatus(OnboardingStatus),
    /// Upsert this configuration for the summary capability.
    WriteSummaryConfig(ModelConfig),
    /// Upsert this configuration for the transcription capability.
    WriteTranscriptConfig(TranscriptConfig),
    /// Nothing; report the outcome to the caller.
    Report(Option<String>),
}

/// Which event each phase waits for.
pub open spec fn phase_accepts(phase: CompletePhase, event: CompleteEvent) -> bool {
    match (phase, event) {
        (CompletePhase::AwaitLoad { .. }, CompleteEvent::Loaded(_)) => true,
        (CompletePhase::AwaitSave { .. }, CompleteEvent::Saved(_)) => true,
        (CompletePhase::AwaitSummaryWrite, CompleteEvent::SummaryWritten(_)) => true,
        (CompletePhase::AwaitTranscriptWrite { .. }, CompleteEvent::TranscriptWritten(_)) => true,
        _ => false,
    }
}

/// The status a read of the wizard store denotes, defaulted with `t` where
/// nothing usable was stored.
pub open spec fn loaded_status(ev: StoreReadEvent, t: Seq<char>) -> StatusView {
    match ev {
        StoreReadEvent::Found(doc) => match parse_spec(doc@) {
            Some(v) => v,
            None => default_spec(t),
        },
        _ => default_spec(t),
    }
}

/// Begin a completion run for the selected summary model.
pub fn complete_onboarding(summary_model: String) -> (r: (CompletePhase, CompleteAction))
    ensures
        r.0 == (CompletePhase::AwaitLoad { summary_model }),
        r.1 is ReadStatus,
{
    (CompletePhase::AwaitLoad { summary_model }, CompleteAction::ReadStatus)
}

/// One step of the completion run.
///
/// The contract carries the two partial-failure guarantees of the design:
/// the status handed to the wizard-store write is always terminal —
/// completed, at the final step, both models downloaded — before any
/// relational write is even considered; and after the summary write, the
/// transcription write is the next action whether the summary write
/// succeeded or failed, so one capability's failure never prevents the
/// other's attempt. A failed wizard-store write finishes the run at once:
/// no relational write is issued for it, and the completed flag already
/// written is never rolled back.
pub fn complete_step(phase: CompletePhase, event: CompleteEvent) -> (r: (
    CompletePhase,
    CompleteAction,
))
    requires
        phase_accepts(phase, event),
    ensures
        (phase matches CompletePhase::AwaitLoad { summary_model } ==> (r.0
            == (CompletePhase::AwaitSave { summary_model }) && (r.1
            matches CompleteAction::SaveStatus(c) && c@.wf_core() && c@.completed == true
            && c@.current_step == 5 && (event matches CompleteEvent::Loaded(ev) ==> exists|
            t: Seq<char>,
        | safe_seq(t) && c@ == complete_spec(loaded_status(ev, t)))))),
        (phase matches CompletePhase::AwaitSave { summary_model } ==> (match event {
            CompleteEvent::Saved(Ok(())) => r.0 is AwaitSummaryWrite && (
            r.1 matches CompleteAction::WriteSummaryConfig(cfg) && cfg.provider@ == "builtin-ai"@
                && cfg.model@ == summary_model@ && cfg.aux_model@ == "large-v3"@ && cfg.endpoint
                is None),
            CompleteEvent::Saved(Err(e)) => (r.0 matches CompletePhase::Finished { failed }
                && failed matches Some(m) && m@ == "Failed to save completed onboarding status: "@
                + store_error_message(e) && r.1 == CompleteAction::Report(Some(m))),
            _ => true,
        })),
        (phase is AwaitSummaryWrite ==> ((r.1
            matches CompleteAction::WriteTranscriptConfig(cfg) && cfg.provider@ == "parakeet"@
            && cfg.model@ == "parakeet-tdt-0.6b-v3-int8"@) && (match event {
            CompleteEvent::SummaryWritten(Ok(())) => r.0 == (CompletePhase::AwaitTranscriptWrite {
                summary_error: None,
            }),
            CompleteEvent::SummaryWritten(Err(d)) => (r.0
                matches CompletePhase::AwaitTranscriptWrite { summary_error: Some(m) } && m@
                == "Failed to save summary model config: "@ + d@),
            _ => true,
        }))),
        (phase matches CompletePhase::AwaitTranscriptWrite { summary_error } ==> (match event {
            CompleteEvent::TranscriptWritten(res) => (match (summary_error, res) {
                (None, Ok(())) => r.0 == (CompletePhase::Finished { failed: None }) && r.1
                    == CompleteAction::Report(None),
                (Some(se), Ok(())) => (r.0 matches CompletePhase::Finished { failed: Some(m) } && m
                    == se && r.1 == CompleteAction::Report(Some(m))),
                (None, Err(d)) => (r.0 matches CompletePhase::Finished { failed: Some(m) } && m@
                    == "Failed to save transcription model config: "@ + d@ && r.1
                    == CompleteAction::Report(Some(m))),
                (Some(se), Err(d)) => (r.0 matches CompletePhase::Finished { failed: Some(m) } && m@
                    == se@ + "; "@ + "Failed to save transcription model config: "@ + d@ && r.1
                    == CompleteAction::Report(Some(m))),
            }),
            _ => true,
        })),
{
    match phase {
        CompletePhase::AwaitLoad { summary_model } => {
            let ev = match event {
                CompleteEvent::Loaded(ev) => ev,
                _ => unreached(),
            };
            let ghost gev = ev;
            let (mut status, _source) = resolve_load(ev);
            let ghost lt = status@.last_updated;
            status.mark_complete();
            proof {
                match gev {
                    StoreReadEvent::Found(doc) => {
                        match parse_spec(doc@) {
                            Some(_) => {
                                assert(safe_seq(Seq::<char>::empty()) && status@ == complete_spec(
                                    loaded_status(gev, Seq::<char>::empty()),
                                ));
                            },
                            None => {
                                assert(safe_seq(lt) && status@ == complete_spec(
                                    loaded_status(gev, lt),
                                ));
                            },
                        }
                    },
                    _ => {
                        assert(safe_seq(lt) && status@ == complete_spec(loaded_status(gev, lt)));
                    },
                }
            }
            (
                CompletePhase::AwaitSave { summary_model },
                CompleteAction::SaveStatus(status),
            )
        },
        CompletePhase::AwaitSave { summary_model } => {
            let res = match event {
                CompleteEvent::Saved(res) => res,
                _ => unreached(),
            };
            match res {
                Ok(()) => (
                    CompletePhase::AwaitSummaryWrite,
                    CompleteAction::WriteSummaryConfig(
                        ModelConfig {
                            provider: String::from_str("builtin-ai"),
                            model: summary_model,
                            aux_model: String::from_str("large-v3"),
                            endpoint: None,
                        },
                    ),
                ),
                Err(e) => {
                    let mut m = String::from_str("Failed to save completed onboarding status: ");
                    m.append(e.message().as_str());
                    (
                        CompletePhase::Finished { failed: Some(m.clone()) },
                        CompleteAction::Report(Some(m)),
                    )
                },
            }
        },
        CompletePhase::AwaitSummaryWrite => {
            let res = match event {
                CompleteEvent::SummaryWritten(res) => res,
                _ => unreached(),
            };
            let summary_error = match res {
                Ok(()) => None,
                Err(d) => {
                    let mut m = String::from_str("Failed to save summary model config: ");
                    m.append(d.as_str());
                    Some(m)
                },
            };
            (
                CompletePhase::AwaitTranscriptWrite { summary_error },
                CompleteAction::WriteTranscriptConfig(
                    TranscriptConfig {
                        provider: String::from_str("parakeet"),
                        model: String::from_str("parakeet-tdt-0.6b-v3-int8"),
                    },
                ),
            )
        },
        CompletePhase::AwaitTranscriptWrite { summary_error } => {
            let res = match event {
                CompleteEvent::TranscriptWritten(res) => res,
                _ => unreached(),
            };
            let failed: Option<String> = match (summary_error, res) {
                (None, Ok(())) => None,
                (Some(se), Ok(())) => Some(se),
                (None, Err(d)) => {
                    let mut m = String::from_str("Failed to save transcription model config: ");
                    m.append(d.as_str());
                    Some(m)
                },
                (Some(se), Err(d)) => {
                    let mut m = se;
                    m.append("; ");
                    m.append("Failed to save transcription model config: ");
                    m.append(d.as_str());
                    Some(m)
                },
            };
            match failed {
                None => (
                    CompletePhase::Finished { failed: None },
                    CompleteAction::Report(None),
                ),
                Some(m) => (
                    CompletePhase::Finished { failed: Some(m.clone()) },
                    CompleteAction::Report(Some(m)),
                ),
            }
        },
        CompletePhase::Finished { .. } => unreached(),
    }
}

/// The law behind the completion design: the terminal status derived from
/// any well-formed loaded status, once stamped and saved, reads back from
/// the document store as completed and at the final step — whatever a later
/// relational write does.
pub proof fn lemma_completion_persists(v: StatusView, t: Seq<char>, t2: Seq<char>)
    requires
        v.wf_core(),
        safe_seq(t),
    ensures
        crate::store::load_slot(crate::store::save_slot(complete_spec(v), t), t2).0.completed
            == true,
        crate::store::load_slot(crate::store::save_slot(complete_spec(v), t), t2).0.current_step
            == 5,
        crate::store::load_slot(crate::store::save_slot(complete_spec(v), t), t2).1
            == crate::store::LoadSource::Stored,
{
    crate::store::lemma_load_after_save(complete_spec(v), t, t2);
}

} // verus!
