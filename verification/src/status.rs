//! The wizard status document: its data model, mathematical view,
//! well-formedness, and the basic transitions (defaulting, stamping,
//! marking complete).

use vstd::prelude::*;

use crate::clock::now_rfc3339;

verus! {

/// Download state of one model capability.
#[derive(Clone, Copy, Debug, PartialEq, Eq, Structural)]
pub enum ModelState {
    NotDownloaded,
    Downloading,
    Downloaded,
}

/// Per-capability download state carried by the wizard document.
#[derive(Clone, Copy, Debug, PartialEq, Eq, Structural)]
pub struct ModelStatus {
    pub parakeet: ModelState,
    pub summary: ModelState,
}

/// The wizard progress document, as persisted in the document store.
#[derive(Clone, Debug)]
pub struct OnboardingStatus {
    /// Schema tag, fixed at "1.0" for this revision.
    pub version: String,
    /// Set true only by the completion transition.
    pub completed: bool,
    /// Step counter of the five-step wizard flow.
    pub current_step: u8,
    /// Download state of the two model capabilities.
    pub model_status: ModelStatus,
    /// Timestamp of the most recent successful persistence, never
    /// user-supplied: every persisted write overwrites it.
    pub last_updated: String,
}

/// Mathematical view of an `OnboardingStatus`.
#[verifier::ext_equal]
pub ghost struct StatusView {
    pub version: Seq<char>,
    pub completed: bool,
    pub current_step: int,
    pub model_status: ModelStatus,
    pub last_updated: Seq<char>,
}

impl View for OnboardingStatus {
    type V = StatusView;

    open spec fn view(&self) -> StatusView {
        StatusView {
            version: self.version@,
            completed: self.completed,
            current_step: self.current_step as int,
            model_status: self.model_status,
            last_updated: self.last_updated@,
        }
    }
}

/// A character that may stand unescaped inside a JSON string of the
/// status document: printable ASCII, no quote, no backslash.
pub open spec fn safe_char(c: char) -> bool {
    c != '"' && c != '\\' && 0x20 <= c as u32 && c as u32 <= 0x7e
}

/// Every character of the sequence is `safe_char`.
pub open spec fn safe_seq(s: Seq<char>) -> bool {
    forall|i: int| 0 <= i < s.len() ==> safe_char(#[trigger] s[i])
}

impl StatusView {
    /// The schema constraints of the current revision: version tag "1.0"
    /// and a step inside the five-step flow.
    pub open spec fn wf_core(self) -> bool {
        &&& self.version == "1.0"@
        &&& 1 <= self.current_step <= 5
    }

    /// A document the codec can persist and read back: schema constraints
    /// plus a timestamp free of characters that would need escaping.
    pub open spec fn wf(self) -> bool {
        self.wf_core() && safe_seq(self.last_updated)
    }
}

/// The view after overwriting the timestamp, all other fields kept.
pub open spec fn stamp_spec(v: StatusView, t: Seq<char>) -> StatusView {
    StatusView { last_updated: t, ..v }
}

/// The terminal view of the completion transition: completed, at the
/// final step, both models downloaded; version and timestamp kept.
pub open spec fn complete_spec(v: StatusView) -> StatusView {
    StatusView {
        completed: true,
        current_step: 5,
        model_status: ModelStatus {
            parakeet: ModelState::Downloaded,
            summary: ModelState::Downloaded,
        },
        ..v
    }
}

/// The default document: wizard not completed, at the first step, no
/// model downloaded, stamped with the given timestamp.
pub open spec fn default_spec(t: Seq<char>) -> StatusView {
    StatusView {
        version: "1.0"@,
        completed: false,
        current_step: 1,
        model_status: ModelStatus {
            parakeet: ModelState::NotDownloaded,
            summary: ModelState::NotDownloaded,
        },
        last_updated: t,
    }
}

/// Equality of every field but the timestamp.
pub open spec fn eq_except_last_updated(a: StatusView, b: StatusView) -> bool {
    &&& a.version == b.version
    &&& a.completed == b.completed
    &&& a.current_step == b.current_step
    &&& a.model_status == b.model_status
}

impl OnboardingStatus {
    /// Overwrite the timestamp, keeping every other field.
    pub fn stamp(&mut self, t: String)
        ensures
            final(self)@ == stamp_spec(old(self)@, t@),
    {
        self.last_updated = t;
    }

    /// The completion transition: mark completed, advance to the terminal
    /// step, mark both models downloaded.
    pub fn mark_complete(&mut self)
        ensures
            final(self)@ == complete_spec(old(self)@),
    {
        self.completed = true;
        self.current_step = 5;
        self.model_status.parakeet = ModelState::Downloaded;
        self.model_status.summary = ModelState::Downloaded;
    }

    /// A copy of the document, field for field.
    pub fn clone_status(&self) -> (r: Self)
        ensures
            r@ == self@,
    {
        OnboardingStatus {
            version: self.version.clone(),
            completed: self.completed,
            current_step: self.current_step,
            model_status: self.model_status,
            last_updated: self.last_updated.clone(),
        }
    }

    /// Whether the document meets the schema constraints and carries a
    /// timestamp the codec can persist.
    pub fn is_well_formed(&self) -> (r: bool)
        ensures
            r == self@.wf(),
    {
        let version_ok = version_tag_ok(&self.version);
        let step_ok = 1 <= self.current_step && self.current_step <= 5;
        let time_ok = all_safe(self.last_updated.as_str());
        version_ok && step_ok && time_ok
    }
}

/// Whether the string is exactly the schema tag "1.0".
fn version_tag_ok(v: &String) -> (r: bool)
    ensures
        r == (v@ == "1.0"@),
{
    let tag = String::from_str("1.0");
    *v == tag
}

/// Whether every character of the string is `safe_char`.
pub fn all_safe(s: &str) -> (r: bool)
    ensures
        r == safe_seq(s@),
{
    let n = s.unicode_len();
    let mut i: usize = 0;
    while i < n
        invariant
            i <= n,
            n == s@.len(),
            forall|k: int| 0 <= k < i ==> safe_char(#[trigger] s@[k]),
        decreases n - i,
    {
        let c = s.get_char(i);
        let u = c as u32;
        if c == '"' || c == '\\' || u < 0x20 || u > 0x7e {
            return false;
        }
        i += 1;
    }
    true
}

impl Default for OnboardingStatus {
    /// The default document of §status: not completed, first step, no
    /// model downloaded, stamped with the current time.
    fn default() -> (r: Self)
        ensures
            r@ == default_spec(r@.last_updated),
            safe_seq(r@.last_updated),
    {
        OnboardingStatus {
            version: String::from_str("1.0"),
            completed: false,
            current_step: 1,
            model_status: ModelStatus {
                parakeet: ModelState::NotDownloaded,
                summary: ModelState::NotDownloaded,
            },
            last_updated: now_rfc3339(),
        }
    }
}

impl PartialEq for OnboardingStatus {
    fn eq(&self, other: &Self) -> (r: bool) {
        self.version == other.version && self.completed == other.completed
            && self.current_step == other.current_step && self.model_status == other.model_status
            && self.last_updated == other.last_updated
    }
}

impl vstd::std_specs::cmp::PartialEqSpecImpl for OnboardingStatus {
    open spec fn obeys_eq_spec() -> bool {
        true
    }

    open spec fn eq_spec(&self, other: &Self) -> bool {
        self@ == other@
    }
}

} // verus!
