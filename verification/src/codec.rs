//! The canonical JSON form of the status document, with a serializer and a
//! parser that are proved inverse to one another on well-formed documents.
//! A document that is not in canonical form — another schema, another field
//! order, damaged text — parses to `None`, which the store adapter turns
//! into the default status.

use vstd::prelude::*;
use vstd::string::StrSliceExecFns;
use vstd::string::StringExecFns;

use crate::status::ModelState;
use crate::status::ModelStatus;
use crate::status::OnboardingStatus;
use crate::status::StatusView;
use crate::status::safe_seq;

verus! {

// The fixed pieces of the canonical document
//   {"version":"V","completed":B,"current_step":D,
//    "model_status":{"parakeet":"M1","summary":"M2"},"last_updated":"U"}
// written as one line, in the field order of the struct.

pub open spec fn lit_head() -> Seq<char> {
    "{\"version\":\""@
}

pub open spec fn lit_completed() -> Seq<char> {
    "\",\"completed\":"@
}

pub open spec fn lit_step() -> Seq<char> {
    ",\"current_step\":"@
}

pub open spec fn lit_models() -> Seq<char> {
    ",\"model_status\":{\"parakeet\":\""@
}

pub open spec fn lit_summary() -> Seq<char> {
    "\",\"summary\":\""@
}

pub open spec fn lit_last() -> Seq<char> {
    "\"},\"last_updated\":\""@
}

pub open spec fn lit_tail() -> Seq<char> {
    "\"}"@
}

/// The JSON spelling of a boolean.
pub open spec fn bool_seq(b: bool) -> Seq<char> {
    if b {
        "true"@
    } else {
        "false"@
    }
}

/// The token naming a model download state.
pub open spec fn state_seq(m: ModelState) -> Seq<char> {
    match m {
        ModelState::NotDownloaded => "not_downloaded"@,
        ModelState::Downloading => "downloading"@,
        ModelState::Downloaded => "downloaded"@,
    }
}

/// The digit spelling a step of the five-step flow; steps outside it get
/// a digit no well-formed document carries.
pub open spec fn digit_char(step: int) -> char {
    if step == 1 {
        '1'
    } else if step == 2 {
        '2'
    } else if step == 3 {
        '3'
    } else if step == 4 {
        '4'
    } else if step == 5 {
        '5'
    } else {
        '0'
    }
}

/// The canonical serialization of a status document.
pub open spec fn ser_spec(v: StatusView) -> Seq<char> {
    lit_head() + v.version + lit_completed() + bool_seq(v.completed) + lit_step()
        + seq![digit_char(v.current_step)] + lit_models() + state_seq(v.model_status.parakeet)
        + lit_summary() + state_seq(v.model_status.summary) + lit_last() + v.last_updated
        + lit_tail()
}

/// Reveal every literal the canonical form is built of.
proof fn reveal_lits()
    ensures
        lit_head().len() == 12,
        lit_completed().len() == 14,
        lit_step().len() == 16,
        lit_models().len() == 29,
        lit_summary().len() == 13,
        lit_last().len() == 19,
        lit_tail().len() == 2,
        bool_seq(true).len() == 4,
        bool_seq(false).len() == 5,
        state_seq(ModelState::NotDownloaded).len() == 14,
        state_seq(ModelState::Downloading).len() == 11,
        state_seq(ModelState::Downloaded).len() == 10,
        "1.0"@.len() == 3,
{
    reveal_strlit("{\"version\":\"");
    reveal_strlit("\",\"completed\":");
    reveal_strlit(",\"current_step\":");
    reveal_strlit(",\"model_status\":{\"parakeet\":\"");
    reveal_strlit("\",\"summary\":\"");
    reveal_strlit("\"},\"last_updated\":\"");
    reveal_strlit("\"}");
    reveal_strlit("true");
    reveal_strlit("false");
    reveal_strlit("not_downloaded");
    reveal_strlit("downloading");
    reveal_strlit("downloaded");
    reveal_strlit("1.0");
}

/// The token of a model state, as an executable string.
fn state_str(m: ModelState) -> (r: &'static str)
    ensures
        r@ == state_seq(m),
{
    match m {
        ModelState::NotDownloaded => "not_downloaded",
        ModelState::Downloading => "downloading",
        ModelState::Downloaded => "downloaded",
    }
}

/// The digit of a step, as an executable string of one character.
fn step_str(step: u8) -> (r: &'static str)
    ensures
        r@ =~= seq![digit_char(step as int)],
{
    proof {
        reveal_strlit("1");
        reveal_strlit("2");
        reveal_strlit("3");
        reveal_strlit("4");
        reveal_strlit("5");
        reveal_strlit("0");
    }
    match step {
        1u8 => "1",
        2u8 => "2",
        3u8 => "3",
        4u8 => "4",
        5u8 => "5",
        _ => "0",
    }
}

/// Serialize a status document into its canonical form.
pub fn serialize_status(s: &OnboardingStatus) -> (r: String)
    ensures
        r@ == ser_spec(s@),
{
    let mut out = String::new();
    out.append("{\"version\":\"");
    out.append(s.version.as_str());
    out.append("\",\"completed\":");
    if s.completed {
        out.append("true");
    } else {
        out.append("false");
    }
    out.append(",\"current_step\":");
    out.append(step_str(s.current_step));
    out.append(",\"model_status\":{\"parakeet\":\"");
    out.append(state_str(s.model_status.parakeet));
    out.append("\",\"summary\":\"");
    out.append(state_str(s.model_status.summary));
    out.append("\"},\"last_updated\":\"");
    out.append(s.last_updated.as_str());
    out.append("\"}");
    proof {
        assert(out@ =~= ser_spec(s@));
    }
    out
}

/// The step named by a digit; characters no canonical document carries
/// at the step position map to a step no well-formed document has.
pub open spec fn digit_val(c: char) -> int {
    if c == '1' {
        1
    } else if c == '2' {
        2
    } else if c == '3' {
        3
    } else if c == '4' {
        4
    } else if c == '5' {
        5
    } else {
        0
    }
}

/// The model-state token found at position `i` of `s`, if any; reading is
/// unambiguous because no token is a prefix of another.
pub open spec fn token_read_spec(s: Seq<char>, i: int) -> ModelState {
    if i + 14 <= s.len() && s.subrange(i, i + 14) == state_seq(ModelState::NotDownloaded) {
        ModelState::NotDownloaded
    } else if i + 11 <= s.len() && s.subrange(i, i + 11) == state_seq(ModelState::Downloading) {
        ModelState::Downloading
    } else if i + 10 <= s.len() && s.subrange(i, i + 10) == state_seq(ModelState::Downloaded) {
        ModelState::Downloaded
    } else {
        ModelState::NotDownloaded
    }
}

/// Field extraction from a text in canonical position: the boolean decides
/// the offsets of everything after it, the tokens decide the offsets of the
/// timestamp. On a text that is no canonical document the result is
/// arbitrary but well defined; `lemma_extract_ser` shows that on canonical
/// documents it recovers the serialized value.
pub open spec fn extract_spec(s: Seq<char>) -> StatusView {
    let n = s.len() as int;
    let completed = n > 29 && s[29] == 't';
    let bl: int = if completed {
        4
    } else {
        5
    };
    let step: int = if 45 + bl < n {
        digit_val(s[45 + bl])
    } else {
        0
    };
    let par = token_read_spec(s, 75 + bl);
    let p2 = 88 + bl + state_seq(par).len() as int;
    let sum = token_read_spec(s, p2);
    let u_from = p2 + state_seq(sum).len() as int + 19;
    let lu = if u_from + 2 <= n {
        s.subrange(u_from, n - 2)
    } else {
        Seq::<char>::empty()
    };
    StatusView {
        version: "1.0"@,
        completed: completed,
        current_step: step,
        model_status: ModelStatus { parakeet: par, summary: sum },
        last_updated: lu,
    }
}

/// A token standing at position `i` is read back as itself.
proof fn lemma_token_read(s: Seq<char>, i: int, m: ModelState)
    requires
        0 <= i,
        i + state_seq(m).len() <= s.len(),
        s.subrange(i, i + state_seq(m).len() as int) == state_seq(m),
    ensures
        token_read_spec(s, i) == m,
{
    reveal_lits();
    reveal_strlit("not_downloaded");
    reveal_strlit("downloading");
    reveal_strlit("downloaded");
    match m {
        ModelState::NotDownloaded => {
        },
        ModelState::Downloading => {
            assert(s.subrange(i, i + 11)[0] == s[i]);
            assert(s[i] == 'd');
            if i + 14 <= s.len() {
                assert(s.subrange(i, i + 14)[0] == s[i]);
                assert(state_seq(ModelState::NotDownloaded)[0] == 'n');
                assert(s.subrange(i, i + 14)[0] != state_seq(ModelState::NotDownloaded)[0]);
                assert(s.subrange(i, i + 14) != state_seq(ModelState::NotDownloaded));
            }
        },
        ModelState::Downloaded => {
            assert(s.subrange(i, i + 10)[0] == s[i]);
            assert(s[i] == 'd');
            assert(s.subrange(i, i + 10)[8] == s[i + 8]);
            assert(s[i + 8] == 'e');
            if i + 14 <= s.len() {
                assert(s.subrange(i, i + 14)[0] == s[i]);
                assert(state_seq(ModelState::NotDownloaded)[0] == 'n');
                assert(s.subrange(i, i + 14)[0] != state_seq(ModelState::NotDownloaded)[0]);
                assert(s.subrange(i, i + 14) != state_seq(ModelState::NotDownloaded));
            }
            if i + 11 <= s.len() {
                assert(s.subrange(i, i + 11)[8] == s[i + 8]);
                assert(state_seq(ModelState::Downloading)[8] == 'i');
                assert(s.subrange(i, i + 11)[8] != state_seq(ModelState::Downloading)[8]);
                assert(s.subrange(i, i + 11) != state_seq(ModelState::Downloading));
            }
        },
    }
}

/// Extraction inverts serialization on well-formed documents.
#[verifier::rlimit(50)]
pub proof fn lemma_extract_ser(v: StatusView)
    requires
        v.wf(),
    ensures
        extract_spec(ser_spec(v)) == v,
{
    reveal_lits();
    reveal_strlit("true");
    reveal_strlit("false");
    let s = ser_spec(v);
    let bl = bool_seq(v.completed).len() as int;
    let t1 = state_seq(v.model_status.parakeet).len() as int;
    let t2 = state_seq(v.model_status.summary).len() as int;
    let ul = v.last_updated.len() as int;
    let n = s.len() as int;
    assert(v.version.len() == 3);
    assert(n == 109 + bl + t1 + t2 + ul);
    assert(s.subrange(29, 29 + bl) =~= bool_seq(v.completed));
    assert(s[45 + bl] == digit_char(v.current_step));
    assert(s.subrange(75 + bl, 75 + bl + t1) =~= state_seq(v.model_status.parakeet));
    assert(s.subrange(88 + bl + t1, 88 + bl + t1 + t2) =~= state_seq(v.model_status.summary));
    assert(s.subrange(107 + bl + t1 + t2, n - 2) =~= v.last_updated);

    let e = extract_spec(s);
    assert(s.subrange(29, 29 + bl)[0] == s[29]);
    assert(s[29] == bool_seq(v.completed)[0]);
    if v.completed {
        assert(bool_seq(true)[0] == 't');
    } else {
        assert(bool_seq(false)[0] == 'f');
    }
    assert(e.completed == v.completed);
    assert(digit_val(digit_char(v.current_step)) == v.current_step);
    assert(e.current_step == v.current_step);
    lemma_token_read(s, 75 + bl, v.model_status.parakeet);
    assert(e.model_status.parakeet == v.model_status.parakeet);
    lemma_token_read(s, 88 + bl + t1, v.model_status.summary);
    assert(e.model_status.summary == v.model_status.summary);
    assert(e.last_updated == v.last_updated);
    assert(e =~= v);
}

/// Serialization is injective on well-formed documents.
pub proof fn lemma_ser_injective(a: StatusView, b: StatusView)
    requires
        a.wf(),
        b.wf(),
        ser_spec(a) == ser_spec(b),
    ensures
        a == b,
{
    lemma_extract_ser(a);
    lemma_extract_ser(b);
}

/// What a text denotes: the unique well-formed document whose canonical
/// serialization it is, or nothing.
pub open spec fn parse_spec(s: Seq<char>) -> Option<StatusView> {
    if exists|v: StatusView| v.wf() && ser_spec(v) == s {
        Some(choose|v: StatusView| v.wf() && ser_spec(v) == s)
    } else {
        None
    }
}

/// Whether `lit` stands in `s` at position `i`.
fn match_lit(s: &str, i: usize, lit: &str) -> (b: bool)
    ensures
        b == (i + lit@.len() <= s@.len() && s@.subrange(i as int, i + lit@.len()) == lit@),
{
    let n = lit.unicode_len();
    let sn = s.unicode_len();
    if n > sn || i > sn - n {
        return false;
    }
    let mut j: usize = 0;
    while j < n
        invariant
            j <= n,
            i + n <= sn,
            sn == s@.len(),
            n == lit@.len(),
            forall|k: int| 0 <= k < j ==> s@[i + k] == lit@[k],
        decreases n - j,
    {
        if s.get_char(i + j) != lit.get_char(j) {
            proof {
                assert(s@.subrange(i as int, i + lit@.len())[j as int] == s@[i + j]);
            }
            return false;
        }
        j += 1;
    }
    proof {
        assert(s@.subrange(i as int, i + lit@.len()) =~= lit@);
    }
    true
}

/// Whether the view of `s` equals the view of `t`.
fn str_eq_string(s: &str, t: &String) -> (b: bool)
    ensures
        b == (s@ == t@),
{
    let n = s.unicode_len();
    let m = t.as_str().unicode_len();
    if n != m {
        proof {
            assert(s@.len() != t@.len());
        }
        return false;
    }
    let r = match_lit(s, 0, t.as_str());
    proof {
        assert(s@.subrange(0, s@.len() as int) =~= s@);
    }
    r
}

/// The length of a model-state token.
fn state_len(m: ModelState) -> (r: usize)
    ensures
        r == state_seq(m).len(),
        r <= 14,
{
    proof {
        reveal_lits();
    }
    match m {
        ModelState::NotDownloaded => 14,
        ModelState::Downloading => 11,
        ModelState::Downloaded => 10,
    }
}

/// Read the model-state token standing at position `i`, as
/// `token_read_spec` describes.
fn read_state(s: &str, i: usize) -> (m: ModelState)
    ensures
        m == token_read_spec(s@, i as int),
{
    proof {
        reveal_lits();
    }
    if match_lit(s, i, "not_downloaded") {
        ModelState::NotDownloaded
    } else if match_lit(s, i, "downloading") {
        ModelState::Downloading
    } else if match_lit(s, i, "downloaded") {
        ModelState::Downloaded
    } else {
        ModelState::NotDownloaded
    }
}

/// Parse a text as a canonical status document. Returns the unique
/// well-formed document the text serializes, and `None` on any text that
/// is not the canonical serialization of a well-formed document — another
/// schema, another field order, damaged text.
pub fn parse_status(s: &str) -> (r: Option<OnboardingStatus>)
    ensures
        match r {
            Some(st) => st@.wf() && ser_spec(st@) == s@ && parse_spec(s@) == Some(st@),
            None => parse_spec(s@) is None,
        },
{
    let n = s.unicode_len();
    let completed: bool = if n > 29 {
        s.get_char(29) == 't'
    } else {
        false
    };
    let bl: usize = if completed {
        4
    } else {
        5
    };
    let step_c: char = if 45 + bl < n {
        s.get_char(45 + bl)
    } else {
        '0'
    };
    let current_step: u8 = match step_c {
        '1' => 1,
        '2' => 2,
        '3' => 3,
        '4' => 4,
        '5' => 5,
        _ => 0,
    };
    let parakeet = read_state(s, 75 + bl);
    let p2 = 88 + bl + state_len(parakeet);
    let summary = read_state(s, p2);
    let u_from = p2 + state_len(summary) + 19;
    let last_updated: String = if u_from + 2 <= n {
        s.substring_char(u_from, n - 2).to_owned()
    } else {
        String::new()
    };
    let candidate = OnboardingStatus {
        version: String::from_str("1.0"),
        completed,
        current_step,
        model_status: ModelStatus { parakeet, summary },
        last_updated,
    };
    assert(current_step as int == digit_val(step_c));
    assert(candidate@ =~= extract_spec(s@));
    if candidate.is_well_formed() {
        let ser = serialize_status(&candidate);
        if str_eq_string(s, &ser) {
            proof {
                lemma_round_trip(candidate@);
            }
            return Some(candidate);
        }
        proof {
            if exists|w: StatusView| w.wf() && ser_spec(w) == s@ {
                let w = choose|w: StatusView| w.wf() && ser_spec(w) == s@;
                lemma_extract_ser(w);
                assert(candidate@ == w);
                assert(false);
            }
        }
        return None;
    }
    proof {
        if exists|w: StatusView| w.wf() && ser_spec(w) == s@ {
            let w = choose|w: StatusView| w.wf() && ser_spec(w) == s@;
            lemma_extract_ser(w);
            assert(candidate@ == w);
            assert(false);
        }
    }
    None
}

/// Round trip: parsing the canonical serialization of any well-formed
/// document gives back exactly that document.
pub proof fn lemma_round_trip(v: StatusView)
    requires
        v.wf(),
    ensures
        parse_spec(ser_spec(v)) == Some(v),
{
    assert(v.wf() && ser_spec(v) == ser_spec(v));
    let w = choose|w: StatusView| w.wf() && ser_spec(w) == ser_spec(v);
    lemma_ser_injective(w, v);
}

} // verus!
