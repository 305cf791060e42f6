//! The command surface: the four caller-facing operations, each a thin
//! wrapper that delegates to the store adapter and collapses its errors to
//! caller-facing strings prefixed with the operation that failed. The
//! completion operation is the machine of `complete`.

use vstd::prelude::*;
use vstd::string::StringExecFns;

use crate::codec::parse_spec;
use crate::status::OnboardingStatus;
use crate::status::safe_seq;
use crate::store::StatusStore;
use crate::store::StoreError;
use crate::store::is_default_status;
use crate::store::load_onboarding_status;
use crate::store::reset_onboarding_status;
use crate::store::reset_slot;
use crate::store::save_onboarding_status;
use crate::store::save_slot;
use crate::store::store_error_message;

verus! {

/// Get the status: `None` means "never initialized" — no document is
/// stored — as opposed to `Some` of a stored (or defaulted) document.
pub fn get_onboarding_status(store: &StatusStore) -> (r: Option<OnboardingStatus>)
    ensures
        (store@ is None ==> r is None),
        (store@ matches Some(doc) ==> (r matches Some(st) && (match parse_spec(doc) {
            Some(v) => st@ == v,
            None => is_default_status(st@),
        }))),
{
    if store.has_document() {
        let (status, _source) = load_onboarding_status(store);
        Some(status)
    } else {
        None
    }
}

/// Save the status, reporting any write failure as a prefixed message.
pub fn save_onboarding_status_cmd(store: &mut StatusStore, status: &OnboardingStatus) -> (r: Result<
    (),
    String,
>)
    ensures
        (status@.wf_core() ==> (r is Ok && exists|t: Seq<char>|
            safe_seq(t) && final(store)@ == save_slot(status@, t))),
        (!status@.wf_core() ==> (r matches Err(m) && m@ == "Failed to save onboarding status: "@
            + store_error_message(StoreError::SerializeRejected) && final(store)@ == old(store)@)),
{
    match save_onboarding_status(store, status) {
        Ok(()) => Ok(()),
        Err(e) => {
            let mut m = String::from_str("Failed to save onboarding status: ");
            m.append(e.message().as_str());
            Err(m)
        },
    }
}

/// Reset the status: afterwards the store reads as never initialized.
/// Deleting an absent document is not an error, so the reset of this
/// in-memory adapter always succeeds; a caller that mirrors the store to
/// durable storage reports its own flush failure with
/// `StoreError::FlushFailed`.
pub fn reset_onboarding_status_cmd(store: &mut StatusStore) -> (r: Result<(), String>)
    ensures
        r is Ok,
        final(store)@ == reset_slot(old(store)@),
{
    reset_onboarding_status(store);
    Ok(())
}

} // verus!
