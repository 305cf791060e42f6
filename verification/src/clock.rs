//! The one outside computation the library needs: the current time as an
//! RFC 3339 timestamp.

use vstd::prelude::*;

use crate::status::safe_seq;

verus! {

/// Relies on chrono: `From<SystemTime> for DateTime<Utc>` turns the system
/// clock into a date (handling a clock before the Unix epoch without
/// panicking; only a clock outside chrono's representable ±262,000-year
/// span, which no real clock reaches, is not covered), and `to_rfc3339`
/// formats it as an RFC 3339 timestamp, whose characters are drawn from
/// digits, `-`, `:`, `T`, `.` and `+` — printable ASCII with no quote and
/// no backslash. The value itself depends on the clock, so nothing more is
/// stated of it.
#[verifier::external_body]
pub(crate) fn now_rfc3339() -> (r: String)
    ensures
        safe_seq(r@),
{
    chrono::DateTime::<chrono::Utc>::from(std::time::SystemTime::now()).to_rfc3339()
}

} // verus!
