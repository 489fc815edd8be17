//! The current time, from chrono.
use vstd::prelude::*;

verus! {

/// Whether `s` has the length and the ending of an RFC 3339 time in UTC: at
/// least `YYYY-MM-DDTHH:MM:SS+00:00`.
pub open spec fn utc_time_shaped(s: Seq<char>) -> bool {
    s.len() >= 25 && s.subrange(s.len() - 6, s.len() as int) == "+00:00"@
}

/// Relies on chrono's `From<SystemTime> for DateTime<Utc>` and
/// DateTime::to_rfc3339: the system time in UTC written as RFC 3339, with the
/// seconds' fraction only where it is non-zero and the offset written `+00:00`.
/// A clock set before 1970 is converted too; only a time beyond chrono's range
/// of about 262,000 years from 1970 would panic.
#[verifier::external_body]
pub(crate) fn utc_now_rfc3339() -> (r: String)
    ensures
        utc_time_shaped(r@),
{
    chrono::DateTime::<chrono::Utc>::from(std::time::SystemTime::now()).to_rfc3339()
}

} // verus!
