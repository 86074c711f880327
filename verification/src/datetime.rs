use vstd::prelude::*;

use crate::model::Timestamp;
use crate::text::opt_string_view;

verus! {

/// The RFC 3339 text that chrono gives for the UTC instant `secs`
/// seconds and `nanos` nanoseconds after the Unix epoch, or `None` where
/// chrono cannot represent that instant.
pub uninterp spec fn rfc3339_text(secs: i64, nanos: u32) -> Option<Seq<char>>;

/// chrono's `DateTime::<Utc>::from_timestamp` followed by `to_rfc3339`:
/// the instant's RFC 3339 text, or `None` where the instant is out of chrono's range.
#[verifier::external_body]
pub(crate) fn to_rfc3339(t: Timestamp) -> (r: Option<String>)
    ensures
        opt_string_view(r) == rfc3339_text(t.secs, t.nanos),
{
    chrono::DateTime::from_timestamp(t.secs, t.nanos).map(|d| d.to_rfc3339())
}

} // verus!
