//! Soft-error normalization shared by the listing operations: any failure
//! whose text carries a connection-refused indicator is rewritten to one
//! fixed, user-facing message; every other failure text passes through
//! unmodified.

use vstd::prelude::*;

use crate::text::chars_of;
use crate::text::contains_chars;
use crate::text::spec_contains;

verus! {

/// The normalized form of a listing failure's text.
pub open spec fn spec_normalized_error(e: Seq<char>) -> Seq<char> {
    if spec_contains(e, "connection refused"@) {
        "Connection refused. Is the cluster running?"@
    } else {
        e
    }
}

/// Rewrite a connection-refused failure to the fixed user-facing message;
/// leave every other failure text unchanged.
pub fn normalize_list_error(e: &str) -> (r: String)
    ensures
        r@ == spec_normalized_error(e@),
{
    let hay = chars_of(e);
    let pat = chars_of("connection refused");
    if contains_chars(&hay, &pat) {
        "Connection refused. Is the cluster running?".to_owned()
    } else {
        e.to_owned()
    }
}

/// Any failure text carrying the connection-refused indicator normalizes
/// to exactly the fixed user-facing message; any other text passes
/// through unchanged. This is the soft-error rule shared by resource
/// listing, workload listing, and cluster health snapshots.
pub proof fn lemma_connection_refused_rewrite(e: Seq<char>)
    ensures
        spec_contains(e, "connection refused"@) ==> spec_normalized_error(e)
            == "Connection refused. Is the cluster running?"@,
        !spec_contains(e, "connection refused"@) ==> spec_normalized_error(e) == e,
{
}

} // verus!
