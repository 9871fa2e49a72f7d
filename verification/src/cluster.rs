//! Cluster health snapshots: fold the outcome of a node listing into a
//! status record with a normalized soft error.

use vstd::prelude::*;

use crate::errors::normalize_list_error;
use crate::errors::spec_normalized_error;
use crate::types::view_opt_str;
use crate::types::ClusterStatus;

verus! {

/// Fold a node-listing outcome into a health snapshot: a successful
/// listing reports `"Healthy"` and the node count; a failure reports
/// `"Error"`, zero nodes, and the normalized failure text as a soft
/// error.
pub fn get_info(outcome: Result<usize, String>) -> (r: ClusterStatus)
    ensures
        match outcome {
            Ok(n) => r.status@ == "Healthy"@ && r.node_count == n && r.error is None,
            Err(e) => r.status@ == "Error"@ && r.node_count == 0 && view_opt_str(r.error) == Some(
                spec_normalized_error(e@),
            ),
        },
{
    match outcome {
        Ok(n) => ClusterStatus { status: "Healthy".to_owned(), node_count: n, error: None },
        Err(e) => ClusterStatus {
            status: "Error".to_owned(),
            node_count: 0,
            error: Some(normalize_list_error(e.as_str())),
        },
    }
}

/// A source of placeholder values. Implementors supply the value; no
/// behaviour is promised of it, so nothing downstream may depend on what
/// comes back.
pub trait Random: Sized {
    fn random() -> Self;
}

/// Draw a placeholder value from an implementor of [`Random`].
pub fn random<T: Random>() -> T {
    T::random()
}

} // verus!
