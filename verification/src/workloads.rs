//! The workload (pod) lister: a richer projection than the generic
//! resource shape, adding the first container's image, the lifecycle
//! phase, and a coarse uptime rendering.

use vstd::prelude::*;

use crate::errors::normalize_list_error;
use crate::errors::spec_normalized_error;
use crate::resources::or_default_namespace;
use crate::resources::or_empty;
use crate::text::int_str;
use crate::text::spec_int_str;
use crate::types::view_opt_str;
use crate::types::PodFields;
use crate::types::PodFieldsView;
use crate::types::Workload;
use crate::types::WorkloadView;
use crate::types::WorkloadsResponse;

verus! {

/// The coarse rendering of an uptime of `h` whole hours: days when more
/// than 24 hours have passed (integer division, floor), plain hours
/// otherwise.
pub open spec fn spec_uptime(h: int) -> Seq<char> {
    if h > 24 {
        spec_int_str(h / 24).push('d')
    } else {
        spec_int_str(h).push('h')
    }
}

/// The uptime string for an optionally reported elapsed-hours figure:
/// absent start times render as zero hours.
pub open spec fn spec_uptime_opt(h: Option<int>) -> Seq<char> {
    match h {
        Some(v) => spec_uptime(v),
        None => spec_uptime(0),
    }
}

/// Render an uptime of `h` whole hours.
pub fn format_uptime(h: i64) -> (r: String)
    ensures
        r@ == spec_uptime(h as int),
{
    if h > 24 {
        let r = int_str(h / 24).concat("d");
        proof {
            reveal_strlit("d");
            assert(r@ =~= spec_uptime(h as int));
        }
        r
    } else {
        let r = int_str(h).concat("h");
        proof {
            reveal_strlit("h");
            assert(r@ =~= spec_uptime(h as int));
        }
        r
    }
}

/// The image shown for a pod: the image reference of its first declared
/// container, or the literal `"unknown"` when there is no container or
/// the image is unset.
pub open spec fn spec_pod_image(p: PodFieldsView) -> Seq<char> {
    if p.containers.len() > 0 {
        match p.containers[0].image {
            Some(img) => img,
            None => "unknown"@,
        }
    } else {
        "unknown"@
    }
}

/// The workload row derived from one pod: metadata defaults mirror the
/// generic projection, the status is the reported phase or `"Unknown"`,
/// the replica count is fixed at one (pod granularity), and the context
/// identifier is copied verbatim from the caller.
pub open spec fn spec_workload(p: PodFieldsView, context_id: Seq<char>) -> WorkloadView {
    WorkloadView {
        id: or_empty(p.uid),
        name: or_empty(p.name),
        namespace: or_default_namespace(p.namespace),
        image: spec_pod_image(p),
        context_id: context_id,
        status: match p.phase {
            Some(ph) => ph,
            None => "Unknown"@,
        },
        replicas: 1,
        uptime: spec_uptime_opt(p.start_hours),
    }
}

/// The views of a vector of workloads.
pub open spec fn workload_views(s: Seq<Workload>) -> Seq<WorkloadView> {
    s.map(|i: int, w: Workload| w@)
}

/// The views of a vector of pod records.
pub open spec fn pod_views(s: Seq<PodFields>) -> Seq<PodFieldsView> {
    s.map(|i: int, p: PodFields| p@)
}

/// The projection of a whole pod listing.
pub open spec fn spec_workloads(ps: Seq<PodFieldsView>, context_id: Seq<char>) -> Seq<
    WorkloadView,
> {
    ps.map(|i: int, p: PodFieldsView| spec_workload(p, context_id))
}

/// Project one pod into its workload row.
pub fn project_workload(p: &PodFields, context_id: &str) -> (w: Workload)
    ensures
        w@ == spec_workload(p@, context_id@),
{
    let id = match &p.uid {
        Some(u) => u.clone(),
        None => String::new(),
    };
    let name = match &p.name {
        Some(n) => n.clone(),
        None => String::new(),
    };
    let namespace = match &p.namespace {
        Some(ns) => ns.clone(),
        None => "default".to_owned(),
    };
    let image = if p.containers.len() > 0 {
        match &p.containers[0].image {
            Some(img) => img.clone(),
            None => "unknown".to_owned(),
        }
    } else {
        "unknown".to_owned()
    };
    let status = match &p.phase {
        Some(ph) => ph.clone(),
        None => "Unknown".to_owned(),
    };
    let uptime = match p.start_hours {
        Some(h) => format_uptime(h),
        None => format_uptime(0),
    };
    proof {
        assert(p@.containers.len() == p.containers@.len());
        if p.containers@.len() > 0 {
            assert(p@.containers[0] == p.containers@[0]@);
        }
    }
    Workload {
        id,
        name,
        namespace,
        image,
        context_id: context_id.to_owned(),
        status,
        replicas: 1,
        uptime,
    }
}

/// Project every listed pod, in order.
pub fn project_workloads(ps: &Vec<PodFields>, context_id: &str) -> (r: Vec<Workload>)
    ensures
        workload_views(r@) == spec_workloads(pod_views(ps@), context_id@),
{
    let mut r: Vec<Workload> = Vec::new();
    let mut i: usize = 0;
    while i < ps.len()
        invariant
            i <= ps@.len(),
            r@.len() == i,
            forall|j: int|
                0 <= j < i ==> (#[trigger] r@[j])@ == spec_workload(ps@[j]@, context_id@),
        decreases ps@.len() - i,
    {
        r.push(project_workload(&ps[i], context_id));
        i = i + 1;
    }
    proof {
        assert forall|j: int| 0 <= j < ps@.len() implies workload_views(r@)[j] == spec_workloads(
            pod_views(ps@),
            context_id@,
        )[j] by {
            assert(r@[j]@ == spec_workload(ps@[j]@, context_id@));
        }
        assert(workload_views(r@) =~= spec_workloads(pod_views(ps@), context_id@));
    }
    r
}

/// Fold a pod-listing outcome into the stable workloads response: a
/// successful listing is projected row by row; a failure is embedded as
/// a normalized soft error over empty items.
pub fn get_workloads(outcome: Result<Vec<PodFields>, String>, context_id: &str) -> (r:
    WorkloadsResponse)
    ensures
        match outcome {
            Ok(ps) => workload_views(r.items@) == spec_workloads(pod_views(ps@), context_id@)
                && r.error is None,
            Err(e) => r.items@.len() == 0 && view_opt_str(r.error) == Some(
                spec_normalized_error(e@),
            ),
        },
{
    match outcome {
        Ok(ps) => WorkloadsResponse { items: project_workloads(&ps, context_id), error: None },
        Err(e) => WorkloadsResponse {
            items: Vec::new(),
            error: Some(normalize_list_error(e.as_str())),
        },
    }
}

} // verus!
