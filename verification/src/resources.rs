//! The resource-type registry and the generic listing normalizer: an
//! opaque type tag is dispatched against a closed set of supported kinds,
//! and every listing outcome is folded into a stable response shape.

use vstd::prelude::*;

use crate::errors::normalize_list_error;
use crate::errors::spec_normalized_error;
use crate::text::str_eq;
use crate::types::view_opt_str;
use crate::types::MetaFields;
use crate::types::MetaFieldsView;
use crate::types::Resource;
use crate::types::ResourceView;
use crate::types::ResourcesResponse;

verus! {

/// The closed set of resource kinds the registry can list.
#[derive(Clone, Copy, Debug, PartialEq, Eq, Structural)]
pub enum ResourceKind {
    Pods,
    Nodes,
    Services,
    ConfigMaps,
    Namespaces,
    Deployments,
    StatefulSets,
    DaemonSets,
    Ingresses,
    Secrets,
    Pvcs,
    ServiceAccounts,
}

/// The kind a resource-type tag names, if any. Matching is exact and
/// case-sensitive.
pub open spec fn spec_kind_of(tag: Seq<char>) -> Option<ResourceKind> {
    if tag == "Pods"@ {
        Some(ResourceKind::Pods)
    } else if tag == "Nodes"@ {
        Some(ResourceKind::Nodes)
    } else if tag == "Services"@ {
        Some(ResourceKind::Services)
    } else if tag == "ConfigMaps"@ {
        Some(ResourceKind::ConfigMaps)
    } else if tag == "Namespaces"@ {
        Some(ResourceKind::Namespaces)
    } else if tag == "Deployments"@ {
        Some(ResourceKind::Deployments)
    } else if tag == "StatefulSets"@ {
        Some(ResourceKind::StatefulSets)
    } else if tag == "DaemonSets"@ {
        Some(ResourceKind::DaemonSets)
    } else if tag == "Ingresses"@ {
        Some(ResourceKind::Ingresses)
    } else if tag == "Secrets"@ {
        Some(ResourceKind::Secrets)
    } else if tag == "PVCs"@ {
        Some(ResourceKind::Pvcs)
    } else if tag == "ServiceAccounts"@ {
        Some(ResourceKind::ServiceAccounts)
    } else {
        None
    }
}

/// Resolve a resource-type tag against the registry.
pub fn resource_kind_of(tag: &str) -> (r: Option<ResourceKind>)
    ensures
        r == spec_kind_of(tag@),
{
    if str_eq(tag, "Pods") {
        Some(ResourceKind::Pods)
    } else if str_eq(tag, "Nodes") {
        Some(ResourceKind::Nodes)
    } else if str_eq(tag, "Services") {
        Some(ResourceKind::Services)
    } else if str_eq(tag, "ConfigMaps") {
        Some(ResourceKind::ConfigMaps)
    } else if str_eq(tag, "Namespaces") {
        Some(ResourceKind::Namespaces)
    } else if str_eq(tag, "Deployments") {
        Some(ResourceKind::Deployments)
    } else if str_eq(tag, "StatefulSets") {
        Some(ResourceKind::StatefulSets)
    } else if str_eq(tag, "DaemonSets") {
        Some(ResourceKind::DaemonSets)
    } else if str_eq(tag, "Ingresses") {
        Some(ResourceKind::Ingresses)
    } else if str_eq(tag, "Secrets") {
        Some(ResourceKind::Secrets)
    } else if str_eq(tag, "PVCs") {
        Some(ResourceKind::Pvcs)
    } else if str_eq(tag, "ServiceAccounts") {
        Some(ResourceKind::ServiceAccounts)
    } else {
        None
    }
}

/// An optional character sequence, or the empty sequence when absent.
pub open spec fn or_empty(o: Option<Seq<char>>) -> Seq<char> {
    match o {
        Some(s) => s,
        None => Seq::empty(),
    }
}

/// An optional character sequence, or `"default"` when absent.
pub open spec fn or_default_namespace(o: Option<Seq<char>>) -> Seq<char> {
    match o {
        Some(s) => s,
        None => "default"@,
    }
}

/// The normalized projection of one object's metadata: the id is the
/// unique identifier, never the display name; a missing namespace becomes
/// `"default"`; missing fields otherwise become empty.
pub open spec fn spec_project_resource(m: MetaFieldsView) -> ResourceView {
    ResourceView {
        id: or_empty(m.uid),
        name: or_empty(m.name),
        namespace: or_default_namespace(m.namespace),
        creation_timestamp: or_empty(m.creation_timestamp),
    }
}

/// The views of a vector of resources.
pub open spec fn resource_views(s: Seq<Resource>) -> Seq<ResourceView> {
    s.map(|i: int, r: Resource| r@)
}

/// The views of a vector of metadata records.
pub open spec fn meta_views(s: Seq<MetaFields>) -> Seq<MetaFieldsView> {
    s.map(|i: int, m: MetaFields| m@)
}

/// The projection of a whole listing.
pub open spec fn spec_projected(ms: Seq<MetaFieldsView>) -> Seq<ResourceView> {
    ms.map(|i: int, m: MetaFieldsView| spec_project_resource(m))
}

/// Project one object's metadata into the normalized resource shape.
pub fn project_resource(m: &MetaFields) -> (r: Resource)
    ensures
        r@ == spec_project_resource(m@),
{
    let id = match &m.uid {
        Some(u) => u.clone(),
        None => String::new(),
    };
    let name = match &m.name {
        Some(n) => n.clone(),
        None => String::new(),
    };
    let namespace = match &m.namespace {
        Some(ns) => ns.clone(),
        None => "default".to_owned(),
    };
    let creation_timestamp = match &m.creation_timestamp {
        Some(t) => t.clone(),
        None => String::new(),
    };
    Resource { id, name, namespace, creation_timestamp }
}

/// Project every listed object's metadata, in order.
pub fn project_resources(ms: &Vec<MetaFields>) -> (r: Vec<Resource>)
    ensures
        resource_views(r@) == spec_projected(meta_views(ms@)),
{
    let mut r: Vec<Resource> = Vec::new();
    let mut i: usize = 0;
    while i < ms.len()
        invariant
            i <= ms@.len(),
            r@.len() == i,
            forall|j: int| 0 <= j < i ==> (#[trigger] r@[j])@ == spec_project_resource(ms@[j]@),
        decreases ms@.len() - i,
    {
        r.push(project_resource(&ms[i]));
        i = i + 1;
    }
    proof {
        assert forall|j: int| 0 <= j < ms@.len() implies resource_views(r@)[j] == spec_projected(
            meta_views(ms@),
        )[j] by {
            assert(r@[j]@ == spec_project_resource(ms@[j]@));
        }
        assert(resource_views(r@) =~= spec_projected(meta_views(ms@)));
    }
    r
}

/// Fold a generic listing request into the stable response shape. An
/// unrecognized tag yields an empty-items response carrying the
/// `Unsupported resource type` error, whatever the listing outcome handed
/// in; for a recognized tag, a successful listing is projected and a
/// failure is embedded as a normalized soft error over empty items.
pub fn get_resources(tag: &str, outcome: Result<Vec<MetaFields>, String>) -> (r: ResourcesResponse)
    ensures
        spec_kind_of(tag@) is None ==> r.items@.len() == 0 && view_opt_str(r.error) == Some(
            "Unsupported resource type: "@ + tag@,
        ),
        spec_kind_of(tag@) is Some ==> match outcome {
            Ok(ms) => resource_views(r.items@) == spec_projected(meta_views(ms@)) && r.error
                is None,
            Err(e) => r.items@.len() == 0 && view_opt_str(r.error) == Some(
                spec_normalized_error(e@),
            ),
        },
{
    if resource_kind_of(tag).is_none() {
        return ResourcesResponse {
            items: Vec::new(),
            error: Some("Unsupported resource type: ".to_owned().concat(tag)),
        };
    }
    match outcome {
        Ok(ms) => ResourcesResponse { items: project_resources(&ms), error: None },
        Err(e) => ResourcesResponse {
            items: Vec::new(),
            error: Some(normalize_list_error(e.as_str())),
        },
    }
}

} // verus!
