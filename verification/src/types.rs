//! The gateway's data model: normalized response shapes handed to the
//! presentation layer, and the plain-value models of control-plane data
//! that the verified logic works on.

use vstd::prelude::*;

verus! {

/// The view of an optional string: the optional character sequence.
pub open spec fn view_opt_str(o: Option<String>) -> Option<Seq<char>> {
    match o {
        Some(s) => Some(s@),
        None => None,
    }
}

/// Classification of the infrastructure provider behind a cluster,
/// inferred from naming conventions.
#[derive(Clone, Copy, Debug, PartialEq, Eq, Structural)]
pub enum ProviderType {
    Local,
    Aws,
    Azure,
    Gcp,
}

/// A normalized projection of any control-plane object's metadata.
#[derive(Clone, Debug)]
pub struct Resource {
    pub id: String,
    pub name: String,
    pub namespace: String,
    pub creation_timestamp: String,
}

/// Mathematical model of a [`Resource`].
pub ghost struct ResourceView {
    pub id: Seq<char>,
    pub name: Seq<char>,
    pub namespace: Seq<char>,
    pub creation_timestamp: Seq<char>,
}

impl View for Resource {
    type V = ResourceView;

    open spec fn view(&self) -> ResourceView {
        ResourceView {
            id: self.id@,
            name: self.name@,
            namespace: self.namespace@,
            creation_timestamp: self.creation_timestamp@,
        }
    }
}

/// The soft-error response wrapper for generic resource listings.
#[derive(Clone, Debug)]
pub struct ResourcesResponse {
    pub items: Vec<Resource>,
    pub error: Option<String>,
}

/// A pod-level workload row, a richer projection than [`Resource`].
#[derive(Clone, Debug)]
pub struct Workload {
    pub id: String,
    pub name: String,
    pub namespace: String,
    pub image: String,
    pub context_id: String,
    pub status: String,
    pub replicas: i32,
    pub uptime: String,
}

/// Mathematical model of a [`Workload`].
pub ghost struct WorkloadView {
    pub id: Seq<char>,
    pub name: Seq<char>,
    pub namespace: Seq<char>,
    pub image: Seq<char>,
    pub context_id: Seq<char>,
    pub status: Seq<char>,
    pub replicas: int,
    pub uptime: Seq<char>,
}

impl View for Workload {
    type V = WorkloadView;

    open spec fn view(&self) -> WorkloadView {
        WorkloadView {
            id: self.id@,
            name: self.name@,
            namespace: self.namespace@,
            image: self.image@,
            context_id: self.context_id@,
            status: self.status@,
            replicas: self.replicas as int,
            uptime: self.uptime@,
        }
    }
}

/// The soft-error response wrapper for workload listings.
#[derive(Clone, Debug)]
pub struct WorkloadsResponse {
    pub items: Vec<Workload>,
    pub error: Option<String>,
}

/// A cluster discovered in a kubeconfig document.
#[derive(Clone, Debug)]
pub struct DiscoveredCluster {
    pub context_name: String,
    pub cluster_name: String,
    pub server: String,
    pub namespace: String,
    pub is_current_context: bool,
    pub provider: ProviderType,
}

/// Mathematical model of a [`DiscoveredCluster`].
pub ghost struct DiscoveredClusterView {
    pub context_name: Seq<char>,
    pub cluster_name: Seq<char>,
    pub server: Seq<char>,
    pub namespace: Seq<char>,
    pub is_current_context: bool,
    pub provider: ProviderType,
}

impl View for DiscoveredCluster {
    type V = DiscoveredClusterView;

    open spec fn view(&self) -> DiscoveredClusterView {
        DiscoveredClusterView {
            context_name: self.context_name@,
            cluster_name: self.cluster_name@,
            server: self.server@,
            namespace: self.namespace@,
            is_current_context: self.is_current_context,
            provider: self.provider,
        }
    }
}

/// A request to run a command inside a pod.
#[derive(Clone, Debug)]
pub struct ExecRequest {
    pub namespace: String,
    pub pod_name: String,
    pub container: Option<String>,
    pub command: Vec<String>,
}

/// The captured output of a command run inside a pod, or a soft error.
#[derive(Clone, Debug)]
pub struct ExecResponse {
    pub output: String,
    pub error: Option<String>,
}

/// A point-in-time cluster health snapshot: status label, node count, and
/// an optional soft error. Resource-usage figures are a presentation-layer
/// stub and are not part of the verified model.
#[derive(Clone, Debug)]
pub struct ClusterStatus {
    pub status: String,
    pub node_count: usize,
    pub error: Option<String>,
}

/// A named context of a kubeconfig document, reduced to the fields the
/// discovery logic reads: the context's name, the name of the cluster it
/// references (absent when the document carries no binding for it), and
/// its optional default namespace.
#[derive(Clone, Debug)]
pub struct DocContext {
    pub name: String,
    pub cluster: Option<String>,
    pub namespace: Option<String>,
}

/// Mathematical model of a [`DocContext`].
pub ghost struct DocContextView {
    pub name: Seq<char>,
    pub cluster: Option<Seq<char>>,
    pub namespace: Option<Seq<char>>,
}

impl View for DocContext {
    type V = DocContextView;

    open spec fn view(&self) -> DocContextView {
        DocContextView {
            name: self.name@,
            cluster: view_opt_str(self.cluster),
            namespace: view_opt_str(self.namespace),
        }
    }
}

/// A named cluster entry of a kubeconfig document, reduced to its name and
/// optional server URL.
#[derive(Clone, Debug)]
pub struct DocCluster {
    pub name: String,
    pub server: Option<String>,
}

/// Mathematical model of a [`DocCluster`].
pub ghost struct DocClusterView {
    pub name: Seq<char>,
    pub server: Option<Seq<char>>,
}

impl View for DocCluster {
    type V = DocClusterView;

    open spec fn view(&self) -> DocClusterView {
        DocClusterView {
            name: self.name@,
            server: view_opt_str(self.server),
        }
    }
}

/// A kubeconfig document, reduced to what cluster discovery reads:
/// the declared current context, the named contexts, and the named
/// cluster entries.
#[derive(Clone, Debug)]
pub struct KubeDoc {
    pub current_context: Option<String>,
    pub contexts: Vec<DocContext>,
    pub clusters: Vec<DocCluster>,
}

/// Mathematical model of a [`KubeDoc`].
pub ghost struct KubeDocView {
    pub current_context: Option<Seq<char>>,
    pub contexts: Seq<DocContextView>,
    pub clusters: Seq<DocClusterView>,
}

impl View for KubeDoc {
    type V = KubeDocView;

    open spec fn view(&self) -> KubeDocView {
        KubeDocView {
            current_context: view_opt_str(self.current_context),
            contexts: self.contexts@.map(|i: int, c: DocContext| c@),
            clusters: self.clusters@.map(|i: int, c: DocCluster| c@),
        }
    }
}

/// The metadata fields of a control-plane object, as plain values:
/// unique identifier, display name, namespace, and creation timestamp
/// already rendered in RFC 3339 form.
#[derive(Clone, Debug)]
pub struct MetaFields {
    pub uid: Option<String>,
    pub name: Option<String>,
    pub namespace: Option<String>,
    pub creation_timestamp: Option<String>,
}

/// Mathematical model of [`MetaFields`].
pub ghost struct MetaFieldsView {
    pub uid: Option<Seq<char>>,
    pub name: Option<Seq<char>>,
    pub namespace: Option<Seq<char>>,
    pub creation_timestamp: Option<Seq<char>>,
}

impl View for MetaFields {
    type V = MetaFieldsView;

    open spec fn view(&self) -> MetaFieldsView {
        MetaFieldsView {
            uid: view_opt_str(self.uid),
            name: view_opt_str(self.name),
            namespace: view_opt_str(self.namespace),
            creation_timestamp: view_opt_str(self.creation_timestamp),
        }
    }
}

/// A declared container of a pod: its name and optional image reference.
#[derive(Clone, Debug)]
pub struct ContainerFields {
    pub name: String,
    pub image: Option<String>,
}

/// Mathematical model of [`ContainerFields`].
pub ghost struct ContainerFieldsView {
    pub name: Seq<char>,
    pub image: Option<Seq<char>>,
}

impl View for ContainerFields {
    type V = ContainerFieldsView;

    open spec fn view(&self) -> ContainerFieldsView {
        ContainerFieldsView {
            name: self.name@,
            image: view_opt_str(self.image),
        }
    }
}

/// The fields of a running pod that the workload lister reads, as plain
/// values: metadata, declared containers, reported lifecycle phase, and
/// the elapsed whole hours since the reported start time, absent when no
/// start time was reported.
#[derive(Clone, Debug)]
pub struct PodFields {
    pub uid: Option<String>,
    pub name: Option<String>,
    pub namespace: Option<String>,
    pub containers: Vec<ContainerFields>,
    pub phase: Option<String>,
    pub start_hours: Option<i64>,
}

/// Mathematical model of [`PodFields`].
pub ghost struct PodFieldsView {
    pub uid: Option<Seq<char>>,
    pub name: Option<Seq<char>>,
    pub namespace: Option<Seq<char>>,
    pub containers: Seq<ContainerFieldsView>,
    pub phase: Option<Seq<char>>,
    pub start_hours: Option<int>,
}

impl View for PodFields {
    type V = PodFieldsView;

    open spec fn view(&self) -> PodFieldsView {
        PodFieldsView {
            uid: view_opt_str(self.uid),
            name: view_opt_str(self.name),
            namespace: view_opt_str(self.namespace),
            containers: self.containers@.map(|i: int, c: ContainerFields| c@),
            phase: view_opt_str(self.phase),
            start_hours: match self.start_hours {
                Some(h) => Some(h as int),
                None => None,
            },
        }
    }
}

} // verus!
