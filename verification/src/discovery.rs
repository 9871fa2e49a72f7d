//! Cluster discovery: projecting a kubeconfig document into the set of
//! reachable clusters, and classifying each by infrastructure provider.

use vstd::prelude::*;

use crate::text::chars_of;
use crate::text::contains_chars;
use crate::text::lower_chars;
use crate::text::spec_contains;
use crate::text::spec_lower;
use crate::text::str_eq;
use crate::types::DiscoveredCluster;
use crate::types::DiscoveredClusterView;
use crate::types::DocCluster;
use crate::types::DocClusterView;
use crate::types::DocContext;
use crate::types::DocContextView;
use crate::types::KubeDoc;
use crate::types::KubeDocView;
use crate::types::ProviderType;

verus! {

/// The lower-cased, space-joined concatenation of context name, cluster
/// name, and server URL that provider classification inspects.
pub open spec fn spec_combined(
    context_name: Seq<char>,
    cluster_name: Seq<char>,
    server: Seq<char>,
) -> Seq<char> {
    spec_lower(context_name + seq![' '] + cluster_name + seq![' '] + server)
}

/// Any of the local-infrastructure indicator substrings occurs in `c`.
pub open spec fn spec_contains_local(c: Seq<char>) -> bool {
    spec_contains(c, "docker-desktop"@) || spec_contains(c, "docker.internal"@) || spec_contains(
        c,
        "minikube"@,
    ) || spec_contains(c, "kind"@) || spec_contains(c, "k3"@) || spec_contains(c, "microk8s"@)
}

/// Provider classification over the combined lower-cased text, in fixed
/// precedence order: local indicators first, then Aws, Azure, Gcp, and
/// Local again as the fallback.
pub open spec fn spec_provider_of(c: Seq<char>) -> ProviderType {
    if spec_contains_local(c) {
        ProviderType::Local
    } else if spec_contains(c, "eks"@) || spec_contains(c, "amazonaws"@) {
        ProviderType::Aws
    } else if spec_contains(c, "aks"@) || spec_contains(c, "azure"@) {
        ProviderType::Azure
    } else if spec_contains(c, "gke"@) || spec_contains(c, "googleapis"@) {
        ProviderType::Gcp
    } else {
        ProviderType::Local
    }
}

/// Provider classification of a context, as a function of the three
/// name fragments it is inferred from.
pub open spec fn spec_provider(
    context_name: Seq<char>,
    cluster_name: Seq<char>,
    server: Seq<char>,
) -> ProviderType {
    spec_provider_of(spec_combined(context_name, cluster_name, server))
}

/// Detect the infrastructure provider from the context name, cluster name
/// and server URL. Local indicators take precedence over every cloud
/// indicator, and Local is also the fallback when nothing matches.
pub fn detect_provider(context_name: &str, cluster_name: &str, server: &str) -> (r: ProviderType)
    ensures
        r == spec_provider(context_name@, cluster_name@, server@),
{
    let mut comb: Vec<char> = chars_of(context_name);
    comb.push(' ');
    let mut rest = chars_of(cluster_name);
    comb.append(&mut rest);
    comb.push(' ');
    let mut tail = chars_of(server);
    comb.append(&mut tail);
    proof {
        assert(comb@ =~= context_name@ + seq![' '] + cluster_name@ + seq![' '] + server@);
    }
    let lowered = lower_chars(&comb);
    let ghost c = spec_combined(context_name@, cluster_name@, server@);
    proof {
        assert(lowered@ == c);
    }
    if contains_any_local(&lowered) {
        ProviderType::Local
    } else if contains_str(&lowered, "eks") || contains_str(&lowered, "amazonaws") {
        ProviderType::Aws
    } else if contains_str(&lowered, "aks") || contains_str(&lowered, "azure") {
        ProviderType::Azure
    } else if contains_str(&lowered, "gke") || contains_str(&lowered, "googleapis") {
        ProviderType::Gcp
    } else {
        ProviderType::Local
    }
}

/// Substring test against a pattern given as a string slice.
fn contains_str(hay: &Vec<char>, pat: &str) -> (r: bool)
    ensures
        r == spec_contains(hay@, pat@),
{
    let p = chars_of(pat);
    contains_chars(hay, &p)
}

fn contains_any_local(c: &Vec<char>) -> (r: bool)
    ensures
        r == spec_contains_local(c@),
{
    contains_str(c, "docker-desktop") || contains_str(c, "docker.internal") || contains_str(
        c,
        "minikube",
    ) || contains_str(c, "kind") || contains_str(c, "k3") || contains_str(c, "microk8s")
}

/// The first cluster entry carrying `name`, if any.
pub open spec fn spec_find_cluster_from(
    clusters: Seq<DocClusterView>,
    name: Seq<char>,
    i: int,
) -> Option<DocClusterView>
    decreases clusters.len() - i,
{
    if i < 0 || i >= clusters.len() {
        None
    } else if clusters[i].name == name {
        Some(clusters[i])
    } else {
        spec_find_cluster_from(clusters, name, i + 1)
    }
}

/// The first cluster entry carrying `name`, if any.
pub open spec fn spec_find_cluster(clusters: Seq<DocClusterView>, name: Seq<char>) -> Option<
    DocClusterView,
> {
    spec_find_cluster_from(clusters, name, 0)
}

fn find_cluster<'a>(clusters: &'a Vec<DocCluster>, name: &str) -> (r: Option<&'a DocCluster>)
    ensures
        match r {
            Some(c) => spec_find_cluster(
                clusters@.map(|i: int, c: DocCluster| c@),
                name@,
            ) == Some(c@),
            None => spec_find_cluster(clusters@.map(|i: int, c: DocCluster| c@), name@) is None,
        },
{
    let ghost cs = clusters@.map(|i: int, c: DocCluster| c@);
    let mut j: usize = 0;
    while j < clusters.len()
        invariant
            cs == clusters@.map(|i: int, c: DocCluster| c@),
            j <= clusters@.len(),
            spec_find_cluster(cs, name@) == spec_find_cluster_from(cs, name@, j as int),
        decreases clusters@.len() - j,
    {
        if str_eq(clusters[j].name.as_str(), name) {
            return Some(&clusters[j]);
        }
        j = j + 1;
    }
    None
}

/// What a single named context contributes to discovery: nothing when the
/// context carries no cluster binding, when the referenced cluster entry is
/// missing, or when that entry has no server URL; otherwise a discovered
/// cluster with the namespace defaulted to "default" and the current-context
/// mark set only when the document declares a current context of this name.
pub open spec fn spec_extract(
    ctx: DocContextView,
    current: Option<Seq<char>>,
    clusters: Seq<DocClusterView>,
) -> Option<DiscoveredClusterView> {
    match ctx.cluster {
        None => None,
        Some(cname) => match spec_find_cluster(clusters, cname) {
            None => None,
            Some(cl) => match cl.server {
                None => None,
                Some(server) => Some(
                    DiscoveredClusterView {
                        context_name: ctx.name,
                        cluster_name: cname,
                        server: server,
                        namespace: match ctx.namespace {
                            Some(ns) => ns,
                            None => "default"@,
                        },
                        is_current_context: match current {
                            Some(cur) => ctx.name == cur,
                            None => false,
                        },
                        provider: spec_provider(ctx.name, cname, server),
                    },
                ),
            },
        },
    }
}

/// Resolve one named context against the document's cluster entries.
pub fn extract_cluster_info(
    ctx: &DocContext,
    current: &Option<String>,
    clusters: &Vec<DocCluster>,
) -> (r: Option<DiscoveredCluster>)
    ensures
        match r {
            Some(d) => spec_extract(
                ctx@,
                crate::types::view_opt_str(*current),
                clusters@.map(|i: int, c: DocCluster| c@),
            ) == Some(d@),
            None => spec_extract(
                ctx@,
                crate::types::view_opt_str(*current),
                clusters@.map(|i: int, c: DocCluster| c@),
            ) is None,
        },
{
    let cname = match &ctx.cluster {
        None => {
            return None;
        },
        Some(c) => c,
    };
    let cl = match find_cluster(clusters, cname.as_str()) {
        None => {
            return None;
        },
        Some(cl) => cl,
    };
    let server = match &cl.server {
        None => {
            return None;
        },
        Some(s) => s,
    };
    let namespace = match &ctx.namespace {
        Some(ns) => ns.clone(),
        None => "default".to_owned(),
    };
    let is_current = match current {
        Some(cur) => str_eq(ctx.name.as_str(), cur.as_str()),
        None => false,
    };
    let provider = detect_provider(ctx.name.as_str(), cname.as_str(), server.as_str());
    Some(
        DiscoveredCluster {
            context_name: ctx.name.clone(),
            cluster_name: cname.clone(),
            server: server.clone(),
            namespace,
            is_current_context: is_current,
            provider,
        },
    )
}

/// The views of a vector of discovered clusters.
pub open spec fn views_of(s: Seq<DiscoveredCluster>) -> Seq<DiscoveredClusterView> {
    s.map(|i: int, d: DiscoveredCluster| d@)
}

/// What discovery yields from the first `n` contexts of a document.
pub open spec fn spec_discovered_prefix(doc: KubeDocView, n: int) -> Seq<DiscoveredClusterView>
    decreases n,
{
    if n <= 0 {
        Seq::empty()
    } else {
        let pre = spec_discovered_prefix(doc, n - 1);
        match spec_extract(doc.contexts[n - 1], doc.current_context, doc.clusters) {
            Some(d) => pre.push(d),
            None => pre,
        }
    }
}

/// What discovery yields from a parsed kubeconfig document: one entry per
/// resolvable context, in the document's declared order.
pub open spec fn spec_discovered(doc: KubeDocView) -> Seq<DiscoveredClusterView> {
    spec_discovered_prefix(doc, doc.contexts.len() as int)
}

/// Project every resolvable context of the document into a discovered
/// cluster, in order; unresolvable contexts are skipped silently.
pub fn discover_in_doc(doc: &KubeDoc) -> (r: Vec<DiscoveredCluster>)
    ensures
        views_of(r@) == spec_discovered(doc@),
{
    let mut r: Vec<DiscoveredCluster> = Vec::new();
    let mut i: usize = 0;
    proof {
        assert(views_of(r@) =~= spec_discovered_prefix(doc@, 0));
    }
    while i < doc.contexts.len()
        invariant
            i <= doc.contexts@.len(),
            views_of(r@) == spec_discovered_prefix(doc@, i as int),
        decreases doc.contexts@.len() - i,
    {
        let ghost pre = views_of(r@);
        proof {
            assert(doc@.contexts[i as int] == doc.contexts@[i as int]@);
        }
        match extract_cluster_info(&doc.contexts[i], &doc.current_context, &doc.clusters) {
            Some(d) => {
                r.push(d);
                proof {
                    assert(views_of(r@) =~= pre.push(d@));
                }
            },
            None => {},
        }
        i = i + 1;
    }
    r
}

/// Local indicators take precedence: whenever any local-infrastructure
/// substring occurs in the combined text, the classification is Local,
/// whatever cloud indicators also occur.
pub proof fn lemma_local_precedence(c: Seq<char>)
    requires
        spec_contains_local(c),
    ensures
        spec_provider_of(c) == ProviderType::Local,
{
}

/// Exactly the contexts whose name equals the document's declared current
/// context are marked current in the discovery result; when the document
/// declares no current context, no entry is marked.
pub proof fn lemma_current_context_mark(doc: KubeDocView, i: int)
    requires
        0 <= i < spec_discovered(doc).len(),
    ensures
        spec_discovered(doc)[i].is_current_context <==> match doc.current_context {
            Some(cur) => spec_discovered(doc)[i].context_name == cur,
            None => false,
        },
{
    lemma_current_mark_prefix(doc, doc.contexts.len() as int, i);
}

proof fn lemma_current_mark_prefix(doc: KubeDocView, n: int, i: int)
    requires
        0 <= i < spec_discovered_prefix(doc, n).len(),
    ensures
        spec_discovered_prefix(doc, n)[i].is_current_context <==> match doc.current_context {
            Some(cur) => spec_discovered_prefix(doc, n)[i].context_name == cur,
            None => false,
        },
    decreases n,
{
    if n > 0 {
        let pre = spec_discovered_prefix(doc, n - 1);
        match spec_extract(doc.contexts[n - 1], doc.current_context, doc.clusters) {
            Some(d) => {
                if i < pre.len() {
                    lemma_current_mark_prefix(doc, n - 1, i);
                }
            },
            None => {
                lemma_current_mark_prefix(doc, n - 1, i);
            },
        }
    }
}

/// The kubeconfig file path that discovery resolves, from injected
/// environment values: an explicit override is used verbatim; otherwise
/// the home directory — or, failing that, the profile directory — is
/// joined with the fixed relative location; with neither, resolution
/// fails.
pub open spec fn spec_kubeconfig_path(
    explicit: Option<Seq<char>>,
    home: Option<Seq<char>>,
    profile: Option<Seq<char>>,
) -> Option<Seq<char>> {
    match explicit {
        Some(p) => Some(p),
        None => match home {
            Some(h) => Some(h + "/.kube/config"@),
            None => match profile {
                Some(pr) => Some(pr + "/.kube/config"@),
                None => None,
            },
        },
    }
}

/// Resolve the kubeconfig path from the injected environment values: the
/// override variable's value verbatim when set, else the home (or, as a
/// fallback, profile) directory joined with `.kube/config`.
pub fn kubeconfig_path(
    explicit: Option<String>,
    home: Option<String>,
    profile: Option<String>,
) -> (r: Option<String>)
    ensures
        crate::types::view_opt_str(r) == spec_kubeconfig_path(
            crate::types::view_opt_str(explicit),
            crate::types::view_opt_str(home),
            crate::types::view_opt_str(profile),
        ),
{
    match explicit {
        Some(p) => Some(p),
        None => {
            let root = match home {
                Some(h) => h,
                None => match profile {
                    Some(pr) => pr,
                    None => {
                        return None;
                    },
                },
            };
            Some(root.concat("/.kube/config"))
        },
    }
}

/// The kubeconfig document encoded by a YAML text, reduced to the fields
/// discovery reads, or nothing when the text is not a well-formed
/// kubeconfig document. Parsing is a pure function of the text.
pub uninterp spec fn kubeconfig_doc_of(s: Seq<char>) -> Option<KubeDocView>;

/// Relies on kube's `Kubeconfig::from_yaml` to parse a kubeconfig YAML
/// document; the body only moves the parsed fields into [`KubeDoc`],
/// one for one.
#[verifier::external_body]
fn parse_kubeconfig(s: &str) -> (r: Option<KubeDoc>)
    ensures
        match r {
            Some(d) => kubeconfig_doc_of(s@) == Some(d@),
            None => kubeconfig_doc_of(s@) is None,
        },
{
    let k = kube::config::Kubeconfig::from_yaml(s).ok()?;
    let contexts = k.contexts.into_iter().map(|c| DocContext {
        name: c.name,
        cluster: c.context.as_ref().map(|x| x.cluster.clone()),
        namespace: c.context.and_then(|x| x.namespace),
    }).collect();
    let clusters = k.clusters.into_iter().map(|c| DocCluster {
        name: c.name,
        server: c.cluster.and_then(|x| x.server),
    }).collect();
    Some(KubeDoc { current_context: k.current_context, contexts, clusters })
}

/// Discover clusters from the text of a kubeconfig file, handed in as
/// `None` when the file was missing or unreadable. Every failure — no
/// file, unparsable document — yields the empty list, never an error.
pub fn discover_clusters(content: Option<&str>) -> (r: Vec<DiscoveredCluster>)
    ensures
        content is None ==> views_of(r@) == Seq::<DiscoveredClusterView>::empty(),
        content matches Some(s) ==> match kubeconfig_doc_of(s@) {
            Some(d) => views_of(r@) == spec_discovered(d),
            None => views_of(r@) == Seq::<DiscoveredClusterView>::empty(),
        },
{
    match content {
        None => {
            let r: Vec<DiscoveredCluster> = Vec::new();
            proof {
                assert(views_of(r@) =~= Seq::<DiscoveredClusterView>::empty());
            }
            r
        },
        Some(s) => match parse_kubeconfig(s) {
            None => {
                let r: Vec<DiscoveredCluster> = Vec::new();
                proof {
                    assert(views_of(r@) =~= Seq::<DiscoveredClusterView>::empty());
                }
                r
            },
            Some(doc) => discover_in_doc(&doc),
        },
    }
}

} // verus!
