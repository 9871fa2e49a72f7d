use kube_gateway::cluster::get_info;
use kube_gateway::discovery::detect_provider;
use kube_gateway::discovery::discover_clusters;
use kube_gateway::discovery::discover_in_doc;
use kube_gateway::discovery::extract_cluster_info;
use kube_gateway::discovery::kubeconfig_path;
use kube_gateway::exec::combine_exec_output;
use kube_gateway::exec::container_names;
use kube_gateway::exec::exec_pod_command;
use kube_gateway::resources::get_resources;
use kube_gateway::resources::project_resource;
use kube_gateway::resources::resource_kind_of;
use kube_gateway::resources::ResourceKind;
use kube_gateway::types::ContainerFields;
use kube_gateway::types::DocCluster;
use kube_gateway::types::ExecRequest;
use kube_gateway::types::DocContext;
use kube_gateway::types::KubeDoc;
use kube_gateway::types::MetaFields;
use kube_gateway::types::PodFields;
use kube_gateway::types::ProviderType;
use kube_gateway::workloads::format_uptime;
use kube_gateway::workloads::get_workloads;
use kube_gateway::workloads::project_workload;

fn pod(name: &str) -> PodFields {
    PodFields {
        uid: Some(format!("uid-{}", name)),
        name: Some(name.to_string()),
        namespace: Some("ns".to_string()),
        containers: vec![ContainerFields {
            name: "main".to_string(),
            image: Some("nginx:1.25".to_string()),
        }],
        phase: Some("Running".to_string()),
        start_hours: Some(5),
    }
}

#[test]
fn unsupported_resource_type_is_soft_error() {
    let r = get_resources("Gizmos", Ok(vec![]));
    assert!(r.items.is_empty());
    assert_eq!(r.error.as_deref(), Some("Unsupported resource type: Gizmos"));
    // The outcome argument is ignored entirely for an unrecognized tag.
    let r2 = get_resources("Gizmos", Err("boom".to_string()));
    assert!(r2.items.is_empty());
    assert_eq!(r2.error.as_deref(), Some("Unsupported resource type: Gizmos"));
}

#[test]
fn registry_matches_exactly_the_supported_tags() {
    assert_eq!(resource_kind_of("Pods"), Some(ResourceKind::Pods));
    assert_eq!(resource_kind_of("Nodes"), Some(ResourceKind::Nodes));
    assert_eq!(resource_kind_of("Services"), Some(ResourceKind::Services));
    assert_eq!(resource_kind_of("ConfigMaps"), Some(ResourceKind::ConfigMaps));
    assert_eq!(resource_kind_of("Namespaces"), Some(ResourceKind::Namespaces));
    assert_eq!(resource_kind_of("Deployments"), Some(ResourceKind::Deployments));
    assert_eq!(resource_kind_of("StatefulSets"), Some(ResourceKind::StatefulSets));
    assert_eq!(resource_kind_of("DaemonSets"), Some(ResourceKind::DaemonSets));
    assert_eq!(resource_kind_of("Ingresses"), Some(ResourceKind::Ingresses));
    assert_eq!(resource_kind_of("Secrets"), Some(ResourceKind::Secrets));
    assert_eq!(resource_kind_of("PVCs"), Some(ResourceKind::Pvcs));
    assert_eq!(resource_kind_of("ServiceAccounts"), Some(ResourceKind::ServiceAccounts));
    // Matching is case-sensitive and exact.
    assert_eq!(resource_kind_of("pods"), None);
    assert_eq!(resource_kind_of("Pod"), None);
    assert_eq!(resource_kind_of(""), None);
}

#[test]
fn connection_refused_is_rewritten_for_resources() {
    let r = get_resources(
        "Pods",
        Err("error trying to connect: connection refused (os error 111)".to_string()),
    );
    assert!(r.items.is_empty());
    assert_eq!(r.error.as_deref(), Some("Connection refused. Is the cluster running?"));
}

#[test]
fn other_resource_errors_pass_through() {
    let r = get_resources("Pods", Err("forbidden: RBAC denied".to_string()));
    assert!(r.items.is_empty());
    assert_eq!(r.error.as_deref(), Some("forbidden: RBAC denied"));
}

#[test]
fn connection_refused_is_rewritten_for_workloads() {
    let r = get_workloads(Err("tcp connect: connection refused".to_string()), "ctx-1");
    assert!(r.items.is_empty());
    assert_eq!(r.error.as_deref(), Some("Connection refused. Is the cluster running?"));
}

#[test]
fn connection_refused_is_rewritten_for_cluster_info() {
    let r = get_info(Err("dial: connection refused".to_string()));
    assert_eq!(r.status, "Error");
    assert_eq!(r.node_count, 0);
    assert_eq!(r.error.as_deref(), Some("Connection refused. Is the cluster running?"));
}

#[test]
fn exec_errors_are_not_rewritten() {
    // Exec has its own rule: the failure text is embedded verbatim.
    let r = exec_pod_command(Err("attach failed: connection refused".to_string()));
    assert_eq!(r.output, "");
    assert_eq!(r.error.as_deref(), Some("attach failed: connection refused"));
}

#[test]
fn cluster_info_success_reports_node_count() {
    let r = get_info(Ok(4));
    assert_eq!(r.status, "Healthy");
    assert_eq!(r.node_count, 4);
    assert!(r.error.is_none());
}

#[test]
fn uptime_thirty_hours_renders_as_one_day() {
    assert_eq!(format_uptime(30), "1d");
}

#[test]
fn uptime_five_hours_renders_as_hours() {
    assert_eq!(format_uptime(5), "5h");
}

#[test]
fn uptime_without_start_time_is_zero_hours() {
    let mut p = pod("a");
    p.start_hours = None;
    let w = project_workload(&p, "ctx");
    assert_eq!(w.uptime, "0h");
}

#[test]
fn uptime_boundaries() {
    // 24 hours is not "more than 24": still rendered in hours.
    assert_eq!(format_uptime(24), "24h");
    assert_eq!(format_uptime(25), "1d");
    assert_eq!(format_uptime(49), "2d");
    assert_eq!(format_uptime(0), "0h");
    assert_eq!(format_uptime(-5), "-5h");
    assert_eq!(format_uptime(123456), "5144d");
}

#[test]
fn provider_local_precedence_beats_eks() {
    let p = detect_provider("minikube-eks-test", "minikube-eks-test", "https://127.0.0.1:6443");
    assert!(matches!(p, ProviderType::Local));
}

#[test]
fn provider_aws_from_server_url() {
    let p = detect_provider("prod", "prod", "https://ABCDEF.gr7.us-east-1.eks.amazonaws.com");
    assert!(matches!(p, ProviderType::Aws));
}

#[test]
fn provider_azure_from_name() {
    let p = detect_provider("aks-prod", "aks-prod", "https://example.invalid");
    assert!(matches!(p, ProviderType::Azure));
}

#[test]
fn provider_gcp_from_name() {
    let p = detect_provider("gke-cluster", "gke-cluster", "https://example.invalid");
    assert!(matches!(p, ProviderType::Gcp));
}

#[test]
fn provider_fallback_is_local() {
    let p = detect_provider("on-prem", "bare-metal", "https://cluster.internal.example");
    assert!(matches!(p, ProviderType::Local));
}

#[test]
fn provider_matching_is_case_insensitive() {
    let p = detect_provider("MINIKUBE", "Test", "https://127.0.0.1");
    assert!(matches!(p, ProviderType::Local));
    let q = detect_provider("Prod", "Cluster", "https://foo.AMAZONAWS.com");
    assert!(matches!(q, ProviderType::Aws));
}

#[test]
fn resource_projection_uses_uid_and_defaults() {
    let r = project_resource(&MetaFields {
        uid: Some("abc-123".to_string()),
        name: Some("web".to_string()),
        namespace: None,
        creation_timestamp: Some("2024-01-01T00:00:00+00:00".to_string()),
    });
    assert_eq!(r.id, "abc-123");
    assert_eq!(r.name, "web");
    assert_eq!(r.namespace, "default");
    assert_eq!(r.creation_timestamp, "2024-01-01T00:00:00+00:00");

    let empty = project_resource(&MetaFields {
        uid: None,
        name: None,
        namespace: None,
        creation_timestamp: None,
    });
    assert_eq!(empty.id, "");
    assert_eq!(empty.name, "");
    assert_eq!(empty.namespace, "default");
    assert_eq!(empty.creation_timestamp, "");
}

#[test]
fn resources_success_projects_every_item() {
    let r = get_resources(
        "Services",
        Ok(vec![
            MetaFields {
                uid: Some("u1".to_string()),
                name: Some("svc-a".to_string()),
                namespace: Some("team-a".to_string()),
                creation_timestamp: None,
            },
            MetaFields {
                uid: Some("u2".to_string()),
                name: Some("svc-b".to_string()),
                namespace: None,
                creation_timestamp: None,
            },
        ]),
    );
    assert!(r.error.is_none());
    assert_eq!(r.items.len(), 2);
    assert_eq!(r.items[0].id, "u1");
    assert_eq!(r.items[0].namespace, "team-a");
    assert_eq!(r.items[1].id, "u2");
    assert_eq!(r.items[1].namespace, "default");
}

#[test]
fn workload_projection_fields() {
    let w = project_workload(&pod("api"), "cluster-7");
    assert_eq!(w.id, "uid-api");
    assert_eq!(w.name, "api");
    assert_eq!(w.namespace, "ns");
    assert_eq!(w.image, "nginx:1.25");
    assert_eq!(w.context_id, "cluster-7");
    assert_eq!(w.status, "Running");
    assert_eq!(w.replicas, 1);
    assert_eq!(w.uptime, "5h");
}

#[test]
fn workload_defaults_for_missing_fields() {
    let w = project_workload(
        &PodFields {
            uid: None,
            name: None,
            namespace: None,
            containers: vec![],
            phase: None,
            start_hours: None,
        },
        "ctx",
    );
    assert_eq!(w.id, "");
    assert_eq!(w.name, "");
    assert_eq!(w.namespace, "default");
    assert_eq!(w.image, "unknown");
    assert_eq!(w.status, "Unknown");
    assert_eq!(w.uptime, "0h");
}

#[test]
fn workload_image_unknown_when_first_image_unset() {
    let mut p = pod("a");
    p.containers = vec![ContainerFields { name: "main".to_string(), image: None }];
    let w = project_workload(&p, "ctx");
    assert_eq!(w.image, "unknown");
}

#[test]
fn workloads_success_keeps_order_and_context_id() {
    let r = get_workloads(Ok(vec![pod("a"), pod("b")]), "ctx-9");
    assert!(r.error.is_none());
    assert_eq!(r.items.len(), 2);
    assert_eq!(r.items[0].name, "a");
    assert_eq!(r.items[1].name, "b");
    assert!(r.items.iter().all(|w| w.context_id == "ctx-9"));
}

#[test]
fn exec_output_stdout_only() {
    assert_eq!(combine_exec_output("hello", ""), "hello");
}

#[test]
fn exec_output_with_stderr_separator() {
    assert_eq!(combine_exec_output("hello", "boom"), "hello\n[stderr]:\nboom");
}

#[test]
fn exec_request_carries_command_tokens() {
    let req = ExecRequest {
        namespace: "ns".to_string(),
        pod_name: "web-0".to_string(),
        container: None,
        command: vec!["sh".to_string(), "-c".to_string(), "echo hello".to_string()],
    };
    assert_eq!(req.command.len(), 3);
    assert!(req.container.is_none());
}

#[test]
fn exec_success_response() {
    let r = exec_pod_command(Ok("done\n".to_string()));
    assert_eq!(r.output, "done\n");
    assert!(r.error.is_none());
}

#[test]
fn container_names_in_declared_order() {
    let mut p = pod("a");
    p.containers = vec![
        ContainerFields { name: "init".to_string(), image: None },
        ContainerFields { name: "app".to_string(), image: Some("img".to_string()) },
    ];
    let names = container_names(&p);
    assert_eq!(names, vec!["init".to_string(), "app".to_string()]);
}

#[test]
fn kubeconfig_path_resolution_order() {
    assert_eq!(
        kubeconfig_path(Some("/tmp/kc".to_string()), Some("/home/u".to_string()), None),
        Some("/tmp/kc".to_string())
    );
    assert_eq!(
        kubeconfig_path(None, Some("/home/u".to_string()), Some("/profile/u".to_string())),
        Some("/home/u/.kube/config".to_string())
    );
    assert_eq!(
        kubeconfig_path(None, None, Some("/profile/u".to_string())),
        Some("/profile/u/.kube/config".to_string())
    );
    assert_eq!(kubeconfig_path(None, None, None), None);
}

#[test]
fn discovery_missing_file_yields_empty_list() {
    let r = discover_clusters(None);
    assert!(r.is_empty());
}

#[test]
fn discovery_unparsable_document_yields_empty_list() {
    let r = discover_clusters(Some(":\n  - this is not a kubeconfig"));
    assert!(r.is_empty());
}

const TWO_CONTEXT_KUBECONFIG: &str = "\
apiVersion: v1
kind: Config
current-context: ctx-a
clusters:
- name: cluster-a
  cluster:
    server: https://a.example.com:6443
- name: cluster-b
  cluster:
    server: https://b.gke.example.com:6443
contexts:
- name: ctx-a
  context:
    cluster: cluster-a
    namespace: team-a
- name: ctx-b
  context:
    cluster: cluster-b
users: []
";

#[test]
fn discovery_marks_exactly_the_current_context() {
    let r = discover_clusters(Some(TWO_CONTEXT_KUBECONFIG));
    assert_eq!(r.len(), 2);
    assert_eq!(r[0].context_name, "ctx-a");
    assert!(r[0].is_current_context);
    assert_eq!(r[1].context_name, "ctx-b");
    assert!(!r[1].is_current_context);
}

#[test]
fn discovery_parses_servers_namespaces_and_providers() {
    let r = discover_clusters(Some(TWO_CONTEXT_KUBECONFIG));
    assert_eq!(r.len(), 2);
    assert_eq!(r[0].cluster_name, "cluster-a");
    assert_eq!(r[0].server, "https://a.example.com:6443");
    assert_eq!(r[0].namespace, "team-a");
    assert!(matches!(r[0].provider, ProviderType::Local));
    assert_eq!(r[1].namespace, "default");
    assert!(matches!(r[1].provider, ProviderType::Gcp));
}

#[test]
fn discovery_skips_unresolvable_contexts() {
    let doc = KubeDoc {
        current_context: Some("good".to_string()),
        contexts: vec![
            DocContext {
                name: "no-binding".to_string(),
                cluster: None,
                namespace: None,
            },
            DocContext {
                name: "dangling".to_string(),
                cluster: Some("missing-cluster".to_string()),
                namespace: None,
            },
            DocContext {
                name: "no-server".to_string(),
                cluster: Some("server-less".to_string()),
                namespace: None,
            },
            DocContext {
                name: "good".to_string(),
                cluster: Some("real".to_string()),
                namespace: None,
            },
        ],
        clusters: vec![
            DocCluster { name: "server-less".to_string(), server: None },
            DocCluster { name: "real".to_string(), server: Some("https://ok.example".to_string()) },
        ],
    };
    let r = discover_in_doc(&doc);
    assert_eq!(r.len(), 1);
    assert_eq!(r[0].context_name, "good");
    assert_eq!(r[0].cluster_name, "real");
    assert!(r[0].is_current_context);
}

#[test]
fn discovery_without_current_context_marks_none() {
    let doc = KubeDoc {
        current_context: None,
        contexts: vec![DocContext {
            name: "only".to_string(),
            cluster: Some("c".to_string()),
            namespace: None,
        }],
        clusters: vec![DocCluster {
            name: "c".to_string(),
            server: Some("https://x.example".to_string()),
        }],
    };
    let r = discover_in_doc(&doc);
    assert_eq!(r.len(), 1);
    assert!(!r[0].is_current_context);
}

#[test]
fn extract_defaults_namespace_and_finds_first_cluster() {
    let clusters = vec![
        DocCluster { name: "c".to_string(), server: Some("https://first.example".to_string()) },
        DocCluster { name: "c".to_string(), server: Some("https://second.example".to_string()) },
    ];
    let ctx = DocContext { name: "x".to_string(), cluster: Some("c".to_string()), namespace: None };
    let d = extract_cluster_info(&ctx, &None, &clusters).unwrap();
    assert_eq!(d.namespace, "default");
    // The first matching cluster entry wins.
    assert_eq!(d.server, "https://first.example");
}
