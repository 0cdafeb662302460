use hive_operator::crd::{HiveConnectionInformation, KeyValue, PodRef};
use hive_operator::discovery::{
    build_listener_connection_string, build_nodeport_connection_string,
    build_pod_identity_connection_string, get_hive_connection_string_from_pods,
    pad_and_check_chroot, EndpointNode, Error, ListenerIngressAddress, ListenerStatusInfo,
    ObservedPod, PodContainer,
};
use hive_operator::service::NamedPort;
use hive_operator::status::{build_status, discovery_hash};

fn metastore_pod(name: &str, node: Option<&str>) -> ObservedPod {
    ObservedPod {
        name: Some(name.to_string()),
        node_name: node.map(|n| n.to_string()),
        labels: vec![KeyValue {
            key: "app.kubernetes.io/component".to_string(),
            value: "metastore".to_string(),
        }],
        containers: vec![PodContainer {
            name: "hive".to_string(),
            ports: vec![NamedPort { name: "metastore".to_string(), port: 9083 }],
        }],
    }
}

#[test]
fn test_chroot_padding_normalizes() {
    // The same path with and without its leading slash reads identically.
    let padded = pad_and_check_chroot(Some("hbase")).unwrap();
    let already_absolute = pad_and_check_chroot(Some("/hbase")).unwrap();
    assert_eq!(padded.as_deref(), Some("/hbase"));
    assert_eq!(already_absolute.as_deref(), Some("/hbase"));
    assert_eq!(pad_and_check_chroot(None).unwrap(), None);
}

#[test]
fn test_chroot_yields_identical_connection_strings() {
    let with_pad = HiveConnectionInformation {
        node_name: "server1".to_string(),
        port: "9083".to_string(),
        db: pad_and_check_chroot(Some("hbase")).unwrap(),
    };
    let without_pad = HiveConnectionInformation {
        node_name: "server1".to_string(),
        port: "9083".to_string(),
        db: pad_and_check_chroot(Some("/hbase")).unwrap(),
    };
    assert_eq!(with_pad.full_connection_string(), without_pad.full_connection_string());
    assert_eq!(with_pad.full_connection_string(), "thrift://server1:9083/hbase");
    assert_eq!(with_pad.connection_string(), "thrift://server1:9083");
}

#[test]
fn test_connection_from_pods() {
    let pods = vec![metastore_pod("pod-0", Some("server1"))];
    let info = get_hive_connection_string_from_pods(&pods, Some("db")).unwrap().unwrap();
    assert_eq!(info.node_name, "server1");
    assert_eq!(info.port, "9083");
    assert_eq!(info.full_connection_string(), "thrift://server1:9083/db");
}

#[test]
fn test_connection_from_pods_skips_other_components() {
    let mut other = metastore_pod("pod-x", Some("server9"));
    other.labels[0].value = "frontend".to_string();
    let pods = vec![other];
    assert!(get_hive_connection_string_from_pods(&pods, None).unwrap().is_none());
}

#[test]
fn test_connection_from_pods_without_host_is_an_error() {
    let pods = vec![metastore_pod("pod-0", None)];
    assert!(matches!(
        get_hive_connection_string_from_pods(&pods, None),
        Err(Error::PodWithoutHostname { .. })
    ));
}

#[test]
fn test_pod_identity_connection_string() {
    let pods = vec![
        PodRef {
            namespace: "default".to_string(),
            role_group_service_name: "simple-hive-metastore-default".to_string(),
            pod_name: "simple-hive-metastore-default-0".to_string(),
        },
        PodRef {
            namespace: "default".to_string(),
            role_group_service_name: "simple-hive-metastore-default".to_string(),
            pod_name: "simple-hive-metastore-default-1".to_string(),
        },
    ];
    let conn = build_pod_identity_connection_string(&pods, Some("hbase")).unwrap();
    assert_eq!(
        conn,
        "thrift://simple-hive-metastore-default-0.simple-hive-metastore-default.default.svc.cluster.local:9083/hbase\n\
         thrift://simple-hive-metastore-default-1.simple-hive-metastore-default.default.svc.cluster.local:9083/hbase"
    );
}

#[test]
fn test_nodeport_connection_string_deduplicates_nodes() {
    let endpoints = vec![
        EndpointNode { node_name: "node-a".to_string(), ready: true },
        EndpointNode { node_name: "node-a".to_string(), ready: true },
        EndpointNode { node_name: "node-b".to_string(), ready: false },
        EndpointNode { node_name: "node-c".to_string(), ready: true },
    ];
    let conn = build_nodeport_connection_string(31000, &endpoints, None).unwrap();
    assert_eq!(conn, "thrift://node-a:31000\nthrift://node-c:31000");
}

#[test]
fn test_nodeport_connection_string_empty_without_endpoints() {
    // Zero usable endpoints is an empty, non-error result.
    let conn = build_nodeport_connection_string(31000, &Vec::new(), None).unwrap();
    assert_eq!(conn, "");
}

#[test]
fn test_listener_connection_string() {
    let status = ListenerStatusInfo {
        ingress_addresses: vec![ListenerIngressAddress {
            address: "hive.example.com".to_string(),
            ports: vec![NamedPort { name: "hive".to_string(), port: 9083 }],
        }],
    };
    let conn =
        build_listener_connection_string(&status, &"metastore".to_string(), Some("hbase")).unwrap();
    assert_eq!(conn, "thrift://hive.example.com:9083/hbase");
}

#[test]
fn test_listener_without_address_is_an_error() {
    let status = ListenerStatusInfo { ingress_addresses: Vec::new() };
    assert!(matches!(
        build_listener_connection_string(&status, &"metastore".to_string(), None),
        Err(Error::RoleListenerHasNoAddress { .. })
    ));
}

#[test]
fn test_listener_without_port_is_an_error() {
    let status = ListenerStatusInfo {
        ingress_addresses: vec![ListenerIngressAddress {
            address: "hive.example.com".to_string(),
            ports: vec![NamedPort { name: "metrics".to_string(), port: 9084 }],
        }],
    };
    assert!(matches!(
        build_listener_connection_string(&status, &"metastore".to_string(), None),
        Err(Error::NoServicePort { .. })
    ));
}

#[test]
fn test_discovery_hash_is_reproducible_and_sensitive() {
    let first = discovery_hash(&vec!["100".to_string(), "200".to_string()]);
    let again = discovery_hash(&vec!["100".to_string(), "200".to_string()]);
    let changed = discovery_hash(&vec!["100".to_string(), "201".to_string()]);
    assert_eq!(first, again);
    assert_ne!(first, changed);
}

#[test]
fn test_discovery_hash_exact_fold() {
    // One byte folded from zero: (0 xor 'x') * 1099511628211.
    assert_eq!(discovery_hash(&vec!["x".to_string()]), 131941395385320);
}

#[test]
fn test_build_status_carries_hash_and_conditions() {
    let status = build_status(&vec!["100".to_string()], Vec::new());
    assert!(status.discovery_hash.is_some());
    assert!(status.conditions.is_empty());
    let changed = build_status(&vec!["101".to_string()], Vec::new());
    assert_ne!(status.discovery_hash, changed.discovery_hash);
}

#[test]
fn test_connection_from_pods_without_name_is_an_error() {
    let mut pod = metastore_pod("ignored", Some("server1"));
    pod.name = None;
    let pods = vec![pod];
    assert!(matches!(
        get_hive_connection_string_from_pods(&pods, None),
        Err(Error::ObjectWithoutName { .. })
    ));
}
