use hive_operator::cluster::{
    ClusterOperation, CommonConfiguration, HiveCluster, HiveClusterConfig, HiveClusterSpec,
    HiveMetastoreRoleConfig, JvmArgumentOverrides, NamedRoleGroup, ObjectMeta, ProductImage,
    ResolvedProductImage, Role, RoleGroup,
};
use hive_operator::config::{
    ContainerLogConfig, LoggingFragment, MetaStoreConfigFragment, MetastoreStorageConfig,
    PvcConfig, Resources, StackableAffinity,
};
use hive_operator::controller::{
    next_state, orphaned_objects, storage_capacity_warning, synthesize, DesiredObject,
    DesiredObjectSet, Error, ExternalInputs, ReconcileAction, ReconcileEvent, ReconcileState,
};
use hive_operator::crd::{
    CurrentlySupportedListenerClasses, DatabaseConnectionSpec, DbType, HiveRole, Quantity,
    ResolvedS3Connection,
};
use hive_operator::props::{to_hadoop_xml, xml_escape, PropEntry};

fn empty_fragment() -> MetaStoreConfigFragment {
    MetaStoreConfigFragment {
        warehouse_dir: None,
        resources: Resources {
            cpu_min: None,
            cpu_max: None,
            memory_limit: None,
            storage: MetastoreStorageConfig {
                data: PvcConfig { capacity: None, storage_class: None, selectors: None },
            },
        },
        logging: LoggingFragment {
            enable_vector_agent: None,
            hive: ContainerLogConfig { choice: None },
            vector: ContainerLogConfig { choice: None },
        },
        affinity: StackableAffinity {
            anti_affinity_preferred: None,
            node_affinity_required: None,
            node_selector: None,
        },
        graceful_shutdown_timeout: None,
    }
}

fn empty_common() -> CommonConfiguration {
    CommonConfiguration {
        config: empty_fragment(),
        config_overrides: Vec::new(),
        env_overrides: Vec::new(),
        cli_overrides: Vec::new(),
        pod_overrides: None,
        jvm_argument_overrides: JvmArgumentOverrides::empty(),
    }
}

fn named_group(name: &str, replicas: u16) -> NamedRoleGroup {
    NamedRoleGroup {
        name: name.to_string(),
        group: RoleGroup { config: empty_common(), replicas: Some(replicas), selector: None },
    }
}

fn hive_with_groups(groups: Vec<NamedRoleGroup>) -> HiveCluster {
    HiveCluster {
        metadata: ObjectMeta {
            name: Some("simple-hive".to_string()),
            namespace: Some("default".to_string()),
            uid: Some("1".to_string()),
        },
        spec: HiveClusterSpec {
            cluster_config: HiveClusterConfig {
                authentication: None,
                authorization: None,
                database: DatabaseConnectionSpec {
                    conn_string: "jdbc:derby:;databaseName=/tmp/hive;create=true".to_string(),
                    db_type: DbType::Derby,
                    credentials_secret: "mySecret".to_string(),
                },
                hdfs: None,
                s3: None,
                vector_aggregator_config_map_name: None,
                listener_class: CurrentlySupportedListenerClasses::ClusterInternal,
            },
            cluster_operation: ClusterOperation { reconciliation_paused: false, stopped: false },
            image: ProductImage { product_version: "4.0.0".to_string() },
            metastore: Some(Role {
                config: empty_common(),
                role_config: HiveMetastoreRoleConfig::default(),
                role_groups: groups,
            }),
        },
        status: None,
    }
}

fn inputs() -> ExternalInputs {
    ExternalInputs {
        resolved_product_image: ResolvedProductImage {
            image: "oci.example.org/hive:4.0.0".to_string(),
            app_version_label: "4.0.0".to_string(),
            product_version: "4.0.0".to_string(),
        },
        s3: None,
        opa: None,
        cluster_domain: "cluster.local".to_string(),
        discovery_connection_string: None,
    }
}

fn object_names(set: &DesiredObjectSet) -> Vec<String> {
    set.objects
        .iter()
        .map(|o| match o {
            DesiredObject::Service(s) => s.name.clone(),
            DesiredObject::ConfigMap(c) => c.name.clone(),
            DesiredObject::Workload(w) => w.name.clone(),
            DesiredObject::RoleListener(l) => l.name.clone(),
            DesiredObject::Rbac(r) => r.service_account_name.clone(),
            DesiredObject::PodDisruptionBudget(p) => p.name.clone(),
        })
        .collect()
}

#[test]
fn test_single_derby_group_objects() {
    // One role group `default` with one replica on a derby database.
    let hive = hive_with_groups(vec![named_group("default", 1)]);
    let set = synthesize(&hive, &inputs()).unwrap();

    let workloads: Vec<_> = set
        .objects
        .iter()
        .filter_map(|o| match o {
            DesiredObject::Workload(w) => Some(w),
            _ => None,
        })
        .collect();
    assert_eq!(workloads.len(), 1);
    assert_eq!(workloads[0].replicas, 1);
    assert_eq!(workloads[0].name, "simple-hive-metastore-default");

    let headless: Vec<_> = set
        .objects
        .iter()
        .filter_map(|o| match o {
            DesiredObject::Service(s) if s.cluster_ip_none && !s.scrape_annotation => Some(s),
            _ => None,
        })
        .collect();
    assert_eq!(headless.len(), 1);
    let ports: Vec<u16> = headless[0].ports.iter().map(|p| p.port).collect();
    assert_eq!(ports, vec![9083, 9084]);

    let config_maps: Vec<_> = set
        .objects
        .iter()
        .filter_map(|o| match o {
            DesiredObject::ConfigMap(c) => Some(c),
            _ => None,
        })
        .collect();
    assert_eq!(config_maps.len(), 1);
    let hive_site = &config_maps[0]
        .data
        .iter()
        .find(|e| e.key == "hive-site.xml")
        .unwrap()
        .value;
    assert!(hive_site.contains("jdbc:derby:;databaseName=/tmp/hive;create=true"));
    assert!(hive_site.contains("hive.metastore.metrics.enabled"));
    assert!(hive_site.contains("<value>true</value>"));
    assert!(hive_site.contains("org.apache.derby.jdbc.EmbeddedDriver"));
}

#[test]
fn test_stopped_cluster_scales_to_zero() {
    // The stop flag forces the replica count to zero; everything else is
    // unchanged.
    let running = hive_with_groups(vec![named_group("default", 3)]);
    let mut stopped = hive_with_groups(vec![named_group("default", 3)]);
    stopped.spec.cluster_operation.stopped = true;

    let running_set = synthesize(&running, &inputs()).unwrap();
    let stopped_set = synthesize(&stopped, &inputs()).unwrap();

    let running_workload = running_set
        .objects
        .iter()
        .find_map(|o| match o {
            DesiredObject::Workload(w) => Some(w),
            _ => None,
        })
        .unwrap();
    let stopped_workload = stopped_set
        .objects
        .iter()
        .find_map(|o| match o {
            DesiredObject::Workload(w) => Some(w),
            _ => None,
        })
        .unwrap();
    assert_eq!(running_workload.replicas, 3);
    assert_eq!(stopped_workload.replicas, 0);
    assert_eq!(running_workload.name, stopped_workload.name);
    assert_eq!(running_workload.image, stopped_workload.image);
    assert_eq!(object_names(&running_set), object_names(&stopped_set));
}

#[test]
fn test_removed_role_group_is_collected() {
    // A role group removed between two passes: its objects are orphaned,
    // the other group's objects stay.
    let first = hive_with_groups(vec![named_group("default", 1), named_group("extra", 1)]);
    let second = hive_with_groups(vec![named_group("default", 1)]);
    let previous = object_names(&synthesize(&first, &inputs()).unwrap());
    let desired = object_names(&synthesize(&second, &inputs()).unwrap());
    let orphans = orphaned_objects(&previous, &desired);
    assert!(orphans.contains(&"simple-hive-metastore-extra".to_string()));
    assert!(orphans.contains(&"simple-hive-metastore-extra-headless".to_string()));
    assert!(orphans.contains(&"simple-hive-metastore-extra-metrics".to_string()));
    assert!(!orphans.iter().any(|n| n.starts_with("simple-hive-metastore-default")));
}

#[test]
fn test_synthesis_is_deterministic() {
    // Two passes over an unchanged cluster yield byte-identical rendered
    // configuration.
    let hive = hive_with_groups(vec![named_group("default", 1)]);
    let a = synthesize(&hive, &inputs()).unwrap();
    let b = synthesize(&hive, &inputs()).unwrap();
    assert_eq!(object_names(&a), object_names(&b));
    let data = |set: &DesiredObjectSet| -> Vec<(String, String)> {
        set.objects
            .iter()
            .filter_map(|o| match o {
                DesiredObject::ConfigMap(c) => Some(
                    c.data.iter().map(|e| (e.key.clone(), e.value.clone())).collect::<Vec<_>>(),
                ),
                _ => None,
            })
            .flatten()
            .collect()
    };
    assert_eq!(data(&a), data(&b));
}

#[test]
fn test_s3_without_verification_is_fatal() {
    let hive = hive_with_groups(vec![named_group("default", 1)]);
    let mut ext = inputs();
    ext.s3 = Some(ResolvedS3Connection {
        endpoint: "https://minio:9000".to_string(),
        region: "us-east-1".to_string(),
        access_key_file: None,
        secret_key_file: None,
        uses_tls: true,
        uses_tls_verification: false,
        tls_ca_cert_mount_path: None,
        path_style_access: true,
    });
    assert!(matches!(
        synthesize(&hive, &ext),
        Err(Error::S3TlsNoVerificationNotSupported)
    ));
}

#[test]
fn test_enabled_log_agent_needs_an_aggregator() {
    let mut group = named_group("default", 1);
    group.group.config.config.logging.enable_vector_agent = Some(true);
    let hive = hive_with_groups(vec![group]);
    assert!(matches!(
        synthesize(&hive, &inputs()),
        Err(Error::VectorAggregatorConfigMapMissing)
    ));
}

#[test]
fn test_missing_namespace_is_fatal() {
    let mut hive = hive_with_groups(vec![named_group("default", 1)]);
    hive.metadata.namespace = None;
    assert!(matches!(synthesize(&hive, &inputs()), Err(Error::ObjectHasNoNamespace)));
}

#[test]
fn test_error_policy_actions() {
    assert_eq!(
        hive_operator::controller::error_policy(&Error::InvalidHiveCluster),
        ReconcileAction::AwaitChange
    );
    assert_eq!(
        hive_operator::controller::error_policy(&Error::ObjectHasNoNamespace),
        ReconcileAction::RequeueSecs(5)
    );
}

#[test]
fn test_storage_capacity_warning_spares_the_marker() {
    let hive = hive_with_groups(vec![named_group("default", 1)]);
    let rgref = hive.metastore_rolegroup_ref("default");
    let mut merged = hive.merged_config(&HiveRole::MetaStore, &rgref).unwrap();
    assert!(storage_capacity_warning(&merged).is_none());
    merged.resources.storage.data.capacity = Some(Quantity { value: "10Gi".to_string() });
    let warning = storage_capacity_warning(&merged).unwrap();
    assert!(warning.contains("10Gi"));
    // The value itself stays in the configuration.
    assert_eq!(merged.resources.storage.data.capacity.unwrap().value, "10Gi");
}

#[test]
fn test_hadoop_xml_rendering_is_exact() {
    let bag = vec![PropEntry {
        key: "a<key>".to_string(),
        value: Some("v&w".to_string()),
    }];
    assert_eq!(
        to_hadoop_xml(&bag),
        "<?xml version=\"1.0\" encoding=\"UTF-8\"?>\n<configuration>\n  <property>\n    <name>a&lt;key&gt;</name>\n    <value>v&amp;w</value>\n  </property>\n</configuration>\n"
    );
    assert_eq!(xml_escape("<&>'\""), "&lt;&amp;&gt;&apos;&quot;");
}

#[test]
fn test_discovery_record_is_included_once_known() {
    let hive = hive_with_groups(vec![named_group("default", 1)]);
    let mut ext = inputs();
    ext.discovery_connection_string = Some("thrift://server1:9083".to_string());
    let set = synthesize(&hive, &ext).unwrap();
    let discovery = set
        .objects
        .iter()
        .find_map(|o| match o {
            DesiredObject::ConfigMap(c) if c.name == "simple-hive" => Some(c),
            _ => None,
        })
        .unwrap();
    assert_eq!(discovery.data.len(), 1);
    assert_eq!(discovery.data[0].key, "HIVE");
    assert_eq!(discovery.data[0].value, "thrift://server1:9083");
}

#[test]
fn test_reconcile_state_machine_order() {
    let mut state = ReconcileState::Idle;
    state = next_state(state, ReconcileEvent::SpecChanged);
    assert_eq!(state, ReconcileState::Validating);
    for expected in [
        ReconcileState::Resolving,
        ReconcileState::Synthesizing,
        ReconcileState::Applying,
        ReconcileState::StatusUpdating,
        ReconcileState::GarbageCollecting,
        ReconcileState::Idle,
    ] {
        state = next_state(state, ReconcileEvent::StepSucceeded);
        assert_eq!(state, expected);
    }
}

#[test]
fn test_reconcile_failure_short_circuits() {
    let failed = next_state(
        ReconcileState::Resolving,
        ReconcileEvent::StepFailed { structural: false },
    );
    assert_eq!(failed, ReconcileState::Failed);
    // A failed pass rests until its backoff ends or the resource changes.
    assert_eq!(
        next_state(ReconcileState::Failed, ReconcileEvent::OwnedObjectChanged),
        ReconcileState::Failed
    );
    assert_eq!(
        next_state(ReconcileState::Failed, ReconcileEvent::ResyncDue),
        ReconcileState::Validating
    );
    assert_eq!(
        next_state(ReconcileState::Failed, ReconcileEvent::SpecChanged),
        ReconcileState::Validating
    );
}

#[test]
fn test_synthesize_without_role_is_fatal() {
    let mut hive = hive_with_groups(Vec::new());
    hive.spec.metastore = None;
    assert!(matches!(synthesize(&hive, &inputs()), Err(Error::NoMetaStoreRole)));
}
