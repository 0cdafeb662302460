use hive_operator::cluster::{
    ClusterOperation, CommonConfiguration, HiveCluster, HiveClusterConfig, HiveClusterSpec,
    HiveMetastoreRoleConfig, JvmArgumentOverrides, NamedRoleGroup, ObjectMeta, ProductImage, Role,
    RoleGroup,
};
use hive_operator::config::{
    ContainerLogConfig, LabelSelector, LoggingFragment, MetaStoreConfigFragment,
    MetastoreStorageConfig, PvcConfig, Resources, SelectorRequirement, StackableAffinity,
};
use hive_operator::crd::{
    CurrentlySupportedListenerClasses, DatabaseConnectionSpec, DbType, Duration, Error, HiveRole,
    KeyValue, Quantity,
};

fn empty_fragment() -> MetaStoreConfigFragment {
    MetaStoreConfigFragment {
        warehouse_dir: None,
        resources: Resources {
            cpu_min: None,
            cpu_max: None,
            memory_limit: None,
            storage: MetastoreStorageConfig {
                data: PvcConfig { capacity: None, storage_class: None, selectors: None },
            },
        },
        logging: LoggingFragment {
            enable_vector_agent: None,
            hive: ContainerLogConfig { choice: None },
            vector: ContainerLogConfig { choice: None },
        },
        affinity: StackableAffinity {
            anti_affinity_preferred: None,
            node_affinity_required: None,
            node_selector: None,
        },
        graceful_shutdown_timeout: None,
    }
}

fn common_with(config: MetaStoreConfigFragment) -> CommonConfiguration {
    CommonConfiguration {
        config,
        config_overrides: Vec::new(),
        env_overrides: Vec::new(),
        cli_overrides: Vec::new(),
        pod_overrides: None,
        jvm_argument_overrides: JvmArgumentOverrides::empty(),
    }
}

fn hive_with(role: Role) -> HiveCluster {
    HiveCluster {
        metadata: ObjectMeta {
            name: Some("simple-hive".to_string()),
            namespace: Some("default".to_string()),
            uid: Some("1".to_string()),
        },
        spec: HiveClusterSpec {
            cluster_config: HiveClusterConfig {
                authentication: None,
                authorization: None,
                database: DatabaseConnectionSpec {
                    conn_string: "jdbc:derby:;databaseName=/tmp/hive;create=true".to_string(),
                    db_type: DbType::Derby,
                    credentials_secret: "mySecret".to_string(),
                },
                hdfs: None,
                s3: None,
                vector_aggregator_config_map_name: None,
                listener_class: CurrentlySupportedListenerClasses::ClusterInternal,
            },
            cluster_operation: ClusterOperation { reconciliation_paused: false, stopped: false },
            image: ProductImage { product_version: "4.0.0".to_string() },
            metastore: Some(role),
        },
        status: None,
    }
}

#[test]
fn test_defaults_populate_every_required_field() {
    let role = Role {
        config: common_with(empty_fragment()),
        role_config: HiveMetastoreRoleConfig::default(),
        role_groups: vec![NamedRoleGroup {
            name: "default".to_string(),
            group: RoleGroup { config: common_with(empty_fragment()), replicas: Some(1), selector: None },
        }],
    };
    let hive = hive_with(role);
    let rgref = hive.metastore_rolegroup_ref("default");
    let merged = hive.merged_config(&HiveRole::MetaStore, &rgref).unwrap();
    assert_eq!(merged.resources.cpu_min.as_ref().unwrap().value, "250m");
    assert_eq!(merged.resources.cpu_max.as_ref().unwrap().value, "1000m");
    assert_eq!(merged.resources.memory_limit.as_ref().unwrap().value, "512Mi");
    assert_eq!(merged.resources.storage.data.capacity.as_ref().unwrap().value, "0Mi");
    assert!(!merged.logging.enable_vector_agent);
    assert_eq!(merged.graceful_shutdown_timeout, Some(Duration { secs: 300 }));
    let preferred = merged.affinity.anti_affinity_preferred.as_ref().unwrap();
    assert_eq!(preferred.len(), 1);
    assert_eq!(preferred[0].weight, 70);
    assert_eq!(preferred[0].topology_key, "kubernetes.io/hostname");
}

#[test]
fn test_merge_precedence_and_fallthrough() {
    // Role sets the warehouse directory and the memory limit; the role
    // group overrides only the memory limit.
    let mut role_fragment = empty_fragment();
    role_fragment.warehouse_dir = Some("/role/warehouse".to_string());
    role_fragment.resources.memory_limit = Some(Quantity { value: "1Gi".to_string() });
    let mut group_fragment = empty_fragment();
    group_fragment.resources.memory_limit = Some(Quantity { value: "2Gi".to_string() });
    let role = Role {
        config: common_with(role_fragment),
        role_config: HiveMetastoreRoleConfig::default(),
        role_groups: vec![NamedRoleGroup {
            name: "default".to_string(),
            group: RoleGroup { config: common_with(group_fragment), replicas: Some(1), selector: None },
        }],
    };
    let hive = hive_with(role);
    let rgref = hive.metastore_rolegroup_ref("default");
    let merged = hive.merged_config(&HiveRole::MetaStore, &rgref).unwrap();
    // Role group wins where it speaks.
    assert_eq!(merged.resources.memory_limit.as_ref().unwrap().value, "2Gi");
    // The role's value falls through where the group is silent.
    assert_eq!(merged.warehouse_dir.as_deref(), Some("/role/warehouse"));
    // The defaults fall through where both are silent.
    assert_eq!(merged.resources.cpu_min.as_ref().unwrap().value, "250m");
}

#[test]
fn test_legacy_selector_becomes_affinity() {
    // A role group with the deprecated selector carrying exact labels
    // and a zone expression.
    let selector = LabelSelector {
        match_labels: vec![KeyValue { key: "disktype".to_string(), value: "ssd".to_string() }],
        match_expressions: vec![SelectorRequirement {
            key: "topology.kubernetes.io/zone".to_string(),
            operator: "In".to_string(),
            values: vec!["antarctica-east1".to_string()],
        }],
    };
    let role = Role {
        config: common_with(empty_fragment()),
        role_config: HiveMetastoreRoleConfig::default(),
        role_groups: vec![NamedRoleGroup {
            name: "default".to_string(),
            group: RoleGroup {
                config: common_with(empty_fragment()),
                replicas: Some(1),
                selector: Some(selector),
            },
        }],
    };
    let hive = hive_with(role);
    let rgref = hive.metastore_rolegroup_ref("default");
    let merged = hive.merged_config(&HiveRole::MetaStore, &rgref).unwrap();
    // The default anti-affinity preference at weight 70 is kept.
    let preferred = merged.affinity.anti_affinity_preferred.as_ref().unwrap();
    assert_eq!(preferred[0].weight, 70);
    // The zone expression became a required node-affinity term.
    let required = merged.affinity.node_affinity_required.as_ref().unwrap();
    assert_eq!(required.len(), 1);
    assert_eq!(required[0].key, "topology.kubernetes.io/zone");
    assert_eq!(required[0].operator, "In");
    assert_eq!(required[0].values, vec!["antarctica-east1".to_string()]);
    // The exact labels became the node selector.
    let node_selector = merged.affinity.node_selector.as_ref().unwrap();
    assert_eq!(node_selector.len(), 1);
    assert_eq!(node_selector[0].key, "disktype");
    assert_eq!(node_selector[0].value, "ssd");
}

#[test]
fn test_missing_role_is_reported() {
    let mut hive = hive_with(Role {
        config: common_with(empty_fragment()),
        role_config: HiveMetastoreRoleConfig::default(),
        role_groups: Vec::new(),
    });
    hive.spec.metastore = None;
    let rgref = hive.metastore_rolegroup_ref("default");
    assert!(matches!(
        hive.merged_config(&HiveRole::MetaStore, &rgref),
        Err(Error::CannotRetrieveHiveRole { .. })
    ));
}

#[test]
fn test_missing_role_group_is_reported() {
    let hive = hive_with(Role {
        config: common_with(empty_fragment()),
        role_config: HiveMetastoreRoleConfig::default(),
        role_groups: vec![NamedRoleGroup {
            name: "default".to_string(),
            group: RoleGroup { config: common_with(empty_fragment()), replicas: Some(1), selector: None },
        }],
    });
    let rgref = hive.metastore_rolegroup_ref("missing");
    assert!(matches!(
        hive.merged_config(&HiveRole::MetaStore, &rgref),
        Err(Error::CannotRetrieveHiveRoleGroup { .. })
    ));
}

#[test]
fn test_unknown_role_is_reported() {
    let hive = hive_with(Role {
        config: common_with(empty_fragment()),
        role_config: HiveMetastoreRoleConfig::default(),
        role_groups: Vec::new(),
    });
    let mut rgref = hive.metastore_rolegroup_ref("default");
    rgref.role = "druid".to_string();
    assert!(matches!(hive.rolegroup(&rgref), Err(Error::UnknownHiveRole { .. })));
}

#[test]
fn test_predicted_pods() {
    let hive = hive_with(Role {
        config: common_with(empty_fragment()),
        role_config: HiveMetastoreRoleConfig::default(),
        role_groups: vec![NamedRoleGroup {
            name: "default".to_string(),
            group: RoleGroup { config: common_with(empty_fragment()), replicas: Some(2), selector: None },
        }],
    });
    let pods = hive.pods().unwrap();
    assert_eq!(pods.len(), 2);
    assert_eq!(pods[0].pod_name, "simple-hive-metastore-default-0");
    assert_eq!(pods[1].pod_name, "simple-hive-metastore-default-1");
    assert_eq!(
        pods[0].fqdn(),
        "simple-hive-metastore-default-0.simple-hive-metastore-default.default.svc.cluster.local"
    );
}

#[test]
fn test_object_naming_is_stable() {
    let hive = hive_with(Role {
        config: common_with(empty_fragment()),
        role_config: HiveMetastoreRoleConfig::default(),
        role_groups: Vec::new(),
    });
    let rgref = hive.metastore_rolegroup_ref("default");
    assert_eq!(rgref.object_name(), "simple-hive-metastore-default");
    assert_eq!(rgref.object_name(), "simple-hive-metastore-default");
    assert_eq!(hive.role_listener_name(&HiveRole::MetaStore), "simple-hive-metastore");
}

#[test]
fn test_validation_names_the_missing_field() {
    // A bare fragment without the defaults layer lacks the required
    // logging switch.
    let outcome = hive_operator::config::validate(empty_fragment());
    assert!(matches!(
        outcome,
        Err(Error::FragmentValidationFailure { .. })
    ));
}
