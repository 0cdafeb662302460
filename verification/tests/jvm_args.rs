use hive_operator::cluster::{
    ClusterOperation, CommonConfiguration, HiveCluster, HiveClusterConfig, HiveClusterSpec,
    HiveMetastoreRoleConfig, JvmArgumentOverrides, NamedRoleGroup, ObjectMeta, ProductImage, Role,
    RoleGroup,
};
use hive_operator::config::{
    ContainerLogConfig, LoggingFragment, MetaStoreConfigFragment, MetastoreStorageConfig,
    PvcConfig, Resources, StackableAffinity,
};
use hive_operator::crd::{
    CurrentlySupportedListenerClasses, DatabaseConnectionSpec, DbType, HiveRole, Quantity,
};
use hive_operator::jvm::{construct_hadoop_heapsize_env, construct_non_heap_jvm_args};

fn empty_fragment() -> MetaStoreConfigFragment {
    MetaStoreConfigFragment {
        warehouse_dir: None,
        resources: Resources {
            cpu_min: None,
            cpu_max: None,
            memory_limit: None,
            storage: MetastoreStorageConfig {
                data: PvcConfig { capacity: None, storage_class: None, selectors: None },
            },
        },
        logging: LoggingFragment {
            enable_vector_agent: None,
            hive: ContainerLogConfig { choice: None },
            vector: ContainerLogConfig { choice: None },
        },
        affinity: StackableAffinity {
            anti_affinity_preferred: None,
            node_affinity_required: None,
            node_selector: None,
        },
        graceful_shutdown_timeout: None,
    }
}

fn empty_common() -> CommonConfiguration {
    CommonConfiguration {
        config: empty_fragment(),
        config_overrides: Vec::new(),
        env_overrides: Vec::new(),
        cli_overrides: Vec::new(),
        pod_overrides: None,
        jvm_argument_overrides: JvmArgumentOverrides::empty(),
    }
}

fn simple_hive(role: Role) -> HiveCluster {
    HiveCluster {
        metadata: ObjectMeta {
            name: Some("simple-hive".to_string()),
            namespace: Some("default".to_string()),
            uid: Some("1".to_string()),
        },
        spec: HiveClusterSpec {
            cluster_config: HiveClusterConfig {
                authentication: None,
                authorization: None,
                database: DatabaseConnectionSpec {
                    conn_string: "jdbc:derby:;databaseName=/tmp/hive;create=true".to_string(),
                    db_type: DbType::Derby,
                    credentials_secret: "mySecret".to_string(),
                },
                hdfs: None,
                s3: None,
                vector_aggregator_config_map_name: None,
                listener_class: CurrentlySupportedListenerClasses::ClusterInternal,
            },
            cluster_operation: ClusterOperation { reconciliation_paused: false, stopped: false },
            image: ProductImage { product_version: "4.0.0".to_string() },
            metastore: Some(role),
        },
        status: None,
    }
}

fn default_role_group() -> NamedRoleGroup {
    NamedRoleGroup {
        name: "default".to_string(),
        group: RoleGroup { config: empty_common(), replicas: Some(1), selector: None },
    }
}

#[test]
fn test_construct_jvm_arguments_defaults() {
    let role = Role {
        config: empty_common(),
        role_config: HiveMetastoreRoleConfig::default(),
        role_groups: vec![default_role_group()],
    };
    let hive = simple_hive(role);
    let rolegroup_ref = hive.metastore_rolegroup_ref("default");
    let merged_config = hive.merged_config(&HiveRole::MetaStore, &rolegroup_ref).unwrap();
    let role = hive.spec.metastore.as_ref().unwrap();

    let non_heap_jvm_args =
        construct_non_heap_jvm_args(&hive, &merged_config, role, "default").unwrap();
    let hadoop_heapsize_env = construct_hadoop_heapsize_env(&merged_config).unwrap();

    assert_eq!(
        non_heap_jvm_args,
        "-Djava.security.properties=/stackable/config/security.properties \
        -javaagent:/stackable/jmx/jmx_prometheus_javaagent.jar=9084:/stackable/jmx/jmx_hive_config.yaml \
        -Djavax.net.ssl.trustStore=/stackable/truststore.p12 \
        -Djavax.net.ssl.trustStorePassword=changeit \
        -Djavax.net.ssl.trustStoreType=pkcs12"
    );
    assert_eq!(hadoop_heapsize_env, "409");
}

#[test]
fn test_construct_jvm_argument_overrides() {
    let mut role_config_fragment = empty_fragment();
    role_config_fragment.resources.memory_limit = Some(Quantity { value: "42Gi".to_string() });
    let role_common = CommonConfiguration {
        config: role_config_fragment,
        config_overrides: Vec::new(),
        env_overrides: Vec::new(),
        cli_overrides: Vec::new(),
        pod_overrides: None,
        jvm_argument_overrides: JvmArgumentOverrides {
            add: vec![
                "-Dhttps.proxyHost=proxy.my.corp".to_string(),
                "-Dhttps.proxyPort=8080".to_string(),
                "-Djava.net.preferIPv4Stack=true".to_string(),
            ],
            remove: Vec::new(),
            remove_regex: Vec::new(),
        },
    };
    let group = RoleGroup {
        config: CommonConfiguration {
            config: empty_fragment(),
            config_overrides: Vec::new(),
            env_overrides: Vec::new(),
            cli_overrides: Vec::new(),
            pod_overrides: None,
            jvm_argument_overrides: JvmArgumentOverrides {
                add: vec!["-Xmx40000m".to_string(), "-Dhttps.proxyPort=1234".to_string()],
                remove: Vec::new(),
                remove_regex: vec!["-Xmx.*".to_string(), "-Dhttps.proxyPort=.*".to_string()],
            },
        },
        replicas: Some(1),
        selector: None,
    };
    let role = Role {
        config: role_common,
        role_config: HiveMetastoreRoleConfig::default(),
        role_groups: vec![NamedRoleGroup { name: "default".to_string(), group }],
    };
    let hive = simple_hive(role);
    let rolegroup_ref = hive.metastore_rolegroup_ref("default");
    let merged_config = hive.merged_config(&HiveRole::MetaStore, &rolegroup_ref).unwrap();
    let role = hive.spec.metastore.as_ref().unwrap();

    let non_heap_jvm_args =
        construct_non_heap_jvm_args(&hive, &merged_config, role, "default").unwrap();
    let hadoop_heapsize_env = construct_hadoop_heapsize_env(&merged_config).unwrap();

    assert_eq!(
        non_heap_jvm_args,
        "-Djava.security.properties=/stackable/config/security.properties \
        -javaagent:/stackable/jmx/jmx_prometheus_javaagent.jar=9084:/stackable/jmx/jmx_hive_config.yaml \
        -Djavax.net.ssl.trustStore=/stackable/truststore.p12 \
        -Djavax.net.ssl.trustStorePassword=changeit \
        -Djavax.net.ssl.trustStoreType=pkcs12 \
        -Dhttps.proxyHost=proxy.my.corp \
        -Djava.net.preferIPv4Stack=true \
        -Dhttps.proxyPort=1234"
    );
    assert_eq!(hadoop_heapsize_env, "34406");
}

#[test]
fn test_heapsize_missing_memory_limit() {
    let hive = simple_hive(Role {
        config: empty_common(),
        role_config: HiveMetastoreRoleConfig::default(),
        role_groups: vec![default_role_group()],
    });
    let rolegroup_ref = hive.metastore_rolegroup_ref("default");
    let mut merged_config =
        hive.merged_config(&HiveRole::MetaStore, &rolegroup_ref).unwrap();
    merged_config.resources.memory_limit = None;
    assert!(matches!(
        construct_hadoop_heapsize_env(&merged_config),
        Err(hive_operator::jvm::Error::MissingMemoryResourceConfig)
    ));
}

#[test]
fn test_heapsize_invalid_memory_limit() {
    let hive = simple_hive(Role {
        config: empty_common(),
        role_config: HiveMetastoreRoleConfig::default(),
        role_groups: vec![default_role_group()],
    });
    let rolegroup_ref = hive.metastore_rolegroup_ref("default");
    let mut merged_config =
        hive.merged_config(&HiveRole::MetaStore, &rolegroup_ref).unwrap();
    merged_config.resources.memory_limit = Some(Quantity { value: "lots".to_string() });
    assert!(matches!(
        construct_hadoop_heapsize_env(&merged_config),
        Err(hive_operator::jvm::Error::InvalidMemoryConfig)
    ));
}

#[test]
fn test_invalid_removal_pattern_is_rejected() {
    let group = RoleGroup {
        config: CommonConfiguration {
            config: empty_fragment(),
            config_overrides: Vec::new(),
            env_overrides: Vec::new(),
            cli_overrides: Vec::new(),
            pod_overrides: None,
            jvm_argument_overrides: JvmArgumentOverrides {
                add: Vec::new(),
                remove: Vec::new(),
                remove_regex: vec!["-Xmx[".to_string()],
            },
        },
        replicas: Some(1),
        selector: None,
    };
    let role = Role {
        config: empty_common(),
        role_config: HiveMetastoreRoleConfig::default(),
        role_groups: vec![NamedRoleGroup { name: "default".to_string(), group }],
    };
    let hive = simple_hive(role);
    let rolegroup_ref = hive.metastore_rolegroup_ref("default");
    let merged_config = hive.merged_config(&HiveRole::MetaStore, &rolegroup_ref).unwrap();
    let role = hive.spec.metastore.as_ref().unwrap();
    assert!(matches!(
        construct_non_heap_jvm_args(&hive, &merged_config, role, "default"),
        Err(hive_operator::jvm::Error::MergeJvmArgumentOverrides { .. })
    ));
}
