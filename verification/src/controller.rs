//! The resource synthesizer and reconcile decisions: turns a cluster
//! resource plus resolved external inputs into the complete desired
//! object set of one pass, diffs it against the previously owned
//! objects, and maps errors to the retry policy.

use vstd::prelude::*;

verus! {

use vstd::string::*;
use crate::cluster::{
    HiveCluster, ResolvedProductImage, Role, RoleGroup,
};
use crate::command::{spec_command_lines, spec_s3_ca, spec_opa_ca, build_container_command_args};
use crate::config::{MetaStoreConfig, StackableAffinity, StackableAffinityView, ContainerLogChoice, ContainerLogChoiceView, dup_affinity, dup_opt_string};
use crate::crd::{
    Duration, HiveRole, KeyValue, KeyValueView, ResolvedS3Connection, RoleGroupRef,
    RoleGroupRefView,
};
use crate::jvm::{
    spec_config_heap_mib, spec_jvm_args_pipeline, spec_group_overrides, spec_non_heap,
};
use crate::opa::{HiveOpaConfig, spec_is_v3, spec_opa_config};
use crate::product::{PropertyTable, spec_property_table, transform_metastore_config};
use crate::props::{
    PropEntry, PropEntryView, bag_set, bag_set_all, spec_bag_set, spec_bag_set_all, spec_hadoop_xml,
    spec_java_properties, to_hadoop_xml, to_java_properties,
};
use crate::service::{
    NamedPort, NamedPortView, ServiceModel, ServiceModelView, build_recommended_labels,
    build_role_service, build_rolegroup_headless_service, build_rolegroup_metrics_service,
    role_group_selector_labels, spec_headless_service, spec_metrics_service,
    spec_recommended_labels, spec_role_group_selector_labels, spec_role_service,
};
use crate::strutil::{concat3, spec_dec, spec_join};

/// What can go wrong during one reconcile pass.
#[derive(Debug)]
pub enum Error {
    /// The cluster resource carries no namespace.
    ObjectHasNoNamespace,
    /// The cluster defines no metastore role.
    NoMetaStoreRole,
    /// Skipping the verification of a TLS-enabled S3 server is not
    /// supported by the product.
    S3TlsNoVerificationNotSupported,
    /// The log agent is enabled but no aggregator address record was
    /// named.
    VectorAggregatorConfigMapMissing,
    /// Resolving the layered configuration failed.
    FailedToResolveResourceConfig { source: crate::crd::Error },
    /// Building the JVM arguments failed.
    ConstructJvmArguments { source: crate::jvm::Error },
    /// The cluster resource itself could not be read; await a new one.
    InvalidHiveCluster,
}

/// What the controller does after a pass, per §retry policy: await the
/// next change for structurally broken input, retry on a fixed delay
/// otherwise.
#[derive(Clone, Copy, PartialEq, Eq, Structural, Debug)]
pub enum ReconcileAction {
    AwaitChange,
    RequeueSecs(u64),
}

/// The retry policy: a malformed cluster resource is not retried
/// aggressively but awaits the next change; every other error is
/// retried after a fixed five-second delay.
pub fn error_policy(error: &Error) -> (r: ReconcileAction)
    ensures
        error is InvalidHiveCluster ==> r == ReconcileAction::AwaitChange,
        !(error is InvalidHiveCluster) ==> r == ReconcileAction::RequeueSecs(5),
{
    match error {
        Error::InvalidHiveCluster => ReconcileAction::AwaitChange,
        _ => ReconcileAction::RequeueSecs(5),
    }
}

// ---------------------------------------------------------------------------
// Desired object models.
// ---------------------------------------------------------------------------

/// A desired config map.
pub struct ConfigMapModel {
    pub name: String,
    pub namespace: String,
    pub owner: String,
    pub labels: Vec<KeyValue>,
    pub data: Vec<KeyValue>,
}

/// Ghost image of a [`ConfigMapModel`].
pub ghost struct ConfigMapModelView {
    pub name: Seq<char>,
    pub namespace: Seq<char>,
    pub owner: Seq<char>,
    pub labels: Seq<KeyValueView>,
    pub data: Seq<KeyValueView>,
}

impl DeepView for ConfigMapModel {
    type V = ConfigMapModelView;

    open spec fn deep_view(&self) -> ConfigMapModelView {
        ConfigMapModelView {
            name: self.name@,
            namespace: self.namespace@,
            owner: self.owner@,
            labels: self.labels.deep_view(),
            data: self.data.deep_view(),
        }
    }
}

/// A desired workload: the stateful set running one role group.
pub struct WorkloadModel {
    pub name: String,
    pub namespace: String,
    pub owner: String,
    pub labels: Vec<KeyValue>,
    /// Desired replicas; forced to zero while the cluster is stopped.
    pub replicas: u16,
    pub selector: Vec<KeyValue>,
    /// The headless service giving pods their stable identity.
    pub service_name: String,
    pub image: String,
    /// The secret whose `username`/`password` keys the container reads.
    pub credentials_secret: String,
    pub env: Vec<KeyValue>,
    /// The single shell argument of the main container.
    pub command_args: Vec<String>,
    pub container_ports: Vec<NamedPort>,
    pub affinity: StackableAffinity,
    pub graceful_shutdown_timeout: Option<Duration>,
    /// Where the logging configuration is read from.
    pub log_config_map: String,
    /// The config map mounted as the configuration source.
    pub config_map: String,
    pub kerberos_secret_class: Option<String>,
    pub hdfs_config_map: Option<String>,
    /// Whether the log agent container runs beside the product.
    pub vector_container: bool,
    pub service_account_name: String,
    /// Opaque pod-template override documents, role layer first; the
    /// platform's own merge applies them.
    pub pod_overrides: Vec<String>,
}

/// Ghost image of a [`WorkloadModel`].
pub ghost struct WorkloadModelView {
    pub name: Seq<char>,
    pub namespace: Seq<char>,
    pub owner: Seq<char>,
    pub labels: Seq<KeyValueView>,
    pub replicas: u16,
    pub selector: Seq<KeyValueView>,
    pub service_name: Seq<char>,
    pub image: Seq<char>,
    pub credentials_secret: Seq<char>,
    pub env: Seq<KeyValueView>,
    pub command_args: Seq<Seq<char>>,
    pub container_ports: Seq<NamedPortView>,
    pub affinity: StackableAffinityView,
    pub graceful_shutdown_timeout: Option<Duration>,
    pub log_config_map: Seq<char>,
    pub config_map: Seq<char>,
    pub kerberos_secret_class: Option<Seq<char>>,
    pub hdfs_config_map: Option<Seq<char>>,
    pub vector_container: bool,
    pub service_account_name: Seq<char>,
    pub pod_overrides: Seq<Seq<char>>,
}

impl DeepView for WorkloadModel {
    type V = WorkloadModelView;

    open spec fn deep_view(&self) -> WorkloadModelView {
        WorkloadModelView {
            name: self.name@,
            namespace: self.namespace@,
            owner: self.owner@,
            labels: self.labels.deep_view(),
            replicas: self.replicas,
            selector: self.selector.deep_view(),
            service_name: self.service_name@,
            image: self.image@,
            credentials_secret: self.credentials_secret@,
            env: self.env.deep_view(),
            command_args: self.command_args.deep_view(),
            container_ports: self.container_ports.deep_view(),
            affinity: self.affinity.deep_view(),
            graceful_shutdown_timeout: self.graceful_shutdown_timeout,
            log_config_map: self.log_config_map@,
            config_map: self.config_map@,
            kerberos_secret_class: self.kerberos_secret_class.deep_view(),
            hdfs_config_map: self.hdfs_config_map.deep_view(),
            vector_container: self.vector_container,
            service_account_name: self.service_account_name@,
            pod_overrides: self.pod_overrides.deep_view(),
        }
    }
}

/// A desired role listener.
pub struct ListenerModel {
    pub name: String,
    pub namespace: String,
    pub owner: String,
    pub labels: Vec<KeyValue>,
    pub class_name: String,
    pub ports: Vec<NamedPort>,
}

/// Ghost image of a [`ListenerModel`].
pub ghost struct ListenerModelView {
    pub name: Seq<char>,
    pub namespace: Seq<char>,
    pub owner: Seq<char>,
    pub labels: Seq<KeyValueView>,
    pub class_name: Seq<char>,
    pub ports: Seq<NamedPortView>,
}

impl DeepView for ListenerModel {
    type V = ListenerModelView;

    open spec fn deep_view(&self) -> ListenerModelView {
        ListenerModelView {
            name: self.name@,
            namespace: self.namespace@,
            owner: self.owner@,
            labels: self.labels.deep_view(),
            class_name: self.class_name@,
            ports: self.ports.deep_view(),
        }
    }
}

/// A desired pod disruption budget.
pub struct PdbModel {
    pub name: String,
    pub namespace: String,
    pub owner: String,
    pub max_unavailable: u16,
    pub selector: Vec<KeyValue>,
}

/// Ghost image of a [`PdbModel`].
pub ghost struct PdbModelView {
    pub name: Seq<char>,
    pub namespace: Seq<char>,
    pub owner: Seq<char>,
    pub max_unavailable: u16,
    pub selector: Seq<KeyValueView>,
}

impl DeepView for PdbModel {
    type V = PdbModelView;

    open spec fn deep_view(&self) -> PdbModelView {
        PdbModelView {
            name: self.name@,
            namespace: self.namespace@,
            owner: self.owner@,
            max_unavailable: self.max_unavailable,
            selector: self.selector.deep_view(),
        }
    }
}

/// The service identity and its binding that the pods run under.
pub struct RbacModel {
    pub service_account_name: String,
    pub role_binding_name: String,
    pub cluster_role: String,
    pub namespace: String,
    pub owner: String,
}

/// Ghost image of a [`RbacModel`].
pub ghost struct RbacModelView {
    pub service_account_name: Seq<char>,
    pub role_binding_name: Seq<char>,
    pub cluster_role: Seq<char>,
    pub namespace: Seq<char>,
    pub owner: Seq<char>,
}

impl DeepView for RbacModel {
    type V = RbacModelView;

    open spec fn deep_view(&self) -> RbacModelView {
        RbacModelView {
            service_account_name: self.service_account_name@,
            role_binding_name: self.role_binding_name@,
            cluster_role: self.cluster_role@,
            namespace: self.namespace@,
            owner: self.owner@,
        }
    }
}

/// One desired child object.
pub enum DesiredObject {
    Service(ServiceModel),
    ConfigMap(ConfigMapModel),
    Workload(WorkloadModel),
    RoleListener(ListenerModel),
    Rbac(RbacModel),
    PodDisruptionBudget(PdbModel),
}

/// Ghost image of a [`DesiredObject`].
pub ghost enum DesiredObjectView {
    Service(ServiceModelView),
    ConfigMap(ConfigMapModelView),
    Workload(WorkloadModelView),
    RoleListener(ListenerModelView),
    Rbac(RbacModelView),
    PodDisruptionBudget(PdbModelView),
}

impl DeepView for DesiredObject {
    type V = DesiredObjectView;

    open spec fn deep_view(&self) -> DesiredObjectView {
        match self {
            DesiredObject::Service(s) => DesiredObjectView::Service(s.deep_view()),
            DesiredObject::ConfigMap(c) => DesiredObjectView::ConfigMap(c.deep_view()),
            DesiredObject::Workload(w) => DesiredObjectView::Workload(w.deep_view()),
            DesiredObject::RoleListener(l) => DesiredObjectView::RoleListener(l.deep_view()),
            DesiredObject::Rbac(r) => DesiredObjectView::Rbac(r.deep_view()),
            DesiredObject::PodDisruptionBudget(p) => DesiredObjectView::PodDisruptionBudget(
                p.deep_view(),
            ),
        }
    }
}

/// The resolved inputs one pass needs beside the cluster resource, all
/// supplied by external collaborators.
pub struct ExternalInputs {
    pub resolved_product_image: ResolvedProductImage,
    pub s3: Option<ResolvedS3Connection>,
    pub opa: Option<HiveOpaConfig>,
    /// The cluster's DNS domain.
    pub cluster_domain: String,
    /// The client connection string derived from runtime exposure state,
    /// once one is known; its discovery record is only produced then.
    pub discovery_connection_string: Option<String>,
}

// ---------------------------------------------------------------------------
// The rendered config map of one role group.
// ---------------------------------------------------------------------------

/// The entries of the connection-properties file, layered per the value
/// precedence: static required settings, then integration settings
/// (S3, authorization, Kerberos), then the validated table with the
/// user's raw overrides, which always win.
pub open spec fn spec_hive_site_bag(
    hive: HiveCluster,
    ext: ExternalInputs,
    table: crate::product::PropertyTableView,
    namespace: Seq<char>,
) -> Seq<PropEntryView> {
    let statics = seq![
        PropEntryView { key: "hive.metastore.warehouse.dir"@, value: Some("/stackable/warehouse"@) },
    ];
    let with_s3 = match ext.s3 {
        Some(s3) => spec_bag_set_all(statics, spec_s3_properties(s3)),
        None => statics,
    };
    let with_opa = match ext.opa {
        Some(opa) => spec_bag_set_all(
            with_s3,
            spec_opa_config(opa.base_endpoint@, ext.resolved_product_image.product_version@),
        ),
        None => with_s3,
    };
    let with_kerberos = spec_bag_set_all(
        with_opa,
        crate::kerberos::spec_kerberos_config_properties(hive, namespace, ext.cluster_domain@),
    );
    spec_entries_onto(with_kerberos, table.hive_site)
}

/// The S3 entries of the connection-properties file.
pub open spec fn spec_s3_properties(s3: ResolvedS3Connection) -> Seq<KeyValueView> {
    seq![
        KeyValueView { key: "fs.s3a.endpoint"@, value: s3.endpoint@ },
        KeyValueView { key: "fs.s3a.endpoint.region"@, value: s3.region@ },
    ] + (match s3.access_key_file {
        Some(f) => seq![
            KeyValueView { key: "fs.s3a.access.key"@, value: "${file:UTF-8:"@ + f@ + "}"@ },
        ],
        None => Seq::empty(),
    }) + (match s3.secret_key_file {
        Some(f) => seq![
            KeyValueView { key: "fs.s3a.secret.key"@, value: "${file:UTF-8:"@ + f@ + "}"@ },
        ],
        None => Seq::empty(),
    }) + seq![
        KeyValueView {
            key: "fs.s3a.connection.ssl.enabled"@,
            value: if s3.uses_tls {
                "true"@
            } else {
                "false"@
            },
        },
        KeyValueView {
            key: "fs.s3a.path.style.access"@,
            value: if s3.path_style_access {
                "true"@
            } else {
                "false"@
            },
        },
    ]
}

/// Applies table entries onto a bag, in order.
pub open spec fn spec_entries_onto(s: Seq<PropEntryView>, entries: Seq<PropEntryView>) -> Seq<
    PropEntryView,
>
    decreases entries.len(),
{
    if entries.len() == 0 {
        s
    } else {
        spec_bag_set(
            spec_entries_onto(s, entries.drop_last()),
            entries.last().key,
            entries.last().value,
        )
    }
}

/// Builds the S3 entries.
fn s3_properties(s3: &ResolvedS3Connection) -> (r: Vec<KeyValue>)
    ensures
        r.deep_view() == spec_s3_properties(*s3),
{
    let mut v: Vec<KeyValue> = Vec::new();
    v.push(KeyValue { key: String::from_str("fs.s3a.endpoint"), value: s3.endpoint.clone() });
    v.push(
        KeyValue { key: String::from_str("fs.s3a.endpoint.region"), value: s3.region.clone() },
    );
    match &s3.access_key_file {
        Some(f) => {
            v.push(
                KeyValue {
                    key: String::from_str("fs.s3a.access.key"),
                    value: concat3("${file:UTF-8:", f.as_str(), "}"),
                },
            );
        },
        None => {},
    }
    match &s3.secret_key_file {
        Some(f) => {
            v.push(
                KeyValue {
                    key: String::from_str("fs.s3a.secret.key"),
                    value: concat3("${file:UTF-8:", f.as_str(), "}"),
                },
            );
        },
        None => {},
    }
    v.push(
        KeyValue {
            key: String::from_str("fs.s3a.connection.ssl.enabled"),
            value: if s3.uses_tls {
                String::from_str("true")
            } else {
                String::from_str("false")
            },
        },
    );
    v.push(
        KeyValue {
            key: String::from_str("fs.s3a.path.style.access"),
            value: if s3.path_style_access {
                String::from_str("true")
            } else {
                String::from_str("false")
            },
        },
    );
    proof {
        assert(v.deep_view() =~~= spec_s3_properties(*s3));
    }
    v
}

/// Applies table entries onto a bag.
fn entries_onto(bag: Vec<PropEntry>, entries: &Vec<PropEntry>) -> (r: Vec<PropEntry>)
    ensures
        r.deep_view() == spec_entries_onto(bag.deep_view(), entries.deep_view()),
{
    let ghost orig = bag.deep_view();
    let mut bag = bag;
    let mut i: usize = 0;
    while i < entries.len()
        invariant
            i <= entries.len(),
            bag.deep_view() == spec_entries_onto(orig, entries.deep_view().subrange(0, i as int)),
        decreases entries.len() - i,
    {
        proof {
            let pre = entries.deep_view().subrange(0, i as int);
            let cur = entries.deep_view().subrange(0, i + 1 as int);
            assert(cur.drop_last() =~= pre);
            assert(cur.last() == entries.deep_view()[i as int]);
        }
        bag = bag_set(bag, entries[i].key.clone(), dup_opt_string(&entries[i].value));
        i = i + 1;
    }
    proof {
        assert(entries.deep_view().subrange(0, entries.deep_view().len() as int)
            =~= entries.deep_view());
    }
    bag
}

/// The automatic logging configuration rendered for the product, pinned
/// to its root level.
pub open spec fn spec_log4j2_config(level: crate::config::LogLevel) -> Seq<char> {
    "rootLogger.level = "@ + level.spec_name() + "\n"@
}

/// The data of one role group's config map.
pub open spec fn spec_config_map_data(
    hive: HiveCluster,
    ext: ExternalInputs,
    table: crate::product::PropertyTableView,
    merged: crate::config::MetaStoreConfigView,
    namespace: Seq<char>,
) -> Seq<KeyValueView> {
    seq![
        KeyValueView {
            key: "hive-site.xml"@,
            value: spec_hadoop_xml(spec_hive_site_bag(hive, ext, table, namespace)),
        },
        KeyValueView { key: "hive-env.sh"@, value: spec_java_properties(table.env) },
        KeyValueView {
            key: "security.properties"@,
            value: spec_java_properties(table.security_properties),
        },
    ] + (if hive.spec_kerberos_secret_class() is Some && hive.spec.cluster_config.hdfs is None {
        seq![
            KeyValueView {
                key: "core-site.xml"@,
                value: spec_hadoop_xml(
                    seq![
                        PropEntryView {
                            key: "hadoop.security.authentication"@,
                            value: Some("kerberos"@),
                        },
                    ],
                ),
            },
        ]
    } else {
        Seq::empty()
    }) + (match merged.logging.hive {
        Some(choice) => match choice {
            ContainerLogChoiceView::Automatic { root_log_level } => seq![
                KeyValueView {
                    key: "metastore-log4j2.properties"@,
                    value: spec_log4j2_config(root_log_level),
                },
            ],
            ContainerLogChoiceView::Custom { config_map } => Seq::empty(),
        },
        None => Seq::empty(),
    })
}

/// The whole config map of one role group.
pub open spec fn spec_rolegroup_config_map(
    hive: HiveCluster,
    ext: ExternalInputs,
    table: crate::product::PropertyTableView,
    merged: crate::config::MetaStoreConfigView,
    rg: RoleGroupRefView,
    namespace: Seq<char>,
) -> ConfigMapModelView {
    ConfigMapModelView {
        name: rg.spec_object_name(),
        namespace: namespace,
        owner: hive.spec_name_any(),
        labels: spec_recommended_labels(
            hive.spec_name_any(),
            ext.resolved_product_image.app_version_label@,
            rg.role,
            rg.role_group,
        ),
        data: spec_config_map_data(hive, ext, table, merged, namespace),
    }
}

/// Builds the config map of one role group: the rendered
/// connection-properties file with the layered value precedence, the
/// environment file, the security-properties file, the Kerberos
/// bootstrap file where needed, and the automatic logging
/// configuration.
pub fn build_metastore_rolegroup_config_map(
    hive: &HiveCluster,
    hive_namespace: &str,
    ext: &ExternalInputs,
    rolegroup: &RoleGroupRef,
    table: &PropertyTable,
    merged_config: &MetaStoreConfig,
) -> (r: ConfigMapModel)
    ensures
        r.deep_view() == spec_rolegroup_config_map(
            *hive,
            *ext,
            table.deep_view(),
            merged_config.deep_view(),
            rolegroup.deep_view(),
            hive_namespace@,
        ),
{
    // hive-site.xml, layered bottom-up.
    let mut bag: Vec<PropEntry> = Vec::new();
    bag.push(
        PropEntry {
            key: String::from_str("hive.metastore.warehouse.dir"),
            value: Some(String::from_str("/stackable/warehouse")),
        },
    );
    proof {
        assert(bag.deep_view() =~= seq![
            PropEntryView {
                key: "hive.metastore.warehouse.dir"@,
                value: Some("/stackable/warehouse"@),
            },
        ]);
    }
    let bag = match &ext.s3 {
        Some(s3) => bag_set_all(bag, &s3_properties(s3)),
        None => bag,
    };
    let bag = match &ext.opa {
        Some(opa) => bag_set_all(
            bag,
            &opa.as_config(ext.resolved_product_image.product_version.as_str()),
        ),
        None => bag,
    };
    let bag = bag_set_all(
        bag,
        &crate::kerberos::kerberos_config_properties(
            hive,
            hive_namespace,
            ext.cluster_domain.as_str(),
        ),
    );
    let bag = entries_onto(bag, &table.hive_site);
    let hive_site_xml = to_hadoop_xml(&bag);

    let env_file = to_java_properties(&table.env);
    let security_file = to_java_properties(&table.security_properties);

    let mut data: Vec<KeyValue> = Vec::new();
    data.push(KeyValue { key: String::from_str("hive-site.xml"), value: hive_site_xml });
    data.push(KeyValue { key: String::from_str("hive-env.sh"), value: env_file });
    data.push(KeyValue { key: String::from_str("security.properties"), value: security_file });
    if hive.has_kerberos_enabled() && hive.spec.cluster_config.hdfs.is_none() {
        let mut core_bag: Vec<PropEntry> = Vec::new();
        core_bag.push(
            PropEntry {
                key: String::from_str("hadoop.security.authentication"),
                value: Some(String::from_str("kerberos")),
            },
        );
        proof {
            assert(core_bag.deep_view() =~= seq![
                PropEntryView { key: "hadoop.security.authentication"@, value: Some("kerberos"@) },
            ]);
        }
        data.push(
            KeyValue { key: String::from_str("core-site.xml"), value: to_hadoop_xml(&core_bag) },
        );
    }
    match &merged_config.logging.hive.choice {
        Some(choice) => match choice {
            ContainerLogChoice::Automatic { root_log_level } => {
                let mut content = String::from_str("rootLogger.level = ");
                content.append(root_log_level.as_str());
                content.append("\n");
                data.push(
                    KeyValue {
                        key: String::from_str("metastore-log4j2.properties"),
                        value: content,
                    },
                );
            },
            ContainerLogChoice::Custom { .. } => {},
        },
        None => {},
    }
    let r = ConfigMapModel {
        name: rolegroup.object_name(),
        namespace: String::from_str(hive_namespace),
        owner: hive.name_any(),
        labels: build_recommended_labels(
            hive.name_any().as_str(),
            ext.resolved_product_image.app_version_label.as_str(),
            rolegroup.role.as_str(),
            rolegroup.role_group.as_str(),
        ),
        data,
    };
    proof {
        assert(r.deep_view().data =~= spec_config_map_data(
            *hive,
            *ext,
            table.deep_view(),
            merged_config.deep_view(),
            hive_namespace@,
        ));
    }
    r
}

// ---------------------------------------------------------------------------
// The workload of one role group.
// ---------------------------------------------------------------------------

/// The start command of the metastore: the 3.x line boots through the
/// start script, newer lines initialise or upgrade the schema first.
pub open spec fn spec_start_command(db: crate::crd::DbType, version: Seq<char>) -> Seq<char> {
    if spec_is_v3(version) {
        "bin/start-metastore --config /stackable/config --db-type "@ + db.spec_name()
            + " --hive-bin-dir bin &"@
    } else {
        "bin/base --config \"/stackable/config\" --service schemaTool -dbType \""@ + db.spec_name()
            + "\" -initOrUpgradeSchema\nbin/base --config \"/stackable/config\" --service metastore &\n"@
    }
}

fn start_command(db: &crate::crd::DbType, version: &str) -> (r: String)
    ensures
        r@ == spec_start_command(*db, version@),
{
    let v3 = {
        let len = version.unicode_len();
        len >= 2 && version.get_char(0) == '3' && version.get_char(1) == '.'
    };
    if v3 {
        concat3(
            "bin/start-metastore --config /stackable/config --db-type ",
            db.as_str(),
            " --hive-bin-dir bin &",
        )
    } else {
        concat3(
            "bin/base --config \"/stackable/config\" --service schemaTool -dbType \"",
            db.as_str(),
            "\" -initOrUpgradeSchema\nbin/base --config \"/stackable/config\" --service metastore &\n",
        )
    }
}

/// The whole script of the main container: the Kerberos realm
/// substitution, signal handling, the container-state reporter, the
/// start command, and the wait for termination.
pub open spec fn spec_container_script(hive: HiveCluster, version: Seq<char>) -> Seq<char> {
    crate::kerberos::spec_kerberos_container_start_commands(hive)
        + "\nprepare_signal_handlers\ncontainerdebug --output=/stackable/log/containerdebug-state.json --loop &\n"@
        + spec_start_command(hive.spec.cluster_config.database.db_type, version)
        + "\nwait_for_termination $!"@
}

fn container_script(hive: &HiveCluster, version: &str) -> (r: String)
    ensures
        r@ == spec_container_script(*hive, version@),
{
    let mut s = crate::kerberos::kerberos_container_start_commands(hive);
    s.append(
        "\nprepare_signal_handlers\ncontainerdebug --output=/stackable/log/containerdebug-state.json --loop &\n",
    );
    let sc = start_command(&hive.spec.cluster_config.database.db_type, version);
    s.append(sc.as_str());
    s.append("\nwait_for_termination $!");
    s
}

/// The environment entries taken over from the validated table: entries
/// with an empty name are skipped, absent values read as empty.
pub open spec fn spec_env_from_table(entries: Seq<PropEntryView>) -> Seq<KeyValueView>
    decreases entries.len(),
{
    if entries.len() == 0 {
        Seq::empty()
    } else {
        spec_env_from_table(entries.drop_last()) + (if entries.last().key.len() == 0 {
            Seq::empty()
        } else {
            seq![
                KeyValueView {
                    key: entries.last().key,
                    value: match entries.last().value {
                        Some(v) => v,
                        None => Seq::empty(),
                    },
                },
            ]
        })
    }
}

/// The container environment: heap size, the non-heap JVM options, the
/// container-state directory, then the table's environment entries.
pub open spec fn spec_env_entries(
    table_env: Seq<PropEntryView>,
    heap: Seq<char>,
    opts: Seq<char>,
) -> Seq<KeyValueView> {
    seq![
        KeyValueView { key: "HADOOP_HEAPSIZE"@, value: heap },
        KeyValueView { key: "HADOOP_OPTS"@, value: opts },
        KeyValueView {
            key: "CONTAINERDEBUG_LOG_DIRECTORY"@,
            value: "/stackable/log/containerdebug"@,
        },
    ] + spec_env_from_table(table_env)
}

fn env_from_table(entries: &Vec<PropEntry>) -> (r: Vec<KeyValue>)
    ensures
        r.deep_view() == spec_env_from_table(entries.deep_view()),
{
    let mut r: Vec<KeyValue> = Vec::new();
    let mut i: usize = 0;
    while i < entries.len()
        invariant
            i <= entries.len(),
            r.deep_view() == spec_env_from_table(entries.deep_view().subrange(0, i as int)),
        decreases entries.len() - i,
    {
        proof {
            let pre = entries.deep_view().subrange(0, i as int);
            let cur = entries.deep_view().subrange(0, i + 1 as int);
            assert(cur.drop_last() =~= pre);
            assert(cur.last() == entries.deep_view()[i as int]);
        }
        if entries[i].key.as_str().unicode_len() > 0 {
            let ghost prev = r.deep_view();
            let x = KeyValue {
                key: entries[i].key.clone(),
                value: match &entries[i].value {
                    Some(v) => v.clone(),
                    None => {
                        proof {
                            reveal_strlit("");
                        }
                        String::new()
                    },
                },
            };
            let ghost gx = x;
            r.push(x);
            proof {
                assert(r.deep_view() =~= prev.push(gx.deep_view()));
                assert(r.deep_view() =~= spec_env_from_table(
                    entries.deep_view().subrange(0, i + 1 as int),
                ));
            }
        } else {
            proof {
                assert(r.deep_view() =~= spec_env_from_table(
                    entries.deep_view().subrange(0, i + 1 as int),
                ));
            }
        }
        i = i + 1;
    }
    proof {
        assert(entries.deep_view().subrange(0, entries.deep_view().len() as int)
            =~= entries.deep_view());
    }
    r
}

/// The desired workload of one role group.
pub open spec fn spec_workload(
    hive: HiveCluster,
    ext: ExternalInputs,
    table: crate::product::PropertyTableView,
    merged: crate::config::MetaStoreConfigView,
    rg: RoleGroupRefView,
    role: Role,
    group: RoleGroup,
    namespace: Seq<char>,
    sa_name: Seq<char>,
    heap: Seq<char>,
    opts: Seq<char>,
) -> WorkloadModelView {
    WorkloadModelView {
        name: rg.spec_object_name(),
        namespace: namespace,
        owner: hive.spec_name_any(),
        labels: spec_recommended_labels(
            hive.spec_name_any(),
            ext.resolved_product_image.app_version_label@,
            rg.role,
            rg.role_group,
        ),
        replicas: if hive.spec.cluster_operation.stopped {
            0
        } else {
            crate::cluster::spec_replicas(group)
        },
        selector: spec_role_group_selector_labels(hive.spec_name_any(), rg.role, rg.role_group),
        service_name: rg.spec_object_name() + "-headless"@,
        image: ext.resolved_product_image.image@,
        credentials_secret: hive.spec.cluster_config.database.credentials_secret@,
        env: spec_env_entries(table.env, heap, opts),
        command_args: seq![
            spec_join(
                spec_command_lines(
                    hive,
                    spec_container_script(hive, ext.resolved_product_image.product_version@),
                    spec_s3_ca(ext.s3),
                    spec_opa_ca(ext.opa),
                ),
                "\n"@,
            ),
        ],
        container_ports: seq![
            NamedPortView { name: "hive"@, port: 9083 },
            NamedPortView { name: "metrics"@, port: 9084 },
        ],
        affinity: merged.affinity,
        graceful_shutdown_timeout: merged.graceful_shutdown_timeout,
        log_config_map: match merged.logging.hive {
            Some(ContainerLogChoiceView::Custom { config_map }) => config_map,
            _ => rg.spec_object_name(),
        },
        config_map: rg.spec_object_name(),
        kerberos_secret_class: hive.spec_kerberos_secret_class(),
        hdfs_config_map: match hive.spec.cluster_config.hdfs {
            Some(h) => Some(h.config_map@),
            None => None,
        },
        vector_container: merged.logging.enable_vector_agent,
        service_account_name: sa_name,
        pod_overrides: (match role.config.pod_overrides {
            Some(p) => seq![p@],
            None => Seq::empty(),
        }) + (match group.config.pod_overrides {
            Some(p) => seq![p@],
            None => Seq::empty(),
        }),
    }
}

/// Whether the S3 settings are acceptable: skipping verification of a
/// TLS-enabled server is not supported.
pub open spec fn spec_s3_ok(ext: ExternalInputs) -> bool {
    match ext.s3 {
        Some(s3) => !(s3.uses_tls && !s3.uses_tls_verification),
        None => true,
    }
}

/// Whether the logging settings are satisfiable: an enabled log agent
/// needs an aggregator address record.
pub open spec fn spec_vector_ok(
    hive: HiveCluster,
    merged: crate::config::MetaStoreConfigView,
) -> bool {
    merged.logging.enable_vector_agent
        ==> hive.spec.cluster_config.vector_aggregator_config_map_name is Some
}

/// Builds the workload of one role group. The replica count follows the
/// configured replicas except while the cluster is stopped, when it is
/// forced to zero; all other parts are unaffected by that flag. Fails
/// on a broken JVM configuration, on an S3 connection asking to skip
/// TLS verification, and on an enabled log agent without an aggregator.
pub fn build_metastore_rolegroup_statefulset(
    hive: &HiveCluster,
    hive_namespace: &str,
    ext: &ExternalInputs,
    rolegroup_ref: &RoleGroupRef,
    table: &PropertyTable,
    merged_config: &MetaStoreConfig,
    sa_name: &str,
) -> (r: Result<WorkloadModel, Error>)
    ensures
        match r {
            Ok(w) => (spec_config_heap_mib(merged_config.deep_view()) matches Some(mib)
                && spec_jvm_args_pipeline(
                hive.spec_kerberos_secret_class() is Some,
                mib,
                (match hive.spec.metastore {
                    Some(m) => m.config.jvm_argument_overrides.deep_view(),
                    None => crate::jvm::spec_no_overrides(),
                }),
                (match hive.spec.metastore {
                    Some(m) => spec_group_overrides(m, rolegroup_ref.role_group@),
                    None => crate::jvm::spec_no_overrides(),
                }),
            ) matches Some(args) && spec_s3_ok(*ext) && spec_vector_ok(
                *hive,
                merged_config.deep_view(),
            ) && hive.spec.metastore is Some && (crate::cluster::spec_find_group(
                hive.spec.metastore->0.role_groups@,
                rolegroup_ref.role_group@,
            ) matches Some(gi) && w.deep_view() == spec_workload(
                *hive,
                *ext,
                table.deep_view(),
                merged_config.deep_view(),
                rolegroup_ref.deep_view(),
                hive.spec.metastore->0,
                hive.spec.metastore->0.role_groups@[gi].group,
                hive_namespace@,
                sa_name@,
                spec_dec(mib as nat),
                spec_join(spec_non_heap(args), " "@),
            ))),
            Err(e) => match e {
                Error::ConstructJvmArguments { source } => spec_config_heap_mib(merged_config.deep_view())
                    is None || (hive.spec.metastore matches Some(m)
                    && spec_config_heap_mib(merged_config.deep_view()) matches Some(mib)
                    && spec_jvm_args_pipeline(
                    hive.spec_kerberos_secret_class() is Some,
                    mib,
                    m.config.jvm_argument_overrides.deep_view(),
                    spec_group_overrides(m, rolegroup_ref.role_group@),
                ) is None),
                Error::S3TlsNoVerificationNotSupported => !spec_s3_ok(*ext),
                Error::VectorAggregatorConfigMapMissing => !spec_vector_ok(
                    *hive,
                    merged_config.deep_view(),
                ),
                Error::NoMetaStoreRole => hive.spec.metastore is None,
                Error::FailedToResolveResourceConfig { source } => hive.spec.metastore is Some
                    && crate::cluster::spec_find_group(
                    hive.spec.metastore->0.role_groups@,
                    rolegroup_ref.role_group@,
                ) is None,
                _ => false,
            },
        },
{
    let role = match &hive.spec.metastore {
        Some(m) => m,
        None => {
            return Err(Error::NoMetaStoreRole);
        },
    };
    let heap = match crate::jvm::construct_hadoop_heapsize_env(merged_config) {
        Ok(h) => h,
        Err(e) => {
            return Err(Error::ConstructJvmArguments { source: e });
        },
    };
    let opts = match crate::jvm::construct_non_heap_jvm_args(
        hive,
        merged_config,
        role,
        rolegroup_ref.role_group.as_str(),
    ) {
        Ok(o) => o,
        Err(e) => {
            return Err(Error::ConstructJvmArguments { source: e });
        },
    };
    match &ext.s3 {
        Some(s3) => {
            if s3.uses_tls && !s3.uses_tls_verification {
                return Err(Error::S3TlsNoVerificationNotSupported);
            }
        },
        None => {},
    }
    if merged_config.logging.enable_vector_agent
        && hive.spec.cluster_config.vector_aggregator_config_map_name.is_none() {
        return Err(Error::VectorAggregatorConfigMapMissing);
    }
    let group = match crate::cluster::role_group_of(role, &rolegroup_ref.role_group) {
        Some(g) => g,
        None => {
            return Err(
                Error::FailedToResolveResourceConfig {
                    source: crate::crd::Error::CannotRetrieveHiveRoleGroup {
                        role_group: rolegroup_ref.role_group.clone(),
                    },
                },
            );
        },
    };
    let replicas: u16 = if hive.spec.cluster_operation.stopped {
        0
    } else {
        match group.replicas {
            Some(n) => n,
            None => 0,
        }
    };
    let mut env: Vec<KeyValue> = Vec::new();
    env.push(KeyValue { key: String::from_str("HADOOP_HEAPSIZE"), value: heap });
    env.push(KeyValue { key: String::from_str("HADOOP_OPTS"), value: opts });
    env.push(
        KeyValue {
            key: String::from_str("CONTAINERDEBUG_LOG_DIRECTORY"),
            value: String::from_str("/stackable/log/containerdebug"),
        },
    );
    let mut table_env = env_from_table(&table.env);
    let mut i: usize = 0;
    let ghost base_env = env.deep_view();
    while i < table_env.len()
        invariant
            i <= table_env.len(),
            table_env.deep_view() == spec_env_from_table(table.deep_view().env),
            env.deep_view() == base_env + table_env.deep_view().subrange(0, i as int),
        decreases table_env.len() - i,
    {
        let ghost prev = env.deep_view();
        let x = KeyValue { key: table_env[i].key.clone(), value: table_env[i].value.clone() };
        let ghost gx = x;
        env.push(x);
        proof {
            assert(env.deep_view() =~= prev.push(gx.deep_view()));
            assert(gx.deep_view() == table_env.deep_view()[i as int]);
            assert(env.deep_view() =~= base_env + table_env.deep_view().subrange(0, i + 1 as int));
        }
        i = i + 1;
    }
    proof {
        assert(table_env.deep_view().subrange(0, table_env.deep_view().len() as int)
            =~= table_env.deep_view());
        assert(env.deep_view() =~= spec_env_entries(
            table.deep_view().env,
            base_env[0].value,
            base_env[1].value,
        ));
    }
    let script = container_script(hive, ext.resolved_product_image.product_version.as_str());
    let command_args = build_container_command_args(
        hive,
        script,
        match &ext.s3 {
            Some(s3) => Some(s3),
            None => None,
        },
        match &ext.opa {
            Some(o) => Some(o),
            None => None,
        },
    );
    let mut container_ports: Vec<NamedPort> = Vec::new();
    container_ports.push(NamedPort { name: String::from_str("hive"), port: 9083 });
    container_ports.push(NamedPort { name: String::from_str("metrics"), port: 9084 });
    let mut pod_overrides: Vec<String> = Vec::new();
    match &role.config.pod_overrides {
        Some(p) => {
            pod_overrides.push(p.clone());
        },
        None => {},
    }
    match &group.config.pod_overrides {
        Some(p) => {
            pod_overrides.push(p.clone());
        },
        None => {},
    }
    let w = WorkloadModel {
        name: rolegroup_ref.object_name(),
        namespace: String::from_str(hive_namespace),
        owner: hive.name_any(),
        labels: build_recommended_labels(
            hive.name_any().as_str(),
            ext.resolved_product_image.app_version_label.as_str(),
            rolegroup_ref.role.as_str(),
            rolegroup_ref.role_group.as_str(),
        ),
        replicas,
        selector: role_group_selector_labels(
            hive.name_any().as_str(),
            rolegroup_ref.role.as_str(),
            rolegroup_ref.role_group.as_str(),
        ),
        service_name: crate::service::rolegroup_headless_service_name(rolegroup_ref),
        image: ext.resolved_product_image.image.clone(),
        credentials_secret: hive.spec.cluster_config.database.credentials_secret.clone(),
        env,
        command_args,
        container_ports,
        affinity: dup_affinity(&merged_config.affinity),
        graceful_shutdown_timeout: merged_config.graceful_shutdown_timeout,
        log_config_map: match &merged_config.logging.hive.choice {
            Some(ContainerLogChoice::Custom { config_map }) => config_map.clone(),
            _ => rolegroup_ref.object_name(),
        },
        config_map: rolegroup_ref.object_name(),
        kerberos_secret_class: hive.kerberos_secret_class(),
        hdfs_config_map: match &hive.spec.cluster_config.hdfs {
            Some(h) => Some(h.config_map.clone()),
            None => None,
        },
        vector_container: merged_config.logging.enable_vector_agent,
        service_account_name: String::from_str(sa_name),
        pod_overrides,
    };
    proof {
        assert(w.deep_view().container_ports =~= seq![
            NamedPortView { name: "hive"@, port: 9083u16 },
            NamedPortView { name: "metrics"@, port: 9084u16 },
        ]);
        assert(w.deep_view().pod_overrides =~= (match role.config.pod_overrides {
            Some(p) => seq![p@],
            None => Seq::<Seq<char>>::empty(),
        }) + (match group.config.pod_overrides {
            Some(p) => seq![p@],
            None => Seq::<Seq<char>>::empty(),
        }));
    }
    Ok(w)
}

// ---------------------------------------------------------------------------
// Cluster-scoped objects.
// ---------------------------------------------------------------------------

/// The service identity and binding of the cluster's pods.
pub open spec fn spec_rbac(hive: HiveCluster, namespace: Seq<char>) -> RbacModelView {
    RbacModelView {
        service_account_name: "hive-serviceaccount"@,
        role_binding_name: "hive-rolebinding"@,
        cluster_role: "hive-clusterrole"@,
        namespace: namespace,
        owner: hive.spec_name_any(),
    }
}

/// Builds the service identity and its binding.
pub fn build_rbac(hive: &HiveCluster, hive_namespace: &str) -> (r: RbacModel)
    ensures
        r.deep_view() == spec_rbac(*hive, hive_namespace@),
{
    RbacModel {
        service_account_name: String::from_str("hive-serviceaccount"),
        role_binding_name: String::from_str("hive-rolebinding"),
        cluster_role: String::from_str("hive-clusterrole"),
        namespace: String::from_str(hive_namespace),
        owner: hive.name_any(),
    }
}

/// The role listener exposing the metastore.
pub open spec fn spec_role_listener(
    hive: HiveCluster,
    ext: ExternalInputs,
    namespace: Seq<char>,
    listener_class: Seq<char>,
) -> ListenerModelView {
    ListenerModelView {
        name: hive.spec_name_any() + "-"@ + "metastore"@,
        namespace: namespace,
        owner: hive.spec_name_any(),
        labels: spec_recommended_labels(
            hive.spec_name_any(),
            ext.resolved_product_image.app_version_label@,
            "metastore"@,
            "none"@,
        ),
        class_name: listener_class,
        ports: seq![NamedPortView { name: "hive"@, port: 9083 }],
    }
}

/// Builds the role listener for the configured listener class.
pub fn build_group_listener(
    hive: &HiveCluster,
    ext: &ExternalInputs,
    hive_namespace: &str,
    listener_class: &str,
) -> (r: ListenerModel)
    ensures
        r.deep_view() == spec_role_listener(*hive, *ext, hive_namespace@, listener_class@),
{
    let mut ports: Vec<NamedPort> = Vec::new();
    ports.push(NamedPort { name: String::from_str("hive"), port: 9083 });
    let r = ListenerModel {
        name: hive.role_listener_name(&HiveRole::MetaStore),
        namespace: String::from_str(hive_namespace),
        owner: hive.name_any(),
        labels: build_recommended_labels(
            hive.name_any().as_str(),
            ext.resolved_product_image.app_version_label.as_str(),
            "metastore",
            "none",
        ),
        class_name: String::from_str(listener_class),
        ports,
    };
    proof {
        assert(r.deep_view().ports =~= spec_role_listener(
            *hive,
            *ext,
            hive_namespace@,
            listener_class@,
        ).ports);
    }
    r
}

/// The optional disruption budget of the role.
pub open spec fn spec_pdb(
    hive: HiveCluster,
    namespace: Seq<char>,
    max_unavailable: Option<u16>,
) -> PdbModelView {
    PdbModelView {
        name: hive.spec_name_any() + "-"@ + "metastore"@,
        namespace: namespace,
        owner: hive.spec_name_any(),
        max_unavailable: match max_unavailable {
            Some(n) => n,
            None => 1,
        },
        selector: crate::affinity::spec_role_selector_labels(hive.spec_name_any(), "metastore"@),
    }
}

/// Builds the disruption budget of the role, when it is enabled; a
/// configured maximum wins over the default of one.
pub fn add_pdbs(hive: &HiveCluster, hive_namespace: &str) -> (r: Option<PdbModel>)
    ensures
        match r {
            Some(p) => hive.spec.metastore matches Some(m)
                && m.role_config.pod_disruption_budget.enabled && p.deep_view() == spec_pdb(
                *hive,
                hive_namespace@,
                m.role_config.pod_disruption_budget.max_unavailable,
            ),
            None => match hive.spec.metastore {
                Some(m) => !m.role_config.pod_disruption_budget.enabled,
                None => true,
            },
        },
{
    let role = match &hive.spec.metastore {
        Some(m) => m,
        None => {
            return None;
        },
    };
    if !role.role_config.pod_disruption_budget.enabled {
        return None;
    }
    Some(
        PdbModel {
            name: hive.role_listener_name(&HiveRole::MetaStore),
            namespace: String::from_str(hive_namespace),
            owner: hive.name_any(),
            max_unavailable: match role.role_config.pod_disruption_budget.max_unavailable {
                Some(n) => n,
                None => 1,
            },
            selector: crate::affinity::role_selector_labels(
                hive.name_any().as_str(),
                &HiveRole::MetaStore,
            ),
        },
    )
}

/// The discovery record: the single `HIVE` key with the client
/// connection string.
pub open spec fn spec_discovery_config_map(
    hive: HiveCluster,
    ext: ExternalInputs,
    namespace: Seq<char>,
    conn: Seq<char>,
) -> ConfigMapModelView {
    ConfigMapModelView {
        name: hive.spec_name_any(),
        namespace: namespace,
        owner: hive.spec_name_any(),
        labels: spec_recommended_labels(
            hive.spec_name_any(),
            ext.resolved_product_image.app_version_label@,
            "metastore"@,
            "discovery"@,
        ),
        data: seq![KeyValueView { key: "HIVE"@, value: conn }],
    }
}

/// Builds the discovery record for a known connection string.
pub fn build_discovery_configmap(
    hive: &HiveCluster,
    ext: &ExternalInputs,
    hive_namespace: &str,
    connection_string: &str,
) -> (r: ConfigMapModel)
    ensures
        r.deep_view() == spec_discovery_config_map(
            *hive,
            *ext,
            hive_namespace@,
            connection_string@,
        ),
{
    let mut data: Vec<KeyValue> = Vec::new();
    data.push(
        KeyValue { key: String::from_str("HIVE"), value: String::from_str(connection_string) },
    );
    let r = ConfigMapModel {
        name: hive.name_any(),
        namespace: String::from_str(hive_namespace),
        owner: hive.name_any(),
        labels: build_recommended_labels(
            hive.name_any().as_str(),
            ext.resolved_product_image.app_version_label.as_str(),
            "metastore",
            "discovery",
        ),
        data,
    };
    proof {
        assert(r.deep_view().data =~= seq![KeyValueView { key: "HIVE"@, value: connection_string@ }]);
    }
    r
}

/// Builds the discovery records of the cluster; with one exposure
/// mechanism active there is exactly one.
pub fn build_discovery_configmaps(
    hive: &HiveCluster,
    ext: &ExternalInputs,
    hive_namespace: &str,
    connection_string: &str,
) -> (r: Vec<ConfigMapModel>)
    ensures
        r.deep_view() == seq![
            spec_discovery_config_map(*hive, *ext, hive_namespace@, connection_string@),
        ],
{
    let mut v: Vec<ConfigMapModel> = Vec::new();
    v.push(build_discovery_configmap(hive, ext, hive_namespace, connection_string));
    proof {
        assert(v.deep_view() =~= seq![
            spec_discovery_config_map(*hive, *ext, hive_namespace@, connection_string@),
        ]);
    }
    v
}

/// The warning raised for a storage capacity other than the historical
/// `0Mi` marker; the value itself is preserved.
pub fn storage_capacity_warning(merged_config: &MetaStoreConfig) -> (r: Option<String>)
    ensures
        match r {
            Some(w) => merged_config.resources.storage.data.capacity matches Some(q) && q.value@
                != "0Mi"@ && w@ == "The storage capacity is set to "@ + q.value@
                + ". This field is not used and will be removed in a future release."@,
            None => match merged_config.resources.storage.data.capacity {
                Some(q) => q.value@ == "0Mi"@,
                None => true,
            },
        },
{
    match &merged_config.resources.storage.data.capacity {
        Some(q) => {
            let marker = String::from_str("0Mi");
            if q.value == marker {
                None
            } else {
                Some(
                    concat3(
                        "The storage capacity is set to ",
                        q.value.as_str(),
                        ". This field is not used and will be removed in a future release.",
                    ),
                )
            }
        },
        None => None,
    }
}

// ---------------------------------------------------------------------------
// The whole pass.
// ---------------------------------------------------------------------------

/// The complete desired object set of one pass.
pub struct DesiredObjectSet {
    pub objects: Vec<DesiredObject>,
}

/// The resolved configuration of the role group at position `i`, as the
/// resolver computes it.
pub open spec fn spec_group_merged(hive: HiveCluster, i: int) -> crate::config::MetaStoreConfigView {
    let role = hive.spec.metastore->0;
    let name = role.role_groups@[i].name@;
    let gi = crate::cluster::spec_find_group(role.role_groups@, name)->0;
    crate::cluster::spec_resolved_config(hive, role, role.role_groups@[gi].group)
}

/// The role-group reference of the group at position `i`.
pub open spec fn spec_group_ref(hive: HiveCluster, i: int) -> RoleGroupRefView {
    RoleGroupRefView {
        cluster: hive.spec_name_any(),
        role: "metastore"@,
        role_group: hive.spec.metastore->0.role_groups@[i].name@,
    }
}

/// Whether the group at position `i` synthesizes cleanly: its JVM heap
/// and argument overrides work out, the S3 settings are acceptable, and
/// its logging settings are satisfiable.
pub open spec fn spec_group_ok(hive: HiveCluster, ext: ExternalInputs, i: int) -> bool {
    let role = hive.spec.metastore->0;
    let merged = spec_group_merged(hive, i);
    &&& spec_config_heap_mib(merged) is Some
    &&& spec_jvm_args_pipeline(
        hive.spec_kerberos_secret_class() is Some,
        spec_config_heap_mib(merged)->0,
        role.config.jvm_argument_overrides.deep_view(),
        spec_group_overrides(role, role.role_groups@[i].name@),
    ) is Some
    &&& spec_s3_ok(ext)
    &&& spec_vector_ok(hive, merged)
}

/// The four objects of the group at position `i`: metrics service,
/// headless service, configuration, workload.
pub open spec fn spec_group_objects(
    hive: HiveCluster,
    ext: ExternalInputs,
    namespace: Seq<char>,
    i: int,
) -> Seq<DesiredObjectView> {
    let role = hive.spec.metastore->0;
    let name = role.role_groups@[i].name@;
    let gi = crate::cluster::spec_find_group(role.role_groups@, name)->0;
    let group = role.role_groups@[gi].group;
    let merged = spec_group_merged(hive, i);
    let table = spec_property_table(hive, merged.warehouse_dir, role, group);
    let rg = spec_group_ref(hive, i);
    let mib = spec_config_heap_mib(merged)->0;
    let args = spec_jvm_args_pipeline(
        hive.spec_kerberos_secret_class() is Some,
        mib,
        role.config.jvm_argument_overrides.deep_view(),
        spec_group_overrides(role, name),
    )->0;
    seq![
        DesiredObjectView::Service(
            spec_metrics_service(hive, ext.resolved_product_image.app_version_label@, rg),
        ),
        DesiredObjectView::Service(
            spec_headless_service(hive, ext.resolved_product_image.app_version_label@, rg),
        ),
        DesiredObjectView::ConfigMap(
            spec_rolegroup_config_map(hive, ext, table, merged, rg, namespace),
        ),
        DesiredObjectView::Workload(
            spec_workload(
                hive,
                ext,
                table,
                merged,
                rg,
                role,
                group,
                namespace,
                "hive-serviceaccount"@,
                spec_dec(mib as nat),
                spec_join(spec_non_heap(args), " "@),
            ),
        ),
    ]
}

/// The cluster-scoped objects applied before any role group: the
/// service identity and the exposure service, which must be applied and
/// read back first because node-port discovery depends on it.
pub open spec fn spec_plan_prefix(
    hive: HiveCluster,
    ext: ExternalInputs,
    namespace: Seq<char>,
) -> Seq<DesiredObjectView> {
    seq![
        DesiredObjectView::Rbac(spec_rbac(hive, namespace)),
        DesiredObjectView::Service(
            spec_role_service(hive, ext.resolved_product_image.app_version_label@),
        ),
    ]
}

/// The prefix of the plan covering the first `k` role groups.
pub open spec fn spec_plan_up_to(
    hive: HiveCluster,
    ext: ExternalInputs,
    namespace: Seq<char>,
    k: int,
) -> Seq<DesiredObjectView>
    decreases k,
{
    if k <= 0 {
        spec_plan_prefix(hive, ext, namespace)
    } else {
        spec_plan_up_to(hive, ext, namespace, k - 1) + spec_group_objects(hive, ext, namespace, k - 1)
    }
}

/// The cluster-scoped objects applied after the role groups: the
/// optional disruption budget, the role listener, and, once a
/// connection string is known, the discovery record.
pub open spec fn spec_plan_suffix(
    hive: HiveCluster,
    ext: ExternalInputs,
    namespace: Seq<char>,
) -> Seq<DesiredObjectView> {
    let role = hive.spec.metastore->0;
    (if role.role_config.pod_disruption_budget.enabled {
        seq![
            DesiredObjectView::PodDisruptionBudget(
                spec_pdb(hive, namespace, role.role_config.pod_disruption_budget.max_unavailable),
            ),
        ]
    } else {
        Seq::empty()
    }) + seq![
        DesiredObjectView::RoleListener(
            spec_role_listener(hive, ext, namespace, role.role_config.listener_class@),
        ),
    ] + (match ext.discovery_connection_string {
        Some(conn) => seq![
            DesiredObjectView::ConfigMap(spec_discovery_config_map(hive, ext, namespace, conn@)),
        ],
        None => Seq::empty(),
    })
}

/// The complete plan of one pass, in apply order.
pub open spec fn spec_plan(hive: HiveCluster, ext: ExternalInputs) -> Seq<DesiredObjectView> {
    let namespace = hive.metadata.namespace->0@;
    spec_plan_up_to(hive, ext, namespace, hive.spec.metastore->0.role_groups@.len() as int)
        + spec_plan_suffix(hive, ext, namespace)
}

/// Whether the whole pass synthesizes cleanly.
pub open spec fn spec_plan_ok(hive: HiveCluster, ext: ExternalInputs) -> bool {
    &&& hive.metadata.namespace is Some
    &&& hive.spec.metastore is Some
    &&& forall|i: int|
        0 <= i < hive.spec.metastore->0.role_groups@.len() ==> #[trigger] spec_group_ok(
            hive,
            ext,
            i,
        )
}

/// Synthesizes the complete desired object set of one pass: the service
/// identity and exposure service first, then for every role group its
/// metrics service, headless service, configuration and workload, then
/// the disruption budget, the role listener and, once known, the
/// discovery record. Identical inputs yield an identical set. The first
/// failure aborts the whole pass.
pub fn synthesize(hive: &HiveCluster, ext: &ExternalInputs) -> (r: Result<DesiredObjectSet, Error>)
    ensures
        match r {
            Ok(set) => spec_plan_ok(*hive, *ext) && set.objects.deep_view() == spec_plan(
                *hive,
                *ext,
            ),
            Err(e) => !spec_plan_ok(*hive, *ext) && match e {
                Error::ObjectHasNoNamespace => hive.metadata.namespace is None,
                Error::NoMetaStoreRole => hive.spec.metastore is None,
                Error::S3TlsNoVerificationNotSupported => !spec_s3_ok(*ext),
                Error::ConstructJvmArguments { source } => true,
                Error::VectorAggregatorConfigMapMissing => true,
                _ => false,
            },
        },
{
    let namespace = match &hive.metadata.namespace {
        Some(n) => n.clone(),
        None => {
            return Err(Error::ObjectHasNoNamespace);
        },
    };
    let role = match &hive.spec.metastore {
        Some(m) => m,
        None => {
            return Err(Error::NoMetaStoreRole);
        },
    };
    let ghost gnamespace = namespace@;
    let mut objects: Vec<DesiredObject> = Vec::new();
    objects.push(DesiredObject::Rbac(build_rbac(hive, namespace.as_str())));
    objects.push(
        DesiredObject::Service(build_role_service(hive, &ext.resolved_product_image)),
    );
    proof {
        assert(objects.deep_view() =~= spec_plan_prefix(*hive, *ext, gnamespace));
        assert(objects.deep_view() =~= spec_plan_up_to(*hive, *ext, gnamespace, 0));
    }
    let mut i: usize = 0;
    while i < role.role_groups.len()
        invariant
            i <= role.role_groups.len(),
            hive.spec.metastore matches Some(m) && m == role,
            hive.metadata.namespace matches Some(n) && n@ == namespace@,
            namespace@ == gnamespace,
            objects.deep_view() == spec_plan_up_to(*hive, *ext, gnamespace, i as int),
            forall|j: int| 0 <= j < i ==> #[trigger] spec_group_ok(*hive, *ext, j),
        decreases role.role_groups.len() - i,
    {
        let group_name = &role.role_groups[i].name;
        let rolegroup_ref = hive.metastore_rolegroup_ref(group_name.as_str());
        proof {
            crate::cluster::lemma_find_group_finds(role.role_groups@, group_name@, i as int);
        }
        let merged_config = match hive.merged_config(&HiveRole::MetaStore, &rolegroup_ref) {
            Ok(c) => c,
            Err(e) => {
                proof {
                    assert(false);
                }
                return Err(Error::FailedToResolveResourceConfig { source: e });
            },
        };
        let ghost gi = crate::cluster::spec_find_group(role.role_groups@, group_name@)->0;
        let group = match crate::cluster::role_group_of(role, group_name) {
            Some(g) => g,
            None => {
                proof {
                    assert(false);
                }
                return Err(Error::NoMetaStoreRole);
            },
        };
        let table = transform_metastore_config(hive, &merged_config, role, group);
        let metrics_service = build_rolegroup_metrics_service(
            hive,
            &ext.resolved_product_image,
            &rolegroup_ref,
        );
        let headless_service = build_rolegroup_headless_service(
            hive,
            &ext.resolved_product_image,
            &rolegroup_ref,
        );
        let config_map = build_metastore_rolegroup_config_map(
            hive,
            namespace.as_str(),
            ext,
            &rolegroup_ref,
            &table,
            &merged_config,
        );
        let workload = match build_metastore_rolegroup_statefulset(
            hive,
            namespace.as_str(),
            ext,
            &rolegroup_ref,
            &table,
            &merged_config,
            "hive-serviceaccount",
        ) {
            Ok(w) => w,
            Err(e) => {
                proof {
                    assert(!spec_group_ok(*hive, *ext, i as int));
                    assert(!spec_plan_ok(*hive, *ext));
                }
                return Err(e);
            },
        };
        let ghost prev = objects.deep_view();
        objects.push(DesiredObject::Service(metrics_service));
        objects.push(DesiredObject::Service(headless_service));
        objects.push(DesiredObject::ConfigMap(config_map));
        objects.push(DesiredObject::Workload(workload));
        proof {
            assert(spec_group_ok(*hive, *ext, i as int));
            assert(objects.deep_view() =~= prev + spec_group_objects(
                *hive,
                *ext,
                gnamespace,
                i as int,
            ));
            assert(objects.deep_view() =~= spec_plan_up_to(*hive, *ext, gnamespace, i + 1 as int));
        }
        i = i + 1;
    }
    match add_pdbs(hive, namespace.as_str()) {
        Some(pdb) => {
            objects.push(DesiredObject::PodDisruptionBudget(pdb));
        },
        None => {},
    }
    let listener = build_group_listener(
        hive,
        ext,
        namespace.as_str(),
        role.role_config.listener_class.as_str(),
    );
    objects.push(DesiredObject::RoleListener(listener));
    match &ext.discovery_connection_string {
        Some(conn) => {
            let cm = build_discovery_configmap(hive, ext, namespace.as_str(), conn.as_str());
            objects.push(DesiredObject::ConfigMap(cm));
        },
        None => {},
    }
    proof {
        assert(objects.deep_view() =~= spec_plan(*hive, *ext));
    }
    Ok(DesiredObjectSet { objects })
}

/// Running the resolver and synthesizer twice over an unchanged cluster
/// and unchanged inputs yields byte-identical desired object sets: the
/// plan is a pure function of its inputs, so the apply layer can detect
/// no-op passes.
pub proof fn lemma_synthesize_idempotent(
    hive: HiveCluster,
    ext: ExternalInputs,
    first: Seq<DesiredObjectView>,
    second: Seq<DesiredObjectView>,
)
    requires
        first == spec_plan(hive, ext),
        second == spec_plan(hive, ext),
    ensures
        first == second,
{
}

// ---------------------------------------------------------------------------
// The resource tracker.
// ---------------------------------------------------------------------------

/// The names owned before this pass that the pass no longer desires, in
/// their previous order.
pub open spec fn spec_orphaned(previous: Seq<Seq<char>>, desired: Seq<Seq<char>>) -> Seq<Seq<char>>
    decreases previous.len(),
{
    if previous.len() == 0 {
        Seq::empty()
    } else {
        spec_orphaned(previous.drop_last(), desired) + (if desired.contains(previous.last()) {
            Seq::empty()
        } else {
            seq![previous.last()]
        })
    }
}

/// Diffs the previously owned object names against this pass's desired
/// names: everything no longer desired is returned for deletion, in the
/// previous order; everything still desired is untouched.
pub fn orphaned_objects(previous: &Vec<String>, desired: &Vec<String>) -> (r: Vec<String>)
    ensures
        r.deep_view() == spec_orphaned(previous.deep_view(), desired.deep_view()),
{
    let mut r: Vec<String> = Vec::new();
    let mut i: usize = 0;
    while i < previous.len()
        invariant
            i <= previous.len(),
            r.deep_view() == spec_orphaned(
                previous.deep_view().subrange(0, i as int),
                desired.deep_view(),
            ),
        decreases previous.len() - i,
    {
        proof {
            let pre = previous.deep_view().subrange(0, i as int);
            let cur = previous.deep_view().subrange(0, i + 1 as int);
            assert(cur.drop_last() =~= pre);
            assert(cur.last() == previous.deep_view()[i as int]);
        }
        let mut found = false;
        let mut j: usize = 0;
        while j < desired.len()
            invariant
                j <= desired.len(),
                i < previous.len(),
                found ==> desired.deep_view().contains(previous.deep_view()[i as int]),
                !found ==> forall|k: int|
                    0 <= k < j ==> desired.deep_view()[k] != previous.deep_view()[i as int],
            decreases desired.len() - j,
        {
            let same = desired[j] == previous[i];
            proof {
                assert(desired.deep_view()[j as int] == desired@[j as int]@);
                assert(previous.deep_view()[i as int] == previous@[i as int]@);
            }
            if !found && same {
                found = true;
                proof {
                    assert(desired.deep_view().contains(previous.deep_view()[i as int]));
                }
            }
            j = j + 1;
        }
        if !found {
            proof {
                assert(!desired.deep_view().contains(previous.deep_view()[i as int]));
            }
            let ghost prev = r.deep_view();
            r.push(previous[i].clone());
            proof {
                assert(r.deep_view() =~= prev.push(previous.deep_view()[i as int]));
                assert(r.deep_view() =~= spec_orphaned(
                    previous.deep_view().subrange(0, i + 1 as int),
                    desired.deep_view(),
                ));
            }
        } else {
            proof {
                assert(r.deep_view() =~= spec_orphaned(
                    previous.deep_view().subrange(0, i + 1 as int),
                    desired.deep_view(),
                ));
            }
        }
        i = i + 1;
    }
    proof {
        assert(previous.deep_view().subrange(0, previous.deep_view().len() as int)
            =~= previous.deep_view());
    }
    r
}

/// Nothing still desired is ever deleted: the orphan diff and the
/// desired set are disjoint.
pub proof fn lemma_orphaned_spares_desired(
    previous: Seq<Seq<char>>,
    desired: Seq<Seq<char>>,
    name: Seq<char>,
)
    requires
        desired.contains(name),
    ensures
        !spec_orphaned(previous, desired).contains(name),
    decreases previous.len(),
{
    if previous.len() > 0 {
        lemma_orphaned_spares_desired(previous.drop_last(), desired, name);
        let rest = spec_orphaned(previous.drop_last(), desired);
        let whole = spec_orphaned(previous, desired);
        assert forall|i: int| 0 <= i < whole.len() implies whole[i] != name by {
            if i < rest.len() {
                assert(rest[i] == whole[i]);
                assert(rest.contains(rest[i]) || rest[i] != name) by {
                    assert(rest[i] == rest[i]);
                }
            }
        }
    }
}

// ---------------------------------------------------------------------------
// The reconcile state machine.
// ---------------------------------------------------------------------------

/// The steps of one reconcile pass. The surrounding loop performs the
/// outside work of each step and reports the outcome; the machine only
/// decides what comes next.
#[derive(Clone, Copy, PartialEq, Eq, Structural, Debug)]
pub enum ReconcileState {
    Idle,
    Validating,
    Resolving,
    Synthesizing,
    Applying,
    StatusUpdating,
    GarbageCollecting,
    Failed,
}

/// What the surrounding loop reports to the machine.
#[derive(Clone, Copy, PartialEq, Eq, Structural, Debug)]
pub enum ReconcileEvent {
    /// The cluster resource changed.
    SpecChanged,
    /// An owned child object changed.
    OwnedObjectChanged,
    /// The periodic resync fired, or the backoff after a failure ended.
    ResyncDue,
    /// The current step finished.
    StepSucceeded,
    /// The current step failed; a structural failure is one that only a
    /// changed cluster resource can cure.
    StepFailed { structural: bool },
}

/// Whether an event starts a new pass from rest.
pub open spec fn spec_wakes(event: ReconcileEvent) -> bool {
    event is SpecChanged || event is OwnedObjectChanged || event is ResyncDue
}

/// The next step after an event: a wake-up starts a pass at validation;
/// each successful step advances the fixed order validate, resolve,
/// synthesize, apply, update status, collect garbage, rest; the first
/// failure aborts the pass. A failed pass rests until its backoff ends,
/// except that a structural failure waits for the resource to change.
pub open spec fn spec_next_state(state: ReconcileState, event: ReconcileEvent) -> ReconcileState {
    match (state, event) {
        (ReconcileState::Idle, e) => if spec_wakes(e) {
            ReconcileState::Validating
        } else {
            ReconcileState::Idle
        },
        (ReconcileState::Failed, ReconcileEvent::SpecChanged) => ReconcileState::Validating,
        (ReconcileState::Failed, ReconcileEvent::ResyncDue) => ReconcileState::Validating,
        (ReconcileState::Failed, _) => ReconcileState::Failed,
        (s, ReconcileEvent::StepFailed { .. }) => ReconcileState::Failed,
        (ReconcileState::Validating, ReconcileEvent::StepSucceeded) => ReconcileState::Resolving,
        (ReconcileState::Resolving, ReconcileEvent::StepSucceeded) => ReconcileState::Synthesizing,
        (ReconcileState::Synthesizing, ReconcileEvent::StepSucceeded) => ReconcileState::Applying,
        (ReconcileState::Applying, ReconcileEvent::StepSucceeded) => ReconcileState::StatusUpdating,
        (ReconcileState::StatusUpdating, ReconcileEvent::StepSucceeded) =>
            ReconcileState::GarbageCollecting,
        (ReconcileState::GarbageCollecting, ReconcileEvent::StepSucceeded) => ReconcileState::Idle,
        (s, _) => s,
    }
}

/// Advances the machine by one event.
pub fn next_state(state: ReconcileState, event: ReconcileEvent) -> (r: ReconcileState)
    ensures
        r == spec_next_state(state, event),
{
    match (state, event) {
        (ReconcileState::Idle, ReconcileEvent::SpecChanged) => ReconcileState::Validating,
        (ReconcileState::Idle, ReconcileEvent::OwnedObjectChanged) => ReconcileState::Validating,
        (ReconcileState::Idle, ReconcileEvent::ResyncDue) => ReconcileState::Validating,
        (ReconcileState::Idle, _) => ReconcileState::Idle,
        (ReconcileState::Failed, ReconcileEvent::SpecChanged) => ReconcileState::Validating,
        (ReconcileState::Failed, ReconcileEvent::ResyncDue) => ReconcileState::Validating,
        (ReconcileState::Failed, _) => ReconcileState::Failed,
        (_, ReconcileEvent::StepFailed { .. }) => ReconcileState::Failed,
        (ReconcileState::Validating, ReconcileEvent::StepSucceeded) => ReconcileState::Resolving,
        (ReconcileState::Resolving, ReconcileEvent::StepSucceeded) => ReconcileState::Synthesizing,
        (ReconcileState::Synthesizing, ReconcileEvent::StepSucceeded) => ReconcileState::Applying,
        (ReconcileState::Applying, ReconcileEvent::StepSucceeded) => ReconcileState::StatusUpdating,
        (ReconcileState::StatusUpdating, ReconcileEvent::StepSucceeded) =>
            ReconcileState::GarbageCollecting,
        (ReconcileState::GarbageCollecting, ReconcileEvent::StepSucceeded) => ReconcileState::Idle,
        (s, _) => s,
    }
}

/// Garbage collection runs strictly after a successful apply and status
/// update: the only way into the collection step is a successful status
/// update, which itself is only entered from a successful apply.
pub proof fn lemma_collection_follows_apply(state: ReconcileState, event: ReconcileEvent)
    ensures
        spec_next_state(state, event) == ReconcileState::GarbageCollecting && state
            != ReconcileState::GarbageCollecting ==> state == ReconcileState::StatusUpdating
            && event == ReconcileEvent::StepSucceeded,
        spec_next_state(state, event) == ReconcileState::StatusUpdating && state
            != ReconcileState::StatusUpdating ==> state == ReconcileState::Applying && event
            == ReconcileEvent::StepSucceeded,
{
}

} // verus!
