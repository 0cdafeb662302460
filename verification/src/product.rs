//! The per-property-kind tables computed for the product configuration:
//! environment variables, command-line flags, and the entries of the
//! rendered files, each with the user's raw overrides applied on top.

use vstd::prelude::*;

verus! {

use vstd::string::*;
use crate::cluster::{HiveCluster, Role};
use crate::config::MetaStoreConfig;
use crate::crd::{KeyValue, KeyValueView};
use crate::props::{PropEntry, PropEntryView, bag_set_all, spec_bag_set_all};

/// The fixed value of `HIVE_METASTORE_HADOOP_OPTS`: the JMX metrics
/// agent, the trust store, and the security properties file.
pub open spec fn spec_hadoop_opts() -> Seq<char> {
    "-javaagent:/stackable/jmx/jmx_prometheus_javaagent.jar=9084:/stackable/jmx/jmx_hive_config.yaml\n-Djavax.net.ssl.trustStore=/stackable/truststore.p12\n-Djavax.net.ssl.trustStorePassword=changeit\n-Djavax.net.ssl.trustStoreType=pkcs12\n-Djava.security.properties=/stackable/config/security.properties"@
}

/// The computed environment entries of the role.
pub open spec fn spec_compute_env() -> Seq<PropEntryView> {
    seq![
        PropEntryView { key: "HIVE_METASTORE_HADOOP_OPTS"@, value: Some(spec_hadoop_opts()) },
    ]
}

/// The computed command-line entries of the role.
pub open spec fn spec_compute_cli(hive: HiveCluster) -> Seq<PropEntryView> {
    seq![
        PropEntryView {
            key: "dbType"@,
            value: Some(hive.spec.cluster_config.database.db_type.spec_name()),
        },
    ]
}

/// The computed entries of the connection-properties file: the optional
/// warehouse directory, the database connection with credential
/// placeholders, the JDBC driver class, and the metrics switch.
pub open spec fn spec_compute_files(hive: HiveCluster, warehouse_dir: Option<Seq<char>>, file: Seq<char>) -> Seq<
    PropEntryView,
> {
    if file == "hive-site.xml"@ {
        seq![
            PropEntryView { key: "hive.metastore.metrics.enabled"@, value: Some("true"@) },
        ] + (match warehouse_dir {
            Some(wd) => seq![
                PropEntryView { key: "hive.metastore.warehouse.dir"@, value: Some(wd) },
            ],
            None => Seq::empty(),
        }) + seq![
            PropEntryView {
                key: "javax.jdo.option.ConnectionDriverName"@,
                value: Some(hive.spec.cluster_config.database.db_type.spec_jdbc_driver_class()),
            },
            PropEntryView {
                key: "javax.jdo.option.ConnectionPassword"@,
                value: Some("xxx_db_password_xxx"@),
            },
            PropEntryView {
                key: "javax.jdo.option.ConnectionURL"@,
                value: Some(hive.spec.cluster_config.database.conn_string@),
            },
            PropEntryView {
                key: "javax.jdo.option.ConnectionUserName"@,
                value: Some("xxx_db_username_xxx"@),
            },
        ]
    } else {
        Seq::empty()
    }
}

impl crate::config::MetaStoreConfigFragment {
    /// The computed environment entries of this layer.
    pub fn compute_env(&self, _hive: &HiveCluster, _role_name: &str) -> (r: Vec<PropEntry>)
        ensures
            r.deep_view() == spec_compute_env(),
    {
        let mut v: Vec<PropEntry> = Vec::new();
        v.push(
            PropEntry {
                key: String::from_str("HIVE_METASTORE_HADOOP_OPTS"),
                value: Some(
                    String::from_str(
                        "-javaagent:/stackable/jmx/jmx_prometheus_javaagent.jar=9084:/stackable/jmx/jmx_hive_config.yaml\n-Djavax.net.ssl.trustStore=/stackable/truststore.p12\n-Djavax.net.ssl.trustStorePassword=changeit\n-Djavax.net.ssl.trustStoreType=pkcs12\n-Djava.security.properties=/stackable/config/security.properties",
                    ),
                ),
            },
        );
        proof {
            assert(v.deep_view() =~= spec_compute_env());
        }
        v
    }

    /// The computed command-line entries of this layer.
    pub fn compute_cli(&self, hive: &HiveCluster, _role_name: &str) -> (r: Vec<PropEntry>)
        ensures
            r.deep_view() == spec_compute_cli(*hive),
    {
        let mut v: Vec<PropEntry> = Vec::new();
        v.push(
            PropEntry {
                key: String::from_str("dbType"),
                value: Some(
                    String::from_str(hive.spec.cluster_config.database.db_type.as_str()),
                ),
            },
        );
        proof {
            assert(v.deep_view() =~= spec_compute_cli(*hive));
        }
        v
    }

    /// The computed entries of one rendered file for this layer.
    pub fn compute_files(&self, hive: &HiveCluster, _role_name: &str, file: &str) -> (r: Vec<
        PropEntry,
    >)
        ensures
            r.deep_view() == spec_compute_files(*hive, self.warehouse_dir.deep_view(), file@),
    {
        let mut v: Vec<PropEntry> = Vec::new();
        let hive_site = String::from_str("hive-site.xml");
        let file_string = String::from_str(file);
        if file_string == hive_site {
            v.push(
                PropEntry {
                    key: String::from_str("hive.metastore.metrics.enabled"),
                    value: Some(String::from_str("true")),
                },
            );
            match &self.warehouse_dir {
                Some(wd) => {
                    v.push(
                        PropEntry {
                            key: String::from_str("hive.metastore.warehouse.dir"),
                            value: Some(wd.clone()),
                        },
                    );
                },
                None => {},
            }
            v.push(
                PropEntry {
                    key: String::from_str("javax.jdo.option.ConnectionDriverName"),
                    value: Some(
                        String::from_str(
                            hive.spec.cluster_config.database.db_type.get_jdbc_driver_class(),
                        ),
                    ),
                },
            );
            v.push(
                PropEntry {
                    key: String::from_str("javax.jdo.option.ConnectionPassword"),
                    value: Some(String::from_str("xxx_db_password_xxx")),
                },
            );
            v.push(
                PropEntry {
                    key: String::from_str("javax.jdo.option.ConnectionURL"),
                    value: Some(hive.spec.cluster_config.database.conn_string.clone()),
                },
            );
            v.push(
                PropEntry {
                    key: String::from_str("javax.jdo.option.ConnectionUserName"),
                    value: Some(String::from_str("xxx_db_username_xxx")),
                },
            );
            proof {
                assert(v.deep_view() =~= spec_compute_files(
                    *hive,
                    self.warehouse_dir.deep_view(),
                    file@,
                ));
            }
        } else {
            proof {
                assert(v.deep_view() =~= spec_compute_files(
                    *hive,
                    self.warehouse_dir.deep_view(),
                    file@,
                ));
            }
        }
        v
    }
}

/// The raw override entries for one file at one layer, empty when the
/// layer has none.
pub open spec fn spec_file_overrides(
    list: Seq<crate::cluster::FileOverrides>,
    file: Seq<char>,
) -> Seq<KeyValueView>
    decreases list.len(),
{
    if list.len() == 0 {
        Seq::empty()
    } else if list[0].file@ == file {
        list[0].entries.deep_view()
    } else {
        spec_file_overrides(list.drop_first(), file)
    }
}

fn file_overrides(list: &Vec<crate::cluster::FileOverrides>, file: &String) -> (r: Vec<
    KeyValue,
>)
    ensures
        r.deep_view() == spec_file_overrides(list@, file@),
{
    let mut i: usize = 0;
    proof {
        assert(list@.subrange(0, list@.len() as int) =~= list@);
    }
    while i < list.len()
        invariant
            i <= list.len(),
            spec_file_overrides(list@, file@) == spec_file_overrides(
                list@.subrange(i as int, list@.len() as int),
                file@,
            ),
        decreases list.len() - i,
    {
        proof {
            let suf = list@.subrange(i as int, list@.len() as int);
            assert(suf[0] == list@[i as int]);
            assert(suf.drop_first() =~= list@.subrange(i + 1 as int, list@.len() as int));
        }
        if list[i].file == *file {
            return crate::config::dup_kvs(&list[i].entries);
        }
        i = i + 1;
    }
    proof {
        assert(list@.subrange(list@.len() as int, list@.len() as int).len() == 0);
    }
    Vec::new()
}

/// The validated per-property-kind table for one role group: the
/// computed entries of each kind with the role-level and then the
/// group-level raw overrides applied.
pub struct PropertyTable {
    pub env: Vec<PropEntry>,
    pub cli: Vec<PropEntry>,
    pub hive_site: Vec<PropEntry>,
    pub security_properties: Vec<PropEntry>,
}

/// Ghost image of a [`PropertyTable`].
pub ghost struct PropertyTableView {
    pub env: Seq<PropEntryView>,
    pub cli: Seq<PropEntryView>,
    pub hive_site: Seq<PropEntryView>,
    pub security_properties: Seq<PropEntryView>,
}

impl DeepView for PropertyTable {
    type V = PropertyTableView;

    open spec fn deep_view(&self) -> PropertyTableView {
        PropertyTableView {
            env: self.env.deep_view(),
            cli: self.cli.deep_view(),
            hive_site: self.hive_site.deep_view(),
            security_properties: self.security_properties.deep_view(),
        }
    }
}

/// One property kind with both override layers applied.
pub open spec fn spec_layered(
    computed: Seq<PropEntryView>,
    role_level: Seq<KeyValueView>,
    group_level: Seq<KeyValueView>,
) -> Seq<PropEntryView> {
    spec_bag_set_all(spec_bag_set_all(computed, role_level), group_level)
}

/// The whole table for one role group.
pub open spec fn spec_property_table(
    hive: HiveCluster,
    warehouse_dir: Option<Seq<char>>,
    role: Role,
    group: crate::cluster::RoleGroup,
) -> PropertyTableView {
    PropertyTableView {
        env: spec_layered(
            spec_compute_env(),
            role.config.env_overrides.deep_view(),
            group.config.env_overrides.deep_view(),
        ),
        cli: spec_layered(
            spec_compute_cli(hive),
            role.config.cli_overrides.deep_view(),
            group.config.cli_overrides.deep_view(),
        ),
        hive_site: spec_layered(
            spec_compute_files(hive, warehouse_dir, "hive-site.xml"@),
            spec_file_overrides(role.config.config_overrides@, "hive-site.xml"@),
            spec_file_overrides(group.config.config_overrides@, "hive-site.xml"@),
        ),
        security_properties: spec_layered(
            Seq::empty(),
            spec_file_overrides(role.config.config_overrides@, "security.properties"@),
            spec_file_overrides(group.config.config_overrides@, "security.properties"@),
        ),
    }
}

/// Computes the validated per-property-kind table for one role group:
/// for every kind, the computed entries, the role layer's raw overrides,
/// then the role-group layer's raw overrides, later layers winning per
/// key.
pub fn transform_metastore_config(
    hive: &HiveCluster,
    merged: &MetaStoreConfig,
    role: &Role,
    group: &crate::cluster::RoleGroup,
) -> (r: PropertyTable)
    ensures
        r.deep_view() == spec_property_table(
            *hive,
            merged.warehouse_dir.deep_view(),
            *role,
            *group,
        ),
{
    let merged_fragment_stub = crate::config::MetaStoreConfigFragment {
        warehouse_dir: crate::config::dup_opt_string(&merged.warehouse_dir),
        resources: crate::config::dup_resources(&merged.resources),
        logging: crate::config::LoggingFragment {
            enable_vector_agent: None,
            hive: crate::config::ContainerLogConfig { choice: None },
            vector: crate::config::ContainerLogConfig { choice: None },
        },
        affinity: crate::config::dup_affinity(&merged.affinity),
        graceful_shutdown_timeout: merged.graceful_shutdown_timeout,
    };
    let role_name = "metastore";
    let hive_site_name = String::from_str("hive-site.xml");
    let security_name = String::from_str("security.properties");
    let env = bag_set_all(
        bag_set_all(merged_fragment_stub.compute_env(hive, role_name), &role.config.env_overrides),
        &group.config.env_overrides,
    );
    let cli = bag_set_all(
        bag_set_all(merged_fragment_stub.compute_cli(hive, role_name), &role.config.cli_overrides),
        &group.config.cli_overrides,
    );
    let hive_site = bag_set_all(
        bag_set_all(
            merged_fragment_stub.compute_files(hive, role_name, hive_site_name.as_str()),
            &file_overrides(&role.config.config_overrides, &hive_site_name),
        ),
        &file_overrides(&group.config.config_overrides, &hive_site_name),
    );
    let empty_bag: Vec<PropEntry> = Vec::new();
    proof {
        assert(empty_bag.deep_view() =~= Seq::<PropEntryView>::empty());
    }
    let security_properties = bag_set_all(
        bag_set_all(empty_bag, &file_overrides(&role.config.config_overrides, &security_name)),
        &file_overrides(&group.config.config_overrides, &security_name),
    );
    PropertyTable { env, cli, hive_site, security_properties }
}

} // verus!
