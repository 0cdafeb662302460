//! Kerberos wiring: the configuration properties and the container
//! start-up commands that substitute the realm into the rendered files.

use vstd::prelude::*;

verus! {

use vstd::string::*;
use crate::cluster::HiveCluster;
use crate::crd::{KeyValue, KeyValueView};

/// The host part of the Kerberos principal:
/// `<cluster>.<namespace>.svc.<domain>@${env.KERBEROS_REALM}`.
pub open spec fn spec_principal_host_part(
    cluster_name: Seq<char>,
    namespace: Seq<char>,
    cluster_domain: Seq<char>,
) -> Seq<char> {
    cluster_name + "."@ + namespace + ".svc."@ + cluster_domain + "@${env.KERBEROS_REALM}"@
}

/// The Kerberos properties of the connection-properties file, in
/// rendering order; empty while Kerberos is off.
pub open spec fn spec_kerberos_config_properties(
    hive: HiveCluster,
    namespace: Seq<char>,
    cluster_domain: Seq<char>,
) -> Seq<KeyValueView> {
    if hive.spec_kerberos_secret_class() is None {
        Seq::empty()
    } else {
        let principal = "hive/"@ + spec_principal_host_part(
            hive.spec_name_any(),
            namespace,
            cluster_domain,
        );
        seq![
            KeyValueView { key: "hive.metastore.client.kerberos.principal"@, value: principal },
            KeyValueView {
                key: "hive.metastore.kerberos.keytab.file"@,
                value: "/stackable/kerberos/keytab"@,
            },
            KeyValueView { key: "hive.metastore.kerberos.principal"@, value: principal },
            KeyValueView { key: "hive.metastore.sasl.enabled"@, value: "true"@ },
        ]
    }
}

/// The Kerberos properties for one cluster: both principals, the keytab
/// location, and the switch that turns SASL on.
pub fn kerberos_config_properties(
    hive: &HiveCluster,
    hive_namespace: &str,
    cluster_domain: &str,
) -> (r: Vec<KeyValue>)
    ensures
        r.deep_view() == spec_kerberos_config_properties(*hive, hive_namespace@, cluster_domain@),
{
    if !hive.has_kerberos_enabled() {
        let r: Vec<KeyValue> = Vec::new();
        proof {
            assert(r.deep_view() =~= Seq::<KeyValueView>::empty());
        }
        return r;
    }
    let mut host_part = hive.name_any();
    host_part.append(".");
    host_part.append(hive_namespace);
    host_part.append(".svc.");
    host_part.append(cluster_domain);
    host_part.append("@${env.KERBEROS_REALM}");
    let mut principal = String::from_str("hive/");
    principal.append(host_part.as_str());
    let mut r: Vec<KeyValue> = Vec::new();
    r.push(
        KeyValue {
            key: String::from_str("hive.metastore.client.kerberos.principal"),
            value: principal.clone(),
        },
    );
    r.push(
        KeyValue {
            key: String::from_str("hive.metastore.kerberos.keytab.file"),
            value: String::from_str("/stackable/kerberos/keytab"),
        },
    );
    r.push(
        KeyValue {
            key: String::from_str("hive.metastore.kerberos.principal"),
            value: principal,
        },
    );
    r.push(
        KeyValue {
            key: String::from_str("hive.metastore.sasl.enabled"),
            value: String::from_str("true"),
        },
    );
    proof {
        assert(principal@ =~= "hive/"@ + spec_principal_host_part(
            hive.spec_name_any(),
            hive_namespace@,
            cluster_domain@,
        ));
        assert(r.deep_view() =~= spec_kerberos_config_properties(
            *hive,
            hive_namespace@,
            cluster_domain@,
        ));
    }
    r
}

/// The realm-substitution commands run before the metastore starts:
/// export the realm from the Kerberos configuration and substitute it
/// into the rendered files; empty while Kerberos is off.
pub open spec fn spec_kerberos_container_start_commands(hive: HiveCluster) -> Seq<char> {
    if hive.spec_kerberos_secret_class() is None {
        ""@
    } else {
        let base =
            "export KERBEROS_REALM=$(grep -oP 'default_realm = \\K.*' /stackable/kerberos/krb5.conf)\nsed -i -e 's/${env.KERBEROS_REALM}/'\"$KERBEROS_REALM/g\" /stackable/config/hive-site.xml"@;
        if hive.spec.cluster_config.hdfs is Some {
            base
                + "\nsed -i -e 's/${env.KERBEROS_REALM}/'\"$KERBEROS_REALM/g\" /stackable/config/core-site.xml\nsed -i -e 's/${env.KERBEROS_REALM}/'\"$KERBEROS_REALM/g\" /stackable/config/hdfs-site.xml"@
        } else {
            base
        }
    }
}

/// Builds those start-up commands.
pub fn kerberos_container_start_commands(hive: &HiveCluster) -> (r: String)
    ensures
        r@ == spec_kerberos_container_start_commands(*hive),
{
    if !hive.has_kerberos_enabled() {
        return String::from_str("");
    }
    let mut r = String::from_str(
        "export KERBEROS_REALM=$(grep -oP 'default_realm = \\K.*' /stackable/kerberos/krb5.conf)\nsed -i -e 's/${env.KERBEROS_REALM}/'\"$KERBEROS_REALM/g\" /stackable/config/hive-site.xml",
    );
    if hive.spec.cluster_config.hdfs.is_some() {
        r.append(
            "\nsed -i -e 's/${env.KERBEROS_REALM}/'\"$KERBEROS_REALM/g\" /stackable/config/core-site.xml\nsed -i -e 's/${env.KERBEROS_REALM}/'\"$KERBEROS_REALM/g\" /stackable/config/hdfs-site.xml",
        );
    }
    r
}

} // verus!
