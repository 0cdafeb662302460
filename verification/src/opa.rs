//! Settings for the external authorization engine: the endpoint the
//! metastore plugin talks to and the properties configuring it.

use vstd::prelude::*;

verus! {

use vstd::string::*;
use crate::crd::{KeyValue, KeyValueView};

/// The resolved authorization-engine settings: the document endpoint and
/// the optional TLS secret class for the connection to it.
pub struct HiveOpaConfig {
    /// Endpoint of the policy document, e.g.
    /// `http://localhost:8081/v1/data/hive`.
    pub base_endpoint: String,
    /// Secret class whose CA certificate is added to the trust store so
    /// the engine's TLS certificate is trusted.
    pub tls_secret_class: Option<String>,
}

/// Whether a product version belongs to the 3.x line.
pub open spec fn spec_is_v3(version: Seq<char>) -> bool {
    version.len() >= 2 && version[0] == '3' && version[1] == '.'
}

/// The authorization properties for one product version.
pub open spec fn spec_opa_config(base_endpoint: Seq<char>, version: Seq<char>) -> Seq<KeyValueView> {
    seq![
        KeyValueView {
            key: "hive.metastore.pre.event.listeners"@,
            value: if spec_is_v3(version) {
                "com.bosch.bdps.hms3.OpaAuthorizationPreEventListener"@
            } else {
                "com.bosch.bdps.hms4.OpaAuthorizationPreEventListener"@
            },
        },
        KeyValueView {
            key: "hive.security.metastore.authorization.manager"@,
            value: if spec_is_v3(version) {
                "com.bosch.bdps.hms3.OpaBasedAuthorizationProvider"@
            } else {
                "com.bosch.bdps.hms4.OpaBasedAuthorizationProvider"@
            },
        },
        KeyValueView { key: "com.bosch.bdps.opa.authorization.base.endpoint"@, value: base_endpoint },
        KeyValueView {
            key: "com.bosch.bdps.opa.authorization.policy.url.database"@,
            value: "database_allow"@,
        },
        KeyValueView {
            key: "com.bosch.bdps.opa.authorization.policy.url.table"@,
            value: "table_allow"@,
        },
        KeyValueView {
            key: "com.bosch.bdps.opa.authorization.policy.url.column"@,
            value: "column_allow"@,
        },
        KeyValueView {
            key: "com.bosch.bdps.opa.authorization.policy.url.partition"@,
            value: "partition_allow"@,
        },
        KeyValueView {
            key: "com.bosch.bdps.opa.authorization.policy.url.user"@,
            value: "user_allow"@,
        },
    ]
}

impl HiveOpaConfig {
    /// The authorization properties to fold into the rendered
    /// connection-properties file: the version-matched plugin classes,
    /// the endpoint, and the policy rule names.
    pub fn as_config(&self, product_version: &str) -> (r: Vec<KeyValue>)
        ensures
            r.deep_view() == spec_opa_config(self.base_endpoint@, product_version@),
    {
        let v3 = {
            let len = product_version.unicode_len();
            len >= 2 && product_version.get_char(0) == '3' && product_version.get_char(1) == '.'
        };
        let mut r: Vec<KeyValue> = Vec::new();
        r.push(
            KeyValue {
                key: String::from_str("hive.metastore.pre.event.listeners"),
                value: if v3 {
                    String::from_str("com.bosch.bdps.hms3.OpaAuthorizationPreEventListener")
                } else {
                    String::from_str("com.bosch.bdps.hms4.OpaAuthorizationPreEventListener")
                },
            },
        );
        r.push(
            KeyValue {
                key: String::from_str("hive.security.metastore.authorization.manager"),
                value: if v3 {
                    String::from_str("com.bosch.bdps.hms3.OpaBasedAuthorizationProvider")
                } else {
                    String::from_str("com.bosch.bdps.hms4.OpaBasedAuthorizationProvider")
                },
            },
        );
        r.push(
            KeyValue {
                key: String::from_str("com.bosch.bdps.opa.authorization.base.endpoint"),
                value: self.base_endpoint.clone(),
            },
        );
        r.push(
            KeyValue {
                key: String::from_str("com.bosch.bdps.opa.authorization.policy.url.database"),
                value: String::from_str("database_allow"),
            },
        );
        r.push(
            KeyValue {
                key: String::from_str("com.bosch.bdps.opa.authorization.policy.url.table"),
                value: String::from_str("table_allow"),
            },
        );
        r.push(
            KeyValue {
                key: String::from_str("com.bosch.bdps.opa.authorization.policy.url.column"),
                value: String::from_str("column_allow"),
            },
        );
        r.push(
            KeyValue {
                key: String::from_str("com.bosch.bdps.opa.authorization.policy.url.partition"),
                value: String::from_str("partition_allow"),
            },
        );
        r.push(
            KeyValue {
                key: String::from_str("com.bosch.bdps.opa.authorization.policy.url.user"),
                value: String::from_str("user_allow"),
            },
        );
        proof {
            assert(r.deep_view() =~= spec_opa_config(self.base_endpoint@, product_version@));
        }
        r
    }

    /// Where the engine's CA certificate is mounted, when a TLS secret
    /// class is configured.
    pub fn tls_ca_cert_mount_path(&self) -> (r: Option<String>)
        ensures
            match r {
                Some(p) => self.tls_secret_class is Some && p@ == "/stackable/secrets/opa-tls"@,
                None => self.tls_secret_class is None,
            },
    {
        match &self.tls_secret_class {
            Some(_) => Some(String::from_str("/stackable/secrets/opa-tls")),
            None => None,
        }
    }
}

} // verus!
