//! The shell script of the main container: copies and templates the
//! mounted configuration, builds the trust store, substitutes the
//! database credentials, and starts the metastore.

use vstd::prelude::*;

verus! {

use vstd::string::*;
use crate::cluster::HiveCluster;
use crate::crd::ResolvedS3Connection;
use crate::opa::HiveOpaConfig;
use crate::strutil::{spec_join, join_with};

/// The fixed opening of the script: copy the mounted configuration and
/// the logging configuration into the writable configuration directory,
/// template the rendered files, and build the trust store from the
/// system certificates.
pub open spec fn spec_base_command_lines() -> Seq<Seq<char>> {
    seq![
        "echo copying /stackable/mount/config to /stackable/config"@,
        "cp -RL /stackable/mount/config/* /stackable/config"@,
        "echo copying /stackable/mount/log-config/metastore-log4j2.properties to /stackable/config/metastore-log4j2.properties"@,
        "cp -RL /stackable/mount/log-config/metastore-log4j2.properties /stackable/config/metastore-log4j2.properties"@,
        "if test -f /stackable/config/core-site.xml; then config-utils template /stackable/config/core-site.xml; fi"@,
        "if test -f /stackable/config/hive-site.xml; then config-utils template /stackable/config/hive-site.xml; fi"@,
        "cert-tools generate-pkcs12-truststore --pem /etc/pki/ca-trust/extracted/pem/tls-ca-bundle.pem --out /stackable/truststore.p12 --out-password changeit"@,
    ]
}

/// The lines that copy the HDFS discovery settings in, when HDFS is
/// configured.
pub open spec fn spec_hdfs_command_lines() -> Seq<Seq<char>> {
    seq![
        "echo copying /stackable/mount/hdfs-config to /stackable/config"@,
        "cp -RL /stackable/mount/hdfs-config/* /stackable/config"@,
    ]
}

/// The line that adds one CA certificate to the trust store.
pub open spec fn spec_add_ca_line(ca_cert_file: Seq<char>) -> Seq<char> {
    "cert-tools generate-pkcs12-truststore --pkcs12 /stackable/truststore.p12:changeit --pem "@
        + ca_cert_file
        + " --out /stackable/truststore.p12 --out-password changeit"@
}

/// The closing lines: substitute the database credentials read from the
/// secret into the rendered file, then run the start command.
pub open spec fn spec_credential_command_lines() -> Seq<Seq<char>> {
    seq![
        "echo replacing xxx_db_username_xxx and xxx_db_password_xxx with secret values."@,
        "sed -i \"s|xxx_db_username_xxx|$DB_USERNAME_ENV|g\" /stackable/config/hive-site.xml"@,
        "sed -i \"s|xxx_db_password_xxx|$DB_PASSWORD_ENV|g\" /stackable/config/hive-site.xml"@,
    ]
}

/// Every line of the container script, in order.
pub open spec fn spec_command_lines(
    hive: HiveCluster,
    start_command: Seq<char>,
    s3_ca: Option<Seq<char>>,
    opa_ca: Option<Seq<char>>,
) -> Seq<Seq<char>> {
    spec_base_command_lines() + (if hive.spec.cluster_config.hdfs is Some {
        spec_hdfs_command_lines()
    } else {
        Seq::empty()
    }) + (match s3_ca {
        Some(f) => seq![spec_add_ca_line(f)],
        None => Seq::empty(),
    }) + (match opa_ca {
        Some(d) => seq![spec_add_ca_line(d + "/ca.crt"@)],
        None => Seq::empty(),
    }) + spec_credential_command_lines() + seq![start_command]
}

/// The S3 CA certificate file to trust, if any.
pub open spec fn spec_s3_ca(s3: Option<ResolvedS3Connection>) -> Option<Seq<char>> {
    match s3 {
        Some(c) => match c.tls_ca_cert_mount_path {
            Some(f) => Some(f@),
            None => None,
        },
        None => None,
    }
}

/// The authorization engine's CA directory to trust, if any.
pub open spec fn spec_opa_ca(opa: Option<HiveOpaConfig>) -> Option<Seq<char>> {
    match opa {
        Some(c) => if c.tls_secret_class is Some {
            Some("/stackable/secrets/opa-tls"@)
        } else {
            None
        },
        None => None,
    }
}

/// Builds the argument list of the main container: one argument holding
/// the whole script, the lines joined with newlines.
pub fn build_container_command_args(
    hive: &HiveCluster,
    start_command: String,
    s3_connection_spec: Option<&ResolvedS3Connection>,
    hive_opa_config: Option<&HiveOpaConfig>,
) -> (r: Vec<String>)
    ensures
        r.deep_view() == seq![
            spec_join(
                spec_command_lines(
                    *hive,
                    start_command@,
                    spec_s3_ca(match s3_connection_spec {
                        Some(c) => Some(*c),
                        None => None,
                    }),
                    spec_opa_ca(match hive_opa_config {
                        Some(c) => Some(*c),
                        None => None,
                    }),
                ),
                "\n"@,
            ),
        ],
{
    let ghost s3_ca = spec_s3_ca(match s3_connection_spec {
        Some(c) => Some(*c),
        None => None,
    });
    let ghost opa_ca = spec_opa_ca(match hive_opa_config {
        Some(c) => Some(*c),
        None => None,
    });
    let mut args: Vec<String> = Vec::new();
    args.push(String::from_str("echo copying /stackable/mount/config to /stackable/config"));
    args.push(String::from_str("cp -RL /stackable/mount/config/* /stackable/config"));
    args.push(
        String::from_str(
            "echo copying /stackable/mount/log-config/metastore-log4j2.properties to /stackable/config/metastore-log4j2.properties",
        ),
    );
    args.push(
        String::from_str(
            "cp -RL /stackable/mount/log-config/metastore-log4j2.properties /stackable/config/metastore-log4j2.properties",
        ),
    );
    args.push(
        String::from_str(
            "if test -f /stackable/config/core-site.xml; then config-utils template /stackable/config/core-site.xml; fi",
        ),
    );
    args.push(
        String::from_str(
            "if test -f /stackable/config/hive-site.xml; then config-utils template /stackable/config/hive-site.xml; fi",
        ),
    );
    args.push(
        String::from_str(
            "cert-tools generate-pkcs12-truststore --pem /etc/pki/ca-trust/extracted/pem/tls-ca-bundle.pem --out /stackable/truststore.p12 --out-password changeit",
        ),
    );
    if hive.spec.cluster_config.hdfs.is_some() {
        args.push(
            String::from_str("echo copying /stackable/mount/hdfs-config to /stackable/config"),
        );
        args.push(String::from_str("cp -RL /stackable/mount/hdfs-config/* /stackable/config"));
    }
    match s3_connection_spec {
        Some(s3) => match &s3.tls_ca_cert_mount_path {
            Some(ca_cert_file) => {
                let mut line = String::from_str(
                    "cert-tools generate-pkcs12-truststore --pkcs12 /stackable/truststore.p12:changeit --pem ",
                );
                line.append(ca_cert_file.as_str());
                line.append(" --out /stackable/truststore.p12 --out-password changeit");
                args.push(line);
            },
            None => {},
        },
        None => {},
    }
    match hive_opa_config {
        Some(opa) => match opa.tls_ca_cert_mount_path() {
            Some(ca_cert_dir) => {
                let mut line = String::from_str(
                    "cert-tools generate-pkcs12-truststore --pkcs12 /stackable/truststore.p12:changeit --pem ",
                );
                line.append(ca_cert_dir.as_str());
                line.append("/ca.crt");
                line.append(" --out /stackable/truststore.p12 --out-password changeit");
                args.push(line);
            },
            None => {},
        },
        None => {},
    }
    args.push(
        String::from_str(
            "echo replacing xxx_db_username_xxx and xxx_db_password_xxx with secret values.",
        ),
    );
    args.push(
        String::from_str(
            "sed -i \"s|xxx_db_username_xxx|$DB_USERNAME_ENV|g\" /stackable/config/hive-site.xml",
        ),
    );
    args.push(
        String::from_str(
            "sed -i \"s|xxx_db_password_xxx|$DB_PASSWORD_ENV|g\" /stackable/config/hive-site.xml",
        ),
    );
    let ghost start_view = start_command@;
    args.push(start_command);
    proof {
        assert(args.deep_view() =~~= spec_command_lines(*hive, start_view, s3_ca, opa_ca));
    }
    let joined = join_with(&args, "\n");
    let mut r: Vec<String> = Vec::new();
    r.push(joined);
    proof {
        assert(r.deep_view() =~~= seq![
            spec_join(spec_command_lines(*hive, start_view, s3_ca, opa_ca), "\n"@),
        ]);
    }
    r
}

} // verus!
