//! Library core of a controller that reconciles a desired Hive Metastore
//! deployment description into a deterministic set of cluster objects.
//!
//! The crate is organised around three pure components:
//! a configuration overlay resolver that merges layered partial
//! configurations, a resource synthesizer that turns a resolved
//! configuration into desired object specifications, and a discovery
//! resolver that derives client connection strings.

use vstd::prelude::*;

pub mod affinity;
pub mod cluster;
pub mod command;
pub mod config;
pub mod controller;
pub mod crd;
pub mod discovery;
pub mod jvm;
pub mod kerberos;
pub mod listener;
pub mod memory;
pub mod opa;
pub mod product;
pub mod props;
pub mod service;
pub mod status;
pub mod strutil;

verus! {

} // verus!
