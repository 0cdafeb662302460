//! Exposure through the listener abstraction: the role listener object
//! and the connection string read off its published addresses.

use vstd::prelude::*;

verus! {

use vstd::string::*;

/// The listener class used when the user configures none.
pub fn metastore_default_listener_class() -> (r: String)
    ensures
        r@ == "cluster-internal"@,
{
    String::from_str("cluster-internal")
}

} // verus!
