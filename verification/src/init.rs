//! Where the ledger's genesis file is found.

use vstd::prelude::*;
use crate::config::Config;

verus! {

/// The name of the directory, below the working directory, that holds the
/// genesis files.
pub fn genesis_directory() -> (name: String)
    ensures
        name@ == "genesis"@,
{
    "genesis".to_owned()
}

/// The name of the genesis file of the configured network: the network's
/// name with `.txn` behind it.
pub fn genesis_file_name(config: &Config) -> (name: String)
    ensures
        name@ == config.pool.network@ + ".txn"@,
{
    let mut name = config.pool.network.clone();
    name.append(".txn");
    name
}

} // verus!
