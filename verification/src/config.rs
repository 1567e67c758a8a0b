//! Configuration of the storage cluster and of the services around it.

use vstd::prelude::*;
use std::collections::HashMap;

verus! {

/// Type alias for datacenter names
pub type DatacenterName = String;

/// Type alias for keyspace names
pub type KeyspaceName = String;

/// Where the configuration is kept unless the environment says otherwise.
pub const CONFIG_PATH: &'static str = "./config.ron";

/// The keyspace that is used where the configuration names none.
pub const DEFAULT_KEYSPACE: &'static str = "permanode";

/// The number of collectors that is used where the configuration gives none.
pub const DEFAULT_COLLECTORS_COUNT: u8 = 10;

/// Enum specifying a thread count
#[derive(Debug, PartialEq, Eq, Clone)]
pub enum ThreadCount {
    /// A scalar count of threads
    Count(usize),
    /// A multiple of the available cores
    CoreMultiple(usize),
}

impl Default for ThreadCount {
    fn default() -> (count: Self)
        ensures
            count == ThreadCount::CoreMultiple(1),
    {
        Self::CoreMultiple(1)
    }
}

/// Storage configuration. Defines data which can be used to construct and
/// access the cluster.
#[derive(Debug, PartialEq, Eq, Clone)]
pub struct StorageConfig {
    /// Keyspace definition for this cluster, keyed by the network
    /// they will pull data from
    pub keyspaces: Vec<KeyspaceConfig>,
    /// The listen address
    pub listen_address: String,
    /// The thread count
    pub thread_count: ThreadCount,
    /// The reporter count
    pub reporter_count: u8,
    /// The name of the local datacenter
    pub local_datacenter: String,
}

impl Default for StorageConfig {
    fn default() -> (config: Self)
        ensures
            config.keyspaces@.len() == 0,
            config.listen_address@.len() == 0,
            config.thread_count == ThreadCount::CoreMultiple(1),
            config.reporter_count == 0,
            config.local_datacenter@.len() == 0,
    {
        StorageConfig {
            keyspaces: Vec::new(),
            listen_address: String::new(),
            thread_count: ThreadCount::CoreMultiple(1),
            reporter_count: 0,
            local_datacenter: String::new(),
        }
    }
}

/// Configuration for a keyspace
#[derive(Debug, PartialEq, Eq, Clone)]
pub struct KeyspaceConfig {
    /// The name of the keyspace
    pub name: KeyspaceName,
    /// Datacenters configured for this keyspace, keyed by name
    pub data_centers: HashMap<DatacenterName, DatacenterConfig>,
}

/// Configuration for a datacenter
#[derive(Debug, PartialEq, Eq, Clone)]
pub struct DatacenterConfig {
    /// The replication factor for this datacenter
    pub replication_factor: usize,
}

/// Configuration of the API service.
#[derive(Debug, PartialEq, Eq, Clone)]
pub struct ApiConfig {}

/// Configuration of the broker service.
#[derive(Debug, PartialEq, Eq, Clone)]
pub struct BrokerConfig {}

/// The configuration of the whole node.
#[derive(Debug, PartialEq, Eq, Clone)]
pub struct Config {
    pub storage_config: StorageConfig,
    pub api_config: ApiConfig,
    pub broker_config: BrokerConfig,
}

impl Default for Config {
    fn default() -> (config: Self)
        ensures
            config.storage_config.keyspaces@.len() == 0,
            config.storage_config.listen_address@.len() == 0,
            config.storage_config.thread_count == ThreadCount::CoreMultiple(1),
            config.storage_config.reporter_count == 0,
            config.storage_config.local_datacenter@.len() == 0,
    {
        Config {
            storage_config: StorageConfig::default(),
            api_config: ApiConfig {  },
            broker_config: BrokerConfig {  },
        }
    }
}

/// The name of the keyspace that a service works on by default: that of the
/// first keyspace that the storage configuration lists, and `permanode`
/// where there is no configuration or it lists none.
pub open spec fn default_keyspace_name(storage_config: Option<StorageConfig>) -> Seq<char> {
    match storage_config {
        Some(config) => if config.keyspaces@.len() > 0 {
            config.keyspaces@[0].name@
        } else {
            DEFAULT_KEYSPACE@
        },
        None => DEFAULT_KEYSPACE@,
    }
}

/// Picks the keyspace that a service works on by default.
pub fn default_keyspace(storage_config: &Option<StorageConfig>) -> (name: String)
    ensures
        name@ == default_keyspace_name(*storage_config),
{
    match storage_config {
        Some(config) => if config.keyspaces.len() > 0 {
            config.keyspaces[0].name.clone()
        } else {
            DEFAULT_KEYSPACE.to_owned()
        },
        None => DEFAULT_KEYSPACE.to_owned(),
    }
}

/// The number of collectors to start: the configured one, or ten.
pub fn collectors_count(configured: Option<u8>) -> (count: u8)
    ensures
        count == match configured {
            Some(n) => n,
            None => DEFAULT_COLLECTORS_COUNT,
        },
{
    match configured {
        Some(n) => n,
        None => DEFAULT_COLLECTORS_COUNT,
    }
}

} // verus!
