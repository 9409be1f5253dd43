//! The network's fixed parameters.

use vstd::prelude::*;

verus! {

pub const DOCKER_SOCKET_PATH: &'static str = "unix:///var/run/docker.sock";

pub const CONFIG_DIR: &'static str = "config";

pub const DATA_DIR: &'static str = "data";

pub const BASE_CONFIG: &'static str = "config/base.yaml";

pub const LOCALHOST: &'static str = "[::1]";

/// The gateway timeout of an RPC call, in seconds.
pub const GRPC_TIMEOUT: u64 = 30;

/// The number of leading zero digits asked of the hash of a peer's public key
/// when the configuration gives no keypair.
pub const DEFAULT_LEADING_ZEROS: usize = 2;

/// The reputation credited to a custodian that passes an audit.
pub const AUDIT_REWARD: i64 = 1;

/// The reputation taken from a custodian that fails an audit.
pub const AUDIT_PENALTY: i64 = 5;

/// How long a verifier waits for the response to a challenge, in seconds.
pub const VERIFICATION_TIMEOUT: i64 = 5;

/// The period of the audit loop, in seconds.
pub const VERIFICATION_CYCLE_TIME: u64 = 60;

/// The number of slabs into which the space of file identifiers is cut.
pub const NUM_PEERS: u128 = 3;

/// The number of custodians chosen for a blob.
pub const REPLICATION_FACTOR: usize = 3;

/// How often the write of a contract is tried before a store fails.
pub const CONTRACT_WRITE_ATTEMPTS: usize = 10;

/// The ledger database that holds the three tables.
pub const DATABASE_NAME: &'static str = "kiss";

/// The timeout of a query in the distributed hash table, in seconds.
pub const QUERY_TIMEOUT: u64 = 60;

/// The largest message accepted on either wire: 1 GiB.
pub const MAX_MESSAGE_SIZE: usize = 1024 * 1024 * 1024;

/// The name of the request/response protocol that carries challenges.
pub const VERIFICATION_PROTOCOL: &'static str = "/verification/1.0.0";

} // verus!
