//! The configuration of a node.

use vstd::prelude::*;
use vstd::string::*;
use rand::Rng;
use crate::p2p::peer_id::{keypair_to_base64_proto, Keypair};
use crate::util::consts::{BASE_CONFIG, CONFIG_DIR, DATA_DIR, DEFAULT_LEADING_ZEROS};
use crate::util::encoding::base64_no_pad;

verus! {

/// Where the records are kept.
#[derive(Debug)]
pub enum Storage {
    /// In a directory of the local file system, which is created if
    /// `create` is set.
    Local { path: String, create: bool },
    Docker,
}

impl Default for Storage {
    fn default() -> (storage: Self)
        ensures
            storage matches Storage::Local { path, create } && path@ == "data"@ && create,
    {
        Self::Local { path: "data".to_string(), create: true }
    }
}

impl Storage {
    /// Whether the directory is created where the configuration does not
    /// say: it is.
    pub fn default_create() -> (create: bool)
        ensures
            create,
    {
        true
    }
}

/// The swarm's part of the configuration.
#[derive(Debug)]
pub struct Swarm {
    /// The node's keypair: the base64 text of its protobuf encoding.
    pub keypair: Option<String>,
    pub leading_zeros: usize,
    pub port: u16,
    /// The addresses of the peers that the node contacts first.
    pub bootstrap: Vec<String>,
}

/// The auditor's part of the configuration.
#[derive(Debug, Clone, Copy, Default)]
pub struct Verifier {
    pub enabled: bool,
    /// Whether the auditor records the opposite of what it finds.
    pub corrupt: bool,
}

/// The ledger's part of the configuration.
#[derive(Debug)]
pub enum Ledger {
    Immudb { username: String, password: String, address: String },
}

/// The address of the ledger where the configuration names none.
pub const LEDGER_ADDRESS: &'static str = "127.0.0.1:3322";

impl Default for Ledger {
    fn default() -> (ledger: Self)
        ensures
            ledger matches Ledger::Immudb { username, password, address } && username@ == ""@
                && password@ == ""@ && address@ == LEDGER_ADDRESS@,
    {
        Self::Immudb {
            username: "".to_string(),
            password: "".to_string(),
            address: LEDGER_ADDRESS.to_string(),
        }
    }
}

/// What the malice harness does.
#[derive(Debug, Clone, Copy, PartialEq, Eq, Structural)]
pub enum MaliciousBehavior {
    /// No malice.
    Nothing,
    DeleteAll,
    DeleteLast,
}

impl Default for MaliciousBehavior {
    fn default() -> (behavior: Self)
        ensures
            behavior == MaliciousBehavior::Nothing,
    {
        Self::Nothing
    }
}

/// The facade's part of the configuration.
#[derive(Debug, Clone, Copy, Default)]
pub struct Grpc {
    pub port: u16,
}

/// The codec's part of the configuration.
#[derive(Debug, Clone, Copy, Default)]
pub struct Por {
    pub enabled: bool,
}

/// The configuration of a node.
#[derive(Debug)]
pub struct Settings {
    pub storage: Storage,
    pub grpc: Grpc,
    pub swarm: Swarm,
    pub ledger: Ledger,
    pub malicious_behavior: Option<MaliciousBehavior>,
    pub verifier: Verifier,
    pub por: Por,
}

/// Calls `gen_range(5000..10000)` of `rand::thread_rng()`. The number is
/// random: the contract claims only that it lies in the range.
#[verifier::external_body]
fn random_port() -> (port: u16)
    ensures
        5000 <= port < 10000,
{
    rand::thread_rng().gen_range(5000..10000)
}

impl Settings {
    /// The configuration of a new node with the given keypair: records in
    /// the data directory under the profile's name, random ports between
    /// 5000 and 9999 for the facade and the swarm, the local ledger, no
    /// malice, and the auditor and the codec switched on.
    pub fn new(config_name: &str, keypair: Keypair) -> (settings: Self)
        ensures
            settings.storage matches Storage::Local { path, create } && path@ == DATA_DIR@ + "/"@
                + config_name@ && create,
            5000 <= settings.grpc.port < 10000,
            5000 <= settings.swarm.port < 10000,
            settings.swarm.keypair matches Some(text) && text@ == base64_no_pad(keypair@),
            settings.swarm.leading_zeros == DEFAULT_LEADING_ZEROS,
            settings.swarm.bootstrap@.len() == 0,
            settings.ledger matches Ledger::Immudb { username, password, address } && username@
                == "immudb"@ && password@ == "immudb"@ && address@ == LEDGER_ADDRESS@,
            settings.malicious_behavior == Some(MaliciousBehavior::Nothing),
            settings.verifier.enabled,
            !settings.verifier.corrupt,
            settings.por.enabled,
    {
        let mut path = DATA_DIR.to_string();
        path.append("/");
        path.append(config_name);
        Self {
            storage: Storage::Local { path, create: true },
            grpc: Grpc { port: random_port() },
            swarm: Swarm {
                keypair: Some(keypair_to_base64_proto(keypair)),
                leading_zeros: DEFAULT_LEADING_ZEROS,
                port: random_port(),
                bootstrap: Vec::new(),
            },
            ledger: Ledger::Immudb {
                username: "immudb".to_string(),
                password: "immudb".to_string(),
                address: LEDGER_ADDRESS.to_string(),
            },
            malicious_behavior: Some(MaliciousBehavior::Nothing),
            verifier: Verifier { enabled: true, corrupt: false },
            por: Por { enabled: true },
        }
    }

    /// Where the records are kept.
    pub fn storage(&self) -> (storage: &Storage)
        ensures
            *storage == self.storage,
    {
        &self.storage
    }

    /// The facade's part.
    pub fn grpc(&self) -> (grpc: Grpc)
        ensures
            grpc == self.grpc,
    {
        self.grpc
    }

    /// The swarm's part.
    pub fn swarm(&self) -> (swarm: &Swarm)
        ensures
            *swarm == self.swarm,
    {
        &self.swarm
    }

    /// The ledger's part.
    pub fn ledger(&self) -> (ledger: &Ledger)
        ensures
            *ledger == self.ledger,
    {
        &self.ledger
    }

    /// What the malice harness does: nothing where the configuration does
    /// not say.
    pub fn malicious_behavior(&self) -> (behavior: MaliciousBehavior)
        ensures
            behavior == match self.malicious_behavior {
                Some(b) => b,
                None => MaliciousBehavior::Nothing,
            },
    {
        match self.malicious_behavior {
            Some(b) => b,
            None => MaliciousBehavior::Nothing,
        }
    }

    /// The auditor's part.
    pub fn verifier_settings(&self) -> (part: Verifier)
        ensures
            part == self.verifier,
    {
        self.verifier
    }

    /// The codec's part.
    pub fn por(&self) -> (por: Por)
        ensures
            por == self.por,
    {
        self.por
    }
}

/// Where the configuration of a profile is read from.
#[derive(Debug)]
pub struct ConfigSources {
    /// The name of the profile.
    pub profile: String,
    /// The file of the profile, which is written with a new configuration
    /// if it does not exist.
    pub profile_file: String,
    /// The file that all profiles share; it is read first, if it exists.
    pub base: String,
    /// The profile's source: the profile's file without its extension. It
    /// is read after the base and need not exist.
    pub source: String,
    /// The prefix of the environment variables that are read last.
    pub env_prefix: String,
    /// What separates the parts of a key in the name of a variable.
    pub separator: String,
    /// What separates the items of a list in the value of a variable.
    pub list_separator: String,
}

/// Finds the configuration.
pub struct SettingsProvider;

impl SettingsProvider {
    /// The sources of the configuration for the profile that the
    /// environment names, `dev` where it names none.
    pub fn invoke(&mut self, env: Option<String>) -> (sources: ConfigSources)
        ensures
            sources.profile@ == match env {
                Some(name) => name@,
                None => "dev"@,
            },
            sources.source@ == CONFIG_DIR@ + "/"@ + sources.profile@,
            sources.profile_file@ == sources.source@ + ".yaml"@,
            sources.base@ == BASE_CONFIG@,
            sources.env_prefix@ == "KISS"@,
            sources.separator@ == "_"@,
            sources.list_separator@ == ":"@,
    {
        let profile = match env {
            Some(name) => name,
            None => "dev".to_string(),
        };
        let mut source = CONFIG_DIR.to_string();
        source.append("/");
        source.append(profile.as_str());
        let mut profile_file = source.clone();
        profile_file.append(".yaml");
        ConfigSources {
            profile,
            profile_file,
            base: BASE_CONFIG.to_string(),
            source,
            env_prefix: "KISS".to_string(),
            separator: "_".to_string(),
            list_separator: ":".to_string(),
        }
    }
}

} // verus!
