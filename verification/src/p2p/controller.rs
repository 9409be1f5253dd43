//! The application's side of the command channel: the command that each
//! call sends to the coordinator, and what the call makes of the value that
//! comes back.

use vstd::prelude::*;
use crate::p2p::swarm::{CommandToSwarm, Reply};
use crate::util::errors::ErrorKind;
use crate::util::types::{Peer, QueryGetResponse};

verus! {

/// What a call expected of the swarm and did not get.
pub open spec fn unexpected() -> ErrorKind {
    ErrorKind::SwarmGetRecordUnknownError
}

/// The application's handle on the swarm.
pub struct SwarmController;

impl SwarmController {
    /// The command that stores a record locally and in the swarm.
    pub fn put(&self, key: String, value: Vec<u8>) -> (command: CommandToSwarm)
        ensures
            command == (CommandToSwarm::PutLocal { key, value }),
    {
        CommandToSwarm::PutLocal { key, value }
    }

    /// The command that stores a record at the given peers.
    pub fn put_to(&self, key: String, value: Vec<u8>, peer_ids: Vec<Peer>) -> (command:
        CommandToSwarm)
        ensures
            command == (CommandToSwarm::PutRemote { key, value, remotes: peer_ids }),
    {
        CommandToSwarm::PutRemote { key, value, remotes: peer_ids }
    }

    /// The command that announces this peer as a provider of a key.
    pub fn start_providing(&self, key: String) -> (command: CommandToSwarm)
        ensures
            command == (CommandToSwarm::StartProviding { key }),
    {
        CommandToSwarm::StartProviding { key }
    }

    /// The command that looks a record up.
    pub fn get(&self, key: String) -> (command: CommandToSwarm)
        ensures
            command == (CommandToSwarm::Get { key }),
    {
        CommandToSwarm::Get { key }
    }

    /// The command that looks the providers of a key up.
    pub fn get_providers(&self, key: String) -> (command: CommandToSwarm)
        ensures
            command == (CommandToSwarm::GetProviders { key }),
    {
        CommandToSwarm::GetProviders { key }
    }

    /// The command that looks up the peers closest to a file identifier.
    pub fn get_closest_peers(&self, uuid: u128) -> (command: CommandToSwarm)
        ensures
            command == (CommandToSwarm::GetClosestPeers { uuid }),
    {
        CommandToSwarm::GetClosestPeers { uuid }
    }

    /// The command that sends a challenge to a custodian.
    pub fn request_verification(&self, peer: Peer, file_uuid: String, challenge_vector: Vec<u64>)
        -> (command: CommandToSwarm)
        ensures
            command == (CommandToSwarm::RequestVerification { peer, file_uuid, challenge_vector }),
    {
        CommandToSwarm::RequestVerification { peer, file_uuid, challenge_vector }
    }
}

impl Reply {
    /// What a call that waits for a bare acknowledgement makes of a reply:
    /// a failure is handed on, a value of another kind is refused.
    pub fn into_done(self) -> (r: Result<(), ErrorKind>)
        ensures
            r == match self {
                Reply::Done => Ok::<(), ErrorKind>(()),
                Reply::Failed(e) => Err::<(), ErrorKind>(e),
                _ => Err::<(), ErrorKind>(unexpected()),
            },
    {
        match self {
            Reply::Done => Ok(()),
            Reply::Failed(e) => Err(e),
            _ => Err(ErrorKind::SwarmGetRecordUnknownError),
        }
    }

    /// What a call that waits for a record makes of a reply.
    pub fn into_record(self) -> (r: Result<QueryGetResponse, ErrorKind>)
        ensures
            r == match self {
                Reply::Record(found) => Ok::<QueryGetResponse, ErrorKind>(found),
                Reply::Failed(e) => Err::<QueryGetResponse, ErrorKind>(e),
                _ => Err::<QueryGetResponse, ErrorKind>(unexpected()),
            },
    {
        match self {
            Reply::Record(found) => Ok(found),
            Reply::Failed(e) => Err(e),
            _ => Err(ErrorKind::SwarmGetRecordUnknownError),
        }
    }

    /// What a call that waits for the providers of a key makes of a reply.
    pub fn into_providers(self) -> (r: Result<Vec<Peer>, ErrorKind>)
        ensures
            r == match self {
                Reply::Providers(providers) => Ok::<Vec<Peer>, ErrorKind>(providers),
                Reply::Failed(e) => Err::<Vec<Peer>, ErrorKind>(e),
                _ => Err::<Vec<Peer>, ErrorKind>(unexpected()),
            },
    {
        match self {
            Reply::Providers(providers) => Ok(providers),
            Reply::Failed(e) => Err(e),
            _ => Err(ErrorKind::SwarmGetRecordUnknownError),
        }
    }

    /// What a call that waits for the closest peers makes of a reply.
    pub fn into_closest_peers(self) -> (r: Result<Vec<Peer>, ErrorKind>)
        ensures
            r == match self {
                Reply::ClosestPeers(peers) => Ok::<Vec<Peer>, ErrorKind>(peers),
                Reply::Failed(e) => Err::<Vec<Peer>, ErrorKind>(e),
                _ => Err::<Vec<Peer>, ErrorKind>(unexpected()),
            },
    {
        match self {
            Reply::ClosestPeers(peers) => Ok(peers),
            Reply::Failed(e) => Err(e),
            _ => Err(ErrorKind::SwarmGetRecordUnknownError),
        }
    }

    /// What a call that waits for a custodian's response makes of a reply:
    /// the response vector.
    pub fn into_response_vector(self) -> (r: Result<Vec<u64>, ErrorKind>)
        ensures
            r == match self {
                Reply::Verification(response) => Ok::<Vec<u64>, ErrorKind>(
                    response.response_vector,
                ),
                Reply::Failed(e) => Err::<Vec<u64>, ErrorKind>(e),
                _ => Err::<Vec<u64>, ErrorKind>(unexpected()),
            },
    {
        match self {
            Reply::Verification(response) => Ok(response.response_vector),
            Reply::Failed(e) => Err(e),
            _ => Err(ErrorKind::SwarmGetRecordUnknownError),
        }
    }
}

} // verus!
