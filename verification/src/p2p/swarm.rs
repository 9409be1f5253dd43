//! The swarm coordinator: the single owner of the swarm. It turns commands
//! into queries of the distributed hash table, keeps track of who waits for
//! which query, and answers verification requests of other peers.

use vstd::prelude::*;
use std::collections::HashMap;
use vstd::utf8::encode_utf8;
use vstd::string::*;
use crate::bench::Bench;
use crate::p2p::peer_id::{
    configured, configured_keypair, generate_with_leading_zeros, key_has_leading_zeros,
    keypair_peer_text, Keypair,
};
use crate::p2p::store::LocalStoreConfig;
use crate::util::consts::{
    DEFAULT_LEADING_ZEROS, MAX_MESSAGE_SIZE, QUERY_TIMEOUT, VERIFICATION_PROTOCOL,
};
use crate::util::text::{decimal, decimal_u16};
use crate::por::codec::{ServerFile, VerificationServer, VerificationServerConfig};
use crate::por::layout::rows_of;
use crate::util::errors::ErrorKind;
use crate::util::text::bytes_of_text;
use crate::util::types::{
    Peer, QueryGetResponse, Record, VerificationRequest, VerificationResponse,
};

verus! {

/// What a waiting caller has asked for.
#[derive(Debug, Clone, Copy, PartialEq, Eq, Structural)]
pub enum QueryKind {
    Put,
    PutTo,
    Get,
    GetProviders,
    StartProviding,
    GetClosestPeers,
    VerificationRequest,
}

/// A command of the application to the swarm.
#[derive(Debug)]
pub enum CommandToSwarm {
    Get { key: String },
    PutLocal { key: String, value: Vec<u8> },
    PutRemote { key: String, value: Vec<u8>, remotes: Vec<Peer> },
    StartProviding { key: String },
    GetProviders { key: String },
    /// The number of a file's UUID.
    GetClosestPeers { uuid: u128 },
    RequestVerification { peer: Peer, file_uuid: String, challenge_vector: Vec<u64> },
}

impl CommandToSwarm {
    /// The words that name a command in the log: its kind, and in brackets
    /// its key or, for a verification request, its peer. The key of a
    /// query for the closest peers, being a number, is left out.
    pub open spec fn description(&self) -> Seq<char> {
        match self {
            CommandToSwarm::Get { key } => "Get("@ + key@ + ")"@,
            CommandToSwarm::PutLocal { key, .. } => "PutLocal("@ + key@ + ")"@,
            CommandToSwarm::PutRemote { key, .. } => "PutRemote("@ + key@ + ")"@,
            CommandToSwarm::StartProviding { key } => "StartProviding("@ + key@ + ")"@,
            CommandToSwarm::GetProviders { key } => "GetProviders("@ + key@ + ")"@,
            CommandToSwarm::GetClosestPeers { .. } => "GetClosestPeers"@,
            CommandToSwarm::RequestVerification { peer, .. } => "RequestVerification("@ + peer@
                + ")"@,
        }
    }

    /// The words that name a command in the log.
    pub fn describe(&self) -> (text: String)
        ensures
            text@ == self.description(),
    {
        match self {
            CommandToSwarm::Get { key } => bracketed("Get(", key.as_str()),
            CommandToSwarm::PutLocal { key, .. } => bracketed("PutLocal(", key.as_str()),
            CommandToSwarm::PutRemote { key, .. } => bracketed("PutRemote(", key.as_str()),
            CommandToSwarm::StartProviding { key } => bracketed("StartProviding(", key.as_str()),
            CommandToSwarm::GetProviders { key } => bracketed("GetProviders(", key.as_str()),
            CommandToSwarm::GetClosestPeers { .. } => "GetClosestPeers".to_string(),
            CommandToSwarm::RequestVerification { peer, .. } => bracketed(
                "RequestVerification(",
                peer.to_base58().as_str(),
            ),
        }
    }
}

/// A name, an argument and a closing bracket.
fn bracketed(name: &str, argument: &str) -> (text: String)
    ensures
        text@ == name@ + argument@ + ")"@,
{
    let mut text = name.to_string();
    text.append(argument);
    text.append(")");
    text
}

/// What the coordinator asks of the swarm. Records are written with a
/// quorum of one.
#[derive(Debug)]
pub enum Primitive {
    PutRecord { record: Record },
    PutRecordTo { record: Record, peers: Vec<Peer> },
    GetRecord { key: Vec<u8> },
    GetProviders { key: Vec<u8> },
    GetClosestPeers { key: Vec<u8> },
    StartProviding { key: Vec<u8> },
    SendRequest { peer: Peer, request: VerificationRequest },
}

/// A primitive together with the kind under which its caller waits.
#[derive(Debug)]
pub struct Dispatch {
    pub primitive: Primitive,
    pub kind: QueryKind,
}

/// How a record query ended.
#[derive(Debug)]
pub enum GetRecordOutcome {
    /// A record was found, at the given peer or, without one, locally.
    Found { value: Vec<u8>, peer: Option<Peer> },
    /// The query ended well without a record.
    Finished,
    Failed,
}

/// How a provider query ended.
#[derive(Debug)]
pub enum GetProvidersOutcome {
    Found { providers: Vec<Peer> },
    Finished,
    Failed,
}

/// The result that a query of the distributed hash table ended with.
#[derive(Debug)]
pub enum QueryResult {
    GetRecord(GetRecordOutcome),
    /// Whether the record was stored.
    PutRecord(bool),
    GetProviders(GetProvidersOutcome),
    /// The closest peers, nearest first, or nothing where the query failed.
    GetClosestPeers(Option<Vec<Peer>>),
    /// Whether this peer was announced as a provider.
    StartProviding(bool),
    /// A result of a kind that the coordinator does not handle.
    Unhandled,
}

/// An event of the swarm.
#[derive(Debug)]
pub enum SwarmEvent {
    NewListenAddr,
    /// Peers found on the local network, each with its address.
    MdnsDiscovered { peers: Vec<(Peer, String)> },
    QueryProgressed { id: u64, result: QueryResult },
    RoutingUpdated,
    InboundRequest,
    UnhandledKademlia,
    /// Another peer sent a challenge.
    VerificationRequested { request: VerificationRequest },
    /// A custodian answered a challenge of this peer.
    VerificationResponded { request_id: u64, response: VerificationResponse },
    ResponseSent { request_id: u64 },
    InboundFailure { request_id: u64 },
    OutboundFailure { request_id: u64 },
    Other,
}

/// The value that a waiting caller receives.
#[derive(Debug)]
pub enum Reply {
    Done,
    Record(QueryGetResponse),
    Providers(Vec<Peer>),
    ClosestPeers(Vec<Peer>),
    Verification(VerificationResponse),
    Failed(ErrorKind),
}

/// What the coordinator does about an event.
#[derive(Debug)]
pub enum Reaction {
    /// Nothing, but for a line in the log.
    Nothing,
    /// The discovered peers are added to the routing table.
    AddAddresses { peers: Vec<(Peer, String)> },
    /// The caller that waits for the query gets its value.
    Reply { id: u64, kind: QueryKind, reply: Reply },
    /// The challenge is answered from the record store.
    Serve { request: VerificationRequest },
}

/// Whether a query result ends the query it belongs to.
pub open spec fn is_terminal(result: QueryResult) -> bool {
    !(result is Unhandled)
}

/// The value, or the error, that the end of a query of kind `kind` brings.
/// An error leaves the caller without a value: its channel is dropped.
pub open spec fn outcome(id: u64, kind: QueryKind, result: QueryResult, local: Peer) -> Result<
    Reply,
    ErrorKind,
> {
    match result {
        QueryResult::GetRecord(found) => if kind != QueryKind::Get {
            Err(ErrorKind::InvalidResponseChannel(id))
        } else {
            match found {
                GetRecordOutcome::Found { value, peer } => Ok(
                    Reply::Record(
                        QueryGetResponse {
                            file: value,
                            origin_peer_id: match peer {
                                Some(p) => p,
                                None => local,
                            },
                        },
                    ),
                ),
                GetRecordOutcome::Finished => Ok(
                    Reply::Failed(ErrorKind::SwarmGetRecordUnknownError),
                ),
                GetRecordOutcome::Failed => Ok(Reply::Failed(ErrorKind::SwarmGetRecordError)),
            }
        },
        QueryResult::PutRecord(stored) => if kind != QueryKind::Put && kind != QueryKind::PutTo {
            Err(ErrorKind::InvalidResponseChannel(id))
        } else if stored {
            Ok(Reply::Done)
        } else {
            Ok(Reply::Failed(ErrorKind::SwarmPutRecordError))
        },
        QueryResult::GetProviders(found) => if kind != QueryKind::GetProviders {
            Err(ErrorKind::InvalidResponseChannel(id))
        } else {
            match found {
                GetProvidersOutcome::Found { providers } => Ok(Reply::Providers(providers)),
                GetProvidersOutcome::Finished => Ok(Reply::Failed(ErrorKind::NoProvidersFound)),
                GetProvidersOutcome::Failed => Err(ErrorKind::SwarmGetProvidersError),
            }
        },
        QueryResult::GetClosestPeers(found) => if kind != QueryKind::GetClosestPeers {
            Err(ErrorKind::InvalidResponseChannel(id))
        } else {
            match found {
                Some(peers) => Ok(Reply::ClosestPeers(peers)),
                None => Err(ErrorKind::SwarmGetClosestPeersError),
            }
        },
        QueryResult::StartProviding(announced) => if kind != QueryKind::StartProviding {
            Err(ErrorKind::InvalidResponseChannel(id))
        } else if announced {
            Ok(Reply::Done)
        } else {
            Err(ErrorKind::SwarmStartProvidingError)
        },
        QueryResult::Unhandled => Err(ErrorKind::InvalidResponseChannel(id)),
    }
}

/// The value that the end of a request of kind `kind` brings.
pub open spec fn request_outcome(id: u64, kind: QueryKind, reply: Reply) -> Result<Reply, ErrorKind> {
    if kind != QueryKind::VerificationRequest {
        Err(ErrorKind::InvalidResponseChannelForRequest(id))
    } else {
        Ok(reply)
    }
}

/// What becomes of an entry's outcome: the caller of a known query gets its
/// value or loses its channel; an event for an unknown query is dropped.
pub open spec fn delivered(id: u64, entry: Option<QueryKind>, value: Result<Reply, ErrorKind>)
    -> Result<Reaction, ErrorKind> {
    match entry {
        None => Ok(Reaction::Nothing),
        Some(kind) => match value {
            Ok(reply) => Ok(Reaction::Reply { id, kind, reply }),
            Err(e) => Err(e),
        },
    }
}

/// The entry of a table for an identifier, if it has one.
pub open spec fn entry_of(table: Map<u64, QueryKind>, id: u64) -> Option<QueryKind> {
    if table.contains_key(id) {
        Some(table[id])
    } else {
        None
    }
}

/// The query table after an event.
pub open spec fn queries_after(queries: Map<u64, QueryKind>, event: SwarmEvent) -> Map<
    u64,
    QueryKind,
> {
    match event {
        SwarmEvent::QueryProgressed { id, result } => if is_terminal(result) {
            queries.remove(id)
        } else {
            queries
        },
        _ => queries,
    }
}

/// The request table after an event.
pub open spec fn requests_after(requests: Map<u64, QueryKind>, event: SwarmEvent) -> Map<
    u64,
    QueryKind,
> {
    match event {
        SwarmEvent::VerificationResponded { request_id, .. } => requests.remove(request_id),
        SwarmEvent::InboundFailure { request_id } => requests.remove(request_id),
        SwarmEvent::OutboundFailure { request_id } => requests.remove(request_id),
        _ => requests,
    }
}

/// What the coordinator does about an event, given its two tables and its
/// own identity.
pub open spec fn reaction(
    queries: Map<u64, QueryKind>,
    requests: Map<u64, QueryKind>,
    local: Peer,
    event: SwarmEvent,
) -> Result<Reaction, ErrorKind> {
    match event {
        SwarmEvent::MdnsDiscovered { peers } => Ok(Reaction::AddAddresses { peers }),
        SwarmEvent::QueryProgressed { id, result } => if is_terminal(result) {
            delivered(
                id,
                entry_of(queries, id),
                match entry_of(queries, id) {
                    Some(kind) => outcome(id, kind, result, local),
                    None => Ok(Reply::Done),
                },
            )
        } else {
            Ok(Reaction::Nothing)
        },
        SwarmEvent::VerificationRequested { request } => Ok(Reaction::Serve { request }),
        SwarmEvent::VerificationResponded { request_id, response } => delivered(
            request_id,
            entry_of(requests, request_id),
            match entry_of(requests, request_id) {
                Some(kind) => request_outcome(request_id, kind, Reply::Verification(response)),
                None => Ok(Reply::Done),
            },
        ),
        SwarmEvent::InboundFailure { request_id } => delivered(
            request_id,
            entry_of(requests, request_id),
            match entry_of(requests, request_id) {
                Some(kind) => request_outcome(
                    request_id,
                    kind,
                    Reply::Failed(ErrorKind::RequestInboundFailure),
                ),
                None => Ok(Reply::Done),
            },
        ),
        SwarmEvent::OutboundFailure { request_id } => delivered(
            request_id,
            entry_of(requests, request_id),
            match entry_of(requests, request_id) {
                Some(kind) => request_outcome(
                    request_id,
                    kind,
                    Reply::Failed(ErrorKind::RequestOutboundFailure),
                ),
                None => Ok(Reply::Done),
            },
        ),
        _ => Ok(Reaction::Nothing),
    }
}

/// The sixteen bytes of a UUID's number, the highest first.
pub open spec fn uuid_bytes(n: u128) -> Seq<u8> {
    Seq::new(16, |k: int| ((n >> ((8 * (15 - k)) as u128)) & 0xff) as u8)
}

/// The record that a put command writes: the key's bytes, the value, no
/// publisher and no expiry.
pub open spec fn is_fresh_record(record: Record, key: Seq<char>, value: Vec<u8>) -> bool {
    &&& record.key@ == encode_utf8(key)
    &&& record.value == value
    &&& record.publisher is None
    &&& record.expires is None
}

/// Whether a primitive and a kind are what a command asks for.
pub open spec fn dispatches(command: CommandToSwarm, primitive: Primitive, kind: QueryKind) -> bool {
    match command {
        CommandToSwarm::PutLocal { key, value } => {
            &&& kind == QueryKind::Put
            &&& primitive matches Primitive::PutRecord { record } && is_fresh_record(
                record,
                key@,
                value,
            )
        },
        CommandToSwarm::PutRemote { key, value, remotes } => {
            &&& kind == QueryKind::PutTo
            &&& primitive matches Primitive::PutRecordTo { record, peers } && is_fresh_record(
                record,
                key@,
                value,
            ) && peers == remotes
        },
        CommandToSwarm::Get { key } => {
            &&& kind == QueryKind::Get
            &&& primitive matches Primitive::GetRecord { key: k } && k@ == encode_utf8(key@)
        },
        CommandToSwarm::GetProviders { key } => {
            &&& kind == QueryKind::GetProviders
            &&& primitive matches Primitive::GetProviders { key: k } && k@ == encode_utf8(key@)
        },
        CommandToSwarm::GetClosestPeers { uuid } => {
            &&& kind == QueryKind::GetClosestPeers
            &&& primitive matches Primitive::GetClosestPeers { key: k } && k@ == uuid_bytes(uuid)
        },
        CommandToSwarm::StartProviding { key } => {
            &&& kind == QueryKind::StartProviding
            &&& primitive matches Primitive::StartProviding { key: k } && k@ == encode_utf8(key@)
        },
        CommandToSwarm::RequestVerification { peer, file_uuid, challenge_vector } => {
            &&& kind == QueryKind::VerificationRequest
            &&& primitive matches Primitive::SendRequest { peer: p, request } && p == peer
                && request.file_name == file_uuid && request.challenge_vector == challenge_vector
        },
    }
}

/// The sixteen bytes of a UUID's number, the highest first.
pub fn uuid_to_bytes(n: u128) -> (bytes: Vec<u8>)
    ensures
        bytes@ == uuid_bytes(n),
{
    let mut bytes: Vec<u8> = Vec::new();
    let mut k: u32 = 0;
    while k < 16
        invariant
            k <= 16,
            bytes@.len() == k,
            forall|t: int| 0 <= t < k ==> bytes@[t] == uuid_bytes(n)[t],
        decreases 16 - k,
    {
        let shift: u128 = (8 * (15 - k)) as u128;
        let byte: u128 = (n >> shift) & 0xff;
        assert(byte <= 0xff) by (bit_vector)
            requires
                byte == (n >> shift) & 0xff,
        ;
        bytes.push(byte as u8);
        k = k + 1;
    }
    assert(bytes@ =~= uuid_bytes(n));
    bytes
}

/// The coordinator's state: its own identity and the two tables of waiting
/// callers, one for queries of the distributed hash table and one for
/// verification requests.
pub struct Swarm {
    local_peer_id: Peer,
    queries: HashMap<u64, QueryKind>,
    requests: HashMap<u64, QueryKind>,
}

impl Swarm {
    /// The identity of this peer.
    pub closed spec fn local(&self) -> Peer {
        self.local_peer_id
    }

    /// The callers that wait for a query, by the query's identifier.
    pub closed spec fn queries(&self) -> Map<u64, QueryKind> {
        self.queries@
    }

    /// The callers that wait for the answer to a verification request, by
    /// the request's identifier.
    pub closed spec fn requests(&self) -> Map<u64, QueryKind> {
        self.requests@
    }

    /// A coordinator for which nobody waits yet.
    pub fn new(local_peer_id: Peer) -> (swarm: Swarm)
        ensures
            swarm.local() == local_peer_id,
            swarm.queries() == Map::<u64, QueryKind>::empty(),
            swarm.requests() == Map::<u64, QueryKind>::empty(),
    {
        Swarm { local_peer_id, queries: HashMap::new(), requests: HashMap::new() }
    }

    /// The number of callers that wait, or the largest number if they are
    /// more than that.
    pub fn pending(&self) -> (n: usize)
        ensures
            n == if self.queries().len() + self.requests().len() > usize::MAX {
                usize::MAX as nat
            } else {
                self.queries().len() + self.requests().len()
            },
    {
        self.queries.len().saturating_add(self.requests.len())
    }

    /// Whether a caller waits for the query with the given identifier.
    pub fn awaits_query(&self, id: u64) -> (waiting: bool)
        ensures
            waiting == self.queries().contains_key(id),
    {
        self.queries.contains_key(&id)
    }

    /// Whether a caller waits for the request with the given identifier.
    pub fn awaits_request(&self, id: u64) -> (waiting: bool)
        ensures
            waiting == self.requests().contains_key(id),
    {
        self.requests.contains_key(&id)
    }

    /// Turns a command into the primitive that the swarm is asked for, and
    /// the kind under which the caller will wait. A closed command channel,
    /// which hands over no command, gives `MissingInstruction`.
    pub fn handle_controller_event(&self, instruction: Option<CommandToSwarm>) -> (r: Result<
        Dispatch,
        ErrorKind,
    >)
        ensures
            match instruction {
                None => r matches Err(e) && e is MissingInstruction,
                Some(command) => r matches Ok(d) && dispatches(command, d.primitive, d.kind),
            },
    {
        let instruction = match instruction {
            Some(command) => command,
            None => return Err(ErrorKind::MissingInstruction),
        };
        match instruction {
            CommandToSwarm::PutLocal { key, value } => {
                let record = Record {
                    key: bytes_of_text(key.as_str()),
                    value,
                    publisher: None,
                    expires: None,
                };
                Ok(Dispatch { primitive: Primitive::PutRecord { record }, kind: QueryKind::Put })
            },
            CommandToSwarm::PutRemote { key, value, remotes } => {
                let record = Record {
                    key: bytes_of_text(key.as_str()),
                    value,
                    publisher: None,
                    expires: None,
                };
                Ok(
                    Dispatch {
                        primitive: Primitive::PutRecordTo { record, peers: remotes },
                        kind: QueryKind::PutTo,
                    },
                )
            },
            CommandToSwarm::Get { key } => Ok(
                Dispatch {
                    primitive: Primitive::GetRecord { key: bytes_of_text(key.as_str()) },
                    kind: QueryKind::Get,
                },
            ),
            CommandToSwarm::GetProviders { key } => Ok(
                Dispatch {
                    primitive: Primitive::GetProviders { key: bytes_of_text(key.as_str()) },
                    kind: QueryKind::GetProviders,
                },
            ),
            CommandToSwarm::GetClosestPeers { uuid } => Ok(
                Dispatch {
                    primitive: Primitive::GetClosestPeers { key: uuid_to_bytes(uuid) },
                    kind: QueryKind::GetClosestPeers,
                },
            ),
            CommandToSwarm::StartProviding { key } => Ok(
                Dispatch {
                    primitive: Primitive::StartProviding { key: bytes_of_text(key.as_str()) },
                    kind: QueryKind::StartProviding,
                },
            ),
            CommandToSwarm::RequestVerification { peer, file_uuid, challenge_vector } => Ok(
                Dispatch {
                    primitive: Primitive::SendRequest {
                        peer,
                        request: VerificationRequest { file_name: file_uuid, challenge_vector },
                    },
                    kind: QueryKind::VerificationRequest,
                },
            ),
        }
    }

    /// Notes that a caller waits under `kind` for the query or request that
    /// the swarm has given the identifier `id`.
    pub fn register(&mut self, kind: QueryKind, id: u64)
        ensures
            final(self).local() == old(self).local(),
            kind == QueryKind::VerificationRequest ==> final(self).requests() == old(
                self,
            ).requests().insert(id, kind) && final(self).queries() == old(self).queries(),
            kind != QueryKind::VerificationRequest ==> final(self).queries() == old(
                self,
            ).queries().insert(id, kind) && final(self).requests() == old(self).requests(),
    {
        match kind {
            QueryKind::VerificationRequest => {
                self.requests.insert(id, kind);
            },
            _ => {
                self.queries.insert(id, kind);
            },
        }
    }

    /// Handles an event of the swarm. The end of a query or of a request
    /// takes its entry out of the table and hands the caller its value; an
    /// error means that the caller's channel is dropped without a value. An
    /// event for an identifier that nobody waits for is dropped.
    pub fn handle_swarm_event(&mut self, event: SwarmEvent) -> (r: Result<Reaction, ErrorKind>)
        ensures
            r == reaction(old(self).queries(), old(self).requests(), old(self).local(), event),
            final(self).queries() == queries_after(old(self).queries(), event),
            final(self).requests() == requests_after(old(self).requests(), event),
            final(self).local() == old(self).local(),
    {
        match event {
            SwarmEvent::MdnsDiscovered { peers } => Ok(Reaction::AddAddresses { peers }),
            SwarmEvent::QueryProgressed { id, result } => match result {
                QueryResult::GetRecord(found) => self.handle_get_record(found, id),
                QueryResult::PutRecord(stored) => self.handle_put_record(stored, id),
                QueryResult::GetProviders(found) => self.handle_get_providers(found, id),
                QueryResult::GetClosestPeers(found) => self.handle_get_closest_peers(found, id),
                QueryResult::StartProviding(announced) => self.handle_start_providing(
                    announced,
                    id,
                ),
                QueryResult::Unhandled => Ok(Reaction::Nothing),
            },
            SwarmEvent::VerificationRequested { request } => Ok(Reaction::Serve { request }),
            SwarmEvent::VerificationResponded { request_id, response } => {
                self.handle_reqres_message_response(response, request_id)
            },
            SwarmEvent::InboundFailure { request_id } => self.handle_inbound_failure(request_id),
            SwarmEvent::OutboundFailure { request_id } => self.handle_outbound_failure(
                request_id,
            ),
            _ => Ok(Reaction::Nothing),
        }
    }

    /// Takes the entry of a query out of the table.
    fn take_query(&mut self, id: u64) -> (entry: Option<QueryKind>)
        ensures
            entry == entry_of(old(self).queries(), id),
            final(self).queries() == old(self).queries().remove(id),
            final(self).requests() == old(self).requests(),
            final(self).local() == old(self).local(),
    {
        self.queries.remove(&id)
    }

    /// Takes the entry of a request out of the table.
    fn take_request(&mut self, id: u64) -> (entry: Option<QueryKind>)
        ensures
            entry == entry_of(old(self).requests(), id),
            final(self).requests() == old(self).requests().remove(id),
            final(self).queries() == old(self).queries(),
            final(self).local() == old(self).local(),
    {
        self.requests.remove(&id)
    }

    /// The end of a record query.
    fn handle_get_record(&mut self, found: GetRecordOutcome, id: u64) -> (r: Result<
        Reaction,
        ErrorKind,
    >)
        ensures
            r == reaction(
                old(self).queries(),
                old(self).requests(),
                old(self).local(),
                SwarmEvent::QueryProgressed { id, result: QueryResult::GetRecord(found) },
            ),
            final(self).queries() == old(self).queries().remove(id),
            final(self).requests() == old(self).requests(),
            final(self).local() == old(self).local(),
    {
        let kind = match self.take_query(id) {
            Some(kind) => kind,
            None => return Ok(Reaction::Nothing),
        };
        match kind {
            QueryKind::Get => {},
            _ => return Err(ErrorKind::InvalidResponseChannel(id)),
        }
        let reply = match found {
            GetRecordOutcome::Found { value, peer } => {
                let peer = match peer {
                    Some(peer) => peer,
                    None => self.local_peer_id.clone(),
                };
                Reply::Record(QueryGetResponse { file: value, origin_peer_id: peer })
            },
            GetRecordOutcome::Finished => Reply::Failed(ErrorKind::SwarmGetRecordUnknownError),
            GetRecordOutcome::Failed => Reply::Failed(ErrorKind::SwarmGetRecordError),
        };
        Ok(Reaction::Reply { id, kind, reply })
    }

    /// The end of a put query, local or remote.
    fn handle_put_record(&mut self, stored: bool, id: u64) -> (r: Result<Reaction, ErrorKind>)
        ensures
            r == reaction(
                old(self).queries(),
                old(self).requests(),
                old(self).local(),
                SwarmEvent::QueryProgressed { id, result: QueryResult::PutRecord(stored) },
            ),
            final(self).queries() == old(self).queries().remove(id),
            final(self).requests() == old(self).requests(),
            final(self).local() == old(self).local(),
    {
        let kind = match self.take_query(id) {
            Some(kind) => kind,
            None => return Ok(Reaction::Nothing),
        };
        match kind {
            QueryKind::Put => {},
            QueryKind::PutTo => {},
            _ => return Err(ErrorKind::InvalidResponseChannel(id)),
        }
        if stored {
            Ok(Reaction::Reply { id, kind, reply: Reply::Done })
        } else {
            Ok(Reaction::Reply { id, kind, reply: Reply::Failed(ErrorKind::SwarmPutRecordError) })
        }
    }

    /// The end of a provider query.
    fn handle_get_providers(&mut self, found: GetProvidersOutcome, id: u64) -> (r: Result<
        Reaction,
        ErrorKind,
    >)
        ensures
            r == reaction(
                old(self).queries(),
                old(self).requests(),
                old(self).local(),
                SwarmEvent::QueryProgressed { id, result: QueryResult::GetProviders(found) },
            ),
            final(self).queries() == old(self).queries().remove(id),
            final(self).requests() == old(self).requests(),
            final(self).local() == old(self).local(),
    {
        let kind = match self.take_query(id) {
            Some(kind) => kind,
            None => return Ok(Reaction::Nothing),
        };
        match kind {
            QueryKind::GetProviders => {},
            _ => return Err(ErrorKind::InvalidResponseChannel(id)),
        }
        match found {
            GetProvidersOutcome::Found { providers } => Ok(
                Reaction::Reply { id, kind, reply: Reply::Providers(providers) },
            ),
            GetProvidersOutcome::Finished => Ok(
                Reaction::Reply { id, kind, reply: Reply::Failed(ErrorKind::NoProvidersFound) },
            ),
            GetProvidersOutcome::Failed => Err(ErrorKind::SwarmGetProvidersError),
        }
    }

    /// The end of a query for the closest peers.
    fn handle_get_closest_peers(&mut self, found: Option<Vec<Peer>>, id: u64) -> (r: Result<
        Reaction,
        ErrorKind,
    >)
        ensures
            r == reaction(
                old(self).queries(),
                old(self).requests(),
                old(self).local(),
                SwarmEvent::QueryProgressed { id, result: QueryResult::GetClosestPeers(found) },
            ),
            final(self).queries() == old(self).queries().remove(id),
            final(self).requests() == old(self).requests(),
            final(self).local() == old(self).local(),
    {
        let kind = match self.take_query(id) {
            Some(kind) => kind,
            None => return Ok(Reaction::Nothing),
        };
        match kind {
            QueryKind::GetClosestPeers => {},
            _ => return Err(ErrorKind::InvalidResponseChannel(id)),
        }
        match found {
            Some(peers) => Ok(Reaction::Reply { id, kind, reply: Reply::ClosestPeers(peers) }),
            None => Err(ErrorKind::SwarmGetClosestPeersError),
        }
    }

    /// The end of an announcement as provider.
    fn handle_start_providing(&mut self, announced: bool, id: u64) -> (r: Result<
        Reaction,
        ErrorKind,
    >)
        ensures
            r == reaction(
                old(self).queries(),
                old(self).requests(),
                old(self).local(),
                SwarmEvent::QueryProgressed { id, result: QueryResult::StartProviding(announced) },
            ),
            final(self).queries() == old(self).queries().remove(id),
            final(self).requests() == old(self).requests(),
            final(self).local() == old(self).local(),
    {
        let kind = match self.take_query(id) {
            Some(kind) => kind,
            None => return Ok(Reaction::Nothing),
        };
        match kind {
            QueryKind::StartProviding => {},
            _ => return Err(ErrorKind::InvalidResponseChannel(id)),
        }
        if announced {
            Ok(Reaction::Reply { id, kind, reply: Reply::Done })
        } else {
            Err(ErrorKind::SwarmStartProvidingError)
        }
    }

    /// The end of a request, with the value that the caller is to get.
    fn finish_request(&mut self, request_id: u64, reply: Reply) -> (r: Result<
        Reaction,
        ErrorKind,
    >)
        ensures
            r == delivered(
                request_id,
                entry_of(old(self).requests(), request_id),
                match entry_of(old(self).requests(), request_id) {
                    Some(kind) => request_outcome(request_id, kind, reply),
                    None => Ok(Reply::Done),
                },
            ),
            final(self).requests() == old(self).requests().remove(request_id),
            final(self).queries() == old(self).queries(),
            final(self).local() == old(self).local(),
    {
        let kind = match self.take_request(request_id) {
            Some(kind) => kind,
            None => return Ok(Reaction::Nothing),
        };
        match kind {
            QueryKind::VerificationRequest => {},
            _ => return Err(ErrorKind::InvalidResponseChannelForRequest(request_id)),
        }
        Ok(Reaction::Reply { id: request_id, kind, reply })
    }

    /// A custodian's answer to a challenge of this peer.
    fn handle_reqres_message_response(&mut self, response: VerificationResponse, request_id: u64)
        -> (r: Result<Reaction, ErrorKind>)
        ensures
            r == reaction(
                old(self).queries(),
                old(self).requests(),
                old(self).local(),
                SwarmEvent::VerificationResponded { request_id, response },
            ),
            final(self).requests() == old(self).requests().remove(request_id),
            final(self).queries() == old(self).queries(),
            final(self).local() == old(self).local(),
    {
        self.finish_request(request_id, Reply::Verification(response))
    }

    /// The failure of a request on the way in.
    fn handle_inbound_failure(&mut self, request_id: u64) -> (r: Result<Reaction, ErrorKind>)
        ensures
            r == reaction(
                old(self).queries(),
                old(self).requests(),
                old(self).local(),
                SwarmEvent::InboundFailure { request_id },
            ),
            final(self).requests() == old(self).requests().remove(request_id),
            final(self).queries() == old(self).queries(),
            final(self).local() == old(self).local(),
    {
        self.finish_request(request_id, Reply::Failed(ErrorKind::RequestInboundFailure))
    }

    /// The failure of a request on the way out.
    fn handle_outbound_failure(&mut self, request_id: u64) -> (r: Result<Reaction, ErrorKind>)
        ensures
            r == reaction(
                old(self).queries(),
                old(self).requests(),
                old(self).local(),
                SwarmEvent::OutboundFailure { request_id },
            ),
            final(self).requests() == old(self).requests().remove(request_id),
            final(self).queries() == old(self).queries(),
            final(self).local() == old(self).local(),
    {
        self.finish_request(request_id, Reply::Failed(ErrorKind::RequestOutboundFailure))
    }

    /// Answers the challenge of another peer. With the file at hand the
    /// answer is the response of the codec. Without it the answer is the
    /// empty vector, which fails every audit; if the file is in the table of
    /// deleted files it is taken out, and the time of its deletion is given
    /// with the answer.
    pub fn handle_reqres_message_request(
        &self,
        bench: &mut Bench,
        file: Option<Vec<u8>>,
        request: VerificationRequest,
    ) -> (r: (VerificationResponse, Option<u64>))
        requires
            old(bench).wf(),
            file matches Some(bytes) ==> request.challenge_vector@.len() >= rows_of(
                bytes@.len(),
            ),
        ensures
            final(bench).wf(),
            r.0.file_name == request.file_name,
            match file {
                Some(bytes) => r.0.response_vector@ == ServerFile::of_file(bytes@).respond(
                    request.challenge_vector@,
                ) && r.1 is None && *final(bench) == *old(bench),
                None => r.0.response_vector@ == Seq::<u64>::empty() && !final(bench).holds(
                    request.file_name@,
                ) && match r.1 {
                    Some(at) => old(bench).holds(request.file_name@) && at == old(
                        bench,
                    ).deleted_at(request.file_name@),
                    None => !old(bench).holds(request.file_name@),
                } && (forall|other: Seq<char>|
                    other != request.file_name@ ==> final(bench).holds(other) == old(
                        bench,
                    ).holds(other)) && (forall|other: Seq<char>|
                    other != request.file_name@ && old(bench).holds(other)
                        ==> final(bench).deleted_at(other) == old(bench).deleted_at(other)),
            },
    {
        match file {
            Some(bytes) => {
                let server_config = VerificationServerConfig::from_file(bytes);
                let server = VerificationServer::new(server_config);
                let response = server.fulfill_challenge(request.challenge_vector);
                (
                    VerificationResponse { file_name: request.file_name, response_vector: response },
                    None,
                )
            },
            None => {
                let deleted_at = bench.remove(&request.file_name);
                (
                    VerificationResponse {
                        file_name: request.file_name,
                        response_vector: Vec::new(),
                    },
                    deleted_at,
                )
            },
        }
    }
}

/// Whoever waits for a query gets exactly one value or loses its channel,
/// and no entry is left behind: once the query has ended, its identifier is
/// no longer in the table, and a further event for it is dropped.
pub proof fn law_one_reply_per_query(
    queries: Map<u64, QueryKind>,
    requests: Map<u64, QueryKind>,
    local: Peer,
    id: u64,
    kind: QueryKind,
    result: QueryResult,
    later: QueryResult,
)
    requires
        is_terminal(result),
        is_terminal(later),
    ensures
        ({
            let waiting = queries.insert(id, kind);
            let end = SwarmEvent::QueryProgressed { id, result };
            let first = reaction(waiting, requests, local, end);
            let left = queries_after(waiting, end);
            let second = reaction(left, requests, local, SwarmEvent::QueryProgressed { id, result: later });
            &&& first is Err || (first matches Ok(Reaction::Reply { id: to, kind: as_kind, .. })
                && to == id && as_kind == kind)
            &&& !left.contains_key(id)
            &&& second == Ok::<Reaction, ErrorKind>(Reaction::Nothing)
        }),
{
}

/// Whoever waits for the answer to a verification request gets exactly one
/// value or loses its channel, and no entry is left behind.
pub proof fn law_one_reply_per_request(
    queries: Map<u64, QueryKind>,
    requests: Map<u64, QueryKind>,
    local: Peer,
    id: u64,
    response: VerificationResponse,
    later: VerificationResponse,
)
    ensures
        ({
            let waiting = requests.insert(id, QueryKind::VerificationRequest);
            let end = SwarmEvent::VerificationResponded { request_id: id, response };
            let first = reaction(queries, waiting, local, end);
            let left = requests_after(waiting, end);
            let second = reaction(
                queries,
                left,
                local,
                SwarmEvent::VerificationResponded { request_id: id, response: later },
            );
            &&& first == Ok::<Reaction, ErrorKind>(
                Reaction::Reply {
                    id,
                    kind: QueryKind::VerificationRequest,
                    reply: Reply::Verification(response),
                },
            )
            &&& !left.contains_key(id)
            &&& second == Ok::<Reaction, ErrorKind>(Reaction::Nothing)
        }),
{
}

/// What the node needs to join the swarm.
pub struct SwarmSetup {
    /// The node's keypair.
    pub local_key: Keypair,
    /// The coordinator, for which nobody waits yet.
    pub swarm: Swarm,
    /// The timeout of a query, in seconds.
    pub query_timeout: u64,
    /// The largest packet of the distributed hash table, in bytes.
    pub max_packet_size: usize,
    /// The limits of the record store.
    pub store: LocalStoreConfig,
    /// The name of the protocol that carries challenges.
    pub protocol: String,
    /// The address on which the node listens.
    pub listen_on: String,
}

/// The limits of the record store of a node.
pub open spec fn node_store_limits() -> LocalStoreConfig {
    LocalStoreConfig {
        max_records: 150000,
        max_value_bytes: MAX_MESSAGE_SIZE,
        max_provided_keys: 150000,
        max_providers_per_key: 20,
    }
}

/// The address on which a node listens on a port.
pub open spec fn listen_address(port: u16) -> Seq<char> {
    "/ip4/0.0.0.0/tcp/"@ + decimal(port as nat)
}

/// Builds the swarm's side of a node.
pub struct SwarmProvider;

impl SwarmProvider {
    /// What the node needs to join the swarm. The keypair is the one of the
    /// configuration, with the errors of `configured_keypair`. Where the
    /// configuration holds none, keypairs are generated until the hash of
    /// one's public key begins with `DEFAULT_LEADING_ZEROS` zero digits; if
    /// `max_tries` keypairs give none, the call fails.
    pub fn invoke(&mut self, keypair: Option<String>, port: u16, max_tries: u64) -> (r: Result<
        SwarmSetup,
        ErrorKind,
    >)
        ensures
            match r {
                Ok(setup) => setup.swarm.local()@ == keypair_peer_text(setup.local_key@)->Some_0
                    && keypair_peer_text(setup.local_key@) is Some && setup.swarm.queries()
                    == Map::<u64, QueryKind>::empty() && setup.swarm.requests() == Map::<
                    u64,
                    QueryKind,
                >::empty() && setup.query_timeout == QUERY_TIMEOUT && setup.max_packet_size
                    == MAX_MESSAGE_SIZE && setup.store == node_store_limits() && setup.protocol@
                    == VERIFICATION_PROTOCOL@ && setup.listen_on@ == listen_address(port) && match keypair {
                    Some(encoded) => configured(encoded@) == Ok::<
                        (Seq<u8>, Seq<char>),
                        ErrorKind,
                    >((setup.local_key@, setup.swarm.local()@)),
                    None => key_has_leading_zeros(setup.local_key@, DEFAULT_LEADING_ZEROS as nat),
                },
                Err(e) => match keypair {
                    Some(encoded) => configured(encoded@) == Err::<
                        (Seq<u8>, Seq<char>),
                        ErrorKind,
                    >(e),
                    None => e matches ErrorKind::Generic(text) && text@
                        == "no keypair with enough leading zeros"@,
                },
            },
            keypair is None && max_tries == 0 ==> r is Err,
    {
        let (local_key, local_peer_id) = match keypair {
            Some(encoded) => match configured_keypair(encoded.as_str()) {
                Ok(found) => found,
                Err(e) => return Err(e),
            },
            None => match generate_with_leading_zeros(DEFAULT_LEADING_ZEROS, max_tries) {
                Some(found) => match found.peer() {
                    Some(peer) => (found, peer),
                    None => return Err(ErrorKind::KeypairBase64DecodingError),
                },
                None => return Err(
                    ErrorKind::Generic("no keypair with enough leading zeros".to_string()),
                ),
            },
        };
        let mut listen_on = "/ip4/0.0.0.0/tcp/".to_string();
        listen_on.append(decimal_u16(port).as_str());
        Ok(
            SwarmSetup {
                local_key,
                swarm: Swarm::new(local_peer_id),
                query_timeout: QUERY_TIMEOUT,
                max_packet_size: MAX_MESSAGE_SIZE,
                store: LocalStoreConfig {
                    max_records: 150000,
                    max_value_bytes: MAX_MESSAGE_SIZE,
                    max_provided_keys: 150000,
                    max_providers_per_key: 20,
                },
                protocol: VERIFICATION_PROTOCOL.to_string(),
                listen_on,
            },
        )
    }
}

} // verus!
