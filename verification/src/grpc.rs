//! The decisions of the RPC facade: what each call asks of the swarm and
//! the ledger, and what it answers for each outcome.

use vstd::prelude::*;
use vstd::string::*;
use crate::p2p::peer_id::peer_id_text;
use crate::por::codec::{ClientSecret, VerificationClient, VerificationClientConfig};
use crate::util::consts::{CONTRACT_WRITE_ATTEMPTS, REPLICATION_FACTOR};
use crate::util::errors::ErrorKind;
use crate::util::hasher::{hash, hex_of, sha3_256};
use crate::util::ids::{is_uuid, uuid_number};
use crate::util::types::{Contract, Peer, QueryGetResponse};

verus! {

/// The status codes that the facade answers with.
#[derive(Debug, Clone, Copy, PartialEq, Eq, Structural)]
pub enum Code {
    /// A blob is missing.
    NotFound,
    /// A retrieved blob does not have the hash of its contract.
    DataLoss,
    /// A peer identifier or a file identifier is malformed.
    InvalidArgument,
    /// The swarm or the ledger failed.
    Internal,
    /// The ledger could not take a write or answer a query.
    Unknown,
}

/// The failure of a call.
#[derive(Debug)]
pub struct Status {
    pub code: Code,
    pub message: String,
}

#[derive(Debug)]
pub struct StoreRequest {
    pub name: String,
    pub content: Vec<u8>,
    pub ttl: i64,
}

#[derive(Debug)]
pub struct StoreResponse {
    pub name: String,
}

#[derive(Debug)]
pub struct RetrieveRequest {
    pub name: String,
}

#[derive(Debug)]
pub struct RetrieveResponse {
    pub name: String,
    pub content: Vec<u8>,
}

#[derive(Debug)]
pub struct VerifyRequest {
    pub path: String,
}

#[derive(Debug)]
pub struct VerifyResponse {
    pub hash: String,
}

#[derive(Debug)]
pub struct VerifyFileRequest {
    pub file_uuid: String,
}

#[derive(Debug)]
pub struct VerificationForPeer {
    pub peer_id: String,
    pub verified: bool,
}

#[derive(Debug)]
pub struct VerifyFileResponse {
    pub verifications: Vec<VerificationForPeer>,
}

#[derive(Debug)]
pub struct GetProvidersRequest {
    pub name: String,
}

#[derive(Debug)]
pub struct GetProvidersResponse {
    pub name: String,
    pub providers: Vec<String>,
}

#[derive(Debug)]
pub struct GetClosestPeersRequest {
    pub uuid: String,
}

#[derive(Debug)]
pub struct GetClosestPeersResponse {
    pub uuid: String,
    pub peer_uuids: Vec<String>,
}

#[derive(Debug)]
pub struct StartProvidingRequest {
    pub uuid: String,
}

#[derive(Debug)]
pub struct StartProvidingResponse {
    pub uuid: String,
}

#[derive(Debug)]
pub struct PutToRequest {
    pub content: Vec<u8>,
    pub ttl: i64,
    pub peer_uuids: Vec<String>,
}

#[derive(Debug)]
pub struct PutToResponse {
    pub uuid: String,
}

/// A contract that is to be written to the ledger: all of it but the
/// contract's own identifier and the upload date.
#[derive(Debug)]
pub struct ContractDraft {
    pub peer_id: Peer,
    pub file_uuid: String,
    pub file_hash: String,
    pub ttl: i64,
    pub secret_n: Vec<u8>,
    pub secret_m: Vec<u8>,
    pub rows: i64,
    pub cols: i64,
}

/// What a store does once the closest peers are known: the blob goes to the
/// replicas, then one contract is written for each replica.
#[derive(Debug)]
pub struct StorePlan {
    pub file_uuid: String,
    pub file_hash: String,
    pub replicas: Vec<Peer>,
    pub contracts: Vec<ContractDraft>,
}

/// The identifiers of a list of peers.
pub open spec fn peer_ids(peers: Seq<Peer>) -> Seq<Seq<char>> {
    Seq::new(peers.len(), |k: int| peers[k]@)
}

/// No identifier occurs twice.
pub open spec fn all_distinct(ids: Seq<Seq<char>>) -> bool {
    forall|a: int, b: int| 0 <= a < b < ids.len() ==> ids[a] != ids[b]
}

/// The first `REPLICATION_FACTOR` peers, or all of them if there are fewer.
pub open spec fn replicas_of(closest: Seq<Seq<char>>) -> Seq<Seq<char>> {
    if closest.len() <= REPLICATION_FACTOR {
        closest
    } else {
        closest.subrange(0, REPLICATION_FACTOR as int)
    }
}

/// Whether a draft is the contract of a peer for a file with the given
/// content.
pub open spec fn drafted(
    draft: ContractDraft,
    peer: Seq<char>,
    file_uuid: Seq<char>,
    content: Seq<u8>,
    ttl: i64,
) -> bool {
    let fields = ClientSecret::of_file(content).to_fields();
    &&& draft.peer_id@ == peer
    &&& draft.file_uuid@ == file_uuid
    &&& draft.file_hash@ == hex_of(sha3_256(content))
    &&& draft.ttl == ttl
    &&& draft.secret_n@ == fields.0
    &&& draft.secret_m@ == fields.1
    &&& draft.rows == fields.2
    &&& draft.cols == fields.3
}

/// Whether the drafts are the contracts of the given peers, one for each in
/// their order.
pub open spec fn drafted_for(
    drafts: Seq<ContractDraft>,
    peers: Seq<Seq<char>>,
    file_uuid: Seq<char>,
    content: Seq<u8>,
    ttl: i64,
) -> bool {
    &&& drafts.len() == peers.len()
    &&& forall|k: int|
        0 <= k < drafts.len() ==> drafted(#[trigger] drafts[k], peers[k], file_uuid, content, ttl)
}

/// A status with the given code whose message is a text followed by the
/// description of an error.
fn status_with(code: Code, before: &str, e: &ErrorKind) -> (status: Status)
    ensures
        status.code == code,
        status.message@ == before@ + e.description(),
{
    let mut message = before.to_string();
    message.append(e.describe().as_str());
    Status { code, message }
}

/// A status with the given code whose message is the description of an
/// error.
fn status_of(code: Code, e: &ErrorKind) -> (status: Status)
    ensures
        status.code == code,
        status.message@ == e.description(),
{
    Status { code, message: e.describe() }
}

/// The texts of the identifiers of a list of peers.
fn peer_texts(peers: &Vec<Peer>) -> (texts: Vec<String>)
    ensures
        texts@.len() == peers@.len(),
        forall|k: int| 0 <= k < peers@.len() ==> (#[trigger] texts@[k])@ == peers@[k]@,
{
    let mut texts: Vec<String> = Vec::new();
    let mut k: usize = 0;
    while k < peers.len()
        invariant
            k <= peers@.len(),
            texts@.len() == k,
            forall|t: int| 0 <= t < k ==> (#[trigger] texts@[t])@ == peers@[t]@,
        decreases peers@.len() - k,
    {
        texts.push(peers[k].to_base58());
        k = k + 1;
    }
    texts
}

/// How the writes of one contract have gone so far.
#[derive(Debug)]
pub struct ContractWrite {
    attempts: usize,
}

/// What follows a write of a contract.
#[derive(Debug)]
pub enum WriteStep {
    /// The contract is written.
    Written,
    /// The write is tried again.
    Retry,
    /// The store fails.
    Failed(Status),
}

impl ContractWrite {
    /// The number of writes that failed.
    pub closed spec fn failures(&self) -> nat {
        self.attempts as nat
    }

    /// No more writes have failed than are tried.
    pub closed spec fn wf(&self) -> bool {
        self.attempts < CONTRACT_WRITE_ATTEMPTS
    }

    /// No write tried yet.
    pub fn new() -> (write: ContractWrite)
        ensures
            write.failures() == 0,
            write.wf(),
    {
        ContractWrite { attempts: 0 }
    }

    /// Takes the outcome of a write. A write that went through ends the
    /// matter; one that failed is tried again until
    /// `CONTRACT_WRITE_ATTEMPTS` writes have failed, and then the store
    /// fails with an internal error that names the last failure.
    pub fn record(&mut self, result: Result<(), ErrorKind>) -> (step: WriteStep)
        requires
            old(self).wf(),
        ensures
            match result {
                Ok(()) => step is Written && final(self).failures() == old(self).failures(),
                Err(e) => if old(self).failures() + 1 < CONTRACT_WRITE_ATTEMPTS {
                    step is Retry && final(self).failures() == old(self).failures() + 1
                        && final(self).wf()
                } else {
                    step matches WriteStep::Failed(status) && status.code == Code::Internal
                        && status.message@ == "failed to write contract to immudb: "@
                        + e.description()
                },
            },
    {
        match result {
            Ok(()) => WriteStep::Written,
            Err(e) => {
                if self.attempts + 1 < CONTRACT_WRITE_ATTEMPTS {
                    self.attempts = self.attempts + 1;
                    WriteStep::Retry
                } else {
                    WriteStep::Failed(
                        status_with(Code::Internal, "failed to write contract to immudb: ", &e),
                    )
                }
            },
        }
    }
}

/// The facade.
pub struct Inner;

impl Inner {
    /// The custodians of a new blob: the first `REPLICATION_FACTOR` of the
    /// closest peers.
    pub fn select_replicas(closest: &Vec<Peer>) -> (replicas: Vec<Peer>)
        ensures
            peer_ids(replicas@) == replicas_of(peer_ids(closest@)),
    {
        let mut replicas: Vec<Peer> = Vec::new();
        let mut k: usize = 0;
        while k < closest.len() && k < REPLICATION_FACTOR
            invariant
                k <= closest@.len(),
                k <= REPLICATION_FACTOR,
                replicas@.len() == k,
                forall|t: int| 0 <= t < k ==> (#[trigger] replicas@[t])@ == closest@[t]@,
            decreases closest@.len() - k,
        {
            replicas.push(closest[k].clone());
            k = k + 1;
        }
        assert(peer_ids(replicas@) =~= replicas_of(peer_ids(closest@)));
        replicas
    }

    /// The contracts of a blob, one for each of the given custodians: each
    /// holds the blob's hash and the secret that the codec derives from the
    /// blob.
    pub fn draft_contracts(
        peers: &Vec<Peer>,
        file_uuid: &String,
        file_hash: &String,
        content: &Vec<u8>,
        ttl: i64,
    ) -> (drafts: Vec<ContractDraft>)
        requires
            file_hash@ == hex_of(sha3_256(content@)),
        ensures
            drafted_for(drafts@, peer_ids(peers@), file_uuid@, content@, ttl),
    {
        let mut drafts: Vec<ContractDraft> = Vec::new();
        let mut k: usize = 0;
        while k < peers.len()
            invariant
                k <= peers@.len(),
                file_hash@ == hex_of(sha3_256(content@)),
                drafts@.len() == k,
                forall|t: int|
                    0 <= t < k ==> drafted(
                        #[trigger] drafts@[t],
                        peers@[t]@,
                        file_uuid@,
                        content@,
                        ttl,
                    ),
            decreases peers@.len() - k,
        {
            let client_config = VerificationClientConfig::from_file(content);
            let (secret_n, secret_m, rows, cols) = client_config.to_contract();
            drafts.push(
                ContractDraft {
                    peer_id: peers[k].clone(),
                    file_uuid: file_uuid.clone(),
                    file_hash: file_hash.clone(),
                    ttl,
                    secret_n,
                    secret_m,
                    rows,
                    cols,
                },
            );
            k = k + 1;
        }
        drafts
    }

    /// Plans the store of a blob under a fresh identifier. Without the
    /// closest peers the store fails with an internal error. With them the
    /// plan names the replicas, which are the first `REPLICATION_FACTOR` of
    /// the closest peers, and holds one contract for each replica.
    pub fn store(
        &self,
        request: &StoreRequest,
        file_uuid: String,
        closest: Result<Vec<Peer>, ErrorKind>,
    ) -> (r: Result<StorePlan, Status>)
        ensures
            match closest {
                Err(e) => r matches Err(status) && status.code == Code::Internal
                    && status.message@ == "no closest peers "@ + e.description(),
                Ok(peers) => r matches Ok(plan) && plan.file_uuid@ == file_uuid@
                    && plan.file_hash@ == hex_of(sha3_256(request.content@)) && peer_ids(
                    plan.replicas@,
                ) == replicas_of(peer_ids(peers@)) && drafted_for(
                    plan.contracts@,
                    replicas_of(peer_ids(peers@)),
                    file_uuid@,
                    request.content@,
                    request.ttl,
                ),
            },
    {
        let file_hash = hash(request.content.as_slice());
        let closest_peers = match closest {
            Ok(peers) => peers,
            Err(e) => return Err(status_with(Code::Internal, "no closest peers ", &e)),
        };
        let replicas = Inner::select_replicas(&closest_peers);
        let contracts = Inner::draft_contracts(
            &replicas,
            &file_uuid,
            &file_hash,
            &request.content,
            request.ttl,
        );
        Ok(StorePlan { file_uuid, file_hash, replicas, contracts })
    }

    /// What a store makes of the outcome of the replication: a failure ends
    /// the store with an internal error before any contract is written.
    pub fn store_replicated(&self, result: Result<(), ErrorKind>) -> (r: Result<(), Status>)
        ensures
            match result {
                Ok(()) => r is Ok,
                Err(e) => r matches Err(status) && status.code == Code::Internal
                    && status.message@ == e.description(),
            },
    {
        match result {
            Ok(()) => Ok(()),
            Err(e) => Err(status_of(Code::Internal, &e)),
        }
    }

    /// The answer to a store whose contracts are all written: the blob's
    /// identifier.
    pub fn store_response(&self, plan: StorePlan) -> (response: StoreResponse)
        ensures
            response.name == plan.file_uuid,
    {
        StoreResponse { name: plan.file_uuid }
    }

    /// The answer to a retrieve. Without the contract the answer is
    /// `Unknown`; without the blob it is `NotFound`; a blob whose hash is
    /// not the one of the contract is `DataLoss`; else the blob is handed
    /// out.
    pub fn retrieve(
        &self,
        request: RetrieveRequest,
        contract: Result<Contract, ErrorKind>,
        found: Result<QueryGetResponse, ErrorKind>,
    ) -> (r: Result<RetrieveResponse, Status>)
        ensures
            match (contract, found) {
                (Err(e), _) => r matches Err(status) && status.code == Code::Unknown
                    && status.message@ == e.description(),
                (Ok(_), Err(e)) => r matches Err(status) && status.code == Code::NotFound
                    && status.message@ == "failed getting from swarm: "@ + e.description(),
                (Ok(c), Ok(got)) => if hex_of(sha3_256(got.file@)) != c.file_hash@ {
                    r matches Err(status) && status.code == Code::DataLoss && status.message@
                        == "file has been modified"@
                } else {
                    r matches Ok(response) && response.name == request.name && response.content
                        == got.file
                },
            },
    {
        let contract = match contract {
            Ok(contract) => contract,
            Err(e) => return Err(status_of(Code::Unknown, &e)),
        };
        let content = match found {
            Ok(got) => got.file,
            Err(e) => return Err(status_with(Code::NotFound, "failed getting from swarm: ", &e)),
        };
        let file_hash = hash(content.as_slice());
        if file_hash != contract.file_hash {
            return Err(
                Status { code: Code::DataLoss, message: "file has been modified".to_string() },
            );
        }
        Ok(RetrieveResponse { name: request.name, content })
    }

    /// The answer to a verify: the hash of the blob, or `NotFound` without
    /// the blob.
    pub fn verify(&self, found: Result<QueryGetResponse, ErrorKind>) -> (r: Result<
        VerifyResponse,
        Status,
    >)
        ensures
            match found {
                Ok(got) => r matches Ok(response) && response.hash@ == hex_of(
                    sha3_256(got.file@),
                ),
                Err(e) => r matches Err(status) && status.code == Code::NotFound
                    && status.message@ == "failed to get file from swarm: "@ + e.description(),
            },
    {
        match found {
            Ok(got) => Ok(VerifyResponse { hash: hash(got.file.as_slice()) }),
            Err(e) => Err(status_with(Code::NotFound, "failed to get file from swarm: ", &e)),
        }
    }

    /// The line of a file verification for one custodian: whether the
    /// contract's secret accepts the custodian's response. A custodian that
    /// gave no response is not verified.
    pub fn verify_file(
        &self,
        contract: &Contract,
        client: &VerificationClient,
        challenge: Vec<u64>,
        response: Option<Vec<u64>>,
    ) -> (line: VerificationForPeer)
        requires
            response matches Some(r) ==> client.config@.auditable(challenge@, r@),
        ensures
            line.peer_id@ == contract@.peer_id,
            line.verified == match response {
                Some(r) => client.config@.accepts(challenge@, r@),
                None => false,
            },
    {
        let verified = match response {
            Some(r) => client.audit(challenge, r),
            None => false,
        };
        VerificationForPeer { peer_id: contract.peer_id.to_base58(), verified }
    }

    /// The answer to a query for the providers of a blob.
    pub fn get_providers(
        &self,
        request: GetProvidersRequest,
        found: Result<Vec<Peer>, ErrorKind>,
    ) -> (r: Result<GetProvidersResponse, Status>)
        ensures
            match found {
                Ok(providers) => r matches Ok(response) && response.name == request.name
                    && response.providers@.len() == providers@.len() && forall|k: int|
                    0 <= k < providers@.len() ==> (#[trigger] response.providers@[k])@
                        == providers@[k]@,
                Err(e) => r matches Err(status) && status.code == Code::Internal
                    && status.message@ == e.description(),
            },
    {
        match found {
            Ok(providers) => Ok(
                GetProvidersResponse { name: request.name, providers: peer_texts(&providers) },
            ),
            Err(e) => Err(status_of(Code::Internal, &e)),
        }
    }

    /// Checks the identifier of a query for the closest peers: a text that
    /// is no UUID is an invalid argument.
    pub fn get_closest_peers_key(&self, request: &GetClosestPeersRequest) -> (r: Result<
        u128,
        Status,
    >)
        ensures
            match r {
                Ok(n) => uuid_number(request.uuid@) == Some(n),
                Err(status) => uuid_number(request.uuid@) is None && status.code
                    == Code::InvalidArgument && status.message@ == "invalid uuid"@,
            },
    {
        if is_uuid(request.uuid.as_str()) {
            Ok(crate::util::ids::file_position(request.uuid.as_str()))
        } else {
            Err(
                Status {
                    code: Code::InvalidArgument,
                    message: "invalid uuid".to_string(),
                },
            )
        }
    }

    /// The answer to a query for the closest peers, nearest first.
    pub fn get_closest_peers(
        &self,
        request: GetClosestPeersRequest,
        found: Result<Vec<Peer>, ErrorKind>,
    ) -> (r: Result<GetClosestPeersResponse, Status>)
        ensures
            match found {
                Ok(peers) => r matches Ok(response) && response.uuid == request.uuid
                    && response.peer_uuids@.len() == peers@.len() && forall|k: int|
                    0 <= k < peers@.len() ==> (#[trigger] response.peer_uuids@[k])@ == peers@[k]@,
                Err(e) => r matches Err(status) && status.code == Code::Internal
                    && status.message@ == e.description(),
            },
    {
        match found {
            Ok(peers) => Ok(
                GetClosestPeersResponse { uuid: request.uuid, peer_uuids: peer_texts(&peers) },
            ),
            Err(e) => Err(status_of(Code::Internal, &e)),
        }
    }

    /// The answer to an announcement as provider.
    pub fn start_providing(
        &self,
        request: StartProvidingRequest,
        result: Result<(), ErrorKind>,
    ) -> (r: Result<StartProvidingResponse, Status>)
        ensures
            match result {
                Ok(()) => r matches Ok(response) && response.uuid == request.uuid,
                Err(e) => r matches Err(status) && status.code == Code::Internal
                    && status.message@ == e.description(),
            },
    {
        match result {
            Ok(()) => Ok(StartProvidingResponse { uuid: request.uuid }),
            Err(e) => Err(status_of(Code::Internal, &e)),
        }
    }

    /// Plans a store at the custodians that the caller names. The first
    /// name that is no peer identifier makes the call fail with
    /// `InvalidArgument` before anything is written. Else the plan names
    /// the custodians and holds one contract for each.
    pub fn put_to(&self, request: &PutToRequest, file_uuid: String) -> (r: Result<
        StorePlan,
        Status,
    >)
        ensures
            match r {
                Ok(plan) => plan.file_uuid@ == file_uuid@ && plan.file_hash@ == hex_of(
                    sha3_256(request.content@),
                ) && plan.replicas@.len() == request.peer_uuids@.len() && (forall|k: int|
                    0 <= k < request.peer_uuids@.len() ==> peer_id_text(
                        #[trigger] request.peer_uuids@[k]@,
                    ) == Some(plan.replicas@[k]@)) && drafted_for(
                    plan.contracts@,
                    peer_ids(plan.replicas@),
                    file_uuid@,
                    request.content@,
                    request.ttl,
                ),
                Err(status) => status.code == Code::InvalidArgument && status.message@
                    == "invalid peer id"@ && exists|k: int|
                    0 <= k < request.peer_uuids@.len() && peer_id_text(
                        #[trigger] request.peer_uuids@[k]@,
                    ) is None,
            },
    {
        let file_hash = hash(request.content.as_slice());
        let mut peers: Vec<Peer> = Vec::new();
        let mut k: usize = 0;
        while k < request.peer_uuids.len()
            invariant
                k <= request.peer_uuids@.len(),
                peers@.len() == k,
                forall|t: int|
                    0 <= t < k ==> peer_id_text(#[trigger] request.peer_uuids@[t]@) == Some(
                        peers@[t]@,
                    ),
            decreases request.peer_uuids@.len() - k,
        {
            match Peer::parse(request.peer_uuids[k].as_str()) {
                Ok(peer) => {
                    peers.push(peer);
                },
                Err(e) => {
                    return Err(status_of(Code::InvalidArgument, &e));
                },
            }
            k = k + 1;
        }
        let contracts = Inner::draft_contracts(
            &peers,
            &file_uuid,
            &file_hash,
            &request.content,
            request.ttl,
        );
        Ok(StorePlan { file_uuid, file_hash, replicas: peers, contracts })
    }

    /// What a store at named custodians makes of the failure of a contract
    /// write: the call fails with `Unknown`.
    pub fn put_to_contract_failed(&self, e: ErrorKind) -> (status: Status)
        ensures
            status.code == Code::Unknown,
            status.message@ == e.description(),
    {
        status_of(Code::Unknown, &e)
    }

    /// The answer to a store at named custodians once the contracts are
    /// written and the replication has ended.
    pub fn put_to_response(&self, plan: StorePlan, result: Result<(), ErrorKind>) -> (r: Result<
        PutToResponse,
        Status,
    >)
        ensures
            match result {
                Ok(()) => r matches Ok(response) && response.uuid == plan.file_uuid,
                Err(e) => r matches Err(status) && status.code == Code::Internal
                    && status.message@ == e.description(),
            },
    {
        match result {
            Ok(()) => Ok(PutToResponse { uuid: plan.file_uuid }),
            Err(e) => Err(status_of(Code::Internal, &e)),
        }
    }
}

/// A store that finds at least `REPLICATION_FACTOR` closest peers, all
/// different, writes exactly `REPLICATION_FACTOR` contracts: each for
/// another peer, all for the same file and with the same hash.
pub proof fn law_store_writes_one_contract_per_replica(
    drafts: Seq<ContractDraft>,
    closest: Seq<Seq<char>>,
    file_uuid: Seq<char>,
    content: Seq<u8>,
    ttl: i64,
)
    requires
        closest.len() >= REPLICATION_FACTOR,
        all_distinct(closest),
        drafted_for(drafts, replicas_of(closest), file_uuid, content, ttl),
    ensures
        drafts.len() == REPLICATION_FACTOR,
        forall|a: int, b: int|
            0 <= a < b < drafts.len() ==> drafts[a].peer_id@ != drafts[b].peer_id@,
        forall|a: int|
            0 <= a < drafts.len() ==> (#[trigger] drafts[a]).file_uuid@ == file_uuid
                && drafts[a].file_hash@ == hex_of(sha3_256(content)),
{
    let replicas = replicas_of(closest);
    assert forall|a: int, b: int| 0 <= a < b < drafts.len() implies drafts[a].peer_id@
        != drafts[b].peer_id@ by {
        assert(drafted(drafts[a], replicas[a], file_uuid, content, ttl));
        assert(drafted(drafts[b], replicas[b], file_uuid, content, ttl));
        assert(replicas[a] == closest[a]);
        assert(replicas[b] == closest[b]);
    }
}

/// Builds the facade.
pub struct GrpcProvider;

/// The facade with the port on which it listens.
pub struct GrpcHandler {
    pub inner: Inner,
    pub port: u16,
}

impl GrpcProvider {
    /// The facade for the port that the configuration names.
    pub fn invoke(&mut self, port: u16) -> (handler: GrpcHandler)
        ensures
            handler.port == port,
    {
        GrpcHandler { inner: Inner, port }
    }
}

impl GrpcHandler {
    /// The address on which the facade listens: the local host and the
    /// port.
    pub fn address(&self) -> (address: String)
        ensures
            address@ == crate::util::consts::LOCALHOST@ + ":"@ + crate::util::text::decimal(
                self.port as nat,
            ),
    {
        let mut address = crate::util::consts::LOCALHOST.to_string();
        address.append(":");
        address.append(crate::util::text::decimal_u16(self.port).as_str());
        address
    }

    /// The facade.
    pub fn inner(&self) -> (inner: &Inner)
        ensures
            *inner == self.inner,
    {
        &self.inner
    }
}

} // verus!
