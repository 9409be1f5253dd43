use kiss::grpc::{
    Code, ContractWrite, GetClosestPeersRequest, GetProvidersRequest, GrpcProvider, Inner,
    PutToRequest, RetrieveRequest, StartProvidingRequest, StoreRequest, WriteStep,
};
use kiss::por::codec::{VerificationClient, VerificationClientConfig, VerificationServer, VerificationServerConfig};
use kiss::util::errors::ErrorKind;
use kiss::util::hasher::hash;
use kiss::util::types::{Contract, Peer, QueryGetResponse};

fn peer(name: &str) -> Peer {
    Peer::new(name.to_string())
}

fn peers(names: &[&str]) -> Vec<Peer> {
    names.iter().map(|n| peer(n)).collect()
}

fn got(file: &[u8]) -> QueryGetResponse {
    QueryGetResponse { file: file.to_vec(), origin_peer_id: peer("origin") }
}

fn contract_with_hash(file_hash: String) -> Contract {
    Contract {
        contract_uuid: "c".to_string(),
        peer_id: peer("custodian"),
        file_uuid: "f".to_string(),
        file_hash,
        upload_date: 0,
        ttl: 0,
        secret_n: Vec::new(),
        secret_m: Vec::new(),
        rows: 0,
        cols: 0,
    }
}

#[test]
fn replicas_are_the_first_three_of_the_closest() {
    let chosen = Inner::select_replicas(&peers(&["a", "b", "c", "d", "e"]));
    let names: Vec<String> = chosen.iter().map(|p| p.to_base58()).collect();
    assert_eq!(names, vec!["a", "b", "c"]);
    assert_eq!(Inner::select_replicas(&peers(&["a", "b"])).len(), 2);
    assert_eq!(Inner::select_replicas(&peers(&["a", "b", "c"])).len(), 3);
    assert_eq!(Inner::select_replicas(&Vec::new()).len(), 0);
    assert_eq!(kiss::util::consts::REPLICATION_FACTOR, 3);
}

#[test]
fn store_of_the_alphabet_drafts_the_known_contract() {
    let content = "abcdefghijklmnopqrstuvwxyz".as_bytes().to_vec();
    let request = StoreRequest { name: "alphabet".to_string(), content: content.clone(), ttl: 6000 };
    let plan = Inner
        .store(&request, "file-uuid".to_string(), Ok(peers(&["a", "b", "c", "d"])))
        .unwrap();
    assert_eq!(plan.file_uuid, "file-uuid");
    assert_eq!(plan.file_hash, hash(&content));
    assert_eq!(plan.replicas.len(), 3);
    assert_eq!(plan.contracts.len(), 3);
    for (draft, name) in plan.contracts.iter().zip(["a", "b", "c"]) {
        assert_eq!(draft.peer_id.to_base58(), name);
        assert_eq!(draft.file_uuid, "file-uuid");
        assert_eq!(draft.file_hash, hash(&content));
        assert_eq!(draft.ttl, 6000);
        assert_eq!(draft.rows, 56);
        assert_eq!(draft.cols, 1);
        assert_eq!(draft.secret_m, 57829946736570845u64.to_le_bytes().to_vec());
        assert_eq!(draft.secret_n.len(), 8 * 56);
        let mut expected = Vec::new();
        for word in [
            120891374367124132u64,
            131035456404565768,
            141179538442007404,
            22254200296736808,
        ] {
            expected.extend_from_slice(&word.to_le_bytes());
        }
        assert_eq!(draft.secret_n[..32], expected[..]);
        assert!(draft.secret_n[32..].iter().all(|b| *b == 0));
    }
    let draft = &plan.contracts[0];
    let config = VerificationClientConfig::from_contract_fields(
        draft.secret_n.clone(),
        draft.secret_m.clone(),
        draft.rows,
        draft.cols,
    );
    let client = VerificationClient::new(config);
    let server = VerificationServer::new(VerificationServerConfig::from_file(content.clone()));
    let challenge = client.make_challenge_vector();
    let response = server.fulfill_challenge(challenge.clone());
    assert!(client.audit(challenge, response));
    let retrieved = Inner
        .retrieve(
            RetrieveRequest { name: plan.file_uuid.clone() },
            Ok(contract_with_hash(plan.file_hash.clone())),
            Ok(got(&content)),
        )
        .unwrap();
    assert_eq!(retrieved.content, content);
    assert_eq!(retrieved.name, "file-uuid");
    assert_eq!(Inner.store_response(plan).name, "file-uuid");
}

#[test]
fn blob_of_one_mebibyte_gets_three_contracts_for_three_peers() {
    let content: Vec<u8> = (0..1024 * 1024usize).map(|i| (i % 251) as u8).collect();
    let request = StoreRequest { name: "blob".to_string(), content, ttl: 1 };
    let plan = Inner.store(&request, "u".to_string(), Ok(peers(&["a", "b", "c"]))).unwrap();
    assert_eq!(plan.contracts.len(), 3);
    let mut custodians: Vec<String> = plan.contracts.iter().map(|c| c.peer_id.to_base58()).collect();
    custodians.sort();
    custodians.dedup();
    assert_eq!(custodians.len(), 3);
    assert!(plan.contracts.iter().all(|c| c.file_uuid == "u" && c.file_hash == plan.file_hash));
    assert!(plan.contracts.iter().all(|c| c.secret_n.len() as i64 == 8 * c.rows));
    assert!(plan.contracts.iter().all(|c| c.secret_m.len() as i64 == 8 * c.cols));
}

#[test]
fn store_without_closest_peers_is_an_internal_error() {
    let request = StoreRequest { name: "n".to_string(), content: vec![1], ttl: 1 };
    let status = Inner
        .store(&request, "u".to_string(), Err(ErrorKind::SwarmGetClosestPeersError))
        .unwrap_err();
    assert_eq!(status.code, Code::Internal);
    assert_eq!(status.message, "no closest peers get closest peers failed");
    let status = Inner.store_replicated(Err(ErrorKind::SwarmPutRecordError)).unwrap_err();
    assert_eq!(status.code, Code::Internal);
    assert_eq!(status.message, "putting record to swarm failed");
    assert!(Inner.store_replicated(Ok(())).is_ok());
}

#[test]
fn contract_write_is_tried_ten_times() {
    let mut write = ContractWrite::new();
    for _ in 0..9 {
        assert!(matches!(write.record(Err(ErrorKind::InvalidSql)), WriteStep::Retry));
    }
    match write.record(Err(ErrorKind::InvalidSql)) {
        WriteStep::Failed(status) => {
            assert_eq!(status.code, Code::Internal);
            assert_eq!(status.message, "failed to write contract to immudb: invalid sql");
        }
        _ => panic!("the tenth failure does not end the store"),
    }
    let mut write = ContractWrite::new();
    assert!(matches!(write.record(Ok(())), WriteStep::Written));
    let mut write = ContractWrite::new();
    for _ in 0..9 {
        assert!(matches!(write.record(Err(ErrorKind::InvalidSql)), WriteStep::Retry));
    }
    assert!(matches!(write.record(Ok(())), WriteStep::Written));
    assert_eq!(kiss::util::consts::CONTRACT_WRITE_ATTEMPTS, 10);
}

#[test]
fn retrieve_checks_the_hash_of_the_blob() {
    let request = || RetrieveRequest { name: "f".to_string() };
    let status = Inner
        .retrieve(request(), Ok(contract_with_hash(hash(b"abc"))), Ok(got(b"abd")))
        .unwrap_err();
    assert_eq!(status.code, Code::DataLoss);
    assert_eq!(status.message, "file has been modified");
    let status = Inner
        .retrieve(request(), Ok(contract_with_hash(hash(b"abc"))), Err(ErrorKind::SwarmGetRecordError))
        .unwrap_err();
    assert_eq!(status.code, Code::NotFound);
    assert_eq!(status.message, "failed getting from swarm: getting record from swarm failed");
    let status = Inner.retrieve(request(), Err(ErrorKind::InvalidSql), Ok(got(b"abc"))).unwrap_err();
    assert_eq!(status.code, Code::Unknown);
    assert_eq!(status.message, "invalid sql");
    let response =
        Inner.retrieve(request(), Ok(contract_with_hash(hash(b"abc"))), Ok(got(b"abc"))).unwrap();
    assert_eq!(response.content, b"abc");
}

#[test]
fn verify_gives_the_hash_of_the_blob() {
    assert_eq!(Inner.verify(Ok(got(b"abc"))).unwrap().hash, hash(b"abc"));
    let status = Inner.verify(Err(ErrorKind::SwarmGetRecordError)).unwrap_err();
    assert_eq!(status.code, Code::NotFound);
    assert_eq!(status.message, "failed to get file from swarm: getting record from swarm failed");
}

#[test]
fn file_is_verified_custodian_by_custodian() {
    let file = "abcdefghijklmnopqrstuvwxyz".as_bytes().to_vec();
    let (secret_n, secret_m, rows, cols) = VerificationClientConfig::from_file(&file).to_contract();
    let contract = Contract { secret_n, secret_m, rows, cols, ..contract_with_hash(hash(&file)) };
    let (client, challenge) = kiss::auditor::open_audit(&contract);
    let line = Inner.verify_file(&contract, &client, challenge.clone(), Some(vec![81608923241646346]));
    assert_eq!(line.peer_id, "custodian");
    assert!(line.verified);
    let line = Inner.verify_file(&contract, &client, challenge.clone(), Some(vec![1]));
    assert!(!line.verified);
    let line = Inner.verify_file(&contract, &client, challenge, None);
    assert!(!line.verified);
}

#[test]
fn lookups_answer_with_the_peers_in_their_order() {
    let response = Inner
        .get_closest_peers(
            GetClosestPeersRequest { uuid: "u".to_string() },
            Ok(peers(&["near", "nearer", "far"])),
        )
        .unwrap();
    assert_eq!(response.uuid, "u");
    assert_eq!(response.peer_uuids, vec!["near", "nearer", "far"]);
    let status = Inner
        .get_closest_peers(
            GetClosestPeersRequest { uuid: "u".to_string() },
            Err(ErrorKind::SwarmGetClosestPeersError),
        )
        .unwrap_err();
    assert_eq!(status.code, Code::Internal);
    let response = Inner
        .get_providers(GetProvidersRequest { name: "n".to_string() }, Ok(peers(&["a"])))
        .unwrap();
    assert_eq!(response.name, "n");
    assert_eq!(response.providers, vec!["a"]);
    let status = Inner
        .get_providers(GetProvidersRequest { name: "n".to_string() }, Err(ErrorKind::NoProvidersFound))
        .unwrap_err();
    assert_eq!(status.code, Code::Internal);
    assert_eq!(status.message, "no providers found");
    let response =
        Inner.start_providing(StartProvidingRequest { uuid: "u".to_string() }, Ok(())).unwrap();
    assert_eq!(response.uuid, "u");
    let status = Inner
        .start_providing(
            StartProvidingRequest { uuid: "u".to_string() },
            Err(ErrorKind::SwarmStartProvidingError),
        )
        .unwrap_err();
    assert_eq!(status.code, Code::Internal);
}

#[test]
fn malformed_identifiers_are_invalid_arguments() {
    let request = GetClosestPeersRequest { uuid: "no uuid".to_string() };
    assert_eq!(Inner.get_closest_peers_key(&request).unwrap_err().code, Code::InvalidArgument);
    let request = GetClosestPeersRequest { uuid: "00000000-0000-0000-0000-0000000000ff".to_string() };
    assert_eq!(Inner.get_closest_peers_key(&request).unwrap(), 255);
    let good = libp2p_identity::PeerId::random().to_base58();
    let request =
        PutToRequest { content: vec![1], ttl: 5, peer_uuids: vec![good.clone(), "bad".to_string()] };
    let status = Inner.put_to(&request, "u".to_string()).unwrap_err();
    assert_eq!(status.code, Code::InvalidArgument);
    assert_eq!(status.message, "invalid peer id");
    let request = PutToRequest { content: vec![1], ttl: 5, peer_uuids: vec![good.clone()] };
    let plan = Inner.put_to(&request, "u".to_string()).unwrap();
    assert_eq!(plan.replicas.len(), 1);
    assert_eq!(plan.replicas[0].to_base58(), good);
    assert_eq!(plan.contracts.len(), 1);
    assert_eq!(plan.contracts[0].peer_id.to_base58(), good);
    assert_eq!(plan.contracts[0].ttl, 5);
    assert_eq!(plan.contracts[0].file_hash, hash(&[1]));
    assert_eq!(Inner.put_to_contract_failed(ErrorKind::InvalidSql).code, Code::Unknown);
    let status = Inner
        .put_to_response(Inner.put_to(&request, "u".to_string()).unwrap(), Err(ErrorKind::SwarmPutRecordError))
        .unwrap_err();
    assert_eq!(status.code, Code::Internal);
    assert_eq!(Inner.put_to_response(plan, Ok(())).unwrap().uuid, "u");
}

#[test]
fn facade_listens_on_the_local_host() {
    let handler = GrpcProvider.invoke(50051);
    assert_eq!(handler.port, 50051);
    assert_eq!(handler.address(), "[::1]:50051");
    assert_eq!(GrpcProvider.invoke(0).address(), "[::1]:0");
    assert_eq!(GrpcProvider.invoke(65535).address(), "[::1]:65535");
    assert_eq!(kiss::util::text::decimal_u16(1000), "1000");
    assert_eq!(kiss::util::text::decimal_u16(9), "9");
    assert_eq!(kiss::util::consts::GRPC_TIMEOUT, 30);
}
