use kiss::bench::{Bench, BenchProvider};
use kiss::p2p::store::{key_to_path, LocalStore, LocalStoreConfig, StoreError, K_VALUE};
use kiss::p2p::swarm::{
    uuid_to_bytes, CommandToSwarm, GetProvidersOutcome, GetRecordOutcome, Primitive, QueryKind,
    QueryResult, Reaction, Reply, Swarm, SwarmEvent, SwarmProvider,
};
use kiss::por::codec::{VerificationClient, VerificationClientConfig};
use kiss::util::errors::ErrorKind;
use kiss::util::types::{Peer, Record, VerificationRequest, VerificationResponse};

fn peer(name: &str) -> Peer {
    Peer::new(name.to_string())
}

fn coordinator() -> Swarm {
    Swarm::new(peer("local"))
}

fn ended(id: u64, result: QueryResult) -> SwarmEvent {
    SwarmEvent::QueryProgressed { id, result }
}

#[test]
fn put_command_becomes_a_record_with_quorum_one() {
    let swarm = coordinator();
    let command = CommandToSwarm::PutLocal { key: "k".to_string(), value: vec![1, 2] };
    let dispatch = swarm.handle_controller_event(Some(command)).unwrap();
    assert_eq!(dispatch.kind, QueryKind::Put);
    match dispatch.primitive {
        Primitive::PutRecord { record } => {
            assert_eq!(record.key, b"k");
            assert_eq!(record.value, vec![1, 2]);
            assert!(record.publisher.is_none());
            assert!(record.expires.is_none());
        }
        _ => panic!("a put is not a put"),
    }
}

#[test]
fn every_command_has_its_primitive() {
    let swarm = coordinator();
    let command = CommandToSwarm::PutRemote {
        key: "k".to_string(),
        value: vec![9],
        remotes: vec![peer("a"), peer("b")],
    };
    let dispatch = swarm.handle_controller_event(Some(command)).unwrap();
    assert_eq!(dispatch.kind, QueryKind::PutTo);
    match dispatch.primitive {
        Primitive::PutRecordTo { record, peers } => {
            assert_eq!(record.key, b"k");
            assert_eq!(record.value, vec![9]);
            assert_eq!(peers.len(), 2);
            assert_eq!(peers[0].to_base58(), "a");
            assert_eq!(peers[1].to_base58(), "b");
        }
        _ => panic!("a remote put is not a remote put"),
    }
    let dispatch = swarm.handle_controller_event(Some(CommandToSwarm::Get { key: "k".to_string() })).unwrap();
    assert_eq!(dispatch.kind, QueryKind::Get);
    assert!(matches!(dispatch.primitive, Primitive::GetRecord { key } if key == b"k"));
    let dispatch = swarm
        .handle_controller_event(Some(CommandToSwarm::GetProviders { key: "k".to_string() }))
        .unwrap();
    assert_eq!(dispatch.kind, QueryKind::GetProviders);
    assert!(matches!(dispatch.primitive, Primitive::GetProviders { key } if key == b"k"));
    let dispatch = swarm
        .handle_controller_event(Some(CommandToSwarm::StartProviding { key: "k".to_string() }))
        .unwrap();
    assert_eq!(dispatch.kind, QueryKind::StartProviding);
    assert!(matches!(dispatch.primitive, Primitive::StartProviding { key } if key == b"k"));
    let uuid = uuid::Uuid::new_v4();
    let dispatch = swarm
        .handle_controller_event(Some(CommandToSwarm::GetClosestPeers { uuid: uuid.as_u128() }))
        .unwrap();
    assert_eq!(dispatch.kind, QueryKind::GetClosestPeers);
    assert!(matches!(dispatch.primitive, Primitive::GetClosestPeers { key } if key == uuid.as_bytes().to_vec()));
    let command = CommandToSwarm::RequestVerification {
        peer: peer("c"),
        file_uuid: "f".to_string(),
        challenge_vector: vec![1, 2, 3],
    };
    let dispatch = swarm.handle_controller_event(Some(command)).unwrap();
    assert_eq!(dispatch.kind, QueryKind::VerificationRequest);
    match dispatch.primitive {
        Primitive::SendRequest { peer, request } => {
            assert_eq!(peer.to_base58(), "c");
            assert_eq!(request.file_name, "f");
            assert_eq!(request.challenge_vector, vec![1, 2, 3]);
        }
        _ => panic!("a verification request is not sent"),
    }
}

#[test]
fn closed_command_channel_is_a_missing_instruction() {
    assert!(matches!(
        coordinator().handle_controller_event(None),
        Err(ErrorKind::MissingInstruction)
    ));
}

#[test]
fn uuid_bytes_have_the_highest_byte_first() {
    assert_eq!(
        uuid_to_bytes(0x0102030405060708090a0b0c0d0e0f10),
        vec![1, 2, 3, 4, 5, 6, 7, 8, 9, 10, 11, 12, 13, 14, 15, 16]
    );
    assert_eq!(uuid_to_bytes(0), vec![0; 16]);
}

#[test]
fn query_is_answered_once_and_leaves_no_entry() {
    let mut swarm = coordinator();
    assert_eq!(swarm.pending(), 0);
    swarm.register(QueryKind::Put, 7);
    swarm.register(QueryKind::Get, 8);
    assert_eq!(swarm.pending(), 2);
    assert!(swarm.awaits_query(7));
    let reaction = swarm.handle_swarm_event(ended(7, QueryResult::PutRecord(true))).unwrap();
    assert!(matches!(
        reaction,
        Reaction::Reply { id: 7, kind: QueryKind::Put, reply: Reply::Done }
    ));
    assert!(!swarm.awaits_query(7));
    assert!(swarm.awaits_query(8));
    assert_eq!(swarm.pending(), 1);
    let again = swarm.handle_swarm_event(ended(7, QueryResult::PutRecord(true))).unwrap();
    assert!(matches!(again, Reaction::Nothing));
    assert_eq!(swarm.pending(), 1);
}

#[test]
fn every_kind_of_query_gets_its_reply() {
    let mut swarm = coordinator();
    swarm.register(QueryKind::PutTo, 1);
    assert!(matches!(
        swarm.handle_swarm_event(ended(1, QueryResult::PutRecord(false))),
        Ok(Reaction::Reply {
            id: 1,
            kind: QueryKind::PutTo,
            reply: Reply::Failed(ErrorKind::SwarmPutRecordError)
        })
    ));
    swarm.register(QueryKind::Get, 2);
    let found = GetRecordOutcome::Found { value: vec![5], peer: None };
    match swarm.handle_swarm_event(ended(2, QueryResult::GetRecord(found))).unwrap() {
        Reaction::Reply { id: 2, kind: QueryKind::Get, reply: Reply::Record(got) } => {
            assert_eq!(got.file, vec![5]);
            assert_eq!(got.origin_peer_id.to_base58(), "local");
        }
        _ => panic!("the record is not handed on"),
    }
    swarm.register(QueryKind::Get, 3);
    let found = GetRecordOutcome::Found { value: vec![5], peer: Some(peer("far")) };
    match swarm.handle_swarm_event(ended(3, QueryResult::GetRecord(found))).unwrap() {
        Reaction::Reply { reply: Reply::Record(got), .. } => {
            assert_eq!(got.origin_peer_id.to_base58(), "far")
        }
        _ => panic!("the record is not handed on"),
    }
    swarm.register(QueryKind::Get, 4);
    assert!(matches!(
        swarm.handle_swarm_event(ended(4, QueryResult::GetRecord(GetRecordOutcome::Finished))),
        Ok(Reaction::Reply { reply: Reply::Failed(ErrorKind::SwarmGetRecordUnknownError), .. })
    ));
    swarm.register(QueryKind::Get, 5);
    assert!(matches!(
        swarm.handle_swarm_event(ended(5, QueryResult::GetRecord(GetRecordOutcome::Failed))),
        Ok(Reaction::Reply { reply: Reply::Failed(ErrorKind::SwarmGetRecordError), .. })
    ));
    swarm.register(QueryKind::GetProviders, 6);
    let found = GetProvidersOutcome::Found { providers: vec![peer("a")] };
    match swarm.handle_swarm_event(ended(6, QueryResult::GetProviders(found))).unwrap() {
        Reaction::Reply { reply: Reply::Providers(providers), .. } => {
            assert_eq!(providers.len(), 1)
        }
        _ => panic!("the providers are not handed on"),
    }
    swarm.register(QueryKind::GetProviders, 7);
    assert!(matches!(
        swarm.handle_swarm_event(ended(7, QueryResult::GetProviders(GetProvidersOutcome::Finished))),
        Ok(Reaction::Reply { reply: Reply::Failed(ErrorKind::NoProvidersFound), .. })
    ));
    swarm.register(QueryKind::GetClosestPeers, 8);
    let peers = vec![peer("a"), peer("b"), peer("c")];
    match swarm.handle_swarm_event(ended(8, QueryResult::GetClosestPeers(Some(peers)))).unwrap() {
        Reaction::Reply { reply: Reply::ClosestPeers(peers), .. } => {
            let order: Vec<String> = peers.iter().map(|p| p.to_base58()).collect();
            assert_eq!(order, vec!["a", "b", "c"]);
        }
        _ => panic!("the closest peers are not handed on"),
    }
    swarm.register(QueryKind::StartProviding, 9);
    assert!(matches!(
        swarm.handle_swarm_event(ended(9, QueryResult::StartProviding(true))),
        Ok(Reaction::Reply { id: 9, kind: QueryKind::StartProviding, reply: Reply::Done })
    ));
    assert_eq!(swarm.pending(), 0);
}

#[test]
fn failed_lookup_drops_the_channel_and_the_entry() {
    let mut swarm = coordinator();
    swarm.register(QueryKind::GetProviders, 1);
    assert!(matches!(
        swarm.handle_swarm_event(ended(1, QueryResult::GetProviders(GetProvidersOutcome::Failed))),
        Err(ErrorKind::SwarmGetProvidersError)
    ));
    swarm.register(QueryKind::GetClosestPeers, 2);
    assert!(matches!(
        swarm.handle_swarm_event(ended(2, QueryResult::GetClosestPeers(None))),
        Err(ErrorKind::SwarmGetClosestPeersError)
    ));
    swarm.register(QueryKind::StartProviding, 3);
    assert!(matches!(
        swarm.handle_swarm_event(ended(3, QueryResult::StartProviding(false))),
        Err(ErrorKind::SwarmStartProvidingError)
    ));
    assert_eq!(swarm.pending(), 0);
}

#[test]
fn entry_of_another_kind_is_an_invalid_channel() {
    let mut swarm = coordinator();
    swarm.register(QueryKind::Get, 1);
    assert!(matches!(
        swarm.handle_swarm_event(ended(1, QueryResult::PutRecord(true))),
        Err(ErrorKind::InvalidResponseChannel(1))
    ));
    assert!(!swarm.awaits_query(1));
    swarm.register(QueryKind::Put, 2);
    assert!(matches!(
        swarm.handle_swarm_event(ended(2, QueryResult::GetClosestPeers(Some(Vec::new())))),
        Err(ErrorKind::InvalidResponseChannel(2))
    ));
    assert_eq!(swarm.pending(), 0);
}

#[test]
fn event_for_an_unknown_query_is_dropped() {
    let mut swarm = coordinator();
    assert!(matches!(
        swarm.handle_swarm_event(ended(1, QueryResult::PutRecord(true))),
        Ok(Reaction::Nothing)
    ));
    assert!(matches!(
        swarm.handle_swarm_event(SwarmEvent::InboundFailure { request_id: 1 }),
        Ok(Reaction::Nothing)
    ));
    swarm.register(QueryKind::Put, 1);
    assert!(matches!(
        swarm.handle_swarm_event(ended(1, QueryResult::Unhandled)),
        Ok(Reaction::Nothing)
    ));
    assert!(swarm.awaits_query(1));
    for event in [
        SwarmEvent::NewListenAddr,
        SwarmEvent::RoutingUpdated,
        SwarmEvent::InboundRequest,
        SwarmEvent::UnhandledKademlia,
        SwarmEvent::ResponseSent { request_id: 1 },
        SwarmEvent::Other,
    ] {
        assert!(matches!(swarm.handle_swarm_event(event), Ok(Reaction::Nothing)));
    }
    assert_eq!(swarm.pending(), 1);
}

#[test]
fn verification_request_is_answered_once() {
    let mut swarm = coordinator();
    swarm.register(QueryKind::VerificationRequest, 4);
    assert!(swarm.awaits_request(4));
    assert!(!swarm.awaits_query(4));
    let response = VerificationResponse { file_name: "f".to_string(), response_vector: vec![1] };
    let event = SwarmEvent::VerificationResponded { request_id: 4, response };
    match swarm.handle_swarm_event(event).unwrap() {
        Reaction::Reply {
            id: 4,
            kind: QueryKind::VerificationRequest,
            reply: Reply::Verification(response),
        } => assert_eq!(response.response_vector, vec![1]),
        _ => panic!("the response is not handed on"),
    }
    assert!(!swarm.awaits_request(4));
    swarm.register(QueryKind::VerificationRequest, 5);
    assert!(matches!(
        swarm.handle_swarm_event(SwarmEvent::OutboundFailure { request_id: 5 }),
        Ok(Reaction::Reply { id: 5, reply: Reply::Failed(ErrorKind::RequestOutboundFailure), .. })
    ));
    swarm.register(QueryKind::VerificationRequest, 6);
    assert!(matches!(
        swarm.handle_swarm_event(SwarmEvent::InboundFailure { request_id: 6 }),
        Ok(Reaction::Reply { id: 6, reply: Reply::Failed(ErrorKind::RequestInboundFailure), .. })
    ));
    assert_eq!(swarm.pending(), 0);
}

#[test]
fn discovered_peers_and_inbound_challenges_are_passed_on() {
    let mut swarm = coordinator();
    let event = SwarmEvent::MdnsDiscovered { peers: vec![(peer("a"), "/ip4/1.2.3.4".to_string())] };
    match swarm.handle_swarm_event(event).unwrap() {
        Reaction::AddAddresses { peers } => {
            assert_eq!(peers.len(), 1);
            assert_eq!(peers[0].1, "/ip4/1.2.3.4");
        }
        _ => panic!("the peers are not added"),
    }
    let request = VerificationRequest { file_name: "f".to_string(), challenge_vector: vec![3] };
    match swarm.handle_swarm_event(SwarmEvent::VerificationRequested { request }).unwrap() {
        Reaction::Serve { request } => assert_eq!(request.file_name, "f"),
        _ => panic!("the challenge is not served"),
    }
}

#[test]
fn challenge_is_answered_from_the_file() {
    let swarm = coordinator();
    let mut bench = Bench::new();
    let file = "abcdefghijklmnopqrstuvwxyz".as_bytes().to_vec();
    let client = VerificationClient::new(VerificationClientConfig::from_file(&file));
    let challenge = client.make_challenge_vector();
    let request =
        VerificationRequest { file_name: "f".to_string(), challenge_vector: challenge.clone() };
    let (response, deleted_at) =
        swarm.handle_reqres_message_request(&mut bench, Some(file), request);
    assert_eq!(response.file_name, "f");
    assert_eq!(response.response_vector, vec![81608923241646346]);
    assert_eq!(deleted_at, None);
    assert!(client.audit(challenge, response.response_vector));
}

#[test]
fn deleted_file_is_answered_with_nothing_and_fails_the_audit() {
    let swarm = coordinator();
    let mut bench = BenchProvider.invoke();
    let malice = kiss::malice::MaliceDeleteAll::new();
    malice.record(&mut bench, "f".to_string(), 1000);
    malice.record(&mut bench, "g".to_string(), 2000);
    assert_eq!(bench.len(), 2);
    let file = "abcdefghijklmnopqrstuvwxyz".as_bytes().to_vec();
    let client = VerificationClient::new(VerificationClientConfig::from_file(&file));
    let challenge = client.make_challenge_vector();
    let request =
        VerificationRequest { file_name: "f".to_string(), challenge_vector: challenge.clone() };
    let (response, deleted_at) = swarm.handle_reqres_message_request(&mut bench, None, request);
    assert_eq!(response.file_name, "f");
    assert!(response.response_vector.is_empty());
    assert_eq!(deleted_at, Some(1000));
    assert_eq!(bench.len(), 1);
    assert!(!client.audit(challenge.clone(), response.response_vector));
    let request = VerificationRequest { file_name: "f".to_string(), challenge_vector: challenge };
    let (_, deleted_at) = swarm.handle_reqres_message_request(&mut bench, None, request);
    assert_eq!(deleted_at, None);
    assert_eq!(bench.len(), 1);
}

#[test]
fn bench_keeps_one_time_for_each_path() {
    let mut bench = Bench::new();
    bench.insert("a".to_string(), 1);
    bench.insert("b".to_string(), 2);
    bench.insert("a".to_string(), 3);
    assert_eq!(bench.len(), 2);
    assert_eq!(bench.remove(&"a".to_string()), Some(3));
    assert_eq!(bench.remove(&"a".to_string()), None);
    assert_eq!(bench.remove(&"c".to_string()), None);
    assert_eq!(bench.remove(&"b".to_string()), Some(2));
    assert_eq!(bench.len(), 0);
}

#[test]
fn store_refuses_a_value_at_the_limit() {
    let config = LocalStoreConfig::default();
    assert_eq!(config.max_records, 1024);
    assert_eq!(config.max_value_bytes, 65 * 1024);
    assert_eq!(config.max_provided_keys, 1024);
    assert_eq!(config.max_providers_per_key, 20);
    assert_eq!(K_VALUE, 20);
    assert_eq!(K_VALUE, libp2p::kad::K_VALUE.get());
    let store = LocalStore::with_config(LocalStoreConfig { max_value_bytes: 3, ..config });
    let record = |value: Vec<u8>| Record { key: b"k".to_vec(), value, publisher: None, expires: None };
    assert_eq!(store.admits(&record(vec![1, 2])), Ok(()));
    assert_eq!(store.admits(&record(vec![1, 2, 3])), Err(StoreError::ValueTooLarge));
    assert_eq!(store.put(&record(vec![1, 2]), true), Ok(()));
    assert_eq!(store.put(&record(vec![1, 2]), false), Err(StoreError::MaxRecords));
    assert_eq!(store.put(&record(vec![1, 2, 3, 4]), true), Err(StoreError::ValueTooLarge));
}

#[test]
fn key_is_a_path_when_it_is_text() {
    assert_eq!(key_to_path(&b"some/file".to_vec()).unwrap(), "some/file");
    assert_eq!(key_to_path(&"päth".as_bytes().to_vec()).unwrap(), "päth");
    assert_eq!(key_to_path(&Vec::new()).unwrap(), "");
    assert!(matches!(key_to_path(&vec![0xff, 0xfe]), Err(ErrorKind::Utf8Error)));
}

#[test]
fn node_joins_the_swarm_with_its_configured_keypair() {
    let keypair = libp2p_identity::Keypair::generate_ed25519();
    let encoded = kiss::p2p::peer_id::keypair_to_base64_proto(
        kiss::p2p::peer_id::Keypair::from_protobuf(keypair.to_protobuf_encoding().unwrap()),
    );
    let setup = SwarmProvider.invoke(Some(encoded), 4001, 0).unwrap();
    assert_eq!(setup.local_key.to_protobuf(), keypair.to_protobuf_encoding().unwrap());
    assert_eq!(setup.listen_on, "/ip4/0.0.0.0/tcp/4001");
    assert_eq!(setup.protocol, "/verification/1.0.0");
    assert_eq!(setup.query_timeout, 60);
    assert_eq!(setup.max_packet_size, 1024 * 1024 * 1024);
    assert_eq!(setup.store.max_records, 150000);
    assert_eq!(setup.store.max_value_bytes, 1024 * 1024 * 1024);
    assert_eq!(setup.store.max_provided_keys, 150000);
    assert_eq!(setup.store.max_providers_per_key, 20);
    assert_eq!(setup.swarm.pending(), 0);
    assert!(matches!(
        SwarmProvider.invoke(Some("***".to_string()), 1, 0),
        Err(ErrorKind::KeypairBase64DecodeError)
    ));
    assert!(matches!(
        SwarmProvider.invoke(Some("AAAA".to_string()), 1, 0),
        Err(ErrorKind::KeypairBase64DecodingError)
    ));
    assert!(matches!(SwarmProvider.invoke(None, 1, 0), Err(ErrorKind::Generic(_))));
    let fresh = SwarmProvider.invoke(None, 65535, 10_000_000).unwrap();
    assert_eq!(fresh.listen_on, "/ip4/0.0.0.0/tcp/65535");
    let public = libp2p_identity::Keypair::from_protobuf_encoding(&fresh.local_key.to_protobuf())
        .unwrap()
        .public()
        .try_into_ed25519()
        .unwrap()
        .to_bytes();
    assert!(kiss::util::hasher::hash(&public).starts_with("00"));
}

#[test]
fn commands_are_named_in_the_log() {
    assert_eq!(CommandToSwarm::Get { key: "k".to_string() }.describe(), "Get(k)");
    assert_eq!(
        CommandToSwarm::PutLocal { key: "k".to_string(), value: vec![1] }.describe(),
        "PutLocal(k)"
    );
    assert_eq!(
        CommandToSwarm::PutRemote { key: "k".to_string(), value: vec![1], remotes: Vec::new() }
            .describe(),
        "PutRemote(k)"
    );
    assert_eq!(
        CommandToSwarm::StartProviding { key: "k".to_string() }.describe(),
        "StartProviding(k)"
    );
    assert_eq!(
        CommandToSwarm::GetProviders { key: "k".to_string() }.describe(),
        "GetProviders(k)"
    );
    assert_eq!(CommandToSwarm::GetClosestPeers { uuid: 5 }.describe(), "GetClosestPeers");
    let command = CommandToSwarm::RequestVerification {
        peer: peer("p"),
        file_uuid: "f".to_string(),
        challenge_vector: Vec::new(),
    };
    assert_eq!(command.describe(), "RequestVerification(p)");
}

#[test]
fn record_is_looked_up_at_the_path_of_its_key() {
    let store = LocalStore::with_config(LocalStoreConfig::default());
    assert_eq!(store.record_path(&b"a/b".to_vec()), Some("a/b".to_string()));
    assert_eq!(store.record_path(&vec![0x80]), None);
}

#[test]
fn caller_gets_the_value_it_waits_for() {
    let controller = kiss::p2p::controller::SwarmController;
    assert!(matches!(controller.put("k".to_string(), vec![1]), CommandToSwarm::PutLocal { .. }));
    assert!(matches!(
        controller.put_to("k".to_string(), vec![1], vec![peer("a")]),
        CommandToSwarm::PutRemote { remotes, .. } if remotes.len() == 1
    ));
    assert!(matches!(controller.get("k".to_string()), CommandToSwarm::Get { key } if key == "k"));
    assert!(matches!(
        controller.get_providers("k".to_string()),
        CommandToSwarm::GetProviders { .. }
    ));
    assert!(matches!(
        controller.start_providing("k".to_string()),
        CommandToSwarm::StartProviding { .. }
    ));
    assert!(matches!(
        controller.get_closest_peers(9),
        CommandToSwarm::GetClosestPeers { uuid: 9 }
    ));
    assert!(matches!(
        controller.request_verification(peer("p"), "f".to_string(), vec![2]),
        CommandToSwarm::RequestVerification { challenge_vector, .. } if challenge_vector == vec![2]
    ));
    assert!(Reply::Done.into_done().is_ok());
    assert!(matches!(
        Reply::Failed(ErrorKind::SwarmPutRecordError).into_done(),
        Err(ErrorKind::SwarmPutRecordError)
    ));
    assert!(matches!(
        Reply::Providers(Vec::new()).into_done(),
        Err(ErrorKind::SwarmGetRecordUnknownError)
    ));
    let response = VerificationResponse { file_name: "f".to_string(), response_vector: vec![4] };
    assert_eq!(Reply::Verification(response).into_response_vector().unwrap(), vec![4]);
    assert!(Reply::Done.into_response_vector().is_err());
    assert_eq!(Reply::ClosestPeers(vec![peer("a")]).into_closest_peers().unwrap().len(), 1);
    assert_eq!(Reply::Providers(vec![peer("a")]).into_providers().unwrap().len(), 1);
    assert!(Reply::Done.into_record().is_err());
}
