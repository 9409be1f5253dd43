use kiss::p2p::peer_id::{
    configured_keypair, generate_keypair, generate_with_leading_zeros, has_leading_zeros,
    keypair_from_base64_proto, keypair_to_base64_proto, local_peer, Keypair,
};
use kiss::util::errors::ErrorKind;
use kiss::util::hasher::hash;
use kiss::util::types::Peer;

fn parsed(keypair: &Keypair) -> libp2p_identity::Keypair {
    libp2p_identity::Keypair::from_protobuf_encoding(&keypair.to_protobuf()).unwrap()
}

#[test]
fn test_generate_keypair() {}

#[test]
fn test_encode_decode() {
    let keypair = generate_keypair();
    let encoded = keypair_to_base64_proto(keypair.clone());
    let decoded = keypair_from_base64_proto(encoded);

    let first = parsed(&keypair).try_into_ed25519().unwrap();
    let decoded = parsed(&decoded.unwrap()).try_into_ed25519().unwrap();

    assert_eq!(first.public(), decoded.public());
    assert_eq!(first.secret().as_ref(), decoded.secret().as_ref());
}

#[test]
fn with_leading_zeros() {
    let keypair = generate_with_leading_zeros(2, 10_000_000).unwrap();
    let hashed = hash(
        parsed(&keypair)
            .public()
            .try_into_ed25519()
            .unwrap()
            .to_bytes()
            .as_slice(),
    );
    assert!(hashed.chars().take(2).all(|c| c == '0'));
}

#[test]
fn no_tries_give_no_keypair() {
    assert!(generate_with_leading_zeros(1, 0).is_none());
    assert!(generate_with_leading_zeros(0, 1).is_some());
}

#[test]
fn hash_is_hex_of_sha3_256() {
    assert_eq!(
        hash(b""),
        "a7ffc6f8bf1ed76651c14756a061d662f580ff4de43b49fa82d80a4b80f8434a"
    );
    assert_eq!(
        hash(b"abc"),
        "3a985da74fe225b2045c172d6bd390bd855f086e3e9d525b46bfe24511431532"
    );
    assert_eq!(
        hash(b"abcdefghijklmnopqrstuvwxyz"),
        "7cab2dc765e21b241dbc1c255ce620b29f527c6d5e7f5f843e56288f0d707521"
    );
}

#[test]
fn leading_zeros_are_counted_from_the_front() {
    assert!(has_leading_zeros("00ab", 2));
    assert!(has_leading_zeros("00ab", 0));
    assert!(!has_leading_zeros("00ab", 3));
    assert!(!has_leading_zeros("a00b", 1));
    assert!(has_leading_zeros("00", 5));
    assert!(has_leading_zeros("", 1));
}

#[test]
fn peer_is_parsed_from_base58() {
    let id = libp2p_identity::PeerId::random();
    let peer = Peer::parse(&id.to_base58()).unwrap();
    assert_eq!(peer.to_base58(), id.to_base58());
    assert!(peer.same(&Peer::new(id.to_base58())));
    assert!(!peer.same(&Peer::new(libp2p_identity::PeerId::random().to_base58())));
    assert!(matches!(Peer::parse("not a peer"), Err(ErrorKind::InvalidPeerId)));
    assert!(matches!(Peer::parse(""), Err(ErrorKind::InvalidPeerId)));
    assert!(matches!(Peer::parse("0OIl"), Err(ErrorKind::InvalidPeerId)));
}

#[test]
fn configured_keypair_names_its_peer() {
    let keypair = libp2p_identity::Keypair::generate_ed25519();
    let encoded = keypair_to_base64_proto(Keypair::from_protobuf(
        keypair.to_protobuf_encoding().unwrap(),
    ));
    assert!(!encoded.ends_with('='));
    let (found, peer) = configured_keypair(&encoded).unwrap();
    assert_eq!(found.to_protobuf(), keypair.to_protobuf_encoding().unwrap());
    assert_eq!(peer.to_base58(), keypair.public().to_peer_id().to_base58());
    assert_eq!(local_peer(&encoded).unwrap().to_base58(), peer.to_base58());
    assert_eq!(found.peer().unwrap().to_base58(), peer.to_base58());
}

#[test]
fn broken_keypair_texts_are_told_apart() {
    assert!(matches!(local_peer("***"), Err(ErrorKind::KeypairBase64DecodeError)));
    assert!(matches!(local_peer("AAAA"), Err(ErrorKind::KeypairBase64DecodingError)));
    assert!(matches!(configured_keypair("***"), Err(ErrorKind::KeypairBase64DecodeError)));
    assert!(matches!(
        keypair_from_base64_proto("***".to_string()),
        Err(ErrorKind::KeypairBase64DecodingError)
    ));
    assert!(matches!(
        keypair_from_base64_proto("AAAA".to_string()),
        Err(ErrorKind::KeypairBase64DecodingError)
    ));
    assert!(Keypair::from_protobuf(vec![1, 2, 3]).peer().is_none());
}

#[test]
fn errors_have_help_code_and_description() {
    assert_eq!(ErrorKind::DockerConnectionFailed.help(), "Is Docker running?");
    assert_eq!(ErrorKind::LocalStorageFail.help(), "Does the directory exist?");
    assert_eq!(ErrorKind::InvalidSql.help(), "No help available for this error");
    assert_eq!(ErrorKind::InvalidSql.code(), 1);
    assert_eq!(ErrorKind::DockerConnectionFailed.code(), 1);
    assert_eq!(ErrorKind::NoProvidersFound.describe(), "no providers found");
    assert_eq!(ErrorKind::Generic("boom".to_string()).describe(), "boom");
    assert_eq!(
        ErrorKind::InsufficientReputationToStake.describe(),
        "insufficient reputation to stake"
    );
}

#[test]
fn keypair_text_is_base64_without_padding() {
    assert_eq!(keypair_to_base64_proto(Keypair::from_protobuf(b"abcd".to_vec())), "YWJjZA");
    assert_eq!(keypair_to_base64_proto(Keypair::from_protobuf(Vec::new())), "");
    assert_eq!(keypair_to_base64_proto(Keypair::from_protobuf(vec![0xfb, 0xff])), "+/8");
}

#[test]
fn generated_keypair_is_an_ed25519_keypair_of_a_peer() {
    for _ in 0..20 {
        let keypair = generate_keypair();
        let decoded = parsed(&keypair);
        assert!(decoded.clone().try_into_ed25519().is_ok());
        assert_eq!(
            keypair.peer().unwrap().to_base58(),
            decoded.public().to_peer_id().to_base58()
        );
        assert!(keypair.qualifies(0));
    }
}

#[test]
fn keypair_qualifies_by_the_hash_of_its_public_key() {
    let keypair = generate_keypair();
    let public = parsed(&keypair).public().try_into_ed25519().unwrap().to_bytes();
    let hashed = hash(&public);
    let zeros = hashed.chars().take_while(|c| *c == '0').count();
    assert!(keypair.qualifies(zeros));
    assert!(!keypair.qualifies(zeros + 1));
    assert!(!Keypair::from_protobuf(vec![1, 2, 3]).qualifies(0));
    assert!(!Keypair::from_protobuf(Vec::new()).qualifies(0));
    let found = generate_with_leading_zeros(1, 1_000_000).unwrap();
    assert!(found.qualifies(1));
    assert!(generate_with_leading_zeros(0, 1).unwrap().qualifies(0));
}

#[test]
fn hexadecimal_form_has_two_lower_case_digits_for_each_byte() {
    let all: Vec<u8> = (0..=255u8).collect();
    assert_eq!(kiss::util::hasher::hex_encode(&all), hex::encode(&all));
    assert_eq!(kiss::util::hasher::hex_encode(&vec![1, 2, 3, 15, 16]), "0102030f10");
    assert_eq!(kiss::util::hasher::hex_encode(&vec![0xf9, 0xb4, 0xca]), "f9b4ca");
    assert_eq!(kiss::util::hasher::hex_encode(&Vec::new()), "");
}
