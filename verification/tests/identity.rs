use greeter::errors::RunError;
use greeter::keys::{decode_address, decode_key_material, obtain_identity, Identity};
use solana_sdk::signer::Signer;

#[test]
fn fresh_run_persists_a_sixty_four_byte_list() {
    let r = obtain_identity(None).expect("a fresh run always yields an identity");
    let (id, payload) = r;
    let payload = payload.expect("a fresh run hands back the text to persist");
    let listed: Vec<u8> =
        serde_json::from_str(&payload).expect("the persisted text is a JSON byte list");
    assert_eq!(listed.len(), 64);
    assert_eq!(listed, id.secret_bytes());
    assert!(payload.starts_with('['));
    assert!(payload.ends_with(']'));
}

#[test]
fn fresh_then_returning_run_keeps_the_address() {
    let (id, payload) = obtain_identity(None).expect("fresh run succeeds");
    let payload = payload.expect("fresh run persists");
    let (id2, write_back) =
        obtain_identity(Some(payload.as_str())).expect("the persisted text reads back");
    assert!(write_back.is_none(), "a returning run must not rewrite the file");
    assert_eq!(id.address(), id2.address());
    assert_eq!(id.address_base58(), id2.address_base58());
}

#[test]
fn returning_run_matches_a_known_secret() {
    let kp = solana_sdk::signature::Keypair::new();
    let text = serde_json::to_string(&kp.to_bytes().to_vec()).unwrap();
    let (id, write_back) = obtain_identity(Some(text.as_str())).expect("a wallet file reads back");
    assert!(write_back.is_none());
    assert_eq!(id.address(), kp.pubkey().to_bytes().to_vec());
    assert_eq!(id.address_base58(), kp.pubkey().to_string());
}

#[test]
fn corrupt_file_is_malformed_key_material() {
    let r = obtain_identity(Some("\"not-a-key\""));
    assert!(matches!(r, Err(RunError::MalformedKeyMaterial)));
}

#[test]
fn byte_list_that_is_no_secret_is_malformed() {
    let text = serde_json::to_string(&vec![0u8; 64]).unwrap();
    let r = decode_key_material(&text);
    assert!(matches!(r, Err(RunError::MalformedKeyMaterial)));
}

#[test]
fn wrong_length_list_is_malformed() {
    let r = decode_key_material("[1,2,3]");
    assert!(matches!(r, Err(RunError::MalformedKeyMaterial)));
}

#[test]
fn encoding_matches_the_reference_serializer() {
    let id = Identity::generate();
    let payload = id.encode_key_material();
    let reference = serde_json::to_string(&id.secret_bytes()).unwrap();
    assert_eq!(payload, reference);
}

#[test]
fn address_is_upper_half_of_the_secret() {
    let id = Identity::generate();
    let secret = id.secret_bytes();
    assert_eq!(id.address(), secret[32..64].to_vec());
}

#[test]
fn address_base58_round_trips() {
    let id = Identity::generate();
    let b58 = id.address_base58();
    let decoded = decode_address(&b58).expect("a printed address decodes");
    assert_eq!(decoded, id.address());
}

#[test]
fn garbage_is_no_address() {
    assert!(decode_address("not-base58!0OIl").is_none());
    assert!(decode_address("").is_none());
}
