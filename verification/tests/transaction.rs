use greeter::greeting::{build_greeting_transaction, decode_signature_string};
use greeter::keys::Identity;
use greeter::{default_config, program_address_base58, AIRDROP_LAMPORTS};

#[test]
fn greeting_transaction_has_the_required_shape() {
    let id = Identity::generate();
    let program = vec![7u8; 32];
    let blockhash = vec![9u8; 32];
    let tx = build_greeting_transaction(&id, program.clone(), blockhash.clone());

    assert_eq!(tx.instructions.len(), 1);
    assert_eq!(tx.instructions[0].program, program);
    assert!(tx.instructions[0].data.is_empty());
    assert!(tx.instructions[0].accounts.is_empty());
    assert_eq!(tx.fee_payer, id.address());
    assert_eq!(tx.recent_blockhash.as_deref(), Some(blockhash.as_slice()));
    assert_eq!(tx.signatures.len(), 1);
    assert_eq!(tx.signatures[0].signer, tx.fee_payer);
    assert_eq!(tx.signatures[0].bytes.len(), 64);
}

#[test]
fn greeting_signature_verifies_over_the_message() {
    let id = Identity::generate();
    let tx = build_greeting_transaction(&id, vec![7u8; 32], vec![9u8; 32]);
    let message = tx.message_bytes();
    let sig_bytes: [u8; 64] = tx.signatures[0].bytes.as_slice().try_into().unwrap();
    let sig = solana_sdk::signature::Signature::from(sig_bytes);
    assert!(sig.verify(&id.address(), &message));
    let mut other = message.clone();
    other[0] ^= 1;
    assert!(!sig.verify(&id.address(), &other));
}

#[test]
fn message_carries_payer_blockhash_and_instruction() {
    let id = Identity::generate();
    let program = vec![7u8; 32];
    let blockhash = vec![9u8; 32];
    let tx = build_greeting_transaction(&id, program.clone(), blockhash.clone());
    let message = tx.message_bytes();

    let mut expected = Vec::new();
    expected.extend_from_slice(&id.address());
    expected.extend_from_slice(&blockhash);
    expected.extend_from_slice(&1u64.to_le_bytes());
    expected.extend_from_slice(&program);
    expected.extend_from_slice(&0u64.to_le_bytes());
    expected.extend_from_slice(&0u64.to_le_bytes());
    assert_eq!(message, expected);
}

#[test]
fn returned_signature_decodes_as_sixty_four_bytes() {
    let sig = solana_sdk::signature::Signature::from([5u8; 64]);
    let s = sig.to_string();
    let decoded = decode_signature_string(&s).expect("a signature string decodes");
    assert_eq!(decoded, vec![5u8; 64]);
    assert!(decode_signature_string("definitely-not-base58!").is_none());
}

#[test]
fn default_config_holds_the_fixed_options() {
    let c = default_config().expect("the built-in program address decodes");
    assert_eq!(c.endpoint, "http://127.0.0.1:8899");
    assert_eq!(c.keypair_path, "./payer-keypair.json");
    assert_eq!(c.airdrop_lamports, 1_000_000_000);
    assert_eq!(c.airdrop_lamports, AIRDROP_LAMPORTS);
    let reference: solana_sdk::pubkey::Pubkey = program_address_base58().parse().unwrap();
    assert_eq!(c.program_address, reference.to_bytes().to_vec());
}
