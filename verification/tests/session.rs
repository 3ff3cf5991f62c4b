use greeter::errors::RunError;
use greeter::session::{advance, Phase, RpcEvent};

fn valid_signature_string() -> String {
    solana_sdk::signature::Signature::from([5u8; 64]).to_string()
}

#[test]
fn happy_path_reaches_done() {
    let p = Phase::Funding;
    let p = advance(p, RpcEvent::AirdropAccepted);
    assert!(matches!(p, Phase::ConfirmingAirdrop));
    let p = advance(p, RpcEvent::AirdropConfirmed);
    assert!(matches!(p, Phase::FetchingBlockhash));
    let p = advance(p, RpcEvent::BlockhashIs(vec![9u8; 32]));
    match &p {
        Phase::Submitting(h) => assert_eq!(h, &vec![9u8; 32]),
        _ => panic!("expected the submitting phase"),
    }
    let sig = valid_signature_string();
    let p = advance(p, RpcEvent::SendConfirmed(sig.clone()));
    match p {
        Phase::Done(s) => assert_eq!(s, sig),
        _ => panic!("expected the run to be done"),
    }
}

#[test]
fn malformed_confirmation_string_is_rejected() {
    let p = advance(
        Phase::Submitting(vec![9u8; 32]),
        RpcEvent::SendConfirmed("not-base58!".to_owned()),
    );
    assert!(matches!(p, Phase::Failed(RunError::SignatureRejected)));
}

#[test]
fn offline_validator_fails_the_airdrop_and_stays_failed() {
    let p = advance(Phase::Funding, RpcEvent::AirdropFailed);
    assert!(matches!(p, Phase::Failed(RunError::AirdropRejected)));
    let p = advance(p, RpcEvent::AirdropConfirmed);
    assert!(matches!(p, Phase::Failed(RunError::AirdropRejected)));
    let p = advance(p, RpcEvent::SendConfirmed(valid_signature_string()));
    assert!(matches!(p, Phase::Failed(RunError::AirdropRejected)));
}

#[test]
fn unconfirmed_airdrop_is_rejected() {
    let p = advance(Phase::ConfirmingAirdrop, RpcEvent::AirdropUnconfirmed);
    assert!(matches!(p, Phase::Failed(RunError::AirdropRejected)));
}

#[test]
fn blockhash_failure_is_blockhash_unavailable() {
    let p = advance(Phase::FetchingBlockhash, RpcEvent::BlockhashFailed);
    assert!(matches!(p, Phase::Failed(RunError::BlockhashUnavailable)));
}

#[test]
fn absent_program_rejects_the_submission() {
    let p = advance(Phase::Submitting(vec![9u8; 32]), RpcEvent::SendRejected);
    assert!(matches!(p, Phase::Failed(RunError::SignatureRejected)));
}

#[test]
fn submission_can_time_out() {
    let p = advance(Phase::Submitting(vec![9u8; 32]), RpcEvent::SendTimedOut);
    assert!(matches!(p, Phase::Failed(RunError::ConfirmationTimeout)));
}

#[test]
fn stray_answers_leave_the_phase_alone() {
    let p = advance(Phase::Funding, RpcEvent::BlockhashFailed);
    assert!(matches!(p, Phase::Funding));
    let p = advance(Phase::Done(valid_signature_string()), RpcEvent::SendRejected);
    assert!(matches!(p, Phase::Done(_)));
}

#[test]
fn error_descriptions_are_distinct() {
    let errs = [
        RunError::MalformedKeyMaterial,
        RunError::PersistenceFailure,
        RunError::AirdropRejected,
        RunError::BlockhashUnavailable,
        RunError::SignatureRejected,
        RunError::ConfirmationTimeout,
    ];
    for i in 0..errs.len() {
        for j in 0..errs.len() {
            if i != j {
                assert_ne!(errs[i].describe(), errs[j].describe());
            }
        }
    }
}

#[test]
fn descriptions_carry_the_fixed_wording() {
    assert_eq!(
        RunError::MalformedKeyMaterial.describe(),
        "existing keypair file does not hold a valid secret"
    );
    assert_eq!(
        RunError::SignatureRejected.describe(),
        "the transaction was rejected before landing"
    );
}
