use vstd::prelude::*;

use crate::errors::RunError;
use crate::greeting::{base58_decoded_signature, decode_signature_string};

verus! {

/// Where the run stands in its strictly sequential conversation with the RPC
/// node, once the identity is in hand.
pub enum Phase {
    /// The airdrop request is about to be, or has just been, sent.
    Funding,
    /// The airdrop was accepted; its confirmation is being awaited.
    ConfirmingAirdrop,
    /// Funding is confirmed; a recent blockhash is being fetched.
    FetchingBlockhash,
    /// A blockhash is in hand; the signed transaction is being submitted.
    Submitting(Vec<u8>),
    /// The transaction confirmed; the base58 signature string is the result,
    /// checked on entry to decode as a 64-byte value.
    Done(String),
    /// The run failed; nothing further is attempted.
    Failed(RunError),
}

/// What the RPC node answered to the step just performed.
pub enum RpcEvent {
    /// The airdrop request returned a signature.
    AirdropAccepted,
    /// The airdrop request itself failed (for one, an unreachable validator).
    AirdropFailed,
    /// The airdrop's confirmation poll reported the credit landed.
    AirdropConfirmed,
    /// The confirmation poll failed or gave up.
    AirdropUnconfirmed,
    /// A recent blockhash arrived.
    BlockhashIs(Vec<u8>),
    /// The blockhash fetch failed.
    BlockhashFailed,
    /// The submitted transaction confirmed, with the signature string the
    /// node returned (not yet checked for well-formedness).
    SendConfirmed(String),
    /// The transaction was rejected before landing.
    SendRejected,
    /// The transaction was submitted but never confirmed.
    SendTimedOut,
}

/// The full decision table of the run: which phase follows which answer.
/// An answer that does not belong to the current phase leaves it unchanged.
pub open spec fn advance_spec(p: Phase, e: RpcEvent) -> Phase {
    match p {
        Phase::Funding => match e {
            RpcEvent::AirdropAccepted => Phase::ConfirmingAirdrop,
            RpcEvent::AirdropFailed => Phase::Failed(RunError::AirdropRejected),
            _ => p,
        },
        Phase::ConfirmingAirdrop => match e {
            RpcEvent::AirdropConfirmed => Phase::FetchingBlockhash,
            RpcEvent::AirdropUnconfirmed => Phase::Failed(RunError::AirdropRejected),
            _ => p,
        },
        Phase::FetchingBlockhash => match e {
            RpcEvent::BlockhashIs(h) => Phase::Submitting(h),
            RpcEvent::BlockhashFailed => Phase::Failed(RunError::BlockhashUnavailable),
            _ => p,
        },
        Phase::Submitting(_) => match e {
            RpcEvent::SendConfirmed(s) => if base58_decoded_signature(s@) is Some {
                Phase::Done(s)
            } else {
                Phase::Failed(RunError::SignatureRejected)
            },
            RpcEvent::SendRejected => Phase::Failed(RunError::SignatureRejected),
            RpcEvent::SendTimedOut => Phase::Failed(RunError::ConfirmationTimeout),
            _ => p,
        },
        Phase::Done(_) => p,
        Phase::Failed(_) => p,
    }
}

/// Performs one step of the decision table. The caller does the outside work
/// (the RPC call the phase names) and hands back what the node answered.
pub fn advance(p: Phase, e: RpcEvent) -> (r: Phase)
    ensures
        r == advance_spec(p, e),
{
    match p {
        Phase::Funding => match e {
            RpcEvent::AirdropAccepted => Phase::ConfirmingAirdrop,
            RpcEvent::AirdropFailed => Phase::Failed(RunError::AirdropRejected),
            _ => Phase::Funding,
        },
        Phase::ConfirmingAirdrop => match e {
            RpcEvent::AirdropConfirmed => Phase::FetchingBlockhash,
            RpcEvent::AirdropUnconfirmed => Phase::Failed(RunError::AirdropRejected),
            _ => Phase::ConfirmingAirdrop,
        },
        Phase::FetchingBlockhash => match e {
            RpcEvent::BlockhashIs(h) => Phase::Submitting(h),
            RpcEvent::BlockhashFailed => Phase::Failed(RunError::BlockhashUnavailable),
            _ => Phase::FetchingBlockhash,
        },
        Phase::Submitting(h) => match e {
            RpcEvent::SendConfirmed(s) => match decode_signature_string(s.as_str()) {
                Some(_) => Phase::Done(s),
                None => Phase::Failed(RunError::SignatureRejected),
            },
            RpcEvent::SendRejected => Phase::Failed(RunError::SignatureRejected),
            RpcEvent::SendTimedOut => Phase::Failed(RunError::ConfirmationTimeout),
            _ => Phase::Submitting(h),
        },
        Phase::Done(s) => Phase::Done(s),
        Phase::Failed(err) => Phase::Failed(err),
    }
}

/// The phase after a whole sequence of answers, first answer first.
pub open spec fn run_spec(p: Phase, events: Seq<RpcEvent>) -> Phase
    decreases events.len(),
{
    if events.len() == 0 {
        p
    } else {
        run_spec(advance_spec(p, events.first()), events.drop_first())
    }
}

/// A failed run stays failed: no sequence of further answers leaves `Failed`,
/// so nothing is attempted after a failure surfaces.
pub proof fn lemma_failure_is_final(err: RunError, events: Seq<RpcEvent>)
    ensures
        run_spec(Phase::Failed(err), events) == Phase::Failed(err),
    decreases events.len(),
{
    if events.len() > 0 {
        lemma_failure_is_final(err, events.drop_first());
    }
}

/// An unreachable validator fails the run at the airdrop step, and no
/// transaction is attempted afterwards: from `Funding`, once the airdrop
/// request fails, every continuation is `Failed(AirdropRejected)` — in
/// particular the run never reaches `Submitting` or `Done`.
pub proof fn lemma_offline_validator_stops_before_submission(events: Seq<RpcEvent>)
    ensures
        run_spec(Phase::Funding, seq![RpcEvent::AirdropFailed] + events)
            == Phase::Failed(RunError::AirdropRejected),
    decreases events.len(),
{
    let all = seq![RpcEvent::AirdropFailed] + events;
    assert(all.first() == RpcEvent::AirdropFailed);
    assert(all.drop_first() =~= events);
    lemma_failure_is_final(RunError::AirdropRejected, events);
}

/// A finished run stays finished: no further answer leaves `Done` or changes
/// the signature string it carries.
pub proof fn lemma_done_is_final(s: String, events: Seq<RpcEvent>)
    ensures
        run_spec(Phase::Done(s), events) == Phase::Done(s),
    decreases events.len(),
{
    if events.len() > 0 {
        lemma_done_is_final(s, events.drop_first());
    }
}

/// The signature string a finished run returns is well-formed: whenever a
/// sequence of answers carries the machine from any unfinished phase to
/// `Done(s)`, the string `s` decodes as a base58 signature — `Done` is entered
/// only through a confirmed send whose string parses.
pub proof fn lemma_done_signature_decodes(p: Phase, events: Seq<RpcEvent>, s: String)
    requires
        !(p is Done),
        run_spec(p, events) == Phase::Done(s),
    ensures
        base58_decoded_signature(s@) is Some,
    decreases events.len(),
{
    assert(events.len() > 0);
    let q = advance_spec(p, events.first());
    if q is Done {
        lemma_done_signature_decodes_one_step(p, events.first(), s, events);
    } else {
        lemma_done_signature_decodes(q, events.drop_first(), s);
    }
}

/// One step of the induction above: a single answer that moves an unfinished
/// phase to `Done(s)` can only be a confirmed send whose string parses.
proof fn lemma_done_signature_decodes_one_step(p: Phase, e: RpcEvent, s: String, events: Seq<RpcEvent>)
    requires
        !(p is Done),
        events.len() > 0,
        events.first() == e,
        advance_spec(p, e) is Done,
        run_spec(p, events) == Phase::Done(s),
    ensures
        base58_decoded_signature(s@) is Some,
{
    match advance_spec(p, e) {
        Phase::Done(t) => {
            lemma_done_is_final(t, events.drop_first());
            assert(t == s);
            assert(p is Submitting);
            assert(e matches RpcEvent::SendConfirmed(u) && u == s);
        },
        _ => {
            assert(false);
        },
    }
}

/// A run completes only through the submission step: whenever a sequence of
/// answers carries the machine from `Funding` to `Done`, the machine stood in
/// `Submitting` at some point, with the transaction confirmed from there.
pub proof fn lemma_done_only_after_submission(p: Phase, events: Seq<RpcEvent>)
    requires
        !(p is Done),
        !(p is Submitting),
        run_spec(p, events) is Done,
    ensures
        exists|k: int|
            0 <= k < events.len() && #[trigger] run_spec(p, events.take(k)) is Submitting,
    decreases events.len(),
{
    assert(events.len() > 0);
    let q = advance_spec(p, events.first());
    assert(events.take(1).first() == events.first());
    assert(events.take(1).drop_first() =~= Seq::<RpcEvent>::empty());
    reveal_with_fuel(run_spec, 2);
    assert(run_spec(p, events.take(1)) == q);
    if q is Submitting {
        assert(run_spec(p, events.take(1)) is Submitting);
    } else {
        assert(!(q is Done));
        lemma_done_only_after_submission(q, events.drop_first());
        let k0 = choose|k: int|
            0 <= k < events.drop_first().len()
                && #[trigger] run_spec(q, events.drop_first().take(k)) is Submitting;
        assert(events.take(k0 + 1).first() == events.first());
        assert(events.take(k0 + 1).drop_first() =~= events.drop_first().take(k0));
        assert(run_spec(p, events.take(k0 + 1)) is Submitting);
    }
}

} // verus!
