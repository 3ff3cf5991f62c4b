use vstd::prelude::*;

verus! {

/// Every failure the program can surface, one variant per externally
/// observable failure point.
#[derive(Clone, Copy, Debug, PartialEq, Eq, Structural)]
pub enum RunError {
    /// An existing keypair file is unreadable or does not hold a valid secret.
    MalformedKeyMaterial,
    /// A freshly generated keypair could not be written to disk.
    PersistenceFailure,
    /// The validator refused the airdrop, or its confirmation never arrived.
    AirdropRejected,
    /// The recent-blockhash fetch failed.
    BlockhashUnavailable,
    /// The submitted transaction was rejected before landing.
    SignatureRejected,
    /// The transaction was submitted but never confirmed in the client's window.
    ConfirmationTimeout,
}

impl RunError {
    /// A short diagnostic line for the operator, fixed per variant.
    pub fn describe(&self) -> (r: &'static str)
        ensures
            *self is MalformedKeyMaterial
                ==> r@ == "existing keypair file does not hold a valid secret"@,
            *self is PersistenceFailure
                ==> r@ == "could not write the freshly generated keypair"@,
            *self is AirdropRejected
                ==> r@ == "the validator declined the airdrop or never confirmed it"@,
            *self is BlockhashUnavailable
                ==> r@ == "could not fetch a recent blockhash"@,
            *self is SignatureRejected
                ==> r@ == "the transaction was rejected before landing"@,
            *self is ConfirmationTimeout
                ==> r@ == "the transaction was not confirmed in time"@,
    {
        match self {
            RunError::MalformedKeyMaterial => "existing keypair file does not hold a valid secret",
            RunError::PersistenceFailure => "could not write the freshly generated keypair",
            RunError::AirdropRejected => "the validator declined the airdrop or never confirmed it",
            RunError::BlockhashUnavailable => "could not fetch a recent blockhash",
            RunError::SignatureRejected => "the transaction was rejected before landing",
            RunError::ConfirmationTimeout => "the transaction was not confirmed in time",
        }
    }
}

} // verus!
