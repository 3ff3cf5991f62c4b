//! A verified library behind a small local-validator greeting program.
//!
//! It materializes a signing identity from a wallet file (creating and
//! persisting one on the first run), models the funding and submission
//! conversation with the RPC node as a state machine, and builds the signed
//! one-instruction greeting transaction.

use vstd::prelude::*;

pub mod codec;
pub mod errors;
pub mod greeting;
pub mod keys;
pub mod session;

verus! {

/// Environment hook retained for future extension; no variable is consulted.
pub fn load_env() {
}

/// The fixed number of lamports requested from the test validator: one whole token.
pub const AIRDROP_LAMPORTS: u64 = 1_000_000_000;

/// The runtime options, fixed in this design but carried as a record.
pub struct Config {
    /// HTTP endpoint of the RPC node.
    pub endpoint: String,
    /// Where the payer's keypair file lives.
    pub keypair_path: String,
    /// How many lamports the funding step requests.
    pub airdrop_lamports: u64,
    /// The 32-byte address of the on-chain program to greet.
    pub program_address: Vec<u8>,
}

pub open spec fn config_wf(c: Config) -> bool {
    c.program_address@.len() == 32
}

/// The base58 form of the fixed target program address.
pub fn program_address_base58() -> (r: &'static str)
    ensures
        r@ == "5DBFd6y14vp7ZpAx3CCURMG9w6t23uvgXXxJf2sgWChK"@,
{
    "5DBFd6y14vp7ZpAx3CCURMG9w6t23uvgXXxJf2sgWChK"
}

/// The hard-coded options of this design: the local test validator, the
/// conventional wallet path, a one-token airdrop and the fixed program.
/// Returns `None` exactly when the built-in program address fails to decode,
/// which a run cannot reach.
pub fn default_config() -> (r: Option<Config>)
    ensures
        r is None ==> keys::base58_decoded(
            "5DBFd6y14vp7ZpAx3CCURMG9w6t23uvgXXxJf2sgWChK"@) is None,
        r matches Some(c) ==> {
            &&& c.endpoint@ == "http://127.0.0.1:8899"@
            &&& c.keypair_path@ == "./payer-keypair.json"@
            &&& c.airdrop_lamports == AIRDROP_LAMPORTS
            &&& config_wf(c)
            &&& keys::base58_decoded("5DBFd6y14vp7ZpAx3CCURMG9w6t23uvgXXxJf2sgWChK"@)
                == Some(c.program_address@)
        },
{
    let program = keys::decode_address(program_address_base58());
    match program {
        Some(program_address) => Some(Config {
            endpoint: "http://127.0.0.1:8899".to_owned(),
            keypair_path: "./payer-keypair.json".to_owned(),
            airdrop_lamports: AIRDROP_LAMPORTS,
            program_address,
        }),
        None => None,
    }
}

} // verus!
