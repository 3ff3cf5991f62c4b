use vstd::prelude::*;

use crate::codec::{byte_list_json, encode_byte_list, parse_byte_list, parsed_byte_list};
use crate::errors::RunError;
use solana_sdk::signer::Signer;

verus! {

/// Whether `b` is a usable raw secret: 64 bytes whose upper half is the
/// public key derived from the lower-half seed. This is exactly what
/// `Keypair::try_from(&[u8])` accepts.
pub uninterp spec fn valid_secret(b: Seq<u8>) -> bool;

/// The public address carried by a valid secret: its upper 32 bytes.
pub open spec fn address_of(secret: Seq<u8>) -> Seq<u8> {
    secret.subrange(32, 64)
}

/// The base58 rendering of a 32-byte address; a function of the bytes alone.
pub uninterp spec fn base58_of_address(b: Seq<u8>) -> Seq<char>;

/// What base58 address parsing yields for `s`: `Some(bytes)` exactly when `s`
/// is the base58 form of 32 bytes, `None` on any other text.
pub uninterp spec fn base58_decoded(s: Seq<char>) -> Option<Seq<u8>>;

/// Relies on solana_sdk's Keypair::try_from(&[u8]): it succeeds exactly on the
/// 64-byte arrays that pair a seed with the public key derived from it.
#[verifier::external_body]
pub(crate) fn secret_is_valid(b: &Vec<u8>) -> (r: bool)
    ensures
        r == valid_secret(b@),
        r ==> b@.len() == 64,
{
    solana_sdk::signature::Keypair::try_from(b.as_slice()).is_ok()
}

/// Relies on solana_sdk's Keypair::new and Keypair::to_bytes: a freshly drawn
/// keypair serializes to 64 bytes, the seed followed by the public key derived
/// from it, which is exactly the shape Keypair::try_from accepts. Nothing is
/// assumed of which bytes the generator draws.
#[verifier::external_body]
pub(crate) fn generate_secret() -> (r: Vec<u8>)
    ensures
        r@.len() == 64,
        valid_secret(r@),
{
    solana_sdk::signature::Keypair::new().to_bytes().to_vec()
}

/// Relies on solana_sdk's Pubkey base58 Display: the rendering depends on the
/// 32 address bytes alone, and Pubkey::from_str reads it back to those bytes.
#[verifier::external_body]
pub(crate) fn address_to_base58(b: &Vec<u8>) -> (r: String)
    requires
        b@.len() == 32,
    ensures
        r@ == base58_of_address(b@),
        base58_decoded(r@) == Some(b@),
{
    let arr: [u8; 32] = b.as_slice().try_into().expect("length checked by the caller");
    solana_sdk::pubkey::Pubkey::from(arr).to_string()
}

/// The 64-byte Ed25519 signature of `msg` under the keypair `secret`. Ed25519
/// signing is deterministic, so this is a function of its arguments alone.
pub uninterp spec fn ed25519_signature(secret: Seq<u8>, msg: Seq<u8>) -> Seq<u8>;

/// Relies on solana_sdk's Signer::sign_message for Keypair (with
/// Keypair::try_from converting the raw secret, which every identity's
/// invariant keeps valid): deterministic Ed25519, 64 signature bytes.
#[verifier::external_body]
pub(crate) fn sign_bytes(id: &Identity, msg: &Vec<u8>) -> (r: Vec<u8>)
    ensures
        r@ == ed25519_signature(id@, msg@),
        r@.len() == 64,
{
    let kp = solana_sdk::signature::Keypair::try_from(id.secret.as_slice())
        .expect("an identity always carries a valid secret");
    kp.sign_message(msg.as_slice()).as_array().to_vec()
}

/// Relies on solana_sdk's Pubkey::from_str: it succeeds exactly on the base58
/// form of 32 bytes and yields those bytes.
#[verifier::external_body]
pub(crate) fn parse_address_base58(s: &str) -> (r: Option<Vec<u8>>)
    ensures
        match r {
            Some(b) => base58_decoded(s@) == Some(b@) && b@.len() == 32,
            None => base58_decoded(s@) is None,
        },
{
    match s.parse::<solana_sdk::pubkey::Pubkey>() {
        Ok(pk) => Some(pk.to_bytes().to_vec()),
        Err(_) => None,
    }
}

/// Reads a base58 address (or any other 32-byte base58 value, such as a
/// blockhash) back into its bytes; `None` exactly on text that is no such form.
pub fn decode_address(s: &str) -> (r: Option<Vec<u8>>)
    ensures
        r matches Some(b) ==> base58_decoded(s@) == Some(b@) && b@.len() == 32,
        r is None ==> base58_decoded(s@) is None,
{
    parse_address_base58(s)
}

/// The signing identity: an opaque pair of a private scalar and the public
/// address derived from it, held as the conventional 64 raw secret bytes.
pub struct Identity {
    secret: Vec<u8>,
}

impl View for Identity {
    type V = Seq<u8>;

    /// An identity is, mathematically, its raw secret bytes.
    closed spec fn view(&self) -> Seq<u8> {
        self.secret@
    }
}

impl Identity {
    #[verifier::type_invariant]
    spec fn inv(self) -> bool {
        self.secret@.len() == 64 && valid_secret(self.secret@)
    }

    /// Draws a fresh identity from the cryptographic generator.
    pub fn generate() -> (r: Identity)
        ensures
            r@.len() == 64,
            valid_secret(r@),
    {
        let secret = generate_secret();
        Identity { secret }
    }

    /// Reconstructs an identity from raw secret bytes, rejecting anything that
    /// is not a valid secret.
    pub fn from_secret_bytes(b: Vec<u8>) -> (r: Result<Identity, RunError>)
        ensures
            match r {
                Ok(id) => valid_secret(b@) && id@ == b@ && b@.len() == 64,
                Err(e) => e == RunError::MalformedKeyMaterial && !valid_secret(b@),
            },
    {
        if secret_is_valid(&b) {
            Ok(Identity { secret: b })
        } else {
            Err(RunError::MalformedKeyMaterial)
        }
    }

    /// A copy of the raw secret bytes.
    pub fn secret_bytes(&self) -> (r: Vec<u8>)
        ensures
            r@ == self@,
            r@.len() == 64,
            valid_secret(r@),
    {
        proof {
            use_type_invariant(&*self);
        }
        self.secret.clone()
    }

    /// The 32-byte public address: the upper half of the secret, where a valid
    /// secret carries the public key derived from its seed.
    pub fn address(&self) -> (r: Vec<u8>)
        ensures
            r@ == address_of(self@),
            r@.len() == 32,
    {
        proof {
            use_type_invariant(&*self);
        }
        let mut out: Vec<u8> = Vec::new();
        let mut i: usize = 32;
        while i < 64
            invariant
                32 <= i <= 64,
                self.secret@.len() == 64,
                out@ == self.secret@.subrange(32, i as int),
            decreases 64 - i,
        {
            out.push(self.secret[i]);
            proof {
                assert(out@ =~= self.secret@.subrange(32, i + 1 as int));
            }
            i = i + 1;
        }
        out
    }

    /// The public address in base58, as printed for the operator.
    pub fn address_base58(&self) -> (r: String)
        ensures
            r@ == base58_of_address(address_of(self@)),
            base58_decoded(r@) == Some(address_of(self@)),
    {
        let a = self.address();
        address_to_base58(&a)
    }

    /// The exact file body under which this identity is persisted: the
    /// conventional wallet format, a flat JSON list of the 64 secret bytes.
    pub fn encode_key_material(&self) -> (r: String)
        ensures
            r@ == byte_list_json(self@),
            parsed_byte_list(r@) == Some(self@),
    {
        proof {
            use_type_invariant(&*self);
        }
        encode_byte_list(&self.secret)
    }
}

/// Reads an identity back from a keypair file's text. Succeeds exactly when
/// the text is a JSON byte list holding a valid secret; everything else is
/// malformed key material.
pub fn decode_key_material(text: &str) -> (r: Result<Identity, RunError>)
    ensures
        match r {
            Ok(id) => {
                &&& parsed_byte_list(text@) == Some(id@)
                &&& valid_secret(id@)
                &&& id@.len() == 64
            },
            Err(e) => {
                &&& e == RunError::MalformedKeyMaterial
                &&& (match parsed_byte_list(text@) {
                    Some(b) => !valid_secret(b),
                    None => true,
                })
            },
        },
{
    match parse_byte_list(text) {
        Some(bytes) => Identity::from_secret_bytes(bytes),
        None => Err(RunError::MalformedKeyMaterial),
    }
}

/// The persisted address is invariant: every run that reads the same keypair
/// file text recovers the same secret, and with it the same public address.
/// With `obtain_identity`'s contract — a fresh run writes a text that reads
/// back to the generated secret, a returning run rewrites nothing — the
/// address printed on run two and on every later run equals the first one's.
pub proof fn lemma_stored_secret_determines_address(text: Seq<char>, s1: Seq<u8>, s2: Seq<u8>)
    requires
        parsed_byte_list(text) == Some(s1),
        parsed_byte_list(text) == Some(s2),
    ensures
        s1 == s2,
        address_of(s1) == address_of(s2),
        base58_of_address(address_of(s1)) == base58_of_address(address_of(s2)),
{
}

/// The identity store's one operation: materialize a signing identity.
///
/// `existing` carries the keypair file's text when the file is present.
/// On a returning run the stored secret is decoded and nothing is to be
/// written back, so repeated runs leave the on-disk secret untouched.
/// On a fresh run an identity is generated and the exact text to persist is
/// returned beside it; that text reads back to the very secret it encodes,
/// so the next run's address equals this one's.
pub fn obtain_identity(existing: Option<&str>) -> (r: Result<(Identity, Option<String>), RunError>)
    ensures
        match existing {
            Some(text) => match r {
                Ok(pair) => {
                    &&& parsed_byte_list(text@) == Some(pair.0@)
                    &&& valid_secret(pair.0@)
                    &&& pair.0@.len() == 64
                    &&& pair.1 is None
                },
                Err(e) => {
                    &&& e == RunError::MalformedKeyMaterial
                    &&& (match parsed_byte_list(text@) {
                        Some(b) => !valid_secret(b),
                        None => true,
                    })
                },
            },
            None => match r {
                Ok(pair) => {
                    &&& valid_secret(pair.0@)
                    &&& pair.0@.len() == 64
                    &&& pair.1 matches Some(payload)
                    &&& (pair.1 matches Some(payload) ==> {
                        &&& payload@ == byte_list_json(pair.0@)
                        &&& parsed_byte_list(payload@) == Some(pair.0@)
                    })
                },
                Err(_) => false,
            },
        },
{
    match existing {
        Some(text) => match decode_key_material(text) {
            Ok(id) => Ok((id, None)),
            Err(e) => Err(e),
        },
        None => {
            let id = Identity::generate();
            let payload = id.encode_key_material();
            Ok((id, Some(payload)))
        },
    }
}

} // verus!
