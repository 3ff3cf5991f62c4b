use vstd::prelude::*;

use crate::keys::{address_of, ed25519_signature, sign_bytes, Identity};

verus! {

/// One instruction: a target program address, an opaque argument payload and
/// the list of referenced account addresses.
pub struct Instruction {
    /// 32-byte address of the program that executes this instruction.
    pub program: Vec<u8>,
    /// Serialized argument payload; the greeting carries the empty unit value.
    pub data: Vec<u8>,
    /// 32-byte addresses of the accounts the instruction touches.
    pub accounts: Vec<Vec<u8>>,
}

pub open spec fn instruction_wf(i: Instruction) -> bool {
    &&& i.program@.len() == 32
    &&& forall|k: int| 0 <= k < i.accounts@.len() ==> (#[trigger] i.accounts@[k])@.len() == 32
}

/// One signature over the transaction's message, tagged with its signer.
pub struct SignatureEntry {
    /// The 32-byte address of the signer.
    pub signer: Vec<u8>,
    /// The 64 Ed25519 signature bytes.
    pub bytes: Vec<u8>,
}

/// A transaction: an ordered list of instructions, a designated fee payer, a
/// recent blockhash sampled just before signing, and the signatures.
pub struct Transaction {
    pub instructions: Vec<Instruction>,
    /// The 32-byte address charged for inclusion; must be among the signers.
    pub fee_payer: Vec<u8>,
    /// Attached after construction, immediately before signing.
    pub recent_blockhash: Option<Vec<u8>>,
    pub signatures: Vec<SignatureEntry>,
}

pub open spec fn transaction_wf(t: Transaction) -> bool {
    &&& t.fee_payer@.len() == 32
    &&& (t.recent_blockhash matches Some(h) ==> h@.len() == 32)
    &&& (t.signatures@.len() > 0 ==> t.recent_blockhash is Some)
    &&& forall|k: int| 0 <= k < t.instructions@.len() ==> instruction_wf(#[trigger] t.instructions@[k])
}

/// The eight little-endian bytes of `n`.
pub open spec fn u64_le(n: u64) -> Seq<u8> {
    seq![
        (n & 0xff) as u8,
        ((n >> 8) & 0xff) as u8,
        ((n >> 16) & 0xff) as u8,
        ((n >> 24) & 0xff) as u8,
        ((n >> 32) & 0xff) as u8,
        ((n >> 40) & 0xff) as u8,
        ((n >> 48) & 0xff) as u8,
        ((n >> 56) & 0xff) as u8,
    ]
}

/// The given byte sequences, one after the other.
pub open spec fn concat_bytes(s: Seq<Seq<u8>>) -> Seq<u8>
    decreases s.len(),
{
    if s.len() == 0 {
        Seq::empty()
    } else {
        concat_bytes(s.drop_last()) + s.last()
    }
}

/// An account reference on the wire: its length, then its bytes.
pub open spec fn account_bytes(a: Seq<u8>) -> Seq<u8> {
    u64_le(a.len() as u64) + a
}

/// An instruction on the wire: the program address, the length-prefixed
/// payload, then the count-prefixed account references.
pub open spec fn instruction_bytes(i: Instruction) -> Seq<u8> {
    i.program@
        + u64_le(i.data@.len() as u64)
        + i.data@
        + u64_le(i.accounts@.len() as u64)
        + concat_bytes(i.accounts@.map_values(|a: Vec<u8>| account_bytes(a@)))
}

/// The message a signer commits to: fee payer, recent blockhash, then the
/// count-prefixed instructions. Meaningful only once a blockhash is attached.
pub open spec fn message_spec(t: Transaction) -> Seq<u8> {
    t.fee_payer@
        + (match t.recent_blockhash {
            Some(h) => h@,
            None => Seq::empty(),
        })
        + u64_le(t.instructions@.len() as u64)
        + concat_bytes(t.instructions@.map_values(|i: Instruction| instruction_bytes(i)))
}

/// Appends the eight little-endian bytes of `n`.
fn push_u64_le(out: &mut Vec<u8>, n: u64)
    ensures
        final(out)@ == old(out)@ + u64_le(n),
{
    proof {
        assert(n & 0xff < 256 && (n >> 8) & 0xff < 256 && (n >> 16) & 0xff < 256
            && (n >> 24) & 0xff < 256 && (n >> 32) & 0xff < 256 && (n >> 40) & 0xff < 256
            && (n >> 48) & 0xff < 256 && (n >> 56) & 0xff < 256) by (bit_vector);
    }
    out.push((n & 0xff) as u8);
    out.push(((n >> 8) & 0xff) as u8);
    out.push(((n >> 16) & 0xff) as u8);
    out.push(((n >> 24) & 0xff) as u8);
    out.push(((n >> 32) & 0xff) as u8);
    out.push(((n >> 40) & 0xff) as u8);
    out.push(((n >> 48) & 0xff) as u8);
    out.push(((n >> 56) & 0xff) as u8);
    proof {
        assert(out@ =~= old(out)@ + u64_le(n));
    }
}

/// Appends a copy of `bytes`.
fn push_bytes(out: &mut Vec<u8>, bytes: &Vec<u8>)
    ensures
        final(out)@ == old(out)@ + bytes@,
{
    let mut j: usize = 0;
    while j < bytes.len()
        invariant
            j <= bytes@.len(),
            out@ == old(out)@ + bytes@.take(j as int),
        decreases bytes@.len() - j,
    {
        out.push(bytes[j]);
        proof {
            assert(old(out)@ + bytes@.take(j + 1 as int)
                =~= (old(out)@ + bytes@.take(j as int)).push(bytes@[j as int]));
        }
        j = j + 1;
    }
    proof {
        assert(bytes@.take(bytes@.len() as int) =~= bytes@);
    }
}

/// Appends one instruction in its wire form.
fn push_instruction(out: &mut Vec<u8>, i: &Instruction)
    ensures
        final(out)@ == old(out)@ + instruction_bytes(*i),
{
    push_bytes(out, &i.program);
    push_u64_le(out, i.data.len() as u64);
    push_bytes(out, &i.data);
    push_u64_le(out, i.accounts.len() as u64);
    let ghost accs = i.accounts@.map_values(|a: Vec<u8>| account_bytes(a@));
    let ghost before = out@;
    let mut k: usize = 0;
    while k < i.accounts.len()
        invariant
            k <= i.accounts@.len(),
            accs == i.accounts@.map_values(|a: Vec<u8>| account_bytes(a@)),
            out@ == before + concat_bytes(accs.take(k as int)),
        decreases i.accounts@.len() - k,
    {
        push_u64_le(out, i.accounts[k].len() as u64);
        push_bytes(out, &i.accounts[k]);
        proof {
            assert(accs.take(k + 1 as int).drop_last() =~= accs.take(k as int));
            assert(out@ =~= before + concat_bytes(accs.take(k + 1 as int)));
        }
        k = k + 1;
    }
    proof {
        assert(accs.take(accs.len() as int) =~= accs);
        assert(out@ =~= old(out)@ + instruction_bytes(*i));
    }
}

impl Transaction {
    /// Builds an unsigned transaction around the given instructions, with the
    /// given fee payer and no blockhash yet.
    pub fn new_with_payer(instructions: Vec<Instruction>, fee_payer: Vec<u8>) -> (r: Transaction)
        ensures
            r.instructions@ == instructions@,
            r.fee_payer@ == fee_payer@,
            r.recent_blockhash is None,
            r.signatures@.len() == 0,
    {
        Transaction {
            instructions,
            fee_payer,
            recent_blockhash: None,
            signatures: Vec::new(),
        }
    }

    /// Attaches a recent blockhash. Only an unsigned transaction may take one,
    /// so every signature is made after the blockhash it commits to.
    pub fn attach_blockhash(&mut self, h: Vec<u8>)
        requires
            old(self).signatures@.len() == 0,
        ensures
            final(self).recent_blockhash matches Some(g) && g@ == h@,
            final(self).instructions@ == old(self).instructions@,
            final(self).fee_payer@ == old(self).fee_payer@,
            final(self).signatures@.len() == 0,
    {
        self.recent_blockhash = Some(h);
    }

    /// The exact bytes a signer commits to.
    pub fn message_bytes(&self) -> (r: Vec<u8>)
        requires
            self.recent_blockhash is Some,
        ensures
            r@ == message_spec(*self),
    {
        let mut out: Vec<u8> = Vec::new();
        push_bytes(&mut out, &self.fee_payer);
        match &self.recent_blockhash {
            Some(h) => push_bytes(&mut out, h),
            None => (),
        }
        push_u64_le(&mut out, self.instructions.len() as u64);
        let ghost instrs = self.instructions@.map_values(|i: Instruction| instruction_bytes(i));
        let ghost before = out@;
        let mut k: usize = 0;
        while k < self.instructions.len()
            invariant
                k <= self.instructions@.len(),
                instrs == self.instructions@.map_values(|i: Instruction| instruction_bytes(i)),
                out@ == before + concat_bytes(instrs.take(k as int)),
            decreases self.instructions@.len() - k,
        {
            push_instruction(&mut out, &self.instructions[k]);
            proof {
                assert(instrs.take(k + 1 as int).drop_last() =~= instrs.take(k as int));
                assert(out@ =~= before + concat_bytes(instrs.take(k + 1 as int)));
            }
            k = k + 1;
        }
        proof {
            assert(instrs.take(instrs.len() as int) =~= instrs);
            assert(out@ =~= message_spec(*self));
        }
        out
    }

    /// Signs the transaction with the identity, which becomes its only signer.
    /// A blockhash must already be attached.
    pub fn sign(&mut self, id: &Identity)
        requires
            old(self).recent_blockhash is Some,
            old(self).signatures@.len() == 0,
        ensures
            final(self).instructions@ == old(self).instructions@,
            final(self).fee_payer@ == old(self).fee_payer@,
            final(self).recent_blockhash == old(self).recent_blockhash,
            final(self).signatures@.len() == 1,
            final(self).signatures@[0].signer@ == address_of(id@),
            final(self).signatures@[0].bytes@ == ed25519_signature(id@, message_spec(*old(self))),
            final(self).signatures@[0].bytes@.len() == 64,
    {
        let msg = self.message_bytes();
        let sig = sign_bytes(id, &msg);
        let signer = id.address();
        self.signatures.push(SignatureEntry { signer, bytes: sig });
    }
}

/// What base58 signature parsing yields for `s`: `Some(bytes)` exactly when
/// `s` is the base58 form of 64 bytes, `None` on any other text.
pub uninterp spec fn base58_decoded_signature(s: Seq<char>) -> Option<Seq<u8>>;

/// Relies on solana_sdk's Signature::from_str: it succeeds exactly on the
/// base58 form of 64 bytes and yields those bytes.
#[verifier::external_body]
pub(crate) fn parse_signature_base58(s: &str) -> (r: Option<Vec<u8>>)
    ensures
        match r {
            Some(b) => base58_decoded_signature(s@) == Some(b@) && b@.len() == 64,
            None => base58_decoded_signature(s@) is None,
        },
{
    match s.parse::<solana_sdk::signature::Signature>() {
        Ok(sig) => Some(sig.as_array().to_vec()),
        Err(_) => None,
    }
}

/// Checks the signature string the network returned: well-formed exactly when
/// it decodes as a 64-byte value, which is then handed back.
pub fn decode_signature_string(s: &str) -> (r: Option<Vec<u8>>)
    ensures
        r matches Some(b) ==> b@.len() == 64 && base58_decoded_signature(s@) == Some(b@),
        r is None ==> base58_decoded_signature(s@) is None,
{
    parse_signature_base58(s)
}

/// The greeting instruction: the fixed program, a zero-byte payload and no
/// referenced accounts.
pub fn build_greeting_instruction(program: Vec<u8>) -> (r: Instruction)
    ensures
        r.program@ == program@,
        r.data@.len() == 0,
        r.accounts@.len() == 0,
{
    Instruction {
        program,
        data: Vec::new(),
        accounts: Vec::new(),
    }
}

/// The whole compute side of the submission: build the single greeting
/// instruction, wrap it in a transaction paid by the identity, attach the
/// fetched blockhash, and sign. The result is ready to be sent.
pub fn build_greeting_transaction(payer: &Identity, program: Vec<u8>, blockhash: Vec<u8>) -> (r: Transaction)
    requires
        program@.len() == 32,
        blockhash@.len() == 32,
    ensures
        r.instructions@.len() == 1,
        r.instructions@[0].program@ == program@,
        r.instructions@[0].data@.len() == 0,
        r.instructions@[0].accounts@.len() == 0,
        r.fee_payer@ == address_of(payer@),
        r.recent_blockhash matches Some(h) && h@ == blockhash@,
        r.signatures@.len() == 1,
        r.signatures@[0].signer@ == r.fee_payer@,
        r.signatures@[0].bytes@ == ed25519_signature(payer@, message_spec(r)),
        transaction_wf(r),
{
    let instruction = build_greeting_instruction(program);
    let mut instructions: Vec<Instruction> = Vec::new();
    instructions.push(instruction);
    let mut tx = Transaction::new_with_payer(instructions, payer.address());
    tx.attach_blockhash(blockhash);
    let ghost attached = tx;
    tx.sign(payer);
    proof {
        assert(message_spec(tx) =~= message_spec(attached));
    }
    tx
}

} // verus!
