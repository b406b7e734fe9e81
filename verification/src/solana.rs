//! Solana's keys, hashes, signatures and transactions, and what the Solana,
//! base64, bs58 and bincode crates compute on them.
//!
//! Every item of this file that Verus does not prove is marked
//! `external_body` or `uninterp`; its doc comment says what is taken on trust.

use vstd::bytes::*;
use vstd::prelude::*;

verus! {

/// The address of an account.
#[derive(Clone, Copy, Debug, PartialEq, Eq)]
pub struct Pubkey {
    pub bytes: [u8; 32],
}

/// The hash of a block.
#[derive(Clone, Copy, Debug, PartialEq, Eq)]
pub struct Blockhash {
    pub bytes: [u8; 32],
}

/// A signature over a transaction's message.
#[derive(Clone, Copy, Debug, PartialEq, Eq)]
pub struct Signature {
    pub bytes: [u8; 64],
}

impl View for Pubkey {
    type V = Seq<u8>;

    open spec fn view(&self) -> Seq<u8> {
        self.bytes@
    }
}

impl View for Blockhash {
    type V = Seq<u8>;

    open spec fn view(&self) -> Seq<u8> {
        self.bytes@
    }
}

impl View for Signature {
    type V = Seq<u8>;

    open spec fn view(&self) -> Seq<u8> {
        self.bytes@
    }
}

impl Signature {
    /// Whether two signatures are the same bytes.
    pub fn same(&self, other: &Signature) -> (same: bool)
        ensures
            same == (self@ == other@),
    {
        for i in 0..64usize
            invariant
                forall|j: int| 0 <= j < i ==> self.bytes@[j] == other.bytes@[j],
        {
            if self.bytes[i] != other.bytes[i] {
                assert(self@[i as int] != other@[i as int]);
                return false;
            }
        }
        assert(self@ =~= other@);
        true
    }

    /// The signature that a run of bytes holds; there is one where the bytes
    /// are 64.
    pub fn from_bytes(bytes: &Vec<u8>) -> (out: Option<Signature>)
        ensures
            match out {
                Some(s) => bytes@.len() == 64 && s@ == bytes@,
                None => bytes@.len() != 64,
            },
    {
        if bytes.len() != 64 {
            return None;
        }
        let mut raw: [u8; 64] = [0u8;64];
        for i in 0..64usize
            invariant
                bytes@.len() == 64,
                forall|j: int| 0 <= j < i ==> raw@[j] == bytes@[j],
        {
            raw[i] = bytes[i];
        }
        assert(raw@ =~= bytes@);
        Some(Signature { bytes: raw })
    }
}

// ---------------------------------------------------------------------------
// Types of other crates
// ---------------------------------------------------------------------------

/// What bincode reports when it cannot read or write a value.
#[verifier::external_type_specification]
#[verifier::external_body]
pub struct ExBincodeErrorKind(bincode::ErrorKind);

/// What base64 reports when it cannot decode a text.
#[verifier::external_type_specification]
#[verifier::external_body]
pub struct ExBase64DecodeError(base64::DecodeError);

/// What bs58 reports when it cannot decode a text.
#[verifier::external_type_specification]
#[verifier::external_body]
pub struct ExBase58DecodeError(bs58::decode::Error);

/// What the Solana SDK reports of a malformed transaction.
#[verifier::external_type_specification]
#[verifier::external_body]
pub struct ExSanitizeError(solana_sdk::sanitize::SanitizeError);

/// What the Solana SDK reports of a transaction that does not verify.
#[verifier::external_type_specification]
#[verifier::external_body]
pub struct ExTransactionError(solana_sdk::transaction::TransactionError);

/// What the Solana SDK reports when a message does not compile.
#[verifier::external_type_specification]
#[verifier::external_body]
pub struct ExCompileError(solana_sdk::message::CompileError);

/// What the Solana SDK reports when signing fails.
#[verifier::external_type_specification]
#[verifier::external_body]
pub struct ExSignerError(solana_sdk::signer::SignerError);

/// What the Solana SDK reports of a text that is no address.
#[verifier::external_type_specification]
#[verifier::external_body]
pub struct ExParsePubkeyError(solana_sdk::pubkey::ParsePubkeyError);

/// What the Solana SDK reports of a text that is no hash.
#[verifier::external_type_specification]
#[verifier::external_body]
pub struct ExParseHashError(solana_sdk::hash::ParseHashError);

// ---------------------------------------------------------------------------
// Text encodings
// ---------------------------------------------------------------------------

/// What the standard base64 alphabet with padding decodes a text to.
pub uninterp spec fn base64_bytes(text: Seq<char>) -> Option<Seq<u8>>;

/// The base64 text of some bytes.
pub uninterp spec fn base64_text(bytes: Seq<u8>) -> Seq<char>;

/// What base58 decodes a text to.
pub uninterp spec fn base58_bytes(text: Seq<char>) -> Option<Seq<u8>>;

/// The address that a text stands for.
pub uninterp spec fn address_bytes(text: Seq<char>) -> Option<Seq<u8>>;

/// The text of an address.
pub uninterp spec fn address_text(bytes: Seq<u8>) -> Seq<char>;

/// The hash that a text stands for.
pub uninterp spec fn hash_bytes(text: Seq<char>) -> Option<Seq<u8>>;

/// The text of a hash.
pub uninterp spec fn hash_text(bytes: Seq<u8>) -> Seq<char>;

/// The text of a signature.
pub uninterp spec fn signature_text(bytes: Seq<u8>) -> Seq<char>;

/// `base64::Engine::decode` of the standard engine: its result is a function of
/// the text, named `base64_bytes`.
#[verifier::external_body]
pub(crate) fn base64_decode(text: &str) -> (out: Result<Vec<u8>, base64::DecodeError>)
    ensures
        match out {
            Ok(bytes) => base64_bytes(text@) == Some(bytes@),
            Err(_) => base64_bytes(text@) is None,
        },
{
    base64::Engine::decode(&base64::engine::general_purpose::STANDARD, text)
}

/// The characters of base64: letters, digits, `+`, `/` and `=`.
pub open spec fn is_base64_char(c: char) -> bool {
    let n = c as u32;
    ||| 65 <= n <= 90
    ||| 97 <= n <= 122
    ||| 47 <= n <= 57
    ||| n == 43
    ||| n == 61
}

/// `base64::Engine::encode` of the standard engine: its result is a function of
/// the bytes, named `base64_text`, decodes to those bytes, and holds only the
/// characters of base64. The call panics where the length of the text overflows.
#[verifier::external_body]
pub(crate) fn base64_encode(bytes: &Vec<u8>) -> (out: String)
    requires
        bytes@.len() <= 0x1000_0000,
    ensures
        out@ == base64_text(bytes@),
        base64_bytes(out@) == Some(bytes@),
        forall|i: int| 0 <= i < out@.len() ==> is_base64_char(#[trigger] out@[i]),
{
    base64::Engine::encode(&base64::engine::general_purpose::STANDARD, bytes)
}

/// `bs58::decode(..).into_vec()`: its result is a function of the text, named
/// `base58_bytes`.
#[verifier::external_body]
pub(crate) fn base58_decode(text: &str) -> (out: Result<Vec<u8>, bs58::decode::Error>)
    ensures
        match out {
            Ok(bytes) => base58_bytes(text@) == Some(bytes@),
            Err(_) => base58_bytes(text@) is None,
        },
{
    bs58::decode(text).into_vec()
}

/// `Pubkey::from_str` of the Solana SDK: its result is a function of the text,
/// named `address_bytes`.
#[verifier::external_body]
pub(crate) fn pubkey_from_text(text: &str) -> (out: Result<
    Pubkey,
    solana_sdk::pubkey::ParsePubkeyError,
>)
    ensures
        match out {
            Ok(key) => address_bytes(text@) == Some(key@),
            Err(_) => address_bytes(text@) is None,
        },
{
    match text.parse::<solana_sdk::pubkey::Pubkey>() {
        Ok(key) => Ok(Pubkey { bytes: key.to_bytes() }),
        Err(err) => Err(err),
    }
}

/// `Pubkey::to_string` of the Solana SDK: its result is a function of the bytes,
/// named `address_text`, and reads back as those bytes.
#[verifier::external_body]
pub(crate) fn pubkey_to_text(key: &Pubkey) -> (out: String)
    ensures
        out@ == address_text(key@),
        address_bytes(out@) == Some(key@),
{
    solana_sdk::pubkey::Pubkey::from(key.bytes).to_string()
}

/// `Hash::from_str` of the Solana SDK: its result is a function of the text,
/// named `hash_bytes`.
#[verifier::external_body]
pub(crate) fn blockhash_from_text(text: &str) -> (out: Result<
    Blockhash,
    solana_sdk::hash::ParseHashError,
>)
    ensures
        match out {
            Ok(hash) => hash_bytes(text@) == Some(hash@),
            Err(_) => hash_bytes(text@) is None,
        },
{
    match text.parse::<solana_sdk::hash::Hash>() {
        Ok(hash) => Ok(Blockhash { bytes: hash.to_bytes() }),
        Err(err) => Err(err),
    }
}

/// `Hash::to_string` of the Solana SDK: its result is a function of the bytes,
/// named `hash_text`, and reads back as those bytes.
#[verifier::external_body]
pub(crate) fn blockhash_to_text(hash: &Blockhash) -> (out: String)
    ensures
        out@ == hash_text(hash@),
        hash_bytes(out@) == Some(hash@),
{
    solana_sdk::hash::Hash::from(hash.bytes).to_string()
}

/// `Signature::to_string` of the Solana SDK: its result is a function of the
/// bytes, named `signature_text`.
#[verifier::external_body]
pub(crate) fn signature_to_text(signature: &Signature) -> (out: String)
    ensures
        out@ == signature_text(signature@),
{
    solana_sdk::signature::Signature::from(signature.bytes).to_string()
}

// ---------------------------------------------------------------------------
// Keys
// ---------------------------------------------------------------------------

/// An Ed25519 key pair, by its secret.
#[derive(Clone, Copy)]
pub struct Keypair {
    pub secret: [u8; 32],
}

impl View for Keypair {
    type V = Seq<u8>;

    open spec fn view(&self) -> Seq<u8> {
        self.secret@
    }
}

/// The public key of an Ed25519 secret.
pub uninterp spec fn ed25519_public(secret: Seq<u8>) -> Seq<u8>;

/// The Ed25519 signature of a message under a secret.
pub uninterp spec fn ed25519_signature(secret: Seq<u8>, message: Seq<u8>) -> Seq<u8>;

/// `Keypair::pubkey` of the Solana SDK: the public key is a function of the
/// secret, named `ed25519_public`.
#[verifier::external_body]
pub(crate) fn keypair_pubkey(keypair: &Keypair) -> (out: Pubkey)
    ensures
        out@ == ed25519_public(keypair@),
{
    let pair = solana_sdk::signature::Keypair::new_from_array(keypair.secret);
    Pubkey { bytes: solana_sdk::signer::Signer::pubkey(&pair).to_bytes() }
}

/// `Keypair::sign_message` of the Solana SDK: Ed25519 signing is a function of
/// the secret and the message, named `ed25519_signature`.
#[verifier::external_body]
pub(crate) fn keypair_sign(keypair: &Keypair, message: &Vec<u8>) -> (out: Signature)
    ensures
        out@ == ed25519_signature(keypair@, message@),
{
    let pair = solana_sdk::signature::Keypair::new_from_array(keypair.secret);
    Signature { bytes: solana_sdk::signer::Signer::sign_message(&pair, message).into() }
}

/// `Keypair::new` of the Solana SDK: a key pair by chance, of which nothing more
/// is known.
#[verifier::external_body]
pub(crate) fn random_keypair() -> (keypair: Keypair) {
    Keypair { secret: *solana_sdk::signature::Keypair::new().secret_bytes() }
}

// ---------------------------------------------------------------------------
// Signed transactions
// ---------------------------------------------------------------------------

/// The wire form of the transaction that some bytes start with.
pub uninterp spec fn parsed_wire(bytes: Seq<u8>) -> Option<Seq<u8>>;

/// Whether the transaction of a wire form is well formed.
pub uninterp spec fn wire_is_sane(wire: Seq<u8>) -> bool;

/// Whether the signatures of the transaction of a wire form verify.
pub uninterp spec fn wire_verifies(wire: Seq<u8>) -> bool;

/// The signatures of the transaction of a wire form.
pub uninterp spec fn wire_signatures(wire: Seq<u8>) -> Seq<Seq<u8>>;

/// The recent blockhash of the transaction of a wire form.
pub uninterp spec fn wire_blockhash(wire: Seq<u8>) -> Seq<u8>;

/// The encoding of the neutral point of the curve.
pub open spec fn neutral_point() -> Seq<u8> {
    Seq::new(
        32,
        |i: int|
            if i == 0 {
                1u8
            } else {
                0u8
            },
    )
}

/// Whether the first half of a signature is another point than the neutral one,
/// which verification refuses. A signing secret gives the neutral point for about
/// one message in `2^252`.
pub open spec fn has_nonce(signature: Seq<u8>) -> bool {
    signature.take(32) != neutral_point()
}

/// Whether some bytes are the wire form of a transaction.
pub open spec fn is_wire(bytes: Seq<u8>) -> bool {
    parsed_wire(bytes) == Some(bytes)
}

/// The views of a list of signatures.
pub open spec fn signature_views(list: Seq<Signature>) -> Seq<Seq<u8>> {
    list.map_values(|s: Signature| s@)
}

/// `bincode::deserialize` of a `VersionedTransaction`, which
/// `bincode::serialize` turns into its wire form: the result is a function of
/// the bytes, named `parsed_wire`. The encoding is one-to-one and bytes after
/// the transaction are allowed, so the wire form is a prefix of the bytes and
/// reads back as itself.
#[verifier::external_body]
fn read_wire(bytes: &Vec<u8>) -> (out: Result<Vec<u8>, Box<bincode::ErrorKind>>)
    ensures
        match out {
            Ok(wire) => {
                &&& parsed_wire(bytes@) == Some(wire@)
                &&& is_wire(wire@)
                &&& wire@.is_prefix_of(bytes@)
            },
            Err(_) => parsed_wire(bytes@) is None,
        },
{
    match bincode::deserialize::<solana_sdk::transaction::VersionedTransaction>(bytes) {
        Ok(tx) => bincode::serialize(&tx),
        Err(err) => Err(err),
    }
}

/// `VersionedTransaction::sanitize`: whether it succeeds is a function of the
/// transaction, named `wire_is_sane`.
#[verifier::external_body]
fn sanitize_wire(wire: &Vec<u8>) -> (out: Result<(), solana_sdk::sanitize::SanitizeError>)
    requires
        is_wire(wire@),
    ensures
        out is Ok == wire_is_sane(wire@),
{
    let tx: solana_sdk::transaction::VersionedTransaction = bincode::deserialize(wire).unwrap();
    tx.sanitize()
}

/// `VersionedTransaction::verify_and_hash_message`: whether it succeeds is a
/// function of the transaction, named `wire_verifies`.
#[verifier::external_body]
fn verify_wire(wire: &Vec<u8>) -> (out: Result<(), solana_sdk::transaction::TransactionError>)
    requires
        is_wire(wire@),
    ensures
        out is Ok == wire_verifies(wire@),
{
    let tx: solana_sdk::transaction::VersionedTransaction = bincode::deserialize(wire).unwrap();
    match tx.verify_and_hash_message() {
        Ok(_) => Ok(()),
        Err(err) => Err(err),
    }
}

/// The `signatures` of a `VersionedTransaction`: a function of the transaction,
/// named `wire_signatures`.
#[verifier::external_body]
fn signatures_of_wire(wire: &Vec<u8>) -> (out: Vec<Signature>)
    requires
        is_wire(wire@),
    ensures
        signature_views(out@) == wire_signatures(wire@),
{
    let tx: solana_sdk::transaction::VersionedTransaction = bincode::deserialize(wire).unwrap();
    tx.signatures.iter().map(|s| Signature { bytes: (*s).into() }).collect()
}

/// `VersionedMessage::recent_blockhash` of a transaction's message: a function
/// of the transaction, named `wire_blockhash`.
#[verifier::external_body]
fn blockhash_of_wire(wire: &Vec<u8>) -> (out: Blockhash)
    requires
        is_wire(wire@),
    ensures
        out@ == wire_blockhash(wire@),
{
    let tx: solana_sdk::transaction::VersionedTransaction = bincode::deserialize(wire).unwrap();
    Blockhash { bytes: tx.message.recent_blockhash().to_bytes() }
}

/// A transaction with its signatures, legacy or versioned, by its wire form.
#[derive(Debug)]
pub struct SignedTransaction {
    wire: Vec<u8>,
}

impl View for SignedTransaction {
    type V = Seq<u8>;

    closed spec fn view(&self) -> Seq<u8> {
        self.wire@
    }
}

impl SignedTransaction {
    #[verifier::type_invariant]
    spec fn inv(self) -> bool {
        is_wire(self.wire@)
    }

    /// The transaction that some bytes start with.
    pub fn from_bytes(bytes: &Vec<u8>) -> (out: Option<SignedTransaction>)
        ensures
            match out {
                Some(tx) => {
                    &&& parsed_wire(bytes@) == Some(tx@)
                    &&& is_wire(tx@)
                    &&& tx@.is_prefix_of(bytes@)
                },
                None => parsed_wire(bytes@) is None,
            },
    {
        match read_wire(bytes) {
            Ok(wire) => Some(SignedTransaction { wire }),
            Err(_) => None,
        }
    }

    /// The transaction's wire form.
    pub fn to_bytes(&self) -> (bytes: Vec<u8>)
        ensures
            bytes@ == self@,
            is_wire(bytes@),
    {
        proof {
            use_type_invariant(self);
        }
        let bytes = self.wire.clone();
        assert(bytes@ =~= self.wire@);
        bytes
    }

    /// Whether the transaction is well formed.
    pub fn is_sane(&self) -> (sane: bool)
        ensures
            sane == wire_is_sane(self@),
    {
        proof {
            use_type_invariant(self);
        }
        sanitize_wire(&self.wire).is_ok()
    }

    /// Whether the transaction's signatures verify.
    pub fn verifies(&self) -> (verified: bool)
        ensures
            verified == wire_verifies(self@),
    {
        proof {
            use_type_invariant(self);
        }
        verify_wire(&self.wire).is_ok()
    }

    /// The transaction's signatures.
    pub fn signatures(&self) -> (list: Vec<Signature>)
        ensures
            signature_views(list@) == wire_signatures(self@),
    {
        proof {
            use_type_invariant(self);
        }
        signatures_of_wire(&self.wire)
    }

    /// The transaction's recent blockhash.
    pub fn blockhash(&self) -> (hash: Blockhash)
        ensures
            hash@ == wire_blockhash(self@),
    {
        proof {
            use_type_invariant(self);
        }
        blockhash_of_wire(&self.wire)
    }
}

impl Clone for SignedTransaction {
    fn clone(&self) -> (out: SignedTransaction)
        ensures
            out@ == self@,
    {
        proof {
            use_type_invariant(self);
        }
        let wire = self.wire.clone();
        assert(wire@ =~= self.wire@);
        SignedTransaction { wire }
    }
}

// ---------------------------------------------------------------------------
// Building transactions
// ---------------------------------------------------------------------------

/// An account that an instruction names.
#[derive(Clone, Copy, Debug)]
pub struct AccountMeta {
    pub pubkey: Pubkey,
    pub is_signer: bool,
    pub is_writable: bool,
}

/// An instruction to a program.
#[derive(Debug)]
pub struct Instruction {
    pub program: Pubkey,
    pub accounts: Vec<AccountMeta>,
    pub data: Vec<u8>,
}

/// What an instruction holds: the program, the accounts with whether each signs
/// and is written, and the data.
pub type InstructionView = (Seq<u8>, Seq<(Seq<u8>, bool, bool)>, Seq<u8>);

impl View for Instruction {
    type V = InstructionView;

    open spec fn view(&self) -> InstructionView {
        (
            self.program@,
            self.accounts@.map_values(|a: AccountMeta| (a.pubkey@, a.is_signer, a.is_writable)),
            self.data@,
        )
    }
}

/// What a list of instructions holds.
pub open spec fn instruction_views(list: Seq<Instruction>) -> Seq<InstructionView> {
    list.map_values(|i: Instruction| i@)
}

/// Whether no instruction calls the program at an address.
pub open spec fn none_calls(list: Seq<InstructionView>, address: Seq<u8>) -> bool {
    forall|i: int| 0 <= i < list.len() ==> (#[trigger] list[i]).0 != address
}

/// Whether no account but the one at an address is asked to sign.
pub open spec fn none_signs_but(list: Seq<InstructionView>, address: Seq<u8>) -> bool {
    forall|i: int, j: int|
        0 <= i < list.len() && 0 <= j < list[i].1.len() && (#[trigger] list[i].1[j]).1
            ==> list[i].1[j].0 == address
}

/// The address of the system program.
pub open spec fn system_program() -> Seq<u8> {
    Seq::new(32, |i: int| 0u8)
}

/// The system program's instruction that moves lamports between two accounts.
pub open spec fn transfer_view(from: Seq<u8>, to: Seq<u8>, lamports: u64) -> InstructionView {
    (
        system_program(),
        seq![(from, true, true), (to, false, true)],
        seq![2u8, 0u8, 0u8, 0u8] + spec_u64_to_le_bytes(lamports),
    )
}

/// The bytes of the version 0 message that a payer, instructions and a
/// blockhash compile to.
pub uninterp spec fn compiled_message(
    payer: Seq<u8>,
    instructions: Seq<InstructionView>,
    blockhash: Seq<u8>,
) -> Option<Seq<u8>>;

/// Whether some bytes read as a message that reads back as itself.
pub uninterp spec fn message_reads(bytes: Seq<u8>) -> bool;

/// The wire form of the transaction that a message and one signing secret make.
pub uninterp spec fn signed_wire(message: Seq<u8>, secret: Seq<u8>) -> Option<Seq<u8>>;

/// The wire form of the legacy transaction with one instruction that a secret
/// pays for and signs.
pub uninterp spec fn legacy_signed_wire(
    instruction: InstructionView,
    secret: Seq<u8>,
    blockhash: Seq<u8>,
) -> Seq<u8>;

/// `system_instruction::transfer`: an instruction for the system program, whose
/// address is 32 zero bytes, with the payer as writable signer and the receiver
/// as writable account; its data is the little-endian tag 2 and the lamports.
#[verifier::external_body]
pub(crate) fn transfer_instruction(from: &Pubkey, to: &Pubkey, lamports: u64) -> (out: Instruction)
    ensures
        out@ == transfer_view(from@, to@, lamports),
{
    let made = solana_system_interface::instruction::transfer(
        &from.bytes.into(),
        &to.bytes.into(),
        lamports,
    );
    let accounts = made.accounts.iter().map(|a| AccountMeta {
        pubkey: Pubkey { bytes: a.pubkey.to_bytes() },
        is_signer: a.is_signer,
        is_writable: a.is_writable,
    }).collect();
    Instruction { program: Pubkey { bytes: made.program_id.to_bytes() }, accounts, data: made.data }
}

/// `v0::Message::try_compile` without lookup tables, as the bytes that
/// `VersionedMessage::serialize` gives: the result is a function of the payer,
/// the instructions and the blockhash, named `compiled_message`. The bytes read
/// as the message. Few, short instructions keep every length in the message
/// within what its encoding can hold. It fails only where the message names more
/// than 256 accounts or more than 255 of one sort, which three instructions of
/// that length cannot.
#[verifier::external_body]
fn compile_message(payer: &Pubkey, instructions: &Vec<Instruction>, blockhash: &Blockhash) -> (out:
    Result<Vec<u8>, solana_sdk::message::CompileError>)
    requires
        instructions@.len() <= 64,
        forall|i: int|
            0 <= i < instructions@.len() ==> (#[trigger] instructions@[i]).data@.len() <= 1024
                && instructions@[i].accounts@.len() <= 64,
    ensures
        match out {
            Ok(message) => {
                &&& compiled_message(payer@, instruction_views(instructions@), blockhash@) == Some(
                    message@,
                )
                &&& message_reads(message@)
            },
            Err(_) => compiled_message(payer@, instruction_views(instructions@), blockhash@)
                is None,
        },
        instructions@.len() <= 3 ==> out is Ok,
{
    let list: Vec<_> = instructions.iter().map(|i| solana_sdk::instruction::Instruction {
        program_id: i.program.bytes.into(),
        accounts: i.accounts.iter().map(|a| solana_sdk::instruction::AccountMeta {
            pubkey: a.pubkey.bytes.into(),
            is_signer: a.is_signer,
            is_writable: a.is_writable,
        }).collect(),
        data: i.data.clone(),
    }).collect();
    match solana_sdk::message::v0::Message::try_compile(&payer.bytes.into(), &list, &[], blockhash.bytes.into()) {
        Ok(message) => Ok(solana_sdk::message::VersionedMessage::V0(message).serialize()),
        Err(err) => Err(err),
    }
}

/// `VersionedTransaction::try_new` with one signer, as the bytes that
/// `bincode::serialize` gives: the result is a function of the message and the
/// secret, named `signed_wire`. The bytes are a wire form with one signature.
/// That signature verifies unless it starts with the neutral point, which strict
/// verification refuses. Of a message that was compiled, the transaction has the
/// blockhash; it is well formed where no instruction calls the payer as a
/// program; and it is signed where the payer is the one who signs and no other
/// account is asked to.
#[verifier::external_body]
fn sign_message(message: &Vec<u8>, payer: &Keypair) -> (out: Result<
    Vec<u8>,
    solana_sdk::signer::SignerError,
>)
    requires
        message_reads(message@),
    ensures
        match out {
            Ok(wire) => {
                &&& signed_wire(message@, payer@) == Some(wire@)
                &&& is_wire(wire@)
                &&& wire_signatures(wire@).len() == 1
                &&& has_nonce(wire_signatures(wire@)[0]) ==> wire_verifies(wire@)
                &&& forall|key: Seq<u8>, list: Seq<InstructionView>, hash: Seq<u8>| #[trigger]
                    compiled_message(key, list, hash) == Some(message@) ==> {
                        &&& wire_blockhash(wire@) == hash
                        &&& none_calls(list, key) ==> wire_is_sane(wire@)
                    }
            },
            Err(_) => signed_wire(message@, payer@) is None,
        },
        forall|key: Seq<u8>, list: Seq<InstructionView>, hash: Seq<u8>| #[trigger]
            compiled_message(key, list, hash) == Some(message@) && key == ed25519_public(payer@)
                && none_signs_but(list, key) ==> out is Ok,
{
    let pair = solana_sdk::signature::Keypair::new_from_array(payer.secret);
    let body = bincode::deserialize(message).unwrap();
    match solana_sdk::transaction::VersionedTransaction::try_new(body, &[pair]) {
        Ok(tx) => Ok(bincode::serialize(&tx).unwrap()),
        Err(err) => Err(err),
    }
}

/// `Transaction::new_signed_with_payer` with one instruction and one signer,
/// made a `VersionedTransaction` and encoded by `bincode::serialize`: the result
/// is a function of the instruction, the secret and the blockhash, named
/// `legacy_signed_wire`. The bytes are a wire form, no more than 1024, with one
/// signature and the given blockhash. The signature verifies unless it starts
/// with the neutral point, which strict verification refuses, and the transaction
/// is well formed unless it calls the payer as a program. The call panics where
/// the instruction asks for another signer than the payer.
#[verifier::external_body]
fn sign_legacy(instruction: &Instruction, payer: &Keypair, blockhash: &Blockhash) -> (out: Vec<u8>)
    requires
        instruction.accounts@.len() <= 2,
        instruction.data@.len() <= 16,
        forall|i: int|
            0 <= i < instruction.accounts@.len() && (#[trigger] instruction.accounts@[i]).is_signer
                ==> instruction.accounts@[i].pubkey@ == ed25519_public(payer@),
    ensures
        out@ == legacy_signed_wire(instruction@, payer@, blockhash@),
        is_wire(out@),
        out@.len() <= 1024,
        wire_signatures(out@).len() == 1,
        wire_blockhash(out@) == blockhash@,
        has_nonce(wire_signatures(out@)[0]) ==> wire_verifies(out@),
        instruction.program@ != ed25519_public(payer@) ==> wire_is_sane(out@),
{
    let pair = solana_sdk::signature::Keypair::new_from_array(payer.secret);
    let metas = instruction.accounts.iter().map(|a| solana_sdk::instruction::AccountMeta {
        pubkey: a.pubkey.bytes.into(),
        is_signer: a.is_signer,
        is_writable: a.is_writable,
    }).collect();
    let made = solana_sdk::instruction::Instruction {
        program_id: instruction.program.bytes.into(), accounts: metas, data: instruction.data.clone(),
    };
    let key = solana_sdk::signer::Signer::pubkey(&pair);
    let tx = solana_sdk::transaction::Transaction::new_signed_with_payer(&[made], Some(&key), &[pair], blockhash.bytes.into());
    bincode::serialize(&solana_sdk::transaction::VersionedTransaction::from(tx)).unwrap()
}

/// Why a transaction could not be built.
#[derive(Clone, Copy, Debug, PartialEq, Eq, Structural)]
pub enum BuildError {
    /// The instructions do not compile to a message.
    Compile,
    /// The payer cannot sign the message.
    Sign,
}

/// The wire form of the version 0 transaction that a payer signs.
pub open spec fn built_wire(
    secret: Seq<u8>,
    instructions: Seq<InstructionView>,
    blockhash: Seq<u8>,
) -> Result<Seq<u8>, BuildError> {
    match compiled_message(ed25519_public(secret), instructions, blockhash) {
        None => Err(BuildError::Compile),
        Some(message) => match signed_wire(message, secret) {
            None => Err(BuildError::Sign),
            Some(wire) => Ok(wire),
        },
    }
}

impl SignedTransaction {
    /// A version 0 transaction with the given instructions that one key pair
    /// pays for and signs.
    pub(crate) fn build(
        payer: &Keypair,
        instructions: &Vec<Instruction>,
        blockhash: &Blockhash,
    ) -> (out: Result<SignedTransaction, BuildError>)
        requires
            instructions@.len() <= 64,
            forall|i: int|
                0 <= i < instructions@.len() ==> (#[trigger] instructions@[i]).data@.len() <= 1024
                    && instructions@[i].accounts@.len() <= 64,
        ensures
            match out {
                Ok(tx) => {
                    &&& built_wire(payer@, instruction_views(instructions@), blockhash@)
                        == Ok::<Seq<u8>, BuildError>(tx@)
                    &&& wire_signatures(tx@).len() == 1
                    &&& wire_blockhash(tx@) == blockhash@
                    &&& has_nonce(wire_signatures(tx@)[0]) ==> wire_verifies(tx@)
                    &&& none_calls(instruction_views(instructions@), ed25519_public(payer@))
                        ==> wire_is_sane(tx@)
                },
                Err(err) => built_wire(payer@, instruction_views(instructions@), blockhash@)
                    == Err::<Seq<u8>, BuildError>(err),
            },
            instructions@.len() <= 3 && none_signs_but(
                instruction_views(instructions@),
                ed25519_public(payer@),
            ) ==> out is Ok,
    {
        let key = keypair_pubkey(payer);
        match compile_message(&key, instructions, blockhash) {
            Err(_) => Err(BuildError::Compile),
            Ok(message) => match sign_message(&message, payer) {
                Err(_) => Err(BuildError::Sign),
                Ok(wire) => Ok(SignedTransaction { wire }),
            },
        }
    }

    /// A legacy transaction that moves lamports from the key pair that signs it.
    pub(crate) fn transfer(
        payer: &Keypair,
        to: &Pubkey,
        lamports: u64,
        blockhash: &Blockhash,
    ) -> (tx: SignedTransaction)
        ensures
            tx@ == legacy_signed_wire(
                transfer_view(ed25519_public(payer@), to@, lamports),
                payer@,
                blockhash@,
            ),
            tx@.len() <= 1024,
            wire_signatures(tx@).len() == 1,
            wire_blockhash(tx@) == blockhash@,
            has_nonce(wire_signatures(tx@)[0]) ==> wire_verifies(tx@),
            ed25519_public(payer@) != system_program() ==> wire_is_sane(tx@),
    {
        let key = keypair_pubkey(payer);
        let instruction = transfer_instruction(&key, to, lamports);
        proof {
            transfer_shape(instruction, key@, to@, lamports);
        }
        SignedTransaction { wire: sign_legacy(&instruction, payer, blockhash) }
    }
}

/// A transfer names two accounts, of which the payer alone signs, and passes
/// twelve bytes.
pub proof fn transfer_shape(instruction: Instruction, from: Seq<u8>, to: Seq<u8>, lamports: u64)
    requires
        instruction@ == transfer_view(from, to, lamports),
    ensures
        instruction.accounts@.len() == 2,
        instruction.accounts@[0].pubkey@ == from && instruction.accounts@[0].is_signer,
        instruction.accounts@[1].pubkey@ == to && !instruction.accounts@[1].is_signer,
        instruction.data@.len() == 12,
{
    let metas = instruction@.1;
    assert(metas.len() == instruction.accounts@.len());
    assert(metas[0] == (from, true, true));
    assert(metas[1] == (to, false, true));
    assert(metas[0].0 == instruction.accounts@[0].pubkey@);
    assert(metas[1].0 == instruction.accounts@[1].pubkey@);
    assert(spec_u64_to_le_bytes(lamports).len() == 8) by {
        lemma_auto_spec_u64_to_from_le_bytes();
    }
}

/// A transfer calls the program at address zero; the sender signs, both accounts
/// are written, and the data is the tag of a transfer and the lamports, from which
/// they read back.
pub proof fn transfers_tell_what_moves(from: Seq<u8>, to: Seq<u8>, lamports: u64)
    ensures
        ({
            let (program, accounts, data) = transfer_view(from, to, lamports);
            &&& program.len() == 32
            &&& forall|i: int| 0 <= i < 32 ==> #[trigger] program[i] == 0
            &&& accounts.len() == 2
            &&& accounts[0] == (from, true, true)
            &&& accounts[1] == (to, false, true)
            &&& data.len() == 12
            &&& data[0] == 2 && data[1] == 0 && data[2] == 0 && data[3] == 0
            &&& spec_u64_from_le_bytes(data.skip(4)) == lamports
        }),
{
    lemma_auto_spec_u64_to_from_le_bytes();
    let data = transfer_view(from, to, lamports).2;
    assert(data.skip(4) =~= spec_u64_to_le_bytes(lamports));
}

/// A transaction is what the payer signs of the message, made for the payer's own
/// address; each step that fails is told.
pub proof fn transactions_are_compiled_then_signed(
    secret: Seq<u8>,
    instructions: Seq<InstructionView>,
    blockhash: Seq<u8>,
    message: Seq<u8>,
    wire: Seq<u8>,
)
    ensures
        compiled_message(ed25519_public(secret), instructions, blockhash) == Some(message)
            && signed_wire(message, secret) == Some(wire) ==> built_wire(
            secret,
            instructions,
            blockhash,
        ) == Ok::<Seq<u8>, BuildError>(wire),
        compiled_message(ed25519_public(secret), instructions, blockhash) == Some(message)
            && signed_wire(message, secret) is None ==> built_wire(secret, instructions, blockhash)
            == Err::<Seq<u8>, BuildError>(BuildError::Sign),
        compiled_message(ed25519_public(secret), instructions, blockhash) is None ==> built_wire(
            secret,
            instructions,
            blockhash,
        ) == Err::<Seq<u8>, BuildError>(BuildError::Compile),
{
}

} // verus!
