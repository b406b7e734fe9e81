//! The transactions that a report submits.

use crate::report::config;
use crate::report::config::{join_path, ReportConfig};
use crate::solana;
use crate::solana::{
    base64_encode, blockhash_to_text, keypair_pubkey, pubkey_to_text, random_keypair,
    signature_to_text, Blockhash, Keypair, SignedTransaction,
};
use crate::stack;
use crate::stack::SignedTransactionEncoding;
use crate::text;
use crate::text::{join2, owned};
use crate::time::{utc_now, UtcTime};
use vstd::prelude::*;

verus! {

/// Whether a transaction's payer has the means to pay.
#[derive(Clone, Copy, Debug, PartialEq, Eq, Structural)]
pub enum TransactionKind {
    FundedTipTransfer,
    UnfundedTipTransfer,
}

/// What is expected of a transaction.
#[derive(Clone, Copy, Debug, PartialEq, Eq, Structural)]
pub enum ExpectedOutcome {
    Success,
    Failure,
}

/// A transaction that a report submits.
#[derive(Clone, Debug)]
pub struct GeneratedTransaction {
    pub request_id: String,
    pub kind: TransactionKind,
    pub expected_outcome: ExpectedOutcome,
    pub encoding: String,
    pub transaction_file: String,
    pub payer: String,
    pub tip_account: String,
    pub tip_lamports: u64,
    pub blockhash: String,
    pub signature: String,
    pub constructed_at: UtcTime,
}

impl GeneratedTransaction {
    /// Whether this is a tip of a payer with funds, which is expected to succeed.
    pub open spec fn is_funded(self) -> bool {
        &&& self.kind == TransactionKind::FundedTipTransfer
        &&& self.expected_outcome == ExpectedOutcome::Success
    }

    /// Whether this is a tip of a payer without funds, which is expected to fail.
    pub open spec fn is_unfunded(self) -> bool {
        &&& self.kind == TransactionKind::UnfundedTipTransfer
        &&& self.expected_outcome == ExpectedOutcome::Failure
    }
}

/// The wire form of the tip that a payer signs.
pub open spec fn tip_wire(secret: Seq<u8>, config: ReportConfig, blockhash: Seq<u8>) -> Seq<u8> {
    solana::legacy_signed_wire(
        solana::transfer_view(
            solana::ed25519_public(secret),
            config.tip_account@,
            config.tip_lamports,
        ),
        secret,
        blockhash,
    )
}

/// Whether a generated transaction and its encoded form are the tip of a payer.
pub open spec fn is_tip_of(
    tx: GeneratedTransaction,
    encoded: Seq<char>,
    secret: Seq<u8>,
    config: ReportConfig,
    request_id: Seq<char>,
    blockhash: Seq<u8>,
) -> bool {
    let wire = tip_wire(secret, config, blockhash);
    &&& tx.request_id@ == request_id
    &&& tx.encoding@ == "base64"@
    &&& tx.transaction_file@ == config::in_directory(
        config.work_dir@,
        request_id + ".base64"@,
    )
    &&& tx.payer@ == solana::address_text(solana::ed25519_public(secret))
    &&& tx.tip_account@ == solana::address_text(config.tip_account@)
    &&& tx.tip_lamports == config.tip_lamports
    &&& tx.blockhash@ == solana::hash_text(blockhash)
    &&& tx.signature@ == solana::signature_text(solana::wire_signatures(wire)[0])
    &&& encoded == solana::base64_text(wire)
    &&& stack::payload(encoded, SignedTransactionEncoding::Base64) == Some(wire)
    &&& solana::is_wire(wire)
    &&& solana::wire_blockhash(wire) == blockhash
    &&& solana::wire_signatures(wire).len() == 1
    &&& solana::has_nonce(solana::wire_signatures(wire)[0]) ==> solana::wire_verifies(wire)
    &&& solana::ed25519_public(secret) != solana::system_program() ==> solana::wire_is_sane(wire)
}

/// The tip of a payer, with the text that goes into its file. What is submitted
/// from that text is the transaction that was signed.
pub fn generate_tip_transfer_transaction(
    payer: &Keypair,
    config: &ReportConfig,
    request_id: &str,
    kind: TransactionKind,
    expected_outcome: ExpectedOutcome,
    blockhash: Blockhash,
) -> (out: (GeneratedTransaction, String))
    ensures
        is_tip_of(out.0, out.1@, payer@, *config, request_id@, blockhash@),
        out.0.kind == kind,
        out.0.expected_outcome == expected_outcome,
{
    let transaction = SignedTransaction::transfer(
        payer,
        &config.tip_account,
        config.tip_lamports,
        &blockhash,
    );
    let signatures = transaction.signatures();
    assert(solana::signature_views(signatures@).len() == signatures@.len());
    let signature = signatures[0];
    assert(solana::signature_views(signatures@)[0] == signature@);
    let bytes = transaction.to_bytes();
    let encoded = base64_encode(&bytes);
    proof {
        text::trimmed_keeps_solid_text(encoded@);
    }
    let tx = GeneratedTransaction {
        request_id: owned(request_id),
        kind,
        expected_outcome,
        encoding: "base64".to_owned(),
        transaction_file: join_path(
            config.work_dir.as_str(),
            join2(request_id, ".base64").as_str(),
        ),
        payer: pubkey_to_text(&keypair_pubkey(payer)),
        tip_account: pubkey_to_text(&config.tip_account),
        tip_lamports: config.tip_lamports,
        blockhash: blockhash_to_text(&blockhash),
        signature: signature_to_text(&signature),
        constructed_at: utc_now(),
    };
    (tx, encoded)
}

/// A tip of the funded payer, which is expected to succeed.
pub fn generate_funded_tip_transaction(
    payer: &Keypair,
    config: &ReportConfig,
    request_id: &str,
    blockhash: Blockhash,
) -> (out: (GeneratedTransaction, String))
    ensures
        is_tip_of(out.0, out.1@, payer@, *config, request_id@, blockhash@),
        out.0.is_funded(),
{
    generate_tip_transfer_transaction(
        payer,
        config,
        request_id,
        TransactionKind::FundedTipTransfer,
        ExpectedOutcome::Success,
        blockhash,
    )
}

/// A tip of a payer made up by chance, which has no funds and is expected to
/// fail.
pub fn generate_unfunded_tip_transaction(
    config: &ReportConfig,
    request_id: &str,
    blockhash: Blockhash,
) -> (out: (GeneratedTransaction, String))
    ensures
        exists|secret: Seq<u8>| #[trigger]
            is_tip_of(out.0, out.1@, secret, *config, request_id@, blockhash@),
        out.0.is_unfunded(),
{
    let payer = random_keypair();
    generate_tip_transfer_transaction(
        &payer,
        config,
        request_id,
        TransactionKind::UnfundedTipTransfer,
        ExpectedOutcome::Failure,
        blockhash,
    )
}

/// What a report writes to a transaction file reads back as the transaction it
/// signed: it is submitted exactly when that transaction passes the checks. It
/// passes them, but for a payer whose address is the system program's and for a
/// signature that starts with the neutral point.
pub proof fn generated_transactions_read_back(
    tx: GeneratedTransaction,
    encoded: Seq<char>,
    secret: Seq<u8>,
    config: ReportConfig,
    request_id: Seq<char>,
    blockhash: Seq<u8>,
)
    requires
        is_tip_of(tx, encoded, secret, config, request_id, blockhash),
    ensures
        ({
            let wire = tip_wire(secret, config, blockhash);
            let out = stack::submittable(encoded, SignedTransactionEncoding::Base64);
            &&& out == stack::checked_wire(wire)
            &&& solana::ed25519_public(secret) != solana::system_program() && solana::has_nonce(
                solana::wire_signatures(wire)[0],
            ) ==> out == Ok::<Seq<u8>, stack::SubmitError>(wire)
        }),
{
}

/// Only a tip of a payer with funds is expected to succeed, and none is both.
pub proof fn funds_decide_what_is_expected(tx: GeneratedTransaction)
    ensures
        tx.is_funded() ==> tx.expected_outcome is Success && tx.kind is FundedTipTransfer,
        tx.is_unfunded() ==> tx.expected_outcome is Failure && tx.kind is UnfundedTipTransfer,
{
}

/// A generated transaction names its request, its file, its payer, what it tips
/// to whom, its blockhash and its signature; its text is that of the bytes which
/// the payer signed.
pub proof fn tips_tell_what_they_are(
    tx: GeneratedTransaction,
    encoded: Seq<char>,
    secret: Seq<u8>,
    config: ReportConfig,
    request_id: Seq<char>,
    blockhash: Seq<u8>,
)
    requires
        is_tip_of(tx, encoded, secret, config, request_id, blockhash),
    ensures
        tx.request_id@ == request_id,
        tx.encoding@ == "base64"@,
        tx.transaction_file@ == config::in_directory(config.work_dir@, request_id + ".base64"@),
        tx.payer@ == solana::address_text(solana::ed25519_public(secret)),
        tx.tip_account@ == solana::address_text(config.tip_account@),
        tx.tip_lamports == config.tip_lamports,
        tx.blockhash@ == solana::hash_text(blockhash),
        ({
            let tip = solana::transfer_view(
                solana::ed25519_public(secret),
                config.tip_account@,
                config.tip_lamports,
            );
            let wire = solana::legacy_signed_wire(tip, secret, blockhash);
            &&& encoded == solana::base64_text(wire)
            &&& tx.signature@ == solana::signature_text(solana::wire_signatures(wire)[0])
            &&& solana::wire_blockhash(wire) == blockhash
        }),
{
}

} // verus!
