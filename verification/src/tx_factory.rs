//! Builds the transactions that the stack itself submits: a transfer of the
//! payer to itself and a tip.

use crate::solana;
use crate::solana::{
    keypair_pubkey, transfer_instruction, Blockhash, BuildError, Instruction, InstructionView,
    Keypair, Pubkey, Signature, SignedTransaction,
};
use crate::stack;
use vstd::bytes::spec_u64_from_le_bytes;
use vstd::prelude::*;

verus! {

/// A transaction with what its submission needs.
#[derive(Clone, Debug)]
pub struct BuiltTransaction {
    pub transaction: SignedTransaction,
    pub signature: Signature,
    pub blockhash: Blockhash,
    pub tip_lamports: u64,
}

/// Makes transactions that tip one account.
#[derive(Clone, Copy, Debug)]
pub struct TransactionFactory {
    tip_account: Pubkey,
    self_transfer_lamports: u64,
}

/// The instructions of a transaction that tips: the payer's transfer to itself,
/// then the tip.
pub open spec fn tip_instructions(
    payer: Seq<u8>,
    tip_account: Seq<u8>,
    self_transfer_lamports: u64,
    tip_lamports: u64,
) -> Seq<InstructionView> {
    seq![
        solana::transfer_view(payer, payer, self_transfer_lamports),
        solana::transfer_view(payer, tip_account, tip_lamports),
    ]
}

impl TransactionFactory {
    /// The account that is tipped.
    pub closed spec fn tip_account(self) -> Seq<u8> {
        self.tip_account@
    }

    /// What the payer sends to itself.
    pub closed spec fn self_transfer(self) -> u64 {
        self.self_transfer_lamports
    }

    pub fn new(tip_account: Pubkey, self_transfer_lamports: u64) -> (factory: TransactionFactory)
        ensures
            factory.tip_account() == tip_account@,
            factory.self_transfer() == self_transfer_lamports,
    {
        TransactionFactory { tip_account, self_transfer_lamports }
    }

    /// A transaction that the payer signs, which moves the fixed amount from the
    /// payer to itself and the tip to the tip account. It can always be built, and
    /// the stack submits it.
    pub fn build(&self, payer: &Keypair, blockhash: Blockhash, tip_lamports: u64) -> (out: Result<
        BuiltTransaction,
        BuildError,
    >)
        ensures
            ({
                let wire = solana::built_wire(
                    payer@,
                    tip_instructions(
                        solana::ed25519_public(payer@),
                        self.tip_account(),
                        self.self_transfer(),
                        tip_lamports,
                    ),
                    blockhash@,
                );
                &&& out matches Ok(built)
                &&& wire == Ok::<Seq<u8>, BuildError>(built.transaction@)
                &&& solana::wire_signatures(built.transaction@) == seq![built.signature@]
                &&& solana::wire_blockhash(built.transaction@) == blockhash@
                &&& built.blockhash == blockhash
                &&& built.tip_lamports == tip_lamports
                &&& solana::ed25519_public(payer@) != solana::system_program() && solana::has_nonce(
                    built.signature@,
                ) ==> stack::checked_wire(built.transaction@) == Ok::<Seq<u8>, stack::SubmitError>(
                    built.transaction@,
                )
            }),
    {
        let payer_pubkey = keypair_pubkey(payer);
        let first = transfer_instruction(&payer_pubkey, &payer_pubkey, self.self_transfer_lamports);
        let second = transfer_instruction(&payer_pubkey, &self.tip_account, tip_lamports);
        proof {
            solana::transfer_shape(first, payer_pubkey@, payer_pubkey@, self.self_transfer_lamports);
            solana::transfer_shape(second, payer_pubkey@, self.tip_account@, tip_lamports);
        }
        let mut instructions: Vec<Instruction> = Vec::new();
        instructions.push(first);
        instructions.push(second);
        assert(solana::instruction_views(instructions@) =~= tip_instructions(
            solana::ed25519_public(payer@),
            self.tip_account(),
            self.self_transfer(),
            tip_lamports,
        ));
        let transaction = match SignedTransaction::build(payer, &instructions, &blockhash) {
            Ok(transaction) => transaction,
            Err(err) => return Err(err),
        };
        let signatures = transaction.signatures();
        assert(signatures@.len() == solana::signature_views(signatures@).len());
        let signature: Signature = signatures[0];
        assert(solana::wire_signatures(transaction@) =~= seq![signature@]);
        Ok(BuiltTransaction { transaction, signature, blockhash, tip_lamports })
    }
}

/// The payer pays for both transfers: the first goes back to the payer, the
/// second to the tip account, and neither amount takes the other's place.
pub proof fn tips_follow_the_self_transfer(
    payer: Seq<u8>,
    tip_account: Seq<u8>,
    self_transfer_lamports: u64,
    tip_lamports: u64,
)
    ensures
        ({
            let made = tip_instructions(payer, tip_account, self_transfer_lamports, tip_lamports);
            &&& made.len() == 2
            &&& made[0].1.len() == 2 && made[1].1.len() == 2
            &&& made[0].1[0].0 == payer && made[0].1[1].0 == payer
            &&& made[1].1[0].0 == payer && made[1].1[1].0 == tip_account
            &&& spec_u64_from_le_bytes(made[0].2.skip(4)) == self_transfer_lamports
            &&& spec_u64_from_le_bytes(made[1].2.skip(4)) == tip_lamports
        }),
{
    solana::transfers_tell_what_moves(payer, payer, self_transfer_lamports);
    solana::transfers_tell_what_moves(payer, tip_account, tip_lamports);
}

} // verus!
