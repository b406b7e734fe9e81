//! The Yellowstone subscription: what is asked for, what comes of it, and how
//! the connection is restored.

use crate::solana;
use crate::solana::{blockhash_from_text, signature_to_text, Blockhash, Pubkey, Signature};
use crate::text;
use vstd::prelude::*;

verus! {

/// The longest pause before a connection is restored, in seconds.
pub const MAX_PAUSE_SECS: u64 = 64;

/// An account's state.
#[derive(Clone, Debug)]
pub struct Account {
    pub lamports: u64,
    pub data: Vec<u8>,
    pub owner: Pubkey,
    pub executable: bool,
    pub rent_epoch: u64,
}

/// What the subscription tells its receiver.
#[derive(Clone, Debug)]
pub enum GeyserStream {
    OnAccountUpdate { slot: u64, pubkey: Pubkey, account_info: Account },
    TransactionsOnSlot {
        slot: u64,
        index: u64,
        tx: Option<Vec<u8>>,
        status_meta: Option<Vec<u8>>,
        signature: Vec<u8>,
    },
    BlockHash { slot: u64, hash: Blockhash },
    TransactionStatus { slot: u64, signature: Signature, error: Option<String> },
    StreamCompleteOnSlot(u64),
}

/// How sure the cluster must be of what is reported.
#[derive(Clone, Copy, Debug, PartialEq, Eq, Structural)]
pub enum CommitmentLevel {
    Processed,
    Confirmed,
}

/// Which slots are reported.
#[derive(Debug)]
pub struct SlotFilter {
    pub name: String,
    pub filter_by_commitment: Option<bool>,
}

/// Which transactions' statuses are reported.
#[derive(Debug)]
pub struct StatusFilter {
    pub name: String,
    pub vote: Option<bool>,
    pub failed: Option<bool>,
    pub signature: Option<String>,
}

/// A subscription. The names of the block filters stand in `blocks_meta`.
#[derive(Debug)]
pub struct SubscribeRequest {
    pub commitment: CommitmentLevel,
    pub blocks_meta: Vec<String>,
    pub slots: Vec<SlotFilter>,
    pub transactions_status: Vec<StatusFilter>,
    pub from_slot: Option<u64>,
}

/// An update of the subscription.
#[derive(Debug)]
pub enum Update {
    Slot { slot: u64 },
    BlockMeta { slot: u64, blockhash: String },
    TransactionStatus { slot: u64, signature: Vec<u8>, error: Option<String> },
    Ping,
    Pong,
    Other,
}

/// Whether an event is what an update says.
pub open spec fn tells(update: Update, event: GeyserStream) -> bool {
    match (update, event) {
        (Update::Slot { slot }, GeyserStream::StreamCompleteOnSlot(at)) => at == slot,
        (
            Update::BlockMeta { slot, blockhash },
            GeyserStream::BlockHash { slot: at, hash },
        ) => at == slot && solana::hash_bytes(blockhash@) == Some(hash@),
        (
            Update::TransactionStatus { slot, signature, error },
            GeyserStream::TransactionStatus { slot: at, signature: of, error: why },
        ) => at == slot && of@ == signature@ && text::opt_text(why) == text::opt_text(error),
        _ => false,
    }
}

/// Whether an update says nothing: it is of no interest, its blockhash is none,
/// or its signature has the wrong length.
pub open spec fn is_silent(update: Update) -> bool {
    match update {
        Update::Slot { .. } => false,
        Update::BlockMeta { blockhash, .. } => solana::hash_bytes(blockhash@) is None,
        Update::TransactionStatus { signature, .. } => signature@.len() != 64,
        _ => true,
    }
}

/// What is told of a block, by the hash that its text stands for.
pub fn block_event(slot: u64, hash: Option<Blockhash>) -> (event: Option<GeyserStream>)
    ensures
        match hash {
            Some(h) => event == Some(GeyserStream::BlockHash { slot, hash: h }),
            None => event is None,
        },
{
    match hash {
        Some(hash) => Some(GeyserStream::BlockHash { slot, hash }),
        None => None,
    }
}

/// The state of the connection: the last slot that was seen, the pause before
/// the next connection in seconds, and the slot from which the subscription is
/// asked for.
#[derive(Clone, Copy, Debug, PartialEq, Eq, Structural)]
pub struct Geyser {
    pub last_seen_slot: u64,
    pub reconnect_counter: u64,
    pub from_slot: Option<u64>,
}

impl Geyser {
    /// Whether the pause is within its bound.
    pub open spec fn wf(self) -> bool {
        self.reconnect_counter <= MAX_PAUSE_SECS
    }

    /// The subscription to confirmed slots and their blockhashes.
    pub fn new_geyser_slot_subscription() -> (request: SubscribeRequest)
        ensures
            request.commitment == CommitmentLevel::Confirmed,
            text::texts(request.blocks_meta@) == seq!["BlockHash"@],
            request.slots@.len() == 1,
            request.slots@[0].name@ == "Slots"@,
            request.slots@[0].filter_by_commitment == Some(true),
            request.transactions_status@.len() == 0,
            request.from_slot is None,
    {
        let mut blocks_meta: Vec<String> = Vec::new();
        blocks_meta.push("BlockHash".to_owned());
        assert(text::texts(blocks_meta@) =~= seq!["BlockHash"@]);
        let mut slots: Vec<SlotFilter> = Vec::new();
        slots.push(SlotFilter { name: "Slots".to_owned(), filter_by_commitment: Some(true) });
        SubscribeRequest {
            commitment: CommitmentLevel::Confirmed,
            blocks_meta,
            slots,
            transactions_status: Vec::new(),
            from_slot: None,
        }
    }

    /// The subscription to the status of one transaction, whether it fails or not.
    pub fn new_geyser_signature_status_subscription(signature: &Signature) -> (request:
        SubscribeRequest)
        ensures
            request.commitment == CommitmentLevel::Processed,
            request.blocks_meta@.len() == 0,
            request.slots@.len() == 0,
            request.transactions_status@.len() == 1,
            request.transactions_status@[0].name@ == "SignatureStatus"@,
            request.transactions_status@[0].vote == Some(false),
            request.transactions_status@[0].failed == Some(true),
            text::opt_text(request.transactions_status@[0].signature) == Some(
                solana::signature_text(signature@),
            ),
            request.from_slot is None,
    {
        let mut transactions_status: Vec<StatusFilter> = Vec::new();
        transactions_status.push(
            StatusFilter {
                name: "SignatureStatus".to_owned(),
                vote: Some(false),
                failed: Some(true),
                signature: Some(signature_to_text(signature)),
            },
        );
        SubscribeRequest {
            commitment: CommitmentLevel::Processed,
            blocks_meta: Vec::new(),
            slots: Vec::new(),
            transactions_status,
            from_slot: None,
        }
    }

    /// The state before the first connection, by the slot that is asked for.
    pub open spec fn started(from_slot: Option<u64>) -> Geyser {
        Geyser {
            last_seen_slot: match from_slot {
                Some(slot) => slot,
                None => 0,
            },
            reconnect_counter: 0,
            from_slot,
        }
    }

    /// The state before the first connection.
    pub fn start(request: &SubscribeRequest) -> (geyser: Geyser)
        ensures
            geyser.wf(),
            geyser == Geyser::started(request.from_slot),
    {
        Geyser {
            last_seen_slot: match request.from_slot {
                Some(slot) => slot,
                None => 0,
            },
            reconnect_counter: 0,
            from_slot: request.from_slot,
        }
    }

    /// Prepares the next connection. Gives the pause before it in seconds.
    ///
    /// After a failure, or the end of a stream, the subscription resumes at the
    /// last slot that was seen, and the pause doubles up to its bound.
    pub fn begin(&mut self) -> (pause: u64)
        requires
            old(self).wf(),
        ensures
            pause == old(self).reconnect_counter,
            *final(self) == old(self).begun(),
            final(self).wf(),
    {
        let pause: u64 = self.reconnect_counter;
        if self.reconnect_counter > 0 {
            if self.last_seen_slot == 0 {
                self.from_slot = None;
            } else {
                self.from_slot = Some(self.last_seen_slot);
            }
            let doubled: u64 = self.reconnect_counter * 2;
            self.reconnect_counter = if doubled < MAX_PAUSE_SECS {
                doubled
            } else {
                MAX_PAUSE_SECS
            };
        }
        pause
    }

    /// The state after the next connection is prepared.
    pub open spec fn begun(self) -> Geyser {
        if self.reconnect_counter > 0 {
            Geyser {
                from_slot: if self.last_seen_slot == 0 {
                    None
                } else {
                    Some(self.last_seen_slot)
                },
                reconnect_counter: if self.reconnect_counter * 2 < MAX_PAUSE_SECS {
                    (self.reconnect_counter * 2) as u64
                } else {
                    MAX_PAUSE_SECS
                },
                ..self
            }
        } else {
            self
        }
    }

    /// The state after the connection or the subscription failed, or the stream
    /// ended.
    pub open spec fn after_failure(self) -> Geyser {
        Geyser {
            reconnect_counter: if self.reconnect_counter == 0 {
                1
            } else {
                self.reconnect_counter
            },
            ..self
        }
    }

    /// The connection or the subscription failed.
    pub fn failed(&mut self)
        requires
            old(self).wf(),
        ensures
            *final(self) == old(self).after_failure(),
            final(self).wf(),
    {
        if self.reconnect_counter == 0 {
            self.reconnect_counter = 1;
        }
    }

    /// The stream ended, or gave an error in place of an update.
    pub fn ended(&mut self)
        requires
            old(self).wf(),
        ensures
            *final(self) == old(self).after_failure(),
            final(self).wf(),
    {
        self.failed();
    }

    /// The state after an update.
    pub open spec fn updated(self, update: Update) -> Geyser {
        match update {
            Update::Slot { slot } => Geyser { last_seen_slot: slot, ..self },
            _ => self,
        }
    }

    /// Takes an update. Gives the event for the receiver, if there is one.
    pub fn on_update(&mut self, update: Update) -> (event: Option<GeyserStream>)
        ensures
            match event {
                Some(e) => tells(update, e),
                None => is_silent(update),
            },
            *final(self) == old(self).updated(update),
    {
        match update {
            Update::Slot { slot } => {
                self.last_seen_slot = slot;
                Some(GeyserStream::StreamCompleteOnSlot(slot))
            },
            Update::BlockMeta { slot, blockhash } => {
                let hash = match blockhash_from_text(blockhash.as_str()) {
                    Ok(hash) => Some(hash),
                    Err(_) => None,
                };
                block_event(slot, hash)
            },
            Update::TransactionStatus { slot, signature, error } => match Signature::from_bytes(
                &signature,
            ) {
                Some(signature) => Some(
                    GeyserStream::TransactionStatus { slot, signature, error },
                ),
                None => None,
            },
            Update::Ping => None,
            Update::Pong => None,
            Update::Other => None,
        }
    }
}

/// The pause before the next connection after so many failures in a row.
pub open spec fn backoff(failures: nat) -> nat {
    if failures >= 7 {
        64
    } else {
        vstd::arithmetic::power2::pow2((failures - 1) as nat)
    }
}

/// The state after a number of connections that all failed.
pub open spec fn after_failures(state: Geyser, failures: nat) -> Geyser
    decreases failures,
{
    if failures == 0 {
        state
    } else {
        after_failures(state, (failures - 1) as nat).begun().after_failure()
    }
}

/// From a fresh connection the pause is 1 second after the first failure and
/// doubles with each further one up to 64 seconds.
pub proof fn pauses_double(state: Geyser, failures: nat)
    requires
        state.reconnect_counter == 0,
        failures > 0,
    ensures
        after_failures(state, failures).reconnect_counter == backoff(failures),
        after_failures(state, failures).wf(),
    decreases failures,
{
    if failures == 1 {
        vstd::arithmetic::power2::lemma2_to64();
        assert(after_failures(state, 0) == state);
    } else {
        pauses_double(state, (failures - 1) as nat);
        vstd::arithmetic::power2::lemma2_to64();
    }
}

/// After a failure, or the end of a stream, the subscription resumes at the last
/// slot that was seen.
pub proof fn resumes_where_it_stopped(state: Geyser)
    requires
        state.last_seen_slot > 0,
    ensures
        state.after_failure().begun().from_slot == Some(state.last_seen_slot),
{
}

/// No connection follows another without a pause, however the first came to its
/// end, and the pause before the one after is twice as long, up to its bound.
pub proof fn reconnections_back_off(state: Geyser)
    requires
        state.wf(),
    ensures
        1 <= state.after_failure().reconnect_counter <= MAX_PAUSE_SECS,
        state.after_failure().begun().after_failure().reconnect_counter == if 2
            * state.after_failure().reconnect_counter < MAX_PAUSE_SECS {
            2 * state.after_failure().reconnect_counter
        } else {
            MAX_PAUSE_SECS as int
        },
{
}

/// Of an update the receiver is told the slot, the block with its hash, or the
/// status with its transaction and its error, as they came.
pub proof fn updates_are_told_as_they_came(update: Update, event: GeyserStream)
    requires
        tells(update, event),
    ensures
        update matches Update::Slot { slot } ==> event == GeyserStream::StreamCompleteOnSlot(slot),
        update matches Update::BlockMeta { slot, blockhash } ==> event matches GeyserStream::BlockHash {
            slot: at,
            hash,
        } && at == slot && solana::hash_bytes(blockhash@) == Some(hash@),
        update matches Update::TransactionStatus { slot, signature, error }
            ==> event matches GeyserStream::TransactionStatus {
            slot: at,
            signature: of,
            error: why,
        } && at == slot && of@ == signature@ && (why is Some <==> error is Some) && (error is Some
            ==> why->0@ == error->0@),
        !(update is Ping) && !(update is Pong) && !(update is Other),
{
}

/// An update is kept from the receiver exactly where it is none of interest, a
/// block whose hash cannot be read, or a status whose signature has another length
/// than 64 bytes.
pub proof fn updates_of_interest_are_told(update: Update)
    ensures
        is_silent(update) <==> match update {
            Update::Slot { slot } => false,
            Update::BlockMeta { slot, blockhash } => solana::hash_bytes(blockhash@) is None,
            Update::TransactionStatus { slot, signature, error } => signature@.len() < 64
                || signature@.len() > 64,
            Update::Ping => true,
            Update::Pong => true,
            Update::Other => true,
        },
{
}

/// A slot is remembered as the last that was seen; nothing else changes the state.
pub proof fn slots_are_remembered(state: Geyser, update: Update)
    ensures
        update matches Update::Slot { slot } ==> state.updated(update).last_seen_slot == slot,
        !(update is Slot) ==> state.updated(update) == state,
        state.updated(update).reconnect_counter == state.reconnect_counter,
        state.updated(update).from_slot == state.from_slot,
{
}

/// The first connection comes without a pause and asks from the slot that was
/// given; it counts as the last one seen.
pub proof fn first_connections_come_at_once(from_slot: Option<u64>)
    ensures
        Geyser::started(from_slot).reconnect_counter == 0,
        Geyser::started(from_slot).from_slot == from_slot,
        from_slot matches Some(slot) ==> Geyser::started(from_slot).last_seen_slot == slot,
        from_slot is None ==> Geyser::started(from_slot).last_seen_slot == 0,
        Geyser::started(from_slot).begun() == Geyser::started(from_slot),
{
}

/// Between connections the last slot that was seen stays, and where none was the
/// subscription starts anew. A failure alone changes nothing but the pause.
pub proof fn failures_keep_what_was_seen(state: Geyser)
    ensures
        state.begun().last_seen_slot == state.last_seen_slot,
        state.after_failure().last_seen_slot == state.last_seen_slot,
        state.after_failure().from_slot == state.from_slot,
        state.reconnect_counter > 0 ==> state.after_failure() == state,
        state.reconnect_counter == 0 ==> state.after_failure().reconnect_counter == 1,
        state.last_seen_slot == 0 ==> state.after_failure().begun().from_slot is None,
        MAX_PAUSE_SECS == 64,
{
}

} // verus!
