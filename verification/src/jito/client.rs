//! The block engine's client: tips, the leader schedule, and the submission of
//! bundles.

use crate::jito::tip::TipData;
use crate::solana;
use crate::solana::{pubkey_from_text, Pubkey, SignedTransaction};
use crate::text;
use crate::text::{join2, parse_u64, starts_with};
use std::collections::BTreeMap;
use vstd::prelude::*;
use vstd::std_specs::cmp::OrdSpec;
use vstd::std_specs::iter::IteratorSpec;

verus! {

/// How often a request to the block engine is tried.
pub const MAX_RETRIES: usize = 5;

/// How often a bundle is sent again when the block engine limits the rate.
pub const MAX_RATE_LIMIT_RETRIES: usize = 5;

/// The pause before a request is repeated, in milliseconds, where the block
/// engine names none.
pub const DEFAULT_RATE_LIMIT_RETRY_MS: u64 = 1_000;

/// How often a pending leader is looked for, in milliseconds.
pub const LEADER_POLL_MS: u64 = 250;

/// Where the block engine is.
#[derive(Clone, Debug)]
pub struct JitoConfig {
    pub block_engine_url: String,
}

/// A bundle that the block engine took.
#[derive(Clone, Debug)]
pub struct SentBundle {
    pub bundle_id: String,
}

/// What became of a bundle.
#[derive(Clone, Debug)]
pub enum BundleEvent {
    Accepted { bundle_id: String, slot: u64, validator_identity: String },
    Processed { bundle_id: String, slot: u64, validator_identity: String },
    Finalized { bundle_id: String },
    Dropped { bundle_id: String, reason: String },
    Rejected { bundle_id: String, reason: String },
}

/// What a bundle event holds.
pub ghost enum BundleEventView {
    Accepted { bundle_id: Seq<char>, slot: u64, validator_identity: Seq<char> },
    Processed { bundle_id: Seq<char>, slot: u64, validator_identity: Seq<char> },
    Finalized { bundle_id: Seq<char> },
    Dropped { bundle_id: Seq<char>, reason: Seq<char> },
    Rejected { bundle_id: Seq<char>, reason: Seq<char> },
}

impl BundleEventView {
    /// The bundle that the event is about.
    pub open spec fn bundle(self) -> Seq<char> {
        match self {
            BundleEventView::Accepted { bundle_id, .. } => bundle_id,
            BundleEventView::Processed { bundle_id, .. } => bundle_id,
            BundleEventView::Finalized { bundle_id } => bundle_id,
            BundleEventView::Dropped { bundle_id, .. } => bundle_id,
            BundleEventView::Rejected { bundle_id, .. } => bundle_id,
        }
    }
}

impl View for BundleEvent {
    type V = BundleEventView;

    open spec fn view(&self) -> BundleEventView {
        match *self {
            BundleEvent::Accepted { bundle_id, slot, validator_identity } =>
                BundleEventView::Accepted {
                    bundle_id: bundle_id@,
                    slot,
                    validator_identity: validator_identity@,
                },
            BundleEvent::Processed { bundle_id, slot, validator_identity } =>
                BundleEventView::Processed {
                    bundle_id: bundle_id@,
                    slot,
                    validator_identity: validator_identity@,
                },
            BundleEvent::Finalized { bundle_id } => BundleEventView::Finalized {
                bundle_id: bundle_id@,
            },
            BundleEvent::Dropped { bundle_id, reason } => BundleEventView::Dropped {
                bundle_id: bundle_id@,
                reason: reason@,
            },
            BundleEvent::Rejected { bundle_id, reason } => BundleEventView::Rejected {
                bundle_id: bundle_id@,
                reason: reason@,
            },
        }
    }
}

/// The outcome that the block engine reports of a bundle.
#[derive(Debug)]
pub enum BundleOutcome {
    Accepted { slot: u64, validator_identity: String },
    Processed { slot: u64, validator_identity: String },
    Finalized,
    Dropped { reason: String },
    Rejected { reason: String },
}

/// A report of the block engine on a bundle, which may lack the outcome.
#[derive(Debug)]
pub struct BundleResult {
    pub bundle_id: String,
    pub result: Option<BundleOutcome>,
}

/// The event that a report stands for; one without an outcome is a rejection.
pub open spec fn event_of(bundle_id: Seq<char>, result: Option<BundleOutcome>) -> BundleEventView {
    match result {
        Some(BundleOutcome::Accepted { slot, validator_identity }) => BundleEventView::Accepted {
            bundle_id,
            slot,
            validator_identity: validator_identity@,
        },
        Some(BundleOutcome::Processed { slot, validator_identity }) => BundleEventView::Processed {
            bundle_id,
            slot,
            validator_identity: validator_identity@,
        },
        Some(BundleOutcome::Finalized) => BundleEventView::Finalized { bundle_id },
        Some(BundleOutcome::Dropped { reason }) => BundleEventView::Dropped {
            bundle_id,
            reason: reason@,
        },
        Some(BundleOutcome::Rejected { reason }) => BundleEventView::Rejected {
            bundle_id,
            reason: reason@,
        },
        None => BundleEventView::Rejected { bundle_id, reason: "empty Jito bundle result"@ },
    }
}

/// The event that a report stands for.
pub fn emit_bundle_result(bundle: BundleResult) -> (event: BundleEvent)
    ensures
        event@ == event_of(bundle.bundle_id@, bundle.result),
        event@.bundle() == bundle.bundle_id@,
{
    let bundle_id = bundle.bundle_id;
    match bundle.result {
        Some(BundleOutcome::Accepted { slot, validator_identity }) => BundleEvent::Accepted {
            bundle_id,
            slot,
            validator_identity,
        },
        Some(BundleOutcome::Processed { slot, validator_identity }) => BundleEvent::Processed {
            bundle_id,
            slot,
            validator_identity,
        },
        Some(BundleOutcome::Finalized) => BundleEvent::Finalized { bundle_id },
        Some(BundleOutcome::Dropped { reason }) => BundleEvent::Dropped { bundle_id, reason },
        Some(BundleOutcome::Rejected { reason }) => BundleEvent::Rejected { bundle_id, reason },
        None => BundleEvent::Rejected {
            bundle_id,
            reason: "empty Jito bundle result".to_owned(),
        },
    }
}

/// A transaction as the block engine takes it: its wire form and the length.
#[derive(Debug)]
pub struct Packet {
    pub data: Vec<u8>,
    pub size: u64,
    pub addr: String,
    pub port: u32,
    pub sender_stake: u64,
}

/// The packet that carries a transaction unchanged.
pub fn serialize_versioned_tx(tx: &SignedTransaction) -> (packet: Packet)
    ensures
        packet.data@ == tx@,
        packet.size == tx@.len(),
        packet.addr@ == Seq::<char>::empty(),
        packet.port == 0,
        packet.sender_stake == 0,
{
    let data = tx.to_bytes();
    let size: u64 = data.len() as u64;
    Packet { data, size, addr: String::new(), port: 0, sender_stake: 0 }
}

/// Where tips go when the block engine names no account: the address
/// `DfXygSm4jCyNCybVYYK6DwvWqjKee8pbDmJGcLWNDXjh`.
pub open spec fn default_tip_bytes() -> Seq<u8> {
    seq![
        188, 43, 87, 6, 94, 241, 221, 102, 84, 48, 190, 96, 107, 166, 89, 108, 2, 149, 48, 27, 173,
        239, 139, 90, 252, 65, 1, 65, 80, 244, 18, 116,
    ]
}

/// Where tips go when the block engine names no account.
pub fn default_jito_tip_address() -> (key: Pubkey)
    ensures
        key@ == default_tip_bytes(),
{
    let key = Pubkey {
        bytes: [
            188, 43, 87, 6, 94, 241, 221, 102, 84, 48, 190, 96, 107, 166, 89, 108, 2, 149, 48, 27,
            173, 239, 139, 90, 252, 65, 1, 65, 80, 244, 18, 116,
        ],
    };
    assert(key@ =~= default_tip_bytes());
    key
}

/// The addresses among a list of texts.
pub open spec fn addresses_of(list: Seq<Seq<char>>) -> Seq<Seq<u8>>
    decreases list.len(),
{
    if list.len() == 0 {
        Seq::empty()
    } else {
        match solana::address_bytes(list.last()) {
            Some(bytes) => addresses_of(list.drop_last()).push(bytes),
            None => addresses_of(list.drop_last()),
        }
    }
}

/// The tip accounts that a reply names, or the default one without a reply.
pub open spec fn accounts_named(reply: Option<Seq<Seq<char>>>) -> Seq<Seq<u8>> {
    match reply {
        Some(list) => addresses_of(list),
        None => seq![default_tip_bytes()],
    }
}

/// The views of a list of addresses.
pub open spec fn key_views(list: Seq<Pubkey>) -> Seq<Seq<u8>> {
    list.map_values(|k: Pubkey| k@)
}

/// Where a tip goes, by the accounts that the block engine named.
pub open spec fn tip_goes_to(accounts: Seq<Seq<u8>>) -> Seq<u8> {
    if accounts.len() > 0 {
        accounts[0]
    } else {
        default_tip_bytes()
    }
}

/// The tip accounts that the block engine's reply names: those of its texts that
/// are addresses, or the default account where there was no reply.
pub fn tip_accounts_with_fallback(reply: Option<Vec<String>>) -> (accounts: Vec<Pubkey>)
    ensures
        key_views(accounts@) == accounts_named(
            match reply {
                Some(list) => Some(text::texts(list@)),
                None => None,
            },
        ),
{
    let mut accounts: Vec<Pubkey> = Vec::new();
    match reply {
        Some(list) => {
            assert(key_views(accounts@) =~= Seq::<Seq<u8>>::empty());
            assert(text::texts(list@.take(0)) =~= Seq::<Seq<char>>::empty());
            for i in 0..list.len()
                invariant
                    key_views(accounts@) == addresses_of(text::texts(list@.take(i as int))),
            {
                proof {
                    let next = text::texts(list@.take(i + 1));
                    assert(next.drop_last() =~= text::texts(list@.take(i as int)));
                    assert(next.last() == list@[i as int]@);
                }
                let ghost before = accounts@;
                match pubkey_from_text(list[i].as_str()) {
                    Ok(key) => {
                        accounts.push(key);
                        assert(key_views(accounts@) =~= key_views(before).push(key@));
                    },
                    Err(_) => {},
                }
            }
            assert(list@.take(list@.len() as int) =~= list@);
        },
        None => {
            accounts.push(default_jito_tip_address());
            assert(key_views(accounts@) =~= seq![default_tip_bytes()]);
        },
    }
    accounts
}

/// The leaders of a schedule by slot.
pub open spec fn leaders(schedule: Map<u64, Pubkey>) -> Map<u64, Seq<u8>> {
    schedule.map_values(|k: Pubkey| k@)
}

/// The future slots that a reply assigns to validators. A validator whose name
/// is no address is left out; of two that claim a slot the later has it.
pub open spec fn scheduled(
    list: Seq<(Seq<char>, Seq<u64>)>,
    current_slot: u64,
) -> Map<u64, Seq<u8>>
    decreases list.len(),
{
    if list.len() == 0 {
        Map::empty()
    } else {
        let rest = scheduled(list.drop_last(), current_slot);
        match solana::address_bytes(list.last().0) {
            Some(key) => rest.union_prefer_right(
                Map::new(
                    |slot: u64| list.last().1.contains(slot) && slot >= current_slot,
                    |slot: u64| key,
                ),
            ),
            None => rest,
        }
    }
}

/// The schedule after a reply, or after none.
pub open spec fn schedule_after(
    before: Map<u64, Seq<u8>>,
    reply: Option<Seq<(Seq<char>, Seq<u64>)>>,
    current_slot: u64,
) -> Map<u64, Seq<u8>> {
    match reply {
        Some(list) => scheduled(list, current_slot),
        None => before,
    }
}

/// A validator that is connected to the block engine, with its slots.
#[derive(Debug)]
pub struct ConnectedValidator {
    pub identity: String,
    pub slots: Vec<u64>,
}

/// What a list of connected validators holds.
pub open spec fn validator_views(list: Seq<ConnectedValidator>) -> Seq<(Seq<char>, Seq<u64>)> {
    list.map_values(|v: ConnectedValidator| (v.identity@, v.slots@))
}

/// Slots are ordered as numbers are.
proof fn slots_are_ordered()
    ensures
        vstd::laws_cmp::obeys_cmp::<u64>(),
        forall|a: u64, b: u64| (#[trigger] a.cmp_spec(&b) is Less) <==> a < b,
{
    broadcast use vstd::laws_cmp::group_laws_cmp;

}

/// Adds a validator's future slots to a schedule.
pub fn add_slots(
    schedule: &mut BTreeMap<u64, Pubkey>,
    leader: Pubkey,
    slots: &Vec<u64>,
    current_slot: u64,
)
    ensures
        leaders(final(schedule)@) == leaders(old(schedule)@).union_prefer_right(
            Map::new(
                |slot: u64| slots@.contains(slot) && slot >= current_slot,
                |slot: u64| leader@,
            ),
        ),
{
    let ghost before = leaders(schedule@);
    for i in 0..slots.len()
        invariant
            leaders(schedule@) == before.union_prefer_right(
                Map::new(
                    |slot: u64| slots@.take(i as int).contains(slot) && slot >= current_slot,
                    |slot: u64| leader@,
                ),
            ),
    {
        let slot: u64 = slots[i];
        let ghost prior = schedule@;
        assert(slots@.take(i + 1) =~= slots@.take(i as int).push(slot));
        if slot >= current_slot {
            proof {
                slots_are_ordered();
            }
            schedule.insert(slot, leader);
            assert(leaders(schedule@) =~= leaders(prior).insert(slot, leader@));
        }
        proof {
            let seen = slots@.take(i as int);
            assert forall|s: u64| #[trigger]
                slots@.take(i + 1).contains(s) <==> (seen.contains(s) || s == slot) by {
                if seen.contains(s) {
                    let k = choose|k: int| 0 <= k < seen.len() && seen[k] == s;
                    assert(slots@.take(i + 1)[k] == s);
                }
                if s == slot {
                    assert(slots@.take(i + 1)[i as int] == s);
                }
            }
            assert(leaders(schedule@) =~= before.union_prefer_right(
                Map::new(
                    |slot: u64| slots@.take(i + 1).contains(slot) && slot >= current_slot,
                    |slot: u64| leader@,
                ),
            ));
        }
    }
    assert(slots@.take(slots@.len() as int) =~= slots@);
}

/// The schedule of the future slots that a reply assigns to validators.
pub fn schedule_from(validators: &Vec<ConnectedValidator>, current_slot: u64) -> (schedule:
    BTreeMap<u64, Pubkey>)
    ensures
        leaders(schedule@) == scheduled(validator_views(validators@), current_slot),
{
    let mut schedule: BTreeMap<u64, Pubkey> = BTreeMap::new();
    assert(leaders(schedule@) =~= Map::empty());
    assert(validator_views(validators@.take(0)) =~= Seq::empty());
    for i in 0..validators.len()
        invariant
            leaders(schedule@) == scheduled(
                validator_views(validators@.take(i as int)),
                current_slot,
            ),
    {
        let validator = &validators[i];
        proof {
            let next = validator_views(validators@.take(i + 1));
            assert(next.drop_last() =~= validator_views(validators@.take(i as int)));
            assert(next.last() == (validator.identity@, validator.slots@));
        }
        match pubkey_from_text(validator.identity.as_str()) {
            Ok(key) => add_slots(&mut schedule, key, &validator.slots, current_slot),
            Err(_) => {},
        }
    }
    assert(validators@.take(validators@.len() as int) =~= validators@);
    schedule
}

/// What the client knows of the block engine.
#[derive(Debug)]
pub struct JitoClient {
    pub current_slot: u64,
    pub leader_schedule: BTreeMap<u64, Pubkey>,
    pub tip: TipData,
    pub tip_accounts: Vec<Pubkey>,
}

/// Whether a slot is the first of a schedule from the current one on.
pub open spec fn is_next_leader(schedule: Map<u64, Pubkey>, current_slot: u64, slot: u64) -> bool {
    &&& schedule.contains_key(slot)
    &&& current_slot <= slot
    &&& forall|other: u64| #[trigger]
        schedule.contains_key(other) && current_slot <= other ==> slot <= other
}

/// The first slot of a schedule from the current one on.
pub open spec fn next_slot(schedule: Map<u64, Pubkey>, current_slot: u64) -> Option<u64> {
    if exists|slot: u64| is_next_leader(schedule, current_slot, slot) {
        Some(choose|slot: u64| is_next_leader(schedule, current_slot, slot))
    } else {
        None
    }
}

/// No two slots are both the first of a schedule.
pub proof fn next_leader_is_unique(schedule: Map<u64, Pubkey>, current_slot: u64, slot: u64)
    requires
        is_next_leader(schedule, current_slot, slot),
    ensures
        next_slot(schedule, current_slot) == Some(slot),
{
}

/// The difference of two slots, or 0 where the first is the larger.
pub open spec fn slots_from(start: u64, end: u64) -> u64 {
    if start <= end {
        (end - start) as u64
    } else {
        0
    }
}

/// How far the next slot of a leader is from the current one.
pub open spec fn distance_to(next: Option<u64>, current_slot: u64) -> Option<u64> {
    match next {
        Some(slot) => Some((slot - current_slot) as u64),
        None => None,
    }
}

/// What to do while a leader is waited for, by the next slot of a leader.
pub open spec fn leader_wait(
    next: Option<u64>,
    current_slot: u64,
    start_slot: u64,
    lookahead_slots: u64,
    max_wait_slots: u64,
) -> LeaderWait {
    match next {
        None => if slots_from(start_slot, current_slot) >= max_wait_slots {
            LeaderWait::GiveUp
        } else {
            LeaderWait::Refresh
        },
        Some(slot) => if slot <= current_slot + lookahead_slots {
            LeaderWait::Ready(slot)
        } else if slots_from(start_slot, current_slot) >= max_wait_slots {
            LeaderWait::GiveUp
        } else {
            LeaderWait::Sleep
        },
    }
}

/// What to do while a leader is waited for.
#[derive(Clone, Copy, Debug, PartialEq, Eq, Structural)]
pub enum LeaderWait {
    /// The leader's slot is near enough.
    Ready(u64),
    /// The wait was too long.
    GiveUp,
    /// No leader is known: ask for the schedule, then look again.
    Refresh,
    /// The leader is far: look again later.
    Sleep,
}

impl JitoClient {
    /// A client that has not seen a slot yet.
    pub fn new(tip: TipData, tip_accounts: Vec<Pubkey>) -> (client: JitoClient)
        ensures
            client.current_slot == 0,
            client.leader_schedule@ == Map::<u64, Pubkey>::empty(),
            client.tip == tip,
            client.tip_accounts == tip_accounts,
    {
        JitoClient { current_slot: 0, leader_schedule: BTreeMap::new(), tip, tip_accounts }
    }

    /// The latest tips.
    pub fn tip_data(&self) -> (tip: TipData)
        ensures
            tip == self.tip,
    {
        self.tip.clone()
    }

    /// Where a tip goes: the first account that the block engine named, or the
    /// default one.
    pub fn tip_account(&self) -> (key: Pubkey)
        ensures
            self.tip_accounts@.len() > 0 ==> key == self.tip_accounts@[0],
            key@ == tip_goes_to(key_views(self.tip_accounts@)),
    {
        if self.tip_accounts.len() > 0 {
            assert(key_views(self.tip_accounts@)[0] == self.tip_accounts@[0]@);
            self.tip_accounts[0]
        } else {
            default_jito_tip_address()
        }
    }

    pub fn update_current_slot(&mut self, slot: u64)
        ensures
            *final(self) == (JitoClient { current_slot: slot, ..*old(self) }),
    {
        self.current_slot = slot;
    }

    pub fn current_slot(&self) -> (slot: u64)
        ensures
            slot == self.current_slot,
    {
        self.current_slot
    }

    /// The next slot of a connected leader, and the leader.
    pub fn next_leader_slot(&self) -> (next: Option<(u64, Pubkey)>)
        ensures
            match next {
                Some((slot, leader)) => {
                    &&& next_slot(self.leader_schedule@, self.current_slot) == Some(slot)
                    &&& is_next_leader(self.leader_schedule@, self.current_slot, slot)
                    &&& leader == self.leader_schedule@[slot]
                },
                None => {
                    &&& next_slot(self.leader_schedule@, self.current_slot) is None
                    &&& forall|slot: u64| #[trigger]
                        self.leader_schedule@.contains_key(slot) ==> slot < self.current_slot
                },
            },
    {
        proof {
            slots_are_ordered();
        }
        let entries = self.leader_schedule.iter();
        let ghost listed = entries.remaining();
        let ghost slots = listed.map_values(|e: (&u64, &Pubkey)| *e.0);
        proof {
            assert(vstd::std_specs::btree::increasing_seq(slots));
            assert forall|i: int, j: int| 0 <= i < j < listed.len() implies *(
            #[trigger] listed[i]).0 < *(#[trigger] listed[j]).0 by {
                assert(slots[i].cmp_spec(&slots[j]) is Less);
            }
            assert forall|slot: u64| #[trigger]
                self.leader_schedule@.contains_key(slot) implies exists|j: int|
                0 <= j < listed.len() && *(#[trigger] listed[j]).0 == slot by {
                let j = choose|j: int|
                    0 <= j < listed.len() && listed[j] == (&slot, &self.leader_schedule@[slot]);
                assert(*listed[j].0 == slot);
            }
        }
        for entry in it: entries
            invariant
                it.seq() == listed,
                forall|i: int, j: int|
                    0 <= i < j < listed.len() ==> *(#[trigger] listed[i]).0 < *(
                    #[trigger] listed[j]).0,
                forall|j: int|
                    0 <= j < listed.len() ==> self.leader_schedule@.contains_key(
                        *(#[trigger] listed[j]).0,
                    ) && self.leader_schedule@[*listed[j].0] == *listed[j].1,
                forall|slot: u64| #[trigger]
                    self.leader_schedule@.contains_key(slot) ==> exists|j: int|
                        0 <= j < listed.len() && *(#[trigger] listed[j]).0 == slot,
                forall|j: int|
                    0 <= j < it.index() ==> *(#[trigger] listed[j]).0 < self.current_slot,
        {
            if *entry.0 >= self.current_slot {
                proof {
                    assert(is_next_leader(self.leader_schedule@, self.current_slot, *entry.0));
                    next_leader_is_unique(self.leader_schedule@, self.current_slot, *entry.0);
                }
                return Some((*entry.0, *entry.1));
            }
        }
        None
    }

    /// How far the next slot of a connected leader is.
    pub fn slots_until_next_leader(&self) -> (distance: Option<u64>)
        ensures
            distance == distance_to(
                next_slot(self.leader_schedule@, self.current_slot),
                self.current_slot,
            ),
    {
        match self.next_leader_slot() {
            Some((slot, _)) => Some(slot.saturating_sub(self.current_slot)),
            None => None,
        }
    }

    /// One step of the wait for a leader whose slot is at most the lookahead
    /// away. The wait began at `start_slot` and lasts `max_wait_slots` at most,
    /// whether a leader is known or not.
    pub fn wait_for_leader_window(
        &self,
        start_slot: u64,
        lookahead_slots: u64,
        max_wait_slots: u64,
    ) -> (step: LeaderWait)
        ensures
            step == leader_wait(
                next_slot(self.leader_schedule@, self.current_slot),
                self.current_slot,
                start_slot,
                lookahead_slots,
                max_wait_slots,
            ),
    {
        match self.next_leader_slot() {
            Some((leader_slot, _)) => {
                if leader_slot <= self.current_slot.saturating_add(lookahead_slots) {
                    LeaderWait::Ready(leader_slot)
                } else if self.current_slot.saturating_sub(start_slot) >= max_wait_slots {
                    LeaderWait::GiveUp
                } else {
                    LeaderWait::Sleep
                }
            },
            None => {
                if self.current_slot.saturating_sub(start_slot) >= max_wait_slots {
                    LeaderWait::GiveUp
                } else {
                    LeaderWait::Refresh
                }
            },
        }
    }

    /// Begins to send a transaction as a bundle of its own.
    pub fn send_bundle(&self, transaction: &SignedTransaction) -> (send: BundleSend)
        ensures
            send.packet.data@ == transaction@,
            send.packet.size == transaction@.len(),
            send.retry_attempt == 0,
            send.wf(),
    {
        BundleSend { packet: serialize_versioned_tx(transaction), retry_attempt: 0 }
    }

    /// Takes over the schedule of a reply; without a reply the old one stays.
    pub fn refresh_leader_schedule(&mut self, reply: Option<Vec<ConnectedValidator>>)
        ensures
            leaders(final(self).leader_schedule@) == schedule_after(
                leaders(old(self).leader_schedule@),
                match reply {
                    Some(list) => Some(validator_views(list@)),
                    None => None,
                },
                old(self).current_slot,
            ),
            final(self).current_slot == old(self).current_slot,
            final(self).tip == old(self).tip,
            final(self).tip_accounts == old(self).tip_accounts,
    {
        match reply {
            Some(list) => {
                self.leader_schedule = schedule_from(&list, self.current_slot);
            },
            None => {},
        }
    }

    /// Takes over new tips; the end of the stream changes nothing.
    pub fn update_tip(&mut self, tip: Option<TipData>)
        ensures
            *final(self) == match tip {
                Some(tip) => (JitoClient { tip, ..*old(self) }),
                None => *old(self),
            },
    {
        match tip {
            Some(tip) => {
                self.tip = tip;
            },
            None => {},
        }
    }
}

/// A refreshed schedule holds no slot before the current one, and every slot of
/// it belongs to a validator of the reply that claims it.
pub proof fn refreshed_slots_are_claimed(
    list: Seq<(Seq<char>, Seq<u64>)>,
    current_slot: u64,
    slot: u64,
)
    requires
        scheduled(list, current_slot).contains_key(slot),
    ensures
        current_slot <= slot,
        exists|i: int|
            0 <= i < list.len() && (#[trigger] list[i]).1.contains(slot) && solana::address_bytes(
                list[i].0,
            ) == Some(scheduled(list, current_slot)[slot]),
    decreases list.len(),
{
    let rest = list.drop_last();
    let last = list.last();
    if solana::address_bytes(last.0) is Some && last.1.contains(slot) && slot >= current_slot {
        assert(list[list.len() - 1] == last);
    } else {
        refreshed_slots_are_claimed(rest, current_slot, slot);
        let i = choose|i: int|
            0 <= i < rest.len() && (#[trigger] rest[i]).1.contains(slot) && solana::address_bytes(
                rest[i].0,
            ) == Some(scheduled(rest, current_slot)[slot]);
        assert(list[i] == rest[i]);
    }
}

/// A leader that is waited for successfully is one of the schedule, not past,
/// and within the lookahead.
pub proof fn ready_leader_is_in_window(
    schedule: Map<u64, Pubkey>,
    current_slot: u64,
    start_slot: u64,
    lookahead_slots: u64,
    max_wait_slots: u64,
    slot: u64,
)
    requires
        leader_wait(
            next_slot(schedule, current_slot),
            current_slot,
            start_slot,
            lookahead_slots,
            max_wait_slots,
        ) == LeaderWait::Ready(slot),
    ensures
        schedule.contains_key(slot),
        current_slot <= slot <= current_slot + lookahead_slots,
{
}

/// The wait ends once the slots it may last have gone by, whether a leader is
/// known or not.
pub proof fn leader_wait_ends(
    schedule: Map<u64, Pubkey>,
    current_slot: u64,
    start_slot: u64,
    lookahead_slots: u64,
    max_wait_slots: u64,
)
    requires
        start_slot + max_wait_slots <= current_slot,
    ensures
        ({
            let step = leader_wait(
                next_slot(schedule, current_slot),
                current_slot,
                start_slot,
                lookahead_slots,
                max_wait_slots,
            );
            step is Ready || step is GiveUp
        }),
{
}

/// What came of the wait for the first tips.
#[derive(Debug)]
pub enum FirstTip<T> {
    Arrived(T),
    Closed,
    TimedOut,
}

/// The first tips, where they came; nothing where the wait timed out and they
/// are to be fetched; an error where the stream closed.
pub fn fetch_tip_data<T>(first: FirstTip<T>) -> (out: Result<Option<T>, &'static str>)
    ensures
        match first {
            FirstTip::Arrived(tip) => out == Ok::<Option<T>, &'static str>(Some(tip)),
            FirstTip::Closed => out matches Err(message) && message@
                == "Jito tip stream closed before first tip"@,
            FirstTip::TimedOut => out == Ok::<Option<T>, &'static str>(None),
        },
{
    match first {
        FirstTip::Arrived(tip) => Ok(Some(tip)),
        FirstTip::Closed => Err("Jito tip stream closed before first tip"),
        FirstTip::TimedOut => Ok(None),
    }
}

/// Counts the tries of a request to the block engine.
#[derive(Clone, Copy, Debug, PartialEq, Eq, Structural)]
pub struct Tries {
    pub made: usize,
    pub max: usize,
}

impl Tries {
    pub fn start(max: usize) -> (tries: Tries)
        ensures
            tries == (Tries { made: 0, max }),
    {
        Tries { made: 0, max }
    }

    /// Whether the request is tried once more, and the number of that try.
    pub fn next(&mut self) -> (attempt: Option<usize>)
        requires
            old(self).made <= old(self).max,
        ensures
            final(self).made <= final(self).max,
            tried(*old(self), attempt, *final(self)),
    {
        if self.made < self.max {
            self.made = self.made + 1;
            Some(self.made)
        } else {
            None
        }
    }
}

/// Whether a count of tries follows from another, with the number of the try that
/// is made, if one is.
pub open spec fn tried(before: Tries, attempt: Option<usize>, after: Tries) -> bool {
    &&& after.max == before.max
    &&& match attempt {
        Some(n) => before.made < before.max && n == before.made + 1 && after.made == n,
        None => before.made == before.max && after.made == before.made,
    }
}

/// The block engine's answer to a bundle.
#[derive(Debug)]
pub enum SendReply {
    /// The bundle was taken.
    Taken { uuid: String },
    /// The rate is limited; the answer may say how long to wait.
    RateLimited { wait_ms: Option<String>, status: String },
    /// The bundle was refused.
    Failed { status: String },
}

/// What to do after an answer.
#[derive(Debug)]
pub enum SendStep {
    /// The bundle is on its way.
    Sent(SentBundle),
    /// Send the bundle again after a pause in milliseconds.
    RetryAfter(u64),
    /// Give up for the stated reason.
    Failed(String),
}

/// The pause that an answer asks for.
pub open spec fn retry_pause(wait_ms: Option<Seq<char>>) -> nat {
    match wait_ms {
        Some(wait) => match text::parse_unsigned(wait, u64::MAX as nat) {
            Some(ms) => ms,
            None => DEFAULT_RATE_LIMIT_RETRY_MS as nat,
        },
        None => DEFAULT_RATE_LIMIT_RETRY_MS as nat,
    }
}

/// The pause in milliseconds that an answer's header asks for, or the default
/// where it is missing or no number.
pub fn retry_after_from_status(wait_ms: &Option<String>) -> (ms: u64)
    ensures
        ms == retry_pause(text::opt_text(*wait_ms)),
{
    match wait_ms {
        Some(wait) => match parse_u64(wait.as_str()) {
            Some(ms) => ms,
            None => DEFAULT_RATE_LIMIT_RETRY_MS,
        },
        None => DEFAULT_RATE_LIMIT_RETRY_MS,
    }
}

/// The submission of one bundle: the packet that is sent, and how often it was
/// sent again.
#[derive(Debug)]
pub struct BundleSend {
    pub packet: Packet,
    pub retry_attempt: usize,
}

impl BundleSend {
    /// Whether the bundle may still be sent.
    pub open spec fn wf(self) -> bool {
        self.retry_attempt <= MAX_RATE_LIMIT_RETRIES
    }

    /// What to do after an answer. Only a rate limit leads to another try, and
    /// only so many of them.
    pub fn on_reply(&mut self, reply: SendReply) -> (step: SendStep)
        requires
            old(self).wf(),
        ensures
            answered(*old(self), reply, step, *final(self)),
            step is RetryAfter ==> sent_again(*old(self), *final(self)),
    {
        match reply {
            SendReply::Taken { uuid } => SendStep::Sent(SentBundle { bundle_id: uuid }),
            SendReply::RateLimited { wait_ms, status } => {
                self.retry_attempt = self.retry_attempt + 1;
                if self.retry_attempt > MAX_RATE_LIMIT_RETRIES {
                    SendStep::Failed(
                        join2("Jito rate limited send_bundle after 5 retries: ", status.as_str()),
                    )
                } else {
                    SendStep::RetryAfter(retry_after_from_status(&wait_ms))
                }
            },
            SendReply::Failed { status } => SendStep::Failed(
                join2("Jito send_bundle failed: ", status.as_str()),
            ),
        }
    }
}

/// Whether a submission follows from another by an answer, with what is done
/// about it.
pub open spec fn answered(
    before: BundleSend,
    reply: SendReply,
    step: SendStep,
    after: BundleSend,
) -> bool {
    &&& after.packet == before.packet
    &&& match reply {
        SendReply::Taken { uuid } => {
            &&& after.retry_attempt == before.retry_attempt
            &&& step matches SendStep::Sent(sent) && sent.bundle_id@ == uuid@
        },
        SendReply::RateLimited { wait_ms, status } => {
            &&& after.retry_attempt == before.retry_attempt + 1
            &&& if before.retry_attempt < MAX_RATE_LIMIT_RETRIES {
                step matches SendStep::RetryAfter(ms) && ms == retry_pause(text::opt_text(wait_ms))
            } else {
                step matches SendStep::Failed(reason) && reason@
                    == "Jito rate limited send_bundle after 5 retries: "@ + status@
            }
        },
        SendReply::Failed { status } => {
            &&& after.retry_attempt == before.retry_attempt
            &&& step matches SendStep::Failed(reason) && reason@ == "Jito send_bundle failed: "@
                + status@
        },
    }
}

/// Whether a submission follows from another by an answer after which the bundle
/// is sent again.
pub open spec fn sent_again(before: BundleSend, after: BundleSend) -> bool {
    &&& after.packet == before.packet
    &&& after.retry_attempt == before.retry_attempt + 1
    &&& after.wf()
}

/// A bundle is sent again no more often than the limit allows, and the same each
/// time.
pub proof fn bundles_are_repeated_so_often(sends: Seq<BundleSend>)
    requires
        sends.len() > 0,
        sends[0].retry_attempt == 0,
        forall|i: int|
            0 <= i < sends.len() - 1 ==> sent_again(#[trigger] sends[i], sends[i + 1]),
    ensures
        sends.last().retry_attempt == sends.len() - 1,
        sends.last().packet == sends[0].packet,
        sends.len() <= MAX_RATE_LIMIT_RETRIES + 1,
    decreases sends.len(),
{
    if sends.len() > 1 {
        let rest = sends.drop_last();
        assert forall|i: int| 0 <= i < rest.len() - 1 implies sent_again(
            #[trigger] rest[i],
            rest[i + 1],
        ) by {
            assert(sent_again(sends[i], sends[i + 1]));
        }
        bundles_are_repeated_so_often(rest);
        assert(sent_again(sends[sends.len() - 2], sends[sends.len() - 1]));
    }
}

/// Whether the block engine is reached over TLS.
pub fn needs_tls(url: &str) -> (tls: bool)
    ensures
        tls == "https://"@.is_prefix_of(url@),
{
    starts_with(url, "https://")
}

// ---------------------------------------------------------------------------
// What the client is for
// ---------------------------------------------------------------------------

/// Where a schedule has a slot from the current one on, the next slot is one of
/// the schedule, no later than that one and no earlier than the current one.
pub proof fn next_slots_are_the_nearest(schedule: Map<u64, Pubkey>, current_slot: u64, slot: u64)
    requires
        schedule.contains_key(slot),
        current_slot <= slot,
    ensures
        next_slot(schedule, current_slot) matches Some(next) && current_slot <= next <= slot
            && schedule.contains_key(next),
    decreases slot,
{
    if exists|other: u64| #[trigger]
        schedule.contains_key(other) && current_slot <= other && other < slot {
        let other = choose|other: u64| #[trigger]
            schedule.contains_key(other) && current_slot <= other && other < slot;
        next_slots_are_the_nearest(schedule, current_slot, other);
    } else {
        assert(is_next_leader(schedule, current_slot, slot));
        next_leader_is_unique(schedule, current_slot, slot);
    }
}

/// The next slot is never past, is one of the schedule, and is missing only where
/// the schedule has no slot from the current one on.
pub proof fn next_slots_are_not_past(schedule: Map<u64, Pubkey>, current_slot: u64)
    ensures
        match next_slot(schedule, current_slot) {
            Some(next) => current_slot <= next && schedule.contains_key(next),
            None => forall|slot: u64| #[trigger]
                schedule.contains_key(slot) ==> slot < current_slot,
        },
{
    if next_slot(schedule, current_slot) is None {
        assert forall|slot: u64| #[trigger] schedule.contains_key(slot) implies slot
            < current_slot by {
            if current_slot <= slot {
                next_slots_are_the_nearest(schedule, current_slot, slot);
            }
        }
    }
}

/// The wait is over for the next leader as soon as that is within the lookahead,
/// however long it has lasted.
pub proof fn leaders_in_the_window_are_taken(
    schedule: Map<u64, Pubkey>,
    current_slot: u64,
    start_slot: u64,
    lookahead_slots: u64,
    max_wait_slots: u64,
    slot: u64,
)
    requires
        next_slot(schedule, current_slot) == Some(slot),
        slot <= current_slot + lookahead_slots,
    ensures
        leader_wait(
            next_slot(schedule, current_slot),
            current_slot,
            start_slot,
            lookahead_slots,
            max_wait_slots,
        ) == LeaderWait::Ready(slot),
{
}

/// Any leader of the schedule within the lookahead ends the wait, for that leader
/// or an earlier one.
pub proof fn any_near_leader_ends_the_wait(
    schedule: Map<u64, Pubkey>,
    current_slot: u64,
    start_slot: u64,
    lookahead_slots: u64,
    max_wait_slots: u64,
    slot: u64,
)
    requires
        schedule.contains_key(slot),
        current_slot <= slot <= current_slot + lookahead_slots,
    ensures
        leader_wait(
            next_slot(schedule, current_slot),
            current_slot,
            start_slot,
            lookahead_slots,
            max_wait_slots,
        ) matches LeaderWait::Ready(taken) && current_slot <= taken <= slot
            && schedule.contains_key(taken),
{
    next_slots_are_the_nearest(schedule, current_slot, slot);
}

/// With no leader in the window the wait goes on until its slots have gone by, and
/// is then given up. While it goes on, a known leader is slept for, and an unknown
/// one asked for.
pub proof fn far_leaders_are_waited_for(
    schedule: Map<u64, Pubkey>,
    current_slot: u64,
    start_slot: u64,
    lookahead_slots: u64,
    max_wait_slots: u64,
)
    requires
        forall|slot: u64| #[trigger]
            schedule.contains_key(slot) ==> slot < current_slot || slot > current_slot
                + lookahead_slots,
    ensures
        ({
            let next = next_slot(schedule, current_slot);
            let step = leader_wait(
                next,
                current_slot,
                start_slot,
                lookahead_slots,
                max_wait_slots,
            );
            let over = current_slot >= start_slot + max_wait_slots || max_wait_slots == 0;
            &&& over ==> step == LeaderWait::GiveUp
            &&& !over && next is Some ==> step == LeaderWait::Sleep
            &&& !over && next is None ==> step == LeaderWait::Refresh
        }),
{
    next_slots_are_not_past(schedule, current_slot);
}

/// The slots from one to a later one are their difference, and there are none to
/// an earlier one.
pub proof fn slots_are_counted_forward(start: u64, end: u64)
    ensures
        start <= end ==> start + slots_from(start, end) == end,
        start > end ==> slots_from(start, end) == 0,
{
}

/// The distance of the next leader leads from the current slot to the leader's.
pub proof fn distances_lead_to_the_leader(schedule: Map<u64, Pubkey>, current_slot: u64)
    ensures
        match next_slot(schedule, current_slot) {
            Some(slot) => distance_to(next_slot(schedule, current_slot), current_slot) matches Some(
                distance,
            ) && current_slot + distance == slot,
            None => distance_to(next_slot(schedule, current_slot), current_slot) is None,
        },
{
    next_slots_are_not_past(schedule, current_slot);
}

/// A report of the block engine becomes the event of its kind, about its bundle,
/// with its slot, its validator or its reason; one without an outcome becomes a
/// rejection.
pub proof fn reports_become_their_events(
    bundle_id: Seq<char>,
    slot: u64,
    validator: String,
    reason: String,
)
    ensures
        event_of(
            bundle_id,
            Some(BundleOutcome::Accepted { slot, validator_identity: validator }),
        ) == (BundleEventView::Accepted { bundle_id, slot, validator_identity: validator@ }),
        event_of(
            bundle_id,
            Some(BundleOutcome::Processed { slot, validator_identity: validator }),
        ) == (BundleEventView::Processed { bundle_id, slot, validator_identity: validator@ }),
        event_of(bundle_id, Some(BundleOutcome::Finalized)) == (BundleEventView::Finalized {
            bundle_id,
        }),
        event_of(bundle_id, Some(BundleOutcome::Dropped { reason })) == (BundleEventView::Dropped {
            bundle_id,
            reason: reason@,
        }),
        event_of(bundle_id, Some(BundleOutcome::Rejected { reason }))
            == (BundleEventView::Rejected { bundle_id, reason: reason@ }),
        event_of(bundle_id, None) == (BundleEventView::Rejected {
            bundle_id,
            reason: "empty Jito bundle result"@,
        }),
{
}

/// An event is about the bundle that it names.
pub proof fn events_name_their_bundle(id: Seq<char>, slot: u64, words: Seq<char>)
    ensures
        (BundleEventView::Accepted { bundle_id: id, slot, validator_identity: words }).bundle()
            == id,
        (BundleEventView::Processed { bundle_id: id, slot, validator_identity: words }).bundle()
            == id,
        (BundleEventView::Finalized { bundle_id: id }).bundle() == id,
        (BundleEventView::Dropped { bundle_id: id, reason: words }).bundle() == id,
        (BundleEventView::Rejected { bundle_id: id, reason: words }).bundle() == id,
{
}

/// The addresses of two lists are those of the first and then those of the second.
pub proof fn addresses_keep_their_order(first: Seq<Seq<char>>, second: Seq<Seq<char>>)
    ensures
        addresses_of(first + second) == addresses_of(first) + addresses_of(second),
    decreases second.len(),
{
    if second.len() == 0 {
        assert(first + second =~= first);
        assert(addresses_of(first) + addresses_of(second) =~= addresses_of(first));
    } else {
        assert((first + second).drop_last() =~= first + second.drop_last());
        assert((first + second).last() == second.last());
        addresses_keep_their_order(first, second.drop_last());
        assert(addresses_of(first + second) =~= addresses_of(first) + addresses_of(second));
    }
}

/// A text that is an address is taken, and one that is none is left out.
pub proof fn addresses_are_taken_and_others_not(words: Seq<char>)
    ensures
        match solana::address_bytes(words) {
            Some(bytes) => addresses_of(seq![words]) == seq![bytes],
            None => addresses_of(seq![words]) == Seq::<Seq<u8>>::empty(),
        },
        addresses_of(Seq::empty()) == Seq::<Seq<u8>>::empty(),
{
    reveal_with_fuel(addresses_of, 2);
    assert(seq![words].drop_last() =~= Seq::<Seq<char>>::empty());
    if let Some(bytes) = solana::address_bytes(words) {
        assert(Seq::<Seq<u8>>::empty().push(bytes) =~= seq![bytes]);
    }
}

/// A tip goes to the first account that the block engine named, and to the default
/// one where it named none or did not answer.
pub proof fn tips_go_to_the_first_account(list: Seq<Seq<char>>, words: Seq<char>, bytes: Seq<u8>)
    requires
        solana::address_bytes(words) == Some(bytes),
    ensures
        tip_goes_to(accounts_named(Some(seq![words] + list))) == bytes,
        tip_goes_to(accounts_named(None)) == default_tip_bytes(),
        tip_goes_to(accounts_named(Some(Seq::empty()))) == default_tip_bytes(),
{
    addresses_keep_their_order(seq![words], list);
    addresses_are_taken_and_others_not(words);
    assert((seq![bytes] + addresses_of(list))[0] == bytes);
}

/// Every slot from the current one on that a validator with an address claims is
/// in the schedule of a reply, and belongs to the last that claims it.
pub proof fn claimed_slots_are_scheduled(
    list: Seq<(Seq<char>, Seq<u64>)>,
    current_slot: u64,
    slot: u64,
    i: int,
)
    requires
        0 <= i < list.len(),
        list[i].1.contains(slot),
        current_slot <= slot,
        solana::address_bytes(list[i].0) is Some,
        forall|j: int|
            i < j < list.len() ==> !((#[trigger] list[j]).1.contains(slot) && solana::address_bytes(
                list[j].0,
            ) is Some),
    ensures
        scheduled(list, current_slot).contains_key(slot),
        scheduled(list, current_slot)[slot] == solana::address_bytes(list[i].0)->0,
    decreases list.len(),
{
    let rest = list.drop_last();
    if i < list.len() - 1 {
        assert(rest[i] == list[i]);
        assert forall|j: int| i < j < rest.len() implies !((#[trigger] rest[j]).1.contains(slot)
            && solana::address_bytes(rest[j].0) is Some) by {
            assert(rest[j] == list[j]);
        }
        claimed_slots_are_scheduled(rest, current_slot, slot, i);
        assert(list[list.len() - 1] == list.last());
    }
}

/// A reply takes the place of the schedule; without one it stays.
pub proof fn replies_replace_the_schedule(
    before: Map<u64, Seq<u8>>,
    other: Map<u64, Seq<u8>>,
    list: Seq<(Seq<char>, Seq<u64>)>,
    current_slot: u64,
)
    ensures
        schedule_after(before, Some(list), current_slot) == schedule_after(
            other,
            Some(list),
            current_slot,
        ),
        schedule_after(before, Some(list), current_slot) == scheduled(list, current_slot),
        schedule_after(before, None, current_slot) == before,
{
}

/// A pause that an answer names is kept, and one second is paused where it names
/// none that can be read.
pub proof fn pauses_are_as_asked(wait: Seq<char>, ms: nat)
    ensures
        ms <= u64::MAX ==> retry_pause(Some(text::decimal(ms))) == ms,
        text::parse_unsigned(wait, u64::MAX as nat) is None ==> retry_pause(Some(wait)) == 1_000,
        retry_pause(None) == 1_000,
{
    if ms <= u64::MAX {
        text::decimal_reads_back(ms, u64::MAX as nat);
    }
}

/// A bundle that is taken is on its way under the id that it got; one that is
/// refused is given up for the reason; and one that meets a rate limit is sent
/// again unchanged after the pause, five times at most.
pub proof fn answers_are_acted_on(
    before: BundleSend,
    reply: SendReply,
    step: SendStep,
    after: BundleSend,
)
    requires
        answered(before, reply, step, after),
    ensures
        after.packet == before.packet,
        reply is RateLimited <==> after.retry_attempt != before.retry_attempt,
        reply matches SendReply::RateLimited { status, .. } ==> before.retry_attempt >= 5 ==> (
        step matches SendStep::Failed(reason) && reason@
            == "Jito rate limited send_bundle after 5 retries: "@ + status@),
        reply matches SendReply::Taken { uuid } ==> step matches SendStep::Sent(sent)
            && sent.bundle_id@ == uuid@,
        reply is RateLimited && before.retry_attempt < 5 ==> step is RetryAfter
            && after.retry_attempt == before.retry_attempt + 1,
        reply is RateLimited && before.retry_attempt >= 5 ==> step is Failed,
        reply is Failed ==> step is Failed,
        step is RetryAfter ==> reply is RateLimited,
        step is Sent ==> reply is Taken,
        reply matches SendReply::RateLimited { wait_ms: None, .. } ==> before.retry_attempt < 5
            ==> step == SendStep::RetryAfter(1_000),
        reply matches SendReply::Failed { status } ==> step matches SendStep::Failed(reason)
            && reason@ == "Jito send_bundle failed: "@ + status@,
{
}

/// Whether each count of a list follows from the one before by a try.
pub open spec fn all_tried(counts: Seq<Tries>) -> bool {
    forall|i: int| 0 <= i < counts.len() - 1 ==> #[trigger] tried_from(counts[i], counts[i + 1])
}

/// Whether a count follows from another by a try that is made.
pub open spec fn tried_from(before: Tries, after: Tries) -> bool {
    exists|n: usize| tried(before, Some(n), after)
}

/// A request is tried as often as was allowed and no more, each try with the next
/// number.
pub proof fn requests_are_tried_so_often(counts: Seq<Tries>, max: usize)
    requires
        counts.len() > 0,
        counts[0] == (Tries { made: 0, max }),
        all_tried(counts),
    ensures
        counts.last().made == counts.len() - 1,
        counts.last().max == max,
        forall|attempt: Option<usize>, after: Tries| #[trigger]
            tried(counts.last(), attempt, after) && attempt is None ==> counts.len() - 1 == max,
    decreases counts.len(),
{
    if counts.len() > 1 {
        let rest = counts.drop_last();
        assert forall|i: int| 0 <= i < rest.len() - 1 implies #[trigger] tried_from(
            rest[i],
            rest[i + 1],
        ) by {
            assert(tried_from(counts[i], counts[i + 1]));
        }
        requests_are_tried_so_often(rest, max);
        let k = counts.len() - 2;
        assert(tried_from(counts[k], counts[k + 1]));
    }
}

/// A request to the block engine is tried five times, a bundle that meets a rate
/// limit is sent six times, and a pending leader is looked for four times a second.
pub proof fn limits_of_the_client(sends: Seq<BundleSend>)
    requires
        sends.len() > 0,
        sends[0].retry_attempt == 0,
        forall|i: int|
            0 <= i < sends.len() - 1 ==> sent_again(#[trigger] sends[i], sends[i + 1]),
    ensures
        sends.len() <= 6,
        MAX_RETRIES == 5,
        LEADER_POLL_MS * 4 == 1_000,
{
    bundles_are_repeated_so_often(sends);
}

/// A try is made exactly while fewer were made than are allowed; it counts, and
/// where none is made nothing changes.
pub proof fn tries_are_counted(before: Tries, attempt: Option<usize>, after: Tries)
    requires
        before.made <= before.max,
        tried(before, attempt, after),
    ensures
        attempt is Some <==> before.made < before.max,
        attempt is Some ==> after.made == before.made + 1 && attempt->0 == after.made,
        attempt is None ==> after == before,
        after.max == before.max,
{
}

} // verus!
