//! What a node publishes and remembers about its gossip topic: the content
//! of its records, the hashes of the messages it received, and the peers a
//! join request names.

use rand::seq::SliceRandom;
use std::collections::VecDeque;
use vstd::prelude::*;

use crate::bytes::{block_views, zero_bytes};
use crate::crypto::digest::{sha512_32, sha512_prefix32};

verus! {

/// Peer slots in a record. Part of the wire format.
pub const MAX_RECORD_PEERS: usize = 5;

/// Message hash slots in a record. Part of the wire format.
pub const MAX_MESSAGE_HASHES: usize = 5;

/// The gossip state a record carries: active peers and hashes of recent
/// messages, zero where a slot is empty.
#[derive(Debug, Clone, Copy)]
pub struct GossipRecordContent {
    pub active_peers: [[u8; 32]; 5],
    pub last_message_hashes: [[u8; 32]; 5],
}

/// The five slots filled from `keys`: the first keys in order, zero after them.
pub open spec fn slots_from(keys: Seq<[u8; 32]>) -> Seq<Seq<u8>> {
    Seq::new(5, |i: int| if i < keys.len() { keys[i]@ } else { zero_bytes() })
}

/// The first five of `keys`, in order, zero-padded.
fn fill_slots(keys: &Vec<[u8; 32]>) -> (slots: [[u8; 32]; 5])
    ensures
        block_views(slots) == slots_from(keys@),
{
    let zero = [0u8; 32];
    assert(zero@ =~= zero_bytes());
    let mut slots = [zero, zero, zero, zero, zero];
    let len: usize = keys.len();
    let mut i: usize = 0;
    while i < 5 && i < len
        invariant
            i <= 5,
            len == keys@.len(),
            i <= len,
            forall|j: int| 0 <= j < i ==> slots@[j]@ == keys@[j]@,
            forall|j: int| i <= j < 5 ==> slots@[j]@ == zero_bytes(),
        decreases 5 - i,
    {
        slots[i] = keys[i];
        i = i + 1;
    }
    assert(block_views(slots) =~= slots_from(keys@));
    slots
}

impl GossipRecordContent {
    /// The content a node publishes: the first five of its neighbors and
    /// the first five of its recent message hashes, zero-padded.
    pub fn from_state(neighbors: &Vec<[u8; 32]>, message_hashes: &Vec<[u8; 32]>) -> (content: GossipRecordContent)
        ensures
            block_views(content.active_peers) == slots_from(neighbors@),
            block_views(content.last_message_hashes) == slots_from(message_hashes@),
    {
        GossipRecordContent { active_peers: fill_slots(neighbors), last_message_hashes: fill_slots(message_hashes) }
    }

    /// Empty content: every slot zero, as a node publishes before it has peers.
    pub fn empty() -> (content: GossipRecordContent)
        ensures
            block_views(content.active_peers) == slots_from(Seq::empty()),
            block_views(content.last_message_hashes) == slots_from(Seq::empty()),
    {
        let none: Vec<[u8; 32]> = Vec::new();
        GossipRecordContent::from_state(&none, &none)
    }
}

/// The hash by which a message is remembered: the first 32 bytes of the
/// SHA-512 digest of its content.
pub fn message_hash(content: &[u8]) -> (hash: [u8; 32])
    ensures
        hash@ == sha512_prefix32(content@),
{
    sha512_32(content)
}

/// The window after remembering `hash`: the oldest hash leaves a full window.
pub open spec fn window_push(window: Seq<Seq<u8>>, hash: Seq<u8>) -> Seq<Seq<u8>> {
    if window.len() >= MAX_MESSAGE_HASHES {
        window.drop_first().push(hash)
    } else {
        window.push(hash)
    }
}

/// The window after remembering each of `hashes`, in order, from empty.
pub open spec fn window_of(hashes: Seq<Seq<u8>>) -> Seq<Seq<u8>>
    decreases hashes.len(),
{
    if hashes.len() == 0 {
        Seq::empty()
    } else {
        window_push(window_of(hashes.drop_last()), hashes.last())
    }
}

/// The hashes of the last messages a node received, oldest first, at most
/// `MAX_MESSAGE_HASHES` of them.
#[derive(Debug)]
pub struct MessageHashWindow {
    hashes: VecDeque<[u8; 32]>,
}

impl View for MessageHashWindow {
    type V = Seq<Seq<u8>>;

    closed spec fn view(&self) -> Seq<Seq<u8>> {
        self.hashes@.map_values(|h: [u8; 32]| h@)
    }
}

impl MessageHashWindow {
    #[verifier::type_invariant]
    spec fn bounded(&self) -> bool {
        self.hashes@.len() <= MAX_MESSAGE_HASHES
    }

    /// An empty window.
    pub fn new() -> (window: MessageHashWindow)
        ensures
            window@ == Seq::<Seq<u8>>::empty(),
    {
        let window = MessageHashWindow { hashes: VecDeque::new() };
        assert(window@ =~= Seq::<Seq<u8>>::empty());
        window
    }

    /// Remembers a received message.
    pub fn record_message(&mut self, content: &[u8])
        ensures
            final(self)@ == window_push(old(self)@, sha512_prefix32(content@)),
            final(self)@.len() <= MAX_MESSAGE_HASHES,
    {
        let hash = message_hash(content);
        self.remember(hash);
    }

    /// Remembers a message hash.
    pub fn remember(&mut self, hash: [u8; 32])
        ensures
            final(self)@ == window_push(old(self)@, hash@),
            final(self)@.len() <= MAX_MESSAGE_HASHES,
    {
        proof {
            use_type_invariant(&*self);
        }
        let ghost before = self@;
        let mut hashes: VecDeque<[u8; 32]> = VecDeque::new();
        std::mem::swap(&mut hashes, &mut self.hashes);
        if hashes.len() == MAX_MESSAGE_HASHES {
            hashes.pop_front();
        }
        hashes.push_back(hash);
        std::mem::swap(&mut hashes, &mut self.hashes);
        assert(self@ =~= window_push(before, hash@));
    }

    /// The remembered hashes, oldest first.
    pub fn hashes(&self) -> (hashes: Vec<[u8; 32]>)
        ensures
            hashes@.map_values(|h: [u8; 32]| h@) == self@,
            hashes@.len() <= MAX_MESSAGE_HASHES,
    {
        proof {
            use_type_invariant(self);
        }
        let mut out: Vec<[u8; 32]> = Vec::new();
        let len: usize = self.hashes.len();
        let mut i: usize = 0;
        while i < len
            invariant
                i <= len,
                len == self.hashes@.len(),
                out@ == self.hashes@.subrange(0, i as int),
            decreases len - i,
        {
            out.push(self.hashes[i]);
            i = i + 1;
            assert(out@ =~= self.hashes@.subrange(0, i as int));
        }
        assert(out@ =~= self.hashes@);
        out
    }
}

/// The window holds the last `MAX_MESSAGE_HASHES` hashes remembered, in the
/// order they came: remembering a hash never loses a newer one.
pub proof fn law_window_keeps_latest(hashes: Seq<Seq<u8>>)
    ensures
        window_of(hashes) == hashes.subrange(
            if hashes.len() > MAX_MESSAGE_HASHES { hashes.len() - MAX_MESSAGE_HASHES } else { 0 },
            hashes.len() as int,
        ),
    decreases hashes.len(),
{
    if hashes.len() > 0 {
        law_window_keeps_latest(hashes.drop_last());
        let n = hashes.len();
        let start = if n - 1 > MAX_MESSAGE_HASHES { n - 1 - MAX_MESSAGE_HASHES } else { 0 };
        let prev = hashes.drop_last().subrange(start, n - 1);
        assert(prev =~= hashes.subrange(start, n - 1));
        if prev.len() >= MAX_MESSAGE_HASHES {
            assert(prev.drop_first().push(hashes.last()) =~= hashes.subrange(n - MAX_MESSAGE_HASHES, n as int));
        } else {
            assert(prev.push(hashes.last()) =~= hashes.subrange(start, n as int));
        }
    }
}

/// Trusted: calls `rand::seq::SliceRandom::shuffle` with `rand::rng()`.
/// The order it leaves is random; what is claimed is that it only reorders:
/// the same keys, each as often.
#[verifier::external_body]
fn shuffle_keys(keys: &mut Vec<[u8; 32]>)
    ensures
        final(keys)@.to_multiset() == old(keys)@.to_multiset(),
{
    keys.shuffle(&mut rand::rng());
}

/// The peers a join request names: all of `peers`, or, with a limit, that
/// many of them (or all, if fewer) chosen at random.
pub fn select_join_peers(peers: Vec<[u8; 32]>, max_peers: Option<usize>) -> (selected: Vec<[u8; 32]>)
    ensures
        max_peers is None ==> selected@ == peers@,
        max_peers matches Some(m) ==> {
            &&& selected@.len() == if peers@.len() <= m { peers@.len() } else { m as nat }
            &&& selected@.to_multiset().subset_of(peers@.to_multiset())
        },
{
    match max_peers {
        None => peers,
        Some(m) => {
            let mut shuffled = peers;
            shuffle_keys(&mut shuffled);
            let ghost whole = shuffled@;
            shuffled.truncate(m);
            proof {
                broadcast use vstd::multiset::group_multiset_axioms;
                whole.to_multiset_ensures();
                peers@.to_multiset_ensures();
                if m < whole.len() {
                    let prefix = whole.subrange(0, m as int);
                    let suffix = whole.subrange(m as int, whole.len() as int);
                    vstd::seq_lib::lemma_multiset_commutative(prefix, suffix);
                    assert(prefix + suffix =~= whole);
                    assert forall|x: [u8; 32]| shuffled@.to_multiset().count(x) <= peers@.to_multiset().count(x) by {
                        assert(whole.to_multiset().count(x) == prefix.to_multiset().count(x) + suffix.to_multiset().count(x));
                    }
                } else {
                    assert(whole.subrange(0, whole.len() as int) =~= whole);
                }
                assert(shuffled@.to_multiset().subset_of(peers@.to_multiset()));
            }
            shuffled
        },
    }
}

} // verus!
