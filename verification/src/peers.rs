//! Which peers to join: the peers that bootstrap records offer, the picks of
//! the bubble and message overlap merge strategies, and the random subset
//! of a join request.

use vstd::prelude::*;

use crate::bytes::{bytes_equal, zero_bytes};
use crate::crypto::ed25519::{ed25519_decodes, ed25519_point_decodes};
use crate::crypto::record::{Record, RecordView};

verus! {

/// `keys` holds a key whose bytes are `key`.
pub open spec fn listed(keys: Seq<[u8; 32]>, key: Seq<u8>) -> bool {
    exists|j: int| 0 <= j < keys.len() && #[trigger] keys[j]@ == key
}

/// No key occurs twice in `keys`.
pub open spec fn distinct(keys: Seq<[u8; 32]>) -> bool {
    forall|a: int, b: int| 0 <= a < b < keys.len() ==> keys[a]@ != keys[b]@
}

/// The views of a list of records.
pub open spec fn record_views(records: Seq<Record>) -> Seq<RecordView> {
    records.map_values(|r: Record| r@)
}

/// `record` offers `key` as a peer: the key is a public key, and it is the
/// record's node id or one of its non-empty peer slots.
pub open spec fn offers(record: RecordView, key: Seq<u8>) -> bool {
    &&& ed25519_point_decodes(key)
    &&& (key == record.node_id || (record.active_peers.contains(key) && key != zero_bytes()))
}

/// `key` is neither the local node nor one of its neighbors.
pub open spec fn is_new_peer(key: Seq<u8>, neighbors: Seq<[u8; 32]>, own_key: Seq<u8>) -> bool {
    key != own_key && !listed(neighbors, key)
}

/// `record` shares no message with the local history: it advertises at
/// least one message hash, and none of the hashes it advertises is among
/// `local_hashes`.
pub open spec fn disjoint_from_history(record: RecordView, local_hashes: Seq<[u8; 32]>) -> bool {
    &&& exists|j: int| 0 <= j < record.last_message_hashes.len() && #[trigger] record.last_message_hashes[j] != zero_bytes()
    &&& forall|j: int|
        0 <= j < record.last_message_hashes.len() && record.last_message_hashes[j] != zero_bytes() ==> !listed(
            local_hashes,
            #[trigger] record.last_message_hashes[j],
        )
}

/// Whether `key` is listed in `keys`.
pub fn find_key(keys: &Vec<[u8; 32]>, key: &[u8; 32]) -> (found: bool)
    ensures
        found == listed(keys@, key@),
{
    let len: usize = keys.len();
    let mut i: usize = 0;
    while i < len
        invariant
            i <= len,
            len == keys@.len(),
            forall|j: int| 0 <= j < i ==> keys@[j]@ != key@,
        decreases len - i,
    {
        if bytes_equal(keys[i].as_slice(), key.as_slice()) {
            return true;
        }
        i = i + 1;
    }
    false
}

/// Appends `key` unless it is listed already.
fn push_unique(keys: &mut Vec<[u8; 32]>, key: [u8; 32])
    requires
        distinct(old(keys)@),
    ensures
        distinct(final(keys)@),
        forall|k: Seq<u8>| #[trigger] listed(final(keys)@, k) <==> (listed(old(keys)@, k) || k == key@),
{
    if !find_key(keys, &key) {
        let ghost before = keys@;
        keys.push(key);
        assert forall|k: Seq<u8>| #[trigger] listed(keys@, k) <==> (listed(before, k) || k == key@) by {
            if listed(keys@, k) {
                let j = choose|j: int| 0 <= j < keys@.len() && #[trigger] keys@[j]@ == k;
                if j < before.len() {
                    assert(before[j]@ == k);
                }
            }
            if listed(before, k) {
                let j = choose|j: int| 0 <= j < before.len() && #[trigger] before[j]@ == k;
                assert(keys@[j]@ == k);
            }
            if k == key@ {
                assert(keys@[before.len() as int]@ == k);
            }
        }
    }
}

/// The filters of a collection: only records that share no message hash
/// with the local ones, only keys new to the local node.
struct Scope<'a> {
    only_disjoint: bool,
    local_hashes: &'a Vec<[u8; 32]>,
    only_new: bool,
    neighbors: &'a Vec<[u8; 32]>,
    own_key: &'a [u8; 32],
}

spec fn scope_record(scope: &Scope, record: RecordView) -> bool {
    scope.only_disjoint ==> disjoint_from_history(record, scope.local_hashes@)
}

spec fn scope_key(scope: &Scope, key: Seq<u8>) -> bool {
    scope.only_new ==> is_new_peer(key, scope.neighbors@, scope.own_key@)
}

spec fn selected(records: Seq<RecordView>, n: int, scope: &Scope, key: Seq<u8>) -> bool {
    exists|i: int| 0 <= i < n && scope_record(scope, records[i]) && #[trigger] offers(records[i], key) && scope_key(scope, key)
}

/// One of the first `j` peer slots of `record` holds `key`.
spec fn slots_hold(record: RecordView, j: int, key: Seq<u8>) -> bool {
    exists|jj: int| 0 <= jj < j && #[trigger] record.active_peers[jj] == key
}

proof fn lemma_slots_hold_step(record: RecordView, j: int, key: Seq<u8>)
    requires
        0 <= j,
    ensures
        slots_hold(record, j + 1, key) <==> (slots_hold(record, j, key) || record.active_peers[j] == key),
{
    if slots_hold(record, j + 1, key) {
        let jj = choose|jj: int| 0 <= jj < j + 1 && #[trigger] record.active_peers[jj] == key;
        if jj < j {
            assert(slots_hold(record, j, key));
        }
    }
    if slots_hold(record, j, key) {
        let jj = choose|jj: int| 0 <= jj < j && #[trigger] record.active_peers[jj] == key;
        assert(record.active_peers[jj] == key);
    }
    if record.active_peers[j] == key {
        assert(record.active_peers[j] == key);
    }
}

fn key_in_scope(scope: &Scope, key: &[u8; 32]) -> (admitted: bool)
    ensures
        admitted == scope_key(scope, key@),
{
    !scope.only_new || (!bytes_equal(key.as_slice(), scope.own_key.as_slice()) && !find_key(scope.neighbors, key))
}

fn record_in_scope(scope: &Scope, record: &Record) -> (admitted: bool)
    ensures
        admitted == scope_record(scope, record@),
{
    if !scope.only_disjoint {
        return true;
    }
    proof {
        record.lemma_well_sized();
    }
    let hashes = record.last_message_hashes();
    let mut advertised = false;
    let mut j: usize = 0;
    while j < 5
        invariant
            j <= 5,
            scope.only_disjoint,
            record@.last_message_hashes.len() == 5,
            crate::bytes::block_views(hashes) == record@.last_message_hashes,
            advertised == exists|jj: int| 0 <= jj < j && #[trigger] record@.last_message_hashes[jj] != zero_bytes(),
            forall|jj: int|
                0 <= jj < j && record@.last_message_hashes[jj] != zero_bytes() ==> !listed(
                    scope.local_hashes@,
                    #[trigger] record@.last_message_hashes[jj],
                ),
        decreases 5 - j,
    {
        assert(record@.last_message_hashes[j as int] == hashes[j as int]@);
        if !crate::bytes::is_zero_key(&hashes[j]) {
            if find_key(scope.local_hashes, &hashes[j]) {
                assert(listed(scope.local_hashes@, record@.last_message_hashes[j as int]));
                return false;
            }
            advertised = true;
        }
        j = j + 1;
    }
    advertised
}

/// Collects the keys that the records in scope offer and the scope admits.
fn collect_offered(records: &Vec<Record>, scope: &Scope) -> (keys: Vec<[u8; 32]>)
    ensures
        distinct(keys@),
        forall|k: Seq<u8>| #[trigger] listed(keys@, k) <==> selected(record_views(records@), records@.len() as int, scope, k),
{
    let ghost views = record_views(records@);
    let mut keys: Vec<[u8; 32]> = Vec::new();
    let n: usize = records.len();
    let mut i: usize = 0;
    while i < n
        invariant
            i <= n,
            n == records@.len(),
            views == record_views(records@),
            distinct(keys@),
            forall|k: Seq<u8>| #[trigger] listed(keys@, k) <==> selected(views, i as int, scope, k),
        decreases n - i,
    {
        let record = &records[i];
        let ghost before = keys@;
        assert(views[i as int] == record@);
        proof {
            record.lemma_well_sized();
        }
        if record_in_scope(scope, record) {
            let node_id = record.node_id();
            if ed25519_decodes(&node_id) && key_in_scope(scope, &node_id) {
                push_unique(&mut keys, node_id);
            }
            let peers = record.active_peers();
            let mut j: usize = 0;
            while j < 5
                invariant
                    j <= 5,
                    i < n,
                    n == records@.len(),
                    views == record_views(records@),
                    views[i as int] == record@,
                    scope_record(scope, record@),
                    node_id@ == record@.node_id,
                    crate::bytes::block_views(peers) == record@.active_peers,
                    distinct(keys@),
                    forall|k: Seq<u8>| #[trigger] listed(keys@, k) <==> (selected(views, i as int, scope, k) || (
                        ed25519_point_decodes(k) && scope_key(scope, k) && (k == record@.node_id || (
                        slots_hold(record@, j as int, k) && k != zero_bytes())))),
                decreases 5 - j,
            {
                let peer = peers[j];
                assert(record@.active_peers[j as int] == peer@);
                let ghost before_peer = keys@;
                let take = !crate::bytes::is_zero_key(&peer) && ed25519_decodes(&peer) && key_in_scope(scope, &peer);
                if take {
                    push_unique(&mut keys, peer);
                }
                let ghost j0 = j as int;
                j = j + 1;
                proof {
                    assert forall|k: Seq<u8>| #[trigger] listed(keys@, k) <==> (selected(views, i as int, scope, k) || (
                        ed25519_point_decodes(k) && scope_key(scope, k) && (k == record@.node_id || (
                        slots_hold(record@, j as int, k) && k != zero_bytes())))) by {
                        lemma_slots_hold_step(record@, j0, k);
                        assert(listed(keys@, k) <==> (listed(before_peer, k) || (take && k == peer@)));
                    }
                }
            }
            assert forall|k: Seq<u8>| #[trigger] listed(keys@, k) <==> selected(views, i + 1, scope, k) by {
                if selected(views, i + 1, scope, k) {
                    let ii = choose|ii: int| 0 <= ii < i + 1 && scope_record(scope, views[ii]) && #[trigger] offers(views[ii], k) && scope_key(scope, k);
                    if ii < i {
                        assert(selected(views, i as int, scope, k));
                    } else if k != record@.node_id {
                        let jj = choose|jj: int| 0 <= jj < record@.active_peers.len() && record@.active_peers[jj] == k;
                        assert(slots_hold(record@, 5, k));
                    }
                }
                if selected(views, i as int, scope, k) {
                    let ii = choose|ii: int| 0 <= ii < i && scope_record(scope, views[ii]) && #[trigger] offers(views[ii], k) && scope_key(scope, k);
                    assert(offers(views[ii], k));
                }
                if listed(keys@, k) && !selected(views, i as int, scope, k) {
                    if k != record@.node_id {
                        assert(slots_hold(record@, 5, k));
                        let jj = choose|jj: int| 0 <= jj < 5 && #[trigger] record@.active_peers[jj] == k;
                        assert(record@.active_peers.contains(k));
                    }
                    assert(offers(views[i as int], k));
                }
            }
        } else {
            assert forall|k: Seq<u8>| #[trigger] listed(keys@, k) <==> selected(views, i + 1, scope, k) by {
                if selected(views, i + 1, scope, k) {
                    let ii = choose|ii: int| 0 <= ii < i + 1 && scope_record(scope, views[ii]) && #[trigger] offers(views[ii], k) && scope_key(scope, k);
                    assert(ii < i);
                    assert(selected(views, i as int, scope, k));
                }
                if selected(views, i as int, scope, k) {
                    let ii = choose|ii: int| 0 <= ii < i && scope_record(scope, views[ii]) && #[trigger] offers(views[ii], k) && scope_key(scope, k);
                    assert(offers(views[ii], k));
                }
            }
        }
        i = i + 1;
    }
    keys
}

/// Some record of `records` offers `key`.
pub open spec fn offered(records: Seq<RecordView>, key: Seq<u8>) -> bool {
    exists|i: int| 0 <= i < records.len() && #[trigger] offers(records[i], key)
}

/// The bubble merge picks `key`: some record offers it, and it is new to
/// the local node.
pub open spec fn bubble_pick(records: Seq<RecordView>, neighbors: Seq<[u8; 32]>, own_key: Seq<u8>, key: Seq<u8>) -> bool {
    offered(records, key) && is_new_peer(key, neighbors, own_key)
}

/// The message overlap merge picks `key`: a record that shares no message
/// hash with the local ones offers it, and it is new to the local node.
pub open spec fn overlap_pick(
    records: Seq<RecordView>,
    local_hashes: Seq<[u8; 32]>,
    neighbors: Seq<[u8; 32]>,
    own_key: Seq<u8>,
    key: Seq<u8>,
) -> bool {
    &&& exists|i: int| 0 <= i < records.len() && disjoint_from_history(records[i], local_hashes) && #[trigger] offers(records[i], key)
    &&& is_new_peer(key, neighbors, own_key)
}

/// The peers to try while bootstrapping: every public key that a record
/// names as its node or in a non-empty peer slot, each once.
pub fn bootstrap_peers(records: &Vec<Record>) -> (peers: Vec<[u8; 32]>)
    ensures
        distinct(peers@),
        forall|k: Seq<u8>| #[trigger] listed(peers@, k) <==> offered(record_views(records@), k),
{
    let no_keys: Vec<[u8; 32]> = Vec::new();
    let zero = [0u8; 32];
    let scope = Scope { only_disjoint: false, local_hashes: &no_keys, only_new: false, neighbors: &no_keys, own_key: &zero };
    let peers = collect_offered(records, &scope);
    proof {
        let views = record_views(records@);
        assert forall|k: Seq<u8>| #[trigger] listed(peers@, k) <==> offered(views, k) by {
            if offered(views, k) {
                let i = choose|i: int| 0 <= i < views.len() && #[trigger] offers(views[i], k);
                assert(selected(views, views.len() as int, &scope, k));
            }
            if selected(views, views.len() as int, &scope, k) {
                let i = choose|i: int| 0 <= i < views.len() && scope_record(&scope, views[i]) && #[trigger] offers(views[i], k) && scope_key(&scope, k);
                assert(offers(views[i], k));
            }
        }
    }
    peers
}

/// The peers the bubble merge joins. A node with fewer than
/// `min_neighbors` neighbors that sees records joins the peers they offer
/// that are neither itself nor already its neighbors; `None` where it joins
/// no one.
pub fn bubble_merge_peers(
    records: &Vec<Record>,
    neighbors: &Vec<[u8; 32]>,
    own_key: &[u8; 32],
    min_neighbors: usize,
) -> (peers: Option<Vec<[u8; 32]>>)
    ensures
        (neighbors@.len() >= min_neighbors || records@.len() == 0) ==> peers is None,
        peers matches Some(p) ==> {
            &&& p@.len() > 0
            &&& distinct(p@)
            &&& forall|k: Seq<u8>| #[trigger] listed(p@, k) <==> bubble_pick(record_views(records@), neighbors@, own_key@, k)
        },
        (neighbors@.len() < min_neighbors && records@.len() > 0 && peers is None) ==> forall|k: Seq<u8>|
            !bubble_pick(record_views(records@), neighbors@, own_key@, k),
{
    if neighbors.len() >= min_neighbors || records.len() == 0 {
        return None;
    }
    let no_keys: Vec<[u8; 32]> = Vec::new();
    let scope = Scope { only_disjoint: false, local_hashes: &no_keys, only_new: true, neighbors, own_key };
    let peers = collect_offered(records, &scope);
    let ghost views = record_views(records@);
    proof {
        assert forall|k: Seq<u8>| #[trigger] listed(peers@, k) <==> bubble_pick(views, neighbors@, own_key@, k) by {
            if bubble_pick(views, neighbors@, own_key@, k) {
                let i = choose|i: int| 0 <= i < views.len() && #[trigger] offers(views[i], k);
                assert(selected(views, views.len() as int, &scope, k));
            }
            if selected(views, views.len() as int, &scope, k) {
                let i = choose|i: int| 0 <= i < views.len() && scope_record(&scope, views[i]) && #[trigger] offers(views[i], k) && scope_key(&scope, k);
                assert(offers(views[i], k));
            }
        }
    }
    if peers.len() == 0 {
        proof {
            assert forall|k: Seq<u8>| !bubble_pick(views, neighbors@, own_key@, k) by {
                if bubble_pick(views, neighbors@, own_key@, k) {
                    assert(listed(peers@, k));
                }
            }
        }
        None
    } else {
        Some(peers)
    }
}

/// Whether some record shares no message hash with `local_hashes`.
fn any_disjoint(records: &Vec<Record>, local_hashes: &Vec<[u8; 32]>) -> (found: bool)
    ensures
        found == exists|i: int| 0 <= i < records@.len() && #[trigger] disjoint_from_history(record_views(records@)[i], local_hashes@),
{
    let no_keys: Vec<[u8; 32]> = Vec::new();
    let zero = [0u8; 32];
    let scope = Scope { only_disjoint: true, local_hashes, only_new: false, neighbors: &no_keys, own_key: &zero };
    let ghost views = record_views(records@);
    let n: usize = records.len();
    let mut i: usize = 0;
    while i < n
        invariant
            i <= n,
            n == records@.len(),
            views == record_views(records@),
            scope.only_disjoint,
            scope.local_hashes@ == local_hashes@,
            forall|ii: int| 0 <= ii < i ==> !#[trigger] disjoint_from_history(views[ii], local_hashes@),
        decreases n - i,
    {
        assert(views[i as int] == records@[i as int]@);
        if record_in_scope(&scope, &records[i]) {
            assert(disjoint_from_history(views[i as int], local_hashes@));
            return true;
        }
        i = i + 1;
    }
    false
}

/// The peers the message overlap merge joins. Once the node has seen
/// messages, a record whose advertised message hashes share none with the
/// node's recent messages points to a split cluster; the node joins the
/// peers such records offer that are neither itself nor already its
/// neighbors. `None` where no record is such (or no message was seen), so
/// that no join is requested at all; otherwise the join is requested,
/// possibly with no peers.
pub fn message_overlap_peers(
    records: &Vec<Record>,
    local_hashes: &Vec<[u8; 32]>,
    neighbors: &Vec<[u8; 32]>,
    own_key: &[u8; 32],
) -> (peers: Option<Vec<[u8; 32]>>)
    ensures
        peers is Some <==> (local_hashes@.len() > 0 && exists|i: int|
            0 <= i < records@.len() && #[trigger] disjoint_from_history(record_views(records@)[i], local_hashes@)),
        peers matches Some(p) ==> {
            &&& distinct(p@)
            &&& forall|k: Seq<u8>| #[trigger] listed(p@, k) <==> overlap_pick(
                record_views(records@),
                local_hashes@,
                neighbors@,
                own_key@,
                k,
            )
        },
{
    if local_hashes.len() == 0 || !any_disjoint(records, local_hashes) {
        return None;
    }
    let scope = Scope { only_disjoint: true, local_hashes, only_new: true, neighbors, own_key };
    let peers = collect_offered(records, &scope);
    let ghost views = record_views(records@);
    proof {
        assert forall|k: Seq<u8>| #[trigger] listed(peers@, k) <==> overlap_pick(views, local_hashes@, neighbors@, own_key@, k) by {
            if overlap_pick(views, local_hashes@, neighbors@, own_key@, k) {
                let i = choose|i: int| 0 <= i < views.len() && disjoint_from_history(views[i], local_hashes@) && #[trigger] offers(views[i], k);
                assert(selected(views, views.len() as int, &scope, k));
            }
            if selected(views, views.len() as int, &scope, k) {
                let i = choose|i: int| 0 <= i < views.len() && scope_record(&scope, views[i]) && #[trigger] offers(views[i], k) && scope_key(&scope, k);
                assert(offers(views[i], k));
            }
        }
    }
    Some(peers)
}

/// The peers of `found` that are not listed in `added`, each once.
pub fn unknown_peers(found: &Vec<[u8; 32]>, added: &Vec<[u8; 32]>) -> (unknown: Vec<[u8; 32]>)
    ensures
        distinct(unknown@),
        forall|k: Seq<u8>| #[trigger] listed(unknown@, k) <==> (listed(found@, k) && !listed(added@, k)),
{
    let mut unknown: Vec<[u8; 32]> = Vec::new();
    let n: usize = found.len();
    let mut i: usize = 0;
    while i < n
        invariant
            i <= n,
            n == found@.len(),
            distinct(unknown@),
            forall|k: Seq<u8>| #[trigger] listed(unknown@, k) <==> (listed(found@.take(i as int), k) && !listed(added@, k)),
        decreases n - i,
    {
        let peer = found[i];
        let ghost before = unknown@;
        if !find_key(added, &peer) {
            push_unique(&mut unknown, peer);
        }
        proof {
            assert forall|k: Seq<u8>| #[trigger] listed(unknown@, k) <==> (listed(found@.take(i + 1), k) && !listed(added@, k)) by {
                if listed(found@.take(i + 1), k) {
                    let j = choose|j: int| 0 <= j < found@.take(i + 1).len() && #[trigger] found@.take(i + 1)[j]@ == k;
                    if j < i {
                        assert(found@.take(i as int)[j]@ == k);
                    }
                }
                if listed(found@.take(i as int), k) {
                    let j = choose|j: int| 0 <= j < found@.take(i as int).len() && #[trigger] found@.take(i as int)[j]@ == k;
                    assert(found@.take(i + 1)[j]@ == k);
                }
                if k == peer@ {
                    assert(found@.take(i + 1)[i as int]@ == k);
                }
            }
        }
        i = i + 1;
    }
    assert(found@.take(n as int) =~= found@);
    unknown
}

/// Every peer a merge strategy picks is a public key that is neither the
/// local node nor one of its neighbors, and some record offers it.
pub proof fn law_merge_picks_are_new_peers(
    records: Seq<RecordView>,
    local_hashes: Seq<[u8; 32]>,
    neighbors: Seq<[u8; 32]>,
    own_key: Seq<u8>,
    key: Seq<u8>,
)
    ensures
        bubble_pick(records, neighbors, own_key, key) ==> ed25519_point_decodes(key) && key != own_key
            && !listed(neighbors, key) && offered(records, key),
        overlap_pick(records, local_hashes, neighbors, own_key, key) ==> bubble_pick(
            records,
            neighbors,
            own_key,
            key,
        ),
{
    if overlap_pick(records, local_hashes, neighbors, own_key, key) {
        let i = choose|i: int| 0 <= i < records.len() && disjoint_from_history(records[i], local_hashes) && #[trigger] offers(records[i], key);
        assert(offers(records[i], key));
    }
    if bubble_pick(records, neighbors, own_key, key) {
        let i = choose|i: int| 0 <= i < records.len() && #[trigger] offers(records[i], key);
        assert(offers(records[i], key));
    }
}

} // verus!
