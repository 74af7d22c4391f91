//! The records of a topic's DHT slot for one minute: which stored items a
//! node accepts as bootstrap records, and whether the slot has room for the
//! node's own record.

use vstd::prelude::*;

use crate::bytes::bytes_equal;
use crate::config::BootstrapConfig;
use crate::crypto::ed25519::SigningKey;
use crate::crypto::hpke::HPKE_OVERHEAD;
use crate::crypto::record::{
    decryption, law_encrypted_record_round_trip, law_record_decode_encode, split_framed, verification, well_framed,
    EncryptedRecord, EncryptedRecordView, Record, RecordView, RECORD_LEN,
};
use crate::peers::record_views;

verus! {

/// The record a node accepts from the stored item `item` of the slot of
/// `unix_minute`: the item is a framed encoding whose record decrypts with
/// `key`, verifies for `topic` and that minute, and is not the node's own
/// (its node id is not `own_key`).
pub open spec fn slot_record(
    item: Seq<u8>,
    key: Seq<u8>,
    topic: Seq<u8>,
    unix_minute: u64,
    own_key: Seq<u8>,
) -> Option<RecordView> {
    if !well_framed(item) || !split_framed(item).payload_decodable(key) {
        None
    } else {
        match decryption(split_framed(item), key) {
            Ok(record) => if verification(record, topic, unix_minute) is Ok && record.node_id != own_key {
                Some(record)
            } else {
                None
            },
            Err(_) => None,
        }
    }
}

/// The records accepted from `items`, in the order of the items, each once.
pub open spec fn slot_records_of(
    items: Seq<Seq<u8>>,
    key: Seq<u8>,
    topic: Seq<u8>,
    unix_minute: u64,
    own_key: Seq<u8>,
) -> Seq<RecordView>
    decreases items.len(),
{
    if items.len() == 0 {
        Seq::empty()
    } else {
        let earlier = slot_records_of(items.drop_last(), key, topic, unix_minute, own_key);
        match slot_record(items.last(), key, topic, unix_minute, own_key) {
            Some(record) => if earlier.contains(record) {
                earlier
            } else {
                earlier.push(record)
            },
            None => earlier,
        }
    }
}

/// The byte views of stored items.
pub open spec fn item_views(items: Seq<Vec<u8>>) -> Seq<Seq<u8>> {
    items.map_values(|item: Vec<u8>| item@)
}

/// Whether `records` hold a record equal to `record`.
fn holds_record(records: &Vec<Record>, record: &Record) -> (held: bool)
    ensures
        held == record_views(records@).contains(record@),
{
    let bytes = record.to_bytes();
    let len: usize = records.len();
    let mut i: usize = 0;
    while i < len
        invariant
            i <= len,
            len == records@.len(),
            bytes@ == record@.bytes(),
            forall|j: int| 0 <= j < i ==> records@[j]@ != record@,
        decreases len - i,
    {
        let other = records[i].to_bytes();
        if bytes_equal(other.as_slice(), bytes.as_slice()) {
            proof {
                records@[i as int].lemma_well_sized();
                record.lemma_well_sized();
                law_record_decode_encode(records@[i as int]@);
                law_record_decode_encode(record@);
            }
            assert(record_views(records@)[i as int] == record@);
            return true;
        }
        proof {
            if records@[i as int]@ == record@ {
                assert(other@ == bytes@);
            }
        }
        i = i + 1;
    }
    proof {
        if record_views(records@).contains(record@) {
            let j = choose|j: int| 0 <= j < record_views(records@).len() && record_views(records@)[j] == record@;
            assert(records@[j]@ == record@);
        }
    }
    false
}

/// The bootstrap records among the items stored in the slot of
/// `unix_minute`: those that decrypt with `decryption_key`, verify for
/// `topic` and that minute and are not the node's own, each once, in the
/// order of the items.
pub fn slot_records(
    items: &Vec<Vec<u8>>,
    decryption_key: &SigningKey,
    topic: &[u8; 32],
    unix_minute: u64,
    own_key: &[u8; 32],
) -> (records: Vec<Record>)
    ensures
        record_views(records@) == slot_records_of(item_views(items@), decryption_key@, topic@, unix_minute, own_key@),
{
    let ghost views = item_views(items@);
    let mut records: Vec<Record> = Vec::new();
    let len: usize = items.len();
    let mut i: usize = 0;
    while i < len
        invariant
            i <= len,
            len == items@.len(),
            views == item_views(items@),
            record_views(records@) == slot_records_of(views.subrange(0, i as int), decryption_key@, topic@, unix_minute, own_key@),
        decreases len - i,
    {
        let ghost before = records@;
        let accepted = slot_item(items[i].as_slice(), decryption_key, topic, unix_minute, own_key);
        let ghost prefix = views.subrange(0, i as int + 1);
        assert(prefix.drop_last() =~= views.subrange(0, i as int));
        assert(prefix.last() == items@[i as int]@);
        if let Some(record) = accepted {
            if !holds_record(&records, &record) {
                records.push(record);
                assert(record_views(records@) =~= record_views(before).push(record@));
            }
        }
        i = i + 1;
    }
    assert(views.subrange(0, len as int) =~= views);
    records
}

/// The record accepted from one stored item, if any.
fn slot_item(
    item: &[u8],
    decryption_key: &SigningKey,
    topic: &[u8; 32],
    unix_minute: u64,
    own_key: &[u8; 32],
) -> (accepted: Option<Record>)
    ensures
        accepted matches Some(r) ==> slot_record(item@, decryption_key@, topic@, unix_minute, own_key@) == Some(r@),
        accepted is None ==> slot_record(item@, decryption_key@, topic@, unix_minute, own_key@) is None,
{
    let encrypted = match EncryptedRecord::parse(item) {
        Some(e) => e,
        None => return None,
    };
    let record = match encrypted.try_decrypt(decryption_key) {
        Some(Ok(r)) => r,
        _ => return None,
    };
    if record.verify(topic, unix_minute).is_err() {
        return None;
    }
    let node_id = record.node_id();
    if bytes_equal(node_id.as_slice(), own_key.as_slice()) {
        return None;
    }
    Some(record)
}

/// Every record taken from a slot was checked: it verifies for the topic and
/// minute of the slot, it is not the node's own, and none occurs twice.
pub proof fn law_slot_records_checked(
    items: Seq<Seq<u8>>,
    key: Seq<u8>,
    topic: Seq<u8>,
    unix_minute: u64,
    own_key: Seq<u8>,
)
    ensures
        forall|i: int|
            0 <= i < slot_records_of(items, key, topic, unix_minute, own_key).len() ==> {
                let record = #[trigger] slot_records_of(items, key, topic, unix_minute, own_key)[i];
                &&& verification(record, topic, unix_minute) is Ok
                &&& record.node_id != own_key
            },
        forall|i: int, j: int|
            0 <= i < j < slot_records_of(items, key, topic, unix_minute, own_key).len() ==> slot_records_of(
                items,
                key,
                topic,
                unix_minute,
                own_key,
            )[i] != slot_records_of(items, key, topic, unix_minute, own_key)[j],
    decreases items.len(),
{
    if items.len() > 0 {
        law_slot_records_checked(items.drop_last(), key, topic, unix_minute, own_key);
    }
}

/// Nothing acceptable is lost and nothing else is taken: a record is among
/// those taken from a slot exactly when some stored item yields it.
pub proof fn law_slot_records_complete(
    items: Seq<Seq<u8>>,
    key: Seq<u8>,
    topic: Seq<u8>,
    unix_minute: u64,
    own_key: Seq<u8>,
)
    ensures
        forall|k: int|
            0 <= k < items.len() ==> (#[trigger] slot_record(items[k], key, topic, unix_minute, own_key) matches Some(
                r,
            ) ==> slot_records_of(items, key, topic, unix_minute, own_key).contains(r)),
        forall|r: RecordView|
            slot_records_of(items, key, topic, unix_minute, own_key).contains(r) ==> exists|k: int|
                0 <= k < items.len() && #[trigger] slot_record(items[k], key, topic, unix_minute, own_key) == Some(r),
    decreases items.len(),
{
    if items.len() > 0 {
        let earlier_items = items.drop_last();
        law_slot_records_complete(earlier_items, key, topic, unix_minute, own_key);
        let earlier = slot_records_of(earlier_items, key, topic, unix_minute, own_key);
        let all = slot_records_of(items, key, topic, unix_minute, own_key);
        assert forall|r: RecordView| earlier.contains(r) implies all.contains(r) by {
            let i = choose|i: int| 0 <= i < earlier.len() && earlier[i] == r;
            if let Some(x) = slot_record(items.last(), key, topic, unix_minute, own_key) {
                if !earlier.contains(x) {
                    assert(all[i] == r);
                }
            }
        }
        assert forall|k: int|
            0 <= k < items.len() implies (#[trigger] slot_record(items[k], key, topic, unix_minute, own_key) matches Some(
                r,
            ) ==> all.contains(r)) by {
            if k < items.len() - 1 {
                assert(items[k] == earlier_items[k]);
            } else if let Some(r) = slot_record(items[k], key, topic, unix_minute, own_key) {
                if !earlier.contains(r) {
                    assert(all[earlier.len() as int] == r);
                }
            }
        }
        assert forall|r: RecordView| all.contains(r) implies exists|k: int|
            0 <= k < items.len() && #[trigger] slot_record(items[k], key, topic, unix_minute, own_key) == Some(r) by {
            if earlier.contains(r) {
                let k = choose|k: int|
                    0 <= k < earlier_items.len() && #[trigger] slot_record(earlier_items[k], key, topic, unix_minute, own_key)
                        == Some(r);
                assert(items[k] == earlier_items[k]);
            } else {
                let i = choose|i: int| 0 <= i < all.len() && all[i] == r;
                assert(slot_record(items[items.len() - 1], key, topic, unix_minute, own_key) == Some(r));
            }
        }
    }
}

/// A record that a node of the topic sealed into the slot is taken: the
/// encoding of a record encrypted for the slot's key, which verifies for the
/// topic and minute and is not the reader's own, yields that record.
pub proof fn law_sealed_record_accepted(
    encrypted: EncryptedRecordView,
    key: Seq<u8>,
    record: RecordView,
    topic: Seq<u8>,
    unix_minute: u64,
    own_key: Seq<u8>,
)
    requires
        record.well_sized(),
        encrypted.opens_to(key, record.bytes()),
        encrypted.encrypted_record.len() == RECORD_LEN + HPKE_OVERHEAD,
        verification(record, topic, unix_minute) is Ok,
        record.node_id != own_key,
    ensures
        slot_record(encrypted.bytes(), key, topic, unix_minute, own_key) == Some(record),
{
    law_encrypted_record_round_trip(encrypted, key, record);
}

/// Whether the slot of a minute, holding `records_in_slot` records of other
/// nodes, has room for the node's own: fewer than `max_bootstrap_records`
/// (so never where that is zero).
pub fn slot_has_room(config: &BootstrapConfig, records_in_slot: usize) -> (room: bool)
    ensures
        room == (records_in_slot < config@.max_bootstrap_records),
{
    records_in_slot < config.max_bootstrap_records()
}

} // verus!
