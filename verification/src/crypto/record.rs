//! Bootstrap records: their wire format, signatures and encryption.

use vstd::bytes::{spec_u32_to_le_bytes, spec_u64_to_le_bytes, u32_from_le_bytes, u32_to_le_bytes, u64_from_le_bytes, u64_to_le_bytes};
use vstd::prelude::*;

use crate::bytes::{
    all_32, append_bytes, block_views, bytes_equal, chunks_32, flatten, lemma_block_views_32,
    lemma_chunks_flatten, lemma_flatten_chunks, lemma_flatten_len,
};
use crate::crypto::digest::copy_array;
use crate::crypto::ed25519::{
    ed25519_decodes, ed25519_point_decodes, ed25519_signature, ed25519_strictly_verifies,
    ed25519_verify_strict, random_seed, SigningKey,
};
use crate::crypto::hpke::{hpke_decrypt, hpke_decryption, hpke_encrypt, HPKE_OVERHEAD};

verus! {

/// Length of the encoded record: topic, minute, node id, five peers, five
/// message hashes and the signature.
pub const RECORD_LEN: usize = 456;

/// Length of the signed part of an encoded record (all but the signature).
pub const SIGNED_LEN: usize = 392;

/// Why an operation on a record failed.
#[derive(Debug, Clone, Copy, PartialEq, Eq, Structural)]
pub enum RecordError {
    /// The record is for another topic.
    TopicMismatch,
    /// The record is for another minute.
    UnixMinuteMismatch,
    /// The record's node id is not an Ed25519 public key.
    InvalidNodeId,
    /// The record's signature does not verify under its node id.
    InvalidSignature,
    /// Bytes were left over after the record was decoded.
    TrailingBytes,
    /// Encryption to a key failed.
    EncryptionFailed,
    /// Decryption failed.
    DecryptionFailed,
    /// The decrypted one-time key is not 32 bytes long.
    InvalidKeyLength,
}

/// What a record says, as byte strings.
pub struct RecordView {
    pub topic: Seq<u8>,
    pub unix_minute: u64,
    pub node_id: Seq<u8>,
    pub active_peers: Seq<Seq<u8>>,
    pub last_message_hashes: Seq<Seq<u8>>,
    pub signature: Seq<u8>,
}

/// The signed part of a record's encoding.
pub open spec fn signed_bytes(
    topic: Seq<u8>,
    unix_minute: u64,
    node_id: Seq<u8>,
    active_peers: Seq<Seq<u8>>,
    last_message_hashes: Seq<Seq<u8>>,
) -> Seq<u8> {
    topic + spec_u64_to_le_bytes(unix_minute) + node_id + flatten(active_peers) + flatten(
        last_message_hashes,
    )
}

impl RecordView {
    /// The field lengths of an encodable record.
    pub open spec fn well_sized(self) -> bool {
        &&& self.topic.len() == 32
        &&& self.node_id.len() == 32
        &&& self.active_peers.len() == 5
        &&& all_32(self.active_peers)
        &&& self.last_message_hashes.len() == 5
        &&& all_32(self.last_message_hashes)
        &&& self.signature.len() == 64
    }

    /// The bytes the signature is made over.
    pub open spec fn signed_bytes(self) -> Seq<u8> {
        signed_bytes(self.topic, self.unix_minute, self.node_id, self.active_peers, self.last_message_hashes)
    }

    /// The wire encoding.
    pub open spec fn bytes(self) -> Seq<u8> {
        self.signed_bytes() + self.signature
    }
}

/// The record that the encoding `bytes` holds.
pub open spec fn decode_record(bytes: Seq<u8>) -> RecordView {
    RecordView {
        topic: bytes.subrange(0, 32),
        unix_minute: vstd::bytes::spec_u64_from_le_bytes(bytes.subrange(32, 40)),
        node_id: bytes.subrange(40, 72),
        active_peers: chunks_32(bytes.subrange(72, 232), 5),
        last_message_hashes: chunks_32(bytes.subrange(232, 392), 5),
        signature: bytes.subrange(392, 456),
    }
}

/// A signed bootstrap record: the node `node_id` announces itself for
/// `topic` in the minute `unix_minute`, with up to five active peers and up
/// to five hashes of recent messages (empty slots are zero).
#[derive(Debug, Clone, PartialEq, Eq, Hash)]
pub struct Record {
    topic: [u8; 32],
    unix_minute: u64,
    node_id: [u8; 32],
    active_peers: [[u8; 32]; 5],
    last_message_hashes: [[u8; 32]; 5],
    signature: [u8; 64],
}

impl View for Record {
    type V = RecordView;

    closed spec fn view(&self) -> RecordView {
        RecordView {
            topic: self.topic@,
            unix_minute: self.unix_minute,
            node_id: self.node_id@,
            active_peers: block_views(self.active_peers),
            last_message_hashes: block_views(self.last_message_hashes),
            signature: self.signature@,
        }
    }
}

/// Appends the 32-byte blocks of `blocks` to `buf`.
fn append_blocks(buf: &mut Vec<u8>, blocks: &[[u8; 32]; 5])
    ensures
        final(buf)@ == old(buf)@ + flatten(block_views(*blocks)),
{
    let mut i: usize = 0;
    while i < 5
        invariant
            i <= 5,
            buf@ == old(buf)@ + flatten(block_views(*blocks).take(i as int)),
        decreases 5 - i,
    {
        let ghost before = buf@;
        append_bytes(buf, blocks[i].as_slice());
        proof {
            let taken = block_views(*blocks).take(i + 1);
            assert(taken.drop_last() =~= block_views(*blocks).take(i as int));
            assert(taken.last() == blocks@[i as int]@);
            assert(buf@ =~= old(buf)@ + flatten(taken));
        }
        i = i + 1;
    }
    assert(block_views(*blocks).take(5) =~= block_views(*blocks));
}

/// Reads five consecutive 32-byte blocks from `bytes`, starting at `offset`.
fn read_blocks(bytes: &[u8], offset: usize) -> (blocks: [[u8; 32]; 5])
    requires
        offset + 160 <= bytes@.len(),
    ensures
        block_views(blocks) == chunks_32(bytes@.subrange(offset as int, offset + 160), 5),
{
    let ghost region = bytes@.subrange(offset as int, offset + 160);
    let total: usize = bytes.len();
    let mut blocks = [[0u8; 32]; 5];
    let mut i: usize = 0;
    while i < 5
        invariant
            i <= 5,
            total == bytes@.len(),
            offset + 160 <= bytes@.len(),
            region == bytes@.subrange(offset as int, offset + 160),
            forall|j: int| 0 <= j < i ==> #[trigger] blocks@[j]@ == region.subrange(32 * j, 32 * j + 32),
        decreases 5 - i,
    {
        let block = copy_array::<32>(bytes, offset + 32 * i);
        assert(block@ =~= region.subrange(32 * i, 32 * i + 32));
        blocks[i] = block;
        i = i + 1;
    }
    assert(block_views(blocks) =~= chunks_32(region, 5));
    blocks
}

impl Record {
    /// Every record has the field lengths of the wire format.
    pub proof fn lemma_well_sized(&self)
        ensures
            self@.well_sized(),
    {
        lemma_block_views_32(self.active_peers);
        lemma_block_views_32(self.last_message_hashes);
    }

    /// The encoding of the signed fields.
    fn signed_part(
        topic: &[u8; 32],
        unix_minute: u64,
        node_id: &[u8; 32],
        active_peers: &[[u8; 32]; 5],
        last_message_hashes: &[[u8; 32]; 5],
    ) -> (bytes: Vec<u8>)
        ensures
            bytes@ == signed_bytes(
                topic@,
                unix_minute,
                node_id@,
                block_views(*active_peers),
                block_views(*last_message_hashes),
            ),
    {
        let mut buf: Vec<u8> = Vec::new();
        append_bytes(&mut buf, topic.as_slice());
        let minute = u64_to_le_bytes(unix_minute);
        append_bytes(&mut buf, minute.as_slice());
        append_bytes(&mut buf, node_id.as_slice());
        append_blocks(&mut buf, active_peers);
        append_blocks(&mut buf, last_message_hashes);
        buf
    }

    /// Signs a record for `topic` and `unix_minute` with `signing_key`.
    pub fn sign(
        topic: [u8; 32],
        unix_minute: u64,
        node_id: [u8; 32],
        active_peers: [[u8; 32]; 5],
        last_message_hashes: [[u8; 32]; 5],
        signing_key: &SigningKey,
    ) -> (record: Record)
        ensures
            record@.topic == topic@,
            record@.unix_minute == unix_minute,
            record@.node_id == node_id@,
            record@.active_peers == block_views(active_peers),
            record@.last_message_hashes == block_views(last_message_hashes),
            record@.signature == ed25519_signature(signing_key@, record@.signed_bytes()),
    {
        let data = Record::signed_part(&topic, unix_minute, &node_id, &active_peers, &last_message_hashes);
        let signature = signing_key.sign(data.as_slice());
        Record { topic, unix_minute, node_id, active_peers, last_message_hashes, signature }
    }

    /// The wire encoding of the record.
    pub fn to_bytes(&self) -> (bytes: Vec<u8>)
        ensures
            bytes@ == self@.bytes(),
            bytes@.len() == RECORD_LEN,
    {
        proof {
            self.lemma_well_sized();
            lemma_flatten_len(self@.active_peers);
            lemma_flatten_len(self@.last_message_hashes);
            vstd::bytes::lemma_auto_spec_u64_to_from_le_bytes();
        }
        let mut buf = Record::signed_part(
            &self.topic,
            self.unix_minute,
            &self.node_id,
            &self.active_peers,
            &self.last_message_hashes,
        );
        append_bytes(&mut buf, self.signature.as_slice());
        buf
    }

    /// Decodes a record from its wire encoding. The encoding must hold the
    /// full record; bytes after it make the decoding fail.
    pub fn from_bytes(buf: Vec<u8>) -> (result: Result<Record, RecordError>)
        requires
            buf@.len() >= RECORD_LEN,
        ensures
            buf@.len() == RECORD_LEN ==> (result matches Ok(record) && record@ == decode_record(buf@)),
            buf@.len() > RECORD_LEN ==> result == Err::<Record, RecordError>(RecordError::TrailingBytes),
    {
        let bytes = buf.as_slice();
        let topic = copy_array::<32>(bytes, 0);
        let minute_bytes = copy_array::<8>(bytes, 32);
        let unix_minute = u64_from_le_bytes(minute_bytes.as_slice());
        let node_id = copy_array::<32>(bytes, 40);
        let active_peers = read_blocks(bytes, 72);
        let last_message_hashes = read_blocks(bytes, 232);
        let signature = copy_array::<64>(bytes, 392);
        if bytes.len() != RECORD_LEN {
            return Err(RecordError::TrailingBytes);
        }
        let record = Record { topic, unix_minute, node_id, active_peers, last_message_hashes, signature };
        assert(record@ =~= decode_record(buf@));
        Ok(record)
    }

    /// Checks the record against the topic and minute it is expected for,
    /// and its signature against its node id (strict Ed25519 verification).
    pub fn verify(&self, actual_topic: &[u8; 32], actual_unix_minute: u64) -> (result: Result<(), RecordError>)
        ensures
            result == verification(self@, actual_topic@, actual_unix_minute),
    {
        if !bytes_equal(self.topic.as_slice(), actual_topic.as_slice()) {
            return Err(RecordError::TopicMismatch);
        }
        if self.unix_minute != actual_unix_minute {
            return Err(RecordError::UnixMinuteMismatch);
        }
        let data = Record::signed_part(
            &self.topic,
            self.unix_minute,
            &self.node_id,
            &self.active_peers,
            &self.last_message_hashes,
        );
        if !ed25519_decodes(&self.node_id) {
            return Err(RecordError::InvalidNodeId);
        }
        if !ed25519_verify_strict(&self.node_id, data.as_slice(), &self.signature) {
            return Err(RecordError::InvalidSignature);
        }
        Ok(())
    }

    /// Encrypts the record for the holder of `encryption_key`: the encoding
    /// is encrypted to a fresh one-time key, and the one-time key to
    /// `encryption_key`.
    pub fn encrypt(&self, encryption_key: &SigningKey) -> (result: Result<EncryptedRecord, RecordError>)
        ensures
            result matches Ok(encrypted) ==> encrypted@.opens_to(encryption_key@, self@.bytes()),
            result matches Ok(encrypted) ==> encrypted@.encrypted_record.len() == RECORD_LEN + HPKE_OVERHEAD,
            result matches Ok(encrypted) ==> encrypted@.encrypted_decryption_key.len() == 32 + HPKE_OVERHEAD,
            result matches Err(e) ==> e == RecordError::EncryptionFailed,
    {
        let one_time_key = random_seed();
        let bytes = self.to_bytes();
        let encrypted_record = match hpke_encrypt(&one_time_key, bytes.as_slice()) {
            Some(c) => c,
            None => return Err(RecordError::EncryptionFailed),
        };
        let encrypted_decryption_key = match hpke_encrypt(encryption_key.seed(), one_time_key.as_slice()) {
            Some(c) => c,
            None => return Err(RecordError::EncryptionFailed),
        };
        let encrypted = EncryptedRecord { encrypted_record, encrypted_decryption_key };
        assert(one_time_key@.len() == 32);
        assert(hpke_decryption(encryption_key@, encrypted@.encrypted_decryption_key) == Some(one_time_key@));
        assert(hpke_decryption(one_time_key@, encrypted@.encrypted_record) == Some(self@.bytes()));
        Ok(encrypted)
    }

    /// The topic hash.
    pub fn topic(&self) -> (topic: [u8; 32])
        ensures
            topic@ == self@.topic,
    {
        self.topic
    }

    /// The minute slot.
    pub fn unix_minute(&self) -> (unix_minute: u64)
        ensures
            unix_minute == self@.unix_minute,
    {
        self.unix_minute
    }

    /// The public key of the node that signed the record.
    pub fn node_id(&self) -> (node_id: [u8; 32])
        ensures
            node_id@ == self@.node_id,
    {
        self.node_id
    }

    /// The node's active peers (zero for an empty slot).
    pub fn active_peers(&self) -> (active_peers: [[u8; 32]; 5])
        ensures
            block_views(active_peers) == self@.active_peers,
    {
        self.active_peers
    }

    /// Hashes of the node's recent messages (zero for an empty slot).
    pub fn last_message_hashes(&self) -> (last_message_hashes: [[u8; 32]; 5])
        ensures
            block_views(last_message_hashes) == self@.last_message_hashes,
    {
        self.last_message_hashes
    }

    /// The signature.
    pub fn signature(&self) -> (signature: [u8; 64])
        ensures
            signature@ == self@.signature,
    {
        self.signature
    }
}

/// What checking `record` against `topic` and `unix_minute` gives.
pub open spec fn verification(record: RecordView, topic: Seq<u8>, unix_minute: u64) -> Result<(), RecordError> {
    if record.topic != topic {
        Err(RecordError::TopicMismatch)
    } else if record.unix_minute != unix_minute {
        Err(RecordError::UnixMinuteMismatch)
    } else if !ed25519_point_decodes(record.node_id) {
        Err(RecordError::InvalidNodeId)
    } else if !ed25519_strictly_verifies(record.node_id, record.signed_bytes(), record.signature) {
        Err(RecordError::InvalidSignature)
    } else {
        Ok(())
    }
}

/// What an encrypted record holds, as byte strings.
pub struct EncryptedRecordView {
    pub encrypted_record: Seq<u8>,
    pub encrypted_decryption_key: Seq<u8>,
}

impl EncryptedRecordView {
    /// The plaintext that `key` opens: the one-time key is decrypted with
    /// `key`, and the record with the one-time key.
    pub open spec fn payload(self, key: Seq<u8>) -> Option<Seq<u8>> {
        match hpke_decryption(key, self.encrypted_decryption_key) {
            Some(one_time_key) => if one_time_key.len() == 32 {
                hpke_decryption(one_time_key, self.encrypted_record)
            } else {
                None
            },
            None => None,
        }
    }

    /// `key` opens the encrypted record to `bytes`.
    pub open spec fn opens_to(self, key: Seq<u8>, bytes: Seq<u8>) -> bool {
        exists|one_time_key: Seq<u8>|
            {
                &&& one_time_key.len() == 32
                &&& #[trigger] hpke_decryption(key, self.encrypted_decryption_key) == Some(one_time_key)
                &&& hpke_decryption(one_time_key, self.encrypted_record) == Some(bytes)
            }
    }

    /// Decryption with `key` does not meet a payload shorter than a record.
    pub open spec fn payload_decodable(self, key: Seq<u8>) -> bool {
        self.payload(key) matches Some(p) ==> p.len() >= RECORD_LEN
    }

    /// The wire encoding: the record ciphertext's length (four bytes, little
    /// endian, modulo 2^32), the record ciphertext, the key ciphertext.
    pub open spec fn bytes(self) -> Seq<u8> {
        spec_u32_to_le_bytes(self.encrypted_record.len() as u32) + self.encrypted_record
            + self.encrypted_decryption_key
    }
}

/// What decrypting `encrypted` with `key` gives.
pub open spec fn decryption(encrypted: EncryptedRecordView, key: Seq<u8>) -> Result<RecordView, RecordError> {
    match hpke_decryption(key, encrypted.encrypted_decryption_key) {
        None => Err(RecordError::DecryptionFailed),
        Some(one_time_key) => if one_time_key.len() != 32 {
            Err(RecordError::InvalidKeyLength)
        } else {
            match hpke_decryption(one_time_key, encrypted.encrypted_record) {
                None => Err(RecordError::DecryptionFailed),
                Some(payload) => if payload.len() == RECORD_LEN {
                    Ok(decode_record(payload))
                } else {
                    Err(RecordError::TrailingBytes)
                },
            }
        }
    }
}

/// A framed encoding `bytes` that `EncryptedRecord::from_bytes` can split:
/// at least the length prefix, and at least as many bytes after it as it
/// names.
pub open spec fn well_framed(bytes: Seq<u8>) -> bool {
    &&& bytes.len() >= 4
    &&& vstd::bytes::spec_u32_from_le_bytes(bytes.subrange(0, 4)) <= bytes.len() - 4
}

/// The two ciphertexts of a framed encoding.
pub open spec fn split_framed(bytes: Seq<u8>) -> EncryptedRecordView {
    let len = vstd::bytes::spec_u32_from_le_bytes(bytes.subrange(0, 4));
    EncryptedRecordView {
        encrypted_record: bytes.subrange(4, 4 + len),
        encrypted_decryption_key: bytes.subrange(4 + len, bytes.len() as int),
    }
}

/// A record encrypted in two layers, as stored in the DHT.
#[derive(Debug, Clone)]
pub struct EncryptedRecord {
    encrypted_record: Vec<u8>,
    encrypted_decryption_key: Vec<u8>,
}

impl View for EncryptedRecord {
    type V = EncryptedRecordView;

    closed spec fn view(&self) -> EncryptedRecordView {
        EncryptedRecordView {
            encrypted_record: self.encrypted_record@,
            encrypted_decryption_key: self.encrypted_decryption_key@,
        }
    }
}

/// The view of a decryption outcome.
pub open spec fn result_view(result: Result<Record, RecordError>) -> Result<RecordView, RecordError> {
    match result {
        Ok(record) => Ok(record@),
        Err(e) => Err(e),
    }
}

impl EncryptedRecord {
    /// Decrypts the record with `decryption_key`. The decrypted payload must
    /// not be shorter than a record.
    pub fn decrypt(&self, decryption_key: &SigningKey) -> (result: Result<Record, RecordError>)
        requires
            self@.payload_decodable(decryption_key@),
        ensures
            result_view(result) == decryption(self@, decryption_key@),
    {
        let key_bytes = match hpke_decrypt(decryption_key.seed(), self.encrypted_decryption_key.as_slice()) {
            Some(k) => k,
            None => return Err(RecordError::DecryptionFailed),
        };
        if key_bytes.len() != 32 {
            return Err(RecordError::InvalidKeyLength);
        }
        let one_time_key = copy_array::<32>(key_bytes.as_slice(), 0);
        assert(one_time_key@ =~= key_bytes@);
        let payload = match hpke_decrypt(&one_time_key, self.encrypted_record.as_slice()) {
            Some(p) => p,
            None => return Err(RecordError::DecryptionFailed),
        };
        Record::from_bytes(payload)
    }

    /// Decrypts the record with `decryption_key`, or gives `None` where the
    /// decrypted payload is shorter than a record.
    pub fn try_decrypt(&self, decryption_key: &SigningKey) -> (result: Option<Result<Record, RecordError>>)
        ensures
            result matches Some(r) ==> self@.payload_decodable(decryption_key@) && result_view(r)
                == decryption(self@, decryption_key@),
            result is None ==> !self@.payload_decodable(decryption_key@),
    {
        if let Some(key_bytes) = hpke_decrypt(decryption_key.seed(), self.encrypted_decryption_key.as_slice()) {
            if key_bytes.len() == 32 {
                let one_time_key = copy_array::<32>(key_bytes.as_slice(), 0);
                assert(one_time_key@ =~= key_bytes@);
                if let Some(payload) = hpke_decrypt(&one_time_key, self.encrypted_record.as_slice()) {
                    if payload.len() < RECORD_LEN {
                        return None;
                    }
                }
            }
        }
        Some(self.decrypt(decryption_key))
    }

    /// The wire encoding.
    pub fn to_bytes(&self) -> (bytes: Vec<u8>)
        ensures
            bytes@ == self@.bytes(),
    {
        let mut buf: Vec<u8> = Vec::new();
        let len = self.encrypted_record.len() as u32;
        let prefix = u32_to_le_bytes(len);
        append_bytes(&mut buf, prefix.as_slice());
        append_bytes(&mut buf, self.encrypted_record.as_slice());
        append_bytes(&mut buf, self.encrypted_decryption_key.as_slice());
        buf
    }

    /// Splits a framed encoding into its two ciphertexts.
    pub fn from_bytes(buf: Vec<u8>) -> (result: Result<EncryptedRecord, RecordError>)
        requires
            well_framed(buf@),
        ensures
            result matches Ok(e) && e@ == split_framed(buf@),
    {
        Ok(EncryptedRecord::split(buf.as_slice()))
    }

    /// Splits `bytes` where they are a framed encoding; `None` where their
    /// length prefix is missing or exceeds what follows it.
    pub fn parse(bytes: &[u8]) -> (result: Option<EncryptedRecord>)
        ensures
            result is Some <==> well_framed(bytes@),
            result matches Some(e) ==> e@ == split_framed(bytes@),
    {
        if is_well_framed(bytes) {
            Some(EncryptedRecord::split(bytes))
        } else {
            None
        }
    }

    fn split(bytes: &[u8]) -> (encrypted: EncryptedRecord)
        requires
            well_framed(bytes@),
        ensures
            encrypted@ == split_framed(bytes@),
    {
        let prefix = copy_array::<4>(bytes, 0);
        let len = u32_from_le_bytes(prefix.as_slice()) as usize;
        let total: usize = bytes.len();
        let mut encrypted_record: Vec<u8> = Vec::new();
        let mut encrypted_decryption_key: Vec<u8> = Vec::new();
        let mut i: usize = 4;
        while i < 4 + len
            invariant
                4 <= i <= 4 + len,
                4 + len <= total,
                total == bytes@.len(),
                encrypted_record@ == bytes@.subrange(4, i as int),
            decreases 4 + len - i,
        {
            encrypted_record.push(bytes[i]);
            i = i + 1;
            assert(encrypted_record@ =~= bytes@.subrange(4, i as int));
        }
        while i < total
            invariant
                4 + len <= i <= total,
                total == bytes@.len(),
                encrypted_decryption_key@ == bytes@.subrange(4 + len, i as int),
            decreases total - i,
        {
            encrypted_decryption_key.push(bytes[i]);
            i = i + 1;
            assert(encrypted_decryption_key@ =~= bytes@.subrange(4 + len, i as int));
        }
        assert(prefix@ =~= bytes@.subrange(0, 4));
        let encrypted = EncryptedRecord { encrypted_record, encrypted_decryption_key };
        assert(encrypted@ =~= split_framed(bytes@));
        encrypted
    }
}

/// Whether `bytes` are a framed encoding: a four-byte length prefix, and at
/// least that many bytes after it.
pub fn is_well_framed(bytes: &[u8]) -> (framed: bool)
    ensures
        framed == well_framed(bytes@),
{
    if bytes.len() < 4 {
        return false;
    }
    let prefix = copy_array::<4>(bytes, 0);
    assert(prefix@ =~= bytes@.subrange(0, 4));
    let len: u32 = u32_from_le_bytes(prefix.as_slice());
    len as usize <= bytes.len() - 4
}

/// Decoding gives back the record that was encoded:
/// `Record::from_bytes(r.to_bytes())` is `Ok` of a record with `r`'s fields.
pub proof fn law_record_decode_encode(record: RecordView)
    requires
        record.well_sized(),
    ensures
        record.bytes().len() == RECORD_LEN,
        decode_record(record.bytes()) == record,
{
    let bytes = record.bytes();
    lemma_flatten_len(record.active_peers);
    lemma_flatten_len(record.last_message_hashes);
    vstd::bytes::lemma_auto_spec_u64_to_from_le_bytes();
    let le = spec_u64_to_le_bytes(record.unix_minute);
    assert(bytes.subrange(0, 32) =~= record.topic);
    assert(bytes.subrange(32, 40) =~= le);
    assert(bytes.subrange(40, 72) =~= record.node_id);
    assert(bytes.subrange(72, 232) =~= flatten(record.active_peers));
    assert(bytes.subrange(232, 392) =~= flatten(record.last_message_hashes));
    assert(bytes.subrange(392, 456) =~= record.signature);
    lemma_chunks_flatten(record.active_peers);
    lemma_chunks_flatten(record.last_message_hashes);
    assert(decode_record(bytes) =~= record);
}

/// Encoding gives back the bytes that were decoded: a 456-byte buffer is the
/// encoding of the record decoded from it.
pub proof fn law_record_encode_decode(bytes: Seq<u8>)
    requires
        bytes.len() == RECORD_LEN,
    ensures
        decode_record(bytes).well_sized(),
        decode_record(bytes).bytes() == bytes,
{
    let record = decode_record(bytes);
    vstd::bytes::lemma_auto_spec_u64_to_from_le_bytes();
    lemma_flatten_chunks(bytes.subrange(72, 232), 5);
    lemma_flatten_chunks(bytes.subrange(232, 392), 5);
    assert(spec_u64_to_le_bytes(record.unix_minute) == bytes.subrange(32, 40));
    assert(record.bytes() =~= bytes);
}

/// A record passes verification only for its own topic and minute; for
/// those, exactly when its node id is a public key under which its signature
/// strictly verifies.
pub proof fn law_verification(record: RecordView, topic: Seq<u8>, unix_minute: u64)
    ensures
        topic != record.topic ==> verification(record, topic, unix_minute) == Err::<(), RecordError>(
            RecordError::TopicMismatch,
        ),
        topic == record.topic && unix_minute != record.unix_minute ==> verification(
            record,
            topic,
            unix_minute,
        ) == Err::<(), RecordError>(RecordError::UnixMinuteMismatch),
        (verification(record, topic, unix_minute) is Ok) <==> (topic == record.topic && unix_minute
            == record.unix_minute && ed25519_point_decodes(record.node_id)
            && ed25519_strictly_verifies(record.node_id, record.signed_bytes(), record.signature)),
{
}

/// Decryption with the key a record was encrypted for gives back the record:
/// `e.decrypt(key)` is `Ok` of a record with `r`'s fields when `e` came from
/// `r.encrypt(key)`.
pub proof fn law_encrypt_decrypt(encrypted: EncryptedRecordView, key: Seq<u8>, record: RecordView)
    requires
        record.well_sized(),
        encrypted.opens_to(key, record.bytes()),
    ensures
        encrypted.payload_decodable(key),
        decryption(encrypted, key) == Ok::<RecordView, RecordError>(record),
{
    law_record_decode_encode(record);
}

/// An encrypted record survives its wire encoding: the encoding of a record
/// encrypted for `key` (whose record ciphertext is as long as encryption
/// makes it) is well framed, splits back into the same two ciphertexts, and
/// decrypts with `key` to the record.
pub proof fn law_encrypted_record_round_trip(encrypted: EncryptedRecordView, key: Seq<u8>, record: RecordView)
    requires
        record.well_sized(),
        encrypted.opens_to(key, record.bytes()),
        encrypted.encrypted_record.len() == RECORD_LEN + HPKE_OVERHEAD,
    ensures
        well_framed(encrypted.bytes()),
        split_framed(encrypted.bytes()) == encrypted,
        split_framed(encrypted.bytes()).payload_decodable(key),
        decryption(split_framed(encrypted.bytes()), key) == Ok::<RecordView, RecordError>(record),
{
    law_framing_split_join(encrypted);
    law_encrypt_decrypt(encrypted, key, record);
}

/// Splitting a framed encoding gives back the two ciphertexts, as long as
/// the record ciphertext's length fits the four-byte prefix.
pub proof fn law_framing_split_join(encrypted: EncryptedRecordView)
    requires
        encrypted.encrypted_record.len() <= u32::MAX,
    ensures
        well_framed(encrypted.bytes()),
        split_framed(encrypted.bytes()) == encrypted,
{
    let bytes = encrypted.bytes();
    let len = encrypted.encrypted_record.len();
    vstd::bytes::lemma_auto_spec_u32_to_from_le_bytes();
    assert(bytes.subrange(0, 4) =~= spec_u32_to_le_bytes(len as u32));
    assert((len as u32) as nat == len);
    assert(split_framed(bytes).encrypted_record =~= encrypted.encrypted_record);
    assert(split_framed(bytes).encrypted_decryption_key =~= encrypted.encrypted_decryption_key);
}

/// Joining the two ciphertexts of a framed encoding gives back the encoding.
pub proof fn law_framing_join_split(bytes: Seq<u8>)
    requires
        well_framed(bytes),
    ensures
        split_framed(bytes).bytes() == bytes,
{
    vstd::bytes::lemma_auto_spec_u32_to_from_le_bytes();
    let len = vstd::bytes::spec_u32_from_le_bytes(bytes.subrange(0, 4));
    assert(split_framed(bytes).encrypted_record.len() == len);
    assert(spec_u32_to_le_bytes(len) == bytes.subrange(0, 4));
    assert(split_framed(bytes).bytes() =~= bytes);
}

} // verus!
