//! Topic identifiers.

use vstd::prelude::*;
use vstd::std_specs::convert::FromSpecImpl;
use vstd::utf8::encode_utf8;

use crate::crypto::digest::{sha512_32, sha512_prefix32};

verus! {

/// A topic, named by a string; its hash is the first 32 bytes of the
/// SHA-512 digest of the string's UTF-8 bytes.
#[derive(Debug)]
pub struct TopicId {
    raw: String,
    hash: [u8; 32],
}

/// The hash of the topic named `raw`.
pub open spec fn topic_hash(raw: Seq<char>) -> Seq<u8> {
    sha512_prefix32(encode_utf8(raw))
}

impl View for TopicId {
    type V = Seq<char>;

    /// The topic's name.
    closed spec fn view(&self) -> Seq<char> {
        self.raw@
    }
}

impl TopicId {
    #[verifier::type_invariant]
    spec fn hash_matches_name(&self) -> bool {
        self.hash@ == topic_hash(self.raw@)
    }

    /// The topic named `raw`.
    pub fn new(raw: String) -> (topic: TopicId)
        ensures
            topic@ == raw@,
    {
        let hash = sha512_32(raw.as_str().as_bytes());
        TopicId { raw, hash }
    }

    /// The 32-byte hash of the topic: a function of its name alone, so
    /// topics with the same name have the same hash.
    pub fn hash(&self) -> (hash: [u8; 32])
        ensures
            hash@ == topic_hash(self@),
    {
        proof {
            use_type_invariant(self);
        }
        self.hash
    }

    /// The name the topic was made from.
    pub fn raw(&self) -> (raw: &str)
        ensures
            raw@ == self@,
    {
        self.raw.as_str()
    }
}

/// The hash bytes of the topic named `raw`, as an array.
pub open spec fn topic_hash_array(raw: Seq<char>) -> [u8; 32] {
    choose|hash: [u8; 32]| hash@ == topic_hash(raw)
}

/// A topic from its name: `TopicId::new(raw)`.
impl From<String> for TopicId {
    fn from(raw: String) -> (topic: TopicId)
        ensures
            topic@ == raw@,
    {
        let hash = sha512_32(raw.as_str().as_bytes());
        proof {
            broadcast use vstd::array::group_array_axioms;
            let chosen = topic_hash_array(raw@);
            assert(hash@ == topic_hash(raw@));
            assert(chosen@ == topic_hash(raw@));
            assert(chosen@ =~= hash@);
            assert(hash == chosen);
        }
        TopicId { raw, hash }
    }
}

impl FromSpecImpl<String> for TopicId {
    open spec fn obeys_from_spec() -> bool {
        true
    }

    closed spec fn from_spec(raw: String) -> TopicId {
        TopicId { raw, hash: topic_hash_array(raw@) }
    }
}

/// A topic from its name: `TopicId::new(raw.to_owned())`. Its contract is
/// its own `ensures`; no `from_spec` is claimed, as two strings with the
/// same text cannot be shown to be the same value.
impl<'a> From<&'a str> for TopicId {
    fn from(raw: &'a str) -> (topic: TopicId)
        ensures
            topic@ == raw@,
    {
        TopicId::new(raw.to_owned())
    }
}

impl<'a> FromSpecImpl<&'a str> for TopicId {
    open spec fn obeys_from_spec() -> bool {
        false
    }

    open spec fn from_spec(raw: &'a str) -> TopicId {
        arbitrary()
    }
}

/// A topic from its name, as `"name".parse()` gives it; it never fails.
impl core::str::FromStr for TopicId {
    type Err = core::convert::Infallible;

    fn from_str(raw: &str) -> (topic: Result<TopicId, core::convert::Infallible>)
        ensures
            topic matches Ok(t) && t@ == raw@,
    {
        Ok(TopicId::new(raw.to_owned()))
    }
}

impl Clone for TopicId {
    fn clone(&self) -> (copy: TopicId)
        ensures
            copy@ == self@,
    {
        proof {
            use_type_invariant(self);
        }
        TopicId { raw: self.raw.clone(), hash: self.hash }
    }
}

} // verus!
