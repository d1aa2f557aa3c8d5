//! Holochain hashes and timestamps, held as plain values.

use vstd::prelude::*;

verus! {

/// Length of a full Holochain hash: 3 prefix bytes, 32 core bytes, 4 location bytes.
pub const FULL_HASH_LEN: usize = 39;

/// Length of a hash without its 3-byte type prefix.
pub const UNTYPED_HASH_LEN: usize = 36;

/// Type prefix of an action hash (`uhCkk` in text form).
pub open spec fn action_prefix() -> Seq<u8> {
    seq![0x84u8, 0x29u8, 0x24u8]
}

/// Type prefix of an agent public key (`uhCAk` in text form).
pub open spec fn agent_prefix() -> Seq<u8> {
    seq![0x84u8, 0x20u8, 0x24u8]
}

/// `raw` is a full 39-byte hash whose type prefix is `prefix`.
pub open spec fn is_full_hash(raw: Seq<u8>, prefix: Seq<u8>) -> bool {
    raw.len() == FULL_HASH_LEN && raw.subrange(0, 3) == prefix
}

/// A character of the URL-safe base64 alphabet.
pub open spec fn is_base64url_char(c: char) -> bool {
    ('A' <= c && c <= 'Z') || ('a' <= c && c <= 'z') || ('0' <= c && c <= '9') || c == '-' || c == '_'
}

/// `t` is `u` followed by URL-safe base64 characters.
pub open spec fn is_hash_text(t: Seq<char>) -> bool {
    &&& t.len() > 0
    &&& t[0] == 'u'
    &&& forall|i: int| 1 <= i < t.len() ==> is_base64url_char(#[trigger] t[i])
}

/// The text form that `holo_hash` gives to the hash with these raw bytes.
pub uninterp spec fn holo_hash_text(raw: Seq<u8>) -> Seq<char>;

/// Calls `holo_hash::ActionHash::from_raw_36`, which puts the action prefix
/// in front of the 36 given bytes (it panics on any other length).
#[verifier::external_body]
fn action_hash_from_raw_36(untyped: Vec<u8>) -> (res: Vec<u8>)
    requires
        untyped@.len() == UNTYPED_HASH_LEN,
    ensures
        res@ == action_prefix() + untyped@,
{
    holo_hash::ActionHash::from_raw_36(untyped).into_inner()
}

/// Calls `holo_hash::AgentPubKey::from_raw_36`, which puts the agent prefix
/// in front of the 36 given bytes (it panics on any other length).
#[verifier::external_body]
fn agent_pub_key_from_raw_36(untyped: Vec<u8>) -> (res: Vec<u8>)
    requires
        untyped@.len() == UNTYPED_HASH_LEN,
    ensures
        res@ == agent_prefix() + untyped@,
{
    holo_hash::AgentPubKey::from_raw_36(untyped).into_inner()
}

/// Calls `holo_hash::ActionHash::try_from_raw_39`: it accepts exactly the
/// 39-byte strings that start with the action prefix, and keeps their bytes.
#[verifier::external_body]
fn action_hash_try_from_raw_39(raw: Vec<u8>) -> (res: Option<Vec<u8>>)
    ensures
        res is Some <==> is_full_hash(raw@, action_prefix()),
        res matches Some(bytes) ==> bytes@ == raw@,
{
    match holo_hash::ActionHash::try_from_raw_39(raw) {
        Ok(hash) => Some(hash.into_inner()),
        Err(_) => None,
    }
}

/// Calls `holo_hash::AgentPubKey::try_from_raw_39`: it accepts exactly the
/// 39-byte strings that start with the agent prefix, and keeps their bytes.
#[verifier::external_body]
fn agent_pub_key_try_from_raw_39(raw: Vec<u8>) -> (res: Option<Vec<u8>>)
    ensures
        res is Some <==> is_full_hash(raw@, agent_prefix()),
        res matches Some(bytes) ==> bytes@ == raw@,
{
    match holo_hash::AgentPubKey::try_from_raw_39(raw) {
        Ok(hash) => Some(hash.into_inner()),
        Err(_) => None,
    }
}

/// Rebuilds a `holo_hash::AnyLinkableHash` from its bytes and converts it with
/// `ActionHash::try_from`: the conversion succeeds exactly for the 39-byte
/// hashes with the action prefix, and keeps their bytes.
#[verifier::external_body]
fn linkable_into_action_hash(raw: Vec<u8>) -> (res: Option<Vec<u8>>)
    ensures
        res is Some <==> is_full_hash(raw@, action_prefix()),
        res matches Some(bytes) ==> bytes@ == raw@,
{
    match holo_hash::AnyLinkableHash::try_from_raw_39(raw) {
        Ok(linkable) => match holo_hash::ActionHash::try_from(linkable) {
            Ok(hash) => Some(hash.into_inner()),
            Err(_) => None,
        },
        Err(_) => None,
    }
}

/// Calls `holo_hash::holo_hash_encode`, the text form used by the `Display`
/// of every hash: the letter `u` followed by the URL-safe base64 (without
/// padding) of the bytes. Which base64 characters come is left to the name
/// `holo_hash_text`; that they come from the URL-safe alphabet is stated.
#[verifier::external_body]
fn holo_hash_encode(raw: &[u8]) -> (res: String)
    ensures
        res@ == holo_hash_text(raw@),
        is_hash_text(res@),
{
    holo_hash::holo_hash_encode(raw)
}

/// The hash of an action on a source chain.
#[derive(Debug, PartialEq, Eq)]
pub struct ActionHash {
    raw: Vec<u8>,
}

impl View for ActionHash {
    type V = Seq<u8>;

    closed spec fn view(&self) -> Seq<u8> {
        self.raw@
    }
}

impl Clone for ActionHash {
    fn clone(&self) -> (res: Self)
        ensures
            res@ == self@,
    {
        self.copy()
    }
}

impl ActionHash {
    #[verifier::type_invariant]
    closed spec fn full(self) -> bool {
        is_full_hash(self.raw@, action_prefix())
    }

    /// Builds the action hash whose 36 bytes after the prefix are `untyped`.
    pub fn from_raw_36(untyped: Vec<u8>) -> (res: ActionHash)
        requires
            untyped@.len() == UNTYPED_HASH_LEN,
        ensures
            res@ == action_prefix() + untyped@,
    {
        let raw = action_hash_from_raw_36(untyped);
        assert(raw@.subrange(0, 3) =~= action_prefix());
        ActionHash { raw }
    }

    /// Reads an action hash from its 39 bytes; `None` when they are not one.
    pub fn try_from_raw_39(raw: Vec<u8>) -> (res: Option<ActionHash>)
        ensures
            res is Some <==> is_full_hash(raw@, action_prefix()),
            res matches Some(hash) ==> hash@ == raw@,
    {
        match action_hash_try_from_raw_39(raw) {
            Some(bytes) => Some(ActionHash { raw: bytes }),
            None => None,
        }
    }

    /// The 39 bytes of this hash.
    pub fn get_raw_39(&self) -> (res: &[u8])
        ensures
            res@ == self@,
            is_full_hash(res@, action_prefix()),
    {
        proof {
            use_type_invariant(self);
        }
        self.raw.as_slice()
    }

    /// Whether two action hashes are the same hash.
    pub fn same_as(&self, other: &ActionHash) -> (res: bool)
        ensures
            res == (self@ == other@),
    {
        bytes_equal(&self.raw, &other.raw)
    }

    /// A copy of this hash.
    pub fn copy(&self) -> (res: ActionHash)
        ensures
            res@ == self@,
    {
        proof {
            use_type_invariant(self);
        }
        ActionHash { raw: self.raw.clone() }
    }

    /// The text form of this hash, as its `Display` writes it.
    pub fn to_text(&self) -> (res: String)
        ensures
            res@ == holo_hash_text(self@),
            is_hash_text(res@),
    {
        holo_hash_encode(self.raw.as_slice())
    }
}

/// The public key of an agent.
#[derive(Debug, PartialEq, Eq)]
pub struct AgentPubKey {
    raw: Vec<u8>,
}

impl View for AgentPubKey {
    type V = Seq<u8>;

    closed spec fn view(&self) -> Seq<u8> {
        self.raw@
    }
}

impl Clone for AgentPubKey {
    fn clone(&self) -> (res: Self)
        ensures
            res@ == self@,
    {
        self.copy()
    }
}

impl AgentPubKey {
    #[verifier::type_invariant]
    closed spec fn full(self) -> bool {
        is_full_hash(self.raw@, agent_prefix())
    }

    /// Builds the agent key whose 36 bytes after the prefix are `untyped`.
    pub fn from_raw_36(untyped: Vec<u8>) -> (res: AgentPubKey)
        requires
            untyped@.len() == UNTYPED_HASH_LEN,
        ensures
            res@ == agent_prefix() + untyped@,
    {
        let raw = agent_pub_key_from_raw_36(untyped);
        assert(raw@.subrange(0, 3) =~= agent_prefix());
        AgentPubKey { raw }
    }

    /// Reads an agent key from its 39 bytes; `None` when they are not one.
    pub fn try_from_raw_39(raw: Vec<u8>) -> (res: Option<AgentPubKey>)
        ensures
            res is Some <==> is_full_hash(raw@, agent_prefix()),
            res matches Some(key) ==> key@ == raw@,
    {
        match agent_pub_key_try_from_raw_39(raw) {
            Some(bytes) => Some(AgentPubKey { raw: bytes }),
            None => None,
        }
    }

    /// The 39 bytes of this key.
    pub fn get_raw_39(&self) -> (res: &[u8])
        ensures
            res@ == self@,
            is_full_hash(res@, agent_prefix()),
    {
        proof {
            use_type_invariant(self);
        }
        self.raw.as_slice()
    }

    /// Whether two keys are the same key.
    pub fn same_as(&self, other: &AgentPubKey) -> (res: bool)
        ensures
            res == (self@ == other@),
    {
        bytes_equal(&self.raw, &other.raw)
    }

    /// A copy of this key.
    pub fn copy(&self) -> (res: AgentPubKey)
        ensures
            res@ == self@,
    {
        proof {
            use_type_invariant(self);
        }
        AgentPubKey { raw: self.raw.clone() }
    }

    /// The text form of this key, as its `Display` writes it.
    pub fn to_text(&self) -> (res: String)
        ensures
            res@ == holo_hash_text(self@),
            is_hash_text(res@),
    {
        holo_hash_encode(self.raw.as_slice())
    }
}

/// The target of a link: an action, entry or external hash, as raw bytes.
#[derive(Clone, Debug, PartialEq, Eq)]
pub struct LinkTarget {
    raw: Vec<u8>,
}

impl View for LinkTarget {
    type V = Seq<u8>;

    closed spec fn view(&self) -> Seq<u8> {
        self.raw@
    }
}

impl LinkTarget {
    /// A link target with the given raw bytes.
    pub fn from_raw_39(raw: Vec<u8>) -> (res: LinkTarget)
        ensures
            res@ == raw@,
    {
        LinkTarget { raw }
    }

    /// The target read as an action hash, as `ActionHash::try_from` reads it:
    /// `None` when the target is not an action hash.
    pub fn to_action_hash(&self) -> (res: Option<ActionHash>)
        ensures
            res is Some <==> is_full_hash(self@, action_prefix()),
            res matches Some(hash) ==> hash@ == self@,
    {
        match linkable_into_action_hash(self.raw.clone()) {
            Some(bytes) => Some(ActionHash { raw: bytes }),
            None => None,
        }
    }
}

/// A point in time, in microseconds since the UNIX epoch.
#[derive(Clone, Debug, PartialEq, Eq)]
pub struct Timestamp {
    micros: i64,
}

impl Timestamp {
    /// The timestamp `micros` microseconds after the epoch.
    pub fn from_micros(micros: i64) -> (res: Timestamp)
        ensures
            res.micros() == micros,
    {
        Timestamp { micros }
    }

    /// Microseconds since the epoch.
    pub closed spec fn micros(self) -> i64 {
        self.micros
    }

    /// Microseconds since the epoch.
    pub fn as_micros(&self) -> (res: i64)
        ensures
            res == self.micros(),
    {
        self.micros
    }

    /// A copy of this timestamp.
    pub fn copy(&self) -> (res: Timestamp)
        ensures
            res.micros() == self.micros(),
    {
        Timestamp { micros: self.micros }
    }
}

/// Whether two byte strings are equal.
pub fn bytes_equal(a: &Vec<u8>, b: &Vec<u8>) -> (res: bool)
    ensures
        res == (a@ == b@),
{
    if a.len() != b.len() {
        return false;
    }
    let mut i: usize = 0;
    while i < a.len()
        invariant
            a@.len() == b@.len(),
            i <= a@.len(),
            forall|j: int| 0 <= j < i ==> a@[j] == b@[j],
        decreases a@.len() - i,
    {
        if a[i] != b[i] {
            return false;
        }
        i = i + 1;
    }
    assert(a@ =~= b@);
    true
}

} // verus!
