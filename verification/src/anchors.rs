//! The anchor paths under which the zomes index their entries: the
//! singleton instance-config anchor, the URI lookups, and the dedup keys that
//! make creation idempotent.

use vstd::prelude::*;
use crate::hashes::{holo_hash_text, is_hash_text, AgentPubKey};
use crate::shard::{head_keeps_fit, is_digit, is_part, path_fits, path_text_fits, shard_overflows};
use crate::text::{copy_string, join2, join4};

verus! {

/// The components that `hdi` gives to the path written as `text`
/// (`Path::from`, which splits at dots and encodes each part).
pub uninterp spec fn path_components(text: Seq<char>) -> Seq<Seq<u8>>;

/// Calls `Path::from(&str)` of `hdi` and hands out the path's components as
/// bytes. What the components are is left to the name `path_components`.
/// The texts with a shard part whose sizes overflow `u32` are left out:
/// building their path overflows.
#[verifier::external_body]
fn hdi_path_from(text: &str) -> (res: Vec<Vec<u8>>)
    requires
        path_fits(text@),
    ensures
        res.deep_view() == path_components(text@),
{
    let components: Vec<hdk::prelude::Component> = hdk::prelude::Path::from(text).into();
    components.into_iter().map(Vec::<u8>::from).collect()
}

/// A path anchor: its text and the components it is hashed from.
#[derive(Clone, Debug, PartialEq, Eq)]
pub struct AnchorPath {
    pub text: String,
    pub components: Vec<Vec<u8>>,
}

impl AnchorPath {
    /// The anchor written as `text`; `None` when `Path::from` cannot build
    /// it because a shard part overflows.
    pub fn from_text(text: String) -> (res: Option<AnchorPath>)
        ensures
            res is Some <==> path_fits(text@),
            res matches Some(a) ==> a.text@ == text@ && a.components.deep_view() == path_components(
                text@,
            ),
    {
        if !path_text_fits(text.as_str()) {
            return None;
        }
        let components = hdi_path_from(text.as_str());
        Some(AnchorPath { text, components })
    }
}

/// A copy of a byte string.
fn copy_bytes(v: &Vec<u8>) -> (res: Vec<u8>)
    ensures
        res@ == v@,
{
    let mut res: Vec<u8> = Vec::new();
    let mut i: usize = 0;
    while i < v.len()
        invariant
            i <= v@.len(),
            res@ == v@.subrange(0, i as int),
        decreases v@.len() - i,
    {
        res.push(v[i]);
        i = i + 1;
        assert(res@ =~= v@.subrange(0, i as int));
    }
    assert(v@.subrange(0, v@.len() as int) =~= v@);
    res
}

impl AnchorPath {
    /// A copy of this anchor.
    pub fn copy(&self) -> (res: AnchorPath)
        ensures
            res.text@ == self.text@,
            res.components.deep_view() == self.components.deep_view(),
    {
        let mut components: Vec<Vec<u8>> = Vec::new();
        let mut i: usize = 0;
        while i < self.components.len()
            invariant
                i <= self.components@.len(),
                components.deep_view() == self.components.deep_view().subrange(0, i as int),
            decreases self.components@.len() - i,
        {
            let bytes = copy_bytes(&self.components[i]);
            let ghost before = components.deep_view();
            let ghost before_v = components@;
            assert(before.len() == before_v.len());
            assert(before.len() == i);
            assert(bytes.deep_view() =~= self.components@[i as int].deep_view());
            components.push(bytes);
            assert(components@ == before_v.push(bytes));
            assert(components@.len() == i + 1);
            assert forall|k: int| 0 <= k <= i implies components.deep_view()[k]
                == self.components.deep_view()[k] by {
                if k < i {
                    assert(components@[k] == before_v[k]);
                    assert(before[k] == before_v[k].deep_view());
                }
            }
            i = i + 1;
            assert(components.deep_view() =~= self.components.deep_view().subrange(0, i as int));
        }
        assert(self.components.deep_view().subrange(0, i as int) =~= self.components.deep_view());
        AnchorPath { text: copy_string(&self.text), components }
    }
}

/// A text without dots that does not start with a digit has no shard part.
proof fn lemma_plain_text_fits(t: Seq<char>)
    requires
        forall|k: int| 0 <= k < t.len() ==> t[k] != '.',
        t.len() > 0 ==> !is_digit(t[0]),
    ensures
        path_fits(t),
{
    assert forall|i: int, j: int| is_part(t, i, j) implies !shard_overflows(
        #[trigger] t.subrange(i, j),
    ) by {
        if i > 0 {
            assert(t[i - 1] != '.');
        }
        assert(t.subrange(i, j)[0] == t[0]);
    }
}

/// A head with no dot that does not start with a digit, in front of a URI
/// that `Path::from` builds, gives an anchor text that it builds.
proof fn lemma_head_fits(head: Seq<char>, uri: Seq<char>)
    requires
        head.len() > 0,
        head[0] != '.' && !is_digit(head[0]),
        forall|k: int| 0 <= k < head.len() ==> head[k] != '.',
        path_fits(uri),
    ensures
        path_fits(head + uri),
{
    head_keeps_fit(head, uri);
}

/// The anchors keyed by a URI alone (an ActivityPub URI, an actor URI, an
/// activity URI) can be built whenever the URI itself can.
pub proof fn uri_anchor_texts_fit(uri: Seq<char>)
    requires
        path_fits(uri),
    ensures
        path_fits(ap_uri_anchor_text(uri)),
        path_fits(actor_uri_anchor_text(uri)),
        path_fits(interaction_dedup_text(uri)),
{
    reveal_strlit("ap_uri:");
    reveal_strlit("actor_uri:");
    reveal_strlit("interaction_activity:");
    let a = "ap_uri:"@;
    let b = "actor_uri:"@;
    let c = "interaction_activity:"@;
    assert forall|k: int| 0 <= k < a.len() implies a[k] != '.' by {}
    assert forall|k: int| 0 <= k < b.len() implies b[k] != '.' by {}
    assert forall|k: int| 0 <= k < c.len() implies c[k] != '.' by {}
    lemma_head_fits(a, uri);
    lemma_head_fits(b, uri);
    lemma_head_fits(c, uri);
}

/// `prefix`, an agent's hash text and a colon form a head with no dot.
proof fn lemma_dedup_head(prefix: Seq<char>, agent_text: Seq<char>, uri: Seq<char>)
    requires
        prefix.len() > 0,
        !is_digit(prefix[0]),
        forall|k: int| 0 <= k < prefix.len() ==> prefix[k] != '.',
        is_hash_text(agent_text),
        path_fits(uri),
    ensures
        path_fits(prefix + agent_text + ":"@ + uri),
{
    reveal_strlit(":");
    let head = prefix + agent_text + ":"@;
    assert forall|k: int| 0 <= k < head.len() implies head[k] != '.' by {
        if k < prefix.len() {
        } else if k < prefix.len() + agent_text.len() {
            let i = k - prefix.len();
            if i > 0 {
                assert(is_hash_text(agent_text));
                assert(agent_text[i] == head[k]);
            }
        }
    }
    assert(head[0] == prefix[0]);
    head_keeps_fit(head, uri);
    assert(prefix + agent_text + ":"@ + uri =~= head + uri);
}

/// `anchor` is the anchor written `text`, when `Path::from` can build it.
pub open spec fn anchor_for(anchor: Option<AnchorPath>, text: Seq<char>) -> bool {
    &&& anchor is Some <==> path_fits(text)
    &&& anchor matches Some(a) ==> a.text@ == text && a.components.deep_view() == path_components(
        text,
    )
}

/// Text of the anchor of the singleton instance configuration.
pub open spec fn instance_config_anchor_text() -> Seq<char> {
    "federation_instance_config"@
}

/// Text of the anchor that finds a federation state by its ActivityPub URI.
pub open spec fn ap_uri_anchor_text(ap_uri: Seq<char>) -> Seq<char> {
    "ap_uri:"@ + ap_uri
}

/// Text of the anchor that finds a cached actor reference by its URI.
pub open spec fn actor_uri_anchor_text(actor_uri: Seq<char>) -> Seq<char> {
    "actor_uri:"@ + actor_uri
}

/// Text of the dedup anchor of an outbound follow.
pub open spec fn follow_dedup_text(agent: Seq<u8>, remote_actor_uri: Seq<char>) -> Seq<char> {
    "follow:"@ + holo_hash_text(agent) + ":"@ + remote_actor_uri
}

/// Text of the dedup anchor of an inbound follower.
pub open spec fn follower_dedup_text(agent: Seq<u8>, remote_actor_uri: Seq<char>) -> Seq<char> {
    "follower:"@ + holo_hash_text(agent) + ":"@ + remote_actor_uri
}

/// Text of the dedup anchor of a remote interaction.
pub open spec fn interaction_dedup_text(activity_uri: Seq<char>) -> Seq<char> {
    "interaction_activity:"@ + activity_uri
}

/// The anchor of the singleton instance configuration.
pub fn instance_config_anchor() -> (res: AnchorPath)
    ensures
        res.text@ == instance_config_anchor_text(),
        res.components.deep_view() == path_components(res.text@),
{
    let text = String::from_str("federation_instance_config");
    proof {
        reveal_strlit("federation_instance_config");
        lemma_plain_text_fits(text@);
    }
    let components = hdi_path_from(text.as_str());
    AnchorPath { text, components }
}

/// The anchor that finds a federation state by its ActivityPub URI.
pub fn ap_uri_anchor(ap_uri: &str) -> (res: Option<AnchorPath>)
    ensures
        anchor_for(res, ap_uri_anchor_text(ap_uri@)),
{
    AnchorPath::from_text(join2("ap_uri:", ap_uri))
}

/// The anchor that finds a cached actor reference by its URI.
pub fn actor_uri_anchor(actor_uri: &str) -> (res: Option<AnchorPath>)
    ensures
        anchor_for(res, actor_uri_anchor_text(actor_uri@)),
{
    AnchorPath::from_text(join2("actor_uri:", actor_uri))
}

/// The dedup anchor of the follow of `remote_actor_uri` by `agent`.
pub fn follow_dedup_anchor(agent: &AgentPubKey, remote_actor_uri: &str) -> (res: Option<AnchorPath>)
    ensures
        anchor_for(res, follow_dedup_text(agent@, remote_actor_uri@)),
        path_fits(remote_actor_uri@) ==> res is Some,
{
    let agent_text = agent.to_text();
    proof {
        reveal_strlit("follow:");
        let prefix = "follow:"@;
        assert forall|k: int| 0 <= k < prefix.len() implies prefix[k] != '.' by {}
        if path_fits(remote_actor_uri@) {
            lemma_dedup_head(prefix, agent_text@, remote_actor_uri@);
        }
    }
    AnchorPath::from_text(join4("follow:", agent_text.as_str(), ":", remote_actor_uri))
}

/// The dedup anchor of `remote_actor_uri` following `agent`.
pub fn follower_dedup_anchor(agent: &AgentPubKey, remote_actor_uri: &str) -> (res: Option<AnchorPath>)
    ensures
        anchor_for(res, follower_dedup_text(agent@, remote_actor_uri@)),
        path_fits(remote_actor_uri@) ==> res is Some,
{
    let agent_text = agent.to_text();
    proof {
        reveal_strlit("follower:");
        let prefix = "follower:"@;
        assert forall|k: int| 0 <= k < prefix.len() implies prefix[k] != '.' by {}
        if path_fits(remote_actor_uri@) {
            lemma_dedup_head(prefix, agent_text@, remote_actor_uri@);
        }
    }
    AnchorPath::from_text(join4("follower:", agent_text.as_str(), ":", remote_actor_uri))
}

/// The dedup anchor of the interaction with this activity URI.
pub fn interaction_dedup_anchor(activity_uri: &str) -> (res: Option<AnchorPath>)
    ensures
        anchor_for(res, interaction_dedup_text(activity_uri@)),
{
    AnchorPath::from_text(join2("interaction_activity:", activity_uri))
}

} // verus!
