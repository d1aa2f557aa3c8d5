//! What the coordinator zome reads from and writes to the DHT, as plain
//! values: the outcome of reading a record or a link target, the plans of
//! writes that the host carries out, and the zome's errors.

use vstd::prelude::*;
use crate::anchors::{path_components, AnchorPath};
use crate::entries::{entry_kind_name, link_type_name, EntryKind, EntryTypes, LinkTypes};
use crate::hashes::{action_prefix, is_full_hash, ActionHash, AgentPubKey, LinkTarget};
use crate::text::join2;

verus! {

/// The errors with which the coordinator zome refuses a call.
#[derive(Clone, Debug, PartialEq, Eq)]
pub enum ZomeError {
    /// A second instance configuration was offered.
    InstanceConfigAlreadySet,
    /// A link of this type points at something other than an action.
    TargetNotActionHash(LinkTypes),
    /// A record did not decode as an entry of this kind.
    Deserialize(EntryKind),
    /// As `Deserialize`, with the decoder's own message.
    DeserializeWithReason(EntryKind, String),
    /// A record of this kind holds no app entry.
    EntryMissing(EntryKind),
    /// No record of this kind exists at the address asked for.
    RecordNotFound(EntryKind),
    /// A mew has no federation state.
    NoFederationState,
    /// No interaction on the mew has the activity URI asked for.
    InteractionNotFound,
    /// An anchor text has a shard part whose sizes overflow, so its path
    /// cannot be built.
    UnbuildableAnchor,
}

/// The text of an error, as the zome reports it.
pub open spec fn zome_error_text(e: ZomeError) -> Seq<char> {
    match e {
        ZomeError::InstanceConfigAlreadySet => "InstanceConfig already set for this network"@,
        ZomeError::TargetNotActionHash(t) => link_type_name(t) + " target is not an ActionHash"@,
        ZomeError::Deserialize(k) => "Deserialize "@ + entry_kind_name(k),
        ZomeError::DeserializeWithReason(k, reason) => "Deserialize "@ + entry_kind_name(k)
            + ": "@ + reason@,
        ZomeError::EntryMissing(k) => entry_kind_name(k) + " entry missing"@,
        ZomeError::RecordNotFound(k) => entry_kind_name(k) + " record not found"@,
        ZomeError::NoFederationState => "No MewFederationState found for this mew"@,
        ZomeError::InteractionNotFound => "RemoteInteraction with activity_uri not found"@,
        ZomeError::UnbuildableAnchor => "Anchor path has a shard whose size overflows"@,
    }
}

impl ZomeError {
    /// The text of this error.
    pub fn message(&self) -> (res: String)
        ensures
            res@ == zome_error_text(*self),
    {
        match self {
            ZomeError::InstanceConfigAlreadySet => String::from_str(
                "InstanceConfig already set for this network",
            ),
            ZomeError::TargetNotActionHash(t) => t.name().concat(" target is not an ActionHash"),
            ZomeError::Deserialize(k) => join2("Deserialize ", k.name().as_str()),
            ZomeError::DeserializeWithReason(k, reason) => join2(
                "Deserialize ",
                k.name().as_str(),
            ).concat(": ").concat(reason.as_str()),
            ZomeError::EntryMissing(k) => k.name().concat(" entry missing"),
            ZomeError::RecordNotFound(k) => k.name().concat(" record not found"),
            ZomeError::NoFederationState => String::from_str(
                "No MewFederationState found for this mew",
            ),
            ZomeError::InteractionNotFound => String::from_str(
                "RemoteInteraction with activity_uri not found",
            ),
            ZomeError::UnbuildableAnchor => String::from_str(
                "Anchor path has a shard whose size overflows",
            ),
        }
    }
}

/// What fetching a record gave.
#[derive(Clone, Debug, PartialEq, Eq)]
pub enum RecordRead<T> {
    /// No record exists at the address.
    Absent,
    /// The record's entry did not decode; the decoder's message.
    Undecodable(String),
    /// The record holds no app entry.
    NoEntry,
    /// The record was found at `address` and holds `entry`.
    Present { address: ActionHash, entry: T },
}

/// What following one link gave.
#[derive(Clone, Debug, PartialEq, Eq)]
pub enum TargetRead<T> {
    /// The link's target is not an action hash, so nothing was fetched.
    NotAction,
    /// The record at the link's target, read as an action hash.
    Fetched(RecordRead<T>),
}

/// The first of a list of link targets, as a lookup sees it.
#[derive(Debug, PartialEq, Eq)]
pub enum FirstTarget {
    /// There is no link.
    NoLink,
    /// The first link's target is not an action hash.
    NotAction,
    /// The first link points at this action.
    Action(ActionHash),
}

/// The first link target, read as an action hash.
pub fn first_action_target(targets: &Vec<LinkTarget>) -> (res: FirstTarget)
    ensures
        targets@.len() == 0 <==> res is NoLink,
        targets@.len() > 0 ==> (res is NotAction <==> !is_full_hash(targets@[0]@, action_prefix())),
        res matches FirstTarget::Action(h) ==> h@ == targets@[0]@,
{
    if targets.len() == 0 {
        return FirstTarget::NoLink;
    }
    match targets[0].to_action_hash() {
        Some(h) => FirstTarget::Action(h),
        None => FirstTarget::NotAction,
    }
}

/// A link seen from its base: where it points and the action that created it.
#[derive(Clone, Debug, PartialEq, Eq)]
pub struct LinkRecord {
    pub target: LinkTarget,
    pub create_link_hash: ActionHash,
}

/// The bytes of the creating actions of the links, among `links`, whose
/// target is the action `target`, in order.
pub open spec fn links_to(links: Seq<LinkRecord>, target: Seq<u8>) -> Seq<Seq<u8>>
    decreases links.len(),
{
    if links.len() == 0 {
        seq![]
    } else {
        let rest = links_to(links.drop_last(), target);
        if links.last().target@ == target {
            rest.push(links.last().create_link_hash@)
        } else {
            rest
        }
    }
}

/// The creating actions of the links that point at `target`: the links that
/// a deletion of `target` removes.
pub fn links_targeting(links: &Vec<LinkRecord>, target: &ActionHash) -> (res: Vec<ActionHash>)
    ensures
        res@.map_values(|h: ActionHash| h@) == links_to(links@, target@),
{
    let ghost t = target@;
    let _ = target.get_raw_39();
    let mut res: Vec<ActionHash> = Vec::new();
    let mut i: usize = 0;
    while i < links.len()
        invariant
            i <= links@.len(),
            t == target@,
            is_full_hash(t, action_prefix()),
            res@.map_values(|h: ActionHash| h@) == links_to(links@.subrange(0, i as int), t),
        decreases links@.len() - i,
    {
        let link = &links[i];
        proof {
            assert(links@.subrange(0, i + 1).drop_last() =~= links@.subrange(0, i as int));
        }
        match link.target.to_action_hash() {
            Some(h) => {
                if h.same_as(target) {
                    res.push(link.create_link_hash.copy());
                    assert(res@.map_values(|h: ActionHash| h@) =~= links_to(
                        links@.subrange(0, i as int),
                        t,
                    ).push(link.create_link_hash@));
                }
            },
            None => {},
        }
        i = i + 1;
    }
    assert(links@.subrange(0, links@.len() as int) =~= links@);
    res
}

/// Where a planned link starts.
#[derive(Clone, Debug, PartialEq, Eq)]
pub enum LinkBase {
    Anchor(AnchorPath),
    Action(ActionHash),
    Agent(AgentPubKey),
}

/// A link to be created from `base`, of type `link_type`.
#[derive(Clone, Debug, PartialEq, Eq)]
pub struct LinkPlan {
    pub base: LinkBase,
    pub link_type: LinkTypes,
}

/// `l` starts at the anchor written `text` (with the path components of
/// that text) and has type `t`.
pub open spec fn from_anchor(l: LinkPlan, text: Seq<char>, t: LinkTypes) -> bool {
    &&& l.base matches LinkBase::Anchor(a)
    &&& a.text@ == text
    &&& a.components.deep_view() == path_components(text)
    &&& l.link_type == t
}

/// `l` starts at the action `hash` and has type `t`.
pub open spec fn from_action(l: LinkPlan, hash: Seq<u8>, t: LinkTypes) -> bool {
    &&& l.base matches LinkBase::Action(h)
    &&& h@ == hash
    &&& l.link_type == t
}

/// `l` starts at the agent `agent` and has type `t`.
pub open spec fn from_agent(l: LinkPlan, agent: Seq<u8>, t: LinkTypes) -> bool {
    &&& l.base matches LinkBase::Agent(a)
    &&& a@ == agent
    &&& l.link_type == t
}

/// Create `entry`, then each link of `links` from its base to the new action.
#[derive(Clone, Debug, PartialEq, Eq)]
pub struct CreatePlan {
    pub entry: EntryTypes,
    pub links: Vec<LinkPlan>,
}

/// Replace the entry of action `original` by `entry`; delete, for each of
/// `unlinks`, the links of that type from that base that point at
/// `original`; then create each link of `links` from its base to the
/// updating action. The index links thus move to the latest version.
#[derive(Clone, Debug, PartialEq, Eq)]
pub struct UpdatePlan {
    pub original: ActionHash,
    pub entry: EntryTypes,
    pub unlinks: Vec<LinkPlan>,
    pub links: Vec<LinkPlan>,
}

/// The outcome of a creation that is keyed by a dedup anchor.
#[derive(Clone, Debug, PartialEq, Eq)]
pub enum DedupPlan {
    /// The entry exists already, at this action: nothing is written.
    Existing(ActionHash),
    /// Nothing exists yet: carry out this creation.
    Create(CreatePlan),
}

/// Delete, for each of `link_sets`, the links of that type from that base
/// that point at `entry`, then delete the entry of `entry`.
#[derive(Clone, Debug, PartialEq, Eq)]
pub struct DeletePlan {
    pub link_sets: Vec<LinkPlan>,
    pub entry: ActionHash,
}

} // verus!
