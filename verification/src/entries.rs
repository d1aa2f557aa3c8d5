//! The entries the federation zomes keep on the DHT, and the link types
//! that index them.

use vstd::prelude::*;
use crate::hashes::{ActionHash, AgentPubKey, Timestamp};

verus! {

/// Configuration for the collective fediverse instance, derived from an
/// invite URL during hApp installation. One exists per network.
#[derive(Clone, Debug, PartialEq, Eq)]
pub struct InstanceConfig {
    /// The subdomain for this instance, e.g. "cats".
    pub subdomain: String,
    /// The gateway WebSocket URL, e.g. "wss://gateway.mewsfeed.example".
    pub gateway_url: String,
    /// The full instance URI, e.g. "https://cats.mewsfeed.example".
    pub instance_uri: String,
    /// Key id for HTTP signatures, e.g. "https://cats.mewsfeed.example/actor#main-key".
    pub public_key_id: String,
}

/// Parsed components of an invite URL
/// (`mewsfeed://join?gateway=...&subdomain=...&key=...`).
#[derive(Clone, Debug, PartialEq, Eq)]
pub struct InviteUrlParams {
    /// The gateway WebSocket URL.
    pub gateway: String,
    /// The subdomain for the instance.
    pub subdomain: String,
    /// Encrypted keypair or derivation seed material.
    pub key_material: String,
}

/// Lightweight reference to a remote fediverse actor.
#[derive(Clone, Debug, PartialEq, Eq)]
pub struct RemoteActorRef {
    /// The actor's canonical URI, e.g. "https://mastodon.social/users/alice".
    pub actor_uri: String,
    /// The actor's handle, e.g. "@alice@mastodon.social".
    pub handle: String,
    /// Display name, if known.
    pub display_name: Option<String>,
}

/// Status of an outbound follow request.
#[derive(Clone, Copy, Debug, PartialEq, Eq, Structural)]
pub enum RemoteFollowStatus {
    /// Follow activity sent, awaiting Accept from the remote actor.
    Pending,
    /// The remote actor accepted the follow.
    Accepted,
    /// The remote actor rejected the follow.
    Rejected,
}

/// A local agent following a remote fediverse actor.
#[derive(Clone, Debug, PartialEq, Eq)]
pub struct RemoteFollow {
    pub local_agent: AgentPubKey,
    /// The remote actor's canonical URI.
    pub remote_actor_uri: String,
    pub status: RemoteFollowStatus,
    pub created_at: Timestamp,
}

/// A remote fediverse actor following a local agent.
#[derive(Clone, Debug, PartialEq, Eq)]
pub struct RemoteFollower {
    pub local_agent: AgentPubKey,
    /// The remote actor's canonical URI.
    pub remote_actor_uri: String,
    pub followed_at: Timestamp,
}

/// The type of a remote interaction from the fediverse.
#[derive(Clone, Debug, PartialEq, Eq)]
pub enum RemoteInteractionType {
    Like,
    /// Boost/reblog (ActivityPub Announce activity).
    Announce,
    Reply {
        /// The ActivityPub Note URI of the reply.
        note_uri: String,
    },
}

/// A remote interaction (like, boost, reply) on a local mew.
#[derive(Clone, Debug, PartialEq, Eq)]
pub struct RemoteInteraction {
    pub mew_hash: ActionHash,
    /// The remote actor's canonical URI.
    pub actor_uri: String,
    pub interaction_type: RemoteInteractionType,
    /// The ActivityPub activity URI, needed for Undo.
    pub activity_uri: String,
    pub timestamp: Timestamp,
}

/// How a mew is federated to the ActivityPub network.
#[derive(Clone, Debug, PartialEq, Eq)]
pub enum FederationVisibility {
    /// Sent to as:Public.
    Public,
    /// CC as:Public.
    Unlisted,
    /// Sent only to the followers collection.
    FollowersOnly,
    /// Sent to the given actor URIs only.
    Direct(Vec<String>),
    /// Not federated at all.
    HolochainOnly,
}

impl FederationVisibility {
    /// Whether this is `HolochainOnly`, the one visibility that is never federated.
    pub fn is_holochain_only(&self) -> (res: bool)
        ensures
            res == (*self is HolochainOnly),
    {
        match self {
            FederationVisibility::HolochainOnly => true,
            _ => false,
        }
    }
}

/// Per-mew federation state.
#[derive(Clone, Debug, PartialEq, Eq)]
pub struct MewFederationState {
    pub mew_hash: ActionHash,
    /// The ActivityPub URI of this mew, once assigned.
    pub ap_uri: Option<String>,
    /// Federation intent and audience.
    pub visibility: FederationVisibility,
}

/// The entry types of the integrity zome.
#[derive(Clone, Debug, PartialEq, Eq)]
pub enum EntryTypes {
    InstanceConfig(InstanceConfig),
    MewFederationState(MewFederationState),
    RemoteActorRef(RemoteActorRef),
    RemoteFollow(RemoteFollow),
    RemoteFollower(RemoteFollower),
    RemoteInteraction(RemoteInteraction),
}

/// The link types of the integrity zome.
#[derive(Clone, Copy, Debug, PartialEq, Eq, Structural)]
pub enum LinkTypes {
    MewToFederationState,
    AgentToRemoteFollows,
    AgentToRemoteFollowers,
    MewToRemoteInteractions,
    AnchorToInstanceConfig,
    ApUriToFederationState,
    ActorUriToRemoteActorRef,
    FollowDedupToRemoteFollow,
    FollowerDedupToRemoteFollower,
    InteractionDedupToRemoteInteraction,
}

/// The name of a link type, as it is written in source and in messages.
pub open spec fn link_type_name(t: LinkTypes) -> Seq<char> {
    match t {
        LinkTypes::MewToFederationState => "MewToFederationState"@,
        LinkTypes::AgentToRemoteFollows => "AgentToRemoteFollows"@,
        LinkTypes::AgentToRemoteFollowers => "AgentToRemoteFollowers"@,
        LinkTypes::MewToRemoteInteractions => "MewToRemoteInteractions"@,
        LinkTypes::AnchorToInstanceConfig => "AnchorToInstanceConfig"@,
        LinkTypes::ApUriToFederationState => "ApUriToFederationState"@,
        LinkTypes::ActorUriToRemoteActorRef => "ActorUriToRemoteActorRef"@,
        LinkTypes::FollowDedupToRemoteFollow => "FollowDedupToRemoteFollow"@,
        LinkTypes::FollowerDedupToRemoteFollower => "FollowerDedupToRemoteFollower"@,
        LinkTypes::InteractionDedupToRemoteInteraction => "InteractionDedupToRemoteInteraction"@,
    }
}

impl LinkTypes {
    /// The name of this link type.
    pub fn name(&self) -> (res: String)
        ensures
            res@ == link_type_name(*self),
    {
        match self {
            LinkTypes::MewToFederationState => String::from_str("MewToFederationState"),
            LinkTypes::AgentToRemoteFollows => String::from_str("AgentToRemoteFollows"),
            LinkTypes::AgentToRemoteFollowers => String::from_str("AgentToRemoteFollowers"),
            LinkTypes::MewToRemoteInteractions => String::from_str("MewToRemoteInteractions"),
            LinkTypes::AnchorToInstanceConfig => String::from_str("AnchorToInstanceConfig"),
            LinkTypes::ApUriToFederationState => String::from_str("ApUriToFederationState"),
            LinkTypes::ActorUriToRemoteActorRef => String::from_str("ActorUriToRemoteActorRef"),
            LinkTypes::FollowDedupToRemoteFollow => String::from_str("FollowDedupToRemoteFollow"),
            LinkTypes::FollowerDedupToRemoteFollower => String::from_str("FollowerDedupToRemoteFollower"),
            LinkTypes::InteractionDedupToRemoteInteraction => String::from_str("InteractionDedupToRemoteInteraction"),
        }
    }
}

/// The kinds of entry, used to name them in errors.
#[derive(Clone, Copy, Debug, PartialEq, Eq, Structural)]
pub enum EntryKind {
    InstanceConfig,
    MewFederationState,
    RemoteActorRef,
    RemoteFollow,
    RemoteFollower,
    RemoteInteraction,
}

/// The name of an entry kind.
pub open spec fn entry_kind_name(k: EntryKind) -> Seq<char> {
    match k {
        EntryKind::InstanceConfig => "InstanceConfig"@,
        EntryKind::MewFederationState => "MewFederationState"@,
        EntryKind::RemoteActorRef => "RemoteActorRef"@,
        EntryKind::RemoteFollow => "RemoteFollow"@,
        EntryKind::RemoteFollower => "RemoteFollower"@,
        EntryKind::RemoteInteraction => "RemoteInteraction"@,
    }
}

impl EntryKind {
    /// The name of this entry kind.
    pub fn name(&self) -> (res: String)
        ensures
            res@ == entry_kind_name(*self),
    {
        match self {
            EntryKind::InstanceConfig => String::from_str("InstanceConfig"),
            EntryKind::MewFederationState => String::from_str("MewFederationState"),
            EntryKind::RemoteActorRef => String::from_str("RemoteActorRef"),
            EntryKind::RemoteFollow => String::from_str("RemoteFollow"),
            EntryKind::RemoteFollower => String::from_str("RemoteFollower"),
            EntryKind::RemoteInteraction => String::from_str("RemoteInteraction"),
        }
    }
}

} // verus!
