//! The decisions of the coordinator zome. Each function takes what the zome
//! read from the DHT and says what it answers, or which writes it makes.

use vstd::prelude::*;
use crate::anchors::{
    actor_uri_anchor, actor_uri_anchor_text, ap_uri_anchor, AnchorPath, ap_uri_anchor_text,
    follow_dedup_anchor, follow_dedup_text, follower_dedup_anchor, follower_dedup_text,
    instance_config_anchor, instance_config_anchor_text, interaction_dedup_anchor,
    interaction_dedup_text, path_components,
};
use crate::entries::{
    EntryKind, EntryTypes, InstanceConfig, LinkTypes, MewFederationState, RemoteActorRef,
    RemoteFollow, RemoteFollowStatus, RemoteFollower, RemoteInteraction,
};
use crate::hashes::{action_prefix, is_full_hash, ActionHash, AgentPubKey, LinkTarget};
use crate::shard::path_fits;
use crate::text::{
    copy_string, lemma_str_less_irreflexive, lemma_str_less_transitive, opt_str_equal, str_before,
    str_equal, str_less,
};
use crate::zome_io::{
    first_action_target, from_action, from_agent, from_anchor, CreatePlan, DedupPlan, DeletePlan,
    FirstTarget, LinkBase, LinkPlan, RecordRead, TargetRead, UpdatePlan, ZomeError,
};

verus! {

/// What a lookup through the first link of a list answers: nothing when
/// there is no link or no record, the entry when there is one.
pub open spec fn lookup_result<T>(
    first: Option<TargetRead<T>>,
    link_type: LinkTypes,
    kind: EntryKind,
) -> Result<Option<T>, ZomeError> {
    match first {
        None => Ok(None),
        Some(TargetRead::NotAction) => Err(ZomeError::TargetNotActionHash(link_type)),
        Some(TargetRead::Fetched(RecordRead::Absent)) => Ok(None),
        Some(TargetRead::Fetched(RecordRead::Undecodable(_))) => Err(ZomeError::Deserialize(kind)),
        Some(TargetRead::Fetched(RecordRead::NoEntry)) => Err(ZomeError::EntryMissing(kind)),
        Some(TargetRead::Fetched(RecordRead::Present { entry, .. })) => Ok(Some(entry)),
    }
}

/// Answers a lookup through the first link of a list.
fn lookup_entry<T>(first: Option<TargetRead<T>>, link_type: LinkTypes, kind: EntryKind) -> (res:
    Result<Option<T>, ZomeError>)
    ensures
        res == lookup_result(first, link_type, kind),
{
    match first {
        None => Ok(None),
        Some(TargetRead::NotAction) => Err(ZomeError::TargetNotActionHash(link_type)),
        Some(TargetRead::Fetched(RecordRead::Absent)) => Ok(None),
        Some(TargetRead::Fetched(RecordRead::Undecodable(_))) => Err(ZomeError::Deserialize(kind)),
        Some(TargetRead::Fetched(RecordRead::NoEntry)) => Err(ZomeError::EntryMissing(kind)),
        Some(TargetRead::Fetched(RecordRead::Present { entry, .. })) => Ok(Some(entry)),
    }
}

/// What reading a required record gives: its address and entry, or the
/// error that names what was missing.
pub open spec fn required_record<T>(read: RecordRead<T>, kind: EntryKind) -> Result<
    (ActionHash, T),
    ZomeError,
> {
    match read {
        RecordRead::Absent => Err(ZomeError::RecordNotFound(kind)),
        RecordRead::Undecodable(_) => Err(ZomeError::Deserialize(kind)),
        RecordRead::NoEntry => Err(ZomeError::EntryMissing(kind)),
        RecordRead::Present { address, entry } => Ok((address, entry)),
    }
}

fn require_record<T>(read: RecordRead<T>, kind: EntryKind) -> (res: Result<(ActionHash, T), ZomeError>)
    ensures
        res == required_record(read, kind),
{
    match read {
        RecordRead::Absent => Err(ZomeError::RecordNotFound(kind)),
        RecordRead::Undecodable(_) => Err(ZomeError::Deserialize(kind)),
        RecordRead::NoEntry => Err(ZomeError::EntryMissing(kind)),
        RecordRead::Present { address, entry } => Ok((address, entry)),
    }
}

// ---------------------------------------------------------------------------
// Instance configuration
// ---------------------------------------------------------------------------

/// The singleton anchor of the instance configuration is taken: some link
/// leaves it already.
pub open spec fn instance_config_taken(existing: Seq<LinkTarget>) -> bool {
    existing.len() > 0
}

/// Stores the instance configuration: refused when the singleton anchor has
/// a link already; otherwise the entry is created and linked from the anchor.
pub fn set_instance_config(config: InstanceConfig, existing: &Vec<LinkTarget>) -> (res: Result<
    CreatePlan,
    ZomeError,
>)
    ensures
        res is Err <==> instance_config_taken(existing@),
        res matches Err(e) ==> e == ZomeError::InstanceConfigAlreadySet,
        res matches Ok(plan) ==> {
            &&& plan.entry == EntryTypes::InstanceConfig(config)
            &&& plan.links@.len() == 1
            &&& from_anchor(
                plan.links@[0],
                instance_config_anchor_text(),
                LinkTypes::AnchorToInstanceConfig,
            )
        },
{
    if existing.len() > 0 {
        return Err(ZomeError::InstanceConfigAlreadySet);
    }
    let mut links: Vec<LinkPlan> = Vec::new();
    links.push(
        LinkPlan {
            base: LinkBase::Anchor(instance_config_anchor()),
            link_type: LinkTypes::AnchorToInstanceConfig,
        },
    );
    Ok(CreatePlan { entry: EntryTypes::InstanceConfig(config), links })
}

/// Retrieves the singleton instance configuration through the first link of
/// its anchor.
pub fn get_instance_config(first: Option<TargetRead<InstanceConfig>>) -> (res: Result<
    Option<InstanceConfig>,
    ZomeError,
>)
    ensures
        res == lookup_result(first, LinkTypes::AnchorToInstanceConfig, EntryKind::InstanceConfig),
{
    lookup_entry(first, LinkTypes::AnchorToInstanceConfig, EntryKind::InstanceConfig)
}

// ---------------------------------------------------------------------------
// Federation state
// ---------------------------------------------------------------------------

/// Input of `set_mew_ap_uri`.
#[derive(Clone, Debug, PartialEq, Eq)]
pub struct SetApUriInput {
    pub mew_hash: ActionHash,
    pub ap_uri: String,
}

/// The anchor of an optional ActivityPub URI can be built.
pub open spec fn ap_uri_anchor_fits(ap_uri: Option<String>) -> bool {
    match ap_uri {
        Some(uri) => path_fits(ap_uri_anchor_text(uri@)),
        None => true,
    }
}

/// Creates a federation state, linked from its mew and, when it has an
/// ActivityPub URI, from that URI's anchor.
pub fn create_mew_federation_state(state: MewFederationState) -> (res: Result<CreatePlan, ZomeError>)
    ensures
        !ap_uri_anchor_fits(state.ap_uri) ==> res == Err::<CreatePlan, ZomeError>(
            ZomeError::UnbuildableAnchor,
        ),
        ap_uri_anchor_fits(state.ap_uri) ==> (res matches Ok(plan) && {
            &&& plan.entry == EntryTypes::MewFederationState(state)
            &&& plan.links@.len() == (if state.ap_uri is Some { 2int } else { 1int })
            &&& from_action(plan.links@[0], state.mew_hash@, LinkTypes::MewToFederationState)
            &&& state.ap_uri matches Some(uri) ==> from_anchor(
                plan.links@[1],
                ap_uri_anchor_text(uri@),
                LinkTypes::ApUriToFederationState,
            )
        }),
{
    let mut links: Vec<LinkPlan> = Vec::new();
    links.push(
        LinkPlan {
            base: LinkBase::Action(state.mew_hash.copy()),
            link_type: LinkTypes::MewToFederationState,
        },
    );
    match &state.ap_uri {
        Some(uri) => match ap_uri_anchor(uri.as_str()) {
            Some(anchor) => {
                links.push(
                    LinkPlan { base: LinkBase::Anchor(anchor), link_type: LinkTypes::ApUriToFederationState },
                );
            },
            None => {
                return Err(ZomeError::UnbuildableAnchor);
            },
        },
        None => {},
    }
    Ok(CreatePlan { entry: EntryTypes::MewFederationState(state), links })
}

/// `new` is `old` with its ActivityPub URI set to `uri`.
pub open spec fn with_ap_uri(old: MewFederationState, new: MewFederationState, uri: Seq<char>) -> bool {
    &&& new.mew_hash == old.mew_hash
    &&& new.visibility == old.visibility
    &&& new.ap_uri matches Some(u)
    &&& u@ == uri
}

/// Sets the ActivityPub URI on the federation state that the mew's first
/// link points at: the updated state takes the mew's link over from the
/// original, and is linked from the URI's anchor.
pub fn set_mew_ap_uri(input: SetApUriInput, first: Option<TargetRead<MewFederationState>>) -> (res:
    Result<UpdatePlan, ZomeError>)
    ensures
        first is None ==> res == Err::<UpdatePlan, ZomeError>(ZomeError::NoFederationState),
        first matches Some(TargetRead::NotAction) ==> res == Err::<UpdatePlan, ZomeError>(
            ZomeError::TargetNotActionHash(LinkTypes::MewToFederationState),
        ),
        first matches Some(TargetRead::Fetched(read)) ==> match required_record(
            read,
            EntryKind::MewFederationState,
        ) {
            Err(e) => res == Err::<UpdatePlan, ZomeError>(e),
            Ok((address, old)) => if !path_fits(ap_uri_anchor_text(input.ap_uri@)) {
                res == Err::<UpdatePlan, ZomeError>(ZomeError::UnbuildableAnchor)
            } else {
                res matches Ok(plan) && {
                    &&& plan.original == address
                    &&& plan.entry matches EntryTypes::MewFederationState(new)
                    &&& with_ap_uri(old, new, input.ap_uri@)
                    &&& plan.unlinks@.len() == 1
                    &&& from_action(plan.unlinks@[0], input.mew_hash@, LinkTypes::MewToFederationState)
                    &&& plan.links@.len() == 2
                    &&& from_action(plan.links@[0], input.mew_hash@, LinkTypes::MewToFederationState)
                    &&& from_anchor(
                        plan.links@[1],
                        ap_uri_anchor_text(input.ap_uri@),
                        LinkTypes::ApUriToFederationState,
                    )
                }
            },
        },
{
    let read = match first {
        None => {
            return Err(ZomeError::NoFederationState);
        },
        Some(TargetRead::NotAction) => {
            return Err(ZomeError::TargetNotActionHash(LinkTypes::MewToFederationState));
        },
        Some(TargetRead::Fetched(read)) => read,
    };
    let (address, old) = require_record(read, EntryKind::MewFederationState)?;
    let anchor = match ap_uri_anchor(input.ap_uri.as_str()) {
        Some(a) => a,
        None => {
            return Err(ZomeError::UnbuildableAnchor);
        },
    };
    let new = MewFederationState {
        mew_hash: old.mew_hash,
        ap_uri: Some(input.ap_uri),
        visibility: old.visibility,
    };
    let mut unlinks: Vec<LinkPlan> = Vec::new();
    unlinks.push(
        LinkPlan { base: LinkBase::Action(input.mew_hash.copy()), link_type: LinkTypes::MewToFederationState },
    );
    let mut links: Vec<LinkPlan> = Vec::new();
    links.push(
        LinkPlan { base: LinkBase::Action(input.mew_hash), link_type: LinkTypes::MewToFederationState },
    );
    links.push(LinkPlan { base: LinkBase::Anchor(anchor), link_type: LinkTypes::ApUriToFederationState });
    Ok(UpdatePlan { original: address, entry: EntryTypes::MewFederationState(new), unlinks, links })
}

/// Gets the federation state that the mew's first link points at.
pub fn get_mew_federation_state(first: Option<TargetRead<MewFederationState>>) -> (res: Result<
    Option<MewFederationState>,
    ZomeError,
>)
    ensures
        res == lookup_result(
            first,
            LinkTypes::MewToFederationState,
            EntryKind::MewFederationState,
        ),
{
    lookup_entry(first, LinkTypes::MewToFederationState, EntryKind::MewFederationState)
}

/// Gets the federation state that the first link of an ActivityPub URI's
/// anchor points at.
pub fn get_mew_by_ap_uri(first: Option<TargetRead<MewFederationState>>) -> (res: Result<
    Option<MewFederationState>,
    ZomeError,
>)
    ensures
        res == lookup_result(
            first,
            LinkTypes::ApUriToFederationState,
            EntryKind::MewFederationState,
        ),
{
    lookup_entry(first, LinkTypes::ApUriToFederationState, EntryKind::MewFederationState)
}

// ---------------------------------------------------------------------------
// Dedup-keyed creation and listing, shared by follows, followers and interactions
// ---------------------------------------------------------------------------

/// What a dedup anchor's links say: nothing yet, the action that exists, or
/// an error when the first link does not point at an action.
pub open spec fn dedup_lookup(existing: Seq<LinkTarget>, link_type: LinkTypes) -> Result<
    Option<Seq<u8>>,
    ZomeError,
> {
    if existing.len() == 0 {
        Ok(None)
    } else if is_full_hash(existing[0]@, action_prefix()) {
        Ok(Some(existing[0]@))
    } else {
        Err(ZomeError::TargetNotActionHash(link_type))
    }
}

fn dedup_check(existing: &Vec<LinkTarget>, link_type: LinkTypes) -> (res: Result<
    Option<ActionHash>,
    ZomeError,
>)
    ensures
        match dedup_lookup(existing@, link_type) {
            Ok(None) => res == Ok::<Option<ActionHash>, ZomeError>(None),
            Ok(Some(bytes)) => res matches Ok(Some(h)) && h@ == bytes,
            Err(e) => res == Err::<Option<ActionHash>, ZomeError>(e),
        },
{
    match first_action_target(existing) {
        FirstTarget::NoLink => Ok(None),
        FirstTarget::NotAction => Err(ZomeError::TargetNotActionHash(link_type)),
        FirstTarget::Action(h) => Ok(Some(h)),
    }
}

/// What listing the entries behind a sequence of links gives: the entries
/// of the records found, in order; links to missing records or records
/// without an app entry are passed over; the first link that is not to an
/// action, or whose record does not decode, fails the listing.
pub open spec fn listed<T>(reads: Seq<TargetRead<T>>, link_type: LinkTypes, kind: EntryKind) -> Result<
    Seq<T>,
    ZomeError,
>
    decreases reads.len(),
{
    if reads.len() == 0 {
        Ok(seq![])
    } else {
        match listed(reads.drop_last(), link_type, kind) {
            Err(e) => Err(e),
            Ok(acc) => match reads.last() {
                TargetRead::NotAction => Err(ZomeError::TargetNotActionHash(link_type)),
                TargetRead::Fetched(RecordRead::Absent) => Ok(acc),
                TargetRead::Fetched(RecordRead::Undecodable(_)) => Err(ZomeError::Deserialize(kind)),
                TargetRead::Fetched(RecordRead::NoEntry) => Ok(acc),
                TargetRead::Fetched(RecordRead::Present { entry, .. }) => Ok(acc.push(entry)),
            },
        }
    }
}

/// Whether a listing stops at this read: no later link is followed.
pub fn ends_listing<T>(read: &TargetRead<T>) -> (res: bool)
    ensures
        res == (read is NotAction || read matches TargetRead::Fetched(RecordRead::Undecodable(_))),
{
    match read {
        TargetRead::NotAction => true,
        TargetRead::Fetched(RecordRead::Undecodable(_)) => true,
        _ => false,
    }
}

fn list_entries<T>(reads: Vec<TargetRead<T>>, link_type: LinkTypes, kind: EntryKind) -> (res: Result<
    Vec<T>,
    ZomeError,
>)
    ensures
        match listed(reads@, link_type, kind) {
            Ok(s) => res matches Ok(v) && v@ == s,
            Err(e) => res == Err::<Vec<T>, ZomeError>(e),
        },
{
    let ghost all = reads@;
    let n = reads.len();
    let mut rest = reads;
    let mut acc: Vec<T> = Vec::new();
    let mut k: usize = 0;
    while rest.len() > 0
        invariant
            all == reads@,
            k <= all.len(),
            rest@.len() + k == all.len(),
            all.len() == n,
            rest@ == all.subrange(k as int, all.len() as int),
            listed(all.subrange(0, k as int), link_type, kind) == Ok::<Seq<T>, ZomeError>(acc@),
        decreases rest@.len(),
    {
        let read = rest.remove(0);
        proof {
            assert(all.subrange(0, k + 1).drop_last() =~= all.subrange(0, k as int));
            assert(all.subrange(0, k + 1).last() == read);
        }
        k = k + 1;
        match read {
            TargetRead::NotAction => {
                proof {
                    assert(listed(all.subrange(0, k as int), link_type, kind) == Err::<Seq<T>, ZomeError>(
                        ZomeError::TargetNotActionHash(link_type),
                    ));
                    lemma_listed_fails_on(all, k as int, link_type, kind);
                    assert(listed(all, link_type, kind) == Err::<Seq<T>, ZomeError>(
                        ZomeError::TargetNotActionHash(link_type),
                    ));
                }
                return Err(ZomeError::TargetNotActionHash(link_type));
            },
            TargetRead::Fetched(RecordRead::Undecodable(_)) => {
                proof {
                    assert(listed(all.subrange(0, k as int), link_type, kind) == Err::<Seq<T>, ZomeError>(
                        ZomeError::Deserialize(kind),
                    ));
                    lemma_listed_fails_on(all, k as int, link_type, kind);
                }
                return Err(ZomeError::Deserialize(kind));
            },
            TargetRead::Fetched(RecordRead::Present { entry, .. }) => {
                acc.push(entry);
            },
            _ => {},
        }
    }
    assert(all.subrange(0, all.len() as int) =~= all);
    Ok(acc)
}

/// Once a prefix of the reads fails, the whole listing fails the same way.
proof fn lemma_listed_fails_on<T>(all: Seq<TargetRead<T>>, k: int, link_type: LinkTypes, kind: EntryKind)
    requires
        0 <= k <= all.len(),
        listed(all.subrange(0, k), link_type, kind) is Err,
    ensures
        listed(all, link_type, kind) == listed(all.subrange(0, k), link_type, kind),
    decreases all.len() - k,
{
    if k < all.len() {
        assert(all.subrange(0, k + 1).drop_last() =~= all.subrange(0, k));
        lemma_listed_fails_on(all, k + 1, link_type, kind);
    } else {
        assert(all.subrange(0, k) =~= all);
    }
}

// ---------------------------------------------------------------------------
// Remote actors
// ---------------------------------------------------------------------------

/// The outcome of an upsert of a remote actor reference.
#[derive(Clone, Debug, PartialEq, Eq)]
pub enum UpsertPlan {
    /// The cached reference is unchanged, at this action: nothing is written.
    Keep(ActionHash),
    /// Replace the cached reference by a new version, and move the
    /// anchor's link to it.
    Update(UpdatePlan),
    /// Nothing is cached yet: carry out this creation.
    Create(CreatePlan),
}

/// The two references differ in a field.
pub open spec fn actor_ref_changed(old: RemoteActorRef, new: RemoteActorRef) -> bool {
    ||| old.actor_uri@ != new.actor_uri@
    ||| old.handle@ != new.handle@
    ||| match (old.display_name, new.display_name) {
        (Some(a), Some(b)) => a@ != b@,
        (None, None) => false,
        _ => true,
    }
}

/// Whether two actor references differ in a field.
pub fn actor_ref_has_changes(old: &RemoteActorRef, new: &RemoteActorRef) -> (res: bool)
    ensures
        res == actor_ref_changed(*old, *new),
{
    !str_equal(old.actor_uri.as_str(), new.actor_uri.as_str()) || !str_equal(
        old.handle.as_str(),
        new.handle.as_str(),
    ) || !opt_str_equal(&old.display_name, &new.display_name)
}

/// Inserts or updates a cached remote actor reference, keyed by the actor
/// URI's anchor; an unchanged reference is not written again, and an update
/// moves the anchor's link to the new version.
pub fn upsert_remote_actor_ref(actor: RemoteActorRef, first: Option<TargetRead<RemoteActorRef>>) -> (res:
    Result<UpsertPlan, ZomeError>)
    ensures
        !path_fits(actor_uri_anchor_text(actor.actor_uri@)) ==> res == Err::<UpsertPlan, ZomeError>(
            ZomeError::UnbuildableAnchor,
        ),
        path_fits(actor_uri_anchor_text(actor.actor_uri@)) ==> {
            &&& first is None ==> (res matches Ok(UpsertPlan::Create(plan)) && {
                &&& plan.entry == EntryTypes::RemoteActorRef(actor)
                &&& plan.links@.len() == 1
                &&& from_anchor(
                    plan.links@[0],
                    actor_uri_anchor_text(actor.actor_uri@),
                    LinkTypes::ActorUriToRemoteActorRef,
                )
            })
            &&& first matches Some(TargetRead::NotAction) ==> res == Err::<UpsertPlan, ZomeError>(
                ZomeError::TargetNotActionHash(LinkTypes::ActorUriToRemoteActorRef),
            )
            &&& first matches Some(TargetRead::Fetched(RecordRead::Absent)) ==> res == Err::<
                UpsertPlan,
                ZomeError,
            >(ZomeError::RecordNotFound(EntryKind::RemoteActorRef))
            &&& first matches Some(TargetRead::Fetched(RecordRead::Undecodable(reason))) ==> res
                == Err::<UpsertPlan, ZomeError>(
                ZomeError::DeserializeWithReason(EntryKind::RemoteActorRef, reason),
            )
            &&& first matches Some(TargetRead::Fetched(RecordRead::NoEntry)) ==> res == Err::<
                UpsertPlan,
                ZomeError,
            >(ZomeError::EntryMissing(EntryKind::RemoteActorRef))
            &&& first matches Some(TargetRead::Fetched(RecordRead::Present { address, entry })) ==> (
            if actor_ref_changed(entry, actor) {
                res matches Ok(UpsertPlan::Update(plan)) && {
                    &&& plan.original == address
                    &&& plan.entry == EntryTypes::RemoteActorRef(actor)
                    &&& plan.unlinks@.len() == 1
                    &&& from_anchor(
                        plan.unlinks@[0],
                        actor_uri_anchor_text(actor.actor_uri@),
                        LinkTypes::ActorUriToRemoteActorRef,
                    )
                    &&& plan.links@.len() == 1
                    &&& from_anchor(
                        plan.links@[0],
                        actor_uri_anchor_text(actor.actor_uri@),
                        LinkTypes::ActorUriToRemoteActorRef,
                    )
                }
            } else {
                res == Ok::<UpsertPlan, ZomeError>(UpsertPlan::Keep(address))
            })
        },
{
    let anchor = match actor_uri_anchor(actor.actor_uri.as_str()) {
        Some(a) => a,
        None => {
            return Err(ZomeError::UnbuildableAnchor);
        },
    };
    match first {
        None => {
            let mut links: Vec<LinkPlan> = Vec::new();
            links.push(
                LinkPlan {
                    base: LinkBase::Anchor(anchor),
                    link_type: LinkTypes::ActorUriToRemoteActorRef,
                },
            );
            Ok(UpsertPlan::Create(CreatePlan { entry: EntryTypes::RemoteActorRef(actor), links }))
        },
        Some(TargetRead::NotAction) => Err(
            ZomeError::TargetNotActionHash(LinkTypes::ActorUriToRemoteActorRef),
        ),
        Some(TargetRead::Fetched(RecordRead::Absent)) => Err(
            ZomeError::RecordNotFound(EntryKind::RemoteActorRef),
        ),
        Some(TargetRead::Fetched(RecordRead::Undecodable(reason))) => Err(
            ZomeError::DeserializeWithReason(EntryKind::RemoteActorRef, reason),
        ),
        Some(TargetRead::Fetched(RecordRead::NoEntry)) => Err(
            ZomeError::EntryMissing(EntryKind::RemoteActorRef),
        ),
        Some(TargetRead::Fetched(RecordRead::Present { address, entry })) => {
            if actor_ref_has_changes(&entry, &actor) {
                let mut unlinks: Vec<LinkPlan> = Vec::new();
                unlinks.push(
                    LinkPlan {
                        base: LinkBase::Anchor(anchor.copy()),
                        link_type: LinkTypes::ActorUriToRemoteActorRef,
                    },
                );
                let mut links: Vec<LinkPlan> = Vec::new();
                links.push(
                    LinkPlan {
                        base: LinkBase::Anchor(anchor),
                        link_type: LinkTypes::ActorUriToRemoteActorRef,
                    },
                );
                Ok(
                    UpsertPlan::Update(
                        UpdatePlan {
                            original: address,
                            entry: EntryTypes::RemoteActorRef(actor),
                            unlinks,
                            links,
                        },
                    ),
                )
            } else {
                Ok(UpsertPlan::Keep(address))
            }
        },
    }
}

/// Retrieves a cached remote actor reference through the first link of its
/// URI's anchor.
pub fn get_remote_actor_ref(first: Option<TargetRead<RemoteActorRef>>) -> (res: Result<
    Option<RemoteActorRef>,
    ZomeError,
>)
    ensures
        res == lookup_result(
            first,
            LinkTypes::ActorUriToRemoteActorRef,
            EntryKind::RemoteActorRef,
        ),
{
    lookup_entry(first, LinkTypes::ActorUriToRemoteActorRef, EntryKind::RemoteActorRef)
}

// ---------------------------------------------------------------------------
// Outbound follows
// ---------------------------------------------------------------------------

/// Input of `update_remote_follow_status`.
#[derive(Clone, Debug, PartialEq, Eq)]
pub struct UpdateFollowStatusInput {
    pub follow_hash: ActionHash,
    pub status: RemoteFollowStatus,
}

/// Creates an outbound follow, unless its dedup anchor already links to
/// one: then that follow's action is the answer and nothing is written.
/// A new follow is linked from its agent and from the dedup anchor.
pub fn create_remote_follow(follow: RemoteFollow, existing: &Vec<LinkTarget>) -> (res: Result<
    DedupPlan,
    ZomeError,
>)
    ensures
        path_fits(follow.remote_actor_uri@) ==> path_fits(follow_dedup_text(follow.local_agent@, follow.remote_actor_uri@)),
        !path_fits(follow_dedup_text(follow.local_agent@, follow.remote_actor_uri@)) ==> res == Err::<
            DedupPlan,
            ZomeError,
        >(ZomeError::UnbuildableAnchor),
        path_fits(follow_dedup_text(follow.local_agent@, follow.remote_actor_uri@)) ==> match dedup_lookup(
            existing@,
            LinkTypes::FollowDedupToRemoteFollow,
        ) {
            Err(e) => res == Err::<DedupPlan, ZomeError>(e),
            Ok(Some(bytes)) => res matches Ok(DedupPlan::Existing(h)) && h@ == bytes,
            Ok(None) => res matches Ok(DedupPlan::Create(plan)) && {
                &&& plan.entry == EntryTypes::RemoteFollow(follow)
                &&& plan.links@.len() == 2
                &&& from_agent(plan.links@[0], follow.local_agent@, LinkTypes::AgentToRemoteFollows)
                &&& from_anchor(
                    plan.links@[1],
                    follow_dedup_text(follow.local_agent@, follow.remote_actor_uri@),
                    LinkTypes::FollowDedupToRemoteFollow,
                )
            },
        },
{
    let anchor = match follow_dedup_anchor(&follow.local_agent, follow.remote_actor_uri.as_str()) {
        Some(a) => a,
        None => {
            return Err(ZomeError::UnbuildableAnchor);
        },
    };
    match dedup_check(existing, LinkTypes::FollowDedupToRemoteFollow)? {
        Some(h) => Ok(DedupPlan::Existing(h)),
        None => {
            let mut links: Vec<LinkPlan> = Vec::new();
            links.push(
                LinkPlan {
                    base: LinkBase::Agent(follow.local_agent.copy()),
                    link_type: LinkTypes::AgentToRemoteFollows,
                },
            );
            links.push(
                LinkPlan {
                    base: LinkBase::Anchor(anchor),
                    link_type: LinkTypes::FollowDedupToRemoteFollow,
                },
            );
            Ok(DedupPlan::Create(CreatePlan { entry: EntryTypes::RemoteFollow(follow), links }))
        },
    }
}

/// The links of a follow, from its agent and from its dedup anchor.
fn follow_links(agent: &AgentPubKey, anchor: AnchorPath) -> (res: Vec<LinkPlan>)
    ensures
        res@.len() == 2,
        from_agent(res@[0], agent@, LinkTypes::AgentToRemoteFollows),
        res@[1] == (LinkPlan { base: LinkBase::Anchor(anchor), link_type: LinkTypes::FollowDedupToRemoteFollow }),
{
    let mut links: Vec<LinkPlan> = Vec::new();
    links.push(LinkPlan { base: LinkBase::Agent(agent.copy()), link_type: LinkTypes::AgentToRemoteFollows });
    links.push(LinkPlan { base: LinkBase::Anchor(anchor), link_type: LinkTypes::FollowDedupToRemoteFollow });
    links
}

/// Changes the status of an outbound follow; every other field is kept.
/// The new version takes over the links from the agent and from the dedup
/// anchor, so listings and later creations see it.
pub fn update_remote_follow_status(input: UpdateFollowStatusInput, read: RecordRead<RemoteFollow>) -> (res:
    Result<UpdatePlan, ZomeError>)
    ensures
        match required_record(read, EntryKind::RemoteFollow) {
            Err(e) => res == Err::<UpdatePlan, ZomeError>(e),
            Ok((address, old)) => (path_fits(old.remote_actor_uri@) ==> path_fits(
                follow_dedup_text(old.local_agent@, old.remote_actor_uri@),
            )) && if !path_fits(
                follow_dedup_text(old.local_agent@, old.remote_actor_uri@),
            ) {
                res == Err::<UpdatePlan, ZomeError>(ZomeError::UnbuildableAnchor)
            } else {
                res matches Ok(plan) && {
                    &&& plan.original == address
                    &&& plan.entry == EntryTypes::RemoteFollow(RemoteFollow { status: input.status, ..old })
                    &&& plan.unlinks@.len() == 2
                    &&& from_agent(plan.unlinks@[0], old.local_agent@, LinkTypes::AgentToRemoteFollows)
                    &&& from_anchor(
                        plan.unlinks@[1],
                        follow_dedup_text(old.local_agent@, old.remote_actor_uri@),
                        LinkTypes::FollowDedupToRemoteFollow,
                    )
                    &&& plan.links@.len() == 2
                    &&& from_agent(plan.links@[0], old.local_agent@, LinkTypes::AgentToRemoteFollows)
                    &&& from_anchor(
                        plan.links@[1],
                        follow_dedup_text(old.local_agent@, old.remote_actor_uri@),
                        LinkTypes::FollowDedupToRemoteFollow,
                    )
                }
            },
        },
{
    let (address, old) = require_record(read, EntryKind::RemoteFollow)?;
    let anchor = match follow_dedup_anchor(&old.local_agent, old.remote_actor_uri.as_str()) {
        Some(a) => a,
        None => {
            return Err(ZomeError::UnbuildableAnchor);
        },
    };
    let unlinks = follow_links(&old.local_agent, anchor.copy());
    let links = follow_links(&old.local_agent, anchor);
    let new = RemoteFollow {
        local_agent: old.local_agent,
        remote_actor_uri: old.remote_actor_uri,
        status: input.status,
        created_at: old.created_at,
    };
    Ok(UpdatePlan { original: address, entry: EntryTypes::RemoteFollow(new), unlinks, links })
}

/// Lists an agent's outbound follows from the reads of its links.
pub fn list_remote_follows(reads: Vec<TargetRead<RemoteFollow>>) -> (res: Result<
    Vec<RemoteFollow>,
    ZomeError,
>)
    ensures
        match listed(reads@, LinkTypes::AgentToRemoteFollows, EntryKind::RemoteFollow) {
            Ok(s) => res matches Ok(v) && v@ == s,
            Err(e) => res == Err::<Vec<RemoteFollow>, ZomeError>(e),
        },
{
    list_entries(reads, LinkTypes::AgentToRemoteFollows, EntryKind::RemoteFollow)
}

/// Deletes an outbound follow: the links to it from its agent and from its
/// dedup anchor go first, then the entry.
pub fn delete_remote_follow(follow_hash: ActionHash, read: RecordRead<RemoteFollow>) -> (res: Result<
    DeletePlan,
    ZomeError,
>)
    ensures
        match required_record(read, EntryKind::RemoteFollow) {
            Err(e) => res == Err::<DeletePlan, ZomeError>(e),
            Ok((_address, follow)) => (path_fits(follow.remote_actor_uri@) ==> path_fits(
                follow_dedup_text(follow.local_agent@, follow.remote_actor_uri@),
            )) && if !path_fits(
                follow_dedup_text(follow.local_agent@, follow.remote_actor_uri@),
            ) {
                res == Err::<DeletePlan, ZomeError>(ZomeError::UnbuildableAnchor)
            } else {
                res matches Ok(plan) && {
                &&& plan.entry == follow_hash
                &&& plan.link_sets@.len() == 2
                &&& from_agent(
                    plan.link_sets@[0],
                    follow.local_agent@,
                    LinkTypes::AgentToRemoteFollows,
                )
                &&& from_anchor(
                    plan.link_sets@[1],
                    follow_dedup_text(follow.local_agent@, follow.remote_actor_uri@),
                    LinkTypes::FollowDedupToRemoteFollow,
                )
                }
            },
        },
{
    let (_address, follow) = require_record(read, EntryKind::RemoteFollow)?;
    let anchor = match follow_dedup_anchor(&follow.local_agent, follow.remote_actor_uri.as_str()) {
        Some(a) => a,
        None => {
            return Err(ZomeError::UnbuildableAnchor);
        },
    };
    let mut link_sets: Vec<LinkPlan> = Vec::new();
    link_sets.push(
        LinkPlan { base: LinkBase::Agent(follow.local_agent), link_type: LinkTypes::AgentToRemoteFollows },
    );
    link_sets.push(LinkPlan { base: LinkBase::Anchor(anchor), link_type: LinkTypes::FollowDedupToRemoteFollow });
    Ok(DeletePlan { link_sets, entry: follow_hash })
}

// ---------------------------------------------------------------------------
// Inbound followers
// ---------------------------------------------------------------------------

/// Creates an inbound follower, unless its dedup anchor already links to
/// one: then that follower's action is the answer and nothing is written.
/// A new follower is linked from its agent and from the dedup anchor.
pub fn create_remote_follower(follower: RemoteFollower, existing: &Vec<LinkTarget>) -> (res: Result<
    DedupPlan,
    ZomeError,
>)
    ensures
        path_fits(follower.remote_actor_uri@) ==> path_fits(follower_dedup_text(follower.local_agent@, follower.remote_actor_uri@)),
        !path_fits(follower_dedup_text(follower.local_agent@, follower.remote_actor_uri@)) ==> res
            == Err::<DedupPlan, ZomeError>(ZomeError::UnbuildableAnchor),
        path_fits(follower_dedup_text(follower.local_agent@, follower.remote_actor_uri@)) ==> match dedup_lookup(existing@, LinkTypes::FollowerDedupToRemoteFollower) {
            Err(e) => res == Err::<DedupPlan, ZomeError>(e),
            Ok(Some(bytes)) => res matches Ok(DedupPlan::Existing(h)) && h@ == bytes,
            Ok(None) => res matches Ok(DedupPlan::Create(plan)) && {
                &&& plan.entry == EntryTypes::RemoteFollower(follower)
                &&& plan.links@.len() == 2
                &&& from_agent(
                    plan.links@[0],
                    follower.local_agent@,
                    LinkTypes::AgentToRemoteFollowers,
                )
                &&& from_anchor(
                    plan.links@[1],
                    follower_dedup_text(follower.local_agent@, follower.remote_actor_uri@),
                    LinkTypes::FollowerDedupToRemoteFollower,
                )
            },
        },
{
    let anchor = match follower_dedup_anchor(&follower.local_agent, follower.remote_actor_uri.as_str()) {
        Some(a) => a,
        None => {
            return Err(ZomeError::UnbuildableAnchor);
        },
    };
    match dedup_check(existing, LinkTypes::FollowerDedupToRemoteFollower)? {
        Some(h) => Ok(DedupPlan::Existing(h)),
        None => {
            let mut links: Vec<LinkPlan> = Vec::new();
            links.push(
                LinkPlan {
                    base: LinkBase::Agent(follower.local_agent.copy()),
                    link_type: LinkTypes::AgentToRemoteFollowers,
                },
            );
            links.push(
                LinkPlan {
                    base: LinkBase::Anchor(anchor),
                    link_type: LinkTypes::FollowerDedupToRemoteFollower,
                },
            );
            Ok(DedupPlan::Create(CreatePlan { entry: EntryTypes::RemoteFollower(follower), links }))
        },
    }
}

/// Lists an agent's inbound followers from the reads of its links.
pub fn list_remote_followers(reads: Vec<TargetRead<RemoteFollower>>) -> (res: Result<
    Vec<RemoteFollower>,
    ZomeError,
>)
    ensures
        match listed(reads@, LinkTypes::AgentToRemoteFollowers, EntryKind::RemoteFollower) {
            Ok(s) => res matches Ok(v) && v@ == s,
            Err(e) => res == Err::<Vec<RemoteFollower>, ZomeError>(e),
        },
{
    list_entries(reads, LinkTypes::AgentToRemoteFollowers, EntryKind::RemoteFollower)
}

/// Deletes an inbound follower: the links to it from its agent and from its
/// dedup anchor go first, then the entry.
pub fn delete_remote_follower(follower_hash: ActionHash, read: RecordRead<RemoteFollower>) -> (res:
    Result<DeletePlan, ZomeError>)
    ensures
        match required_record(read, EntryKind::RemoteFollower) {
            Err(e) => res == Err::<DeletePlan, ZomeError>(e),
            Ok((_address, follower)) => (path_fits(follower.remote_actor_uri@) ==> path_fits(
                follower_dedup_text(follower.local_agent@, follower.remote_actor_uri@),
            )) && if !path_fits(
                follower_dedup_text(follower.local_agent@, follower.remote_actor_uri@),
            ) {
                res == Err::<DeletePlan, ZomeError>(ZomeError::UnbuildableAnchor)
            } else {
                res matches Ok(plan) && {
                &&& plan.entry == follower_hash
                &&& plan.link_sets@.len() == 2
                &&& from_agent(
                    plan.link_sets@[0],
                    follower.local_agent@,
                    LinkTypes::AgentToRemoteFollowers,
                )
                &&& from_anchor(
                    plan.link_sets@[1],
                    follower_dedup_text(follower.local_agent@, follower.remote_actor_uri@),
                    LinkTypes::FollowerDedupToRemoteFollower,
                )
                }
            },
        },
{
    let (_address, follower) = require_record(read, EntryKind::RemoteFollower)?;
    let anchor = match follower_dedup_anchor(&follower.local_agent, follower.remote_actor_uri.as_str()) {
        Some(a) => a,
        None => {
            return Err(ZomeError::UnbuildableAnchor);
        },
    };
    let mut link_sets: Vec<LinkPlan> = Vec::new();
    link_sets.push(
        LinkPlan {
            base: LinkBase::Agent(follower.local_agent),
            link_type: LinkTypes::AgentToRemoteFollowers,
        },
    );
    link_sets.push(
        LinkPlan { base: LinkBase::Anchor(anchor), link_type: LinkTypes::FollowerDedupToRemoteFollower },
    );
    Ok(DeletePlan { link_sets, entry: follower_hash })
}

// ---------------------------------------------------------------------------
// Remote interactions
// ---------------------------------------------------------------------------

/// Creates a remote interaction, unless the dedup anchor of its activity URI
/// already links to one: then that interaction's action is the answer and
/// nothing is written. A new interaction is linked from its mew and from the
/// dedup anchor.
pub fn create_remote_interaction(interaction: RemoteInteraction, existing: &Vec<LinkTarget>) -> (res:
    Result<DedupPlan, ZomeError>)
    ensures
        !path_fits(interaction_dedup_text(interaction.activity_uri@)) ==> res == Err::<
            DedupPlan,
            ZomeError,
        >(ZomeError::UnbuildableAnchor),
        path_fits(interaction_dedup_text(interaction.activity_uri@)) ==> match dedup_lookup(existing@, LinkTypes::InteractionDedupToRemoteInteraction) {
            Err(e) => res == Err::<DedupPlan, ZomeError>(e),
            Ok(Some(bytes)) => res matches Ok(DedupPlan::Existing(h)) && h@ == bytes,
            Ok(None) => res matches Ok(DedupPlan::Create(plan)) && {
                &&& plan.entry == EntryTypes::RemoteInteraction(interaction)
                &&& plan.links@.len() == 2
                &&& from_action(
                    plan.links@[0],
                    interaction.mew_hash@,
                    LinkTypes::MewToRemoteInteractions,
                )
                &&& from_anchor(
                    plan.links@[1],
                    interaction_dedup_text(interaction.activity_uri@),
                    LinkTypes::InteractionDedupToRemoteInteraction,
                )
            },
        },
{
    let anchor = match interaction_dedup_anchor(interaction.activity_uri.as_str()) {
        Some(a) => a,
        None => {
            return Err(ZomeError::UnbuildableAnchor);
        },
    };
    match dedup_check(existing, LinkTypes::InteractionDedupToRemoteInteraction)? {
        Some(h) => Ok(DedupPlan::Existing(h)),
        None => {
            let mut links: Vec<LinkPlan> = Vec::new();
            links.push(
                LinkPlan {
                    base: LinkBase::Action(interaction.mew_hash.copy()),
                    link_type: LinkTypes::MewToRemoteInteractions,
                },
            );
            links.push(
                LinkPlan {
                    base: LinkBase::Anchor(anchor),
                    link_type: LinkTypes::InteractionDedupToRemoteInteraction,
                },
            );
            Ok(
                DedupPlan::Create(
                    CreatePlan { entry: EntryTypes::RemoteInteraction(interaction), links },
                ),
            )
        },
    }
}

/// Lists the remote interactions on a mew from the reads of its links.
pub fn list_remote_interactions(reads: Vec<TargetRead<RemoteInteraction>>) -> (res: Result<
    Vec<RemoteInteraction>,
    ZomeError,
>)
    ensures
        match listed(reads@, LinkTypes::MewToRemoteInteractions, EntryKind::RemoteInteraction) {
            Ok(s) => res matches Ok(v) && v@ == s,
            Err(e) => res == Err::<Vec<RemoteInteraction>, ZomeError>(e),
        },
{
    list_entries(reads, LinkTypes::MewToRemoteInteractions, EntryKind::RemoteInteraction)
}

/// Input of `delete_remote_interaction`.
#[derive(Clone, Debug, PartialEq, Eq)]
pub struct DeleteRemoteInteractionInput {
    pub mew_hash: ActionHash,
    pub activity_uri: String,
}

/// One link from a mew to an interaction: the action that created the link,
/// and what following it gave.
#[derive(Clone, Debug, PartialEq, Eq)]
pub struct InteractionCandidate {
    pub link_hash: ActionHash,
    pub read: TargetRead<RemoteInteraction>,
}

/// What deleting a remote interaction removes: the mew's link to it, the
/// links to it from the dedup anchor, and its entry.
#[derive(Clone, Debug, PartialEq, Eq)]
pub struct InteractionRemoval {
    pub mew_link: ActionHash,
    pub interaction: ActionHash,
    pub dedup_anchor: AnchorPath,
}

/// `c` holds an interaction whose activity URI is `uri`.
pub open spec fn candidate_matches(c: InteractionCandidate, uri: Seq<char>) -> bool {
    c.read matches TargetRead::Fetched(RecordRead::Present { entry, .. }) && entry.activity_uri@
        == uri
}

/// The search, from position `i` on, for the interaction to delete: the
/// position of the first candidate with the activity URI, unless a record
/// that does not decode comes first; other candidates are passed over.
pub open spec fn removal_from(c: Seq<InteractionCandidate>, uri: Seq<char>, i: int) -> Result<
    int,
    ZomeError,
>
    decreases c.len() - i,
{
    if i < 0 || i >= c.len() {
        Err(ZomeError::InteractionNotFound)
    } else if c[i].read matches TargetRead::Fetched(RecordRead::Undecodable(_)) {
        Err(ZomeError::Deserialize(EntryKind::RemoteInteraction))
    } else if candidate_matches(c[i], uri) {
        Ok(i)
    } else {
        removal_from(c, uri, i + 1)
    }
}

/// Whether the search for the interaction to delete stops at this candidate.
pub fn ends_removal_search(c: &InteractionCandidate, activity_uri: &str) -> (res: bool)
    ensures
        res == (c.read matches TargetRead::Fetched(RecordRead::Undecodable(_)) || candidate_matches(
            *c,
            activity_uri@,
        )),
{
    match &c.read {
        TargetRead::Fetched(RecordRead::Undecodable(_)) => true,
        TargetRead::Fetched(RecordRead::Present { entry, .. }) => str_equal(
            entry.activity_uri.as_str(),
            activity_uri,
        ),
        _ => false,
    }
}

/// Deletes the remote interaction on a mew that has the given activity URI:
/// finds it among the mew's links, in order, and names what to remove.
pub fn delete_remote_interaction(
    input: &DeleteRemoteInteractionInput,
    candidates: &Vec<InteractionCandidate>,
) -> (res: Result<InteractionRemoval, ZomeError>)
    ensures
        match removal_from(candidates@, input.activity_uri@, 0) {
            Err(e) => res == Err::<InteractionRemoval, ZomeError>(e),
            Ok(i) => if !path_fits(interaction_dedup_text(input.activity_uri@)) {
                res == Err::<InteractionRemoval, ZomeError>(ZomeError::UnbuildableAnchor)
            } else {
                res matches Ok(removal) && {
                    &&& removal.mew_link@ == candidates@[i].link_hash@
                    &&& candidates@[i].read matches TargetRead::Fetched(
                        RecordRead::Present { address, entry },
                    )
                    &&& removal.interaction@ == address@
                    &&& removal.dedup_anchor.text@ == interaction_dedup_text(entry.activity_uri@)
                    &&& removal.dedup_anchor.components.deep_view() == path_components(
                        removal.dedup_anchor.text@,
                    )
                }
            },
        },
{
    let mut i: usize = 0;
    while i < candidates.len()
        invariant
            i <= candidates@.len(),
            removal_from(candidates@, input.activity_uri@, 0) == removal_from(
                candidates@,
                input.activity_uri@,
                i as int,
            ),
        decreases candidates@.len() - i,
    {
        let c = &candidates[i];
        match &c.read {
            TargetRead::Fetched(RecordRead::Undecodable(_)) => {
                return Err(ZomeError::Deserialize(EntryKind::RemoteInteraction));
            },
            TargetRead::Fetched(RecordRead::Present { address, entry }) => {
                if str_equal(entry.activity_uri.as_str(), input.activity_uri.as_str()) {
                    return match interaction_dedup_anchor(entry.activity_uri.as_str()) {
                        Some(dedup_anchor) => Ok(
                            InteractionRemoval {
                                mew_link: c.link_hash.copy(),
                                interaction: address.copy(),
                                dedup_anchor,
                            },
                        ),
                        None => Err(ZomeError::UnbuildableAnchor),
                    };
                }
            },
            _ => {},
        }
        i = i + 1;
    }
    Err(ZomeError::InteractionNotFound)
}

// ---------------------------------------------------------------------------
// Cross-zome reads
// ---------------------------------------------------------------------------

/// Key and value pairs as plain sequences.
pub open spec fn pairs_view(pairs: Seq<(String, String)>) -> Seq<(Seq<char>, Seq<char>)> {
    pairs.map_values(|p: (String, String)| (p.0@, p.1@))
}

/// No key occurs twice among `pairs`.
pub open spec fn keys_distinct(pairs: Seq<(Seq<char>, Seq<char>)>) -> bool {
    forall|i: int, j: int| 0 <= i < j < pairs.len() ==> pairs[i].0 != pairs[j].0
}

/// The keys of `pairs` strictly increase in the order of `String`, as a
/// `BTreeMap` keeps them.
pub open spec fn keys_sorted(pairs: Seq<(Seq<char>, Seq<char>)>) -> bool {
    forall|i: int, j: int| 0 <= i < j < pairs.len() ==> str_less(pairs[i].0, pairs[j].0)
}

/// Keys in strictly increasing order are distinct.
pub proof fn sorted_keys_are_distinct(pairs: Seq<(Seq<char>, Seq<char>)>)
    requires
        keys_sorted(pairs),
    ensures
        keys_distinct(pairs),
{
    assert forall|i: int, j: int| 0 <= i < j < pairs.len() implies pairs[i].0 != pairs[j].0 by {
        lemma_str_less_irreflexive(pairs[i].0);
    }
}

/// The value of `key` among `pairs`: that of the first pair with that key.
pub open spec fn field_value(pairs: Seq<(Seq<char>, Seq<char>)>, key: Seq<char>) -> Option<Seq<char>>
    decreases pairs.len(),
{
    if pairs.len() == 0 {
        None
    } else if pairs[0].0 == key {
        Some(pairs[0].1)
    } else {
        field_value(pairs.drop_first(), key)
    }
}

/// The free-form fields of a profile: key and value pairs in strictly
/// increasing key order, each key once, as the map they are read from keeps
/// them.
#[derive(Debug, PartialEq, Eq)]
pub struct ProfileFields {
    pairs: Vec<(String, String)>,
}

impl View for ProfileFields {
    type V = Seq<(Seq<char>, Seq<char>)>;

    closed spec fn view(&self) -> Seq<(Seq<char>, Seq<char>)> {
        pairs_view(self.pairs@)
    }
}

impl Clone for ProfileFields {
    fn clone(&self) -> (res: Self)
        ensures
            res@ == self@,
    {
        proof {
            use_type_invariant(self);
        }
        let ghost v = self@;
        let mut pairs: Vec<(String, String)> = Vec::new();
        let mut i: usize = 0;
        while i < self.pairs.len()
            invariant
                v == pairs_view(self.pairs@),
                keys_sorted(v),
                i <= v.len(),
                pairs_view(pairs@) == v.subrange(0, i as int),
            decreases v.len() - i,
        {
            let key = copy_string(&self.pairs[i].0);
            let value = copy_string(&self.pairs[i].1);
            assert(v[i as int] == (key@, value@));
            let ghost before = pairs@;
            pairs.push((key, value));
            assert(pairs@ == before.push((key, value)));
            assert(pairs_view(pairs@) =~= pairs_view(before).push((key@, value@)));
            i = i + 1;
            assert(pairs_view(pairs@) =~= v.subrange(0, i as int));
        }
        assert(v.subrange(0, v.len() as int) =~= v);
        ProfileFields { pairs }
    }
}

impl ProfileFields {
    #[verifier::type_invariant]
    closed spec fn wf(self) -> bool {
        keys_sorted(pairs_view(self.pairs@))
    }

    /// No fields.
    pub fn new() -> (res: ProfileFields)
        ensures
            res@.len() == 0,
    {
        let pairs: Vec<(String, String)> = Vec::new();
        assert(pairs_view(pairs@) =~= Seq::<(Seq<char>, Seq<char>)>::empty());
        ProfileFields { pairs }
    }

    /// The fields with these pairs; `None` unless their keys strictly
    /// increase.
    pub fn from_pairs(pairs: Vec<(String, String)>) -> (res: Option<ProfileFields>)
        ensures
            res is Some <==> keys_sorted(pairs_view(pairs@)),
            res matches Some(f) ==> f@ == pairs_view(pairs@),
    {
        let ghost v = pairs_view(pairs@);
        let mut i: usize = 1;
        if pairs.len() == 0 {
            return Some(ProfileFields { pairs });
        }
        while i < pairs.len()
            invariant
                v == pairs_view(pairs@),
                1 <= i <= pairs@.len(),
                forall|a: int, b: int| 0 <= a < b < i ==> str_less(v[a].0, v[b].0),
            decreases pairs@.len() - i,
        {
            assert(v[i - 1].0 == pairs@[i - 1].0@ && v[i as int].0 == pairs@[i as int].0@);
            if !str_before(pairs[i - 1].0.as_str(), pairs[i].0.as_str()) {
                return None;
            }
            assert forall|a: int, b: int| 0 <= a < b < i + 1 implies str_less(v[a].0, v[b].0) by {
                if b == i && a < i - 1 {
                    lemma_str_less_transitive(v[a].0, v[i - 1].0, v[b].0);
                }
            }
            i = i + 1;
        }
        Some(ProfileFields { pairs })
    }

    /// The pairs, each key once.
    pub fn pairs(&self) -> (res: &Vec<(String, String)>)
        ensures
            pairs_view(res@) == self@,
            keys_sorted(self@),
            keys_distinct(self@),
    {
        proof {
            use_type_invariant(self);
            sorted_keys_are_distinct(self@);
        }
        &self.pairs
    }

    /// The value of the field `key`, if there is one.
    pub fn get(&self, key: &str) -> (res: Option<String>)
        ensures
            match field_value(self@, key@) {
                Some(v) => res matches Some(r) && r@ == v,
                None => res is None,
            },
    {
        let ghost v = self@;
        let mut i: usize = 0;
        assert(v.subrange(0, v.len() as int) =~= v);
        while i < self.pairs.len()
            invariant
                v == pairs_view(self.pairs@),
                i <= v.len(),
                field_value(v, key@) == field_value(v.subrange(i as int, v.len() as int), key@),
            decreases v.len() - i,
        {
            let ghost rest = v.subrange(i as int, v.len() as int);
            assert(rest[0] == (self.pairs@[i as int].0@, self.pairs@[i as int].1@));
            if str_equal(self.pairs[i].0.as_str(), key) {
                return Some(copy_string(&self.pairs[i].1));
            }
            assert(rest.drop_first() =~= v.subrange(i + 1, v.len() as int));
            i = i + 1;
        }
        None
    }
}

/// A profile as the profiles zome stores it.
#[derive(Clone, Debug, PartialEq, Eq)]
pub struct Profile {
    pub nickname: String,
    pub fields: ProfileFields,
}

/// Profile data combined with the instance configuration, from which the
/// server-to-server bridge builds an ActivityPub actor.
#[derive(Clone, Debug, PartialEq, Eq)]
pub struct AgentApProfile {
    pub agent: AgentPubKey,
    pub instance_uri: String,
    pub public_key_id: String,
    pub nickname: Option<String>,
    pub fields: ProfileFields,
}

/// `p` combines `agent`, the configuration `config` and what reading the
/// agent's profile gave: a profile that is missing or does not decode gives
/// no nickname and no fields.
pub open spec fn ap_profile_is(
    p: AgentApProfile,
    agent: AgentPubKey,
    config: InstanceConfig,
    profile: RecordRead<Profile>,
) -> bool {
    &&& p.agent == agent
    &&& p.instance_uri == config.instance_uri
    &&& p.public_key_id == config.public_key_id
    &&& match profile {
        RecordRead::Present { entry, .. } => p.nickname == Some(entry.nickname) && p.fields
            == entry.fields,
        _ => p.nickname is None && p.fields@.len() == 0,
    }
}

/// An agent's profile combined with the instance configuration: nothing
/// when the network has no configuration (and then the profile is not
/// read); otherwise the profile is read by `read_profile`, whose failure is
/// the answer.
pub fn get_agent_ap_profile<E, F: FnOnce() -> Result<RecordRead<Profile>, E>>(
    agent: AgentPubKey,
    config: Option<InstanceConfig>,
    read_profile: F,
) -> (res: Result<Option<AgentApProfile>, E>)
    requires
        config is Some ==> read_profile.requires(()),
    ensures
        config is None ==> res matches Ok(None),
        config matches Some(c) ==> exists|read: Result<RecordRead<Profile>, E>|
            #[trigger] read_profile.ensures((), read) && match read {
                Err(e) => res == Err::<Option<AgentApProfile>, E>(e),
                Ok(profile) => res matches Ok(Some(p)) && ap_profile_is(p, agent, c, profile),
            },
{
    let config = match config {
        Some(c) => c,
        None => {
            return Ok(None);
        },
    };
    let read = read_profile();
    match read {
        Err(e) => Err(e),
        Ok(profile) => {
            let (nickname, fields) = match profile {
                RecordRead::Present { entry, .. } => (Some(entry.nickname), entry.fields),
                _ => (None, ProfileFields::new()),
            };
            Ok(
                Some(
                    AgentApProfile {
                        agent,
                        instance_uri: config.instance_uri,
                        public_key_id: config.public_key_id,
                        nickname,
                        fields,
                    },
                ),
            )
        },
    }
}

/// The federated states among the reads of a mew's links: those found whose
/// visibility is not `HolochainOnly`, in order. Links that are not to an
/// action, missing records and records without an app entry are passed
/// over; a record that does not decode fails the whole.
pub open spec fn federated(reads: Seq<TargetRead<MewFederationState>>) -> Result<
    Seq<MewFederationState>,
    ZomeError,
>
    decreases reads.len(),
{
    if reads.len() == 0 {
        Ok(seq![])
    } else {
        match federated(reads.drop_last()) {
            Err(e) => Err(e),
            Ok(acc) => match reads.last() {
                TargetRead::Fetched(RecordRead::Undecodable(_)) => Err(
                    ZomeError::Deserialize(EntryKind::MewFederationState),
                ),
                TargetRead::Fetched(RecordRead::Present { entry, .. }) => if entry.visibility
                    is HolochainOnly {
                    Ok(acc)
                } else {
                    Ok(acc.push(entry))
                },
                _ => Ok(acc),
            },
        }
    }
}

/// Once a prefix of the reads fails, the whole fails the same way.
proof fn lemma_federated_fails_on(all: Seq<TargetRead<MewFederationState>>, k: int)
    requires
        0 <= k <= all.len(),
        federated(all.subrange(0, k)) is Err,
    ensures
        federated(all) == federated(all.subrange(0, k)),
    decreases all.len() - k,
{
    if k < all.len() {
        assert(all.subrange(0, k + 1).drop_last() =~= all.subrange(0, k));
        lemma_federated_fails_on(all, k + 1);
    } else {
        assert(all.subrange(0, k) =~= all);
    }
}

/// Whether the search for federated mews stops at this read.
pub fn ends_federated_listing(read: &TargetRead<MewFederationState>) -> (res: bool)
    ensures
        res == (read matches TargetRead::Fetched(RecordRead::Undecodable(_))),
{
    match read {
        TargetRead::Fetched(RecordRead::Undecodable(_)) => true,
        _ => false,
    }
}

/// The federated mews of an agent, from the reads of the federation-state
/// links of each of its mews, in order.
pub fn get_federated_mews_for_agent(reads: Vec<TargetRead<MewFederationState>>) -> (res: Result<
    Vec<MewFederationState>,
    ZomeError,
>)
    ensures
        match federated(reads@) {
            Ok(s) => res matches Ok(v) && v@ == s,
            Err(e) => res == Err::<Vec<MewFederationState>, ZomeError>(e),
        },
{
    let ghost all = reads@;
    let n = reads.len();
    let mut rest = reads;
    let mut acc: Vec<MewFederationState> = Vec::new();
    let mut k: usize = 0;
    while rest.len() > 0
        invariant
            all == reads@,
            k <= all.len(),
            rest@.len() + k == all.len(),
            all.len() == n,
            rest@ == all.subrange(k as int, all.len() as int),
            federated(all.subrange(0, k as int)) == Ok::<Seq<MewFederationState>, ZomeError>(acc@),
        decreases rest@.len(),
    {
        let read = rest.remove(0);
        proof {
            assert(all.subrange(0, k + 1).drop_last() =~= all.subrange(0, k as int));
            assert(all.subrange(0, k + 1).last() == read);
        }
        k = k + 1;
        match read {
            TargetRead::Fetched(RecordRead::Undecodable(_)) => {
                proof {
                    assert(federated(all.subrange(0, k as int)) == Err::<
                        Seq<MewFederationState>,
                        ZomeError,
                    >(ZomeError::Deserialize(EntryKind::MewFederationState)));
                    lemma_federated_fails_on(all, k as int);
                }
                return Err(ZomeError::Deserialize(EntryKind::MewFederationState));
            },
            TargetRead::Fetched(RecordRead::Present { entry, .. }) => {
                if !entry.visibility.is_holochain_only() {
                    acc.push(entry);
                }
            },
            _ => {},
        }
    }
    assert(all.subrange(0, all.len() as int) =~= all);
    Ok(acc)
}

} // verus!
