//! Properties of the library as a whole, proved over the specifications
//! that its functions' contracts use.

use vstd::prelude::*;
use crate::anchors::{
    actor_uri_anchor_text, ap_uri_anchor_text, follow_dedup_text, follower_dedup_text,
    instance_config_anchor_text, interaction_dedup_text, path_components,
};
use crate::coordinator::{
    actor_ref_changed, candidate_matches, dedup_lookup, federated, instance_config_taken, listed,
    lookup_result, removal_from, with_ap_uri, InteractionCandidate, InteractionRemoval,
};
use crate::dht_model::{
    after_create, after_delete, base_key, kept_links, lemma_kept_links_append,
    lemma_kept_links_of_absent, lemma_targets_at_append, lemma_targets_of_two, planned_links,
    after_update, drop_value, lemma_drop_absent, lemma_drop_pushed, lemma_kept_targets,
    lemma_kept_targets_elsewhere, lemma_without_link_elsewhere, lemma_without_link_targets,
    only_link_to, without_link, read_agrees, reads_agree, removed_by, targets_at,
    BaseKey, DhtModel, StoredLink,
};
use crate::entries::{
    EntryKind, EntryTypes, InstanceConfig, LinkTypes, MewFederationState, RemoteActorRef,
    RemoteFollow, RemoteFollowStatus, RemoteFollower, RemoteInteraction,
};
use crate::hashes::{action_prefix, is_full_hash, LinkTarget};
use crate::s2s::{handle_of, handle_text, UrlPartsView};
use crate::zome_io::{
    from_action, from_agent, from_anchor, CreatePlan, DeletePlan, LinkBase, LinkPlan, RecordRead,
    TargetRead, UpdatePlan,
    ZomeError,
};

verus! {

/// Creation keyed by a dedup anchor is idempotent: once the anchor's first
/// link points at the action that created the entry, asking again finds that
/// action, and the creation functions then answer it without writing.
pub proof fn dedup_finds_created_entry(existing: Seq<LinkTarget>, created: Seq<u8>, t: LinkTypes)
    requires
        existing.len() > 0,
        existing[0]@ == created,
        is_full_hash(created, action_prefix()),
    ensures
        dedup_lookup(existing, t) == Ok::<Option<Seq<u8>>, ZomeError>(Some(created)),
{
}

/// A dedup anchor with no link lets the entry be created.
pub proof fn dedup_allows_first_creation(t: LinkTypes)
    ensures
        dedup_lookup(Seq::<LinkTarget>::empty(), t) == Ok::<Option<Seq<u8>>, ZomeError>(None),
{
}

/// For one agent, the follows (and the followers) of two different remote
/// actors have different dedup anchors, so neither hides the other.
pub proof fn dedup_anchors_tell_actors_apart(agent: Seq<u8>, uri1: Seq<char>, uri2: Seq<char>)
    requires
        uri1 != uri2,
    ensures
        follow_dedup_text(agent, uri1) != follow_dedup_text(agent, uri2),
        follower_dedup_text(agent, uri1) != follower_dedup_text(agent, uri2),
{
    let p1 = "follow:"@ + crate::hashes::holo_hash_text(agent) + ":"@;
    if follow_dedup_text(agent, uri1) == follow_dedup_text(agent, uri2) {
        assert((p1 + uri1).subrange(p1.len() as int, (p1 + uri1).len() as int) =~= uri1);
        assert((p1 + uri2).subrange(p1.len() as int, (p1 + uri2).len() as int) =~= uri2);
    }
    let p2 = "follower:"@ + crate::hashes::holo_hash_text(agent) + ":"@;
    if follower_dedup_text(agent, uri1) == follower_dedup_text(agent, uri2) {
        assert((p2 + uri1).subrange(p2.len() as int, (p2 + uri1).len() as int) =~= uri1);
        assert((p2 + uri2).subrange(p2.len() as int, (p2 + uri2).len() as int) =~= uri2);
    }
}

/// The anchors of the different families never coincide: a follow's dedup
/// anchor is never a follower's, and neither is the anchor of an interaction,
/// of an ActivityPub URI, of an actor URI or of the instance configuration.
pub proof fn anchor_families_are_disjoint(
    a: Seq<u8>,
    b: Seq<u8>,
    u: Seq<char>,
    v: Seq<char>,
)
    ensures
        follow_dedup_text(a, u) != follower_dedup_text(b, v),
        follow_dedup_text(a, u) != interaction_dedup_text(v),
        follower_dedup_text(a, u) != interaction_dedup_text(v),
        ap_uri_anchor_text(u) != actor_uri_anchor_text(v),
        ap_uri_anchor_text(u) != interaction_dedup_text(v),
        actor_uri_anchor_text(u) != interaction_dedup_text(v),
        ap_uri_anchor_text(u) != instance_config_anchor_text(),
        actor_uri_anchor_text(u) != instance_config_anchor_text(),
        interaction_dedup_text(u) != instance_config_anchor_text(),
{
    reveal_strlit("follow:");
    reveal_strlit("follower:");
    reveal_strlit("interaction_activity:");
    reveal_strlit("ap_uri:");
    reveal_strlit("actor_uri:");
    reveal_strlit("federation_instance_config");
    let f = follow_dedup_text(a, u);
    let g = follower_dedup_text(b, v);
    assert(f[6] == ':');
    assert(g[6] == 'e');
    assert(f[0] == 'f');
    assert(g[0] == 'f');
    assert(interaction_dedup_text(v)[0] == 'i');
    assert(ap_uri_anchor_text(u)[1] == 'p');
    assert(actor_uri_anchor_text(v)[1] == 'c');
    assert(actor_uri_anchor_text(u)[0] == 'a');
    assert(ap_uri_anchor_text(u)[0] == 'a');
    assert(instance_config_anchor_text()[0] == 'f');
}

/// Upserting a reference with the same fields as the cached one changes
/// nothing, so caching an actor twice writes once.
pub proof fn upsert_of_same_actor_keeps(cached: RemoteActorRef, offered: RemoteActorRef)
    requires
        cached.actor_uri@ == offered.actor_uri@,
        cached.handle@ == offered.handle@,
        cached.display_name.is_some() == offered.display_name.is_some(),
        cached.display_name matches Some(a) ==> a@ == offered.display_name->Some_0@,
    ensures
        !actor_ref_changed(cached, offered),
{
}

/// Every entry a listing returns was found behind one of the links read, so
/// a listing is never longer than the links it read.
pub proof fn listing_is_bounded_by_links<T>(reads: Seq<TargetRead<T>>, t: LinkTypes, k: EntryKind)
    ensures
        listed(reads, t, k) matches Ok(s) ==> s.len() <= reads.len(),
    decreases reads.len(),
{
    if reads.len() > 0 {
        listing_is_bounded_by_links(reads.drop_last(), t, k);
    }
}

/// The federated mews of an agent never include one kept on Holochain only.
pub proof fn federated_mews_exclude_holochain_only(reads: Seq<TargetRead<MewFederationState>>)
    ensures
        federated(reads) matches Ok(s) ==> forall|i: int|
            0 <= i < s.len() ==> !(#[trigger] s[i].visibility is HolochainOnly),
    decreases reads.len(),
{
    if reads.len() > 0 {
        federated_mews_exclude_holochain_only(reads.drop_last());
    }
}

/// Deleting an interaction removes the first interaction on the mew with
/// the activity URI asked for: no earlier link holds one.
pub proof fn removal_takes_first_match(c: Seq<InteractionCandidate>, uri: Seq<char>, from: int)
    requires
        0 <= from,
    ensures
        removal_from(c, uri, from) matches Ok(i) ==> {
            &&& from <= i < c.len()
            &&& candidate_matches(c[i], uri)
            &&& forall|j: int| from <= j < i ==> !candidate_matches(#[trigger] c[j], uri)
        },
    decreases c.len() - from,
{
    if from < c.len() {
        removal_takes_first_match(c, uri, from + 1);
    }
}

/// A fediverse handle always has the form `@user@host`.
pub proof fn handle_has_two_parts(parsed: Result<UrlPartsView, Seq<char>>)
    ensures
        exists|user: Seq<char>, host: Seq<char>| handle_text(parsed) == #[trigger] handle_of(user, host),
{
    match parsed {
        Err(_) => {
            assert(handle_text(parsed) == handle_of("unknown"@, "unknown"@));
        },
        Ok(parts) => {
            let host = match parts.host {
                Some(h) => h,
                None => "unknown"@,
            };
            let user = match parts.path_segments {
                Some(segments) => match crate::s2s::user_after_users(segments) {
                    Some(u) => u,
                    None => "unknown"@,
                },
                None => "unknown"@,
            };
            assert(handle_text(parsed) == handle_of(user, host));
        },
    }
}


/// The DHT base of the anchor written `text`.
pub open spec fn anchor_key(text: Seq<char>) -> BaseKey {
    BaseKey::Anchor(path_components(text))
}

/// The instance configuration an entry holds, if it holds one.
pub open spec fn config_entry(e: EntryTypes) -> Option<InstanceConfig> {
    match e {
        EntryTypes::InstanceConfig(c) => Some(c),
        _ => None,
    }
}

/// The inbound follower an entry holds, if it holds one.
pub open spec fn follower_entry(e: EntryTypes) -> Option<RemoteFollower> {
    match e {
        EntryTypes::RemoteFollower(f) => Some(f),
        _ => None,
    }
}

/// The outbound follow an entry holds, if it holds one.
pub open spec fn follow_entry(e: EntryTypes) -> Option<RemoteFollow> {
    match e {
        EntryTypes::RemoteFollow(f) => Some(f),
        _ => None,
    }
}

/// On a network that has none, the configuration that `set_instance_config`
/// stores is the one `get_instance_config` then gives back; and since its
/// anchor now has a link, a second `set_instance_config` is refused.
pub proof fn instance_config_set_then_get(
    d: DhtModel,
    config: InstanceConfig,
    plan: CreatePlan,
    created: Seq<u8>,
    link_hashes: Seq<Seq<u8>>,
)
    requires
        targets_at(
            d.links,
            anchor_key(instance_config_anchor_text()),
            LinkTypes::AnchorToInstanceConfig,
        ).len() == 0,
        plan.entry == EntryTypes::InstanceConfig(config),
        plan.links@.len() == 1,
        from_anchor(plan.links@[0], instance_config_anchor_text(), LinkTypes::AnchorToInstanceConfig),
        is_full_hash(created, action_prefix()),
        link_hashes.len() == 1,
    ensures
        ({
            let d1 = after_create(d, plan, created, link_hashes);
            let found = targets_at(
                d1.links,
                anchor_key(instance_config_anchor_text()),
                LinkTypes::AnchorToInstanceConfig,
            );
            &&& found == seq![created]
            &&& forall|existing: Seq<LinkTarget>|
                existing.map_values(|x: LinkTarget| x@) == found ==> instance_config_taken(existing)
            &&& forall|first: TargetRead<InstanceConfig>|
                read_agrees(d1, found[0], first, |e: EntryTypes| config_entry(e)) ==> lookup_result(
                    Some(first),
                    LinkTypes::AnchorToInstanceConfig,
                    EntryKind::InstanceConfig,
                ) == Ok::<Option<InstanceConfig>, ZomeError>(Some(config))
        }),
{
    let key = anchor_key(instance_config_anchor_text());
    let t = LinkTypes::AnchorToInstanceConfig;
    let new_links = planned_links(plan.links@, created, link_hashes);
    lemma_targets_at_append(d.links, new_links, key, t);
    assert(new_links.drop_last() =~= Seq::<StoredLink>::empty());
    assert(targets_at(new_links.drop_last(), key, t) =~= Seq::<Seq<u8>>::empty());
    assert(targets_at(d.links, key, t) =~= Seq::<Seq<u8>>::empty());
    assert(targets_at(new_links, key, t) =~= seq![created]);
    assert(targets_at(d.links, key, t) + targets_at(new_links, key, t) =~= seq![created]);
    assert forall|existing: Seq<LinkTarget>|
        existing.map_values(|x: LinkTarget| x@) == seq![created] implies instance_config_taken(
        existing,
    ) by {
        assert(existing.map_values(|x: LinkTarget| x@).len() == existing.len());
    }
}

/// A listing result with `item` after what `r` lists, or `r`'s error.
pub open spec fn listed_then<T>(r: Result<Seq<T>, ZomeError>, item: T) -> Result<Seq<T>, ZomeError> {
    match r {
        Ok(v) => Ok(v.push(item)),
        Err(e) => Err(e),
    }
}

/// The targets after creating an entry linked from `base` and from a dedup
/// anchor that has no link yet: the new action joins the base's targets at
/// the end and is the dedup anchor's only target.
proof fn lemma_created_targets(
    d: DhtModel,
    base: BaseKey,
    base_type: LinkTypes,
    dedup_text: Seq<char>,
    dedup_type: LinkTypes,
    plan: CreatePlan,
    created: Seq<u8>,
    link_hashes: Seq<Seq<u8>>,
)
    requires
        base_type != dedup_type,
        targets_at(d.links, anchor_key(dedup_text), dedup_type).len() == 0,
        plan.links@.len() == 2,
        base_key(plan.links@[0].base) == base,
        plan.links@[0].link_type == base_type,
        from_anchor(plan.links@[1], dedup_text, dedup_type),
        link_hashes.len() == 2,
    ensures
        ({
            let d1 = after_create(d, plan, created, link_hashes);
            &&& targets_at(d1.links, anchor_key(dedup_text), dedup_type) == seq![created]
            &&& targets_at(d1.links, base, base_type) == targets_at(d.links, base, base_type).push(
                created,
            )
        }),
{
    let dedup = anchor_key(dedup_text);
    let new_links = planned_links(plan.links@, created, link_hashes);
    let d1 = after_create(d, plan, created, link_hashes);
    assert(new_links[0].base == base);
    assert(new_links[1].base == dedup);
    lemma_targets_of_two(new_links, base, base_type);
    lemma_targets_of_two(new_links, dedup, dedup_type);
    lemma_targets_at_append(d.links, new_links, base, base_type);
    lemma_targets_at_append(d.links, new_links, dedup, dedup_type);
    assert(targets_at(d.links, dedup, dedup_type) =~= Seq::<Seq<u8>>::empty());
    assert(targets_at(d1.links, dedup, dedup_type) =~= seq![created]);
    assert(targets_at(d1.links, base, base_type) =~= targets_at(d.links, base, base_type).push(
        created,
    ));
}

/// Reads of targets whose last one leads to `item` list what the earlier
/// reads list, then `item`.
proof fn lemma_listing_ends_with<T>(
    d1: DhtModel,
    targets: Seq<Seq<u8>>,
    reads: Seq<TargetRead<T>>,
    entry_of: spec_fn(EntryTypes) -> Option<T>,
    created: Seq<u8>,
    item: T,
    t: LinkTypes,
    kind: EntryKind,
)
    requires
        targets.len() > 0,
        targets.last() == created,
        is_full_hash(created, action_prefix()),
        d1.records.contains_key(created),
        entry_of(d1.records[created]) == Some(item),
        reads_agree(d1, targets, reads, entry_of),
    ensures
        listed(reads, t, kind) == listed_then(listed(reads.drop_last(), t, kind), item),
{
    assert(read_agrees(d1, targets[targets.len() - 1], reads[reads.len() - 1], entry_of));
    assert(reads.last() == reads[reads.len() - 1]);
}

/// The creation of an entry under a dedup anchor that has no link yet,
/// linked also from a base of its own: afterwards the dedup anchor finds
/// exactly the new action, and the base's listing is what it was, then the
/// entry.
proof fn lemma_dedup_creation<T>(
    d: DhtModel,
    item: T,
    entry_of: spec_fn(EntryTypes) -> Option<T>,
    base: BaseKey,
    base_type: LinkTypes,
    dedup_text: Seq<char>,
    dedup_type: LinkTypes,
    kind: EntryKind,
    plan: CreatePlan,
    created: Seq<u8>,
    link_hashes: Seq<Seq<u8>>,
)
    requires
        base_type != dedup_type,
        entry_of(plan.entry) == Some(item),
        targets_at(d.links, anchor_key(dedup_text), dedup_type).len() == 0,
        plan.links@.len() == 2,
        base_key(plan.links@[0].base) == base,
        plan.links@[0].link_type == base_type,
        from_anchor(plan.links@[1], dedup_text, dedup_type),
        is_full_hash(created, action_prefix()),
        link_hashes.len() == 2,
    ensures
        ({
            let d1 = after_create(d, plan, created, link_hashes);
            &&& targets_at(d1.links, anchor_key(dedup_text), dedup_type) == seq![created]
            &&& targets_at(d1.links, base, base_type) == targets_at(d.links, base, base_type).push(
                created,
            )
            &&& forall|existing: Seq<LinkTarget>|
                existing.map_values(|x: LinkTarget| x@) == targets_at(
                    d1.links,
                    anchor_key(dedup_text),
                    dedup_type,
                ) ==> dedup_lookup(existing, dedup_type) == Ok::<Option<Seq<u8>>, ZomeError>(
                    Some(created),
                )
            &&& forall|reads: Seq<TargetRead<T>>|
                reads_agree(d1, targets_at(d1.links, base, base_type), reads, entry_of) ==> listed(
                    reads,
                    base_type,
                    kind,
                ) == listed_then(listed(reads.drop_last(), base_type, kind), item)
        }),
{
    let dedup = anchor_key(dedup_text);
    let d1 = after_create(d, plan, created, link_hashes);
    lemma_created_targets(d, base, base_type, dedup_text, dedup_type, plan, created, link_hashes);
    assert forall|existing: Seq<LinkTarget>|
        existing.map_values(|x: LinkTarget| x@) == targets_at(d1.links, dedup, dedup_type) implies dedup_lookup(
        existing,
        dedup_type,
    ) == Ok::<Option<Seq<u8>>, ZomeError>(Some(created)) by {
        assert(existing.map_values(|x: LinkTarget| x@).len() == existing.len());
        assert(existing.map_values(|x: LinkTarget| x@)[0] == existing[0]@);
    }
    assert forall|reads: Seq<TargetRead<T>>|
        reads_agree(d1, targets_at(d1.links, base, base_type), reads, entry_of) implies listed(
            reads,
            base_type,
            kind,
        ) == listed_then(listed(reads.drop_last(), base_type, kind), item) by {
        assert(d1.records[created] == plan.entry);
        lemma_listing_ends_with(
            d1,
            targets_at(d1.links, base, base_type),
            reads,
            entry_of,
            created,
            item,
            base_type,
            kind,
        );
    }
}

/// The deletion of an entry created as in `lemma_dedup_creation`: the base
/// is left with exactly the targets it had before the creation, and the
/// dedup anchor with none, so a new creation under it writes a fresh entry.
proof fn lemma_dedup_deletion(
    d: DhtModel,
    base: BaseKey,
    base_type: LinkTypes,
    dedup_text: Seq<char>,
    dedup_type: LinkTypes,
    plan: CreatePlan,
    created: Seq<u8>,
    link_hashes: Seq<Seq<u8>>,
    removal: DeletePlan,
)
    requires
        base_type != dedup_type,
        !targets_at(d.links, base, base_type).contains(created),
        targets_at(d.links, anchor_key(dedup_text), dedup_type).len() == 0,
        plan.links@.len() == 2,
        base_key(plan.links@[0].base) == base,
        plan.links@[0].link_type == base_type,
        from_anchor(plan.links@[1], dedup_text, dedup_type),
        link_hashes.len() == 2,
        removal.entry@ == created,
        removal.link_sets@.len() == 2,
        base_key(removal.link_sets@[0].base) == base,
        removal.link_sets@[0].link_type == base_type,
        from_anchor(removal.link_sets@[1], dedup_text, dedup_type),
    ensures
        ({
            let d2 = after_delete(after_create(d, plan, created, link_hashes), removal);
            &&& targets_at(d2.links, base, base_type) == targets_at(d.links, base, base_type)
            &&& targets_at(d2.links, anchor_key(dedup_text), dedup_type).len() == 0
            &&& forall|existing: Seq<LinkTarget>|
                existing.map_values(|x: LinkTarget| x@) == targets_at(
                    d2.links,
                    anchor_key(dedup_text),
                    dedup_type,
                ) ==> dedup_lookup(existing, dedup_type) == Ok::<Option<Seq<u8>>, ZomeError>(None)
        }),
{
    let dedup = anchor_key(dedup_text);
    let d1 = after_create(d, plan, created, link_hashes);
    let d2 = after_delete(d1, removal);
    let before = targets_at(d.links, base, base_type);
    lemma_created_targets(d, base, base_type, dedup_text, dedup_type, plan, created, link_hashes);
    lemma_kept_targets(d1.links, created, removal.link_sets@, 0, base, base_type);
    lemma_kept_targets(d1.links, created, removal.link_sets@, 1, dedup, dedup_type);
    lemma_drop_pushed(before, created);
    lemma_drop_absent(before, created);
    lemma_drop_only(created);
    assert forall|existing: Seq<LinkTarget>|
        existing.map_values(|x: LinkTarget| x@) == targets_at(d2.links, dedup, dedup_type) implies dedup_lookup(
        existing,
        dedup_type,
    ) == Ok::<Option<Seq<u8>>, ZomeError>(None) by {
        assert(existing.map_values(|x: LinkTarget| x@).len() == existing.len());
    }
}

/// An inbound follower's life, whatever links its agent has already: when the
/// dedup anchor has none yet, creating it makes a second creation find the
/// same action (idempotency; the dedup anchor depends on the agent and the
/// remote actor URI alone, not on when the follow began); the agent's listing is what it was, then
/// the new entry; after its deletion the agent is left with exactly the links
/// it had before, the dedup anchor with none, and creating it again writes a
/// fresh entry.
pub proof fn remote_follower_lifecycle(
    d: DhtModel,
    follower: RemoteFollower,
    plan: CreatePlan,
    created: Seq<u8>,
    link_hashes: Seq<Seq<u8>>,
    removal: DeletePlan,
)
    requires
        !targets_at(d.links, BaseKey::Agent(follower.local_agent@), LinkTypes::AgentToRemoteFollowers).contains(
            created,
        ),
        targets_at(
            d.links,
            anchor_key(follower_dedup_text(follower.local_agent@, follower.remote_actor_uri@)),
            LinkTypes::FollowerDedupToRemoteFollower,
        ).len() == 0,
        plan.entry == EntryTypes::RemoteFollower(follower),
        plan.links@.len() == 2,
        from_agent(plan.links@[0], follower.local_agent@, LinkTypes::AgentToRemoteFollowers),
        from_anchor(
            plan.links@[1],
            follower_dedup_text(follower.local_agent@, follower.remote_actor_uri@),
            LinkTypes::FollowerDedupToRemoteFollower,
        ),
        is_full_hash(created, action_prefix()),
        link_hashes.len() == 2,
        removal.entry@ == created,
        removal.link_sets@.len() == 2,
        from_agent(removal.link_sets@[0], follower.local_agent@, LinkTypes::AgentToRemoteFollowers),
        from_anchor(
            removal.link_sets@[1],
            follower_dedup_text(follower.local_agent@, follower.remote_actor_uri@),
            LinkTypes::FollowerDedupToRemoteFollower,
        ),
    ensures
        ({
            let agent = BaseKey::Agent(follower.local_agent@);
            let dedup = anchor_key(follower_dedup_text(follower.local_agent@, follower.remote_actor_uri@));
            let d1 = after_create(d, plan, created, link_hashes);
            let d2 = after_delete(d1, removal);
            &&& forall|other: RemoteFollower|
                other.local_agent@ == follower.local_agent@ && other.remote_actor_uri@
                    == follower.remote_actor_uri@ ==> anchor_key(
                    follower_dedup_text(other.local_agent@, other.remote_actor_uri@),
                ) == dedup
            &&& forall|existing: Seq<LinkTarget>|
                existing.map_values(|x: LinkTarget| x@) == targets_at(
                    d1.links,
                    dedup,
                    LinkTypes::FollowerDedupToRemoteFollower,
                ) ==> dedup_lookup(existing, LinkTypes::FollowerDedupToRemoteFollower) == Ok::<
                    Option<Seq<u8>>,
                    ZomeError,
                >(Some(created))
            &&& targets_at(d1.links, agent, LinkTypes::AgentToRemoteFollowers) == targets_at(
                d.links,
                agent,
                LinkTypes::AgentToRemoteFollowers,
            ).push(created)
            &&& forall|reads: Seq<TargetRead<RemoteFollower>>|
                reads_agree(
                    d1,
                    targets_at(d1.links, agent, LinkTypes::AgentToRemoteFollowers),
                    reads,
                    |e: EntryTypes| follower_entry(e),
                ) ==> listed(reads, LinkTypes::AgentToRemoteFollowers, EntryKind::RemoteFollower) == listed_then(
                    listed(reads.drop_last(), LinkTypes::AgentToRemoteFollowers, EntryKind::RemoteFollower),
                    follower,
                )
            &&& targets_at(d2.links, agent, LinkTypes::AgentToRemoteFollowers) == targets_at(
                d.links,
                agent,
                LinkTypes::AgentToRemoteFollowers,
            )
            &&& targets_at(d2.links, dedup, LinkTypes::FollowerDedupToRemoteFollower).len() == 0
            &&& forall|existing: Seq<LinkTarget>|
                existing.map_values(|x: LinkTarget| x@) == targets_at(
                    d2.links,
                    dedup,
                    LinkTypes::FollowerDedupToRemoteFollower,
                ) ==> dedup_lookup(existing, LinkTypes::FollowerDedupToRemoteFollower) == Ok::<
                    Option<Seq<u8>>,
                    ZomeError,
                >(None)
        }),
{
    let dedup_text = follower_dedup_text(follower.local_agent@, follower.remote_actor_uri@);
    let agent = BaseKey::Agent(follower.local_agent@);
    lemma_dedup_creation(
        d,
        follower,
        |e: EntryTypes| follower_entry(e),
        agent,
        LinkTypes::AgentToRemoteFollowers,
        dedup_text,
        LinkTypes::FollowerDedupToRemoteFollower,
        EntryKind::RemoteFollower,
        plan,
        created,
        link_hashes,
    );
    lemma_dedup_deletion(
        d,
        agent,
        LinkTypes::AgentToRemoteFollowers,
        dedup_text,
        LinkTypes::FollowerDedupToRemoteFollower,
        plan,
        created,
        link_hashes,
        removal,
    );
}

/// An outbound follow's life, whatever links its agent has already: when the
/// dedup anchor has none yet, creating it makes a second creation find the
/// same action (idempotency; the dedup anchor depends on the agent and the
/// remote actor URI alone, not on the status); the agent's listing is what it was, then
/// the new entry; after its deletion the agent is left with exactly the links
/// it had before, the dedup anchor with none, and creating it again writes a
/// fresh entry.
pub proof fn remote_follow_lifecycle(
    d: DhtModel,
    follow: RemoteFollow,
    plan: CreatePlan,
    created: Seq<u8>,
    link_hashes: Seq<Seq<u8>>,
    removal: DeletePlan,
)
    requires
        !targets_at(d.links, BaseKey::Agent(follow.local_agent@), LinkTypes::AgentToRemoteFollows).contains(
            created,
        ),
        targets_at(
            d.links,
            anchor_key(follow_dedup_text(follow.local_agent@, follow.remote_actor_uri@)),
            LinkTypes::FollowDedupToRemoteFollow,
        ).len() == 0,
        plan.entry == EntryTypes::RemoteFollow(follow),
        plan.links@.len() == 2,
        from_agent(plan.links@[0], follow.local_agent@, LinkTypes::AgentToRemoteFollows),
        from_anchor(
            plan.links@[1],
            follow_dedup_text(follow.local_agent@, follow.remote_actor_uri@),
            LinkTypes::FollowDedupToRemoteFollow,
        ),
        is_full_hash(created, action_prefix()),
        link_hashes.len() == 2,
        removal.entry@ == created,
        removal.link_sets@.len() == 2,
        from_agent(removal.link_sets@[0], follow.local_agent@, LinkTypes::AgentToRemoteFollows),
        from_anchor(
            removal.link_sets@[1],
            follow_dedup_text(follow.local_agent@, follow.remote_actor_uri@),
            LinkTypes::FollowDedupToRemoteFollow,
        ),
    ensures
        ({
            let agent = BaseKey::Agent(follow.local_agent@);
            let dedup = anchor_key(follow_dedup_text(follow.local_agent@, follow.remote_actor_uri@));
            let d1 = after_create(d, plan, created, link_hashes);
            let d2 = after_delete(d1, removal);
            &&& forall|other: RemoteFollow|
                other.local_agent@ == follow.local_agent@ && other.remote_actor_uri@
                    == follow.remote_actor_uri@ ==> anchor_key(
                    follow_dedup_text(other.local_agent@, other.remote_actor_uri@),
                ) == dedup
            &&& forall|existing: Seq<LinkTarget>|
                existing.map_values(|x: LinkTarget| x@) == targets_at(
                    d1.links,
                    dedup,
                    LinkTypes::FollowDedupToRemoteFollow,
                ) ==> dedup_lookup(existing, LinkTypes::FollowDedupToRemoteFollow) == Ok::<
                    Option<Seq<u8>>,
                    ZomeError,
                >(Some(created))
            &&& targets_at(d1.links, agent, LinkTypes::AgentToRemoteFollows) == targets_at(
                d.links,
                agent,
                LinkTypes::AgentToRemoteFollows,
            ).push(created)
            &&& forall|reads: Seq<TargetRead<RemoteFollow>>|
                reads_agree(
                    d1,
                    targets_at(d1.links, agent, LinkTypes::AgentToRemoteFollows),
                    reads,
                    |e: EntryTypes| follow_entry(e),
                ) ==> listed(reads, LinkTypes::AgentToRemoteFollows, EntryKind::RemoteFollow) == listed_then(
                    listed(reads.drop_last(), LinkTypes::AgentToRemoteFollows, EntryKind::RemoteFollow),
                    follow,
                )
            &&& targets_at(d2.links, agent, LinkTypes::AgentToRemoteFollows) == targets_at(
                d.links,
                agent,
                LinkTypes::AgentToRemoteFollows,
            )
            &&& targets_at(d2.links, dedup, LinkTypes::FollowDedupToRemoteFollow).len() == 0
            &&& forall|existing: Seq<LinkTarget>|
                existing.map_values(|x: LinkTarget| x@) == targets_at(
                    d2.links,
                    dedup,
                    LinkTypes::FollowDedupToRemoteFollow,
                ) ==> dedup_lookup(existing, LinkTypes::FollowDedupToRemoteFollow) == Ok::<
                    Option<Seq<u8>>,
                    ZomeError,
                >(None)
        }),
{
    let dedup_text = follow_dedup_text(follow.local_agent@, follow.remote_actor_uri@);
    let agent = BaseKey::Agent(follow.local_agent@);
    lemma_dedup_creation(
        d,
        follow,
        |e: EntryTypes| follow_entry(e),
        agent,
        LinkTypes::AgentToRemoteFollows,
        dedup_text,
        LinkTypes::FollowDedupToRemoteFollow,
        EntryKind::RemoteFollow,
        plan,
        created,
        link_hashes,
    );
    lemma_dedup_deletion(
        d,
        agent,
        LinkTypes::AgentToRemoteFollows,
        dedup_text,
        LinkTypes::FollowDedupToRemoteFollow,
        plan,
        created,
        link_hashes,
        removal,
    );
}

/// The federation state an entry holds, if it holds one.
pub open spec fn state_entry(e: EntryTypes) -> Option<MewFederationState> {
    match e {
        EntryTypes::MewFederationState(s) => Some(s),
        _ => None,
    }
}

/// The targets of a base and type among one planned link.
proof fn lemma_targets_of_one(links: Seq<StoredLink>, base: BaseKey, t: LinkTypes)
    requires
        links.len() == 1,
    ensures
        targets_at(links, base, t) == (if links[0].base == base && links[0].link_type == t {
            seq![links[0].target]
        } else {
            seq![]
        }),
{
    assert(links.drop_last().len() == 0);
    assert(targets_at(links.drop_last(), base, t) =~= Seq::<Seq<u8>>::empty());
    assert(links.last() == links[0]);
    assert(Seq::<Seq<u8>>::empty().push(links[0].target) =~= seq![links[0].target]);
}

/// On a network where the mew has no federation state yet, and no state is
/// linked from its ActivityPub URI, the state that
/// `create_mew_federation_state` writes is the one that
/// `get_mew_federation_state` then finds for the mew and, when the state has
/// a URI, the one that `get_mew_by_ap_uri` finds for that URI.
pub proof fn federation_state_found_after_creation(
    d: DhtModel,
    state: MewFederationState,
    plan: CreatePlan,
    created: Seq<u8>,
    link_hashes: Seq<Seq<u8>>,
)
    requires
        targets_at(d.links, BaseKey::Action(state.mew_hash@), LinkTypes::MewToFederationState).len()
            == 0,
        state.ap_uri matches Some(uri) ==> targets_at(
            d.links,
            anchor_key(ap_uri_anchor_text(uri@)),
            LinkTypes::ApUriToFederationState,
        ).len() == 0,
        plan.entry == EntryTypes::MewFederationState(state),
        plan.links@.len() == (if state.ap_uri is Some { 2int } else { 1int }),
        from_action(plan.links@[0], state.mew_hash@, LinkTypes::MewToFederationState),
        state.ap_uri matches Some(uri) ==> from_anchor(
            plan.links@[1],
            ap_uri_anchor_text(uri@),
            LinkTypes::ApUriToFederationState,
        ),
        is_full_hash(created, action_prefix()),
        link_hashes.len() == plan.links@.len(),
    ensures
        ({
            let d1 = after_create(d, plan, created, link_hashes);
            let by_mew = targets_at(
                d1.links,
                BaseKey::Action(state.mew_hash@),
                LinkTypes::MewToFederationState,
            );
            &&& by_mew == seq![created]
            &&& forall|first: TargetRead<MewFederationState>|
                read_agrees(d1, by_mew[0], first, |e: EntryTypes| state_entry(e)) ==> lookup_result(
                    Some(first),
                    LinkTypes::MewToFederationState,
                    EntryKind::MewFederationState,
                ) == Ok::<Option<MewFederationState>, ZomeError>(Some(state))
            &&& state.ap_uri matches Some(uri) ==> {
                let by_uri = targets_at(
                    d1.links,
                    anchor_key(ap_uri_anchor_text(uri@)),
                    LinkTypes::ApUriToFederationState,
                );
                &&& by_uri == seq![created]
                &&& forall|first: TargetRead<MewFederationState>|
                    read_agrees(d1, by_uri[0], first, |e: EntryTypes| state_entry(e))
                        ==> lookup_result(
                        Some(first),
                        LinkTypes::ApUriToFederationState,
                        EntryKind::MewFederationState,
                    ) == Ok::<Option<MewFederationState>, ZomeError>(Some(state))
            }
        }),
{
    let mew = BaseKey::Action(state.mew_hash@);
    let mt = LinkTypes::MewToFederationState;
    let ut = LinkTypes::ApUriToFederationState;
    let new_links = planned_links(plan.links@, created, link_hashes);
    let d1 = after_create(d, plan, created, link_hashes);
    assert(new_links[0].base == mew);
    lemma_targets_at_append(d.links, new_links, mew, mt);
    assert(targets_at(d.links, mew, mt) =~= Seq::<Seq<u8>>::empty());
    match state.ap_uri {
        Some(uri) => {
            let key = anchor_key(ap_uri_anchor_text(uri@));
            assert(new_links[1].base == key);
            lemma_targets_of_two(new_links, mew, mt);
            lemma_targets_of_two(new_links, key, ut);
            lemma_targets_at_append(d.links, new_links, key, ut);
            assert(targets_at(d.links, key, ut) =~= Seq::<Seq<u8>>::empty());
            assert(targets_at(d1.links, key, ut) =~= seq![created]);
        },
        None => {
            lemma_targets_of_one(new_links, mew, mt);
        },
    }
    assert(targets_at(d1.links, mew, mt) =~= seq![created]);
}

/// `drop_value` of a single value.
pub proof fn lemma_drop_only(x: Seq<u8>)
    ensures
        drop_value(seq![x], x) == Seq::<Seq<u8>>::empty(),
{
    let s = seq![x];
    assert(s.len() == 1);
    assert(s.last() == x);
    assert(s.drop_last() =~= Seq::<Seq<u8>>::empty());
    assert(drop_value(s.drop_last(), x) =~= Seq::<Seq<u8>>::empty());
}

/// An update moves links: from each base and type that its `unlinks` name,
/// exactly the original action leaves the targets found there, the others
/// keep their order, and the new links to the updating action follow.
pub proof fn update_moves_links(
    d: DhtModel,
    plan: UpdatePlan,
    updated: Seq<u8>,
    link_hashes: Seq<Seq<u8>>,
    j: int,
    base: BaseKey,
    t: LinkTypes,
)
    requires
        0 <= j < plan.unlinks@.len(),
        base_key(plan.unlinks@[j].base) == base,
        plan.unlinks@[j].link_type == t,
    ensures
        targets_at(after_update(d, plan, updated, link_hashes).links, base, t) == drop_value(
            targets_at(d.links, base, t),
            plan.original@,
        ) + targets_at(planned_links(plan.links@, updated, link_hashes), base, t),
{
    let kept = kept_links(d.links, plan.original@, plan.unlinks@);
    lemma_targets_at_append(kept, planned_links(plan.links@, updated, link_hashes), base, t);
    lemma_kept_targets(d.links, plan.original@, plan.unlinks@, j, base, t);
}

/// A deletion takes exactly the deleted action out of the targets found at
/// each base and type that its link sets name; the other targets, and so the
/// other entries of a listing, stay in their order.
pub proof fn deletion_keeps_other_links(d: DhtModel, plan: DeletePlan, j: int, base: BaseKey, t: LinkTypes)
    requires
        0 <= j < plan.link_sets@.len(),
        base_key(plan.link_sets@[j].base) == base,
        plan.link_sets@[j].link_type == t,
    ensures
        targets_at(after_delete(d, plan).links, base, t) == drop_value(
            targets_at(d.links, base, t),
            plan.entry@,
        ),
{
    lemma_kept_targets(d.links, plan.entry@, plan.link_sets@, j, base, t);
}

/// An outbound follow whose dedup anchor leads to `original`, given a new
/// status by `update_remote_follow_status`, whatever other follows its agent
/// has: the agent's targets lose `original` and gain the new version at the
/// end, the dedup anchor leads to the new version alone, the listing ends
/// with the follow carrying its new status, and creating the follow again
/// answers the new version.
pub proof fn follow_status_update_is_seen(
    d: DhtModel,
    follow: RemoteFollow,
    original: Seq<u8>,
    status: RemoteFollowStatus,
    update: UpdatePlan,
    updated: Seq<u8>,
    update_link_hashes: Seq<Seq<u8>>,
)
    requires
        targets_at(
            d.links,
            anchor_key(follow_dedup_text(follow.local_agent@, follow.remote_actor_uri@)),
            LinkTypes::FollowDedupToRemoteFollow,
        ) == seq![original],
        update.original@ == original,
        update.entry == EntryTypes::RemoteFollow(RemoteFollow { status, ..follow }),
        update.unlinks@.len() == 2,
        from_agent(update.unlinks@[0], follow.local_agent@, LinkTypes::AgentToRemoteFollows),
        from_anchor(
            update.unlinks@[1],
            follow_dedup_text(follow.local_agent@, follow.remote_actor_uri@),
            LinkTypes::FollowDedupToRemoteFollow,
        ),
        update.links@.len() == 2,
        from_agent(update.links@[0], follow.local_agent@, LinkTypes::AgentToRemoteFollows),
        from_anchor(
            update.links@[1],
            follow_dedup_text(follow.local_agent@, follow.remote_actor_uri@),
            LinkTypes::FollowDedupToRemoteFollow,
        ),
        is_full_hash(updated, action_prefix()),
        update_link_hashes.len() == 2,
    ensures
        ({
            let agent = BaseKey::Agent(follow.local_agent@);
            let dedup = anchor_key(follow_dedup_text(follow.local_agent@, follow.remote_actor_uri@));
            let d2 = after_update(d, update, updated, update_link_hashes);
            &&& targets_at(d2.links, agent, LinkTypes::AgentToRemoteFollows) == drop_value(
                targets_at(d.links, agent, LinkTypes::AgentToRemoteFollows),
                original,
            ).push(updated)
            &&& targets_at(d2.links, dedup, LinkTypes::FollowDedupToRemoteFollow) == seq![updated]
            &&& forall|reads: Seq<TargetRead<RemoteFollow>>|
                reads_agree(
                    d2,
                    targets_at(d2.links, agent, LinkTypes::AgentToRemoteFollows),
                    reads,
                    |e: EntryTypes| follow_entry(e),
                ) ==> listed(reads, LinkTypes::AgentToRemoteFollows, EntryKind::RemoteFollow)
                    == listed_then(
                    listed(reads.drop_last(), LinkTypes::AgentToRemoteFollows, EntryKind::RemoteFollow),
                    RemoteFollow { status, ..follow },
                )
            &&& forall|existing: Seq<LinkTarget>|
                existing.map_values(|x: LinkTarget| x@) == targets_at(
                    d2.links,
                    dedup,
                    LinkTypes::FollowDedupToRemoteFollow,
                ) ==> dedup_lookup(existing, LinkTypes::FollowDedupToRemoteFollow) == Ok::<
                    Option<Seq<u8>>,
                    ZomeError,
                >(Some(updated))
        }),
{
    let agent = BaseKey::Agent(follow.local_agent@);
    let at = LinkTypes::AgentToRemoteFollows;
    let dt = LinkTypes::FollowDedupToRemoteFollow;
    let dedup = anchor_key(follow_dedup_text(follow.local_agent@, follow.remote_actor_uri@));
    let d2 = after_update(d, update, updated, update_link_hashes);
    let new_links = planned_links(update.links@, updated, update_link_hashes);
    update_moves_links(d, update, updated, update_link_hashes, 0, agent, at);
    update_moves_links(d, update, updated, update_link_hashes, 1, dedup, dt);
    lemma_drop_only(original);
    assert(new_links[0].base == agent);
    assert(new_links[1].base == dedup);
    lemma_targets_of_two(new_links, agent, at);
    lemma_targets_of_two(new_links, dedup, dt);
    let before = drop_value(targets_at(d.links, agent, at), original);
    assert(before + seq![updated] =~= before.push(updated));
    assert(Seq::<Seq<u8>>::empty() + seq![updated] =~= seq![updated]);
    let new_follow = RemoteFollow { status, ..follow };
    assert forall|reads: Seq<TargetRead<RemoteFollow>>|
        reads_agree(d2, targets_at(d2.links, agent, at), reads, |e: EntryTypes| follow_entry(e))
            implies listed(reads, at, EntryKind::RemoteFollow) == listed_then(
        listed(reads.drop_last(), at, EntryKind::RemoteFollow),
        new_follow,
    ) by {
        assert(d2.records[updated] == update.entry);
        lemma_listing_ends_with(
            d2,
            targets_at(d2.links, agent, at),
            reads,
            |e: EntryTypes| follow_entry(e),
            updated,
            new_follow,
            at,
            EntryKind::RemoteFollow,
        );
    }
    assert forall|existing: Seq<LinkTarget>|
        existing.map_values(|x: LinkTarget| x@) == targets_at(d2.links, dedup, dt) implies dedup_lookup(
        existing,
        dt,
    ) == Ok::<Option<Seq<u8>>, ZomeError>(Some(updated)) by {
        assert(existing.map_values(|x: LinkTarget| x@).len() == existing.len());
        assert(existing.map_values(|x: LinkTarget| x@)[0] == existing[0]@);
    }
}

/// The cached actor reference an entry holds, if it holds one.
pub open spec fn actor_entry(e: EntryTypes) -> Option<RemoteActorRef> {
    match e {
        EntryTypes::RemoteActorRef(a) => Some(a),
        _ => None,
    }
}

/// Caching an actor whose URI anchor has no link yet, whatever else the
/// network holds: the anchor then leads to the new reference alone,
/// `get_remote_actor_ref` gives it, and upserting the same reference again
/// finds it unchanged and writes nothing.
pub proof fn actor_ref_found_after_creation(
    d: DhtModel,
    actor: RemoteActorRef,
    plan: CreatePlan,
    created: Seq<u8>,
    link_hashes: Seq<Seq<u8>>,
)
    requires
        targets_at(
            d.links,
            anchor_key(actor_uri_anchor_text(actor.actor_uri@)),
            LinkTypes::ActorUriToRemoteActorRef,
        ).len() == 0,
        plan.entry == EntryTypes::RemoteActorRef(actor),
        plan.links@.len() == 1,
        from_anchor(
            plan.links@[0],
            actor_uri_anchor_text(actor.actor_uri@),
            LinkTypes::ActorUriToRemoteActorRef,
        ),
        is_full_hash(created, action_prefix()),
        link_hashes.len() == 1,
    ensures
        ({
            let key = anchor_key(actor_uri_anchor_text(actor.actor_uri@));
            let t = LinkTypes::ActorUriToRemoteActorRef;
            let d1 = after_create(d, plan, created, link_hashes);
            &&& targets_at(d1.links, key, t) == seq![created]
            &&& forall|read: TargetRead<RemoteActorRef>|
                read_agrees(d1, created, read, |e: EntryTypes| actor_entry(e)) ==> (
                read matches TargetRead::Fetched(RecordRead::Present { address, entry })
                    && address@ == created && entry == actor && !actor_ref_changed(entry, actor)
                    && lookup_result(Some(read), t, EntryKind::RemoteActorRef) == Ok::<
                    Option<RemoteActorRef>,
                    ZomeError,
                >(Some(actor)))
        }),
{
    let key = anchor_key(actor_uri_anchor_text(actor.actor_uri@));
    let t = LinkTypes::ActorUriToRemoteActorRef;
    let d1 = after_create(d, plan, created, link_hashes);
    let new_links = planned_links(plan.links@, created, link_hashes);
    assert(new_links[0].base == key);
    lemma_targets_of_one(new_links, key, t);
    lemma_targets_at_append(d.links, new_links, key, t);
    assert(targets_at(d.links, key, t) =~= Seq::<Seq<u8>>::empty());
    assert(targets_at(d1.links, key, t) =~= seq![created]);
}

/// Updating a cached actor whose URI anchor leads to `original`, whatever
/// else the network holds: the anchor then leads to the new reference
/// alone, `get_remote_actor_ref` gives it, and upserting the same reference
/// again finds it unchanged and writes nothing.
pub proof fn actor_ref_found_after_update(
    d: DhtModel,
    original: Seq<u8>,
    actor: RemoteActorRef,
    update: UpdatePlan,
    updated: Seq<u8>,
    update_link_hashes: Seq<Seq<u8>>,
)
    requires
        targets_at(
            d.links,
            anchor_key(actor_uri_anchor_text(actor.actor_uri@)),
            LinkTypes::ActorUriToRemoteActorRef,
        ) == seq![original],
        update.original@ == original,
        update.entry == EntryTypes::RemoteActorRef(actor),
        update.unlinks@.len() == 1,
        from_anchor(
            update.unlinks@[0],
            actor_uri_anchor_text(actor.actor_uri@),
            LinkTypes::ActorUriToRemoteActorRef,
        ),
        update.links@.len() == 1,
        from_anchor(
            update.links@[0],
            actor_uri_anchor_text(actor.actor_uri@),
            LinkTypes::ActorUriToRemoteActorRef,
        ),
        is_full_hash(updated, action_prefix()),
        update_link_hashes.len() == 1,
    ensures
        ({
            let key = anchor_key(actor_uri_anchor_text(actor.actor_uri@));
            let t = LinkTypes::ActorUriToRemoteActorRef;
            let d2 = after_update(d, update, updated, update_link_hashes);
            &&& targets_at(d2.links, key, t) == seq![updated]
            &&& forall|read: TargetRead<RemoteActorRef>|
                read_agrees(d2, updated, read, |e: EntryTypes| actor_entry(e)) ==> (
                read matches TargetRead::Fetched(RecordRead::Present { address, entry })
                    && address@ == updated && entry == actor && !actor_ref_changed(entry, actor)
                    && lookup_result(Some(read), t, EntryKind::RemoteActorRef) == Ok::<
                    Option<RemoteActorRef>,
                    ZomeError,
                >(Some(actor)))
        }),
{
    let key = anchor_key(actor_uri_anchor_text(actor.actor_uri@));
    let t = LinkTypes::ActorUriToRemoteActorRef;
    let new_links = planned_links(update.links@, updated, update_link_hashes);
    update_moves_links(d, update, updated, update_link_hashes, 0, key, t);
    lemma_drop_only(original);
    assert(new_links[0].base == key);
    lemma_targets_of_one(new_links, key, t);
    assert(Seq::<Seq<u8>>::empty() + seq![updated] =~= seq![updated]);
}

/// Where no link of a lookup's type leaves its base (an actor URI never
/// upserted, a mew never given a federation state, an ActivityPub URI never
/// assigned), the links read there are none, so there is no first link and
/// the lookup answers `None`.
pub proof fn unlinked_lookups_read_none<T>(d: DhtModel, base: BaseKey, t: LinkTypes, kind: EntryKind)
    requires
        targets_at(d.links, base, t).len() == 0,
    ensures
        forall|existing: Seq<LinkTarget>|
            existing.map_values(|x: LinkTarget| x@) == targets_at(d.links, base, t) ==> existing.len()
                == 0,
        lookup_result::<T>(None, t, kind) == Ok::<Option<T>, ZomeError>(None),
{
    assert forall|existing: Seq<LinkTarget>|
        existing.map_values(|x: LinkTarget| x@) == targets_at(d.links, base, t) implies existing.len()
        == 0 by {
        assert(existing.map_values(|x: LinkTarget| x@).len() == existing.len());
    }
}

/// On a network where a mew's link leads to its federation state `original`
/// and no state is linked from an ActivityPub URI yet, once
/// `set_mew_ap_uri` has written the updated state, both
/// `get_mew_federation_state` for the mew and `get_mew_by_ap_uri` for the
/// URI find it: the state of the same mew, with the same visibility, now
/// carrying the URI.
pub proof fn ap_uri_set_is_seen(
    d: DhtModel,
    mew: Seq<u8>,
    original: Seq<u8>,
    old: MewFederationState,
    new: MewFederationState,
    uri: Seq<char>,
    plan: UpdatePlan,
    updated: Seq<u8>,
    link_hashes: Seq<Seq<u8>>,
)
    requires
        targets_at(d.links, BaseKey::Action(mew), LinkTypes::MewToFederationState) == seq![original],
        targets_at(d.links, anchor_key(ap_uri_anchor_text(uri)), LinkTypes::ApUriToFederationState).len()
            == 0,
        plan.original@ == original,
        plan.entry == EntryTypes::MewFederationState(new),
        with_ap_uri(old, new, uri),
        plan.unlinks@.len() == 1,
        from_action(plan.unlinks@[0], mew, LinkTypes::MewToFederationState),
        plan.links@.len() == 2,
        from_action(plan.links@[0], mew, LinkTypes::MewToFederationState),
        from_anchor(plan.links@[1], ap_uri_anchor_text(uri), LinkTypes::ApUriToFederationState),
        is_full_hash(updated, action_prefix()),
        link_hashes.len() == 2,
    ensures
        ({
            let d1 = after_update(d, plan, updated, link_hashes);
            let by_mew = targets_at(d1.links, BaseKey::Action(mew), LinkTypes::MewToFederationState);
            let by_uri = targets_at(
                d1.links,
                anchor_key(ap_uri_anchor_text(uri)),
                LinkTypes::ApUriToFederationState,
            );
            &&& by_mew == seq![updated]
            &&& by_uri == seq![updated]
            &&& forall|first: TargetRead<MewFederationState>|
                read_agrees(d1, updated, first, |e: EntryTypes| state_entry(e)) ==> (
                #[trigger] lookup_result(
                    Some(first),
                    LinkTypes::MewToFederationState,
                    EntryKind::MewFederationState,
                ) == Ok::<Option<MewFederationState>, ZomeError>(Some(new)) && lookup_result(
                    Some(first),
                    LinkTypes::ApUriToFederationState,
                    EntryKind::MewFederationState,
                ) == Ok::<Option<MewFederationState>, ZomeError>(Some(new)) && with_ap_uri(
                    old,
                    new,
                    uri,
                ))
        }),
{
    let mewk = BaseKey::Action(mew);
    let mt = LinkTypes::MewToFederationState;
    let key = anchor_key(ap_uri_anchor_text(uri));
    let ut = LinkTypes::ApUriToFederationState;
    let d1 = after_update(d, plan, updated, link_hashes);
    let kept = kept_links(d.links, plan.original@, plan.unlinks@);
    let new_links = planned_links(plan.links@, updated, link_hashes);
    update_moves_links(d, plan, updated, link_hashes, 0, mewk, mt);
    lemma_drop_only(original);
    lemma_kept_links_of_absent(d.links, plan.original@, plan.unlinks@, key, ut);
    lemma_targets_at_append(kept, new_links, key, ut);
    assert(new_links[0].base == mewk);
    assert(new_links[1].base == key);
    lemma_targets_of_two(new_links, mewk, mt);
    lemma_targets_of_two(new_links, key, ut);
    assert(targets_at(kept, key, ut) =~= Seq::<Seq<u8>>::empty());
    assert(targets_at(d1.links, mewk, mt) =~= seq![updated]);
    assert(targets_at(d1.links, key, ut) =~= seq![updated]);
}

/// The remote interaction an entry holds, if it holds one.
pub open spec fn interaction_entry(e: EntryTypes) -> Option<RemoteInteraction> {
    match e {
        EntryTypes::RemoteInteraction(i) => Some(i),
        _ => None,
    }
}

/// A remote interaction created where the dedup anchor of its activity URI
/// has no link yet, whatever interactions its mew has: a second creation of
/// any interaction with that activity URI finds the same action
/// (idempotency; the anchor depends on the activity URI alone), and the
/// mew's listing is what it was, then the new interaction.
pub proof fn remote_interaction_created_once(
    d: DhtModel,
    interaction: RemoteInteraction,
    plan: CreatePlan,
    created: Seq<u8>,
    link_hashes: Seq<Seq<u8>>,
)
    requires
        targets_at(
            d.links,
            anchor_key(interaction_dedup_text(interaction.activity_uri@)),
            LinkTypes::InteractionDedupToRemoteInteraction,
        ).len() == 0,
        plan.entry == EntryTypes::RemoteInteraction(interaction),
        plan.links@.len() == 2,
        from_action(plan.links@[0], interaction.mew_hash@, LinkTypes::MewToRemoteInteractions),
        from_anchor(
            plan.links@[1],
            interaction_dedup_text(interaction.activity_uri@),
            LinkTypes::InteractionDedupToRemoteInteraction,
        ),
        is_full_hash(created, action_prefix()),
        link_hashes.len() == 2,
    ensures
        ({
            let mew = BaseKey::Action(interaction.mew_hash@);
            let dedup = anchor_key(interaction_dedup_text(interaction.activity_uri@));
            let d1 = after_create(d, plan, created, link_hashes);
            &&& forall|other: RemoteInteraction|
                other.activity_uri@ == interaction.activity_uri@ ==> anchor_key(
                    interaction_dedup_text(other.activity_uri@),
                ) == dedup
            &&& forall|existing: Seq<LinkTarget>|
                existing.map_values(|x: LinkTarget| x@) == targets_at(
                    d1.links,
                    dedup,
                    LinkTypes::InteractionDedupToRemoteInteraction,
                ) ==> dedup_lookup(existing, LinkTypes::InteractionDedupToRemoteInteraction)
                    == Ok::<Option<Seq<u8>>, ZomeError>(Some(created))
            &&& targets_at(d1.links, mew, LinkTypes::MewToRemoteInteractions) == targets_at(
                d.links,
                mew,
                LinkTypes::MewToRemoteInteractions,
            ).push(created)
            &&& forall|reads: Seq<TargetRead<RemoteInteraction>>|
                reads_agree(
                    d1,
                    targets_at(d1.links, mew, LinkTypes::MewToRemoteInteractions),
                    reads,
                    |e: EntryTypes| interaction_entry(e),
                ) ==> listed(reads, LinkTypes::MewToRemoteInteractions, EntryKind::RemoteInteraction)
                    == listed_then(
                    listed(
                        reads.drop_last(),
                        LinkTypes::MewToRemoteInteractions,
                        EntryKind::RemoteInteraction,
                    ),
                    interaction,
                )
        }),
{
    lemma_dedup_creation(
        d,
        interaction,
        |e: EntryTypes| interaction_entry(e),
        BaseKey::Action(interaction.mew_hash@),
        LinkTypes::MewToRemoteInteractions,
        interaction_dedup_text(interaction.activity_uri@),
        LinkTypes::InteractionDedupToRemoteInteraction,
        EntryKind::RemoteInteraction,
        plan,
        created,
        link_hashes,
    );
}

/// The DHT after the removal of an interaction was carried out: the mew's
/// link deleted through the action that created it, the dedup anchor's
/// links to the interaction deleted, and the interaction's entry deleted.
pub open spec fn after_interaction_removal(d: DhtModel, r: InteractionRemoval) -> DhtModel {
    DhtModel {
        links: kept_links(
            without_link(d.links, r.mew_link@),
            r.interaction@,
            seq![
                LinkPlan {
                    base: LinkBase::Anchor(r.dedup_anchor),
                    link_type: LinkTypes::InteractionDedupToRemoteInteraction,
                },
            ],
        ),
        records: d.records.remove(r.interaction@),
    }
}

/// Deleting a remote interaction, when the mew's link named by the removal
/// is the mew's only link to it: the mew's targets, and so its listing,
/// lose exactly that interaction and keep the others in their order, and
/// the dedup anchor loses its links to it.
pub proof fn interaction_removal_keeps_others(d: DhtModel, r: InteractionRemoval, mew: Seq<u8>)
    requires
        only_link_to(
            d.links,
            r.mew_link@,
            BaseKey::Action(mew),
            LinkTypes::MewToRemoteInteractions,
            r.interaction@,
        ),
    ensures
        ({
            let after = after_interaction_removal(d, r);
            let dedup = base_key(LinkBase::Anchor(r.dedup_anchor));
            &&& targets_at(after.links, BaseKey::Action(mew), LinkTypes::MewToRemoteInteractions)
                == drop_value(
                targets_at(d.links, BaseKey::Action(mew), LinkTypes::MewToRemoteInteractions),
                r.interaction@,
            )
            &&& targets_at(after.links, dedup, LinkTypes::InteractionDedupToRemoteInteraction)
                == drop_value(
                targets_at(d.links, dedup, LinkTypes::InteractionDedupToRemoteInteraction),
                r.interaction@,
            )
        }),
{
    let mewk = BaseKey::Action(mew);
    let mt = LinkTypes::MewToRemoteInteractions;
    let dt = LinkTypes::InteractionDedupToRemoteInteraction;
    let dedup = base_key(LinkBase::Anchor(r.dedup_anchor));
    let sets = seq![LinkPlan { base: LinkBase::Anchor(r.dedup_anchor), link_type: dt }];
    let rest = without_link(d.links, r.mew_link@);
    lemma_without_link_targets(d.links, r.mew_link@, mewk, mt, r.interaction@);
    lemma_kept_targets_elsewhere(rest, r.interaction@, sets, mewk, mt);
    assert forall|k: int|
        0 <= k < d.links.len() && (#[trigger] d.links[k]).create_hash == r.mew_link@ implies !(
        d.links[k].base == dedup && d.links[k].link_type == dt) by {
        assert(d.links[k].link_type == mt);
    }
    lemma_without_link_elsewhere(d.links, r.mew_link@, dedup, dt);
    lemma_kept_targets(rest, r.interaction@, sets, 0, dedup, dt);
}

// ---------------------------------------------------------------------------
// What the operations are for
// ---------------------------------------------------------------------------

/// The federated mews are every state found whose visibility is not
/// `HolochainOnly`, in order: a further read of a state adds it exactly when
/// it is not `HolochainOnly` (public, unlisted, followers-only and direct
/// states are all federated); links to nothing, missing records and records
/// without an entry add nothing; an undecodable record fails the whole.
pub proof fn federated_keeps_every_non_holochain_state(
    reads: Seq<TargetRead<MewFederationState>>,
    address: crate::hashes::ActionHash,
    state: MewFederationState,
    reason: String,
)
    ensures
        ({
            let present = TargetRead::Fetched(RecordRead::Present { address, entry: state });
            federated(reads.push(present)) == match federated(reads) {
                Ok(v) => if state.visibility is HolochainOnly {
                    Ok::<Seq<MewFederationState>, ZomeError>(v)
                } else {
                    Ok(v.push(state))
                },
                Err(e) => Err(e),
            }
        }),
        !(state.visibility is HolochainOnly) ==> federated(
            seq![TargetRead::Fetched(RecordRead::Present { address, entry: state })],
        ) == Ok::<Seq<MewFederationState>, ZomeError>(seq![state]),
        federated(reads.push(TargetRead::NotAction)) == federated(reads),
        federated(reads.push(TargetRead::Fetched(RecordRead::Absent))) == federated(reads),
        federated(reads.push(TargetRead::Fetched(RecordRead::NoEntry))) == federated(reads),
        federated(reads.push(TargetRead::Fetched(RecordRead::Undecodable(reason)))) == match federated(
            reads,
        ) {
            Ok(_) => Err::<Seq<MewFederationState>, ZomeError>(
                ZomeError::Deserialize(EntryKind::MewFederationState),
            ),
            Err(e) => Err(e),
        },
{
    let present = TargetRead::Fetched(RecordRead::Present { address, entry: state });
    assert(reads.push(present).drop_last() =~= reads);
    assert(reads.push(TargetRead::NotAction).drop_last() =~= reads);
    assert(reads.push(TargetRead::Fetched(RecordRead::Absent)).drop_last() =~= reads);
    assert(reads.push(TargetRead::Fetched(RecordRead::NoEntry)).drop_last() =~= reads);
    assert(reads.push(TargetRead::Fetched(RecordRead::Undecodable(reason))).drop_last() =~= reads);
    let one = seq![present];
    assert(one.drop_last() =~= Seq::<TargetRead<MewFederationState>>::empty());
    assert(one.last() == present);
    assert(federated(one.drop_last()) == Ok::<Seq<MewFederationState>, ZomeError>(seq![]));
    assert(Seq::<MewFederationState>::empty().push(state) =~= seq![state]);
}

/// A cached actor reference counts as changed exactly when the offered one
/// differs from it in its URI, its handle, or its display name (a name
/// given where there was none, none where there was one, or another name).
pub proof fn actor_ref_changes_are_field_differences(old: RemoteActorRef, new: RemoteActorRef)
    ensures
        actor_ref_changed(old, new) <==> (old.actor_uri@ != new.actor_uri@ || old.handle@
            != new.handle@ || old.display_name.deep_view() != new.display_name.deep_view()),
        old.display_name.deep_view() != new.display_name.deep_view() ==> actor_ref_changed(old, new),
{
}

/// An `Undo` whose inner object is a like or an announce, with an id and an
/// object, removes the interaction with that id on the mew named by that
/// object; likes and announces are undone alike.
pub proof fn undo_removes_likes_and_announces(
    a: crate::s2s::InboxActivity,
    agent: crate::hashes::AgentPubKey,
    now: crate::hashes::Timestamp,
    res: Result<crate::s2s::InboxPlan, crate::s2s::S2SError>,
)
    requires
        a.activity_type@ == "Undo"@,
        a.object.kind matches Some(k) && (k@ == "Like"@ || k@ == "Announce"@),
        a.object.id is Some,
        a.object.object is Some,
        crate::s2s::inbox_plan_ok(a, agent, now, res),
    ensures
        res matches Ok(crate::s2s::InboxPlan::RemoveInteraction { object_uri, activity_uri })
            && object_uri@ == a.object.object->Some_0@ && activity_uri@ == a.object.id->Some_0@,
{
    reveal_strlit("Undo");
    reveal_strlit("Follow");
    reveal_strlit("Like");
    reveal_strlit("Announce");
    assert("Undo"@ != "Follow"@) by {
        assert("Undo"@.len() != "Follow"@.len());
    }
    assert("Undo"@ != "Like"@) by {
        assert("Undo"@[0] != "Like"@[0]);
    }
    assert("Undo"@ != "Announce"@) by {
        assert("Undo"@.len() != "Announce"@.len());
    }
}

/// The segment after the first `users` segment of a path, whatever it
/// holds, is the user of the path.
pub proof fn user_follows_first_users_segment(segments: Seq<Seq<char>>, k: int)
    requires
        0 <= k,
        k + 1 < segments.len(),
        segments[k] == "users"@,
        forall|j: int| 0 <= j < k ==> segments[j] != "users"@,
    ensures
        crate::s2s::user_after_users(segments) == Some(segments[k + 1]),
    decreases k,
{
    if k > 0 {
        let rest = segments.drop_first();
        assert forall|j: int| 0 <= j < k - 1 implies rest[j] != "users"@ by {
            assert(rest[j] == segments[j + 1]);
        }
        assert(rest[k - 1] == segments[k]);
        user_follows_first_users_segment(rest, k - 1);
        assert(rest[k] == segments[k + 1]);
    }
}

/// A path without a `users` segment has no user.
pub proof fn no_users_segment_no_user(segments: Seq<Seq<char>>)
    requires
        forall|j: int| 0 <= j < segments.len() ==> segments[j] != "users"@,
    ensures
        crate::s2s::user_after_users(segments) is None,
    decreases segments.len(),
{
    if segments.len() > 0 {
        let rest = segments.drop_first();
        assert forall|j: int| 0 <= j < rest.len() implies rest[j] != "users"@ by {
            assert(rest[j] == segments[j + 1]);
        }
        no_users_segment_no_user(rest);
    }
}

/// The handle of an actor URI with a host and a `users` segment followed by
/// another is `@`, that next segment unchanged, `@`, and the host.
pub proof fn handle_names_user_and_host(host: Seq<char>, segments: Seq<Seq<char>>, k: int)
    requires
        0 <= k,
        k + 1 < segments.len(),
        segments[k] == "users"@,
        forall|j: int| 0 <= j < k ==> segments[j] != "users"@,
    ensures
        handle_text(Ok(UrlPartsView { host: Some(host), path_segments: Some(segments) }))
            == "@"@ + segments[k + 1] + "@"@ + host,
{
    user_follows_first_users_segment(segments, k);
}

/// A text holds a pattern wherever the pattern occurs in it, at any
/// position.
pub proof fn substring_found_anywhere(a: Seq<char>, pat: Seq<char>, b: Seq<char>, s: Seq<char>, i: int)
    ensures
        crate::text::has_substring(a + pat + b, pat),
        crate::text::occurs_at(s, pat, i) ==> crate::text::has_substring(s, pat),
{
    let t = a + pat + b;
    assert(t.subrange(a.len() as int, (a.len() + pat.len()) as int) =~= pat);
    assert(crate::text::occurs_at(t, pat, a.len() as int));
}

/// A failed zome call whose message mentions `not found` or `missing`
/// anywhere is reported as not found, with the message itself.
pub proof fn missing_anywhere_is_not_found(
    zome_name: Seq<char>,
    fn_name: Seq<char>,
    a: Seq<char>,
    b: Seq<char>,
)
    ensures
        crate::s2s::zome_call_error(zome_name, fn_name, a + "not found"@ + b)
            == crate::s2s::S2SErrorView::NotFound(a + "not found"@ + b),
        crate::s2s::zome_call_error(zome_name, fn_name, a + "missing"@ + b)
            == crate::s2s::S2SErrorView::NotFound(a + "missing"@ + b),
{
    substring_found_anywhere(a, "not found"@, b, a, 0);
    substring_found_anywhere(a, "missing"@, b, a, 0);
}

/// A listing is every entry found behind the links read, in order: a
/// further read of a record adds its entry; links to missing records and
/// records without an entry add nothing; a link that is not to an action,
/// or a record that does not decode, fails the listing.
pub proof fn listing_keeps_every_found_entry<T>(
    reads: Seq<TargetRead<T>>,
    address: crate::hashes::ActionHash,
    entry: T,
    reason: String,
    t: LinkTypes,
    kind: EntryKind,
)
    ensures
        listed(reads.push(TargetRead::Fetched(RecordRead::Present { address, entry })), t, kind)
            == listed_then(listed(reads, t, kind), entry),
        listed(seq![TargetRead::Fetched(RecordRead::Present { address, entry })], t, kind) == Ok::<
            Seq<T>,
            ZomeError,
        >(seq![entry]),
        listed(reads.push(TargetRead::Fetched(RecordRead::Absent)), t, kind) == listed(reads, t, kind),
        listed(reads.push(TargetRead::Fetched(RecordRead::NoEntry)), t, kind) == listed(
            reads,
            t,
            kind,
        ),
        listed(reads, t, kind) is Ok ==> listed(reads.push(TargetRead::NotAction), t, kind) == Err::<
            Seq<T>,
            ZomeError,
        >(ZomeError::TargetNotActionHash(t)),
        listed(reads, t, kind) is Ok ==> listed(
            reads.push(TargetRead::Fetched(RecordRead::Undecodable(reason))),
            t,
            kind,
        ) == Err::<Seq<T>, ZomeError>(ZomeError::Deserialize(kind)),
{
    let present = TargetRead::Fetched(RecordRead::Present { address, entry });
    assert(reads.push(present).drop_last() =~= reads);
    assert(reads.push(TargetRead::NotAction).drop_last() =~= reads);
    assert(reads.push(TargetRead::Fetched(RecordRead::Absent)).drop_last() =~= reads);
    assert(reads.push(TargetRead::Fetched(RecordRead::NoEntry)).drop_last() =~= reads);
    assert(reads.push(TargetRead::Fetched(RecordRead::Undecodable(reason))).drop_last() =~= reads);
    let one = seq![present];
    assert(one.drop_last() =~= Seq::<TargetRead<T>>::empty());
    assert(one.last() == present);
    assert(listed(one.drop_last(), t, kind) == Ok::<Seq<T>, ZomeError>(seq![]));
    assert(Seq::<T>::empty().push(entry) =~= seq![entry]);
}

/// What the inbox does with each kind of activity: a follow records the
/// actor as a follower of the local agent from `now` and caches its
/// reference with the handle of its URI; a like or an announce of a URI
/// records that interaction from the actor, by the activity's id; a
/// creation that answers a URI records a reply; an accept changes nothing.
pub proof fn inbox_plans_by_activity_type(
    a: crate::s2s::InboxActivity,
    agent: crate::hashes::AgentPubKey,
    now: crate::hashes::Timestamp,
    res: Result<crate::s2s::InboxPlan, crate::s2s::S2SError>,
)
    requires
        crate::s2s::inbox_plan_ok(a, agent, now, res),
    ensures
        a.activity_type@ == "Follow"@ ==> (res matches Ok(
            crate::s2s::InboxPlan::RecordFollower { follower, actor_ref },
        ) && follower.local_agent == agent && follower.remote_actor_uri@ == a.actor@
            && follower.followed_at == now && actor_ref.actor_uri@ == a.actor@
            && actor_ref.handle@ == handle_text(crate::s2s::url_parse_result(a.actor@))),
        (a.activity_type@ == "Like"@ && a.object.text is Some) ==> (res matches Ok(
            crate::s2s::InboxPlan::RecordInteraction { object_uri, interaction },
        ) && object_uri@ == a.object.text->Some_0@ && interaction.actor_uri@ == a.actor@
            && interaction.activity_uri@ == a.id@ && interaction.interaction_type
            == crate::entries::RemoteInteractionType::Like),
        (a.activity_type@ == "Announce"@ && a.object.text is Some) ==> (res matches Ok(
            crate::s2s::InboxPlan::RecordInteraction { object_uri, interaction },
        ) && object_uri@ == a.object.text->Some_0@ && interaction.actor_uri@ == a.actor@
            && interaction.activity_uri@ == a.id@ && interaction.interaction_type
            == crate::entries::RemoteInteractionType::Announce),
        (a.activity_type@ == "Create"@ && a.object.in_reply_to is Some) ==> (res matches Ok(
            crate::s2s::InboxPlan::RecordReply { in_reply_to, interaction },
        ) && in_reply_to@ == a.object.in_reply_to->Some_0@ && interaction.actor_uri@ == a.actor@
            && interaction.activity_uri@ == a.id@),
        a.activity_type@ == "Accept"@ ==> res == Ok::<
            crate::s2s::InboxPlan,
            crate::s2s::S2SError,
        >(crate::s2s::InboxPlan::Nothing),
{
    reveal_strlit("Undo");
    reveal_strlit("Follow");
    reveal_strlit("Like");
    reveal_strlit("Announce");
    reveal_strlit("Create");
    reveal_strlit("Accept");
    assert("Like"@ != "Follow"@) by {
        assert("Like"@.len() != "Follow"@.len());
    }
    assert("Announce"@ != "Follow"@) by {
        assert("Announce"@.len() != "Follow"@.len());
    }
    assert("Announce"@ != "Like"@) by {
        assert("Announce"@.len() != "Like"@.len());
    }
    assert("Create"@ != "Follow"@) by {
        assert("Create"@[0] != "Follow"@[0]);
    }
    assert("Create"@ != "Like"@) by {
        assert("Create"@.len() != "Like"@.len());
    }
    assert("Create"@ != "Announce"@) by {
        assert("Create"@.len() != "Announce"@.len());
    }
    assert("Create"@ != "Undo"@) by {
        assert("Create"@.len() != "Undo"@.len());
    }
    assert("Accept"@ != "Follow"@) by {
        assert("Accept"@[0] != "Follow"@[0]);
    }
    assert("Accept"@ != "Like"@) by {
        assert("Accept"@.len() != "Like"@.len());
    }
    assert("Accept"@ != "Announce"@) by {
        assert("Accept"@.len() != "Announce"@.len());
    }
    assert("Accept"@ != "Undo"@) by {
        assert("Accept"@.len() != "Undo"@.len());
    }
    assert("Accept"@ != "Create"@) by {
        assert("Accept"@[0] != "Create"@[0]);
    }
}

/// Validation of a written entry: a federation state asks for its mew's
/// author to be compared with the state's, an outbound follow is valid
/// exactly when written by its own local agent, and every other entry is
/// valid.
pub proof fn validation_checks_authors(
    entry: EntryTypes,
    author: crate::hashes::AgentPubKey,
    res: crate::validation::ValidationStep,
)
    requires
        crate::validation::validation_rule(
            crate::validation::OpView::StoreEntryCreate { entry, author },
            res,
        ),
    ensures
        entry matches EntryTypes::MewFederationState(state) ==> res
            == (crate::validation::ValidationStep::CheckMewAuthor {
            mew_hash: state.mew_hash,
            state_author: author,
        }),
        entry matches EntryTypes::RemoteFollow(follow) ==> (follow.local_agent@ == author@
            <==> res == crate::validation::ValidationStep::Done(
            crate::validation::ValidateCallbackResult::Valid,
        )),
        entry matches EntryTypes::RemoteFollow(follow) ==> (res matches crate::validation::ValidationStep::Done(
            r,
        ) && (follow.local_agent@ != author@ ==> r is Invalid)),
        (entry is InstanceConfig || entry is RemoteActorRef || entry is RemoteFollower
            || entry is RemoteInteraction) ==> res == crate::validation::ValidationStep::Done(
            crate::validation::ValidateCallbackResult::Valid,
        ),
{
}

/// The value of a profile field is the value paired with exactly that key,
/// and a key paired with no value has none.
pub proof fn field_value_is_the_paired_value(
    pairs: Seq<(Seq<char>, Seq<char>)>,
    key: Seq<char>,
    k: int,
)
    ensures
        (0 <= k < pairs.len() && pairs[k].0 == key && forall|j: int|
            0 <= j < k ==> pairs[j].0 != key) ==> crate::coordinator::field_value(pairs, key) == Some(
            pairs[k].1,
        ),
        (forall|j: int| 0 <= j < pairs.len() ==> pairs[j].0 != key) ==> crate::coordinator::field_value(
            pairs,
            key,
        ) is None,
    decreases pairs.len(),
{
    if pairs.len() > 0 {
        let rest = pairs.drop_first();
        field_value_is_the_paired_value(rest, key, k - 1);
        if 0 <= k < pairs.len() && pairs[k].0 == key && (forall|j: int|
            0 <= j < k ==> pairs[j].0 != key) && k > 0 {
            assert(pairs[0].0 != key);
            assert(rest[k - 1] == pairs[k]);
            assert forall|j: int| 0 <= j < k - 1 implies rest[j].0 != key by {
                assert(rest[j] == pairs[j + 1]);
            }
        }
        if forall|j: int| 0 <= j < pairs.len() ==> pairs[j].0 != key {
            assert(pairs[0].0 != key);
            assert forall|j: int| 0 <= j < rest.len() implies rest[j].0 != key by {
                assert(rest[j] == pairs[j + 1]);
            }
        }
    }
}

} // verus!
