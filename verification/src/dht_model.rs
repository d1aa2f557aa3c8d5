//! A model of the DHT as the zomes use it: links from bases to targets, and
//! the entries recorded at actions. It gives the writes that the plans of
//! the coordinator describe their effect, so that the laws can speak of what
//! a later read gives back.

use vstd::prelude::*;
use crate::entries::{EntryTypes, LinkTypes};
use crate::hashes::{action_prefix, is_full_hash};
use crate::zome_io::{CreatePlan, DeletePlan, LinkBase, LinkPlan, RecordRead, TargetRead, UpdatePlan};

verus! {

/// What a link starts from: the components of an anchor path, an action or an agent.
pub ghost enum BaseKey {
    Anchor(Seq<Seq<u8>>),
    Action(Seq<u8>),
    Agent(Seq<u8>),
}

/// The DHT base that a planned link starts from.
pub open spec fn base_key(b: LinkBase) -> BaseKey {
    match b {
        LinkBase::Anchor(a) => BaseKey::Anchor(a.components.deep_view()),
        LinkBase::Action(h) => BaseKey::Action(h@),
        LinkBase::Agent(a) => BaseKey::Agent(a@),
    }
}

/// A live link.
pub ghost struct StoredLink {
    pub base: BaseKey,
    pub link_type: LinkTypes,
    pub target: Seq<u8>,
    pub create_hash: Seq<u8>,
}

/// The live links and the recorded entries, by the action that wrote them.
pub ghost struct DhtModel {
    pub links: Seq<StoredLink>,
    pub records: Map<Seq<u8>, EntryTypes>,
}

/// The targets of the links of type `t` from `base`, in the order created.
pub open spec fn targets_at(links: Seq<StoredLink>, base: BaseKey, t: LinkTypes) -> Seq<Seq<u8>>
    decreases links.len(),
{
    if links.len() == 0 {
        seq![]
    } else {
        let rest = targets_at(links.drop_last(), base, t);
        if links.last().base == base && links.last().link_type == t {
            rest.push(links.last().target)
        } else {
            rest
        }
    }
}

/// The links a creation plan adds: each from its base to `created`.
pub open spec fn planned_links(plans: Seq<LinkPlan>, created: Seq<u8>, link_hashes: Seq<Seq<u8>>) -> Seq<
    StoredLink,
> {
    Seq::new(
        plans.len(),
        |i: int|
            StoredLink {
                base: base_key(plans[i].base),
                link_type: plans[i].link_type,
                target: created,
                create_hash: link_hashes[i],
            },
    )
}

/// The DHT after a creation plan was carried out: its entry recorded at
/// `created`, its links created by the actions `link_hashes`.
pub open spec fn after_create(d: DhtModel, plan: CreatePlan, created: Seq<u8>, link_hashes: Seq<Seq<u8>>) -> DhtModel {
    DhtModel {
        links: d.links + planned_links(plan.links@, created, link_hashes),
        records: d.records.insert(created, plan.entry),
    }
}

/// Links of this type from this base, pointing at `target`, are removed by
/// the link sets `sets`: one of them has the link's base and type.
pub open spec fn removed_by(l: StoredLink, target: Seq<u8>, sets: Seq<LinkPlan>) -> bool {
    &&& l.target == target
    &&& exists|j: int|
        0 <= j < sets.len() && base_key(#[trigger] sets[j].base) == l.base && sets[j].link_type
            == l.link_type
}

/// The links left after removing, for each of `sets`, the links of its base
/// and type that point at `target`.
pub open spec fn kept_links(links: Seq<StoredLink>, target: Seq<u8>, sets: Seq<LinkPlan>) -> Seq<
    StoredLink,
>
    decreases links.len(),
{
    if links.len() == 0 {
        seq![]
    } else {
        let rest = kept_links(links.drop_last(), target, sets);
        if removed_by(links.last(), target, sets) {
            rest
        } else {
            rest.push(links.last())
        }
    }
}

/// The DHT after a deletion plan was carried out.
pub open spec fn after_delete(d: DhtModel, plan: DeletePlan) -> DhtModel {
    DhtModel {
        links: kept_links(d.links, plan.entry@, plan.link_sets@),
        records: d.records.remove(plan.entry@),
    }
}

/// The DHT after an update plan was carried out: the new version recorded at
/// `updated` (the original stays recorded), the links of `unlinks` to the
/// original removed, and the links of `links` created to `updated` by the
/// actions `link_hashes`.
pub open spec fn after_update(d: DhtModel, plan: UpdatePlan, updated: Seq<u8>, link_hashes: Seq<Seq<u8>>) -> DhtModel {
    DhtModel {
        links: kept_links(d.links, plan.original@, plan.unlinks@) + planned_links(
            plan.links@,
            updated,
            link_hashes,
        ),
        records: d.records.insert(updated, plan.entry),
    }
}

/// `s` without the occurrences of `x`, the rest in order.
pub open spec fn drop_value(s: Seq<Seq<u8>>, x: Seq<u8>) -> Seq<Seq<u8>>
    decreases s.len(),
{
    if s.len() == 0 {
        seq![]
    } else {
        let rest = drop_value(s.drop_last(), x);
        if s.last() == x {
            rest
        } else {
            rest.push(s.last())
        }
    }
}

/// `read` is what following a link to `target` gives in `d`, the entries of
/// interest being those that `entry_of` picks out.
pub open spec fn read_agrees<T>(
    d: DhtModel,
    target: Seq<u8>,
    read: TargetRead<T>,
    entry_of: spec_fn(EntryTypes) -> Option<T>,
) -> bool {
    if !is_full_hash(target, action_prefix()) {
        read is NotAction
    } else if !d.records.contains_key(target) {
        read matches TargetRead::Fetched(RecordRead::Absent)
    } else {
        match entry_of(d.records[target]) {
            Some(e) => read matches TargetRead::Fetched(RecordRead::Present { address, entry })
                && address@ == target && entry == e,
            None => !(read matches TargetRead::Fetched(RecordRead::Present { .. })),
        }
    }
}

/// `reads` are what following the links to `targets`, in order, gives in `d`.
pub open spec fn reads_agree<T>(
    d: DhtModel,
    targets: Seq<Seq<u8>>,
    reads: Seq<TargetRead<T>>,
    entry_of: spec_fn(EntryTypes) -> Option<T>,
) -> bool {
    &&& reads.len() == targets.len()
    &&& forall|i: int| 0 <= i < reads.len() ==> read_agrees(d, targets[i], #[trigger] reads[i], entry_of)
}

/// Links appended after others are found after them.
pub proof fn lemma_targets_at_append(a: Seq<StoredLink>, b: Seq<StoredLink>, base: BaseKey, t: LinkTypes)
    ensures
        targets_at(a + b, base, t) == targets_at(a, base, t) + targets_at(b, base, t),
    decreases b.len(),
{
    if b.len() == 0 {
        assert(a + b =~= a);
        assert(targets_at(b, base, t) =~= Seq::<Seq<u8>>::empty());
        assert(targets_at(a, base, t) + seq![] =~= targets_at(a, base, t));
    } else {
        assert((a + b).drop_last() =~= a + b.drop_last());
        lemma_targets_at_append(a, b.drop_last(), base, t);
        assert((a + b).last() == b.last());
        if b.last().base == base && b.last().link_type == t {
            assert(targets_at(a, base, t) + targets_at(b.drop_last(), base, t).push(b.last().target)
                =~= (targets_at(a, base, t) + targets_at(b.drop_last(), base, t)).push(
                b.last().target,
            ));
        }
    }
}

/// Removal distributes over appended links.
pub proof fn lemma_kept_links_append(a: Seq<StoredLink>, b: Seq<StoredLink>, target: Seq<u8>, sets: Seq<LinkPlan>)
    ensures
        kept_links(a + b, target, sets) == kept_links(a, target, sets) + kept_links(b, target, sets),
    decreases b.len(),
{
    if b.len() == 0 {
        assert(a + b =~= a);
        assert(kept_links(a, target, sets) + seq![] =~= kept_links(a, target, sets));
    } else {
        assert((a + b).drop_last() =~= a + b.drop_last());
        lemma_kept_links_append(a, b.drop_last(), target, sets);
        assert((a + b).last() == b.last());
        if !removed_by(b.last(), target, sets) {
            assert(kept_links(a, target, sets) + kept_links(b.drop_last(), target, sets).push(b.last())
                =~= (kept_links(a, target, sets) + kept_links(b.drop_last(), target, sets)).push(
                b.last(),
            ));
        }
    }
}

/// Removal never brings a link of a base and type back.
pub proof fn lemma_kept_links_of_absent(
    links: Seq<StoredLink>,
    target: Seq<u8>,
    sets: Seq<LinkPlan>,
    base: BaseKey,
    t: LinkTypes,
)
    requires
        targets_at(links, base, t).len() == 0,
    ensures
        targets_at(kept_links(links, target, sets), base, t).len() == 0,
    decreases links.len(),
{
    if links.len() > 0 {
        let rest = targets_at(links.drop_last(), base, t);
        if links.last().base == base && links.last().link_type == t {
            assert(targets_at(links, base, t).len() == rest.len() + 1);
        }
        lemma_kept_links_of_absent(links.drop_last(), target, sets, base, t);
        let k = kept_links(links.drop_last(), target, sets);
        if !removed_by(links.last(), target, sets) {
            assert(k.push(links.last()).drop_last() =~= k);
        }
    }
}

/// Where one of the link sets has this base and type, removing the links
/// to `target` takes exactly `target` out of the targets found there, and
/// leaves the others in their order.
pub proof fn lemma_kept_targets(
    links: Seq<StoredLink>,
    target: Seq<u8>,
    sets: Seq<LinkPlan>,
    j: int,
    base: BaseKey,
    t: LinkTypes,
)
    requires
        0 <= j < sets.len(),
        base_key(sets[j].base) == base,
        sets[j].link_type == t,
    ensures
        targets_at(kept_links(links, target, sets), base, t) == drop_value(
            targets_at(links, base, t),
            target,
        ),
    decreases links.len(),
{
    if links.len() > 0 {
        lemma_kept_targets(links.drop_last(), target, sets, j, base, t);
        let k = kept_links(links.drop_last(), target, sets);
        let l = links.last();
        let before = targets_at(links.drop_last(), base, t);
        if l.base == base && l.link_type == t {
            assert(targets_at(links, base, t).drop_last() =~= before);
            if l.target == target {
                assert(removed_by(l, target, sets));
            } else {
                assert(!removed_by(l, target, sets));
                assert(k.push(l).drop_last() =~= k);
            }
        } else {
            if !removed_by(l, target, sets) {
                assert(k.push(l).drop_last() =~= k);
            }
        }
    }
}

/// The targets of a base and type among two planned links.
pub proof fn lemma_targets_of_two(links: Seq<StoredLink>, base: BaseKey, t: LinkTypes)
    requires
        links.len() == 2,
    ensures
        targets_at(links, base, t) == (if links[0].base == base && links[0].link_type == t {
            seq![links[0].target]
        } else {
            seq![]
        }) + (if links[1].base == base && links[1].link_type == t {
            seq![links[1].target]
        } else {
            seq![]
        }),
{
    assert(links.drop_last().len() == 1);
    assert(links.drop_last().drop_last().len() == 0);
    assert(links.drop_last().last() == links[0]);
    assert(targets_at(links.drop_last().drop_last(), base, t) =~= Seq::<Seq<u8>>::empty());
    let first = if links[0].base == base && links[0].link_type == t {
        seq![links[0].target]
    } else {
        seq![]
    };
    assert(targets_at(links.drop_last(), base, t) =~= first);
    if links[1].base == base && links[1].link_type == t {
        assert(first.push(links[1].target) =~= first + seq![links[1].target]);
    } else {
        assert(first =~= first + Seq::<Seq<u8>>::empty());
    }
}

/// Dropping a value that was pushed last drops it from what came before.
pub proof fn lemma_drop_pushed(s: Seq<Seq<u8>>, x: Seq<u8>)
    ensures
        drop_value(s.push(x), x) == drop_value(s, x),
{
    assert(s.push(x).drop_last() =~= s);
}

/// Dropping a value that does not occur changes nothing.
pub proof fn lemma_drop_absent(s: Seq<Seq<u8>>, x: Seq<u8>)
    requires
        !s.contains(x),
    ensures
        drop_value(s, x) == s,
    decreases s.len(),
{
    if s.len() > 0 {
        assert(!s.drop_last().contains(x)) by {
            if s.drop_last().contains(x) {
                let k = choose|k: int| 0 <= k < s.drop_last().len() && s.drop_last()[k] == x;
                assert(s[k] == x);
            }
        }
        lemma_drop_absent(s.drop_last(), x);
        assert(s.last() != x) by {
            if s.last() == x {
                assert(s[s.len() - 1] == x);
            }
        }
        assert(s.drop_last().push(s.last()) =~= s);
    }
}

/// The links left after deleting the link that the action `link_hash` created.
pub open spec fn without_link(links: Seq<StoredLink>, link_hash: Seq<u8>) -> Seq<StoredLink>
    decreases links.len(),
{
    if links.len() == 0 {
        seq![]
    } else {
        let rest = without_link(links.drop_last(), link_hash);
        if links.last().create_hash == link_hash {
            rest
        } else {
            rest.push(links.last())
        }
    }
}

/// Among `links`, those of this base and type that point at `target` are
/// exactly those that the action `link_hash` created.
pub open spec fn only_link_to(
    links: Seq<StoredLink>,
    link_hash: Seq<u8>,
    base: BaseKey,
    t: LinkTypes,
    target: Seq<u8>,
) -> bool {
    forall|k: int|
        0 <= k < links.len() ==> ((#[trigger] links[k]).create_hash == link_hash <==> (links[k].base
            == base && links[k].link_type == t && links[k].target == target))
}

/// Deleting the only link of a base and type to `target` takes `target`
/// out of the targets found there, the others in their order.
pub proof fn lemma_without_link_targets(
    links: Seq<StoredLink>,
    link_hash: Seq<u8>,
    base: BaseKey,
    t: LinkTypes,
    target: Seq<u8>,
)
    requires
        only_link_to(links, link_hash, base, t, target),
    ensures
        targets_at(without_link(links, link_hash), base, t) == drop_value(
            targets_at(links, base, t),
            target,
        ),
    decreases links.len(),
{
    if links.len() > 0 {
        let rest = links.drop_last();
        assert forall|k: int| 0 <= k < rest.len() implies ((#[trigger] rest[k]).create_hash
            == link_hash <==> (rest[k].base == base && rest[k].link_type == t && rest[k].target
            == target)) by {
            assert(rest[k] == links[k]);
        }
        lemma_without_link_targets(rest, link_hash, base, t, target);
        let l = links.last();
        assert(l == links[links.len() - 1]);
        let k = without_link(rest, link_hash);
        if l.base == base && l.link_type == t {
            assert(targets_at(links, base, t).drop_last() =~= targets_at(rest, base, t));
            if l.target != target {
                assert(k.push(l).drop_last() =~= k);
            }
        } else if l.create_hash != link_hash {
            assert(k.push(l).drop_last() =~= k);
        }
    }
}

/// Deleting a link that is not of this base and type leaves its targets.
pub proof fn lemma_without_link_elsewhere(
    links: Seq<StoredLink>,
    link_hash: Seq<u8>,
    base: BaseKey,
    t: LinkTypes,
)
    requires
        forall|k: int|
            0 <= k < links.len() && (#[trigger] links[k]).create_hash == link_hash ==> !(
            links[k].base == base && links[k].link_type == t),
    ensures
        targets_at(without_link(links, link_hash), base, t) == targets_at(links, base, t),
    decreases links.len(),
{
    if links.len() > 0 {
        let rest = links.drop_last();
        assert forall|k: int|
            0 <= k < rest.len() && (#[trigger] rest[k]).create_hash == link_hash implies !(
            rest[k].base == base && rest[k].link_type == t) by {
            assert(rest[k] == links[k]);
        }
        lemma_without_link_elsewhere(rest, link_hash, base, t);
        let l = links.last();
        assert(l == links[links.len() - 1]);
        let k = without_link(rest, link_hash);
        if l.create_hash != link_hash {
            assert(k.push(l).drop_last() =~= k);
        }
    }
}

/// A removal by link sets that name no set of this base and type leaves its
/// targets.
pub proof fn lemma_kept_targets_elsewhere(
    links: Seq<StoredLink>,
    target: Seq<u8>,
    sets: Seq<LinkPlan>,
    base: BaseKey,
    t: LinkTypes,
)
    requires
        forall|j: int|
            0 <= j < sets.len() ==> !(base_key(#[trigger] sets[j].base) == base && sets[j].link_type
                == t),
    ensures
        targets_at(kept_links(links, target, sets), base, t) == targets_at(links, base, t),
    decreases links.len(),
{
    if links.len() > 0 {
        lemma_kept_targets_elsewhere(links.drop_last(), target, sets, base, t);
        let l = links.last();
        let k = kept_links(links.drop_last(), target, sets);
        if removed_by(l, target, sets) {
            let j = choose|j: int|
                0 <= j < sets.len() && base_key(#[trigger] sets[j].base) == l.base
                    && sets[j].link_type == l.link_type;
            assert(!(l.base == base && l.link_type == t));
        } else {
            assert(k.push(l).drop_last() =~= k);
        }
    }
}

} // verus!
