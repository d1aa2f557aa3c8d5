use mews_federation::anchors::AnchorPath;
use mews_federation::coordinator::{
    create_mew_federation_state, create_remote_follow, create_remote_follower,
    create_remote_interaction, delete_remote_follow, delete_remote_follower,
    delete_remote_interaction, ends_listing, ends_removal_search, get_agent_ap_profile,
    get_federated_mews_for_agent, get_instance_config, get_mew_by_ap_uri,
    get_mew_federation_state, get_remote_actor_ref, list_remote_follows,
    list_remote_followers, list_remote_interactions, set_instance_config, set_mew_ap_uri,
    update_remote_follow_status, upsert_remote_actor_ref, DeleteRemoteInteractionInput,
    InteractionCandidate, Profile, ProfileFields, SetApUriInput, UpdateFollowStatusInput,
    UpsertPlan,
};
use mews_federation::entries::{
    EntryKind, EntryTypes, FederationVisibility, InstanceConfig, LinkTypes, MewFederationState,
    RemoteActorRef, RemoteFollow, RemoteFollowStatus, RemoteFollower, RemoteInteraction,
    RemoteInteractionType,
};
use mews_federation::hashes::{ActionHash, AgentPubKey, LinkTarget, Timestamp};
use mews_federation::zome_io::{
    links_targeting, DedupPlan, LinkBase, LinkPlan, LinkRecord, RecordRead, TargetRead, UpdatePlan,
    ZomeError,
};

fn action(byte: u8) -> ActionHash {
    ActionHash::from_raw_36(vec![byte; 36])
}

fn agent() -> AgentPubKey {
    AgentPubKey::from_raw_36(vec![0x84; 36])
}

fn target_of(hash: &ActionHash) -> LinkTarget {
    LinkTarget::from_raw_39(hash.get_raw_39().to_vec())
}

fn entry_target(byte: u8) -> LinkTarget {
    let mut raw = vec![0x84, 0x21, 0x24];
    raw.extend(vec![byte; 36]);
    LinkTarget::from_raw_39(raw)
}

fn config() -> InstanceConfig {
    InstanceConfig {
        subdomain: "cats".to_string(),
        gateway_url: "wss://gateway.mewsfeed.example".to_string(),
        instance_uri: "https://cats.mewsfeed.example".to_string(),
        public_key_id: "https://cats.mewsfeed.example/actor#main-key".to_string(),
    }
}

fn ap_anchor(text: &str) -> AnchorPath {
    AnchorPath::from_text(text.to_string()).unwrap()
}

fn anchor_text(base: &LinkBase) -> String {
    match base {
        LinkBase::Anchor(AnchorPath { text, .. }) => text.clone(),
        other => panic!("not an anchor: {other:?}"),
    }
}

#[test]
fn instance_config_is_a_singleton() {
    let plan = set_instance_config(config(), &vec![]).unwrap();
    assert_eq!(plan.entry, EntryTypes::InstanceConfig(config()));
    assert_eq!(plan.links.len(), 1);
    assert_eq!(plan.links[0].link_type, LinkTypes::AnchorToInstanceConfig);
    assert_eq!(anchor_text(&plan.links[0].base), "federation_instance_config");
    let second = set_instance_config(config(), &vec![target_of(&action(7))]);
    assert_eq!(second, Err(ZomeError::InstanceConfigAlreadySet));
    assert_eq!(
        ZomeError::InstanceConfigAlreadySet.message(),
        "InstanceConfig already set for this network"
    );
}

#[test]
fn instance_config_lookup() {
    assert_eq!(get_instance_config(None), Ok(None));
    assert_eq!(
        get_instance_config(Some(TargetRead::NotAction)),
        Err(ZomeError::TargetNotActionHash(LinkTypes::AnchorToInstanceConfig))
    );
    assert_eq!(get_instance_config(Some(TargetRead::Fetched(RecordRead::Absent))), Ok(None));
    assert_eq!(
        get_instance_config(Some(TargetRead::Fetched(RecordRead::Undecodable("x".to_string())))),
        Err(ZomeError::Deserialize(EntryKind::InstanceConfig))
    );
    assert_eq!(
        get_instance_config(Some(TargetRead::Fetched(RecordRead::NoEntry))),
        Err(ZomeError::EntryMissing(EntryKind::InstanceConfig))
    );
    let found = RecordRead::Present { address: action(1), entry: config() };
    assert_eq!(get_instance_config(Some(TargetRead::Fetched(found))), Ok(Some(config())));
}

#[test]
fn zome_error_messages() {
    assert_eq!(
        ZomeError::TargetNotActionHash(LinkTypes::MewToFederationState).message(),
        "MewToFederationState target is not an ActionHash"
    );
    assert_eq!(
        ZomeError::Deserialize(EntryKind::RemoteFollow).message(),
        "Deserialize RemoteFollow"
    );
    assert_eq!(
        ZomeError::DeserializeWithReason(EntryKind::RemoteActorRef, "bad bytes".to_string())
            .message(),
        "Deserialize RemoteActorRef: bad bytes"
    );
    assert_eq!(
        ZomeError::EntryMissing(EntryKind::MewFederationState).message(),
        "MewFederationState entry missing"
    );
    assert_eq!(
        ZomeError::RecordNotFound(EntryKind::RemoteFollower).message(),
        "RemoteFollower record not found"
    );
    assert_eq!(
        ZomeError::NoFederationState.message(),
        "No MewFederationState found for this mew"
    );
    assert_eq!(
        ZomeError::InteractionNotFound.message(),
        "RemoteInteraction with activity_uri not found"
    );
}

fn state(ap_uri: Option<&str>, visibility: FederationVisibility) -> MewFederationState {
    MewFederationState { mew_hash: action(0xdb), ap_uri: ap_uri.map(String::from), visibility }
}

#[test]
fn federation_state_creation_links() {
    let plan = create_mew_federation_state(state(
        Some("https://cats.mewsfeed.example/notes/abc123"),
        FederationVisibility::Public,
    ))
    .unwrap();
    assert_eq!(plan.links.len(), 2);
    assert_eq!(plan.links[0].base, LinkBase::Action(action(0xdb)));
    assert_eq!(plan.links[0].link_type, LinkTypes::MewToFederationState);
    assert_eq!(
        anchor_text(&plan.links[1].base),
        "ap_uri:https://cats.mewsfeed.example/notes/abc123"
    );
    assert_eq!(plan.links[1].link_type, LinkTypes::ApUriToFederationState);
    let plan = create_mew_federation_state(state(None, FederationVisibility::HolochainOnly)).unwrap();
    assert_eq!(plan.links.len(), 1);
    assert_eq!(
        create_mew_federation_state(state(
            Some("https://c.example/x.1073741824:4#boom"),
            FederationVisibility::Public
        )),
        Err(ZomeError::UnbuildableAnchor)
    );
}

#[test]
fn setting_the_ap_uri() {
    let input = || SetApUriInput { mew_hash: action(0xdb), ap_uri: "https://c.example/n/1".to_string() };
    assert_eq!(set_mew_ap_uri(input(), None), Err(ZomeError::NoFederationState));
    assert_eq!(
        set_mew_ap_uri(input(), Some(TargetRead::Fetched(RecordRead::Absent))),
        Err(ZomeError::RecordNotFound(EntryKind::MewFederationState))
    );
    let found = RecordRead::Present {
        address: action(5),
        entry: state(None, FederationVisibility::FollowersOnly),
    };
    let plan = set_mew_ap_uri(input(), Some(TargetRead::Fetched(found))).unwrap();
    assert_eq!(plan.original, action(5));
    assert_eq!(
        plan.entry,
        EntryTypes::MewFederationState(state(
            Some("https://c.example/n/1"),
            FederationVisibility::FollowersOnly
        ))
    );
    assert_eq!(plan.unlinks.len(), 1);
    assert_eq!(plan.unlinks[0].base, LinkBase::Action(action(0xdb)));
    assert_eq!(plan.unlinks[0].link_type, LinkTypes::MewToFederationState);
    assert_eq!(plan.links.len(), 2);
    assert_eq!(plan.links[0].base, LinkBase::Action(action(0xdb)));
    assert_eq!(plan.links[0].link_type, LinkTypes::MewToFederationState);
    assert_eq!(anchor_text(&plan.links[1].base), "ap_uri:https://c.example/n/1");
    let found = RecordRead::Present { address: action(5), entry: state(None, FederationVisibility::Unlisted) };
    assert_eq!(
        get_mew_federation_state(Some(TargetRead::Fetched(found.clone()))),
        Ok(Some(state(None, FederationVisibility::Unlisted)))
    );
    assert_eq!(
        get_mew_by_ap_uri(Some(TargetRead::NotAction)),
        Err(ZomeError::TargetNotActionHash(LinkTypes::ApUriToFederationState))
    );
}

fn actor_ref(name: Option<&str>) -> RemoteActorRef {
    RemoteActorRef {
        actor_uri: "https://mastodon.social/users/bob".to_string(),
        handle: "@bob@mastodon.social".to_string(),
        display_name: name.map(String::from),
    }
}

#[test]
fn remote_actor_upsert() {
    match upsert_remote_actor_ref(actor_ref(None), None).unwrap() {
        UpsertPlan::Create(plan) => {
            assert_eq!(plan.entry, EntryTypes::RemoteActorRef(actor_ref(None)));
            assert_eq!(anchor_text(&plan.links[0].base), "actor_uri:https://mastodon.social/users/bob");
            assert_eq!(plan.links[0].link_type, LinkTypes::ActorUriToRemoteActorRef);
        }
        other => panic!("unexpected {other:?}"),
    }
    let cached = || {
        Some(TargetRead::Fetched(RecordRead::Present { address: action(3), entry: actor_ref(None) }))
    };
    assert_eq!(upsert_remote_actor_ref(actor_ref(None), cached()), Ok(UpsertPlan::Keep(action(3))));
    assert_eq!(
        upsert_remote_actor_ref(actor_ref(Some("Bob")), cached()),
        Ok(UpsertPlan::Update(UpdatePlan {
            original: action(3),
            entry: EntryTypes::RemoteActorRef(actor_ref(Some("Bob"))),
            unlinks: vec![LinkPlan {
                base: LinkBase::Anchor(ap_anchor("actor_uri:https://mastodon.social/users/bob")),
                link_type: LinkTypes::ActorUriToRemoteActorRef,
            }],
            links: vec![LinkPlan {
                base: LinkBase::Anchor(ap_anchor("actor_uri:https://mastodon.social/users/bob")),
                link_type: LinkTypes::ActorUriToRemoteActorRef,
            }],
        }))
    );
    let hostile = RemoteActorRef { actor_uri: "https://m.example/1.8:1073741824#x".to_string(), ..actor_ref(None) };
    assert_eq!(upsert_remote_actor_ref(hostile, None), Err(ZomeError::UnbuildableAnchor));
    assert_eq!(
        upsert_remote_actor_ref(
            actor_ref(None),
            Some(TargetRead::Fetched(RecordRead::Undecodable("eof".to_string())))
        ),
        Err(ZomeError::DeserializeWithReason(EntryKind::RemoteActorRef, "eof".to_string()))
    );
    assert_eq!(
        get_remote_actor_ref(Some(TargetRead::Fetched(RecordRead::Present {
            address: action(3),
            entry: actor_ref(None)
        }))),
        Ok(Some(actor_ref(None)))
    );
}

fn follow() -> RemoteFollow {
    RemoteFollow {
        local_agent: agent(),
        remote_actor_uri: "https://mastodon.social/users/alice".to_string(),
        status: RemoteFollowStatus::Pending,
        created_at: Timestamp::from_micros(1_700_000_000_000_000),
    }
}

#[test]
fn follow_creation_is_idempotent() {
    let plan = match create_remote_follow(follow(), &vec![]).unwrap() {
        DedupPlan::Create(plan) => plan,
        other => panic!("unexpected {other:?}"),
    };
    assert_eq!(plan.entry, EntryTypes::RemoteFollow(follow()));
    assert_eq!(plan.links[0].base, LinkBase::Agent(agent()));
    assert_eq!(plan.links[0].link_type, LinkTypes::AgentToRemoteFollows);
    let anchor = anchor_text(&plan.links[1].base);
    assert!(anchor.starts_with("follow:uhCAk"));
    assert!(anchor.ends_with(":https://mastodon.social/users/alice"));
    let created = action(9);
    assert_eq!(
        create_remote_follow(follow(), &vec![target_of(&created)]),
        Ok(DedupPlan::Existing(created))
    );
    assert_eq!(
        create_remote_follow(follow(), &vec![entry_target(1)]),
        Err(ZomeError::TargetNotActionHash(LinkTypes::FollowDedupToRemoteFollow))
    );
}

#[test]
fn follow_status_update_and_deletion() {
    let input = UpdateFollowStatusInput { follow_hash: action(4), status: RemoteFollowStatus::Accepted };
    let plan = update_remote_follow_status(
        input.clone(),
        RecordRead::Present { address: action(4), entry: follow() },
    )
    .unwrap();
    assert_eq!(plan.original, action(4));
    assert_eq!(
        plan.entry,
        EntryTypes::RemoteFollow(RemoteFollow { status: RemoteFollowStatus::Accepted, ..follow() })
    );
    assert_eq!(plan.unlinks.len(), 2);
    assert_eq!(plan.unlinks[0].base, LinkBase::Agent(agent()));
    assert_eq!(plan.unlinks[0].link_type, LinkTypes::AgentToRemoteFollows);
    assert!(anchor_text(&plan.unlinks[1].base).starts_with("follow:uhCAk"));
    assert_eq!(plan.unlinks[1].link_type, LinkTypes::FollowDedupToRemoteFollow);
    assert_eq!(plan.links, plan.unlinks);
    assert_eq!(
        update_remote_follow_status(input, RecordRead::NoEntry),
        Err(ZomeError::EntryMissing(EntryKind::RemoteFollow))
    );
    let plan = delete_remote_follow(
        action(4),
        RecordRead::Present { address: action(4), entry: follow() },
    )
    .unwrap();
    assert_eq!(plan.entry, action(4));
    assert_eq!(plan.link_sets[0].base, LinkBase::Agent(agent()));
    assert_eq!(plan.link_sets[1].link_type, LinkTypes::FollowDedupToRemoteFollow);
    assert_eq!(
        delete_remote_follow(action(4), RecordRead::Absent),
        Err(ZomeError::RecordNotFound(EntryKind::RemoteFollow))
    );
}

#[test]
fn listing_follows_skips_missing_and_stops_on_errors() {
    let reads = vec![
        TargetRead::Fetched(RecordRead::Present { address: action(1), entry: follow() }),
        TargetRead::Fetched(RecordRead::Absent),
        TargetRead::Fetched(RecordRead::NoEntry),
        TargetRead::Fetched(RecordRead::Present { address: action(2), entry: follow() }),
    ];
    assert_eq!(list_remote_follows(reads), Ok(vec![follow(), follow()]));
    let bad = vec![
        TargetRead::Fetched(RecordRead::Present { address: action(1), entry: follow() }),
        TargetRead::NotAction,
    ];
    assert!(ends_listing(&bad[1]));
    assert!(!ends_listing(&bad[0]));
    assert_eq!(
        list_remote_follows(bad),
        Err(ZomeError::TargetNotActionHash(LinkTypes::AgentToRemoteFollows))
    );
    assert_eq!(
        list_remote_follows(vec![TargetRead::Fetched(RecordRead::Undecodable(String::new()))]),
        Err(ZomeError::Deserialize(EntryKind::RemoteFollow))
    );
}

fn follower() -> RemoteFollower {
    RemoteFollower {
        local_agent: agent(),
        remote_actor_uri: "https://mastodon.social/users/bob".to_string(),
        followed_at: Timestamp::from_micros(0),
    }
}

#[test]
fn follower_crud_decisions() {
    let plan = match create_remote_follower(follower(), &vec![]).unwrap() {
        DedupPlan::Create(plan) => plan,
        other => panic!("unexpected {other:?}"),
    };
    assert_eq!(plan.links[0].link_type, LinkTypes::AgentToRemoteFollowers);
    assert!(anchor_text(&plan.links[1].base).starts_with("follower:uhCAk"));
    let created = action(11);
    assert_eq!(
        create_remote_follower(follower(), &vec![target_of(&created)]),
        Ok(DedupPlan::Existing(created.clone()))
    );
    let listed = list_remote_followers(vec![TargetRead::Fetched(RecordRead::Present {
        address: created.clone(),
        entry: follower(),
    })])
    .unwrap();
    assert_eq!(listed.len(), 1);
    assert_eq!(listed[0].remote_actor_uri, "https://mastodon.social/users/bob");
    let plan = delete_remote_follower(
        created.clone(),
        RecordRead::Present { address: created.clone(), entry: follower() },
    )
    .unwrap();
    assert_eq!(plan.entry, created);
    assert_eq!(plan.link_sets[0].link_type, LinkTypes::AgentToRemoteFollowers);
    assert_eq!(plan.link_sets[1].link_type, LinkTypes::FollowerDedupToRemoteFollower);
}

#[test]
fn deletion_removes_only_links_to_the_entry() {
    let target = action(4);
    let links = vec![
        LinkRecord { target: target_of(&target), create_link_hash: action(20) },
        LinkRecord { target: target_of(&action(5)), create_link_hash: action(21) },
        LinkRecord { target: entry_target(4), create_link_hash: action(22) },
        LinkRecord { target: target_of(&target), create_link_hash: action(23) },
    ];
    assert_eq!(links_targeting(&links, &target), vec![action(20), action(23)]);
}

fn interaction(activity: &str) -> RemoteInteraction {
    RemoteInteraction {
        mew_hash: action(0xdb),
        actor_uri: "https://mastodon.social/users/dave".to_string(),
        interaction_type: RemoteInteractionType::Like,
        activity_uri: activity.to_string(),
        timestamp: Timestamp::from_micros(0),
    }
}

#[test]
fn interaction_creation_and_listing() {
    let plan = match create_remote_interaction(interaction("https://m/a/1"), &vec![]).unwrap() {
        DedupPlan::Create(plan) => plan,
        other => panic!("unexpected {other:?}"),
    };
    assert_eq!(plan.links[0].base, LinkBase::Action(action(0xdb)));
    assert_eq!(anchor_text(&plan.links[1].base), "interaction_activity:https://m/a/1");
    assert_eq!(
        create_remote_interaction(interaction("https://m/a/1"), &vec![target_of(&action(6))]),
        Ok(DedupPlan::Existing(action(6)))
    );
    assert_eq!(
        list_remote_interactions(vec![
            TargetRead::Fetched(RecordRead::Present { address: action(6), entry: interaction("a") }),
            TargetRead::Fetched(RecordRead::Absent),
        ]),
        Ok(vec![interaction("a")])
    );
}

#[test]
fn interaction_deletion_finds_the_first_match() {
    let input = DeleteRemoteInteractionInput { mew_hash: action(0xdb), activity_uri: "b".to_string() };
    let candidates = vec![
        InteractionCandidate { link_hash: action(30), read: TargetRead::NotAction },
        InteractionCandidate {
            link_hash: action(31),
            read: TargetRead::Fetched(RecordRead::Present { address: action(41), entry: interaction("a") }),
        },
        InteractionCandidate {
            link_hash: action(32),
            read: TargetRead::Fetched(RecordRead::Present { address: action(42), entry: interaction("b") }),
        },
        InteractionCandidate {
            link_hash: action(33),
            read: TargetRead::Fetched(RecordRead::Present { address: action(43), entry: interaction("b") }),
        },
    ];
    assert!(!ends_removal_search(&candidates[1], "b"));
    assert!(ends_removal_search(&candidates[2], "b"));
    let removal = delete_remote_interaction(&input, &candidates).unwrap();
    assert_eq!(removal.mew_link, action(32));
    assert_eq!(removal.interaction, action(42));
    assert_eq!(removal.dedup_anchor.text, "interaction_activity:b");
    let missing = DeleteRemoteInteractionInput { mew_hash: action(0xdb), activity_uri: "z".to_string() };
    assert_eq!(delete_remote_interaction(&missing, &candidates), Err(ZomeError::InteractionNotFound));
    let broken = vec![InteractionCandidate {
        link_hash: action(30),
        read: TargetRead::Fetched(RecordRead::Undecodable(String::new())),
    }];
    assert_eq!(
        delete_remote_interaction(&input, &broken),
        Err(ZomeError::Deserialize(EntryKind::RemoteInteraction))
    );
}

#[test]
fn agent_profile_combines_config_and_profile() {
    let profile = Profile {
        nickname: "alice".to_string(),
        fields: ProfileFields::from_pairs(vec![("bio".to_string(), "hi".to_string())]).unwrap(),
    };
    let read = || -> Result<RecordRead<Profile>, String> {
        Ok(RecordRead::Present { address: action(1), entry: profile.clone() })
    };
    let p = get_agent_ap_profile(agent(), Some(config()), read).unwrap().unwrap();
    assert_eq!(p.agent, agent());
    assert_eq!(p.instance_uri, "https://cats.mewsfeed.example");
    assert_eq!(p.public_key_id, "https://cats.mewsfeed.example/actor#main-key");
    assert_eq!(p.nickname.as_deref(), Some("alice"));
    assert_eq!(p.fields.get("bio").as_deref(), Some("hi"));
    assert_eq!(p.fields.get("avatar"), None);
    let undecodable = || -> Result<RecordRead<Profile>, String> { Ok(RecordRead::Undecodable(String::new())) };
    let p = get_agent_ap_profile(agent(), Some(config()), undecodable).unwrap().unwrap();
    assert_eq!(p.nickname, None);
    assert!(p.fields.pairs().is_empty());
    let failing = || -> Result<RecordRead<Profile>, String> { Err("profiles zome down".to_string()) };
    assert_eq!(get_agent_ap_profile(agent(), Some(config()), failing), Err("profiles zome down".to_string()));
    let never = || -> Result<RecordRead<Profile>, String> { panic!("the profile is not read without a config") };
    assert_eq!(get_agent_ap_profile(agent(), None, never), Ok(None));
}

#[test]
fn profile_fields_refuse_repeated_keys() {
    let twice = vec![("bio".to_string(), "a".to_string()), ("bio".to_string(), "b".to_string())];
    assert_eq!(ProfileFields::from_pairs(twice), None);
    let fields = ProfileFields::from_pairs(vec![
        ("avatar".to_string(), "a.png".to_string()),
        ("bio".to_string(), "b".to_string()),
    ])
    .unwrap();
    assert_eq!(fields.pairs().len(), 2);
    assert_eq!(fields.clone(), fields);
    let unsorted = vec![("bio".to_string(), "b".to_string()), ("avatar".to_string(), "a".to_string())];
    assert_eq!(ProfileFields::from_pairs(unsorted), None);
    let prefix_first = vec![("bio".to_string(), "b".to_string()), ("biography".to_string(), "c".to_string())];
    assert!(ProfileFields::from_pairs(prefix_first).is_some());
    let by_code_point = vec![("Z".to_string(), "z".to_string()), ("a".to_string(), "a".to_string())];
    assert!(ProfileFields::from_pairs(by_code_point).is_some());
}

#[test]
fn anchors_with_overflowing_shards_are_refused() {
    let hostile = RemoteFollow { remote_actor_uri: "https://m.example/x.1073741824:4#y".to_string(), ..follow() };
    assert_eq!(create_remote_follow(hostile, &vec![]), Err(ZomeError::UnbuildableAnchor));
    let fine = RemoteFollow { remote_actor_uri: "https://m.example/x.2:3#abcdefg".to_string(), ..follow() };
    assert!(create_remote_follow(fine, &vec![]).is_ok());
    assert_eq!(ZomeError::UnbuildableAnchor.message(), "Anchor path has a shard whose size overflows");
}

#[test]
fn federated_mews_leave_out_holochain_only() {
    let reads = vec![
        TargetRead::Fetched(RecordRead::Present { address: action(1), entry: state(None, FederationVisibility::Public) }),
        TargetRead::NotAction,
        TargetRead::Fetched(RecordRead::Present {
            address: action(2),
            entry: state(None, FederationVisibility::HolochainOnly),
        }),
        TargetRead::Fetched(RecordRead::Present {
            address: action(3),
            entry: state(None, FederationVisibility::Direct(vec!["https://x/u/a".to_string()])),
        }),
    ];
    assert_eq!(
        get_federated_mews_for_agent(reads),
        Ok(vec![
            state(None, FederationVisibility::Public),
            state(None, FederationVisibility::Direct(vec!["https://x/u/a".to_string()])),
        ])
    );
    assert_eq!(
        get_federated_mews_for_agent(vec![TargetRead::Fetched(RecordRead::Undecodable(String::new()))]),
        Err(ZomeError::Deserialize(EntryKind::MewFederationState))
    );
}
