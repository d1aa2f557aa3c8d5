use mews_federation::coordinator::{AgentApProfile, ProfileFields};
use mews_federation::entries::{MewFederationState, FederationVisibility, RemoteInteractionType};
use mews_federation::hashes::{ActionHash, AgentPubKey, Timestamp};
use mews_federation::s2s::{
    actor_document, build_actor_url, extract_domain, extract_handle_from_uri,
    handle_from_parsed_uri, mew_hash_for_ap_uri, outbox_collection, plan_inbox,
    profile_names_user, unknown_user, webfinger_response, zome_call_failure, zome_decode_failure,
    zome_encode_failure, reply_on_found_mew, ActivityObject, InboxActivity, InboxPlan, PendingInteraction,
    S2SError, UrlParts,
};

#[test]
fn test_extract_domain() {
    assert_eq!(
        extract_domain("https://cats.mewsfeed.example").unwrap(),
        "cats.mewsfeed.example"
    );
    assert_eq!(extract_domain("http://localhost:3000").unwrap(), "localhost");
}

#[test]
fn test_extract_handle_from_uri() {
    assert_eq!(
        extract_handle_from_uri("https://mastodon.social/users/alice"),
        "@alice@mastodon.social"
    );
    assert_eq!(
        extract_handle_from_uri("https://pleroma.example/users/bob"),
        "@bob@pleroma.example"
    );
}

#[test]
fn test_extract_handle_from_uri_malformed() {
    assert_eq!(extract_handle_from_uri("not-a-url"), "@unknown@unknown");
}

#[test]
fn extract_domain_reports_parse_and_host_errors() {
    assert_eq!(
        extract_domain("not-a-url"),
        Err(S2SError::Internal(
            "parse instance_uri: relative URL without a base".to_string()
        ))
    );
    assert_eq!(
        extract_domain("mailto:cat@example.org"),
        Err(S2SError::Internal(
            "no host in instance_uri: mailto:cat@example.org".to_string()
        ))
    );
}

#[test]
fn handle_without_users_segment_is_unknown_user() {
    assert_eq!(
        extract_handle_from_uri("https://example.org/@carol"),
        "@unknown@example.org"
    );
    assert_eq!(
        extract_handle_from_uri("https://example.org/users"),
        "@unknown@example.org"
    );
    assert_eq!(
        extract_handle_from_uri("https://example.org/a/users/dave/extra"),
        "@dave@example.org"
    );
}

#[test]
fn handle_from_parts_without_host() {
    let parts = UrlParts {
        host: None,
        path_segments: Some(vec!["users".to_string(), "erin".to_string()]),
    };
    assert_eq!(handle_from_parsed_uri(&Ok(parts)), "@erin@unknown");
    let no_path = UrlParts { host: Some("h.example".to_string()), path_segments: None };
    assert_eq!(handle_from_parsed_uri(&Ok(no_path)), "@unknown@h.example");
    assert_eq!(handle_from_parsed_uri(&Err("bad".to_string())), "@unknown@unknown");
}

#[test]
fn zome_call_failures_are_classified() {
    assert_eq!(
        zome_call_failure("activitypub", "get_mew_by_ap_uri", "record not found"),
        S2SError::NotFound("record not found".to_string())
    );
    assert_eq!(
        zome_call_failure("activitypub", "get_mew_by_ap_uri", "dependency missing"),
        S2SError::NotFound("dependency missing".to_string())
    );
    assert_eq!(
        zome_call_failure("activitypub", "set_instance_config", "boom"),
        S2SError::Internal("zome call activitypub::set_instance_config: boom".to_string())
    );
    assert_eq!(
        zome_encode_failure("x"),
        S2SError::Internal("encode zome input: x".to_string())
    );
    assert_eq!(
        zome_decode_failure("activitypub", "f", "y"),
        S2SError::Internal("decode activitypub::f response: y".to_string())
    );
}

#[test]
fn actor_url_and_webfinger() {
    assert_eq!(
        build_actor_url("https://cats.mewsfeed.example", "alice"),
        "https://cats.mewsfeed.example/users/alice"
    );
    let wf = webfinger_response("https://cats.mewsfeed.example", "alice", "cats.mewsfeed.example");
    assert_eq!(wf.subject, "acct:alice@cats.mewsfeed.example");
    assert_eq!(wf.aliases, vec!["https://cats.mewsfeed.example/users/alice".to_string()]);
    assert_eq!(wf.links.len(), 2);
    assert_eq!(wf.links[0].rel, "self");
    assert_eq!(wf.links[0].link_type.as_deref(), Some("application/activity+json"));
    assert_eq!(
        wf.links[1].href.as_deref(),
        Some("https://cats.mewsfeed.example/users/alice")
    );
    assert_eq!(wf.links[1].rel, "http://webfinger.net/rel/profile-page");
}

fn agent() -> AgentPubKey {
    AgentPubKey::from_raw_36(vec![0x84; 36])
}

#[test]
fn actor_document_from_profile() {
    let profile = AgentApProfile {
        agent: agent(),
        instance_uri: "https://cats.mewsfeed.example".to_string(),
        public_key_id: "https://cats.mewsfeed.example/actor#main-key".to_string(),
        nickname: Some("alice".to_string()),
        fields: ProfileFields::from_pairs(vec![
            ("avatar".to_string(), "a.png".to_string()),
            ("bio".to_string(), "cats!".to_string()),
        ])
        .unwrap(),
    };
    let actor = actor_document("https://c.example", "alice", &profile, "PEM".to_string());
    assert_eq!(actor.id, "https://c.example/users/alice");
    assert_eq!(actor.actor_type, "Person");
    assert_eq!(actor.name.as_deref(), Some("alice"));
    assert_eq!(actor.summary.as_deref(), Some("<p>cats!</p>"));
    assert_eq!(actor.inbox, "https://c.example/users/alice/inbox");
    assert_eq!(actor.outbox, "https://c.example/users/alice/outbox");
    assert_eq!(actor.followers.as_deref(), Some("https://c.example/users/alice/followers"));
    assert_eq!(actor.following.as_deref(), Some("https://c.example/users/alice/following"));
    assert_eq!(actor.public_key.id, "https://c.example/users/alice#main-key");
    assert_eq!(actor.public_key.owner, "https://c.example/users/alice");
    assert_eq!(actor.public_key.public_key_pem, "PEM");
    assert!(!actor.manually_approves_followers);
    assert!(actor.discoverable);

    let no_bio = AgentApProfile { fields: ProfileFields::new(), nickname: None, ..profile };
    let actor = actor_document("https://c.example", "alice", &no_bio, String::new());
    assert_eq!(actor.summary, None);
    assert_eq!(actor.name, None);
}

#[test]
fn outbox_has_first_page_only_when_not_empty() {
    let empty = outbox_collection("https://c.example", "bob", 0);
    assert_eq!(empty.id, "https://c.example/users/bob/outbox");
    assert_eq!(empty.collection_type, "OrderedCollection");
    assert_eq!(empty.total_items, 0);
    assert_eq!(empty.first, None);
    let full = outbox_collection("https://c.example", "bob", 3);
    assert_eq!(full.total_items, 3);
    assert_eq!(full.first.as_deref(), Some("https://c.example/users/bob/outbox?page=true"));
    assert_eq!(full.last, None);
}

#[test]
fn usernames_resolve_by_nickname() {
    let profile = AgentApProfile {
        agent: agent(),
        instance_uri: String::new(),
        public_key_id: String::new(),
        nickname: Some("alice".to_string()),
        fields: ProfileFields::new(),
    };
    let some = Some(profile);
    assert!(profile_names_user(&some, "alice"));
    assert!(!profile_names_user(&some, "alicia"));
    assert!(!profile_names_user(&None, "alice"));
    assert_eq!(unknown_user("zed"), S2SError::NotFound("user: zed".to_string()));
}

#[test]
fn ap_uri_resolution() {
    let mew = ActionHash::from_raw_36(vec![0xdb; 36]);
    let state = MewFederationState {
        mew_hash: mew.clone(),
        ap_uri: None,
        visibility: FederationVisibility::Public,
    };
    assert_eq!(mew_hash_for_ap_uri("u", Some(state)), Ok(mew));
    assert_eq!(
        mew_hash_for_ap_uri("https://x/notes/1", None),
        Err(S2SError::NotFound("no mew for AP URI: https://x/notes/1".to_string()))
    );
}

fn object() -> ActivityObject {
    ActivityObject { text: None, kind: None, id: None, object: None, in_reply_to: None }
}

fn activity(kind: &str, object: ActivityObject) -> InboxActivity {
    InboxActivity {
        id: "https://mastodon.social/activities/1".to_string(),
        activity_type: kind.to_string(),
        actor: "https://mastodon.social/users/bob".to_string(),
        object,
    }
}

#[test]
fn inbox_follow_records_follower_and_actor() {
    let now = Timestamp::from_micros(1_700_000_000_000_000);
    let plan = plan_inbox(agent(), activity("Follow", object()), now.clone()).unwrap();
    match plan {
        InboxPlan::RecordFollower { follower, actor_ref } => {
            assert_eq!(follower.local_agent, agent());
            assert_eq!(follower.remote_actor_uri, "https://mastodon.social/users/bob");
            assert_eq!(follower.followed_at, now);
            assert_eq!(actor_ref.actor_uri, "https://mastodon.social/users/bob");
            assert_eq!(actor_ref.handle, "@bob@mastodon.social");
            assert_eq!(actor_ref.display_name, None);
        }
        other => panic!("unexpected plan {other:?}"),
    }
}

#[test]
fn inbox_like_and_announce_need_a_uri() {
    let now = Timestamp::from_micros(0);
    let liked = ActivityObject { text: Some("https://c.example/notes/1".to_string()), ..object() };
    match plan_inbox(agent(), activity("Like", liked.clone()), now.clone()).unwrap() {
        InboxPlan::RecordInteraction { object_uri, interaction } => {
            assert_eq!(object_uri, "https://c.example/notes/1");
            assert_eq!(interaction.interaction_type, RemoteInteractionType::Like);
            assert_eq!(interaction.actor_uri, "https://mastodon.social/users/bob");
            assert_eq!(interaction.activity_uri, "https://mastodon.social/activities/1");
            let mew = ActionHash::from_raw_36(vec![1; 36]);
            let done = interaction.on_mew(mew.clone(), now.clone());
            assert_eq!(done.mew_hash, mew);
            assert_eq!(done.timestamp, now);
        }
        other => panic!("unexpected plan {other:?}"),
    }
    match plan_inbox(agent(), activity("Announce", liked), now.clone()).unwrap() {
        InboxPlan::RecordInteraction { interaction, .. } => {
            assert_eq!(interaction.interaction_type, RemoteInteractionType::Announce)
        }
        other => panic!("unexpected plan {other:?}"),
    }
    assert_eq!(
        plan_inbox(agent(), activity("Like", object()), now.clone()),
        Err(S2SError::BadRequest("Like object must be a URI".to_string()))
    );
    assert_eq!(
        plan_inbox(agent(), activity("Announce", object()), now),
        Err(S2SError::BadRequest("Announce object must be a URI".to_string()))
    );
}

#[test]
fn inbox_undo() {
    let now = Timestamp::from_micros(0);
    let undo_like = ActivityObject {
        kind: Some("Like".to_string()),
        id: Some("https://m.example/likes/9".to_string()),
        object: Some("https://c.example/notes/1".to_string()),
        ..object()
    };
    assert_eq!(
        plan_inbox(agent(), activity("Undo", undo_like.clone()), now.clone()),
        Ok(InboxPlan::RemoveInteraction {
            object_uri: "https://c.example/notes/1".to_string(),
            activity_uri: "https://m.example/likes/9".to_string(),
        })
    );
    let no_id = ActivityObject { id: None, ..undo_like.clone() };
    assert_eq!(
        plan_inbox(agent(), activity("Undo", no_id), now.clone()),
        Err(S2SError::BadRequest("Undo object must have id".to_string()))
    );
    let no_object = ActivityObject { object: None, kind: Some("Announce".to_string()), ..undo_like };
    assert_eq!(
        plan_inbox(agent(), activity("Undo", no_object), now.clone()),
        Err(S2SError::BadRequest("Undo inner object must be a URI".to_string()))
    );
    let undo_follow = ActivityObject { kind: Some("Follow".to_string()), ..object() };
    assert_eq!(
        plan_inbox(agent(), activity("Undo", undo_follow), now.clone()),
        Ok(InboxPlan::Nothing)
    );
    assert_eq!(plan_inbox(agent(), activity("Undo", object()), now), Ok(InboxPlan::Nothing));
}

#[test]
fn inbox_create_reply_and_others() {
    let now = Timestamp::from_micros(0);
    let reply = ActivityObject {
        in_reply_to: Some("https://c.example/notes/1".to_string()),
        id: Some("https://m.example/notes/2".to_string()),
        ..object()
    };
    match plan_inbox(agent(), activity("Create", reply.clone()), now.clone()).unwrap() {
        InboxPlan::RecordReply { in_reply_to, interaction } => {
            assert_eq!(in_reply_to, "https://c.example/notes/1");
            assert_eq!(
                interaction.interaction_type,
                RemoteInteractionType::Reply { note_uri: "https://m.example/notes/2".to_string() }
            );
        }
        other => panic!("unexpected plan {other:?}"),
    }
    let reply_without_id = ActivityObject { id: None, ..reply };
    match plan_inbox(agent(), activity("Create", reply_without_id), now.clone()).unwrap() {
        InboxPlan::RecordReply { interaction, .. } => assert_eq!(
            interaction.interaction_type,
            RemoteInteractionType::Reply {
                note_uri: "https://mastodon.social/activities/1".to_string()
            }
        ),
        other => panic!("unexpected plan {other:?}"),
    }
    assert_eq!(plan_inbox(agent(), activity("Create", object()), now.clone()), Ok(InboxPlan::Nothing));
    assert_eq!(plan_inbox(agent(), activity("Accept", object()), now.clone()), Ok(InboxPlan::Nothing));
    assert_eq!(plan_inbox(agent(), activity("Delete", object()), now), Ok(InboxPlan::Nothing));
}

#[test]
fn replies_are_recorded_only_on_a_found_mew() {
    let now = Timestamp::from_micros(7);
    let pending = PendingInteraction {
        actor_uri: "https://m.example/users/eve".to_string(),
        interaction_type: RemoteInteractionType::Reply { note_uri: "https://m.example/notes/9".to_string() },
        activity_uri: "https://m.example/activities/9".to_string(),
    };
    let state = MewFederationState {
        mew_hash: ActionHash::from_raw_36(vec![0xdb; 36]),
        ap_uri: Some("https://c.example/notes/1".to_string()),
        visibility: FederationVisibility::Public,
    };
    let recorded = reply_on_found_mew(Ok(Some(state)), pending.clone(), now.clone()).unwrap();
    assert_eq!(recorded.mew_hash, ActionHash::from_raw_36(vec![0xdb; 36]));
    assert_eq!(recorded.actor_uri, "https://m.example/users/eve");
    assert_eq!(recorded.activity_uri, "https://m.example/activities/9");
    assert_eq!(recorded.timestamp, now);
    assert_eq!(reply_on_found_mew(Ok(None), pending.clone(), now.clone()), None);
    assert_eq!(
        reply_on_found_mew(Err(S2SError::Internal("zome call failed".to_string())), pending, now),
        None
    );
}
