use mews_federation::anchors::{ap_uri_anchor, instance_config_anchor, AnchorPath};
use mews_federation::shard::path_text_fits;
use mews_federation::entries::{EntryTypes, RemoteFollow, RemoteFollowStatus, RemoteActorRef, MewFederationState, FederationVisibility};
use mews_federation::hashes::{ActionHash, AgentPubKey, LinkTarget, Timestamp};
use mews_federation::validation::{
    genesis_self_check, validate, validate_create_agent, validate_mew_federation_state,
    OpView, PreviousAction, ValidateCallbackResult, ValidationStep,
};

fn utf32(s: &str) -> Vec<u8> {
    s.chars().flat_map(|c| (c as u32).to_le_bytes()).collect()
}

#[test]
fn action_hashes_carry_their_prefix() {
    let hash = ActionHash::from_raw_36(vec![0xdb; 36]);
    let raw = hash.get_raw_39().to_vec();
    assert_eq!(&raw[..3], &[0x84, 0x29, 0x24]);
    assert_eq!(&raw[3..], &[0xdb; 36][..]);
    assert!(hash.to_text().starts_with("uhCkk"));
    assert_eq!(ActionHash::try_from_raw_39(raw.clone()), Some(hash.clone()));
    assert_eq!(ActionHash::try_from_raw_39(raw[..38].to_vec()), None);
    let agent = AgentPubKey::from_raw_36(vec![0x84; 36]);
    assert!(agent.to_text().starts_with("uhCAk"));
    assert_eq!(ActionHash::try_from_raw_39(agent.get_raw_39().to_vec()), None);
    assert_eq!(AgentPubKey::try_from_raw_39(agent.get_raw_39().to_vec()), Some(agent.clone()));
    assert_eq!(AgentPubKey::try_from_raw_39(raw.clone()), None);
    assert!(hash.same_as(&hash.clone()));
    assert!(!agent.same_as(&AgentPubKey::from_raw_36(vec![1; 36])));
}

#[test]
fn link_targets_read_as_action_hashes() {
    let hash = ActionHash::from_raw_36(vec![7; 36]);
    let target = LinkTarget::from_raw_39(hash.get_raw_39().to_vec());
    assert_eq!(target.to_action_hash(), Some(hash));
    let mut entry = vec![0x84, 0x21, 0x24];
    entry.extend(vec![7; 36]);
    assert_eq!(LinkTarget::from_raw_39(entry).to_action_hash(), None);
    assert_eq!(LinkTarget::from_raw_39(vec![1, 2, 3]).to_action_hash(), None);
}

#[test]
fn timestamps_keep_microseconds() {
    assert_eq!(Timestamp::from_micros(1_700_000_000_000_000).as_micros(), 1_700_000_000_000_000);
}

#[test]
fn anchors_are_split_into_path_components() {
    let anchor = instance_config_anchor();
    assert_eq!(anchor.text, "federation_instance_config");
    assert_eq!(anchor.components, vec![utf32("federation_instance_config")]);
    let AnchorPath { text, components } = ap_uri_anchor("https://c.example/n/1").unwrap();
    assert_eq!(text, "ap_uri:https://c.example/n/1");
    assert_eq!(components, vec![utf32("ap_uri:https://c"), utf32("example/n/1")]);
    assert!(ap_uri_anchor("https://c.example/1073741824:4#x").is_some());
    assert!(ap_uri_anchor("https://c.example.1073741824:4#x").is_none());
    assert!(ap_uri_anchor("https://c.example.4:80/#frag").is_some());
    assert!(path_text_fits("a.0:4294967295#b"));
    assert!(!path_text_fits("a.1:1073741824#b"));
    assert!(path_text_fits("a.1:1073741823#b"));
    assert!(path_text_fits("a.99999999999:1#b"));
    assert!(!path_text_fits("7:+1073741824#"));
}

fn agent(byte: u8) -> AgentPubKey {
    AgentPubKey::from_raw_36(vec![byte; 36])
}

fn follow(by: u8) -> RemoteFollow {
    RemoteFollow {
        local_agent: agent(by),
        remote_actor_uri: "https://m.example/users/a".to_string(),
        status: RemoteFollowStatus::Pending,
        created_at: Timestamp::from_micros(0),
    }
}

#[test]
fn remote_follows_must_be_written_by_their_agent() {
    assert_eq!(
        validate(OpView::StoreEntryCreate { entry: EntryTypes::RemoteFollow(follow(1)), author: agent(1) }),
        ValidationStep::Done(ValidateCallbackResult::Valid)
    );
    assert_eq!(
        validate(OpView::StoreRecordUpdateEntry { entry: EntryTypes::RemoteFollow(follow(1)), author: agent(2) }),
        ValidationStep::Done(ValidateCallbackResult::Invalid(
            "RemoteFollow local_agent must match the action author".to_string()
        ))
    );
}

#[test]
fn federation_states_need_their_mew_author() {
    let state = MewFederationState {
        mew_hash: ActionHash::from_raw_36(vec![0xdb; 36]),
        ap_uri: None,
        visibility: FederationVisibility::Public,
    };
    assert_eq!(
        validate(OpView::RegisterUpdateEntry { entry: EntryTypes::MewFederationState(state), author: agent(3) }),
        ValidationStep::CheckMewAuthor { mew_hash: ActionHash::from_raw_36(vec![0xdb; 36]), state_author: agent(3) }
    );
    assert_eq!(validate_mew_federation_state(&agent(3), &agent(3)), ValidateCallbackResult::Valid);
    assert_eq!(
        validate_mew_federation_state(&agent(3), &agent(4)),
        ValidateCallbackResult::Invalid("Only the mew author may create a MewFederationState".to_string())
    );
}

#[test]
fn other_ops_are_valid_and_agents_need_a_package() {
    let actor = RemoteActorRef { actor_uri: String::new(), handle: String::new(), display_name: None };
    assert_eq!(
        validate(OpView::StoreEntryCreate { entry: EntryTypes::RemoteActorRef(actor), author: agent(1) }),
        ValidationStep::Done(ValidateCallbackResult::Valid)
    );
    assert_eq!(validate(OpView::RegisterDelete), ValidationStep::Done(ValidateCallbackResult::Valid));
    assert_eq!(validate(OpView::StoreEntryOther), ValidationStep::Done(ValidateCallbackResult::Valid));
    let prev = ActionHash::from_raw_36(vec![2; 36]);
    assert_eq!(
        validate(OpView::RegisterCreateAgent { agent: agent(1), prev_action: prev.clone() }),
        ValidationStep::CheckPreviousAction { agent: agent(1), prev_action: prev }
    );
    assert_eq!(
        validate_create_agent(&agent(1), &PreviousAction::AgentValidationPkg { membrane_proof: None }),
        ValidateCallbackResult::Valid
    );
    assert_eq!(
        validate_create_agent(&agent(1), &PreviousAction::Other),
        ValidateCallbackResult::Invalid(
            "The previous action for a `CreateAgent` action must be an `AgentValidationPkg`".to_string()
        )
    );
    assert_eq!(genesis_self_check(), ValidateCallbackResult::Valid);
}

#[test]
fn hash_texts_use_the_url_safe_alphabet() {
    for byte in [0u8, 0x3e, 0x3f, 0xfb, 0xff] {
        let text = AgentPubKey::from_raw_36(vec![byte; 36]).to_text();
        assert!(text.starts_with('u'));
        assert!(text[1..].chars().all(|c| c.is_ascii_alphanumeric() || c == '-' || c == '_'));
    }
}
