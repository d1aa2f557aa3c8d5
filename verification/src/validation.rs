//! The rules of the integrity zome: which DHT operations are valid.

use vstd::prelude::*;
use crate::entries::{EntryTypes, RemoteFollow};
use crate::hashes::{ActionHash, AgentPubKey};

verus! {

/// The verdict of a validation callback.
#[derive(Clone, Debug, PartialEq, Eq)]
pub enum ValidateCallbackResult {
    Valid,
    Invalid(String),
}

/// `r` is `Invalid` with the text `text`.
pub open spec fn invalid_with(r: ValidateCallbackResult, text: Seq<char>) -> bool {
    r matches ValidateCallbackResult::Invalid(m) && m@ == text
}

/// A DHT operation after flattening, reduced to what the rules read: which
/// kind of operation it is and, for one that writes an app entry, the entry
/// and the author of the writing action.
#[derive(Clone, Debug, PartialEq, Eq)]
pub enum OpView {
    /// Store an entry created by an action.
    StoreEntryCreate { entry: EntryTypes, author: AgentPubKey },
    /// Store an entry written by an update.
    StoreEntryUpdate { entry: EntryTypes, author: AgentPubKey },
    /// Store any other entry (an agent key).
    StoreEntryOther,
    /// Register an update of an app entry.
    RegisterUpdateEntry { entry: EntryTypes, author: AgentPubKey },
    /// Register any other update.
    RegisterUpdateOther,
    RegisterDelete,
    RegisterCreateLink,
    RegisterDeleteLink,
    /// Store the record of an action that creates an app entry.
    StoreRecordCreateEntry { entry: EntryTypes, author: AgentPubKey },
    /// Store the record of an action that updates an app entry.
    StoreRecordUpdateEntry { entry: EntryTypes, author: AgentPubKey },
    /// Store any other record.
    StoreRecordOther,
    /// Register the agent activity that creates an agent; the action before it.
    RegisterCreateAgent { agent: AgentPubKey, prev_action: ActionHash },
    /// Register any other agent activity.
    RegisterAgentActivityOther,
}

/// What validating an operation needs next.
#[derive(Clone, Debug, PartialEq, Eq)]
pub enum ValidationStep {
    /// The verdict, with nothing more to read.
    Done(ValidateCallbackResult),
    /// Read the author of the mew action `mew_hash`, then compare it with
    /// `state_author` (`validate_mew_federation_state`).
    CheckMewAuthor { mew_hash: ActionHash, state_author: AgentPubKey },
    /// Read the action `prev_action`, then judge it (`validate_create_agent`).
    CheckPreviousAction { agent: AgentPubKey, prev_action: ActionHash },
}

/// The action before a `CreateAgent`, as the rules read it.
#[derive(Clone, Debug, PartialEq, Eq)]
pub enum PreviousAction {
    AgentValidationPkg { membrane_proof: Option<Vec<u8>> },
    Other,
}

/// Genesis self-check: every agent passes.
pub fn genesis_self_check() -> (res: ValidateCallbackResult)
    ensures
        res == ValidateCallbackResult::Valid,
{
    ValidateCallbackResult::Valid
}

/// Membrane check on joining: every agent may join.
pub fn validate_agent_joining(agent: &AgentPubKey, membrane_proof: &Option<Vec<u8>>) -> (res:
    ValidateCallbackResult)
    ensures
        res == ValidateCallbackResult::Valid,
{
    ValidateCallbackResult::Valid
}

/// A federation state is valid only when written by the author of its mew.
pub fn validate_mew_federation_state(state_author: &AgentPubKey, mew_author: &AgentPubKey) -> (res:
    ValidateCallbackResult)
    ensures
        state_author@ == mew_author@ ==> res == ValidateCallbackResult::Valid,
        state_author@ != mew_author@ ==> invalid_with(
            res,
            "Only the mew author may create a MewFederationState"@,
        ),
{
    if !state_author.same_as(mew_author) {
        return ValidateCallbackResult::Invalid(
            String::from_str("Only the mew author may create a MewFederationState"),
        );
    }
    ValidateCallbackResult::Valid
}

/// An outbound follow is valid only when written by its own local agent.
pub fn validate_remote_follow(author: &AgentPubKey, follow: &RemoteFollow) -> (res:
    ValidateCallbackResult)
    ensures
        author@ == follow.local_agent@ ==> res == ValidateCallbackResult::Valid,
        author@ != follow.local_agent@ ==> invalid_with(
            res,
            "RemoteFollow local_agent must match the action author"@,
        ),
{
    if !author.same_as(&follow.local_agent) {
        return ValidateCallbackResult::Invalid(
            String::from_str("RemoteFollow local_agent must match the action author"),
        );
    }
    ValidateCallbackResult::Valid
}

/// A `CreateAgent` is valid only right after an agent validation package,
/// whose membrane proof then decides.
pub fn validate_create_agent(agent: &AgentPubKey, previous: &PreviousAction) -> (res:
    ValidateCallbackResult)
    ensures
        previous is AgentValidationPkg ==> res == ValidateCallbackResult::Valid,
        previous is Other ==> invalid_with(
            res,
            "The previous action for a `CreateAgent` action must be an `AgentValidationPkg`"@,
        ),
{
    match previous {
        PreviousAction::AgentValidationPkg { membrane_proof } => validate_agent_joining(
            agent,
            membrane_proof,
        ),
        PreviousAction::Other => ValidateCallbackResult::Invalid(
            String::from_str(
                "The previous action for a `CreateAgent` action must be an `AgentValidationPkg`",
            ),
        ),
    }
}

/// The entry written by an operation and the author who wrote it, for the
/// operations that create or update an app entry.
pub open spec fn entry_write(op: OpView) -> Option<(EntryTypes, AgentPubKey)> {
    match op {
        OpView::StoreEntryCreate { entry, author } => Some((entry, author)),
        OpView::StoreEntryUpdate { entry, author } => Some((entry, author)),
        OpView::RegisterUpdateEntry { entry, author } => Some((entry, author)),
        OpView::StoreRecordCreateEntry { entry, author } => Some((entry, author)),
        OpView::StoreRecordUpdateEntry { entry, author } => Some((entry, author)),
        _ => None,
    }
}

/// The rule for an app entry written by `author`: `res` is what it needs next.
pub open spec fn entry_rule(entry: EntryTypes, author: AgentPubKey, res: ValidationStep) -> bool {
    match entry {
        EntryTypes::MewFederationState(state) => res == ValidationStep::CheckMewAuthor {
            mew_hash: state.mew_hash,
            state_author: author,
        },
        EntryTypes::RemoteFollow(follow) => res matches ValidationStep::Done(r) && (if author@
            == follow.local_agent@ {
            r == ValidateCallbackResult::Valid
        } else {
            invalid_with(r, "RemoteFollow local_agent must match the action author"@)
        }),
        _ => res == ValidationStep::Done(ValidateCallbackResult::Valid),
    }
}

fn validate_entry_write(entry: EntryTypes, author: AgentPubKey) -> (res: ValidationStep)
    ensures
        entry_rule(entry, author, res),
{
    match entry {
        EntryTypes::MewFederationState(state) => ValidationStep::CheckMewAuthor {
            mew_hash: state.mew_hash,
            state_author: author,
        },
        EntryTypes::RemoteFollow(follow) => ValidationStep::Done(
            validate_remote_follow(&author, &follow),
        ),
        _ => ValidationStep::Done(ValidateCallbackResult::Valid),
    }
}

/// The step that validating `op` takes.
pub open spec fn validation_rule(op: OpView, res: ValidationStep) -> bool {
    match entry_write(op) {
        Some((entry, author)) => entry_rule(entry, author, res),
        None => match op {
            OpView::RegisterCreateAgent { agent, prev_action } => res
                == ValidationStep::CheckPreviousAction { agent, prev_action },
            _ => res == ValidationStep::Done(ValidateCallbackResult::Valid),
        },
    }
}

/// The validation callback: federation states must be written by their
/// mew's author, outbound follows by their local agent, a new agent must
/// follow its validation package; every other operation is valid.
pub fn validate(op: OpView) -> (res: ValidationStep)
    ensures
        validation_rule(op, res),
{
    match op {
        OpView::StoreEntryCreate { entry, author } => validate_entry_write(entry, author),
        OpView::StoreEntryUpdate { entry, author } => validate_entry_write(entry, author),
        OpView::RegisterUpdateEntry { entry, author } => validate_entry_write(entry, author),
        OpView::StoreRecordCreateEntry { entry, author } => validate_entry_write(entry, author),
        OpView::StoreRecordUpdateEntry { entry, author } => validate_entry_write(entry, author),
        OpView::RegisterCreateAgent { agent, prev_action } => ValidationStep::CheckPreviousAction {
            agent,
            prev_action,
        },
        _ => ValidationStep::Done(ValidateCallbackResult::Valid),
    }
}

} // verus!
