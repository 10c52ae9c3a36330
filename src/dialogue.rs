//! The per-user dialogue that drives multi-step moderator flows
//! (decline with a reason, ban with a reason), and the routing of a
//! moderator's button press.
use vstd::prelude::*;
use crate::codec::{CallbackData, CallbackOperation};
use crate::queue::{QueueMessage, QueueOperation};
use crate::text::{push_signed_decimal, push_char, push_text, signed_decimal};

verus! {

/// Where a user's dialogue stands.
#[derive(Clone, Copy, Debug, PartialEq, Eq, Structural)]
pub enum DialogueState {
    Idle,
    /// The next text is the reason for declining submission `submission`.
    AwaitingDeclineReason { submission: u128 },
    /// The next text is the reason for banning user `user`.
    AwaitingBanReason { user: i64 },
}

/// A ban of a user, with an optional reason.
pub struct BanRecord {
    pub user_id: i64,
    pub reason: Option<String>,
}

/// What a text completes.
pub enum DialogueOutcome {
    /// Enqueue this decline job.
    Decline(QueueMessage),
    /// Record this ban.
    Ban(BanRecord),
}

/// A text from a user in `state`: in a waiting state it is taken as the
/// reason and finishes the flow (a decline job or a ban record) and the
/// dialogue returns to idle; while idle the text is not consumed.
pub fn transition(state: DialogueState, text: String) -> (r: (DialogueState, Option<DialogueOutcome>))
    ensures
        r.0 == DialogueState::Idle,
        match state {
            DialogueState::Idle => r.1 is None,
            DialogueState::AwaitingDeclineReason { submission } => r.1 matches Some(
                DialogueOutcome::Decline(m),
            ) && m.id == submission && m.operation == QueueOperation::Decline && m.reason == Some(
                text,
            ),
            DialogueState::AwaitingBanReason { user } => r.1 matches Some(DialogueOutcome::Ban(b))
                && b.user_id == user && b.reason == Some(text),
        },
{
    match state {
        DialogueState::Idle => (DialogueState::Idle, None),
        DialogueState::AwaitingDeclineReason { submission } => (
            DialogueState::Idle,
            Some(DialogueOutcome::Decline(QueueMessage::decline(submission, text))),
        ),
        DialogueState::AwaitingBanReason { user } => (
            DialogueState::Idle,
            Some(DialogueOutcome::Ban(BanRecord { user_id: user, reason: Some(text) })),
        ),
    }
}

/// What a moderator's button press leads to.
pub enum ModerationAction {
    /// Nothing: the payload names no known submission.
    Ignore,
    /// Enqueue this job.
    Enqueue(QueueMessage),
    /// Move the moderator's dialogue to this state.
    SetState(DialogueState),
}

/// The effect of a decoded button press, given the owner of the targeted
/// submission (`None` when no submission is found): approval is enqueued
/// directly; decline and ban start the dialogue that asks for a reason;
/// cancel returns the dialogue to idle.
pub fn route_action(data: CallbackData, owner: Option<i64>) -> (r: ModerationAction)
    ensures
        match data.operation {
            CallbackOperation::Cancel => r matches ModerationAction::SetState(s) && s
                == DialogueState::Idle,
            _ => match (data.document, owner) {
                (Some(id), Some(user)) => match data.operation {
                    CallbackOperation::Approve => r matches ModerationAction::Enqueue(m) && m.id == id
                        && m.operation == QueueOperation::Approve && m.reason is None,
                    CallbackOperation::Decline => r matches ModerationAction::SetState(s) && s
                        == (DialogueState::AwaitingDeclineReason { submission: id }),
                    _ => r matches ModerationAction::SetState(s) && s
                        == (DialogueState::AwaitingBanReason { user }),
                },
                _ => r is Ignore,
            },
        },
{
    match data.operation {
        CallbackOperation::Cancel => ModerationAction::SetState(DialogueState::Idle),
        _ => match (data.document, owner) {
            (Some(id), Some(user)) => match data.operation {
                CallbackOperation::Approve => ModerationAction::Enqueue(QueueMessage::approve(id)),
                CallbackOperation::Decline => ModerationAction::SetState(
                    DialogueState::AwaitingDeclineReason { submission: id },
                ),
                _ => ModerationAction::SetState(DialogueState::AwaitingBanReason { user }),
            },
            _ => ModerationAction::Ignore,
        },
    }
}

/// The storage key of a user's dialogue state in flow `namespace`:
/// the user id in decimal, an underscore, the namespace.
pub open spec fn state_key_of(user_id: i64, namespace: Seq<char>) -> Seq<char> {
    signed_decimal(user_id as int) + seq!['_'] + namespace
}

/// The storage key of a user's dialogue state in flow `namespace`.
pub fn state_key(user_id: i64, namespace: &str) -> (r: String)
    ensures
        r@ == state_key_of(user_id, namespace@),
{
    let mut s = String::new();
    push_signed_decimal(&mut s, user_id);
    push_char(&mut s, '_');
    push_text(&mut s, namespace);
    assert(s@ =~= state_key_of(user_id, namespace@));
    s
}

/// The reason recorded for a ban given by command, without a dialogue.
pub open spec fn command_ban_reason() -> Seq<char> {
    "Причина не указана"@
}

/// The ban command: only the administrator may give it, and only in reply to
/// a forwarded submission, whose owner is then banned.
pub fn ban_command(sender: i64, admin: i64, replied_owner: Option<i64>) -> (r: Option<BanRecord>)
    ensures
        match r {
            Some(b) => sender == admin && replied_owner == Some(b.user_id) && (b.reason matches Some(
                t,
            ) && t@ == command_ban_reason()),
            None => sender != admin || replied_owner is None,
        },
{
    if sender != admin {
        return None;
    }
    match replied_owner {
        Some(user) => {
            let mut reason = String::new();
            push_text(&mut reason, "Причина не указана");
            Some(BanRecord { user_id: user, reason: Some(reason) })
        },
        None => None,
    }
}

} // verus!
