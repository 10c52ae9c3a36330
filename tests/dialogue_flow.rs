use photo_moderation::codec::{CallbackData, CallbackOperation};
use photo_moderation::dialogue::{ban_command, route_action, state_key, transition, DialogueOutcome, DialogueState, ModerationAction};
use photo_moderation::queue::{decline_notice, route_job, JobPlan, QueueOperation};
use photo_moderation::submission::Submission;

#[test]
fn scenario_decline_with_reason() {
    let sub = Submission::pending(9, 1001, "h".to_string(), Some("image/jpeg".to_string()), 0);
    let press = CallbackData { operation: CallbackOperation::Decline, document: Some(9) };
    let state = match route_action(press, Some(sub.user_id)) {
        ModerationAction::SetState(s) => s,
        _ => panic!("expected a dialogue state"),
    };
    assert_eq!(state, DialogueState::AwaitingDeclineReason { submission: 9 });
    let (next, outcome) = transition(state, "blurry".to_string());
    assert_eq!(next, DialogueState::Idle);
    let job = match outcome {
        Some(DialogueOutcome::Decline(m)) => m,
        _ => panic!("expected a decline job"),
    };
    assert_eq!(job.id, 9);
    assert_eq!(job.operation, QueueOperation::Decline);
    assert_eq!(job.reason, Some("blurry".to_string()));
    match route_job(&job, Some(&sub)) {
        JobPlan::NotifyDeclined { user_id, notice } => {
            assert_eq!(user_id, 1001);
            assert_eq!(notice, "😔 Фотография отклонена. Причина: blurry");
        }
        _ => panic!("expected a notice"),
    }
}

#[test]
fn ban_flow_records_reason() {
    let press = CallbackData { operation: CallbackOperation::Ban, document: Some(9) };
    let state = match route_action(press, Some(1001)) {
        ModerationAction::SetState(s) => s,
        _ => panic!("expected a dialogue state"),
    };
    assert_eq!(state, DialogueState::AwaitingBanReason { user: 1001 });
    match transition(state, "spam".to_string()) {
        (DialogueState::Idle, Some(DialogueOutcome::Ban(b))) => {
            assert_eq!(b.user_id, 1001);
            assert_eq!(b.reason, Some("spam".to_string()));
        }
        _ => panic!("expected a ban"),
    }
}

#[test]
fn idle_text_is_not_consumed() {
    let (next, outcome) = transition(DialogueState::Idle, "hello".to_string());
    assert_eq!(next, DialogueState::Idle);
    assert!(outcome.is_none());
}

#[test]
fn approve_press_enqueues_directly() {
    match route_action(CallbackData { operation: CallbackOperation::Approve, document: Some(3) }, Some(5)) {
        ModerationAction::Enqueue(m) => {
            assert_eq!(m.id, 3);
            assert_eq!(m.operation, QueueOperation::Approve);
            assert!(m.reason.is_none());
        }
        _ => panic!("expected a job"),
    }
}

#[test]
fn press_on_unknown_submission_is_ignored() {
    let press = CallbackData { operation: CallbackOperation::Approve, document: Some(3) };
    assert!(matches!(route_action(press, None), ModerationAction::Ignore));
    let press = CallbackData { operation: CallbackOperation::Decline, document: None };
    assert!(matches!(route_action(press, Some(1)), ModerationAction::Ignore));
}

#[test]
fn cancel_resets_dialogue() {
    let press = CallbackData::new(CallbackOperation::Cancel);
    assert!(matches!(route_action(press, None), ModerationAction::SetState(DialogueState::Idle)));
}

#[test]
fn state_keys() {
    assert_eq!(state_key(12345, "decline"), "12345_decline");
    assert_eq!(state_key(-1001, "ban"), "-1001_ban");
    assert_eq!(state_key(0, ""), "0_");
    assert_eq!(state_key(i64::MIN, "x"), "-9223372036854775808_x");
}

#[test]
fn ban_command_rules() {
    assert!(ban_command(1, 2, Some(3)).is_none());
    assert!(ban_command(2, 2, None).is_none());
    let b = ban_command(2, 2, Some(3)).unwrap();
    assert_eq!(b.user_id, 3);
    assert_eq!(b.reason, Some("Причина не указана".to_string()));
}

#[test]
fn decline_notice_without_reason() {
    assert_eq!(decline_notice(&None), "😔 Фотография отклонена.");
}
