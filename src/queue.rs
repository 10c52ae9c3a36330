//! Jobs on the durable work queue, and the decisions of its single consumer:
//! lease, handle under a bounded constant-backoff retry policy, and complete
//! the item whether or not a retry succeeded.
use vstd::prelude::*;
use crate::submission::Submission;
use crate::text::{opt_view, push_text};

verus! {

/// What a job asks for.
#[derive(Clone, Copy, Debug, PartialEq, Eq, Structural)]
pub enum QueueOperation {
    Approve,
    Decline,
}

/// A job: a submission, an operation and, for a decline, an optional reason.
pub struct QueueMessage {
    pub id: u128,
    pub operation: QueueOperation,
    pub reason: Option<String>,
}

impl QueueMessage {
    /// The job that publishes submission `id`.
    pub fn approve(id: u128) -> (r: QueueMessage)
        ensures
            r.id == id,
            r.operation == QueueOperation::Approve,
            r.reason is None,
    {
        QueueMessage { id, operation: QueueOperation::Approve, reason: None }
    }

    /// The job that declines submission `id` for `reason`.
    pub fn decline(id: u128, reason: String) -> (r: QueueMessage)
        ensures
            r.id == id,
            r.operation == QueueOperation::Decline,
            r.reason == Some(reason),
    {
        QueueMessage { id, operation: QueueOperation::Decline, reason: Some(reason) }
    }
}

/// How long a lease claims an item, in seconds.
pub const LEASE_SECONDS: u64 = 5;

/// A constant-backoff retry policy: after a failed attempt the handler runs
/// again after `delay_ms`, at most `max_retries` times.
#[derive(Clone, Copy, Debug, PartialEq, Eq, Structural)]
pub struct RetryPolicy {
    pub max_retries: u32,
    pub delay_ms: u64,
}

impl RetryPolicy {
    /// Three retries, one second apart.
    pub fn standard() -> (r: RetryPolicy)
        ensures
            r.max_retries == 3,
            r.delay_ms == 1000,
    {
        RetryPolicy { max_retries: 3, delay_ms: 1000 }
    }
}

/// Where the consumer stands.
#[derive(Clone, Copy, Debug, PartialEq, Eq, Structural)]
pub enum ConsumerState {
    /// Waiting for an item.
    Polling,
    /// Handling a leased item; `attempts` runs of the handler have started.
    Handling { attempts: u64 },
    /// Completing a leased item.
    Completing,
}

/// What the last action produced.
#[derive(Clone, Copy, Debug, PartialEq, Eq, Structural)]
pub enum ConsumerEvent {
    /// The lease ran out without an item.
    NoItem,
    /// An item was leased.
    Leased,
    /// The handler succeeded.
    HandlerOk,
    /// The handler failed.
    HandlerFailed,
    /// The item was removed from the queue (or removing it failed).
    Completed,
}

/// What the consumer does next.
#[derive(Clone, Copy, Debug, PartialEq, Eq, Structural)]
pub enum ConsumerAction {
    /// Claim one pending item for `seconds`.
    Lease { seconds: u64 },
    /// Run the handler on the leased item, after waiting `delay_ms`.
    Handle { delay_ms: u64 },
    /// Remove the leased item for good; `succeeded` tells whether the handler
    /// ever succeeded (a failure is only reported: there is no dead letter).
    Complete { succeeded: bool },
}

/// The consumer's transition table.
pub open spec fn consumer_transition(p: RetryPolicy, s: ConsumerState, e: ConsumerEvent) -> (
    ConsumerState,
    ConsumerAction,
) {
    match s {
        ConsumerState::Polling => match e {
            ConsumerEvent::Leased => (ConsumerState::Handling { attempts: 1 }, ConsumerAction::Handle { delay_ms: 0 }),
            _ => (ConsumerState::Polling, ConsumerAction::Lease { seconds: LEASE_SECONDS }),
        },
        ConsumerState::Handling { attempts } => match e {
            ConsumerEvent::HandlerOk => (ConsumerState::Completing, ConsumerAction::Complete { succeeded: true }),
            _ => if attempts <= p.max_retries as u64 {
                (
                    ConsumerState::Handling { attempts: (attempts + 1) as u64 },
                    ConsumerAction::Handle { delay_ms: p.delay_ms },
                )
            } else {
                (ConsumerState::Completing, ConsumerAction::Complete { succeeded: false })
            },
        },
        ConsumerState::Completing => (ConsumerState::Polling, ConsumerAction::Lease { seconds: LEASE_SECONDS }),
    }
}

/// The consumer's next state and action.
pub fn consumer_step(p: RetryPolicy, s: ConsumerState, e: ConsumerEvent) -> (r: (
    ConsumerState,
    ConsumerAction,
))
    ensures
        r == consumer_transition(p, s, e),
{
    match s {
        ConsumerState::Polling => match e {
            ConsumerEvent::Leased => (ConsumerState::Handling { attempts: 1 }, ConsumerAction::Handle { delay_ms: 0 }),
            _ => (ConsumerState::Polling, ConsumerAction::Lease { seconds: LEASE_SECONDS }),
        },
        ConsumerState::Handling { attempts } => match e {
            ConsumerEvent::HandlerOk => (ConsumerState::Completing, ConsumerAction::Complete { succeeded: true }),
            _ => if attempts <= p.max_retries as u64 {
                (
                    ConsumerState::Handling { attempts: attempts + 1 },
                    ConsumerAction::Handle { delay_ms: p.delay_ms },
                )
            } else {
                (ConsumerState::Completing, ConsumerAction::Complete { succeeded: false })
            },
        },
        ConsumerState::Completing => (ConsumerState::Polling, ConsumerAction::Lease { seconds: LEASE_SECONDS }),
    }
}

/// The state after `k` consecutive handler failures.
pub open spec fn after_failures(p: RetryPolicy, s: ConsumerState, k: nat) -> (ConsumerState, ConsumerAction)
    decreases k,
{
    if k <= 1 {
        consumer_transition(p, s, ConsumerEvent::HandlerFailed)
    } else {
        consumer_transition(p, after_failures(p, s, (k - 1) as nat).0, ConsumerEvent::HandlerFailed)
    }
}

/// A leased item whose handler keeps failing is retried exactly
/// `max_retries` times, `delay_ms` apart, and then completed all the same.
pub proof fn lemma_failing_job_is_completed(p: RetryPolicy, k: nat)
    requires
        1 <= k <= p.max_retries as nat + 1,
    ensures
        k <= p.max_retries ==> after_failures(p, ConsumerState::Handling { attempts: 1 }, k) == (
            ConsumerState::Handling { attempts: (k + 1) as u64 },
            ConsumerAction::Handle { delay_ms: p.delay_ms },
        ),
        k == p.max_retries + 1 ==> after_failures(p, ConsumerState::Handling { attempts: 1 }, k)
            == (ConsumerState::Completing, ConsumerAction::Complete { succeeded: false }),
    decreases k,
{
    if k > 1 {
        lemma_failing_job_is_completed(p, (k - 1) as nat);
        assert(after_failures(p, ConsumerState::Handling { attempts: 1 }, (k - 1) as nat).0
            == ConsumerState::Handling { attempts: k as u64 });
    }
}

/// What handling a job amounts to, once its submission has been looked up.
pub enum JobPlan {
    /// No such submission: nothing to do.
    NotFound,
    /// Run the publish pipeline for the submission.
    Publish,
    /// Tell the submitter `user_id` that the photo was declined.
    NotifyDeclined { user_id: i64, notice: String },
}

/// The notice a submitter gets when the photo is declined.
pub open spec fn decline_notice_of(reason: Option<Seq<char>>) -> Seq<char> {
    match reason {
        Some(r) => "😔 Фотография отклонена. Причина: "@ + r,
        None => "😔 Фотография отклонена."@,
    }
}

/// The notice a submitter gets when the photo is declined, with the reason
/// when there is one.
pub fn decline_notice(reason: &Option<String>) -> (r: String)
    ensures
        r@ == decline_notice_of(opt_view(*reason)),
{
    let mut s = String::new();
    match reason {
        Some(t) => {
            push_text(&mut s, "😔 Фотография отклонена. Причина: ");
            push_text(&mut s, t.as_str());
        },
        None => {
            push_text(&mut s, "😔 Фотография отклонена.");
        },
    }
    s
}

/// The plan for a job given the looked-up submission: none means not found;
/// an approval runs the pipeline (which itself skips approved submissions);
/// a decline notifies the submitter, with the reason.
pub fn route_job(message: &QueueMessage, submission: Option<&Submission>) -> (r: JobPlan)
    ensures
        match submission {
            None => r is NotFound,
            Some(s) => match message.operation {
                QueueOperation::Approve => r is Publish,
                QueueOperation::Decline => r matches JobPlan::NotifyDeclined { user_id, notice }
                    && user_id == s.user_id && notice@ == decline_notice_of(opt_view(message.reason)),
            },
        },
{
    match submission {
        None => JobPlan::NotFound,
        Some(s) => match message.operation {
            QueueOperation::Approve => JobPlan::Publish,
            QueueOperation::Decline => JobPlan::NotifyDeclined {
                user_id: s.user_id,
                notice: decline_notice(&message.reason),
            },
        },
    }
}

} // verus!
