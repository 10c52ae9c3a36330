//! A photo submission and the rule that its approval never reverts.
use vstd::prelude::*;

verus! {

/// A user-provided photo awaiting or having completed moderation.
///
/// The approval flag is set exactly when a published-message reference and a
/// publish time are recorded.
pub struct Submission {
    pub id: u128,
    pub user_id: i64,
    /// The moderator-facing message that carries the photo, once sent.
    pub moderation_message_id: Option<i64>,
    /// The remote handle of the original file.
    pub blob_handle: String,
    /// The declared media type, such as `image/heic`.
    pub mime_type: Option<String>,
    /// Seconds since the Unix epoch.
    pub created_at: i64,
    pub approved: bool,
    pub published_message_id: Option<i64>,
    pub published_at: Option<i64>,
}

/// A change applied to a stored submission.
#[derive(Clone, Copy, Debug, PartialEq, Eq, Structural)]
pub enum SubmissionUpdate {
    /// The photo was forwarded to the moderator as message `message_id`.
    RecordModerationMessage { message_id: i64 },
    /// The photo was published as message `message_id` at time `at`.
    Approve { message_id: i64, at: i64 },
}

/// The parts of a submission that its updates touch.
pub struct SubmissionView {
    pub moderation_message_id: Option<i64>,
    pub approved: bool,
    pub published_message_id: Option<i64>,
    pub published_at: Option<i64>,
}

/// The view after an update: the moderation message is replaced; approval
/// happens once and is kept thereafter.
pub open spec fn updated(s: SubmissionView, u: SubmissionUpdate) -> SubmissionView {
    match u {
        SubmissionUpdate::RecordModerationMessage { message_id } => SubmissionView {
            moderation_message_id: Some(message_id),
            ..s
        },
        SubmissionUpdate::Approve { message_id, at } => if s.approved {
            s
        } else {
            SubmissionView {
                approved: true,
                published_message_id: Some(message_id),
                published_at: Some(at),
                ..s
            }
        },
    }
}

/// Approval goes with a published message and a publish time.
pub open spec fn consistent(s: SubmissionView) -> bool {
    &&& s.approved <==> s.published_message_id is Some
    &&& s.approved <==> s.published_at is Some
}

/// Once a submission is approved, no update sets it back to pending, and
/// every update keeps approval, published message and publish time together.
pub proof fn lemma_approval_monotonic(s: SubmissionView, u: SubmissionUpdate)
    requires
        consistent(s),
    ensures
        s.approved ==> updated(s, u).approved,
        s.approved ==> updated(s, u).published_message_id == s.published_message_id,
        consistent(updated(s, u)),
{
}

/// The view after applying the updates in order.
pub open spec fn updated_all(s: SubmissionView, us: Seq<SubmissionUpdate>) -> SubmissionView
    decreases us.len(),
{
    if us.len() == 0 {
        s
    } else {
        updated(updated_all(s, us.drop_last()), us.last())
    }
}

proof fn lemma_history_consistent(s: SubmissionView, us: Seq<SubmissionUpdate>)
    requires
        consistent(s),
    ensures
        consistent(updated_all(s, us)),
    decreases us.len(),
{
    if us.len() > 0 {
        lemma_history_consistent(s, us.drop_last());
        lemma_approval_monotonic(updated_all(s, us.drop_last()), us.last());
    }
}

/// Over any history of updates: once a prefix of it has approved the
/// submission, the whole history leaves it approved, with the same published
/// message, and consistent throughout.
pub proof fn lemma_approval_never_reverts(s: SubmissionView, us: Seq<SubmissionUpdate>, k: int)
    requires
        consistent(s),
        0 <= k <= us.len(),
        updated_all(s, us.subrange(0, k)).approved,
    ensures
        updated_all(s, us).approved,
        updated_all(s, us).published_message_id == updated_all(s, us.subrange(0, k)).published_message_id,
        consistent(updated_all(s, us)),
    decreases us.len(),
{
    lemma_history_consistent(s, us);
    if us.len() == k {
        assert(us.subrange(0, k) =~= us);
    } else {
        assert(us.drop_last().subrange(0, k) =~= us.subrange(0, k));
        lemma_approval_never_reverts(s, us.drop_last(), k);
        lemma_history_consistent(s, us.drop_last());
        lemma_approval_monotonic(updated_all(s, us.drop_last()), us.last());
    }
}

impl View for Submission {
    type V = SubmissionView;

    open spec fn view(&self) -> SubmissionView {
        SubmissionView {
            moderation_message_id: self.moderation_message_id,
            approved: self.approved,
            published_message_id: self.published_message_id,
            published_at: self.published_at,
        }
    }
}

impl Submission {
    pub open spec fn wf(&self) -> bool {
        consistent(self@)
    }

    /// A new pending submission.
    pub fn pending(
        id: u128,
        user_id: i64,
        blob_handle: String,
        mime_type: Option<String>,
        created_at: i64,
    ) -> (r: Submission)
        ensures
            r.wf(),
            r.id == id,
            r.user_id == user_id,
            r.blob_handle == blob_handle,
            r.mime_type == mime_type,
            r.created_at == created_at,
            r@.moderation_message_id is None,
            !r@.approved,
    {
        Submission {
            id,
            user_id,
            moderation_message_id: None,
            blob_handle,
            mime_type,
            created_at,
            approved: false,
            published_message_id: None,
            published_at: None,
        }
    }

    /// A submission as stored; `None` when the stored approval flag disagrees
    /// with the stored published message or publish time.
    pub fn from_record(
        id: u128,
        user_id: i64,
        moderation_message_id: Option<i64>,
        blob_handle: String,
        mime_type: Option<String>,
        created_at: i64,
        approved: bool,
        published_message_id: Option<i64>,
        published_at: Option<i64>,
    ) -> (r: Option<Submission>)
        ensures
            r is Some <==> consistent(
                SubmissionView {
                    moderation_message_id,
                    approved,
                    published_message_id,
                    published_at,
                },
            ),
            r matches Some(s) ==> s.wf() && s.id == id && s.user_id == user_id && s.blob_handle
                == blob_handle && s.mime_type == mime_type && s.created_at == created_at && s@
                == (SubmissionView {
                moderation_message_id,
                approved,
                published_message_id,
                published_at,
            }),
    {
        if approved != published_message_id.is_some() || approved != published_at.is_some() {
            return None;
        }
        Some(
            Submission {
                id,
                user_id,
                moderation_message_id,
                blob_handle,
                mime_type,
                created_at,
                approved,
                published_message_id,
                published_at,
            },
        )
    }

    pub fn is_approved(&self) -> (r: bool)
        ensures
            r == self@.approved,
    {
        self.approved
    }

    pub fn published_message_id(&self) -> (r: Option<i64>)
        ensures
            r == self@.published_message_id,
    {
        self.published_message_id
    }

    pub fn published_at(&self) -> (r: Option<i64>)
        ensures
            r == self@.published_at,
    {
        self.published_at
    }

    /// Applies an update (see `updated`).
    pub fn apply(&mut self, u: SubmissionUpdate)
        requires
            old(self).wf(),
        ensures
            final(self).wf(),
            final(self)@ == updated(old(self)@, u),
            final(self).id == old(self).id,
            final(self).user_id == old(self).user_id,
            final(self).blob_handle == old(self).blob_handle,
            final(self).mime_type == old(self).mime_type,
            final(self).created_at == old(self).created_at,
    {
        match u {
            SubmissionUpdate::RecordModerationMessage { message_id } => {
                self.moderation_message_id = Some(message_id);
            },
            SubmissionUpdate::Approve { message_id, at } => {
                if !self.approved {
                    self.approved = true;
                    self.published_message_id = Some(message_id);
                    self.published_at = Some(at);
                }
            },
        }
    }

    /// Records the moderator-facing message that carries the photo.
    pub fn update_msg_id(&mut self, message_id: i64)
        requires
            old(self).wf(),
        ensures
            final(self).wf(),
            final(self)@ == updated(
                old(self)@,
                SubmissionUpdate::RecordModerationMessage { message_id },
            ),
            final(self).id == old(self).id,
            final(self).user_id == old(self).user_id,
            final(self).blob_handle == old(self).blob_handle,
            final(self).mime_type == old(self).mime_type,
            final(self).created_at == old(self).created_at,
    {
        self.apply(SubmissionUpdate::RecordModerationMessage { message_id });
    }

    /// Marks the submission published as `message_id` at time `at`; a second
    /// approval changes nothing.
    pub fn approve(&mut self, message_id: i64, at: i64)
        requires
            old(self).wf(),
        ensures
            final(self).wf(),
            final(self)@ == updated(old(self)@, SubmissionUpdate::Approve { message_id, at }),
            final(self).id == old(self).id,
            final(self).user_id == old(self).user_id,
            final(self).blob_handle == old(self).blob_handle,
            final(self).mime_type == old(self).mime_type,
            final(self).created_at == old(self).created_at,
    {
        self.apply(SubmissionUpdate::Approve { message_id, at });
    }
}

} // verus!
