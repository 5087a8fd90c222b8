use vstd::prelude::*;

verus! {

/// What happened to which kind of entity; each kind has one event type,
/// which is also the subject it is published on.
#[derive(Debug, Clone, Copy, PartialEq, Eq)]
pub enum EventKind {
    NovelCreated,
    NovelUpdated,
    NovelDeleted,
    ChapterCreated,
    ChapterDeleted,
    CommentCreated,
    CommentDeleted,
    ForumThreadCreated,
    ForumReplyCreated,
    ReviewCreated,
    ReviewUpdated,
    ReviewDeleted,
}

impl EventKind {
    /// The event type, of the form `novel.{domain}.{action}`.
    pub open spec fn spec_event_type(self) -> Seq<char> {
        match self {
            EventKind::NovelCreated => "novel.novel.created"@,
            EventKind::NovelUpdated => "novel.novel.updated"@,
            EventKind::NovelDeleted => "novel.novel.deleted"@,
            EventKind::ChapterCreated => "novel.chapter.created"@,
            EventKind::ChapterDeleted => "novel.chapter.deleted"@,
            EventKind::CommentCreated => "novel.comment.created"@,
            EventKind::CommentDeleted => "novel.comment.deleted"@,
            EventKind::ForumThreadCreated => "novel.forum.thread.created"@,
            EventKind::ForumReplyCreated => "novel.forum.reply.created"@,
            EventKind::ReviewCreated => "novel.review.created"@,
            EventKind::ReviewUpdated => "novel.review.updated"@,
            EventKind::ReviewDeleted => "novel.review.deleted"@,
        }
    }

    /// The event type recorded in the outbox and used as publish subject.
    pub fn event_type(&self) -> (s: &'static str)
        ensures
            s@ == self.spec_event_type(),
    {
        match self {
            EventKind::NovelCreated => "novel.novel.created",
            EventKind::NovelUpdated => "novel.novel.updated",
            EventKind::NovelDeleted => "novel.novel.deleted",
            EventKind::ChapterCreated => "novel.chapter.created",
            EventKind::ChapterDeleted => "novel.chapter.deleted",
            EventKind::CommentCreated => "novel.comment.created",
            EventKind::CommentDeleted => "novel.comment.deleted",
            EventKind::ForumThreadCreated => "novel.forum.thread.created",
            EventKind::ForumReplyCreated => "novel.forum.reply.created",
            EventKind::ReviewCreated => "novel.review.created",
            EventKind::ReviewUpdated => "novel.review.updated",
            EventKind::ReviewDeleted => "novel.review.deleted",
        }
    }
}

/// Whether a subject follows the topic convention `novel.{domain}.{action}`:
/// it starts with `novel.` and holds at least one more `.` after a
/// non-empty domain, with a non-empty action after the last `.`.
pub open spec fn follows_topic_convention(s: Seq<char>) -> bool {
    &&& s.len() > 6
    &&& s.subrange(0, 6) == "novel."@
    &&& exists|i: int| 6 < i < s.len() - 1 && s[i] == '.'
    &&& s[s.len() - 1] != '.'
}

/// Every event type follows the topic convention `novel.{domain}.{action}`.
pub proof fn lemma_event_types_follow_convention(k: EventKind)
    ensures
        follows_topic_convention(k.spec_event_type()),
{
    reveal_strlit("novel.");
    let s = k.spec_event_type();
    match k {
        EventKind::NovelCreated => { reveal_strlit("novel.novel.created"); assert(s[11] == '.'); },
        EventKind::NovelUpdated => { reveal_strlit("novel.novel.updated"); assert(s[11] == '.'); },
        EventKind::NovelDeleted => { reveal_strlit("novel.novel.deleted"); assert(s[11] == '.'); },
        EventKind::ChapterCreated => { reveal_strlit("novel.chapter.created"); assert(s[13] == '.'); },
        EventKind::ChapterDeleted => { reveal_strlit("novel.chapter.deleted"); assert(s[13] == '.'); },
        EventKind::CommentCreated => { reveal_strlit("novel.comment.created"); assert(s[13] == '.'); },
        EventKind::CommentDeleted => { reveal_strlit("novel.comment.deleted"); assert(s[13] == '.'); },
        EventKind::ForumThreadCreated => { reveal_strlit("novel.forum.thread.created"); assert(s[11] == '.'); },
        EventKind::ForumReplyCreated => { reveal_strlit("novel.forum.reply.created"); assert(s[11] == '.'); },
        EventKind::ReviewCreated => { reveal_strlit("novel.review.created"); assert(s[12] == '.'); },
        EventKind::ReviewUpdated => { reveal_strlit("novel.review.updated"); assert(s[12] == '.'); },
        EventKind::ReviewDeleted => { reveal_strlit("novel.review.deleted"); assert(s[12] == '.'); },
    }
    assert(s.subrange(0, 6) =~= "novel."@);
}

/// The entity an event kind is about, as it reads in event types.
pub open spec fn kind_domain(k: EventKind) -> Seq<char> {
    match k {
        EventKind::NovelCreated | EventKind::NovelUpdated | EventKind::NovelDeleted => "novel"@,
        EventKind::ChapterCreated | EventKind::ChapterDeleted => "chapter"@,
        EventKind::CommentCreated | EventKind::CommentDeleted => "comment"@,
        EventKind::ForumThreadCreated => "forum.thread"@,
        EventKind::ForumReplyCreated => "forum.reply"@,
        EventKind::ReviewCreated | EventKind::ReviewUpdated | EventKind::ReviewDeleted => "review"@,
    }
}

/// What happened to the entity, as it reads in event types.
pub open spec fn kind_action(k: EventKind) -> Seq<char> {
    match k {
        EventKind::NovelCreated | EventKind::ChapterCreated | EventKind::CommentCreated
        | EventKind::ForumThreadCreated | EventKind::ForumReplyCreated | EventKind::ReviewCreated => "created"@,
        EventKind::NovelUpdated | EventKind::ReviewUpdated => "updated"@,
        EventKind::NovelDeleted | EventKind::ChapterDeleted | EventKind::CommentDeleted
        | EventKind::ReviewDeleted => "deleted"@,
    }
}

/// Every event type is `novel.`, the kind's own entity, `.`, and the kind's
/// own action: a creation ends in `.created`, a change in `.updated`, a
/// removal in `.deleted`.
pub proof fn lemma_event_type_names_entity_and_action(k: EventKind)
    ensures
        k.spec_event_type() == "novel."@ + kind_domain(k) + "."@ + kind_action(k),
{
    reveal_strlit("novel.");
    reveal_strlit(".");
    reveal_strlit("novel");
    reveal_strlit("chapter");
    reveal_strlit("comment");
    reveal_strlit("forum.thread");
    reveal_strlit("forum.reply");
    reveal_strlit("review");
    reveal_strlit("created");
    reveal_strlit("updated");
    reveal_strlit("deleted");
    let s = k.spec_event_type();
    match k {
        EventKind::NovelCreated => reveal_strlit("novel.novel.created"),
        EventKind::NovelUpdated => reveal_strlit("novel.novel.updated"),
        EventKind::NovelDeleted => reveal_strlit("novel.novel.deleted"),
        EventKind::ChapterCreated => reveal_strlit("novel.chapter.created"),
        EventKind::ChapterDeleted => reveal_strlit("novel.chapter.deleted"),
        EventKind::CommentCreated => reveal_strlit("novel.comment.created"),
        EventKind::CommentDeleted => reveal_strlit("novel.comment.deleted"),
        EventKind::ForumThreadCreated => reveal_strlit("novel.forum.thread.created"),
        EventKind::ForumReplyCreated => reveal_strlit("novel.forum.reply.created"),
        EventKind::ReviewCreated => reveal_strlit("novel.review.created"),
        EventKind::ReviewUpdated => reveal_strlit("novel.review.updated"),
        EventKind::ReviewDeleted => reveal_strlit("novel.review.deleted"),
    }
    assert(s =~= "novel."@ + kind_domain(k) + "."@ + kind_action(k));
}

/// Length and a few characters of a text, enough to tell event types apart.
spec fn type_marks(s: Seq<char>) -> (nat, char, char, char, char) {
    (s.len(), s[7], s[12], s[13], s[14])
}

/// Distinct event kinds have distinct event types, so a subscriber can
/// always tell from the subject which kind of event it received.
pub proof fn lemma_event_types_are_distinct(k1: EventKind, k2: EventKind)
    requires
        k1.spec_event_type() == k2.spec_event_type(),
    ensures
        k1 == k2,
{
    reveal_strlit("novel.novel.created");
    reveal_strlit("novel.novel.updated");
    reveal_strlit("novel.novel.deleted");
    reveal_strlit("novel.chapter.created");
    reveal_strlit("novel.chapter.deleted");
    reveal_strlit("novel.comment.created");
    reveal_strlit("novel.comment.deleted");
    reveal_strlit("novel.forum.thread.created");
    reveal_strlit("novel.forum.reply.created");
    reveal_strlit("novel.review.created");
    reveal_strlit("novel.review.updated");
    reveal_strlit("novel.review.deleted");
    assert(type_marks(k1.spec_event_type()) == type_marks(k2.spec_event_type()));
}

/// Message published for an outbox event. Timestamps are microseconds since
/// the Unix epoch, UTC.
#[derive(Debug, Clone, PartialEq, Eq)]
pub struct EventPayload {
    pub entity_id: u128,
    pub event_type: String,
    pub timestamp: i64,
}

/// An outbox row that has not been published yet.
#[derive(Debug, Clone, PartialEq, Eq)]
pub struct OutboxRow {
    pub id: i64,
    pub entity_id: u128,
    pub event_type: String,
    pub timestamp: i64,
}

impl OutboxRow {
    /// The message published for the row: its entity, event type and time.
    pub open spec fn spec_payload(self) -> EventPayload {
        EventPayload { entity_id: self.entity_id, event_type: self.event_type, timestamp: self.timestamp }
    }

    /// The message published for the row: its entity, event type and time.
    pub fn payload(&self) -> (p: EventPayload)
        ensures
            p == self.spec_payload(),
    {
        EventPayload {
            entity_id: self.entity_id,
            event_type: self.event_type.clone(),
            timestamp: self.timestamp,
        }
    }
}

} // verus!
