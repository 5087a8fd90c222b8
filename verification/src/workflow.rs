use vstd::prelude::*;
use crate::error::{AppError, ErrorView, conflict, not_found};
use crate::events::{kind_action, kind_domain, lemma_event_type_names_entity_and_action, EventKind};

verus! {

/// A write that the API performs inside a transaction together with the
/// outbox row announcing it.
#[derive(Debug, Clone, Copy, PartialEq, Eq)]
pub enum WriteOp {
    CreateNovel,
    UpdateNovel,
    DeleteNovel { novel_id: u128 },
    CreateChapter { novel_id: u128 },
    DeleteChapter { novel_id: u128, chapter_id: u128 },
    CreateComment,
    DeleteComment { comment_id: u128 },
    CreateThread,
    CreateReply { thread_id: u128 },
    CreateReview,
    UpdateReview,
    DeleteReview { review_id: u128 },
}

/// What must be checked before the write may start.
#[derive(Debug, Clone, Copy, PartialEq, Eq)]
pub enum Precheck {
    /// Nothing.
    Nothing,
    /// The novel exists and the caller is its author.
    NovelOwnedByCaller { novel_id: u128 },
    /// The forum thread exists and is not locked.
    ThreadOpen { thread_id: u128 },
}

/// How the database answers the write and what that answer means.
pub enum WriteShape {
    /// An insert that returns the new row; a violated constraint means
    /// `conflict` where given and a database failure otherwise.
    Insert { conflict: Option<Seq<char>> },
    /// An update that returns the updated row; no row means `not_found`.
    UpdateReturning { not_found: Seq<char> },
    /// A delete of `target`; no row affected means `not_found`.
    Delete { target: u128, not_found: Seq<char> },
}

/// The precheck of each write.
pub open spec fn precheck(op: WriteOp) -> Precheck {
    match op {
        WriteOp::CreateChapter { novel_id } => Precheck::NovelOwnedByCaller { novel_id },
        WriteOp::DeleteChapter { novel_id, chapter_id } => Precheck::NovelOwnedByCaller { novel_id },
        WriteOp::CreateReply { thread_id } => Precheck::ThreadOpen { thread_id },
        _ => Precheck::Nothing,
    }
}

/// The shape of each write.
pub open spec fn shape(op: WriteOp) -> WriteShape {
    match op {
        WriteOp::CreateNovel => WriteShape::Insert { conflict: Some("Novel with this slug already exists"@) },
        WriteOp::UpdateNovel => WriteShape::UpdateReturning { not_found: "Novel not found or unauthorized"@ },
        WriteOp::DeleteNovel { novel_id } => WriteShape::Delete { target: novel_id, not_found: "Novel not found or unauthorized"@ },
        WriteOp::CreateChapter { .. } => WriteShape::Insert { conflict: Some("Chapter number already exists"@) },
        WriteOp::DeleteChapter { chapter_id, .. } => WriteShape::Delete { target: chapter_id, not_found: "Chapter not found"@ },
        WriteOp::CreateComment => WriteShape::Insert { conflict: None },
        WriteOp::DeleteComment { comment_id } => WriteShape::Delete { target: comment_id, not_found: "Comment not found or unauthorized"@ },
        WriteOp::CreateThread => WriteShape::Insert { conflict: None },
        WriteOp::CreateReply { .. } => WriteShape::Insert { conflict: None },
        WriteOp::CreateReview => WriteShape::Insert { conflict: Some("You have already reviewed this novel"@) },
        WriteOp::UpdateReview => WriteShape::UpdateReturning { not_found: "Review not found or unauthorized"@ },
        WriteOp::DeleteReview { review_id } => WriteShape::Delete { target: review_id, not_found: "Review not found or unauthorized"@ },
    }
}

/// The event each write announces.
pub open spec fn spec_event_kind(op: WriteOp) -> EventKind {
    match op {
        WriteOp::CreateNovel => EventKind::NovelCreated,
        WriteOp::UpdateNovel => EventKind::NovelUpdated,
        WriteOp::DeleteNovel { .. } => EventKind::NovelDeleted,
        WriteOp::CreateChapter { .. } => EventKind::ChapterCreated,
        WriteOp::DeleteChapter { .. } => EventKind::ChapterDeleted,
        WriteOp::CreateComment => EventKind::CommentCreated,
        WriteOp::DeleteComment { .. } => EventKind::CommentDeleted,
        WriteOp::CreateThread => EventKind::ForumThreadCreated,
        WriteOp::CreateReply { .. } => EventKind::ForumReplyCreated,
        WriteOp::CreateReview => EventKind::ReviewCreated,
        WriteOp::UpdateReview => EventKind::ReviewUpdated,
        WriteOp::DeleteReview { .. } => EventKind::ReviewDeleted,
    }
}

/// The event a write announces.
pub fn event_kind(op: WriteOp) -> (k: EventKind)
    ensures
        k == spec_event_kind(op),
{
    match op {
        WriteOp::CreateNovel => EventKind::NovelCreated,
        WriteOp::UpdateNovel => EventKind::NovelUpdated,
        WriteOp::DeleteNovel { .. } => EventKind::NovelDeleted,
        WriteOp::CreateChapter { .. } => EventKind::ChapterCreated,
        WriteOp::DeleteChapter { .. } => EventKind::ChapterDeleted,
        WriteOp::CreateComment => EventKind::CommentCreated,
        WriteOp::DeleteComment { .. } => EventKind::CommentDeleted,
        WriteOp::CreateThread => EventKind::ForumThreadCreated,
        WriteOp::CreateReply { .. } => EventKind::ForumReplyCreated,
        WriteOp::CreateReview => EventKind::ReviewCreated,
        WriteOp::UpdateReview => EventKind::ReviewUpdated,
        WriteOp::DeleteReview { .. } => EventKind::ReviewDeleted,
    }
}

/// Where a write stands.
#[derive(Debug, Clone, Copy, PartialEq, Eq)]
pub enum FlowPhase {
    /// Waiting for the precheck's lookup.
    AwaitLookup,
    /// Waiting for the transaction to begin.
    AwaitBegin,
    /// Waiting for the database's answer to the write.
    AwaitMutation,
    /// Waiting for the outbox row about `entity` to be inserted.
    AwaitOutbox(u128),
    /// Waiting for the commit of the write about `entity`.
    AwaitCommit(u128),
    /// The answer is given.
    Done,
}

/// The precheck that was passed.
#[derive(Debug, Clone, Copy, PartialEq, Eq)]
pub enum Approval {
    /// The precheck is still pending.
    Pending,
    /// The write needs no precheck.
    NotNeeded,
    /// The novel's author is `author`.
    NovelOwner(u128),
    /// The thread is open.
    OpenThread,
}

/// The answer to the last action.
#[derive(Debug, Clone, Copy, PartialEq, Eq)]
pub enum WriteEvent {
    /// The novel exists with this author, or does not exist.
    NovelLookedUp(Option<u128>),
    /// The thread exists and is locked or not, or does not exist.
    ThreadLookedUp(Option<bool>),
    /// The transaction began.
    TxBegun,
    /// The insert or update returned the row with this id.
    RowReturned(u128),
    /// The update matched no row.
    NoRow,
    /// The delete removed this many rows.
    RowsAffected(u64),
    /// The write violated a database constraint.
    ConstraintViolated,
    /// The outbox row was inserted.
    OutboxWritten,
    /// The transaction committed.
    Committed,
    /// The database call failed.
    DbFailed,
}

/// What the write asks for next.
#[derive(Debug, PartialEq, Eq)]
pub enum WriteAction {
    /// Look up the visible novel `novel_id`.
    LookupNovel { novel_id: u128 },
    /// Look up the visible forum thread `thread_id`.
    LookupThread { thread_id: u128 },
    /// Begin a transaction.
    BeginTx,
    /// Run the write inside the transaction.
    Mutate,
    /// Insert, inside the transaction, the outbox row announcing `event`
    /// about `entity_id`.
    WriteOutbox { entity_id: u128, event: EventKind },
    /// Commit the transaction.
    Commit,
    /// Answer the request; on an error the transaction, if any, is dropped
    /// and so rolled back.
    Respond(Result<u128, AppError>),
}

/// View of a [`WriteAction`].
pub enum ActionView {
    LookupNovel { novel_id: u128 },
    LookupThread { thread_id: u128 },
    BeginTx,
    Mutate,
    WriteOutbox { entity_id: u128, event: EventKind },
    Commit,
    Respond(Result<u128, ErrorView>),
}

impl View for WriteAction {
    type V = ActionView;

    open spec fn view(&self) -> ActionView {
        match self {
            WriteAction::LookupNovel { novel_id } => ActionView::LookupNovel { novel_id: *novel_id },
            WriteAction::LookupThread { thread_id } => ActionView::LookupThread { thread_id: *thread_id },
            WriteAction::BeginTx => ActionView::BeginTx,
            WriteAction::Mutate => ActionView::Mutate,
            WriteAction::WriteOutbox { entity_id, event } => ActionView::WriteOutbox { entity_id: *entity_id, event: *event },
            WriteAction::Commit => ActionView::Commit,
            WriteAction::Respond(r) => ActionView::Respond(match r {
                Ok(id) => Ok(*id),
                Err(e) => Err(e@),
            }),
        }
    }
}

/// One write and where it stands.
#[derive(Debug, Clone, Copy, PartialEq, Eq)]
pub struct WriteFlow {
    pub op: WriteOp,
    /// The authenticated caller.
    pub actor: u128,
    pub phase: FlowPhase,
    pub approval: Approval,
}

/// Whether `approval` is what the precheck of `op` demands for `actor`.
pub open spec fn approved(op: WriteOp, actor: u128, approval: Approval) -> bool {
    match precheck(op) {
        Precheck::Nothing => approval == Approval::NotNeeded,
        Precheck::NovelOwnedByCaller { .. } => approval == Approval::NovelOwner(actor),
        Precheck::ThreadOpen { .. } => approval == Approval::OpenThread,
    }
}

/// The first state and action of a write.
pub open spec fn spec_begin(op: WriteOp, actor: u128) -> (WriteFlow, ActionView) {
    match precheck(op) {
        Precheck::Nothing => (WriteFlow { op, actor, phase: FlowPhase::AwaitBegin, approval: Approval::NotNeeded },
            ActionView::BeginTx),
        Precheck::NovelOwnedByCaller { novel_id } => (WriteFlow { op, actor, phase: FlowPhase::AwaitLookup, approval: Approval::Pending },
            ActionView::LookupNovel { novel_id }),
        Precheck::ThreadOpen { thread_id } => (WriteFlow { op, actor, phase: FlowPhase::AwaitLookup, approval: Approval::Pending },
            ActionView::LookupThread { thread_id }),
    }
}

/// Ends the write with an error.
pub open spec fn fail(s: WriteFlow, e: ErrorView) -> (WriteFlow, ActionView) {
    (WriteFlow { phase: FlowPhase::Done, ..s }, ActionView::Respond(Err(e)))
}

/// Goes on to insert the outbox row about `entity`.
pub open spec fn announce(s: WriteFlow, entity: u128) -> (WriteFlow, ActionView) {
    (WriteFlow { phase: FlowPhase::AwaitOutbox(entity), ..s },
        ActionView::WriteOutbox { entity_id: entity, event: spec_event_kind(s.op) })
}

/// The meaning of the database's answer to the write itself.
pub open spec fn spec_mutation_answer(s: WriteFlow, ev: WriteEvent) -> (WriteFlow, ActionView) {
    match shape(s.op) {
        WriteShape::Insert { conflict } => match ev {
            WriteEvent::RowReturned(id) => announce(s, id),
            WriteEvent::ConstraintViolated => match conflict {
                Some(msg) => fail(s, ErrorView::Conflict(msg)),
                None => fail(s, ErrorView::Database),
            },
            _ => fail(s, ErrorView::Database),
        },
        WriteShape::UpdateReturning { not_found } => match ev {
            WriteEvent::RowReturned(id) => announce(s, id),
            WriteEvent::NoRow => fail(s, ErrorView::NotFound(not_found)),
            _ => fail(s, ErrorView::Database),
        },
        WriteShape::Delete { target, not_found } => match ev {
            WriteEvent::RowsAffected(n) => if n == 0 {
                fail(s, ErrorView::NotFound(not_found))
            } else {
                announce(s, target)
            },
            _ => fail(s, ErrorView::Database),
        },
    }
}

/// The meaning of the precheck's lookup.
pub open spec fn spec_lookup_answer(s: WriteFlow, ev: WriteEvent) -> (WriteFlow, ActionView) {
    match precheck(s.op) {
        Precheck::NovelOwnedByCaller { .. } => match ev {
            WriteEvent::NovelLookedUp(None) => fail(s, ErrorView::NotFound("Novel not found"@)),
            WriteEvent::NovelLookedUp(Some(author)) => if author == s.actor {
                (WriteFlow { phase: FlowPhase::AwaitBegin, approval: Approval::NovelOwner(author), ..s }, ActionView::BeginTx)
            } else {
                fail(s, ErrorView::Forbidden)
            },
            _ => fail(s, ErrorView::Database),
        },
        Precheck::ThreadOpen { .. } => match ev {
            WriteEvent::ThreadLookedUp(None) => fail(s, ErrorView::NotFound("Thread not found"@)),
            WriteEvent::ThreadLookedUp(Some(locked)) => if locked {
                fail(s, ErrorView::Forbidden)
            } else {
                (WriteFlow { phase: FlowPhase::AwaitBegin, approval: Approval::OpenThread, ..s }, ActionView::BeginTx)
            },
            _ => fail(s, ErrorView::Database),
        },
        Precheck::Nothing => fail(s, ErrorView::Database),
    }
}

/// The next state and action of a write on the answer to its last action.
/// An answer that does not fit the pending call counts as a database failure.
pub open spec fn spec_flow_step(s: WriteFlow, ev: WriteEvent) -> (WriteFlow, ActionView) {
    match s.phase {
        FlowPhase::AwaitLookup => spec_lookup_answer(s, ev),
        FlowPhase::AwaitBegin => if ev is TxBegun {
            (WriteFlow { phase: FlowPhase::AwaitMutation, ..s }, ActionView::Mutate)
        } else {
            fail(s, ErrorView::Database)
        },
        FlowPhase::AwaitMutation => spec_mutation_answer(s, ev),
        FlowPhase::AwaitOutbox(entity) => if ev is OutboxWritten {
            (WriteFlow { phase: FlowPhase::AwaitCommit(entity), ..s }, ActionView::Commit)
        } else {
            fail(s, ErrorView::Database)
        },
        FlowPhase::AwaitCommit(entity) => if ev is Committed {
            (WriteFlow { phase: FlowPhase::Done, ..s }, ActionView::Respond(Ok(entity)))
        } else {
            fail(s, ErrorView::Database)
        },
        FlowPhase::Done => (s, ActionView::Respond(Err(ErrorView::Database))),
    }
}

impl WriteFlow {
    /// The flow is consistent: a pending precheck means the lookup is under
    /// way, and every later phase has passed the precheck its write demands.
    pub open spec fn inv(&self) -> bool {
        match self.phase {
            FlowPhase::AwaitLookup => self.approval == Approval::Pending && precheck(self.op) != Precheck::Nothing,
            FlowPhase::Done => true,
            _ => approved(self.op, self.actor, self.approval),
        }
    }

    /// Starts a write by `actor`.
    pub fn begin(op: WriteOp, actor: u128) -> (r: (WriteFlow, WriteAction))
        ensures
            r.0 == spec_begin(op, actor).0,
            r.1@ == spec_begin(op, actor).1,
            r.0.inv(),
    {
        match op {
            WriteOp::CreateChapter { novel_id } | WriteOp::DeleteChapter { novel_id, .. } =>
                (WriteFlow { op, actor, phase: FlowPhase::AwaitLookup, approval: Approval::Pending },
                    WriteAction::LookupNovel { novel_id }),
            WriteOp::CreateReply { thread_id } =>
                (WriteFlow { op, actor, phase: FlowPhase::AwaitLookup, approval: Approval::Pending },
                    WriteAction::LookupThread { thread_id }),
            _ => (WriteFlow { op, actor, phase: FlowPhase::AwaitBegin, approval: Approval::NotNeeded },
                WriteAction::BeginTx),
        }
    }

    fn fail_with(self, e: AppError) -> (r: (WriteFlow, WriteAction))
        ensures
            r.0 == fail(self, e@).0,
            r.1@ == fail(self, e@).1,
    {
        (WriteFlow { phase: FlowPhase::Done, ..self }, WriteAction::Respond(Err(e)))
    }

    fn announce_entity(self, entity: u128) -> (r: (WriteFlow, WriteAction))
        ensures
            r.0 == announce(self, entity).0,
            r.1@ == announce(self, entity).1,
    {
        (WriteFlow { phase: FlowPhase::AwaitOutbox(entity), ..self },
            WriteAction::WriteOutbox { entity_id: entity, event: event_kind(self.op) })
    }

    fn on_lookup(self, ev: WriteEvent) -> (r: (WriteFlow, WriteAction))
        requires
            self.phase == FlowPhase::AwaitLookup,
        ensures
            r.0 == spec_lookup_answer(self, ev).0,
            r.1@ == spec_lookup_answer(self, ev).1,
    {
        match self.op {
            WriteOp::CreateChapter { .. } | WriteOp::DeleteChapter { .. } => match ev {
                WriteEvent::NovelLookedUp(None) => self.fail_with(not_found("Novel not found")),
                WriteEvent::NovelLookedUp(Some(author)) => if author == self.actor {
                    (WriteFlow { phase: FlowPhase::AwaitBegin, approval: Approval::NovelOwner(author), ..self },
                        WriteAction::BeginTx)
                } else {
                    self.fail_with(AppError::Forbidden)
                },
                _ => self.fail_with(AppError::Database),
            },
            WriteOp::CreateReply { .. } => match ev {
                WriteEvent::ThreadLookedUp(None) => self.fail_with(not_found("Thread not found")),
                WriteEvent::ThreadLookedUp(Some(locked)) => if locked {
                    self.fail_with(AppError::Forbidden)
                } else {
                    (WriteFlow { phase: FlowPhase::AwaitBegin, approval: Approval::OpenThread, ..self },
                        WriteAction::BeginTx)
                },
                _ => self.fail_with(AppError::Database),
            },
            _ => self.fail_with(AppError::Database),
        }
    }

    fn on_insert(self, ev: WriteEvent, conflict_msg: Option<&str>) -> (r: (WriteFlow, WriteAction))
        ensures
            ({
                let conflict = match conflict_msg { Some(m) => Some(m@), None => None };
                let spec = spec_mutation_answer_insert(self, ev, conflict);
                r.0 == spec.0 && r.1@ == spec.1
            }),
    {
        match ev {
            WriteEvent::RowReturned(id) => self.announce_entity(id),
            WriteEvent::ConstraintViolated => match conflict_msg {
                Some(m) => self.fail_with(conflict(m)),
                None => self.fail_with(AppError::Database),
            },
            _ => self.fail_with(AppError::Database),
        }
    }

    fn on_update(self, ev: WriteEvent, not_found_msg: &str) -> (r: (WriteFlow, WriteAction))
        ensures
            ({
                let spec = spec_mutation_answer_update(self, ev, not_found_msg@);
                r.0 == spec.0 && r.1@ == spec.1
            }),
    {
        match ev {
            WriteEvent::RowReturned(id) => self.announce_entity(id),
            WriteEvent::NoRow => self.fail_with(not_found(not_found_msg)),
            _ => self.fail_with(AppError::Database),
        }
    }

    fn on_delete(self, ev: WriteEvent, target: u128, not_found_msg: &str) -> (r: (WriteFlow, WriteAction))
        ensures
            ({
                let spec = spec_mutation_answer_delete(self, ev, target, not_found_msg@);
                r.0 == spec.0 && r.1@ == spec.1
            }),
    {
        match ev {
            WriteEvent::RowsAffected(n) => if n == 0 {
                self.fail_with(not_found(not_found_msg))
            } else {
                self.announce_entity(target)
            },
            _ => self.fail_with(AppError::Database),
        }
    }

    fn on_mutation(self, ev: WriteEvent) -> (r: (WriteFlow, WriteAction))
        ensures
            r.0 == spec_mutation_answer(self, ev).0,
            r.1@ == spec_mutation_answer(self, ev).1,
    {
        match self.op {
            WriteOp::CreateNovel => self.on_insert(ev, Some("Novel with this slug already exists")),
            WriteOp::UpdateNovel => self.on_update(ev, "Novel not found or unauthorized"),
            WriteOp::DeleteNovel { novel_id } => self.on_delete(ev, novel_id, "Novel not found or unauthorized"),
            WriteOp::CreateChapter { .. } => self.on_insert(ev, Some("Chapter number already exists")),
            WriteOp::DeleteChapter { chapter_id, .. } => self.on_delete(ev, chapter_id, "Chapter not found"),
            WriteOp::CreateComment => self.on_insert(ev, None),
            WriteOp::DeleteComment { comment_id } => self.on_delete(ev, comment_id, "Comment not found or unauthorized"),
            WriteOp::CreateThread => self.on_insert(ev, None),
            WriteOp::CreateReply { .. } => self.on_insert(ev, None),
            WriteOp::CreateReview => self.on_insert(ev, Some("You have already reviewed this novel")),
            WriteOp::UpdateReview => self.on_update(ev, "Review not found or unauthorized"),
            WriteOp::DeleteReview { review_id } => self.on_delete(ev, review_id, "Review not found or unauthorized"),
        }
    }

    /// Moves the write on by the answer to its last action.
    pub fn step(self, ev: WriteEvent) -> (r: (WriteFlow, WriteAction))
        requires
            self.phase != FlowPhase::Done,
        ensures
            r.0 == spec_flow_step(self, ev).0,
            r.1@ == spec_flow_step(self, ev).1,
            self.inv() ==> r.0.inv(),
    {
        match self.phase {
            FlowPhase::AwaitLookup => self.on_lookup(ev),
            FlowPhase::AwaitBegin => match ev {
                WriteEvent::TxBegun => (WriteFlow { phase: FlowPhase::AwaitMutation, ..self }, WriteAction::Mutate),
                _ => self.fail_with(AppError::Database),
            },
            FlowPhase::AwaitMutation => self.on_mutation(ev),
            FlowPhase::AwaitOutbox(entity) => match ev {
                WriteEvent::OutboxWritten => (WriteFlow { phase: FlowPhase::AwaitCommit(entity), ..self }, WriteAction::Commit),
                _ => self.fail_with(AppError::Database),
            },
            FlowPhase::AwaitCommit(entity) => match ev {
                WriteEvent::Committed => (WriteFlow { phase: FlowPhase::Done, ..self }, WriteAction::Respond(Ok(entity))),
                _ => self.fail_with(AppError::Database),
            },
            FlowPhase::Done => (self, WriteAction::Respond(Err(AppError::Database))),
        }
    }
}

/// The answer to an insert, spelled out.
pub open spec fn spec_mutation_answer_insert(s: WriteFlow, ev: WriteEvent, conflict: Option<Seq<char>>) -> (WriteFlow, ActionView) {
    match ev {
        WriteEvent::RowReturned(id) => announce(s, id),
        WriteEvent::ConstraintViolated => match conflict {
            Some(msg) => fail(s, ErrorView::Conflict(msg)),
            None => fail(s, ErrorView::Database),
        },
        _ => fail(s, ErrorView::Database),
    }
}

/// The answer to an update, spelled out.
pub open spec fn spec_mutation_answer_update(s: WriteFlow, ev: WriteEvent, not_found: Seq<char>) -> (WriteFlow, ActionView) {
    match ev {
        WriteEvent::RowReturned(id) => announce(s, id),
        WriteEvent::NoRow => fail(s, ErrorView::NotFound(not_found)),
        _ => fail(s, ErrorView::Database),
    }
}

/// The answer to a delete, spelled out.
pub open spec fn spec_mutation_answer_delete(s: WriteFlow, ev: WriteEvent, target: u128, not_found: Seq<char>) -> (WriteFlow, ActionView) {
    match ev {
        WriteEvent::RowsAffected(n) => if n == 0 {
            fail(s, ErrorView::NotFound(not_found))
        } else {
            announce(s, target)
        },
        _ => fail(s, ErrorView::Database),
    }
}

/// No write runs before its precheck passed: the step that asks to run the
/// write comes from a flow whose approval is the one its operation demands,
/// for chapter writes the caller's authorship of the novel.
pub proof fn lemma_write_runs_only_when_approved(s: WriteFlow, ev: WriteEvent)
    requires
        s.inv(),
    ensures
        spec_flow_step(s, ev).1 is Mutate ==> {
            &&& s.phase == FlowPhase::AwaitBegin
            &&& approved(s.op, s.actor, s.approval)
            &&& precheck(s.op) is NovelOwnedByCaller ==> s.approval == Approval::NovelOwner(s.actor)
        },
{
}

/// Authorship is granted only by a lookup that found the novel with the
/// caller as its author.
pub proof fn lemma_authorship_from_lookup(s: WriteFlow, ev: WriteEvent)
    ensures
        ({
            let n = spec_flow_step(s, ev).0;
            n.approval != s.approval ==> (n.approval matches Approval::NovelOwner(a) ==>
                ev == WriteEvent::NovelLookedUp(Some(a)) && a == s.actor)
        }),
{
}

/// Transactional outbox: a commit is asked for only after the outbox row
/// about the written entity was inserted in the same transaction.
pub proof fn lemma_commit_follows_outbox(s: WriteFlow, ev: WriteEvent)
    ensures
        spec_flow_step(s, ev).1 is Commit ==> {
            &&& s.phase is AwaitOutbox
            &&& ev == WriteEvent::OutboxWritten
            &&& spec_flow_step(s, ev).0.phase == FlowPhase::AwaitCommit(s.phase->AwaitOutbox_0)
        },
{
}

/// The outbox row announces the write's own event about the entity that was
/// written: the row an insert or update returned, or the target of a delete
/// that removed at least one row.
pub proof fn lemma_outbox_announces_written_entity(s: WriteFlow, ev: WriteEvent)
    ensures
        spec_flow_step(s, ev).1 matches ActionView::WriteOutbox { entity_id, event } ==> {
            &&& s.phase == FlowPhase::AwaitMutation
            &&& event == spec_event_kind(s.op)
            &&& match shape(s.op) {
                WriteShape::Delete { target, .. } => entity_id == target && (ev matches WriteEvent::RowsAffected(n) && n > 0),
                _ => ev == WriteEvent::RowReturned(entity_id),
            }
        },
{
}

/// Success is answered only once the transaction committed, and it names
/// the entity the outbox row announced.
pub proof fn lemma_success_follows_commit(s: WriteFlow, ev: WriteEvent)
    requires
        s.phase != FlowPhase::Done,
    ensures
        spec_flow_step(s, ev).1 matches ActionView::Respond(Ok(id)) ==> {
            &&& s.phase == FlowPhase::AwaitCommit(id)
            &&& ev == WriteEvent::Committed
        },
{
}

/// Every answer ends the write: after a response, nothing more is asked.
pub proof fn lemma_response_ends_flow(s: WriteFlow, ev: WriteEvent)
    requires
        s.phase != FlowPhase::Done,
    ensures
        spec_flow_step(s, ev).1 is Respond <==> spec_flow_step(s, ev).0.phase == FlowPhase::Done,
{
}

/// The actions a write asks for on a sequence of answers, from state `s`
/// until it has answered the request or the answers run out.
pub open spec fn trace(s: WriteFlow, events: Seq<WriteEvent>) -> Seq<ActionView>
    decreases events.len(),
{
    if events.len() == 0 || s.phase == FlowPhase::Done {
        Seq::empty()
    } else {
        let (n, a) = spec_flow_step(s, events[0]);
        seq![a] + trace(n, events.subrange(1, events.len() as int))
    }
}

/// All actions of a write by `actor`, its first action included.
pub open spec fn full_trace(op: WriteOp, actor: u128, events: Seq<WriteEvent>) -> Seq<ActionView> {
    seq![spec_begin(op, actor).1] + trace(spec_begin(op, actor).0, events)
}

/// Every success answered in `h` comes right after the write, the outbox row
/// announcing the written entity and the commit, in that order.
pub open spec fn successes_follow_commit(op: WriteOp, h: Seq<ActionView>) -> bool {
    forall|k: int| 0 <= k < h.len() && (#[trigger] h[k] matches ActionView::Respond(Ok(_))) ==> {
        &&& k >= 3
        &&& h[k - 1] == ActionView::Commit
        &&& h[k - 2] == (ActionView::WriteOutbox { entity_id: h[k]->Respond_0->Ok_0, event: spec_event_kind(op) })
        &&& h[k - 3] == ActionView::Mutate
    }
}

/// The actions so far fit the phase: waiting for the write's answer follows
/// the request to write, waiting for the outbox row follows that row's
/// request, and waiting for the commit follows the commit's request.
pub open spec fn history_fits(s: WriteFlow, h: Seq<ActionView>) -> bool {
    match s.phase {
        FlowPhase::AwaitMutation => h.len() >= 1 && h.last() == ActionView::Mutate,
        FlowPhase::AwaitOutbox(e) => h.len() >= 2
            && h.last() == (ActionView::WriteOutbox { entity_id: e, event: spec_event_kind(s.op) })
            && h[h.len() - 2] == ActionView::Mutate,
        FlowPhase::AwaitCommit(e) => h.len() >= 3
            && h.last() == ActionView::Commit
            && h[h.len() - 2] == (ActionView::WriteOutbox { entity_id: e, event: spec_event_kind(s.op) })
            && h[h.len() - 3] == ActionView::Mutate,
        _ => true,
    }
}

proof fn lemma_step_keeps_history(s: WriteFlow, h: Seq<ActionView>, ev: WriteEvent)
    requires
        s.phase != FlowPhase::Done,
        history_fits(s, h),
        successes_follow_commit(s.op, h),
    ensures
        spec_flow_step(s, ev).0.op == s.op,
        history_fits(spec_flow_step(s, ev).0, h.push(spec_flow_step(s, ev).1)),
        successes_follow_commit(s.op, h.push(spec_flow_step(s, ev).1)),
{
    let (n, a) = spec_flow_step(s, ev);
    let h2 = h.push(a);
    assert forall|k: int| 0 <= k < h2.len() && (#[trigger] h2[k] matches ActionView::Respond(Ok(_))) implies {
        &&& k >= 3
        &&& h2[k - 1] == ActionView::Commit
        &&& h2[k - 2] == (ActionView::WriteOutbox { entity_id: h2[k]->Respond_0->Ok_0, event: spec_event_kind(s.op) })
        &&& h2[k - 3] == ActionView::Mutate
    } by {
        if k < h.len() {
            assert(h2[k] == h[k]);
            assert(h2[k - 1] == h[k - 1]);
            assert(h2[k - 2] == h[k - 2]);
            assert(h2[k - 3] == h[k - 3]);
        } else {
            assert(s.phase is AwaitCommit);
        }
    }
}

proof fn lemma_trace_keeps_history(s: WriteFlow, h: Seq<ActionView>, events: Seq<WriteEvent>)
    requires
        history_fits(s, h),
        successes_follow_commit(s.op, h),
    ensures
        successes_follow_commit(s.op, h + trace(s, events)),
    decreases events.len(),
{
    if events.len() == 0 || s.phase == FlowPhase::Done {
        assert(h + trace(s, events) =~= h);
    } else {
        let (n, a) = spec_flow_step(s, events[0]);
        let rest = events.subrange(1, events.len() as int);
        lemma_step_keeps_history(s, h, events[0]);
        lemma_trace_keeps_history(n, h.push(a), rest);
        assert(h.push(a) + trace(n, rest) =~= h + trace(s, events));
    }
}

/// Transactional outbox, over whole runs: whatever the database answers, a
/// write answers success only right after it asked, in this order, to run
/// the write, to insert the outbox row announcing its own event about the
/// entity it answers with, and to commit.
pub proof fn lemma_success_needs_write_outbox_commit(op: WriteOp, actor: u128, events: Seq<WriteEvent>)
    ensures
        successes_follow_commit(op, full_trace(op, actor, events)),
{
    let (s, a) = spec_begin(op, actor);
    let h = seq![a];
    assert(successes_follow_commit(op, h)) by {
        assert forall|k: int| 0 <= k < h.len() && (#[trigger] h[k] matches ActionView::Respond(Ok(_))) implies false by {
            assert(h[k] == a);
        }
    }
    lemma_trace_keeps_history(s, h, events);
}

/// Whether two writes are the same operation, whatever ids they carry.
pub open spec fn same_operation(a: WriteOp, b: WriteOp) -> bool {
    match (a, b) {
        (WriteOp::CreateNovel, WriteOp::CreateNovel) => true,
        (WriteOp::UpdateNovel, WriteOp::UpdateNovel) => true,
        (WriteOp::DeleteNovel { .. }, WriteOp::DeleteNovel { .. }) => true,
        (WriteOp::CreateChapter { .. }, WriteOp::CreateChapter { .. }) => true,
        (WriteOp::DeleteChapter { .. }, WriteOp::DeleteChapter { .. }) => true,
        (WriteOp::CreateComment, WriteOp::CreateComment) => true,
        (WriteOp::DeleteComment { .. }, WriteOp::DeleteComment { .. }) => true,
        (WriteOp::CreateThread, WriteOp::CreateThread) => true,
        (WriteOp::CreateReply { .. }, WriteOp::CreateReply { .. }) => true,
        (WriteOp::CreateReview, WriteOp::CreateReview) => true,
        (WriteOp::UpdateReview, WriteOp::UpdateReview) => true,
        (WriteOp::DeleteReview { .. }, WriteOp::DeleteReview { .. }) => true,
        _ => false,
    }
}

/// The entity a write touches, as it reads in event types.
pub open spec fn written_entity(op: WriteOp) -> Seq<char> {
    match op {
        WriteOp::CreateNovel | WriteOp::UpdateNovel | WriteOp::DeleteNovel { .. } => "novel"@,
        WriteOp::CreateChapter { .. } | WriteOp::DeleteChapter { .. } => "chapter"@,
        WriteOp::CreateComment | WriteOp::DeleteComment { .. } => "comment"@,
        WriteOp::CreateThread => "forum.thread"@,
        WriteOp::CreateReply { .. } => "forum.reply"@,
        WriteOp::CreateReview | WriteOp::UpdateReview | WriteOp::DeleteReview { .. } => "review"@,
    }
}

/// What a write does to its entity, as it reads in event types.
pub open spec fn write_action(op: WriteOp) -> Seq<char> {
    match op {
        WriteOp::CreateNovel | WriteOp::CreateChapter { .. } | WriteOp::CreateComment | WriteOp::CreateThread
        | WriteOp::CreateReply { .. } | WriteOp::CreateReview => "created"@,
        WriteOp::UpdateNovel | WriteOp::UpdateReview => "updated"@,
        WriteOp::DeleteNovel { .. } | WriteOp::DeleteChapter { .. } | WriteOp::DeleteComment { .. }
        | WriteOp::DeleteReview { .. } => "deleted"@,
    }
}

/// Distinct write operations announce distinct events: two writes announce
/// the same event only if they are the same operation. An update is never
/// announced as a creation, nor a new thread as a reply.
pub proof fn lemma_distinct_writes_announce_distinct_events(a: WriteOp, b: WriteOp)
    requires
        spec_event_kind(a) == spec_event_kind(b),
    ensures
        same_operation(a, b),
{
}

/// The event a write announces is published under
/// `novel.{entity}.{action}`, with the entity the write touches and what
/// it does to it: a creation as `.created`, a change as `.updated`, a
/// removal as `.deleted`.
pub proof fn lemma_announced_event_names_the_write(op: WriteOp)
    ensures
        kind_domain(spec_event_kind(op)) == written_entity(op),
        kind_action(spec_event_kind(op)) == write_action(op),
        spec_event_kind(op).spec_event_type() == "novel."@ + written_entity(op) + "."@ + write_action(op),
{
    lemma_event_type_names_entity_and_action(spec_event_kind(op));
}

} // verus!
