use novel_api::error::AppError;
use novel_api::events::EventKind;
use novel_api::workflow::{FlowPhase, WriteAction, WriteEvent, WriteFlow, WriteOp};

fn run(op: WriteOp, actor: u128, events: &[WriteEvent]) -> Vec<WriteAction> {
    let (mut flow, first) = WriteFlow::begin(op, actor);
    let mut actions = vec![first];
    for ev in events {
        let (next, action) = flow.step(*ev);
        flow = next;
        actions.push(action);
    }
    actions
}

#[test]
fn create_novel_commits_after_outbox_row() {
    let a = run(
        WriteOp::CreateNovel,
        1,
        &[WriteEvent::TxBegun, WriteEvent::RowReturned(42), WriteEvent::OutboxWritten, WriteEvent::Committed],
    );
    assert_eq!(
        a,
        vec![
            WriteAction::BeginTx,
            WriteAction::Mutate,
            WriteAction::WriteOutbox { entity_id: 42, event: EventKind::NovelCreated },
            WriteAction::Commit,
            WriteAction::Respond(Ok(42)),
        ]
    );
}

#[test]
fn duplicate_slug_is_conflict() {
    let a = run(WriteOp::CreateNovel, 1, &[WriteEvent::TxBegun, WriteEvent::ConstraintViolated]);
    assert_eq!(
        a.last(),
        Some(&WriteAction::Respond(Err(AppError::Conflict("Novel with this slug already exists".to_string()))))
    );
}

#[test]
fn comment_constraint_failure_is_database_error() {
    let a = run(WriteOp::CreateComment, 1, &[WriteEvent::TxBegun, WriteEvent::ConstraintViolated]);
    assert_eq!(a.last(), Some(&WriteAction::Respond(Err(AppError::Database))));
}

#[test]
fn chapter_write_needs_the_author() {
    let a = run(WriteOp::CreateChapter { novel_id: 7 }, 9, &[WriteEvent::NovelLookedUp(Some(8))]);
    assert_eq!(a, vec![WriteAction::LookupNovel { novel_id: 7 }, WriteAction::Respond(Err(AppError::Forbidden))]);
    let missing = run(WriteOp::DeleteChapter { novel_id: 7, chapter_id: 3 }, 9, &[WriteEvent::NovelLookedUp(None)]);
    assert_eq!(missing.last(), Some(&WriteAction::Respond(Err(AppError::NotFound("Novel not found".to_string())))));
}

#[test]
fn chapter_delete_by_author_announces_chapter() {
    let a = run(
        WriteOp::DeleteChapter { novel_id: 7, chapter_id: 3 },
        9,
        &[
            WriteEvent::NovelLookedUp(Some(9)),
            WriteEvent::TxBegun,
            WriteEvent::RowsAffected(1),
            WriteEvent::OutboxWritten,
            WriteEvent::Committed,
        ],
    );
    assert_eq!(a[3], WriteAction::WriteOutbox { entity_id: 3, event: EventKind::ChapterDeleted });
    assert_eq!(a[5], WriteAction::Respond(Ok(3)));
    let none = run(
        WriteOp::DeleteChapter { novel_id: 7, chapter_id: 3 },
        9,
        &[WriteEvent::NovelLookedUp(Some(9)), WriteEvent::TxBegun, WriteEvent::RowsAffected(0)],
    );
    assert_eq!(none.last(), Some(&WriteAction::Respond(Err(AppError::NotFound("Chapter not found".to_string())))));
}

#[test]
fn reply_to_locked_thread_is_forbidden() {
    let locked = run(WriteOp::CreateReply { thread_id: 5 }, 1, &[WriteEvent::ThreadLookedUp(Some(true))]);
    assert_eq!(locked, vec![WriteAction::LookupThread { thread_id: 5 }, WriteAction::Respond(Err(AppError::Forbidden))]);
    let gone = run(WriteOp::CreateReply { thread_id: 5 }, 1, &[WriteEvent::ThreadLookedUp(None)]);
    assert_eq!(gone.last(), Some(&WriteAction::Respond(Err(AppError::NotFound("Thread not found".to_string())))));
    let open = run(
        WriteOp::CreateReply { thread_id: 5 },
        1,
        &[WriteEvent::ThreadLookedUp(Some(false)), WriteEvent::TxBegun, WriteEvent::RowReturned(77)],
    );
    assert_eq!(open.last(), Some(&WriteAction::WriteOutbox { entity_id: 77, event: EventKind::ForumReplyCreated }));
}

#[test]
fn update_without_row_is_not_found() {
    let a = run(WriteOp::UpdateNovel, 1, &[WriteEvent::TxBegun, WriteEvent::NoRow]);
    assert_eq!(
        a.last(),
        Some(&WriteAction::Respond(Err(AppError::NotFound("Novel not found or unauthorized".to_string()))))
    );
    let r = run(WriteOp::UpdateReview, 1, &[WriteEvent::TxBegun, WriteEvent::NoRow]);
    assert_eq!(
        r.last(),
        Some(&WriteAction::Respond(Err(AppError::NotFound("Review not found or unauthorized".to_string()))))
    );
}

#[test]
fn review_duplicate_and_delete_messages() {
    let dup = run(WriteOp::CreateReview, 1, &[WriteEvent::TxBegun, WriteEvent::ConstraintViolated]);
    assert_eq!(
        dup.last(),
        Some(&WriteAction::Respond(Err(AppError::Conflict("You have already reviewed this novel".to_string()))))
    );
    let del = run(WriteOp::DeleteComment { comment_id: 4 }, 1, &[WriteEvent::TxBegun, WriteEvent::RowsAffected(0)]);
    assert_eq!(
        del.last(),
        Some(&WriteAction::Respond(Err(AppError::NotFound("Comment not found or unauthorized".to_string()))))
    );
}

#[test]
fn failed_outbox_or_commit_never_succeeds() {
    let a = run(WriteOp::CreateThread, 1, &[WriteEvent::TxBegun, WriteEvent::RowReturned(2), WriteEvent::DbFailed]);
    assert_eq!(a.last(), Some(&WriteAction::Respond(Err(AppError::Database))));
    let c = run(
        WriteOp::DeleteNovel { novel_id: 8 },
        1,
        &[WriteEvent::TxBegun, WriteEvent::RowsAffected(1), WriteEvent::OutboxWritten, WriteEvent::DbFailed],
    );
    assert_eq!(c[2], WriteAction::WriteOutbox { entity_id: 8, event: EventKind::NovelDeleted });
    assert_eq!(c.last(), Some(&WriteAction::Respond(Err(AppError::Database))));
}

#[test]
fn begin_failure_and_phase_after_response() {
    let (flow, _) = WriteFlow::begin(WriteOp::UpdateReview, 1);
    let (flow, action) = flow.step(WriteEvent::DbFailed);
    assert_eq!(action, WriteAction::Respond(Err(AppError::Database)));
    assert_eq!(flow.phase, FlowPhase::Done);
}

#[test]
fn every_event_type_uses_the_novel_prefix() {
    let kinds = [
        EventKind::NovelCreated, EventKind::NovelUpdated, EventKind::NovelDeleted,
        EventKind::ChapterCreated, EventKind::ChapterDeleted, EventKind::CommentCreated,
        EventKind::CommentDeleted, EventKind::ForumThreadCreated, EventKind::ForumReplyCreated,
        EventKind::ReviewCreated, EventKind::ReviewUpdated, EventKind::ReviewDeleted,
    ];
    for k in kinds {
        let t = k.event_type();
        assert!(t.starts_with("novel."));
        assert!(t.matches('.').count() >= 2);
    }
    assert_eq!(EventKind::ForumThreadCreated.event_type(), "novel.forum.thread.created");
    assert_eq!(EventKind::ChapterCreated.event_type(), "novel.chapter.created");
}
