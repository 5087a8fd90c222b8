use novel_api::events::{EventPayload, OutboxRow};
use novel_api::outbox::{
    poller_start, poller_step, BatchAction, BatchEvent, BatchOutcome, BatchPhase, PollerAction, PollerEvent,
    PollerPhase, PublishBatch,
};

fn row(id: i64, entity: u128, t: &str) -> OutboxRow {
    OutboxRow { id, entity_id: entity, event_type: t.to_string(), timestamp: 1_700_000_000_000_000 + id }
}

#[test]
fn round_publishes_then_marks_each_row_in_order() {
    let (b, a) = PublishBatch::start(100);
    assert_eq!(a, BatchAction::FetchUnpublished { limit: 100 });
    let rows = vec![row(1, 10, "novel.novel.created"), row(2, 20, "novel.review.deleted")];
    let (b, a) = b.step(BatchEvent::Fetched(rows));
    assert_eq!(
        a,
        BatchAction::Publish {
            subject: "novel.novel.created".to_string(),
            payload: EventPayload {
                entity_id: 10,
                event_type: "novel.novel.created".to_string(),
                timestamp: 1_700_000_000_000_001,
            },
        }
    );
    let (b, a) = b.step(BatchEvent::Published);
    assert_eq!(a, BatchAction::MarkPublished { id: 1 });
    let (b, a) = b.step(BatchEvent::Marked);
    match a {
        BatchAction::Publish { subject, payload } => {
            assert_eq!(subject, "novel.review.deleted");
            assert_eq!(payload.entity_id, 20);
        }
        other => panic!("unexpected {:?}", other),
    }
    let (b, a) = b.step(BatchEvent::Published);
    assert_eq!(a, BatchAction::MarkPublished { id: 2 });
    let (b, a) = b.step(BatchEvent::Marked);
    assert_eq!(a, BatchAction::Finish(BatchOutcome::Done(2)));
    assert_eq!(b.phase, BatchPhase::Finished);
    let (_, again) = b.step(BatchEvent::Published);
    assert_eq!(again, BatchAction::Finish(BatchOutcome::Done(2)));
}

#[test]
fn empty_round_publishes_nothing() {
    let (b, _) = PublishBatch::start(100);
    let (_, a) = b.step(BatchEvent::Fetched(Vec::new()));
    assert_eq!(a, BatchAction::Finish(BatchOutcome::Done(0)));
}

#[test]
fn failed_publish_leaves_row_unmarked() {
    let (b, _) = PublishBatch::start(100);
    let (b, _) = b.step(BatchEvent::Fetched(vec![row(5, 1, "novel.comment.created"), row(6, 2, "novel.comment.created")]));
    let (b, a) = b.step(BatchEvent::Failed);
    assert_eq!(a, BatchAction::Finish(BatchOutcome::Failed));
    assert_eq!(b.outcome, Some(BatchOutcome::Failed));
}

#[test]
fn failed_mark_stops_the_round() {
    let (b, _) = PublishBatch::start(100);
    let (b, _) = b.step(BatchEvent::Fetched(vec![row(5, 1, "novel.comment.created"), row(6, 2, "novel.comment.created")]));
    let (b, _) = b.step(BatchEvent::Published);
    let (_, a) = b.step(BatchEvent::Failed);
    assert_eq!(a, BatchAction::Finish(BatchOutcome::Failed));
}

#[test]
fn failed_fetch_and_out_of_turn_answer() {
    let (b, _) = PublishBatch::start(100);
    let (_, a) = b.step(BatchEvent::Failed);
    assert_eq!(a, BatchAction::Finish(BatchOutcome::Failed));
    let (b, _) = PublishBatch::start(100);
    let (_, a) = b.step(BatchEvent::Marked);
    assert_eq!(a, BatchAction::Finish(BatchOutcome::Failed));
}

#[test]
fn payload_copies_the_row() {
    let r = row(3, 99, "novel.chapter.created");
    let p = r.payload();
    assert_eq!(p, EventPayload { entity_id: 99, event_type: "novel.chapter.created".to_string(), timestamp: r.timestamp });
}

#[test]
fn poller_cycle() {
    assert_eq!(poller_start(), (PollerPhase::AwaitTick, PollerAction::WaitTick { published: None }));
    assert_eq!(poller_step(PollerEvent::Ticked), (PollerPhase::AwaitRound, PollerAction::RunRound { limit: 100 }));
    assert_eq!(
        poller_step(PollerEvent::RoundFinished(BatchOutcome::Done(3))),
        (PollerPhase::AwaitTick, PollerAction::WaitTick { published: Some(3) })
    );
    assert_eq!(
        poller_step(PollerEvent::RoundFinished(BatchOutcome::Done(0))),
        (PollerPhase::AwaitTick, PollerAction::WaitTick { published: None })
    );
    assert_eq!(
        poller_step(PollerEvent::RoundFinished(BatchOutcome::Failed)),
        (PollerPhase::AwaitBackoff, PollerAction::Backoff { millis: 5000 })
    );
    assert_eq!(poller_step(PollerEvent::Slept), (PollerPhase::AwaitTick, PollerAction::WaitTick { published: None }));
}

/// Runs one round against an in-memory outbox whose fetch hands out the
/// oldest unpublished rows; marked rows leave the outbox.
fn run_round(outbox: &mut Vec<OutboxRow>) -> BatchOutcome {
    let (mut b, mut a) = PublishBatch::start(100);
    loop {
        let ev = match a {
            BatchAction::FetchUnpublished { limit } => {
                BatchEvent::Fetched(outbox.iter().take(limit as usize).cloned().collect())
            }
            BatchAction::Publish { .. } => BatchEvent::Published,
            BatchAction::MarkPublished { id } => {
                outbox.retain(|r| r.id != id);
                BatchEvent::Marked
            }
            BatchAction::Finish(o) => return o,
        };
        let (nb, na) = b.step(ev);
        b = nb;
        a = na;
    }
}

#[test]
fn successful_rounds_drain_the_outbox() {
    let mut outbox: Vec<OutboxRow> = (1..=250).map(|i| row(i, i as u128, "novel.novel.created")).collect();
    assert_eq!(run_round(&mut outbox), BatchOutcome::Done(100));
    assert_eq!(outbox.len(), 150);
    assert_eq!(outbox[0].id, 101);
    assert_eq!(run_round(&mut outbox), BatchOutcome::Done(100));
    assert_eq!(run_round(&mut outbox), BatchOutcome::Done(50));
    assert!(outbox.is_empty());
    assert_eq!(run_round(&mut outbox), BatchOutcome::Done(0));
}

#[test]
fn rows_written_between_rounds_wait_behind_older_ones() {
    let mut outbox: Vec<OutboxRow> = (1..=150).map(|i| row(i, i as u128, "novel.novel.created")).collect();
    assert_eq!(run_round(&mut outbox), BatchOutcome::Done(100));
    outbox.extend((151..=260).map(|i| row(i, i as u128, "novel.review.created")));
    // row 150 stood at position 149: it goes out in round 149 / 100 + 1 = 2.
    assert_eq!(run_round(&mut outbox), BatchOutcome::Done(100));
    assert!(outbox.iter().all(|r| r.id > 150));
    assert_eq!(outbox[0].id, 201);
    outbox.extend((261..=270).map(|i| row(i, i as u128, "novel.review.created")));
    assert_eq!(run_round(&mut outbox), BatchOutcome::Done(70));
    assert!(outbox.is_empty());
}
