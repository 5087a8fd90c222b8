use vstd::prelude::*;
use crate::events::{EventPayload, OutboxRow};

verus! {

/// How many outbox rows one polling round publishes at most.
pub const POLL_BATCH_SIZE: i64 = 100;

/// Period of the outbox poller's ticks, in milliseconds.
pub const POLL_INTERVAL_MS: u64 = 500;

/// Pause after a failed round, in milliseconds.
pub const ERROR_BACKOFF_MS: u64 = 5000;

/// Where a publishing round stands.
#[derive(Debug, Clone, Copy, PartialEq, Eq)]
pub enum BatchPhase {
    /// Waiting for the unpublished rows.
    AwaitRows,
    /// Waiting for the broker to acknowledge row `i`.
    AwaitPublish(usize),
    /// Waiting for the database to record row `i` as published.
    AwaitMark(usize),
    /// The round is over.
    Finished,
}

/// How a publishing round ended.
#[derive(Debug, Clone, Copy, PartialEq, Eq)]
pub enum BatchOutcome {
    /// Every fetched row was published and marked; the number of rows.
    Done(usize),
    /// A database or broker call failed; later rows were left untouched.
    Failed,
}

/// What the database or the broker answered.
#[derive(Debug, Clone, PartialEq, Eq)]
pub enum BatchEvent {
    /// The unpublished rows, oldest first.
    Fetched(Vec<OutboxRow>),
    /// The broker acknowledged the message.
    Published,
    /// The row was recorded as published.
    Marked,
    /// The last call failed.
    Failed,
}

/// What the round asks for next.
#[derive(Debug, Clone, PartialEq, Eq)]
pub enum BatchAction {
    /// Fetch at most `limit` unpublished rows, oldest first, locking them.
    FetchUnpublished { limit: i64 },
    /// Publish `payload` on `subject` and wait for the acknowledgement.
    Publish { subject: String, payload: EventPayload },
    /// Record the row `id` as published.
    MarkPublished { id: i64 },
    /// The round is over.
    Finish(BatchOutcome),
}

/// One polling round of the outbox: fetch the unpublished rows, then
/// publish each in turn and record it as published once the broker has
/// acknowledged it.
pub struct PublishBatch {
    pub limit: i64,
    pub rows: Vec<OutboxRow>,
    pub phase: BatchPhase,
    pub outcome: Option<BatchOutcome>,
    /// Ids of the rows recorded as published so far, in order.
    pub marked: Ghost<Seq<i64>>,
}

/// The ids of rows, in order.
pub open spec fn row_ids(rows: Seq<OutboxRow>) -> Seq<i64> {
    rows.map_values(|r: OutboxRow| r.id)
}

/// Publishing a row: its event type is the subject.
pub open spec fn publish_action(row: OutboxRow) -> BatchAction {
    BatchAction::Publish { subject: row.event_type, payload: row.spec_payload() }
}

/// A finished round.
pub open spec fn finished(b: PublishBatch, outcome: BatchOutcome) -> PublishBatch {
    PublishBatch { phase: BatchPhase::Finished, outcome: Some(outcome), ..b }
}

/// The state a round moves to on an event, and the action it asks for.
/// An event that does not answer the pending call ends the round as failed.
pub open spec fn spec_batch_step(b: PublishBatch, ev: BatchEvent) -> (PublishBatch, BatchAction) {
    match b.phase {
        BatchPhase::AwaitRows => match ev {
            BatchEvent::Fetched(rows) => if rows@.len() == 0 {
                (finished(PublishBatch { rows, ..b }, BatchOutcome::Done(0)), BatchAction::Finish(BatchOutcome::Done(0)))
            } else {
                (PublishBatch { rows, phase: BatchPhase::AwaitPublish(0), ..b }, publish_action(rows@[0]))
            },
            _ => (finished(b, BatchOutcome::Failed), BatchAction::Finish(BatchOutcome::Failed)),
        },
        BatchPhase::AwaitPublish(i) => if ev is Published && i < b.rows@.len() {
            (PublishBatch { phase: BatchPhase::AwaitMark(i), ..b }, BatchAction::MarkPublished { id: b.rows@[i as int].id })
        } else {
            (finished(b, BatchOutcome::Failed), BatchAction::Finish(BatchOutcome::Failed))
        },
        BatchPhase::AwaitMark(i) => if ev is Marked && i < b.rows@.len() {
            let marked = Ghost(b.marked@.push(b.rows@[i as int].id));
            if i + 1 < b.rows@.len() {
                (PublishBatch { phase: BatchPhase::AwaitPublish((i + 1) as usize), marked, ..b },
                    publish_action(b.rows@[i + 1]))
            } else {
                let n = b.rows.len();
                (PublishBatch { phase: BatchPhase::Finished, outcome: Some(BatchOutcome::Done(n)), marked, ..b },
                    BatchAction::Finish(BatchOutcome::Done(n)))
            }
        } else {
            (finished(b, BatchOutcome::Failed), BatchAction::Finish(BatchOutcome::Failed))
        },
        BatchPhase::Finished => (b, BatchAction::Finish(match b.outcome {
            Some(o) => o,
            None => BatchOutcome::Failed,
        })),
    }
}

/// Builds the action that publishes a row.
fn publish_row(row: &OutboxRow) -> (a: BatchAction)
    ensures
        a == publish_action(*row),
{
    BatchAction::Publish { subject: row.event_type.clone(), payload: row.payload() }
}

impl PublishBatch {
    /// The round's bookkeeping is consistent: the rows recorded as published
    /// are the first rows fetched, in order; while a row is pending, every
    /// row before it is recorded and none after it; a round that ended
    /// `Done(n)` fetched `n` rows and recorded every one of them.
    pub open spec fn inv(&self) -> bool {
        let ids = row_ids(self.rows@);
        &&& self.marked@.len() <= ids.len()
        &&& self.marked@ == ids.take(self.marked@.len() as int)
        &&& match self.phase {
            BatchPhase::AwaitRows => self.rows@.len() == 0 && self.marked@.len() == 0 && self.outcome is None,
            BatchPhase::AwaitPublish(i) => i < self.rows@.len() && self.marked@.len() == i && self.outcome is None,
            BatchPhase::AwaitMark(i) => i < self.rows@.len() && self.marked@.len() == i && self.outcome is None,
            BatchPhase::Finished => match self.outcome {
                Some(BatchOutcome::Done(n)) => n == self.rows@.len() && self.marked@.len() == n,
                Some(BatchOutcome::Failed) => true,
                None => false,
            },
        }
    }

    /// Starts a round that publishes at most `limit` rows.
    pub fn start(limit: i64) -> (r: (PublishBatch, BatchAction))
        ensures
            r.0.limit == limit,
            r.0.rows@.len() == 0,
            r.0.phase == BatchPhase::AwaitRows,
            r.0.outcome is None,
            r.0.marked@.len() == 0,
            r.0.inv(),
            r.1 == (BatchAction::FetchUnpublished { limit }),
    {
        let b = PublishBatch {
            limit,
            rows: Vec::new(),
            phase: BatchPhase::AwaitRows,
            outcome: None,
            marked: Ghost(Seq::empty()),
        };
        assert(b.marked@ =~= row_ids(b.rows@).take(0));
        (b, BatchAction::FetchUnpublished { limit })
    }

    /// Moves the round on by the answer to its last action.
    pub fn step(self, ev: BatchEvent) -> (r: (PublishBatch, BatchAction))
        ensures
            r == spec_batch_step(self, ev),
            self.inv() ==> r.0.inv(),
    {
        let ghost old_self = self;
        let ghost ev0 = ev;
        let r = match self.phase {
            BatchPhase::AwaitRows => match ev {
                BatchEvent::Fetched(rows) => {
                    if rows.len() == 0 {
                        let b = PublishBatch { rows, phase: BatchPhase::Finished, outcome: Some(BatchOutcome::Done(0)), ..self };
                        (b, BatchAction::Finish(BatchOutcome::Done(0)))
                    } else {
                        let a = publish_row(&rows[0]);
                        let b = PublishBatch { rows, phase: BatchPhase::AwaitPublish(0), ..self };
                        (b, a)
                    }
                },
                _ => (PublishBatch { phase: BatchPhase::Finished, outcome: Some(BatchOutcome::Failed), ..self },
                    BatchAction::Finish(BatchOutcome::Failed)),
            },
            BatchPhase::AwaitPublish(i) => {
                let published = match ev { BatchEvent::Published => true, _ => false };
                if published && i < self.rows.len() {
                    let id = self.rows[i].id;
                    (PublishBatch { phase: BatchPhase::AwaitMark(i), ..self }, BatchAction::MarkPublished { id })
                } else {
                    (PublishBatch { phase: BatchPhase::Finished, outcome: Some(BatchOutcome::Failed), ..self },
                        BatchAction::Finish(BatchOutcome::Failed))
                }
            },
            BatchPhase::AwaitMark(i) => {
                let was_marked = match ev { BatchEvent::Marked => true, _ => false };
                if was_marked && i < self.rows.len() {
                    let ghost new_marked = self.marked@.push(self.rows@[i as int].id);
                    if i + 1 < self.rows.len() {
                        let a = publish_row(&self.rows[i + 1]);
                        (PublishBatch { phase: BatchPhase::AwaitPublish(i + 1), marked: Ghost(new_marked), ..self }, a)
                    } else {
                        let n = self.rows.len();
                        (PublishBatch { phase: BatchPhase::Finished, outcome: Some(BatchOutcome::Done(n)), marked: Ghost(new_marked), ..self },
                            BatchAction::Finish(BatchOutcome::Done(n)))
                    }
                } else {
                    (PublishBatch { phase: BatchPhase::Finished, outcome: Some(BatchOutcome::Failed), ..self },
                        BatchAction::Finish(BatchOutcome::Failed))
                }
            },
            BatchPhase::Finished => {
                let o = match self.outcome {
                    Some(o) => o,
                    None => BatchOutcome::Failed,
                };
                (self, BatchAction::Finish(o))
            },
        };
        proof {
            if old_self.inv() {
                lemma_batch_step_keeps_inv(old_self, ev0);
            }
        }
        r
    }
}

/// Every step keeps the round's bookkeeping consistent.
pub proof fn lemma_batch_step_keeps_inv(b: PublishBatch, ev: BatchEvent)
    requires
        b.inv(),
    ensures
        spec_batch_step(b, ev).0.inv(),
{
    let (n, _) = spec_batch_step(b, ev);
    let ids = row_ids(b.rows@);
    match b.phase {
        BatchPhase::AwaitRows => {
            assert(n.marked@ =~= row_ids(n.rows@).take(0));
        },
        BatchPhase::AwaitMark(i) => {
            if ev is Marked && i < b.rows@.len() {
                assert(n.marked@ =~= ids.take(i + 1));
            }
        },
        _ => {},
    }
}

/// A row is recorded as published only once the broker acknowledged the
/// message of that very row: the step that asks to mark row `id` answers a
/// `Published` event while that row's publication was pending.
pub proof fn lemma_mark_follows_publish(b: PublishBatch, ev: BatchEvent)
    ensures
        spec_batch_step(b, ev).1 matches BatchAction::MarkPublished { id } ==> {
            &&& ev is Published
            &&& b.phase matches BatchPhase::AwaitPublish(i)
            &&& i < b.rows@.len()
            &&& id == b.rows@[i as int].id
        },
{
}

/// Rows are marked in the order they were fetched: the row a step asks to
/// mark is the first fetched row not yet recorded as published.
pub proof fn lemma_marks_in_fetch_order(b: PublishBatch, ev: BatchEvent)
    requires
        b.inv(),
    ensures
        spec_batch_step(b, ev).1 matches BatchAction::MarkPublished { id } ==> {
            &&& b.marked@.len() < b.rows@.len()
            &&& id == row_ids(b.rows@)[b.marked@.len() as int]
        },
{
}

/// A row's publication is pending only right after it was asked for: every
/// step into `AwaitPublish(j)` asks to publish row `j` on the subject of its
/// event type.
pub proof fn lemma_pending_publish_was_requested(b: PublishBatch, ev: BatchEvent)
    ensures
        ({
            let (n, a) = spec_batch_step(b, ev);
            b.phase != n.phase ==> (n.phase matches BatchPhase::AwaitPublish(j)
                ==> j < n.rows@.len() && a == publish_action(n.rows@[j as int]))
        }),
{
}

/// Once a round is over it stays over and asks for nothing new.
pub proof fn lemma_finished_is_final(b: PublishBatch, ev: BatchEvent)
    requires
        b.phase == BatchPhase::Finished,
    ensures
        spec_batch_step(b, ev).0 == b,
        spec_batch_step(b, ev).1 is Finish,
{
}

/// How many of the oldest unpublished rows a round fetches: the limit, or
/// all of them where fewer are left.
pub open spec fn round_size(pending_len: int, limit: int) -> int {
    if limit <= 0 { 0 } else if limit < pending_len { limit } else { pending_len }
}

/// What one round leaves unpublished. Where the fetch handed the round the
/// oldest unpublished rows, at most `limit` of them (`pending` being the
/// unpublished ids, oldest first): the rows recorded as published are
/// always the oldest ones, in order; a round that ended `Done` recorded
/// exactly the rows it fetched: the first `round_size` unpublished ones.
pub proof fn lemma_round_publishes_oldest(b: PublishBatch, pending: Seq<i64>)
    requires
        b.inv(),
        b.phase != BatchPhase::AwaitRows,
        row_ids(b.rows@) == pending.take(round_size(pending.len() as int, b.limit as int)),
    ensures
        b.marked@ == pending.take(b.marked@.len() as int),
        pending == b.marked@ + pending.skip(b.marked@.len() as int),
        b.outcome matches Some(BatchOutcome::Done(n)) ==> {
            &&& n == round_size(pending.len() as int, b.limit as int)
            &&& b.marked@ == pending.take(round_size(pending.len() as int, b.limit as int))
        },
{
    let k = round_size(pending.len() as int, b.limit as int);
    let ids = row_ids(b.rows@);
    assert(ids.len() == b.rows@.len());
    assert(b.marked@ =~= pending.take(b.marked@.len() as int));
    assert(pending =~= b.marked@ + pending.skip(b.marked@.len() as int));
}

/// All rows appended by the writes of several periods, in order.
pub open spec fn appended(batches: Seq<Seq<i64>>) -> Seq<i64>
    decreases batches.len(),
{
    if batches.len() == 0 {
        Seq::empty()
    } else {
        batches[0] + appended(batches.drop_first())
    }
}

/// The outbox over successful rounds while writes go on: starting from the
/// rows `published` so far and the unpublished rows `queue`, oldest first,
/// each round publishes the oldest unpublished rows, at most `limit`, and
/// then the rows written during that round (`batches[k]` for the `k`-th
/// round, with higher ids than every earlier row) join the end of the
/// queue. The result is the rows published, in order, and the rows left
/// unpublished.
pub open spec fn rounds_with_writes(published: Seq<i64>, queue: Seq<i64>, batches: Seq<Seq<i64>>, limit: int) -> (Seq<i64>, Seq<i64>)
    decreases batches.len(),
{
    if batches.len() == 0 {
        (published, queue)
    } else {
        let n = round_size(queue.len() as int, limit);
        rounds_with_writes(published + queue.take(n), queue.skip(n) + batches[0], batches.drop_first(), limit)
    }
}

/// Nothing is lost or reordered over rounds with writes: the rows published
/// followed by those left are all rows ever written, in order; and `k`
/// rounds publish at least `k * limit` rows or every row unpublished at the
/// start.
pub proof fn lemma_rounds_with_writes_keep_order(published: Seq<i64>, queue: Seq<i64>, batches: Seq<Seq<i64>>, limit: int)
    requires
        limit > 0,
    ensures
        ({
            let (out, left) = rounds_with_writes(published, queue, batches, limit);
            &&& out + left == published + queue + appended(batches)
            &&& out.len() >= published.len()
                + (if batches.len() * limit < queue.len() { batches.len() * limit } else { queue.len() as int })
        }),
    decreases batches.len(),
{
    if batches.len() == 0 {
        assert(published + queue + appended(batches) =~= published + queue);
    } else {
        let n = round_size(queue.len() as int, limit);
        let p2 = published + queue.take(n);
        let q2 = queue.skip(n) + batches[0];
        let rest = batches.drop_first();
        lemma_rounds_with_writes_keep_order(p2, q2, rest, limit);
        assert(p2 + q2 + appended(rest) =~= published + queue + appended(batches)) by {
            assert(appended(batches) == batches[0] + appended(rest));
            assert(queue =~= queue.take(n) + queue.skip(n));
        }
        let k = batches.len();
        let k1 = rest.len();
        assert(k == k1 + 1);
        assert(k * limit == limit + k1 * limit) by (nonlinear_arith)
            requires k == k1 + 1;
        assert(k1 * limit >= 0) by (nonlinear_arith)
            requires limit > 0;
    }
}

/// Eventual publication while writes go on: a row at position `p` among the
/// unpublished rows, oldest first, is published by the `p / limit + 1`-th
/// successful round at the latest, whatever rows are written meanwhile;
/// it is published at position `p` of the rows published from then on.
pub proof fn lemma_row_published_within_rounds(pending: Seq<i64>, batches: Seq<Seq<i64>>, limit: int, p: int)
    requires
        limit > 0,
        0 <= p < pending.len(),
        batches.len() >= p / limit + 1,
    ensures
        ({
            let out = rounds_with_writes(Seq::empty(), pending, batches, limit).0;
            p < out.len() && out[p] == pending[p]
        }),
{
    lemma_rounds_with_writes_keep_order(Seq::empty(), pending, batches, limit);
    let (out, left) = rounds_with_writes(Seq::empty(), pending, batches, limit);
    let k = batches.len() as int;
    let q = p / limit;
    assert(p < (q + 1) * limit) by (nonlinear_arith)
        requires limit > 0, p >= 0, q == p / limit;
    assert((q + 1) * limit <= k * limit) by (nonlinear_arith)
        requires limit > 0, q + 1 <= k;
    assert(out.len() > p);
    assert((out + left)[p] == out[p]);
    assert((Seq::<i64>::empty() + pending + appended(batches))[p] == pending[p]);
}

/// Eventual publication for the poller, whose rounds take at most 100 rows:
/// once the database and the broker answer every call, every row waiting
/// at position `p` is published within `p / 100 + 1` rounds, however many
/// rows are written while they run.
pub proof fn lemma_poller_publishes_every_row(pending: Seq<i64>, batches: Seq<Seq<i64>>, p: int)
    requires
        0 <= p < pending.len(),
        batches.len() >= p / 100 + 1,
    ensures
        ({
            let out = rounds_with_writes(Seq::empty(), pending, batches, 100).0;
            p < out.len() && out[p] == pending[p]
        }),
{
    lemma_row_published_within_rounds(pending, batches, 100, p);
}

/// Where the outbox poller stands.
#[derive(Debug, Clone, Copy, PartialEq, Eq)]
pub enum PollerPhase {
    AwaitTick,
    AwaitRound,
    AwaitBackoff,
}

/// What the poller is told.
#[derive(Debug, Clone, Copy, PartialEq, Eq)]
pub enum PollerEvent {
    /// The interval ticked.
    Ticked,
    /// A publishing round ended.
    RoundFinished(BatchOutcome),
    /// The pause after a failure is over.
    Slept,
}

/// What the poller asks for.
#[derive(Debug, Clone, Copy, PartialEq, Eq)]
pub enum PollerAction {
    /// Wait for the next tick; first report `published` rows where given.
    WaitTick { published: Option<usize> },
    /// Run a publishing round of at most `limit` rows.
    RunRound { limit: i64 },
    /// Report the failure and pause for `millis` milliseconds.
    Backoff { millis: u64 },
}

/// The outbox poller: every tick it runs a publishing round of at most 100
/// rows; it reports how many rows a round published when there were any,
/// and after a failed round it pauses for 5 seconds before waiting for the
/// next tick.
pub open spec fn spec_poller_step(ev: PollerEvent) -> (PollerPhase, PollerAction) {
    match ev {
        PollerEvent::Ticked => (PollerPhase::AwaitRound, PollerAction::RunRound { limit: 100 }),
        PollerEvent::RoundFinished(BatchOutcome::Done(n)) => (PollerPhase::AwaitTick,
            PollerAction::WaitTick { published: if n > 0 { Some(n) } else { None } }),
        PollerEvent::RoundFinished(BatchOutcome::Failed) => (PollerPhase::AwaitBackoff,
            PollerAction::Backoff { millis: 5000 }),
        PollerEvent::Slept => (PollerPhase::AwaitTick, PollerAction::WaitTick { published: None }),
    }
}

/// The poller's first action: wait for the first tick.
pub fn poller_start() -> (r: (PollerPhase, PollerAction))
    ensures
        r == (PollerPhase::AwaitTick, PollerAction::WaitTick { published: None }),
{
    (PollerPhase::AwaitTick, PollerAction::WaitTick { published: None })
}

/// The poller's next phase and action on an event.
pub fn poller_step(ev: PollerEvent) -> (r: (PollerPhase, PollerAction))
    ensures
        r == spec_poller_step(ev),
{
    match ev {
        PollerEvent::Ticked => (PollerPhase::AwaitRound, PollerAction::RunRound { limit: POLL_BATCH_SIZE }),
        PollerEvent::RoundFinished(BatchOutcome::Done(n)) => (PollerPhase::AwaitTick,
            PollerAction::WaitTick { published: if n > 0 { Some(n) } else { None } }),
        PollerEvent::RoundFinished(BatchOutcome::Failed) => (PollerPhase::AwaitBackoff,
            PollerAction::Backoff { millis: ERROR_BACKOFF_MS }),
        PollerEvent::Slept => (PollerPhase::AwaitTick, PollerAction::WaitTick { published: None }),
    }
}

/// The poller never starts a round except on a tick, and a failed round is
/// always followed by the 5-second pause, never directly by another round.
pub proof fn lemma_poller_rounds_follow_ticks(ev: PollerEvent)
    ensures
        spec_poller_step(ev).1 is RunRound ==> ev is Ticked,
        ev == PollerEvent::RoundFinished(BatchOutcome::Failed)
            ==> spec_poller_step(ev).1 == (PollerAction::Backoff { millis: 5000 }),
{
}

} // verus!
