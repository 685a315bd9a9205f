//! The ingestion driver: the polling loop run against a scripted
//! transport, with the consumer modelled as draining the delivery queue
//! whenever it is full and once more at the end.
//!
//! This is the loop body of the pipeline in verifiable form: fetch
//! outcomes come from a script instead of the network, and the driver
//! proves that the consumer observes exactly the concatenation of the
//! successful batches, in order, and that the marker sent with each fetch
//! call is exactly the one the previous calls established.

use vstd::prelude::*;
use vstd::pervasive::unreached;
use crate::models::{Update, UpdateList};
use crate::poller::{FailureAction, FetchError, Poller, is_auth_error_code};
use crate::queue::{DeliveryQueue, ReceiveOutcome, SendOutcome};

verus! {

/// Consecutive decode failures at the end of the script, on top of
/// `failures` already accumulated when the script starts: a successful
/// batch or a failure of any other kind ends the run.
pub open spec fn decode_failures_after(
    failures: nat,
    script: Seq<Result<UpdateList, FetchError>>,
) -> nat
    decreases script.len(),
{
    if script.len() == 0 {
        failures
    } else {
        match script.last() {
            Ok(_) => 0,
            Err(e) => match e {
                FetchError::Decode(_) => decode_failures_after(failures, script.drop_last()) + 1,
                _ => 0,
            },
        }
    }
}

/// Whether the loop survives every outcome of the script: no credential
/// error, and no decode failure that completes a run of `limit`
/// consecutive ones. Every other failure only earns a retry.
pub open spec fn no_fatal_outcome(
    failures: nat,
    limit: nat,
    script: Seq<Result<UpdateList, FetchError>>,
) -> bool {
    forall|i: int|
        0 <= i < script.len() ==> match #[trigger] script[i] {
            Ok(_) => true,
            Err(e) => match e {
                FetchError::Transport(_) => true,
                FetchError::Api { code, message: _ } => !is_auth_error_code(code@),
                FetchError::Decode(_) => decode_failures_after(failures, script.subrange(0, i))
                    + 1 < limit,
            },
        }
}

/// Every update of every successful batch of the script, in script order.
pub open spec fn successful_updates(script: Seq<Result<UpdateList, FetchError>>) -> Seq<Update>
    decreases script.len(),
{
    if script.len() == 0 {
        Seq::empty()
    } else {
        successful_updates(script.drop_last()) + (match script.last() {
            Ok(batch) => batch.updates@,
            Err(_) => Seq::empty(),
        })
    }
}

/// The marker the poller holds after the whole script has been processed,
/// starting from `init`: each successful batch with a present marker
/// replaces it, everything else leaves it unchanged.
pub open spec fn marker_after(
    init: Option<i64>,
    script: Seq<Result<UpdateList, FetchError>>,
) -> Option<i64>
    decreases script.len(),
{
    if script.len() == 0 {
        init
    } else {
        match script.last() {
            Ok(batch) => if batch.marker is Some {
                batch.marker
            } else {
                marker_after(init, script.drop_last())
            },
            Err(_) => marker_after(init, script.drop_last()),
        }
    }
}

/// Marker advancement: the marker used in the call after call `n` is the
/// `next_marker` call `n` returned when it succeeded with one (absent
/// markers and failures leave the previous call's marker in use).
pub proof fn lemma_marker_advancement(
    init: Option<i64>,
    script: Seq<Result<UpdateList, FetchError>>,
    n: int,
)
    requires
        0 <= n < script.len(),
    ensures
        marker_after(init, script.subrange(0, n + 1)) == match script[n] {
            Ok(batch) => if batch.marker is Some {
                batch.marker
            } else {
                marker_after(init, script.subrange(0, n))
            },
            Err(_) => marker_after(init, script.subrange(0, n)),
        },
{
    let prefix = script.subrange(0, n + 1);
    assert(prefix.last() == script[n]);
    assert(prefix.drop_last() =~= script.subrange(0, n));
}

/// The log position the transport has reached after the script, starting
/// at `cursor`: each successful batch moves it to the batch's marker,
/// failures leave it alone. Meaningful for log-consistent scripts (see
/// [`log_consistent`]).
pub open spec fn cursor_after(
    cursor: int,
    script: Seq<Result<UpdateList, FetchError>>,
) -> int
    decreases script.len(),
{
    if script.len() == 0 {
        cursor
    } else {
        match script.last() {
            Ok(batch) => batch.updates@.len() + cursor_after(cursor, script.drop_last()),
            Err(_) => cursor_after(cursor, script.drop_last()),
        }
    }
}

/// Whether the script behaves like a platform that serves windows of the
/// event log `log`, with the marker an index into it: starting at
/// `cursor`, every successful batch carries exactly the next stretch of
/// the log and names the position after it as its marker.
pub open spec fn log_consistent(
    log: Seq<Update>,
    cursor: int,
    script: Seq<Result<UpdateList, FetchError>>,
) -> bool
    decreases script.len(),
{
    if script.len() == 0 {
        true
    } else {
        let before = cursor_after(cursor, script.drop_last());
        log_consistent(log, cursor, script.drop_last()) && match script.last() {
            Ok(batch) => {
                &&& before + batch.updates@.len() <= log.len()
                &&& batch.updates@ == log.subrange(before, before + batch.updates@.len())
                &&& batch.marker == Some((before + batch.updates@.len()) as i64)
            },
            Err(_) => true,
        }
    }
}

/// Against a log-consistent transport the pipeline delivers exactly one
/// contiguous stretch of the platform's event log: everything between the
/// starting position and the position the script reaches, in log order —
/// no gap, no reordering, no duplicate.
pub proof fn lemma_log_delivery_contiguous(
    log: Seq<Update>,
    cursor: int,
    script: Seq<Result<UpdateList, FetchError>>,
)
    requires
        0 <= cursor <= log.len(),
        log_consistent(log, cursor, script),
    ensures
        cursor <= cursor_after(cursor, script) <= log.len(),
        successful_updates(script) == log.subrange(cursor, cursor_after(cursor, script)),
    decreases script.len(),
{
    if script.len() == 0 {
        assert(successful_updates(script) =~= log.subrange(cursor, cursor));
    } else {
        let head = script.drop_last();
        lemma_log_delivery_contiguous(log, cursor, head);
        let before = cursor_after(cursor, head);
        match script.last() {
            Ok(batch) => {
                let after = before + batch.updates@.len();
                assert(successful_updates(script) =~= log.subrange(cursor, before)
                    + log.subrange(before, after));
                assert(log.subrange(cursor, before) + log.subrange(before, after) =~= log.subrange(
                    cursor,
                    after,
                ));
            },
            Err(_) => {},
        }
    }
}

/// No loss across a restart. Model the platform's event log as a sequence
/// with the marker an index into it: fetching from marker `m` replays the
/// events at positions `m..`. The pipeline commits the marker only after
/// delivery, so at a crash the committed marker is at most the count of
/// events the consumer has observed, and replaying from it yields some
/// already-observed events (at-least-once) followed by exactly the events
/// the consumer has not yet seen — never a gap.
pub proof fn lemma_restart_no_loss(log: Seq<Update>, committed: int, observed: int)
    requires
        0 <= committed <= observed <= log.len(),
    ensures
        log.subrange(committed, log.len() as int) == log.subrange(committed, observed)
            + log.subrange(observed, log.len() as int),
{
    assert(log.subrange(committed, log.len() as int) =~= log.subrange(committed, observed)
        + log.subrange(observed, log.len() as int));
}

/// Hand one update to the queue. When the queue is full, the consumer
/// drains the oldest buffered update first, and the send then succeeds:
/// no update is ever dropped, and the combined consumer-then-buffer order
/// gains exactly this update at the back.
fn send_draining(queue: &mut DeliveryQueue, delivered: &mut Vec<Update>, update: Update)
    requires
        old(queue).wf(),
        !old(queue)@.closed,
    ensures
        final(queue).wf(),
        !final(queue)@.closed,
        final(queue)@.capacity == old(queue)@.capacity,
        final(delivered)@ + final(queue)@.items == old(delivered)@ + old(queue)@.items.push(
            update,
        ),
{
    match queue.send(update) {
        SendOutcome::Accepted => {
            assert(delivered@ + queue@.items =~= old(delivered)@ + old(queue)@.items.push(update));
        },
        SendOutcome::Full(handed_back) => {
            match queue.receive() {
                ReceiveOutcome::Item(oldest) => {
                    delivered.push(oldest);
                },
                ReceiveOutcome::Pending => unreached(),
                ReceiveOutcome::Done => unreached(),
            }
            match queue.send(handed_back) {
                SendOutcome::Accepted => {
                    assert(delivered@ + queue@.items =~= old(delivered)@ + old(
                        queue,
                    )@.items.push(update));
                },
                SendOutcome::Full(_) => unreached(),
                SendOutcome::Closed(_) => unreached(),
            }
        },
        SendOutcome::Closed(_) => unreached(),
    }
}

/// Drain everything the queue still buffers to the consumer, in order.
fn drain_remaining(queue: &mut DeliveryQueue, delivered: &mut Vec<Update>)
    requires
        old(queue).wf(),
    ensures
        final(queue).wf(),
        final(queue)@.closed == old(queue)@.closed,
        final(queue)@.capacity == old(queue)@.capacity,
        final(queue)@.items.len() == 0,
        final(delivered)@ == old(delivered)@ + old(queue)@.items,
{
    loop
        invariant
            queue.wf(),
            queue@.closed == old(queue)@.closed,
            queue@.capacity == old(queue)@.capacity,
            delivered@ + queue@.items == old(delivered)@ + old(queue)@.items,
        ensures
            queue@.items.len() == 0,
        decreases queue@.items.len(),
    {
        if queue.len() == 0 {
            break;
        }
        match queue.receive() {
            ReceiveOutcome::Item(oldest) => {
                delivered.push(oldest);
                assert(delivered@ + queue@.items =~= old(delivered)@ + old(queue)@.items);
            },
            ReceiveOutcome::Pending => unreached(),
            ReceiveOutcome::Done => unreached(),
        }
    }
    assert(delivered@ =~= old(delivered)@ + old(queue)@.items);
}

/// Run the polling loop against a scripted transport until the script is
/// exhausted, then let the consumer drain what is still buffered.
///
/// Returns the updates as the consumer observes them and the marker the
/// poller sent with each fetch call. The contract states the pipeline's
/// two central guarantees: the consumer sees exactly the concatenation of
/// the successful batches, in script order, after anything that was
/// already buffered; and the marker of call `i` is exactly the one left
/// behind by calls `0..i` (advanced only by a delivered batch, kept on
/// every failure).
///
/// The script must hold no fatal outcome — no credential error and no
/// decode failure that exhausts the loop's tolerance — since on those the
/// loop stops instead of reaching the script's end.
///
/// For a transport that serves windows of a platform event log,
/// [`lemma_log_delivery_contiguous`] refines the first guarantee: what
/// the consumer observes is one contiguous stretch of that log.
#[verifier::rlimit(60)]
pub fn run_scripted(
    poller: &mut Poller,
    queue: &mut DeliveryQueue,
    script: Vec<Result<UpdateList, FetchError>>,
) -> (run: (Vec<Update>, Vec<Option<i64>>))
    requires
        old(poller).wf(),
        old(queue).wf(),
        !old(queue)@.closed,
        no_fatal_outcome(
            old(poller).decode_failures as nat,
            old(poller).decode_failure_limit as nat,
            script@,
        ),
    ensures
        final(poller).wf(),
        final(poller).marker == marker_after(old(poller).marker, script@),
        final(queue).wf(),
        !final(queue)@.closed,
        final(queue)@.capacity == old(queue)@.capacity,
        final(queue)@.items.len() == 0,
        run.0@ == old(queue)@.items + successful_updates(script@),
        run.1@.len() == script@.len(),
        forall|i: int|
            0 <= i < script@.len() ==> run.1@[i] == marker_after(
                old(poller).marker,
                script@.subrange(0, i),
            ),
{
    let ghost init_marker = old(poller).marker;
    let ghost init_items = old(queue)@.items;
    let ghost init_capacity = old(queue)@.capacity;
    let ghost init_failures = old(poller).decode_failures as nat;
    let ghost limit = old(poller).decode_failure_limit as nat;
    let ghost full = script@;

    let mut delivered: Vec<Update> = Vec::new();
    let mut markers: Vec<Option<i64>> = Vec::new();
    let mut rest = script;
    let ghost mut processed = Seq::<Result<UpdateList, FetchError>>::empty();

    while rest.len() > 0
        invariant
            poller.wf(),
            queue.wf(),
            !queue@.closed,
            queue@.capacity == init_capacity,
            full == processed + rest@,
            no_fatal_outcome(init_failures, limit, full),
            poller.decode_failures == decode_failures_after(init_failures, processed),
            poller.decode_failure_limit as nat == limit,
            markers@.len() == processed.len(),
            forall|i: int|
                0 <= i < processed.len() ==> markers@[i] == marker_after(
                    init_marker,
                    processed.subrange(0, i),
                ),
            poller.marker == marker_after(init_marker, processed),
            delivered@ + queue@.items == init_items + successful_updates(processed),
        decreases rest@.len(),
    {
        markers.push(poller.marker);
        let ghost markers_before = markers@;
        let ghost processed_before = processed;
        let ghost rest_before = rest@;
        let entry = rest.remove(0);
        let ghost e = entry;
        proof {
            processed = processed.push(e);
            assert(processed.drop_last() =~= processed_before);
            assert(full =~= processed + rest@);
            assert(forall|i: int|
                0 <= i < rest@.len() ==> rest@[i] == #[trigger] rest_before[i + 1]);
            // The entry being handled is the script's next one, so the
            // no-fatal-outcome premise applies to it.
            assert(e == full[processed_before.len() as int]);
            assert(full.subrange(0, processed_before.len() as int) =~= processed_before);
            assert(processed.subrange(0, processed_before.len() as int) =~= processed_before);
            assert(forall|i: int|
                0 <= i < processed_before.len() ==> #[trigger] processed.subrange(0, i)
                    =~= processed_before.subrange(0, i));
        }
        match entry {
            Ok(batch) => {
                let UpdateList { updates: mut pending, marker: next_marker } = batch;
                let ghost batch_updates = pending@;
                let ghost d0 = delivered@;
                let ghost q0 = queue@.items;
                while pending.len() > 0
                    invariant
                        queue.wf(),
                        !queue@.closed,
                        queue@.capacity == init_capacity,
                        delivered@ + queue@.items + pending@ == d0 + q0 + batch_updates,
                    decreases pending@.len(),
                {
                    let ghost pending_before = pending@;
                    let ghost d1 = delivered@;
                    let ghost q1 = queue@.items;
                    let next = pending.remove(0);
                    send_draining(queue, &mut delivered, next);
                    proof {
                        assert(pending_before =~= seq![next] + pending@);
                        assert(delivered@ + queue@.items + pending@ =~= d1 + q1 + pending_before);
                    }
                }
                poller.on_batch_delivered(next_marker);
                proof {
                    assert(e matches Ok(b) && b.updates@ == batch_updates && b.marker
                        == next_marker);
                    assert(successful_updates(processed) == successful_updates(processed_before)
                        + batch_updates);
                    assert(delivered@ + queue@.items =~= init_items + successful_updates(
                        processed,
                    ));
                }
            },
            Err(error) => {
                match poller.on_fetch_failure(&error) {
                    FailureAction::RetryAfter(_) => {},
                    FailureAction::Fatal(_) => {
                        proof {
                            assert(e matches Err(err) && err == error);
                        }
                        unreached()
                    },
                }
                proof {
                    assert(e matches Err(err) && err == error);
                    assert(marker_after(init_marker, processed) == marker_after(
                        init_marker,
                        processed_before,
                    ));
                    assert(successful_updates(processed) =~= successful_updates(processed_before));
                }
            },
        }
    }
    proof {
        assert(processed =~= full);
    }
    drain_remaining(queue, &mut delivered);
    proof {
        assert(delivered@ =~= init_items + successful_updates(full));
    }
    (delivered, markers)
}

} // verus!
