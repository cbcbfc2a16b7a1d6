//! What holds of the driver as a whole, over every run.

use vstd::prelude::*;
use vstd::arithmetic::power2::{lemma2_to64, lemma_pow2_adds, pow2};
use crate::backoff_handler::{exponential_delay, jitter, BackoffHandler, BACKOFF_JITTER_MAX_US};
use crate::communication::{ReadError, WriteError};
use crate::half_duplex::{echo_differs, frame_result, race_verdict, write_verdict, Race};
use crate::uart_ip::{
    DriverEvent, DriverState, RxEvent, RxPhase, RxState, TxEvent, TxPhase, TxState, TxStep,
    IP_FRAME_SIZE,
};

verus! {

/// The books of the outbound ring as the transmit branch fills them: frames
/// taken up for writing, frames released from the ring, and whether a frame
/// is held by the branch now.
pub struct TxLedger {
    pub acquired: nat,
    pub released: nat,
    pub held: bool,
}

/// One event of a run with what the outbound ring showed when it came:
/// whether it held a frame.
pub struct TxInput {
    pub event: TxEvent,
    pub has_frame: bool,
}

/// The books after the transmit branch in state `before` has handled
/// `input`. A frame is taken when the branch starts a write and holds none;
/// it is released when the branch releases it from the ring.
pub open spec fn ledger_next(ledger: TxLedger, before: TxState, input: TxInput) -> TxLedger {
    let step = before.next(input.event, input.has_frame).1;
    let taken = if step.write && !ledger.held {
        TxLedger { acquired: ledger.acquired + 1, held: true, ..ledger }
    } else {
        ledger
    };
    if step.tx_done {
        TxLedger { released: taken.released + 1, held: false, ..taken }
    } else {
        taken
    }
}

/// The transmit branch and the books after a run of events.
pub open spec fn tx_run(handler: TxState, ledger: TxLedger, events: Seq<TxInput>) -> (
    TxState,
    TxLedger,
)
    decreases events.len(),
{
    if events.len() == 0 {
        (handler, ledger)
    } else {
        tx_run(
            handler.next(events[0].event, events[0].has_frame).0,
            ledger_next(ledger, handler, events[0]),
            events.skip(1),
        )
    }
}

/// No poll in the run reports a busy line.
pub open spec fn line_always_free(events: Seq<TxInput>) -> bool {
    forall|i: int|
        0 <= i < events.len() ==> match (#[trigger] events[i]).event {
            TxEvent::Poll { line_free, .. } => line_free,
            _ => true,
        }
}

/// The books balance: every frame taken was released or is held, and a
/// write is only under way on a held frame.
pub open spec fn balanced(handler: TxState, ledger: TxLedger) -> bool {
    &&& ledger.acquired == ledger.released + if ledger.held {
        1nat
    } else {
        0nat
    }
    &&& handler.phase is Write ==> ledger.held
}

/// Balanced books stay balanced over any run in which the line is never
/// reported busy.
pub proof fn lemma_balance_kept(handler: TxState, ledger: TxLedger, events: Seq<TxInput>)
    requires
        balanced(handler, ledger),
        line_always_free(events),
    ensures
        balanced(tx_run(handler, ledger, events).0, tx_run(handler, ledger, events).1),
    decreases events.len(),
{
    if events.len() > 0 {
        let event = events[0];
        let rest = events.skip(1);
        assert forall|i: int| 0 <= i < rest.len() implies match (#[trigger] rest[i]).event {
            TxEvent::Poll { line_free, .. } => line_free,
            _ => true,
        } by {
            assert(rest[i] == events[i + 1]);
        }
        assert(events[0] == event);
        lemma_balance_kept(
            handler.next(event.event, event.has_frame).0,
            ledger_next(ledger, handler, event),
            rest,
        );
    }
}

/// No slot is consumed twice. From an idle branch and empty books, over any
/// run of events in which the line is never reported busy, the frames taken
/// up for writing are exactly those released from the ring plus the one
/// still held for a retry, if any.
pub proof fn law_no_double_consume(handler: TxState, events: Seq<TxInput>)
    requires
        handler.phase is Idle,
        line_always_free(events),
    ensures
        ({
            let books = tx_run(
                handler,
                TxLedger { acquired: 0, released: 0, held: false },
                events,
            ).1;
            books.acquired == books.released + if books.held {
                1nat
            } else {
                0nat
            }
        }),
{
    lemma_balance_kept(handler, TxLedger { acquired: 0, released: 0, held: false }, events);
}

/// A write whose echo differs from what was sent, in any position of the
/// probe, is reported as a collision, whatever else happened; and the
/// branch answers such a report with exactly one increment of the backoff
/// scheduler and releases nothing unless the scheduler gave up.
pub proof fn law_collision_round_trip(
    handler: TxState,
    has_frame: bool,
    echo: Seq<u8>,
    sent: Seq<u8>,
    echo_read: Result<usize, ReadError>,
    tx_ok: bool,
    entropy: u64,
)
    requires
        handler.phase is Write,
        echo_differs(echo, sent),
    ensures
        race_verdict(Race::RxFirst(echo_read), echo, sent) == Err::<(), WriteError>(
            WriteError::CollisionError,
        ),
        write_verdict(Race::RxFirst(echo_read), echo, sent, tx_ok) == Err::<(), WriteError>(
            WriteError::CollisionError,
        ),
        ({
            let report = TxEvent::WriteDone { result: Err(WriteError::CollisionError), entropy };
            let (after, step) = handler.next(report, has_frame);
            let (scheduler, outcome) = handler.backoff_handler.incremented(entropy);
            &&& after.backoff_handler == scheduler
            &&& step.tx_done == (outcome is Err && has_frame)
            &&& !step.write
            &&& after.in_backoff == (outcome is Ok)
            &&& after.phase is Idle
        }),
{
}

/// The exponential component doubles with each attempt.
pub proof fn law_backoff_doubles(attempts: nat)
    ensures
        exponential_delay(attempts + 1) == 2 * exponential_delay(attempts),
        exponential_delay(attempts) < exponential_delay(attempts + 1),
        exponential_delay(0) == 1000,
{
    lemma2_to64();
    lemma_pow2_adds(attempts, 1);
    assert(1000 * (pow2(attempts) * 2) == 2 * (1000 * pow2(attempts))) by (nonlinear_arith);
    assert(pow2(attempts) > 0) by {
        vstd::arithmetic::power2::lemma_pow2_pos(attempts);
    }
    assert(1000 * pow2(attempts) > 0) by (nonlinear_arith)
        requires
            pow2(attempts) > 0,
    ;
}

/// Every pause that the scheduler arms lies between the exponential
/// component of the new attempt count and that component plus the largest
/// jitter.
pub proof fn law_delay_within_jitter(scheduler: BackoffHandler, entropy: u64)
    requires
        scheduler.wf(),
        scheduler.incremented(entropy).1 is Ok,
    ensures
        ({
            let (after, outcome) = scheduler.incremented(entropy);
            let base = exponential_delay(after.state.number_backoffs_attempted as nat);
            &&& after.state.number_backoffs_attempted
                == scheduler.state.number_backoffs_attempted + 1
            &&& base <= outcome->Ok_0 <= base + BACKOFF_JITTER_MAX_US
            &&& outcome->Ok_0 == base + jitter(entropy)
        }),
{
    let attempts = (scheduler.state.number_backoffs_attempted + 1) as nat;
    crate::backoff_handler::lemma_delay_bounds(attempts, scheduler.state.max_backoffs, entropy);
}

/// The branch with its pause served and a write of the head frame under
/// way.
pub open spec fn writing(handler: TxState) -> TxState {
    TxState { phase: TxPhase::Write, in_backoff: false, ..handler }
}

/// The branch after as many failed writes of the oldest frame in a row as
/// `entropies` has entries, each drawing its jitter from the matching entry.
pub open spec fn after_failures(handler: TxState, entropies: Seq<u64>) -> (TxState, TxStep)
    decreases entropies.len(),
{
    if entropies.len() == 0 {
        (handler, TxStep::nothing())
    } else {
        writing(after_failures(handler, entropies.drop_last()).0).next(
            TxEvent::WriteDone {
                result: Err(WriteError::CollisionError),
                entropy: entropies.last(),
            },
            true,
        )
    }
}

/// Failed writes below the cap are counted one by one, and the frame is
/// kept.
pub proof fn lemma_failures_counted(handler: TxState, entropies: Seq<u64>)
    requires
        handler.backoff_handler.state.number_backoffs_attempted == 0,
        entropies.len() < handler.backoff_handler.state.max_backoffs,
    ensures
        ({
            let (after, step) = after_failures(handler, entropies);
            &&& after.backoff_handler.state.number_backoffs_attempted == entropies.len()
            &&& after.backoff_handler.state.max_backoffs
                == handler.backoff_handler.state.max_backoffs
            &&& !step.tx_done
        }),
    decreases entropies.len(),
{
    if entropies.len() > 0 {
        lemma_failures_counted(handler, entropies.drop_last());
    }
}

/// Giving up resets. After as many failed writes in a row as the cap
/// allows, the last of them released the frame, the attempt count is back
/// at zero and no pause is owed; and a write that then succeeds releases
/// its frame at once and leaves the count at zero.
pub proof fn law_give_up_resets(handler: TxState, entropies: Seq<u64>, entropy: u64)
    requires
        handler.backoff_handler.state.number_backoffs_attempted == 0,
        entropies.len() == handler.backoff_handler.state.max_backoffs,
        entropies.len() > 0,
    ensures
        ({
            let (after, step) = after_failures(handler, entropies);
            let (sent, last) = writing(after).next(
                TxEvent::WriteDone { result: Ok(()), entropy },
                true,
            );
            &&& step.tx_done
            &&& step.arm_us is None
            &&& after.backoff_handler.state.number_backoffs_attempted == 0
            &&& !after.in_backoff
            &&& after.phase is Idle
            &&& last.tx_done
            &&& sent.phase is Idle
            &&& sent.backoff_handler.state.number_backoffs_attempted == 0
            &&& !sent.in_backoff
        }),
{
    lemma_failures_counted(handler, entropies.drop_last());
}

/// A pause that is owed ends when the timer fires. With the timer as
/// arming left it, the first poll starts the counter and waits, a further
/// poll still waits, and a poll after the interrupt takes up the frame
/// again, with the attempt count as it was.
pub proof fn law_pause_then_retry(handler: TxState, entropy: u64, has_frame: bool)
    requires
        handler.wf(),
        handler.in_backoff,
        handler.phase is Idle,
        !handler.backoff_handler.timer.run_once,
        !handler.backoff_handler.timer.expired,
    ensures
        ({
            let poll = TxEvent::Poll { line_free: true, entropy };
            let (waiting, first) = handler.next(poll, has_frame);
            let (fired, second) = waiting.next(TxEvent::TimerFired, has_frame);
            let (resumed, third) = fired.next(poll, has_frame);
            &&& waiting.phase is Backoff && first.start_timer && !first.tx_done && !first.write
            &&& waiting.next(poll, has_frame).0.phase is Backoff
            &&& !waiting.next(poll, has_frame).1.write
            &&& !resumed.in_backoff
            &&& third.write == has_frame
            &&& has_frame ==> resumed.phase is Write
            &&& !has_frame ==> resumed.phase is TxSlot
            &&& !second.tx_done && !third.tx_done
            &&& resumed.backoff_handler.state == handler.backoff_handler.state
        }),
{
}

/// Dropping the transmit branch is safe wherever it stands. The drop
/// changes nothing but the point of suspension: the scheduler with its
/// timer and the owed pause stay, and nothing is released or armed. When
/// the branch is entered again on a free line it still releases nothing
/// and the retry state is as the drop found it.
pub proof fn law_drop_safety(handler: TxState, entropy: u64, has_frame: bool)
    ensures
        ({
            let (dropped, step) = handler.next(TxEvent::Dropped, has_frame);
            let (again, entry) = dropped.next(
                TxEvent::Poll { line_free: true, entropy },
                has_frame,
            );
            &&& dropped.backoff_handler == handler.backoff_handler
            &&& dropped.in_backoff == handler.in_backoff
            &&& dropped.phase is Idle
            &&& step == TxStep::nothing()
            &&& !entry.tx_done
            &&& entry.arm_us is None
            &&& again.backoff_handler.state == handler.backoff_handler.state
        }),
{
}

/// A drop leaves the books of the outbound channel as they were: the frame
/// that was held is still held.
pub proof fn law_drop_keeps_frame(handler: TxState, ledger: TxLedger, has_frame: bool)
    ensures
        ledger_next(ledger, handler, TxInput { event: TxEvent::Dropped, has_frame }) == ledger,
{
}

/// What the consumer has been handed after the line delivered `bursts`, one
/// after the other with the line idle in between, each read into a free
/// slot of `capacity` bytes by a full turn of the receive branch.
pub open spec fn consumer_view(bursts: Seq<Seq<u8>>, capacity: nat) -> Seq<Seq<u8>>
    decreases bursts.len(),
{
    if bursts.len() == 0 {
        Seq::empty()
    } else {
        let earlier = consumer_view(bursts.drop_last(), capacity);
        let burst = bursts.last();
        let reading = (RxState { phase: RxPhase::Idle }).next(RxEvent::Poll, true).0;
        match reading.next(RxEvent::ReadDone(frame_result(burst, capacity)), true).1.rx_done {
            Some(n) => earlier.push(burst.take(n as int)),
            None => earlier,
        }
    }
}

/// Inbound frames reach the consumer in the order in which they arrived
/// on the line: what the consumer holds after the first `k` bursts is a
/// prefix of what it holds after all of them.
pub proof fn law_rx_order(bursts: Seq<Seq<u8>>, capacity: nat, k: int)
    requires
        0 <= k <= bursts.len(),
    ensures
        consumer_view(bursts.take(k), capacity).is_prefix_of(consumer_view(bursts, capacity)),
    decreases bursts.len() - k,
{
    if k == bursts.len() {
        assert(bursts.take(k) =~= bursts);
    } else {
        law_rx_order(bursts.drop_last(), capacity, k);
        assert(bursts.drop_last().take(k) =~= bursts.take(k));
    }
}

/// When every burst fits a slot, the consumer is handed exactly the bursts,
/// whole and in order.
pub proof fn law_rx_complete(bursts: Seq<Seq<u8>>, capacity: nat)
    requires
        capacity <= IP_FRAME_SIZE,
        forall|i: int| 0 <= i < bursts.len() ==> (#[trigger] bursts[i]).len() <= capacity,
    ensures
        consumer_view(bursts, capacity) == bursts,
    decreases bursts.len(),
{
    if bursts.len() > 0 {
        law_rx_complete(bursts.drop_last(), capacity);
        let burst = bursts.last();
        assert(burst.take(burst.len() as int) =~= burst);
        assert(bursts.drop_last().push(burst) =~= bursts);
    } else {
        assert(bursts =~= Seq::<Seq<u8>>::empty());
    }
}

/// A burst that does not fit its slot never reaches the consumer, and the
/// bursts around it are handed on as if it had not been there.
pub proof fn law_oversize_dropped(earlier: Seq<Seq<u8>>, burst: Seq<u8>, capacity: nat)
    requires
        burst.len() > capacity,
    ensures
        consumer_view(earlier.push(burst), capacity) == consumer_view(earlier, capacity),
{
    assert(earlier.push(burst).drop_last() =~= earlier);
}

/// One event of a run with what the rings showed when it came: whether the
/// outbound ring held a frame and the inbound ring had a free slot.
pub struct DriverInput {
    pub event: DriverEvent,
    pub has_frame: bool,
    pub has_room: bool,
}

/// The driver after a run of events.
pub open spec fn driver_run(driver: DriverState, events: Seq<DriverInput>) -> DriverState
    decreases events.len(),
{
    if events.len() == 0 {
        driver
    } else {
        let input = events.last();
        driver_run(driver, events.drop_last()).next(
            input.event,
            input.has_frame,
            input.has_room,
        ).0
    }
}

/// Once the driver task runs the link is up, and it stays up whatever
/// happens.
pub proof fn law_link_stays_up(driver: DriverState, events: Seq<DriverInput>)
    requires
        driver.link_up,
    ensures
        driver_run(driver, events).link_up,
    decreases events.len(),
{
    if events.len() > 0 {
        law_link_stays_up(driver, events.drop_last());
    }
}

/// Inbound traffic does not disturb a pending pause: whatever the receive
/// branch is told, the backoff scheduler, its timer and the owed pause stay
/// as they are, and nothing is released or armed on the transmit side.
pub proof fn law_rx_leaves_backoff(
    driver: DriverState,
    event: RxEvent,
    has_frame: bool,
    has_room: bool,
)
    ensures
        ({
            let (after, step) = driver.next(DriverEvent::Rx(event), has_frame, has_room);
            &&& after.tx.backoff_handler == driver.tx.backoff_handler
            &&& after.tx.in_backoff == driver.tx.in_backoff
            &&& step.tx == TxStep::nothing()
            &&& step.rx == driver.rx.next(event, has_room).1
        }),
{
}

/// While a pause is owed no write is issued: a branch that owes a pause is
/// never waiting for a frame or writing one.
pub proof fn law_no_write_in_backoff(handler: TxState, event: TxEvent, has_frame: bool)
    requires
        handler.wf(),
    ensures
        ({
            let (after, step) = handler.next(event, has_frame);
            after.in_backoff ==> !(after.phase is Write) && !(after.phase is TxSlot)
                && !step.write
        }),
{
}

} // verus!
