use std::task::{Context, Waker};

use embassy_net_driver_channel::driver::{Driver, HardwareAddress, LinkState, RxToken, TxToken};
use embassy_net_driver_channel::{Device, State};
use internal_bus::async_timer::{AsyncBasicTimer, TimerError};
use internal_bus::communication::{ReadError, WriteError};
use internal_bus::half_duplex::{self, receive_frame, Race};
use internal_bus::uart_ip::{
    AsyncHalfDuplexUart, DriverEvent, DriverStep, RxEvent, RxPhase, TxEvent, TxPhase,
    CHANNEL_SIZE, IP_FRAME_SIZE,
};

type Stack = Device<'static, 1048>;

/// A started driver on a 1 MHz timer, and the stack's end of its channel.
fn rig() -> (AsyncHalfDuplexUart, Stack) {
    let state: &'static mut State<1048, 10, 10> = Box::leak(Box::new(State::new()));
    let (runner, device) =
        embassy_net_driver_channel::new(state, HardwareAddress::Ethernet([0, 2, 3, 4, 5, 6]));
    let timer = AsyncBasicTimer::new(1_000_000, 0);
    let mut driver =
        AsyncHalfDuplexUart::new(timer, runner).expect("a 1 MHz timer fits every pause");
    driver.start();
    (driver, device)
}

/// The lower end of a fresh channel.
fn runner() -> embassy_net_driver_channel::Runner<'static, 1048> {
    let state: &'static mut State<1048, 10, 10> = Box::leak(Box::new(State::new()));
    embassy_net_driver_channel::new(state, HardwareAddress::Ethernet([0, 2, 3, 4, 5, 6])).0
}

/// The stack hands a frame down.
fn enqueue(stack: &mut Stack, frame: &[u8]) {
    let mut cx = Context::from_waker(Waker::noop());
    let token = stack.transmit(&mut cx).expect("the outbound ring has room");
    token.consume(frame.len(), |buf| buf.copy_from_slice(frame));
}

/// The stack takes the oldest inbound frame, if there is one.
fn dequeue(stack: &mut Stack) -> Option<Vec<u8>> {
    let mut cx = Context::from_waker(Waker::noop());
    stack.receive(&mut cx).map(|(rx, _tx)| rx.consume(|frame| frame.to_vec()))
}

/// The frame at the head of the outbound ring, as the driver sees it.
fn head(driver: &mut AsyncHalfDuplexUart) -> Option<Vec<u8>> {
    driver.tx_handler.tx_runner.try_tx_buf().map(|frame| frame.to_vec())
}

fn probe(echo: &[u8]) -> [u8; 5] {
    let mut out = [0u8; 5];
    let n = echo.len().min(5);
    out[..n].copy_from_slice(&echo[..n]);
    out
}

/// Writes the head frame against `echo` through the transceiver and reports
/// the verdict to the driver.
fn write_head(
    driver: &mut AsyncHalfDuplexUart,
    echo: &[u8],
    entropy: u64,
) -> (Result<(), WriteError>, DriverStep) {
    let frame = head(driver).expect("a frame is being written");
    let (mut rx, mut tx) = half_duplex::new();
    let verdict = tx.write(&mut rx, Race::RxFirst(Ok(echo.len())), &probe(echo), &frame, true);
    assert!(rx.stolen_signal);
    let step = driver.select(DriverEvent::Tx(TxEvent::WriteDone { result: verdict, entropy }));
    (verdict, step)
}

/// The line delivers `burst`; it is read into the free inbound slot and the
/// outcome reported to the driver.
fn deliver(driver: &mut AsyncHalfDuplexUart, burst: &[u8]) -> DriverStep {
    assert_eq!(driver.rx_handler.state.phase, RxPhase::Read);
    let slot = driver.rx_handler.rx_runner.try_rx_buf().expect("a slot is free");
    let read = receive_frame(burst, slot);
    driver.select(DriverEvent::Rx(RxEvent::ReadDone(read)))
}

/// Serves the pause that the driver owes, up to the point where the
/// transmit branch takes up the head frame again.
fn serve_pause(driver: &mut AsyncHalfDuplexUart) {
    let step = driver.select(DriverEvent::Iterate { line_free: true, entropy: 0 });
    assert!(step.tx.start_timer && !step.tx.write);
    assert_eq!(driver.tx_handler.state.phase, TxPhase::Backoff);
    let step = driver.select(DriverEvent::Tx(TxEvent::Poll { line_free: true, entropy: 0 }));
    assert!(!step.tx.start_timer && !step.tx.write);
    assert_eq!(driver.tx_handler.state.phase, TxPhase::Backoff);
    driver.select(DriverEvent::Tx(TxEvent::TimerFired));
    let step = driver.select(DriverEvent::Tx(TxEvent::Poll { line_free: true, entropy: 0 }));
    assert!(!step.tx.tx_done);
    assert!(step.tx.write);
    assert_eq!(driver.tx_handler.state.phase, TxPhase::Write);
    assert!(!driver.tx_handler.state.in_backoff);
}

#[test]
fn quiet_send() {
    let (mut d, mut stack) = rig();
    let frame = [0x01u8, 0x02, 0x03, 0x04, 0x05, 0x06, 0x07];
    enqueue(&mut stack, &frame);
    let step = d.select(DriverEvent::Iterate { line_free: true, entropy: 9 });
    assert!(step.tx.write && !step.tx.tx_done && step.tx.arm_us.is_none());
    assert!(step.rx.read && step.rx.rx_done.is_none());
    assert_eq!(d.tx_handler.state.phase, TxPhase::Write);
    assert_eq!(d.rx_handler.state.phase, RxPhase::Read);
    assert_eq!(head(&mut d).as_deref(), Some(&frame[..]));
    let (verdict, step) = write_head(&mut d, &frame[..5], 9);
    assert_eq!(verdict, Ok(()));
    assert!(step.tx.tx_done);
    assert_eq!(step.tx.arm_us, None);
    assert_eq!(step.rx.rx_done, None);
    assert!(step.iteration_complete);
    assert_eq!(d.tx_handler.state.backoff_handler.state.number_backoffs_attempted, 0);
    assert!(!d.tx_handler.state.in_backoff);
    assert_eq!(d.tx_handler.state.phase, TxPhase::Idle);
    assert_eq!(d.rx_handler.state.phase, RxPhase::Idle);
    // the frame has left the ring, and nothing came in
    assert_eq!(head(&mut d), None);
    assert_eq!(dequeue(&mut stack), None);
}

#[test]
fn a_branch_without_a_frame_waits_for_one() {
    let (mut d, mut stack) = rig();
    let step = d.select(DriverEvent::Iterate { line_free: true, entropy: 0 });
    assert!(!step.tx.write);
    assert_eq!(d.tx_handler.state.phase, TxPhase::TxSlot);
    // a report that finds the ring empty changes nothing
    let step = d.select(DriverEvent::Tx(TxEvent::SlotReady));
    assert!(!step.tx.write);
    assert_eq!(d.tx_handler.state.phase, TxPhase::TxSlot);
    enqueue(&mut stack, &[1, 2, 3]);
    let step = d.select(DriverEvent::Tx(TxEvent::SlotReady));
    assert!(step.tx.write);
    assert_eq!(d.tx_handler.state.phase, TxPhase::Write);
    assert_eq!(head(&mut d), Some(vec![1, 2, 3]));
}

#[test]
fn first_byte_collision() {
    let (mut d, mut stack) = rig();
    let frame = [0x41u8, 0x42, 0x43, 0x44, 0x45];
    let echo = [0x99u8, 0x42, 0x43, 0x44, 0x45];
    enqueue(&mut stack, &frame);
    d.select(DriverEvent::Iterate { line_free: true, entropy: 0 });
    let (verdict, step) = write_head(&mut d, &echo, 0x1234);
    assert_eq!(verdict, Err(WriteError::CollisionError));
    assert!(!step.tx.tx_done);
    assert_eq!(step.tx.arm_us, Some(2000 + 0x34));
    assert_eq!(d.tx_handler.state.backoff_handler.state.number_backoffs_attempted, 1);
    assert!(d.tx_handler.state.in_backoff);
    assert_eq!(d.tx_handler.state.backoff_handler.timer.reload, 2052);
    assert!(d.tx_handler.state.backoff_handler.timer.initialized);
    // the frame is still at the head of the ring
    assert_eq!(head(&mut d).as_deref(), Some(&frame[..]));
    // and is tried again once the pause is over
    serve_pause(&mut d);
    assert_eq!(head(&mut d).as_deref(), Some(&frame[..]));
    let (verdict, step) = write_head(&mut d, &frame, 0);
    assert_eq!(verdict, Ok(()));
    assert!(step.tx.tx_done);
    assert_eq!(d.tx_handler.state.backoff_handler.state.number_backoffs_attempted, 0);
    assert_eq!(head(&mut d), None);
}

#[test]
fn first_pause_lies_within_the_jitter_window() {
    for entropy in [0u64, 1, 255, 256, 0xffff_ffff_ffff_ffff, 0xabcd_ef01] {
        let (mut d, mut stack) = rig();
        enqueue(&mut stack, &[0x41, 0x42]);
        d.select(DriverEvent::Iterate { line_free: true, entropy: 0 });
        let (_, step) = write_head(&mut d, &[0x99, 0x42], entropy);
        let delay = step.tx.arm_us.expect("a pause is armed");
        assert!((2000..=2255).contains(&delay));
        assert_eq!(delay, 2000 + (entropy & 0xff));
    }
}

#[test]
fn five_failed_attempts() {
    let (mut d, mut stack) = rig();
    let frame = [0x10u8, 0x20, 0x30, 0x40, 0x50, 0x60];
    let echo = [0x10u8, 0x20, 0x31, 0x40, 0x50];
    let follower = [0x77u8, 0x78];
    enqueue(&mut stack, &frame);
    enqueue(&mut stack, &follower);
    let mut released = 0;
    let mut delays = Vec::new();
    let step = d.select(DriverEvent::Iterate { line_free: true, entropy: 0 });
    assert!(step.tx.write);
    for attempt in 1..=5u16 {
        assert_eq!(d.tx_handler.state.phase, TxPhase::Write);
        assert_eq!(head(&mut d).as_deref(), Some(&frame[..]));
        let (verdict, step) = write_head(&mut d, &echo, 7);
        assert_eq!(verdict, Err(WriteError::CollisionError));
        if step.tx.tx_done {
            released += 1;
        }
        if attempt < 5 {
            assert_eq!(
                d.tx_handler.state.backoff_handler.state.number_backoffs_attempted,
                attempt
            );
            delays.push(step.tx.arm_us.expect("a pause is armed"));
            serve_pause(&mut d);
        } else {
            assert_eq!(step.tx.arm_us, None);
            assert!(step.tx.tx_done);
        }
    }
    assert_eq!(delays, vec![2007, 4007, 8007, 16007]);
    assert_eq!(released, 1);
    assert_eq!(d.tx_handler.state.backoff_handler.state.number_backoffs_attempted, 0);
    assert!(!d.tx_handler.state.in_backoff);
    assert!(!d.tx_handler.state.backoff_handler.state.in_backoff_state);
    // the frame was given up; the next one starts afresh and goes out in one attempt
    assert_eq!(head(&mut d).as_deref(), Some(&follower[..]));
    let step = d.select(DriverEvent::Iterate { line_free: true, entropy: 0 });
    assert!(!step.tx.start_timer && step.tx.write);
    let (verdict, step) = write_head(&mut d, &follower, 7);
    assert_eq!(verdict, Ok(()));
    assert!(step.tx.tx_done);
    assert_eq!(d.tx_handler.state.backoff_handler.state.number_backoffs_attempted, 0);
    assert_eq!(head(&mut d), None);
}

#[test]
fn concurrent_rx_during_tx_backoff() {
    let (mut d, mut stack) = rig();
    enqueue(&mut stack, &[1, 2, 3]);
    d.select(DriverEvent::Iterate { line_free: true, entropy: 0 });
    write_head(&mut d, &[9, 2, 3], 3);
    let step = d.select(DriverEvent::Iterate { line_free: true, entropy: 0 });
    assert!(step.tx.start_timer);
    assert!(step.rx.read);
    assert_eq!(d.tx_handler.state.phase, TxPhase::Backoff);
    let scheduler = d.tx_handler.state.backoff_handler;

    let step = deliver(&mut d, &[0xAA, 0xBB, 0xCC]);
    assert_eq!(step.rx.rx_done, Some(3));
    assert!(step.iteration_complete);
    assert!(!step.tx.tx_done && step.tx.arm_us.is_none() && !step.tx.start_timer);
    assert_eq!(dequeue(&mut stack), Some(vec![0xAA, 0xBB, 0xCC]));
    assert_eq!(dequeue(&mut stack), None);
    // the transmit branch was dropped; its pause and its frame are untouched
    assert_eq!(d.tx_handler.state.phase, TxPhase::Idle);
    assert!(d.tx_handler.state.in_backoff);
    assert_eq!(d.tx_handler.state.backoff_handler, scheduler);
    assert_eq!(head(&mut d), Some(vec![1, 2, 3]));
    // entered again, it goes on waiting for the same timer
    let step = d.select(DriverEvent::Iterate { line_free: true, entropy: 0 });
    assert!(!step.tx.start_timer);
    assert_eq!(d.tx_handler.state.phase, TxPhase::Backoff);
    assert_eq!(d.tx_handler.state.backoff_handler, scheduler);
}

#[test]
fn oversize_inbound() {
    let (mut d, mut stack) = rig();
    d.select(DriverEvent::Iterate { line_free: true, entropy: 0 });
    let burst = vec![0x11u8; IP_FRAME_SIZE + 1];
    {
        let slot = d.rx_handler.rx_runner.try_rx_buf().unwrap();
        slot.fill(0x5A);
        assert_eq!(receive_frame(&burst, slot), Err(ReadError::OverflowError));
        assert!(slot.iter().all(|b| *b == 0x5A));
    }
    let step = d.select(DriverEvent::Rx(RxEvent::ReadDone(Err(ReadError::OverflowError))));
    assert_eq!(step.rx.rx_done, None);
    assert!(step.iteration_complete);
    assert_eq!(d.rx_handler.state.phase, RxPhase::Idle);
    assert_eq!(dequeue(&mut stack), None);
    // the next inbound frame goes through
    d.select(DriverEvent::Iterate { line_free: true, entropy: 0 });
    let step = deliver(&mut d, &[7, 8]);
    assert_eq!(step.rx.rx_done, Some(2));
    assert_eq!(dequeue(&mut stack), Some(vec![7, 8]));
}

#[test]
fn a_frame_of_exactly_the_capacity_is_delivered() {
    let (mut d, mut stack) = rig();
    let burst: Vec<u8> = (0..IP_FRAME_SIZE).map(|i| (i % 251) as u8).collect();
    d.select(DriverEvent::Iterate { line_free: true, entropy: 0 });
    let step = deliver(&mut d, &burst);
    assert_eq!(step.rx.rx_done, Some(IP_FRAME_SIZE));
    assert_eq!(dequeue(&mut stack), Some(burst));
}

#[test]
fn receive_frame_keeps_the_rest_of_the_slot() {
    let mut slot = [0x5Au8; 6];
    assert_eq!(receive_frame(&[1, 2, 3], &mut slot), Ok(3));
    assert_eq!(slot, [1, 2, 3, 0x5A, 0x5A, 0x5A]);
    assert_eq!(receive_frame(&[], &mut slot), Ok(0));
    assert_eq!(slot, [1, 2, 3, 0x5A, 0x5A, 0x5A]);
    assert_eq!(receive_frame(&[9; 7], &mut slot), Err(ReadError::OverflowError));
    assert_eq!(slot, [1, 2, 3, 0x5A, 0x5A, 0x5A]);
    assert_eq!(receive_frame(&[9; 6], &mut slot), Ok(6));
    assert_eq!(slot, [9; 6]);
}

#[test]
fn a_read_longer_than_a_frame_is_not_published() {
    let (mut d, mut stack) = rig();
    d.select(DriverEvent::Iterate { line_free: true, entropy: 0 });
    let step = d.select(DriverEvent::Rx(RxEvent::ReadDone(Ok(IP_FRAME_SIZE + 1))));
    assert_eq!(step.rx.rx_done, None);
    assert!(step.iteration_complete);
    assert_eq!(dequeue(&mut stack), None);
}

#[test]
fn framing_error_on_read_discards_the_frame() {
    let (mut d, mut stack) = rig();
    d.select(DriverEvent::Iterate { line_free: true, entropy: 0 });
    let step = d.select(DriverEvent::Rx(RxEvent::ReadDone(Err(ReadError::FramingError))));
    assert_eq!(step.rx.rx_done, None);
    assert!(step.iteration_complete);
    assert_eq!(dequeue(&mut stack), None);
}

#[test]
fn timer_out_of_range() {
    let mut timer = AsyncBasicTimer::new(1_000_000, 0);
    let before = timer;
    assert_eq!(timer.duration(65_536), Err(TimerError::OutOfRange));
    assert_eq!(timer, before);
    assert_eq!(timer.get_handle(), None);
    assert_eq!(timer.duration(u64::MAX), Err(TimerError::OutOfRange));
    assert_eq!(timer, before);
    let handle = timer.duration(65_535).expect("the largest reload value fits");
    assert_eq!(handle.ticks, 65_535);
    assert_eq!(timer.get_handle(), Some(handle));
}

#[test]
fn rx_frames_keep_their_order() {
    let (mut d, mut stack) = rig();
    let bursts: [&[u8]; 3] = [&[1, 2, 3], &[4], &[5, 6]];
    for burst in bursts {
        d.select(DriverEvent::Iterate { line_free: true, entropy: 0 });
        let step = deliver(&mut d, burst);
        assert_eq!(step.rx.rx_done, Some(burst.len()));
    }
    assert_eq!(dequeue(&mut stack), Some(vec![1, 2, 3]));
    assert_eq!(dequeue(&mut stack), Some(vec![4]));
    assert_eq!(dequeue(&mut stack), Some(vec![5, 6]));
    assert_eq!(dequeue(&mut stack), None);
}

#[test]
fn tx_frames_leave_in_the_order_they_came() {
    let (mut d, mut stack) = rig();
    enqueue(&mut stack, &[1]);
    enqueue(&mut stack, &[2, 2]);
    enqueue(&mut stack, &[3, 3, 3]);
    let mut sent = Vec::new();
    for _ in 0..3 {
        let step = d.select(DriverEvent::Iterate { line_free: true, entropy: 0 });
        assert!(step.tx.write);
        let frame = head(&mut d).unwrap();
        let (verdict, step) = write_head(&mut d, &frame.clone(), 0);
        assert_eq!(verdict, Ok(()));
        assert!(step.tx.tx_done);
        sent.push(frame);
    }
    assert_eq!(sent, vec![vec![1], vec![2, 2], vec![3, 3, 3]]);
    assert_eq!(head(&mut d), None);
}

#[test]
fn a_full_inbound_ring_makes_the_branch_wait() {
    let (mut d, mut stack) = rig();
    for i in 0..CHANNEL_SIZE {
        let step = d.select(DriverEvent::Iterate { line_free: true, entropy: 0 });
        assert!(step.rx.read);
        let step = deliver(&mut d, &[i as u8]);
        assert_eq!(step.rx.rx_done, Some(1));
    }
    let step = d.select(DriverEvent::Iterate { line_free: true, entropy: 0 });
    assert!(!step.rx.read);
    assert_eq!(d.rx_handler.state.phase, RxPhase::RxSlot);
    let step = d.select(DriverEvent::Rx(RxEvent::SlotReady));
    assert!(!step.rx.read);
    assert_eq!(d.rx_handler.state.phase, RxPhase::RxSlot);
    assert_eq!(dequeue(&mut stack), Some(vec![0]));
    let step = d.select(DriverEvent::Rx(RxEvent::SlotReady));
    assert!(step.rx.read);
    assert_eq!(d.rx_handler.state.phase, RxPhase::Read);
    let step = deliver(&mut d, &[0xEE]);
    assert_eq!(step.rx.rx_done, Some(1));
    for i in 1..CHANNEL_SIZE {
        assert_eq!(dequeue(&mut stack), Some(vec![i as u8]));
    }
    assert_eq!(dequeue(&mut stack), Some(vec![0xEE]));
    assert_eq!(dequeue(&mut stack), None);
}

#[test]
fn link_is_up_once_started() {
    let state: &'static mut State<1048, 10, 10> = Box::leak(Box::new(State::new()));
    let (runner, mut stack) =
        embassy_net_driver_channel::new(state, HardwareAddress::Ethernet([0, 2, 3, 4, 5, 7]));
    let mut cx = Context::from_waker(Waker::noop());
    let mut d = AsyncHalfDuplexUart::new(AsyncBasicTimer::new(1_000_000, 0), runner).unwrap();
    assert!(!d.link_state());
    assert!(stack.link_state(&mut cx) == LinkState::Down);
    d.start();
    assert!(d.link_state());
    assert!(stack.link_state(&mut cx) == LinkState::Up);
    d.select(DriverEvent::Iterate { line_free: false, entropy: 1 });
    d.select(DriverEvent::Rx(RxEvent::Dropped));
    d.select(DriverEvent::Tx(TxEvent::Dropped));
    assert!(d.link_state());
    assert!(stack.link_state(&mut cx) == LinkState::Up);
    assert!(stack.hardware_address() == HardwareAddress::Ethernet([0, 2, 3, 4, 5, 7]));
    assert_eq!(stack.capabilities().max_transmission_unit, IP_FRAME_SIZE);
}

#[test]
fn busy_line_costs_an_attempt_and_parks_the_branch() {
    let (mut d, mut stack) = rig();
    enqueue(&mut stack, &[1]);
    let step = d.select(DriverEvent::Iterate { line_free: false, entropy: 0x10 });
    assert_eq!(step.tx.arm_us, Some(2016));
    assert!(!step.tx.tx_done && !step.tx.write);
    assert_eq!(d.tx_handler.state.phase, TxPhase::LineBusy);
    assert!(d.tx_handler.state.in_backoff);
    // nothing but a drop moves a parked branch
    d.select(DriverEvent::Tx(TxEvent::SlotReady));
    d.select(DriverEvent::Tx(TxEvent::Poll { line_free: true, entropy: 0 }));
    assert_eq!(d.tx_handler.state.phase, TxPhase::LineBusy);
    d.select(DriverEvent::Tx(TxEvent::Dropped));
    assert_eq!(d.tx_handler.state.phase, TxPhase::Idle);
    assert_eq!(d.tx_handler.state.backoff_handler.state.number_backoffs_attempted, 1);
    assert_eq!(head(&mut d), Some(vec![1]));
}

#[test]
fn giving_up_on_a_busy_line_with_an_empty_ring_releases_nothing() {
    let (mut d, mut stack) = rig();
    for attempt in 1..=4u16 {
        let step = d.select(DriverEvent::Tx(TxEvent::Poll { line_free: false, entropy: 0 }));
        assert!(step.tx.arm_us.is_some());
        assert_eq!(
            d.tx_handler.state.backoff_handler.state.number_backoffs_attempted,
            attempt
        );
        d.select(DriverEvent::Tx(TxEvent::Dropped));
        d.select(DriverEvent::Tx(TxEvent::Poll { line_free: false, entropy: 0 }));
        d.select(DriverEvent::Tx(TxEvent::TimerFired));
    }
    let step = d.select(DriverEvent::Tx(TxEvent::Poll { line_free: false, entropy: 0 }));
    assert!(!step.tx.tx_done);
    assert_eq!(step.tx.arm_us, None);
    assert_eq!(d.tx_handler.state.backoff_handler.state.number_backoffs_attempted, 0);
    assert!(!d.tx_handler.state.in_backoff);
    // the ring still works
    enqueue(&mut stack, &[4, 2]);
    assert_eq!(head(&mut d), Some(vec![4, 2]));
}

#[test]
fn drop_in_mid_write_keeps_frame_and_backoff() {
    let (mut d, mut stack) = rig();
    enqueue(&mut stack, &[1, 2]);
    d.select(DriverEvent::Iterate { line_free: true, entropy: 0 });
    write_head(&mut d, &[1, 3], 0);
    serve_pause(&mut d);
    let scheduler = d.tx_handler.state.backoff_handler;
    let step = d.select(DriverEvent::Tx(TxEvent::Dropped));
    assert!(!step.tx.tx_done && step.tx.arm_us.is_none());
    assert_eq!(d.tx_handler.state.backoff_handler, scheduler);
    assert_eq!(d.tx_handler.state.phase, TxPhase::Idle);
    assert_eq!(head(&mut d), Some(vec![1, 2]));
    let step = d.select(DriverEvent::Iterate { line_free: true, entropy: 0 });
    assert!(!step.tx.tx_done && step.tx.write);
    assert_eq!(d.tx_handler.state.phase, TxPhase::Write);
    assert_eq!(d.tx_handler.state.backoff_handler.state.number_backoffs_attempted, 1);
    assert_eq!(head(&mut d), Some(vec![1, 2]));
}

#[test]
fn events_out_of_phase_change_nothing() {
    let (mut d, mut stack) = rig();
    enqueue(&mut stack, &[5]);
    let tx_before = d.tx_handler.state;
    let rx_before = d.rx_handler.state;
    let step = d.select(DriverEvent::Tx(TxEvent::WriteDone { result: Ok(()), entropy: 0 }));
    assert!(!step.tx.tx_done && !step.iteration_complete);
    let step = d.select(DriverEvent::Rx(RxEvent::ReadDone(Ok(4))));
    assert_eq!(step.rx.rx_done, None);
    assert!(!step.iteration_complete);
    d.select(DriverEvent::Tx(TxEvent::SlotReady));
    d.select(DriverEvent::Rx(RxEvent::SlotReady));
    assert_eq!(d.tx_handler.state, tx_before);
    assert_eq!(d.rx_handler.state, rx_before);
    assert_eq!(head(&mut d), Some(vec![5]));
    assert_eq!(dequeue(&mut stack), None);
}

#[test]
fn a_timer_too_fast_for_the_longest_pause_is_refused() {
    // at 8 MHz the longest pause of 16255 µs needs 130040 ticks
    let timer = AsyncBasicTimer::new(8_000_000, 0);
    assert!(matches!(AsyncHalfDuplexUart::new(timer, runner()), Err(TimerError::OutOfRange)));
    // 16255 * 4031744 / 1000000 = 65535: just enough
    let timer = AsyncBasicTimer::new(4_031_744, 0);
    assert!(AsyncHalfDuplexUart::new(timer, runner()).is_ok());
    // 16255 * 4031745 / 1000000 = 65536: one tick too many
    let timer = AsyncBasicTimer::new(4_031_745, 0);
    assert!(AsyncHalfDuplexUart::new(timer, runner()).is_err());
}

#[test]
fn frames_taken_are_released_or_held() {
    let (mut d, mut stack) = rig();
    for i in 0..4u8 {
        enqueue(&mut stack, &[i, i, i]);
    }
    let mut taken = 0usize;
    let mut released = 0usize;
    let mut held = false;
    // per frame: how many writes fail before one succeeds (5 means: all of them)
    let failures = [0usize, 2, 5, 1];
    let mut next_failures = failures.iter();
    let mut left = *next_failures.next().unwrap();
    let mut guard = 0;
    while released < 4 {
        guard += 1;
        assert!(guard < 200);
        let mut step = d.select(DriverEvent::Iterate { line_free: true, entropy: guard });
        if d.tx_handler.state.phase == TxPhase::Backoff {
            d.select(DriverEvent::Tx(TxEvent::TimerFired));
            step = d.select(DriverEvent::Tx(TxEvent::Poll { line_free: true, entropy: guard }));
        }
        assert!(step.tx.write);
        if !held {
            taken += 1;
            held = true;
        }
        assert_eq!(taken, released + 1);
        let frame = head(&mut d).unwrap();
        let echo = if left > 0 { vec![0xFF; 3] } else { frame.clone() };
        let (_, step) = write_head(&mut d, &echo, guard);
        if step.tx.tx_done {
            released += 1;
            held = false;
            if let Some(n) = next_failures.next() {
                left = *n;
            }
        } else {
            left -= 1;
            // a drop in between changes nothing
            d.select(DriverEvent::Tx(TxEvent::Dropped));
        }
        assert_eq!(taken, released + usize::from(held));
        let waiting = 4 - released;
        assert_eq!(head(&mut d).is_some(), waiting > 0);
    }
    assert_eq!((taken, released, held), (4, 4, false));
    assert_eq!(head(&mut d), None);
}
