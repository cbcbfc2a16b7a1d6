//! The frame channel between the driver and the IP stack: two bounded rings
//! of frame-sized slots, kept by `embassy_net_driver_channel`.
//!
//! The driver holds the lower ends. From the outbound ring it reads the
//! oldest frame and releases it once it is sent or given up; into the
//! inbound ring it publishes what a read left in the next free slot. Nothing
//! in this file is proved: it says what the channel's methods do, as their
//! source shows it, in terms of the names below.

use vstd::prelude::*;
use embassy_net_driver_channel::driver::LinkState;
use embassy_net_driver_channel::{Runner, RxRunner, StateRunner, TxRunner};

verus! {

#[verifier::external_type_specification]
#[verifier::external_body]
pub struct ExRunner<'d, const MTU: usize>(Runner<'d, MTU>);

#[verifier::external_type_specification]
#[verifier::external_body]
pub struct ExTxRunner<'d, const MTU: usize>(TxRunner<'d, MTU>);

#[verifier::external_type_specification]
#[verifier::external_body]
pub struct ExRxRunner<'d, const MTU: usize>(RxRunner<'d, MTU>);

#[verifier::external_type_specification]
#[verifier::external_body]
pub struct ExStateRunner<'d>(StateRunner<'d>);

/// The frames that wait in the outbound ring, oldest first.
pub uninterp spec fn tx_queue(runner: TxRunner<'static, 1048>) -> Seq<Seq<u8>>;

/// The frames that were published to the inbound ring and that the stack has
/// not taken yet, oldest first.
pub uninterp spec fn rx_queue(runner: RxRunner<'static, 1048>) -> Seq<Seq<u8>>;

/// The bytes of the inbound slot that the next publication hands on.
pub uninterp spec fn rx_slot(runner: RxRunner<'static, 1048>) -> Seq<u8>;

/// The number of slots that the inbound ring was made with.
pub uninterp spec fn rx_capacity(runner: RxRunner<'static, 1048>) -> nat;

/// `Runner::split`: parts a runner into the link-state handle and the two
/// lower ends. Nothing is claimed of what the rings hold.
#[verifier::external_body]
pub(crate) fn split_runner(runner: Runner<'static, 1048>) -> (parts: (
    StateRunner<'static>,
    RxRunner<'static, 1048>,
    TxRunner<'static, 1048>,
)) {
    runner.split()
}

/// `TxRunner::try_tx_buf`, reduced to the length of the slice it returns.
/// The claim: it returns `None` exactly when the outbound ring is empty,
/// otherwise the oldest frame, and leaves the ring as it is.
#[verifier::external_body]
pub(crate) fn tx_head_len(runner: &mut TxRunner<'static, 1048>) -> (head: Option<usize>)
    ensures
        tx_queue(*final(runner)) == tx_queue(*old(runner)),
        head is Some <==> tx_queue(*old(runner)).len() > 0,
        head is Some ==> head->Some_0 == tx_queue(*old(runner))[0].len(),
{
    runner.try_tx_buf().map(|frame| frame.len())
}

/// `TxRunner::tx_done`. The claim: it removes the oldest frame from the
/// outbound ring. On an empty ring the channel panics, so that is excluded.
#[verifier::external_body]
pub(crate) fn tx_release(runner: &mut TxRunner<'static, 1048>)
    requires
        tx_queue(*old(runner)).len() > 0,
    ensures
        tx_queue(*final(runner)) == tx_queue(*old(runner)).skip(1),
{
    runner.tx_done()
}

/// `RxRunner::try_rx_buf`, reduced to the length of the slice it returns.
/// The claim: it returns `None` exactly when the inbound ring is full,
/// otherwise the next free slot, which is a whole frame buffer, and leaves
/// the ring and the slot as they are.
#[verifier::external_body]
pub(crate) fn rx_room(runner: &mut RxRunner<'static, 1048>) -> (room: Option<usize>)
    ensures
        rx_queue(*final(runner)) == rx_queue(*old(runner)),
        rx_slot(*final(runner)) == rx_slot(*old(runner)),
        rx_capacity(*final(runner)) == rx_capacity(*old(runner)),
        room is Some <==> rx_queue(*old(runner)).len() < rx_capacity(*old(runner)),
        room is Some ==> room->Some_0 == 1048 && rx_slot(*old(runner)).len() == 1048,
{
    runner.try_rx_buf().map(|slot| slot.len())
}

/// `RxRunner::rx_done`. The claim: it appends the first `len` bytes of the
/// next free slot to the inbound ring as its newest frame. On a full ring
/// the channel panics, and a length beyond the slot makes the stack panic
/// when it takes the frame, so both are excluded.
#[verifier::external_body]
pub(crate) fn rx_publish(runner: &mut RxRunner<'static, 1048>, len: usize)
    requires
        rx_queue(*old(runner)).len() < rx_capacity(*old(runner)),
        len <= 1048,
    ensures
        rx_queue(*final(runner)) == rx_queue(*old(runner)).push(
            rx_slot(*old(runner)).take(len as int),
        ),
        rx_capacity(*final(runner)) == rx_capacity(*old(runner)),
{
    runner.rx_done(len)
}

/// `StateRunner::set_link_state`, with `true` for up. The link state is
/// shared with the stack, and nothing is claimed of it here.
#[verifier::external_body]
pub(crate) fn set_link(state: &StateRunner<'static>, up: bool) {
    state.set_link_state(
        if up {
            LinkState::Up
        } else {
            LinkState::Down
        },
    )
}

} // verus!
