//! The channel driver: one transmit branch and one receive branch, raced
//! against each other in an endless loop.
//!
//! Each branch is a resumable computation. The caller performs what a branch
//! waits for (a frame to send, a write, a read, the timer) and reports the
//! outcome as an event; the branch decides, releases or publishes frames in
//! the channel, and answers with what to do next. Whichever branch finishes
//! first ends the loop iteration, and the other is dropped where it stands.
//! Everything that must outlast such a drop is in the fields of the
//! handlers.

use vstd::prelude::*;
use embassy_net_driver_channel::{Runner, RxRunner, StateRunner, TxRunner};
use crate::async_timer::{AsyncBasicTimer, TimerError, TimerPoll};
use crate::backoff_handler::BackoffHandler;
use crate::communication::{ReadError, WriteError};
use crate::frame_channel::{
    rx_capacity, rx_publish, rx_queue, rx_room, rx_slot, set_link, split_runner, tx_head_len,
    tx_queue, tx_release,
};

verus! {

/// The largest frame, in bytes.
pub const IP_FRAME_SIZE: usize = 1048;

/// Frames that each direction of the channel can hold.
pub const CHANNEL_SIZE: usize = 10;

pub const TRANSMIT_CHANNEL_SIZE: usize = CHANNEL_SIZE;

pub const RECEIVE_SENDER_SIZE: usize = CHANNEL_SIZE;

/// Where the transmit branch is suspended.
#[derive(Debug, Clone, Copy, PartialEq, Eq, Structural)]
pub enum TxPhase {
    /// Not running: the next poll enters the branch from its start.
    Idle,
    /// Waiting for the backoff timer.
    Backoff,
    /// The line was busy: waiting for ever, until the branch is dropped.
    LineBusy,
    /// Waiting for an outbound frame.
    TxSlot,
    /// A collision-sensing write of the oldest outbound frame is under way.
    Write,
}

/// What the transmit branch is told.
#[derive(Debug, Clone, Copy, PartialEq, Eq)]
pub enum TxEvent {
    /// The branch is entered, or woken by the timer. `line_free` is the
    /// line's state now and `entropy` a fresh random word.
    Poll { line_free: bool, entropy: u64 },
    /// The outbound ring reported a frame.
    SlotReady,
    /// The write ended with `result`; `entropy` is a fresh random word.
    WriteDone { result: Result<(), WriteError>, entropy: u64 },
    /// The timer's interrupt has fired. The branch is to be polled next.
    TimerFired,
    /// The branch was dropped where it stood.
    Dropped,
}

/// What the transmit branch did and asks for in answer to an event.
#[derive(Debug, Clone, Copy, PartialEq, Eq)]
pub struct TxStep {
    /// Start a collision-sensing write of the oldest outbound frame.
    pub write: bool,
    /// The oldest outbound frame leaves the ring.
    pub tx_done: bool,
    /// Program the timer for this many microseconds.
    pub arm_us: Option<u64>,
    /// Store the waker and start the timer's counter.
    pub start_timer: bool,
}

impl TxStep {
    /// Nothing to do.
    pub open spec fn nothing() -> TxStep {
        TxStep { write: false, tx_done: false, arm_us: None, start_timer: false }
    }
}

/// The state of the transmit branch.
#[derive(Debug, Clone, Copy, PartialEq, Eq, Structural)]
pub struct TxState {
    pub backoff_handler: BackoffHandler,
    pub in_backoff: bool,
    pub phase: TxPhase,
}

impl TxState {
    /// The scheduler is valid; a pause that is owed has its timer armed; and
    /// no frame is asked for or written while a pause is owed.
    pub open spec fn wf(self) -> bool {
        &&& self.backoff_handler.wf()
        &&& self.in_backoff ==> self.backoff_handler.timer.initialized
        &&& self.phase is Backoff ==> self.in_backoff
        &&& (self.phase is TxSlot || self.phase is Write) ==> !self.in_backoff
    }

    /// The branch after a frame has left it, sent or given up: retries
    /// forgotten, no pause owed.
    pub open spec fn completed(self) -> TxState {
        TxState {
            backoff_handler: BackoffHandler {
                state: self.backoff_handler.state.cleared(),
                ..self.backoff_handler
            },
            in_backoff: false,
            ..self
        }
    }

    /// The branch after one more failed attempt. Below the cap a pause is
    /// owed and the timer armed for it. At the cap the oldest frame, if
    /// there is one, leaves the ring, and the branch starts afresh.
    pub open spec fn backed_off(self, entropy: u64, has_frame: bool) -> (TxState, TxStep) {
        let (scheduler, outcome) = self.backoff_handler.incremented(entropy);
        match outcome {
            Ok(delay) => (
                TxState { backoff_handler: scheduler, in_backoff: true, ..self },
                TxStep { arm_us: Some(delay), ..TxStep::nothing() },
            ),
            Err(_) => (
                TxState { backoff_handler: scheduler, in_backoff: false, ..self },
                TxStep { tx_done: has_frame, ..TxStep::nothing() },
            ),
        }
    }

    /// The branch at the point where it takes up the oldest frame: it
    /// writes it if there is one and waits for one otherwise.
    pub open spec fn taken_up(self, has_frame: bool) -> (TxState, TxStep) {
        if has_frame {
            (TxState { phase: TxPhase::Write, ..self }, TxStep { write: true, ..TxStep::nothing() })
        } else {
            (TxState { phase: TxPhase::TxSlot, ..self }, TxStep::nothing())
        }
    }

    /// The branch past its pause, looking at the line: a free line lets it
    /// take up a frame, a busy one costs an attempt and parks it.
    pub open spec fn entered(self, line_free: bool, entropy: u64, has_frame: bool) -> (
        TxState,
        TxStep,
    ) {
        if line_free {
            self.taken_up(has_frame)
        } else {
            let (parked, step) = self.backed_off(entropy, has_frame);
            (TxState { phase: TxPhase::LineBusy, ..parked }, step)
        }
    }

    /// The branch polled from its start or from its pause.
    pub open spec fn polled(self, line_free: bool, entropy: u64, has_frame: bool) -> (
        TxState,
        TxStep,
    ) {
        if self.in_backoff {
            let (scheduler, outcome) = self.backoff_handler.resumed();
            match outcome {
                Ok(TimerPoll::Started) => (
                    TxState { backoff_handler: scheduler, phase: TxPhase::Backoff, ..self },
                    TxStep { start_timer: true, ..TxStep::nothing() },
                ),
                Ok(TimerPoll::Pending) => (
                    TxState { backoff_handler: scheduler, phase: TxPhase::Backoff, ..self },
                    TxStep::nothing(),
                ),
                _ => (TxState { backoff_handler: scheduler, in_backoff: false, ..self }).entered(
                    line_free,
                    entropy,
                    has_frame,
                ),
            }
        } else {
            self.entered(line_free, entropy, has_frame)
        }
    }

    /// The transition function of the transmit branch, where `has_frame`
    /// says whether the outbound ring holds a frame. An event that does not
    /// fit the phase changes nothing.
    pub open spec fn next(self, event: TxEvent, has_frame: bool) -> (TxState, TxStep) {
        match event {
            TxEvent::Dropped => (TxState { phase: TxPhase::Idle, ..self }, TxStep::nothing()),
            TxEvent::TimerFired => (
                TxState {
                    backoff_handler: BackoffHandler {
                        timer: self.backoff_handler.timer.fired(),
                        ..self.backoff_handler
                    },
                    ..self
                },
                TxStep::nothing(),
            ),
            TxEvent::Poll { line_free, entropy } => if self.phase is Idle || self.phase is Backoff {
                self.polled(line_free, entropy, has_frame)
            } else {
                (self, TxStep::nothing())
            },
            TxEvent::SlotReady => if self.phase is TxSlot {
                self.taken_up(has_frame)
            } else {
                (self, TxStep::nothing())
            },
            TxEvent::WriteDone { result, entropy } => if self.phase is Write {
                match result {
                    Ok(_) => (
                        TxState { phase: TxPhase::Idle, ..self.completed() },
                        TxStep { tx_done: has_frame, ..TxStep::nothing() },
                    ),
                    Err(_) => {
                        let (retry, step) = self.backed_off(entropy, has_frame);
                        (TxState { phase: TxPhase::Idle, ..retry }, step)
                    },
                }
            } else {
                (self, TxStep::nothing())
            },
        }
    }

    /// An idle transmit branch on `timer`. Fails if the timer cannot
    /// represent the longest pause.
    pub fn new(timer: AsyncBasicTimer) -> (state: Result<Self, TimerError>)
        ensures
            match state {
                Ok(s) => BackoffHandler::new_spec(timer) == Ok::<BackoffHandler, TimerError>(
                    s.backoff_handler,
                ) && !s.in_backoff && s.phase is Idle && s.wf(),
                Err(e) => BackoffHandler::new_spec(timer) == Err::<BackoffHandler, TimerError>(e),
            },
    {
        match BackoffHandler::new(timer) {
            Ok(backoff_handler) => Ok(
                TxState { backoff_handler, in_backoff: false, phase: TxPhase::Idle },
            ),
            Err(e) => Err(e),
        }
    }

    /// Whether this state is valid: a check for callers that cannot know it
    /// otherwise.
    pub fn is_valid(&self) -> (valid: bool)
        ensures
            valid == self.wf(),
    {
        if !self.backoff_handler.is_valid() {
            return false;
        }
        if self.in_backoff && !self.backoff_handler.timer.initialized {
            return false;
        }
        match self.phase {
            TxPhase::Backoff => self.in_backoff,
            TxPhase::TxSlot | TxPhase::Write => !self.in_backoff,
            _ => true,
        }
    }

    /// Advances the branch by one event and says what is to be done to the
    /// channel and the timer.
    pub fn advance(&mut self, event: TxEvent, has_frame: bool) -> (step: TxStep)
        requires
            old(self).wf(),
        ensures
            (*final(self), step) == old(self).next(event, has_frame),
            final(self).wf(),
    {
        let nothing = TxStep { write: false, tx_done: false, arm_us: None, start_timer: false };
        match event {
            TxEvent::Dropped => {
                self.phase = TxPhase::Idle;
                nothing
            },
            TxEvent::TimerFired => {
                let _ = self.backoff_handler.timer.handler();
                nothing
            },
            TxEvent::Poll { line_free, entropy } => {
                match self.phase {
                    TxPhase::Idle | TxPhase::Backoff => self.poll(line_free, entropy, has_frame),
                    _ => nothing,
                }
            },
            TxEvent::SlotReady => {
                match self.phase {
                    TxPhase::TxSlot => self.take_up(has_frame),
                    _ => nothing,
                }
            },
            TxEvent::WriteDone { result, entropy } => {
                match self.phase {
                    TxPhase::Write => {
                        self.phase = TxPhase::Idle;
                        match result {
                            Ok(_) => {
                                self.on_transmit_complete();
                                TxStep {
                                    write: false,
                                    tx_done: has_frame,
                                    arm_us: None,
                                    start_timer: false,
                                }
                            },
                            Err(_) => self.increment_backoff(entropy, has_frame),
                        }
                    },
                    _ => nothing,
                }
            },
        }
    }

    /// Runs the branch from its start, or from its pause, to the next point
    /// where it must wait.
    fn poll(&mut self, line_free: bool, entropy: u64, has_frame: bool) -> (step: TxStep)
        requires
            old(self).wf(),
            old(self).phase is Idle || old(self).phase is Backoff,
        ensures
            (*final(self), step) == old(self).polled(line_free, entropy, has_frame),
            final(self).wf(),
    {
        if self.in_backoff {
            match self.backoff_handler.resume_backoff() {
                Ok(TimerPoll::Started) => {
                    self.phase = TxPhase::Backoff;
                    return TxStep { write: false, tx_done: false, arm_us: None, start_timer: true };
                },
                Ok(TimerPoll::Pending) => {
                    self.phase = TxPhase::Backoff;
                    return TxStep {
                        write: false,
                        tx_done: false,
                        arm_us: None,
                        start_timer: false,
                    };
                },
                _ => {
                    self.in_backoff = false;
                },
            }
        }
        if line_free {
            self.take_up(has_frame)
        } else {
            self.phase = TxPhase::LineBusy;
            self.increment_backoff(entropy, has_frame)
        }
    }

    /// Takes up the oldest frame, or waits for one.
    fn take_up(&mut self, has_frame: bool) -> (step: TxStep)
        ensures
            (*final(self), step) == old(self).taken_up(has_frame),
    {
        if has_frame {
            self.phase = TxPhase::Write;
            TxStep { write: true, tx_done: false, arm_us: None, start_timer: false }
        } else {
            self.phase = TxPhase::TxSlot;
            TxStep { write: false, tx_done: false, arm_us: None, start_timer: false }
        }
    }

    /// A frame has left the branch: forget the retries.
    fn on_transmit_complete(&mut self)
        requires
            old(self).backoff_handler.wf(),
        ensures
            *final(self) == old(self).completed(),
            final(self).backoff_handler.wf(),
    {
        self.backoff_handler.clear();
        self.in_backoff = false;
    }

    /// Counts a failed attempt: owes a pause, or at the cap gives the frame
    /// up.
    fn increment_backoff(&mut self, entropy: u64, has_frame: bool) -> (step: TxStep)
        requires
            old(self).backoff_handler.wf(),
        ensures
            (*final(self), step) == old(self).backed_off(entropy, has_frame),
            final(self).backoff_handler.wf(),
            final(self).in_backoff ==> final(self).backoff_handler.timer.initialized,
    {
        self.in_backoff = true;
        match self.backoff_handler.increment_backoff(entropy) {
            Ok(delay) => TxStep {
                write: false,
                tx_done: false,
                arm_us: Some(delay),
                start_timer: false,
            },
            Err(_) => {
                self.on_transmit_complete();
                TxStep { write: false, tx_done: has_frame, arm_us: None, start_timer: false }
            },
        }
    }
}

/// The transmit branch with the lower end of the outbound ring.
pub struct TxHandler {
    pub tx_runner: TxRunner<'static, IP_FRAME_SIZE>,
    pub state: TxState,
}

impl TxHandler {
    /// The frames that wait in the outbound ring, oldest first.
    pub open spec fn queue(self) -> Seq<Seq<u8>> {
        tx_queue(self.tx_runner)
    }

    /// An idle transmit branch on `timer` and `tx_runner`. Fails if the
    /// timer cannot represent the longest pause.
    pub fn new(timer: AsyncBasicTimer, tx_runner: TxRunner<'static, IP_FRAME_SIZE>) -> (handler: Result<
        Self,
        TimerError,
    >)
        ensures
            match handler {
                Ok(h) => BackoffHandler::new_spec(timer) == Ok::<BackoffHandler, TimerError>(
                    h.state.backoff_handler,
                ) && !h.state.in_backoff && h.state.phase is Idle && h.state.wf() && h.queue()
                    == tx_queue(tx_runner),
                Err(e) => BackoffHandler::new_spec(timer) == Err::<BackoffHandler, TimerError>(e),
            },
    {
        match TxState::new(timer) {
            Ok(state) => Ok(TxHandler { tx_runner, state }),
            Err(e) => Err(e),
        }
    }

    /// Advances the transmit branch by one event. The branch sees whether
    /// the outbound ring holds a frame, decides, and where it decides that
    /// the oldest frame is done with, releases it from the ring. The ring
    /// changes in no other way: a frame whose write failed below the cap
    /// stays at its head for the retry.
    pub fn transmit(&mut self, event: TxEvent) -> (step: TxStep)
        requires
            old(self).state.wf(),
        ensures
            (final(self).state, step) == old(self).state.next(event, old(self).queue().len() > 0),
            final(self).state.wf(),
            final(self).queue() == (if step.tx_done {
                old(self).queue().skip(1)
            } else {
                old(self).queue()
            }),
            step.write ==> final(self).queue().len() > 0,
    {
        let has_frame = tx_head_len(&mut self.tx_runner).is_some();
        let step = self.state.advance(event, has_frame);
        if step.tx_done {
            tx_release(&mut self.tx_runner);
        }
        step
    }
}

/// Where the receive branch is suspended.
#[derive(Debug, Clone, Copy, PartialEq, Eq, Structural)]
pub enum RxPhase {
    /// Not running: the next poll enters the branch from its start.
    Idle,
    /// Waiting for a free inbound slot.
    RxSlot,
    /// A read into the free slot is under way.
    Read,
}

/// What the receive branch is told.
#[derive(Debug, Clone, Copy, PartialEq, Eq)]
pub enum RxEvent {
    /// The branch is entered.
    Poll,
    /// The inbound ring reported a free slot.
    SlotReady,
    /// The read ended with this result.
    ReadDone(Result<usize, ReadError>),
    /// The branch was dropped where it stood.
    Dropped,
}

/// What the receive branch did and asks for in answer to an event.
#[derive(Debug, Clone, Copy, PartialEq, Eq)]
pub struct RxStep {
    /// Start a read into the free inbound slot.
    pub read: bool,
    /// This many bytes of the slot go to the consumer as a frame.
    pub rx_done: Option<usize>,
}

impl RxStep {
    /// Nothing to do.
    pub open spec fn nothing() -> RxStep {
        RxStep { read: false, rx_done: None }
    }
}

/// What a finished read publishes: its length, if it succeeded, the length
/// fits a frame and the ring has room. A failed read publishes nothing and
/// the slot is used again.
pub open spec fn published(result: Result<usize, ReadError>, has_room: bool) -> Option<usize> {
    match result {
        Ok(n) => if n <= IP_FRAME_SIZE && has_room {
            Some(n)
        } else {
            None
        },
        Err(_) => None,
    }
}

/// The state of the receive branch.
#[derive(Debug, Clone, Copy, PartialEq, Eq, Structural)]
pub struct RxState {
    pub phase: RxPhase,
}

impl RxState {
    /// The branch at the point where it takes a free slot: it reads into
    /// it if there is one and waits for one otherwise.
    pub open spec fn taken_up(self, has_room: bool) -> (RxState, RxStep) {
        if has_room {
            (RxState { phase: RxPhase::Read }, RxStep { read: true, rx_done: None })
        } else {
            (RxState { phase: RxPhase::RxSlot }, RxStep::nothing())
        }
    }

    /// The transition function of the receive branch, where `has_room`
    /// says whether the inbound ring has a free slot. An event that does
    /// not fit the phase changes nothing.
    pub open spec fn next(self, event: RxEvent, has_room: bool) -> (RxState, RxStep) {
        match event {
            RxEvent::Dropped => (RxState { phase: RxPhase::Idle }, RxStep::nothing()),
            RxEvent::Poll => if self.phase is Idle {
                self.taken_up(has_room)
            } else {
                (self, RxStep::nothing())
            },
            RxEvent::SlotReady => if self.phase is RxSlot {
                self.taken_up(has_room)
            } else {
                (self, RxStep::nothing())
            },
            RxEvent::ReadDone(result) => if self.phase is Read {
                (
                    RxState { phase: RxPhase::Idle },
                    RxStep { read: false, rx_done: published(result, has_room) },
                )
            } else {
                (self, RxStep::nothing())
            },
        }
    }

    /// An idle receive branch.
    pub fn new() -> (state: Self)
        ensures
            state.phase is Idle,
    {
        RxState { phase: RxPhase::Idle }
    }

    /// Advances the branch by one event and says what is to be done to the
    /// channel.
    pub fn advance(&mut self, event: RxEvent, has_room: bool) -> (step: RxStep)
        ensures
            (*final(self), step) == old(self).next(event, has_room),
    {
        match event {
            RxEvent::Dropped => {
                self.phase = RxPhase::Idle;
                RxStep { read: false, rx_done: None }
            },
            RxEvent::Poll => {
                match self.phase {
                    RxPhase::Idle => self.take_up(has_room),
                    _ => RxStep { read: false, rx_done: None },
                }
            },
            RxEvent::SlotReady => {
                match self.phase {
                    RxPhase::RxSlot => self.take_up(has_room),
                    _ => RxStep { read: false, rx_done: None },
                }
            },
            RxEvent::ReadDone(result) => {
                match self.phase {
                    RxPhase::Read => {
                        self.phase = RxPhase::Idle;
                        match result {
                            Ok(n) => if n <= IP_FRAME_SIZE && has_room {
                                RxStep { read: false, rx_done: Some(n) }
                            } else {
                                RxStep { read: false, rx_done: None }
                            },
                            Err(_) => RxStep { read: false, rx_done: None },
                        }
                    },
                    _ => RxStep { read: false, rx_done: None },
                }
            },
        }
    }

    /// Takes a free slot, or waits for one.
    fn take_up(&mut self, has_room: bool) -> (step: RxStep)
        ensures
            (*final(self), step) == old(self).taken_up(has_room),
    {
        if has_room {
            self.phase = RxPhase::Read;
            RxStep { read: true, rx_done: None }
        } else {
            self.phase = RxPhase::RxSlot;
            RxStep { read: false, rx_done: None }
        }
    }
}

/// The receive branch with the lower end of the inbound ring.
pub struct RxHandler {
    pub rx_runner: RxRunner<'static, IP_FRAME_SIZE>,
    pub state: RxState,
}

impl RxHandler {
    /// The frames published to the inbound ring and not yet taken by the
    /// stack, oldest first.
    pub open spec fn queue(self) -> Seq<Seq<u8>> {
        rx_queue(self.rx_runner)
    }

    /// The bytes of the inbound slot that the next publication hands on.
    pub open spec fn slot(self) -> Seq<u8> {
        rx_slot(self.rx_runner)
    }

    /// The number of slots that the inbound ring was made with.
    pub open spec fn capacity(self) -> nat {
        rx_capacity(self.rx_runner)
    }

    /// Whether the inbound ring has a free slot.
    pub open spec fn has_room(self) -> bool {
        self.queue().len() < self.capacity()
    }

    /// An idle receive branch on `rx_runner`.
    pub fn new(rx_runner: RxRunner<'static, IP_FRAME_SIZE>) -> (handler: Self)
        ensures
            handler.state.phase is Idle,
            handler.rx_runner == rx_runner,
    {
        RxHandler { rx_runner, state: RxState::new() }
    }

    /// Advances the receive branch by one event. The branch sees whether
    /// the inbound ring has a free slot, decides, and where a read ended
    /// well, publishes what the read left in the slot as the ring's newest
    /// frame. The ring changes in no other way.
    pub fn read(&mut self, event: RxEvent) -> (step: RxStep)
        ensures
            (final(self).state, step) == old(self).state.next(event, old(self).has_room()),
            final(self).queue() == (match step.rx_done {
                Some(n) => old(self).queue().push(old(self).slot().take(n as int)),
                None => old(self).queue(),
            }),
            final(self).capacity() == old(self).capacity(),
            step.rx_done is None ==> final(self).slot() == old(self).slot(),
    {
        let has_room = rx_room(&mut self.rx_runner).is_some();
        let step = self.state.advance(event, has_room);
        match step.rx_done {
            Some(n) => {
                rx_publish(&mut self.rx_runner, n);
            },
            None => {},
        }
        step
    }
}

/// What the driver is told.
#[derive(Debug, Clone, Copy, PartialEq, Eq)]
pub enum DriverEvent {
    /// A loop iteration begins: both branches are polled, transmit first.
    /// `line_free` and `entropy` are for the transmit branch.
    Iterate { line_free: bool, entropy: u64 },
    /// Something the transmit branch waited for has happened.
    Tx(TxEvent),
    /// Something the receive branch waited for has happened.
    Rx(RxEvent),
}

/// What the driver did and asks for in answer to an event.
#[derive(Debug, Clone, Copy, PartialEq, Eq)]
pub struct DriverStep {
    pub tx: TxStep,
    pub rx: RxStep,
    /// A branch ran to its end and the other was dropped: the loop iterates.
    pub iteration_complete: bool,
}

/// The state of the driver: both branches and the link state.
#[derive(Debug, Clone, Copy, PartialEq, Eq, Structural)]
pub struct DriverState {
    pub tx: TxState,
    pub rx: RxState,
    pub link_up: bool,
}

impl DriverState {
    /// Whether `event` makes the transmit branch run to its end.
    pub open spec fn tx_finishes(self, event: TxEvent) -> bool {
        event is WriteDone && self.tx.phase is Write
    }

    /// Whether `event` makes the receive branch run to its end.
    pub open spec fn rx_finishes(self, event: RxEvent) -> bool {
        event is ReadDone && self.rx.phase is Read
    }

    /// The transition function of the driver: the event goes to its branch,
    /// and a branch that runs to its end has the other one dropped.
    /// `has_frame` and `has_room` say what the rings hold.
    pub open spec fn next(self, event: DriverEvent, has_frame: bool, has_room: bool) -> (
        DriverState,
        DriverStep,
    ) {
        match event {
            DriverEvent::Iterate { line_free, entropy } => {
                let (tx, tx_step) = self.tx.next(TxEvent::Poll { line_free, entropy }, has_frame);
                let (rx, rx_step) = self.rx.next(RxEvent::Poll, has_room);
                (
                    DriverState { tx, rx, ..self },
                    DriverStep { tx: tx_step, rx: rx_step, iteration_complete: false },
                )
            },
            DriverEvent::Tx(e) => {
                let (tx, tx_step) = self.tx.next(e, has_frame);
                if self.tx_finishes(e) {
                    (
                        DriverState { tx, rx: RxState { phase: RxPhase::Idle }, ..self },
                        DriverStep { tx: tx_step, rx: RxStep::nothing(), iteration_complete: true },
                    )
                } else {
                    (
                        DriverState { tx, ..self },
                        DriverStep { tx: tx_step, rx: RxStep::nothing(), iteration_complete: false },
                    )
                }
            },
            DriverEvent::Rx(e) => {
                let (rx, rx_step) = self.rx.next(e, has_room);
                if self.rx_finishes(e) {
                    (
                        DriverState { tx: TxState { phase: TxPhase::Idle, ..self.tx }, rx, ..self },
                        DriverStep { tx: TxStep::nothing(), rx: rx_step, iteration_complete: true },
                    )
                } else {
                    (
                        DriverState { rx, ..self },
                        DriverStep { tx: TxStep::nothing(), rx: rx_step, iteration_complete: false },
                    )
                }
            },
        }
    }
}

/// The driver: both branches with their ends of the frame channel, and the
/// handle by which it reports the link state to the stack.
pub struct AsyncHalfDuplexUart {
    pub tx_handler: TxHandler,
    pub rx_handler: RxHandler,
    pub state: StateRunner<'static>,
    pub link_up: bool,
}

impl AsyncHalfDuplexUart {
    /// The driver's state without the channel.
    pub open spec fn model(self) -> DriverState {
        DriverState { tx: self.tx_handler.state, rx: self.rx_handler.state, link_up: self.link_up }
    }

    /// The transmit branch is valid.
    pub open spec fn wf(self) -> bool {
        self.tx_handler.state.wf()
    }

    /// A driver with both branches idle and the link down, on `timer` and
    /// the lower ends of `runner`. Fails if the timer cannot represent the
    /// longest pause.
    pub fn new(timer: AsyncBasicTimer, runner: Runner<'static, IP_FRAME_SIZE>) -> (driver: Result<
        Self,
        TimerError,
    >)
        ensures
            match driver {
                Ok(d) => BackoffHandler::new_spec(timer) == Ok::<BackoffHandler, TimerError>(
                    d.tx_handler.state.backoff_handler,
                ) && !d.tx_handler.state.in_backoff && d.tx_handler.state.phase is Idle
                    && d.rx_handler.state.phase is Idle && !d.link_up && d.wf(),
                Err(e) => BackoffHandler::new_spec(timer) == Err::<BackoffHandler, TimerError>(e),
            },
    {
        let (state, rx, tx) = split_runner(runner);
        match TxHandler::new(timer, tx) {
            Ok(tx_handler) => Ok(
                AsyncHalfDuplexUart {
                    tx_handler,
                    rx_handler: RxHandler::new(rx),
                    state,
                    link_up: false,
                },
            ),
            Err(e) => Err(e),
        }
    }

    /// The driver task begins to run: the link is reported up. The branches
    /// and the rings are left as they are.
    pub fn start(&mut self)
        ensures
            final(self).link_up,
            final(self).tx_handler == old(self).tx_handler,
            final(self).rx_handler == old(self).rx_handler,
    {
        set_link(&self.state, true);
        self.link_up = true;
    }

    /// Whether the driver reports the link up.
    pub fn link_state(&self) -> (up: bool)
        ensures
            up == self.link_up,
    {
        self.link_up
    }

    /// One turn of the select loop: hands `event` to its branch and, when
    /// that branch runs to its end, drops the other. The outbound ring
    /// loses its oldest frame exactly when the step says so, the inbound
    /// ring gains a frame exactly when the step says so, and the link state
    /// stays.
    pub fn select(&mut self, event: DriverEvent) -> (step: DriverStep)
        requires
            old(self).wf(),
        ensures
            (final(self).model(), step) == old(self).model().next(
                event,
                old(self).tx_handler.queue().len() > 0,
                old(self).rx_handler.has_room(),
            ),
            final(self).wf(),
            final(self).link_up == old(self).link_up,
            final(self).tx_handler.queue() == (if step.tx.tx_done {
                old(self).tx_handler.queue().skip(1)
            } else {
                old(self).tx_handler.queue()
            }),
            final(self).rx_handler.queue() == (match step.rx.rx_done {
                Some(n) => old(self).rx_handler.queue().push(
                    old(self).rx_handler.slot().take(n as int),
                ),
                None => old(self).rx_handler.queue(),
            }),
            final(self).rx_handler.capacity() == old(self).rx_handler.capacity(),
            step.rx.rx_done is None ==> final(self).rx_handler.slot() == old(
                self,
            ).rx_handler.slot(),
            step.tx.write ==> final(self).tx_handler.queue().len() > 0,
    {
        match event {
            DriverEvent::Iterate { line_free, entropy } => {
                let tx = self.tx_handler.transmit(TxEvent::Poll { line_free, entropy });
                let rx = self.rx_handler.read(RxEvent::Poll);
                DriverStep { tx, rx, iteration_complete: false }
            },
            DriverEvent::Tx(e) => {
                let finishes = match (e, self.tx_handler.state.phase) {
                    (TxEvent::WriteDone { .. }, TxPhase::Write) => true,
                    _ => false,
                };
                let tx = self.tx_handler.transmit(e);
                if finishes {
                    self.rx_handler.state.phase = RxPhase::Idle;
                }
                DriverStep { tx, rx: RxStep { read: false, rx_done: None }, iteration_complete: finishes }
            },
            DriverEvent::Rx(e) => {
                let finishes = match (e, self.rx_handler.state.phase) {
                    (RxEvent::ReadDone(_), RxPhase::Read) => true,
                    _ => false,
                };
                let rx = self.rx_handler.read(e);
                if finishes {
                    self.tx_handler.state.phase = TxPhase::Idle;
                }
                DriverStep {
                    tx: TxStep { write: false, tx_done: false, arm_us: None, start_timer: false },
                    rx,
                    iteration_complete: finishes,
                }
            },
        }
    }
}

} // verus!
