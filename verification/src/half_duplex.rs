//! The half-duplex transceiver: a collision-sensing write and an
//! idle-delimited read over one line that echoes what is sent.
//!
//! While a frame goes out, the transmitter takes over the receiver and reads
//! the first bytes of its own echo. The two halves share one signal, kept in
//! the receiver: the transmitter raises it when it takes the receiver over,
//! and a read that finds it raised on completion must not return.

use vstd::prelude::*;
use crate::communication::{ReadError, WriteError};

verus! {

/// How many bytes of echo are compared with what was sent.
pub const ECHO_PROBE_BYTES: usize = 5;

/// Which transfer of a duplex write finished first.
#[derive(Debug, Clone, Copy, PartialEq, Eq)]
pub enum Race {
    /// The transmission finished before any echo arrived.
    TxFirst,
    /// The echo read finished first, with this result.
    RxFirst(Result<usize, ReadError>),
}

/// Whether the echo differs from what was sent in any position that both
/// have.
pub open spec fn echo_differs(echo: Seq<u8>, sent: Seq<u8>) -> bool {
    exists|i: int| 0 <= i < echo.len() && i < sent.len() && echo[i] != sent[i]
}

/// The verdict on the race between transmission and echo: `Ok` means the
/// echo matched and the transmission is to be awaited to its end.
pub open spec fn race_verdict(race: Race, echo: Seq<u8>, sent: Seq<u8>) -> Result<(), WriteError> {
    match race {
        Race::TxFirst => Err(WriteError::FramingError),
        Race::RxFirst(Err(_)) => Err(WriteError::CollisionError),
        Race::RxFirst(Ok(_)) => if echo_differs(echo, sent) {
            Err(WriteError::CollisionError)
        } else {
            Ok(())
        },
    }
}

/// The verdict on a whole write: that of the race, and after a matching echo
/// that of the transmission itself.
pub open spec fn write_verdict(race: Race, echo: Seq<u8>, sent: Seq<u8>, tx_ok: bool) -> Result<
    (),
    WriteError,
> {
    match race_verdict(race, echo, sent) {
        Err(e) => Err(e),
        Ok(_) => if tx_ok {
            Ok(())
        } else {
            Err(WriteError::FramingError)
        },
    }
}

/// The receiving half, with the signal that the transmitter raises when it
/// takes the receiver over.
#[derive(Debug, Clone, Copy, PartialEq, Eq, Structural)]
pub struct HalfDuplexUartRx {
    pub stolen_signal: bool,
}

impl HalfDuplexUartRx {
    /// A receiver whose signal is lowered.
    pub fn new() -> (rx: Self)
        ensures
            !rx.stolen_signal,
    {
        HalfDuplexUartRx { stolen_signal: false }
    }

    /// Entry into a read: lowers the signal, so that this read counts as the
    /// receiver's own.
    pub fn begin_read(&mut self)
        ensures
            !final(self).stolen_signal,
    {
        self.stolen_signal = false;
    }

    /// Completion of a read with what the hardware reported. A read whose
    /// receiver was taken over meanwhile yields `None`: it must stay
    /// suspended, so that no short frame is handed on. Otherwise the
    /// hardware's report is the read's result.
    pub fn read_until_idle(&self, hardware: Result<usize, ReadError>) -> (outcome: Option<
        Result<usize, ReadError>,
    >)
        ensures
            outcome == (if self.stolen_signal {
                None
            } else {
                Some(hardware)
            }),
    {
        if self.stolen_signal {
            None
        } else {
            Some(hardware)
        }
    }
}

/// The transmitting half. It holds no state of its own: what outlasts a
/// write is the raised signal in the receiver.
#[derive(Debug, Clone, Copy, PartialEq, Eq, Structural)]
pub struct HalfDuplexUartTx {}

impl HalfDuplexUartTx {
    /// A transmitter.
    pub fn new() -> (tx: Self) {
        HalfDuplexUartTx {  }
    }

    /// An instantaneous check that the line is idle. It conservatively
    /// answers yes.
    pub fn is_line_free(&self) -> (free: bool)
        ensures
            free,
    {
        true
    }

    /// Compares the echo probe with the start of what was sent.
    pub fn collision_occurred(rx: &[u8; 5], tx: &[u8]) -> (collided: bool)
        ensures
            collided == echo_differs(rx@, tx@),
    {
        let min_len: usize = if tx.len() < ECHO_PROBE_BYTES {
            tx.len()
        } else {
            ECHO_PROBE_BYTES
        };
        let mut i: usize = 0;
        while i < min_len
            invariant
                i <= min_len,
                min_len <= 5,
                min_len <= tx@.len(),
                rx@.len() == 5,
                forall|j: int| 0 <= j < i ==> rx@[j] == tx@[j],
            decreases min_len - i,
        {
            if rx[i] != tx[i] {
                assert(echo_differs(rx@, tx@));
                return true;
            }
            i += 1;
        }
        false
    }

    /// Takes the receiver over and judges the race between the transmission
    /// of `buffer` and the read of its echo. On `Err` the transmission is to
    /// be cancelled; on `Ok` it is still under way and is to be awaited. The
    /// signal stays raised either way.
    pub fn duplex_transmit(
        &mut self,
        rx: &mut HalfDuplexUartRx,
        race: Race,
        echo: &[u8; 5],
        buffer: &[u8],
    ) -> (verdict: Result<(), WriteError>)
        ensures
            verdict == race_verdict(race, echo@, buffer@),
            final(rx).stolen_signal,
    {
        rx.stolen_signal = true;
        match race {
            Race::TxFirst => Err(WriteError::FramingError),
            Race::RxFirst(rx_res) => {
                if rx_res.is_err() || Self::collision_occurred(echo, buffer) {
                    Err(WriteError::CollisionError)
                } else {
                    Ok(())
                }
            },
        }
    }

    /// A whole collision-sensing write: the race, and after a matching echo
    /// the end of the transmission, which succeeded if `tx_ok`.
    pub fn write(
        &mut self,
        rx: &mut HalfDuplexUartRx,
        race: Race,
        echo: &[u8; 5],
        buffer: &[u8],
        tx_ok: bool,
    ) -> (verdict: Result<(), WriteError>)
        ensures
            verdict == write_verdict(race, echo@, buffer@, tx_ok),
            final(rx).stolen_signal,
    {
        match self.duplex_transmit(rx, race, echo, buffer) {
            Err(e) => Err(e),
            Ok(_) => if tx_ok {
                Ok(())
            } else {
                Err(WriteError::FramingError)
            },
        }
    }
}

/// The two halves of one transceiver, the signal lowered.
pub fn new() -> (halves: (HalfDuplexUartRx, HalfDuplexUartTx))
    ensures
        !halves.0.stolen_signal,
{
    (HalfDuplexUartRx::new(), HalfDuplexUartTx::new())
}

/// What a read into a slot of `capacity` bytes reports when the line
/// delivers `received` before falling idle.
pub open spec fn frame_result(received: Seq<u8>, capacity: nat) -> Result<usize, ReadError> {
    if received.len() > capacity {
        Err(ReadError::OverflowError)
    } else {
        Ok(received.len() as usize)
    }
}

/// Copies what the line delivered into the slot `buf`. A burst longer than
/// the slot is an overflow and leaves the slot as it was. Otherwise the
/// burst fills the front of the slot, the rest of the slot keeps its bytes,
/// and the burst's length is returned.
pub fn receive_frame(received: &[u8], buf: &mut [u8]) -> (outcome: Result<usize, ReadError>)
    ensures
        outcome == frame_result(received@, old(buf)@.len()),
        final(buf)@.len() == old(buf)@.len(),
        outcome is Err ==> final(buf)@ == old(buf)@,
        outcome is Ok ==> final(buf)@ == received@ + old(buf)@.skip(received@.len() as int),
{
    let recv_len: usize = received.len();
    if recv_len > buf.len() {
        return Err(ReadError::OverflowError);
    }
    let mut i: usize = 0;
    while i < recv_len
        invariant
            i <= recv_len,
            recv_len == received@.len(),
            recv_len <= buf@.len(),
            buf@.len() == old(buf)@.len(),
            forall|j: int| 0 <= j < i ==> buf@[j] == received@[j],
            forall|j: int| i <= j < buf@.len() ==> buf@[j] == old(buf)@[j],
        decreases recv_len - i,
    {
        buf[i] = received[i];
        i += 1;
    }
    assert(buf@ =~= received@ + old(buf)@.skip(received@.len() as int));
    Ok(recv_len)
}

} // verus!
