//! A half-duplex serial bus presented as a packet interface.
//!
//! Several stations share one wire. A station that transmits hears its own
//! bytes on its receiver and compares them with what it sent; a mismatch is a
//! collision, answered by an exponentially growing, jittered pause before the
//! frame is tried again. This crate holds the decisions of that driver as
//! verified state machines, joined to the frame channel that carries frames
//! to and from the IP stack. Hardware access and suspension belong to the
//! program that embeds it.

pub mod async_timer;
pub mod backoff_handler;
pub mod communication;
pub mod frame_channel;
pub mod half_duplex;
pub mod laws;
pub mod pwm_uart;
pub mod uart_ip;
