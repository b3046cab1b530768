//! Verified core of a CAN-equipped blinker firmware.
//!
//! The library holds the logic of the firmware — bus bit-timing selection,
//! the Initialization/Normal mode handshake, frame packing and truncation,
//! and the timer-driven tick loop that couples analog samples to blink
//! period and bus traffic — each piece with a proved contract.  Register
//! access itself is the caller's concern: the library speaks to hardware
//! through a small controller model and a step-function sequencer that a
//! driver loop can run against the real peripheral.

pub mod controller;
pub mod driver;
pub mod frame;
pub mod sequencer;
pub mod tick;
pub mod timer;
pub mod timing;

pub use controller::{BusMode, CanController, SentFrame};
pub use frame::MailboxWrite;
pub use tick::BlinkConfig;
pub use timer::TimerConfig;
pub use timing::BitTiming;
