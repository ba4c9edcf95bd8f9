//! Frequency meter core: a tick counter fed by a timer-overflow interrupt,
//! a frequency estimator with unit auto-scaling, a fixed-point decimal
//! formatter, and a command/protocol layer for a character LCD driven in
//! 4-bit nibble mode over a 2-wire bus.
//!
//! The hardware itself (timer registers, the bus, delays) lives outside this
//! library: callers hand in register snapshots, and carry the byte frames
//! this library produces out to the bus, polling the busy flag between
//! commands.

pub mod display;
pub mod estimator;
pub mod fixpoint;
pub mod format_utils;
pub mod hstring;
pub mod tcounter;

pub use display::{busy_probe, command_frame, decode_busy_and_ac, decode_frame, DisplayCommand,
    I2cDisplay, PollVerdict, ShiftDirection};
pub use estimator::{correct_counts, correct_frequency_counts, get_frequency, measurement_line,
    FreqUnit};
pub use fixpoint::Fix;
pub use format_utils::{digit_to_char, format_fixed, format_freq, FormatError};
pub use tcounter::TCounter;
