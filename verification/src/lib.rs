//! Verified core of a DCF77 radio-clock: the smoother that debounces
//! the receiver line, the pulse classifier and frame assembler that turn
//! its levels into 59-bit telegrams, the telegram decoder and encoder
//! with their parity and BCD arithmetic, the edge-binning phase locator,
//! and the display and clock-discipline decisions around them.

pub mod bits;
pub mod classifier;
pub mod cycles_computer;
pub mod datetime_converter;
pub mod dcf77_decoder;
pub mod frequency;
pub mod pipeline;
pub mod smoother;
pub mod telegram;
pub mod time_display;
