//! Text to Morse code, and Morse code to a sequence of timed signal events.
//!
//! The encoder turns text into a [`MorseString`]; the sequencer flattens it
//! into [`TimedEvent`]s measured in ticks. Playing or printing the result is
//! left to the caller, who also picks the length of a tick.
pub mod cli;
pub mod code;
pub mod encoder;
pub mod laws;
pub mod sequencer;
pub mod table;
mod text;

pub use cli::parse_arguments;
pub use code::{MorseElement, MorseString, MorseSymbol};
pub use encoder::{encode, EncodingError};
pub use sequencer::{sequence, TimedEvent};
