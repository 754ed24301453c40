//! Core logic of an algorithmic trading bot for the QUIK terminal:
//! a hysteresis-based crossover signal state machine, a candle/indicator
//! pipeline, the result-code taxonomy of the Trans2QUIK native API, and
//! the orchestration state machine that ties them together.
//!
//! Prices and indicator values are fixed-point integers (millionths of a
//! currency unit); percentages are fixed-point integers (thousandths of a
//! percent). All arithmetic on them is exact and verified.

pub mod bot;
pub mod clock;
pub mod ema;
pub mod quik;
pub mod signal;

pub use bot::AppCommand;
pub use bot::Bot;
pub use bot::BotAction;
pub use bot::BotEvent;
pub use bot::BotState;
pub use bot::Instrument;
pub use bot::InstrumentData;
pub use bot::Operation;
pub use bot::TransactionReply;
pub use clock::Weekday;
pub use ema::Candle;
pub use ema::Ema;
pub use ema::EmaError;
pub use quik::Trans2QuikResult;
pub use signal::CrossoverSignal;
pub use signal::Signal;
pub use signal::State;
