//! A logger backend that renders each enabled record as one line of text
//! and appends it to a byte sink, under a single fixed severity threshold.

pub mod clock;
pub mod laws;
pub mod level;
pub mod line;
pub mod logger;
pub mod shared;

pub use clock::Timestamp;
pub use level::{Level, LevelFilter};
pub use line::Record;
pub use logger::{LoggerSlot, SetLoggerError, WriteLogger};
pub use shared::SharedLogger;
