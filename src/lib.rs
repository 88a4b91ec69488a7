//! A configurable logging core: severity filtering, template rendering,
//! per-sink queues and file rollover, with the behaviour of each step stated
//! as a contract.

pub mod error;
pub mod level;
pub mod logger;
pub mod output;
pub mod style;
pub mod template;

pub use dekor::Style;
pub use error::{LogfatherError, LogfatherResult};
pub use level::Level;
pub use logger::{Logger, OutputDirection, TimeZone};
pub use output::{log, rollover, structured_log, timestamp, LogLines, LogQueues};
