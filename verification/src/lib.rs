//! Record per-match observations of a squad shooter and answer aggregate
//! statistical queries over them: composable filters over character, squad
//! composition and time window, a streaming aggregation pass, and an
//! append-only record store abstraction.

pub mod apex;
pub mod backend;
mod config;
mod observation;
pub mod stats;
pub mod time;

pub use backend::Backend;
pub use config::Config;
pub use observation::Observation;

pub use apex::Legend;
pub use apex::LegendParseError;
pub use apex::SquadType;
pub use apex::SquadTypeParseError;
pub use time::Timestamp;
pub use time::one_week_ago;
pub use time::week_before;
