//! What every part of the reconciler shares: errors, the report, the
//! platform and the exchange with the host.

pub mod error;
pub mod exchange;
pub mod logging;
pub mod platform;
pub mod utils;
