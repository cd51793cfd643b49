//! Battery status monitoring: reading a power-source record, rendering a
//! status title and tracking the low-battery alert.

pub mod cycle;
pub mod decimal;
pub mod duration;
pub mod monitor;
pub mod notify;
pub mod percent;
pub mod record;
pub mod snapshot;
pub mod title;
