//! Driver for the SEN5x family of environmental sensors (particulate matter,
//! humidity, temperature, VOC and NOx) on an I2C bus.
pub mod bus;
pub mod checksum;
pub mod commands;
pub mod error;
pub mod scripted;
pub mod sen5x;
pub mod types;
pub mod utils;

pub use commands::Command;
pub use error::Error;
pub use types::SensorDataInt;
