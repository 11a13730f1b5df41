//! Decision logic of a host resource monitor: threshold evaluation, the
//! bounded event bus, the sampler and dispatcher state machines, the text of
//! the alerts, and the interpretation of raw provider data.
//!
//! All quantities are integers. CPU load is carried in hundredths of a
//! percent, temperature in tenths of a degree Celsius, memory in bytes and
//! battery charge in whole percent. Where a value has to be rounded it is
//! rounded towards the breach: up for load and temperature, down for charge.

pub mod events;
pub mod render;
pub mod bus;
pub mod dispatcher;
pub mod sampler;
pub mod sources;
pub mod battery;
pub mod power;
