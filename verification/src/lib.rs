//! A terminal countdown timer core: fixed-point time arithmetic, textual
//! clock/progress formatting, and the driver-loop state machine.

pub mod driver;
pub mod laws;
pub mod numerals;
pub mod render;
pub mod state;
pub mod timespan;

pub use driver::DriverState;
pub use state::PassedTime;
pub use timespan::TimeSpan;
