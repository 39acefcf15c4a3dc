//! Driver for a 16-bit multi-channel analog-to-digital converter controlled
//! through a single bit-packed configuration register over a two-wire bus.

pub mod config;
pub mod driver;
pub mod error;
pub mod transport;

pub use config::ADS111xConfig;
pub use config::ComparatorLatching;
pub use config::ComparatorMode;
pub use config::ComparatorPolarity;
pub use config::ComparatorQueue;
pub use config::DataRate;
pub use config::GainAmplifier;
pub use config::InputMultiplexer;
pub use config::Mode;
pub use config::OperationalStatus;
pub use config::Register;
pub use driver::ADS111x;
pub use error::ADSError;
pub use transport::BusTransport;
