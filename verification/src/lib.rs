//! Driver-level session manager for a capacitive fingerprint sensor module
//! that speaks a host communication protocol over SPI.
//!
//! The crate models the host side of the driver: the transport configuration,
//! the protocol channel with its fixed-size buffers, the single sensor
//! session with its initialize / ready / deinitialized lifecycle, and the
//! step-by-step sequencing of the enrollment and identification operations.
//! Every firmware and platform call is performed by the surrounding
//! application, which hands the raw status codes back to the session; the
//! decisions taken on those codes are verified here.

pub mod channel;
pub mod enroll;
pub mod identify;
pub mod session;
pub mod status;
pub mod transport;

pub use channel::ProtocolChannel;
pub use enroll::EnrollFlow;
pub use identify::IdentifyFlow;
pub use session::SensorSession;
pub use status::Error;
pub use transport::TransportConfig;
