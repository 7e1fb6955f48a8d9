//! A simulated GNSS receiver: checksummed NMEA-0183 sentences for a randomly
//! varying position, and the decisions behind the virtual serial transport
//! that carries them.

pub mod bridge;
pub mod clock;
pub mod constellation;
pub mod generator;
pub mod location;
pub mod pty_handler;
pub mod random;
pub mod sentence;
pub mod sentences;
pub mod shutdown;
pub mod simulator;
pub mod text;
pub mod transport;
