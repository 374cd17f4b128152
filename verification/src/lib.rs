//! A thin, verified facade over the pigpio daemon's SPI interface.
//!
//! The daemon is reached through a small fixed call surface (connect,
//! open an SPI channel, read, write, full-duplex transfer, close), every
//! call of which returns an integer that is either a non-negative byte
//! count or handle, or a negative status code.  This crate holds the
//! logic around those calls: interpreting each raw integer reply,
//! translating status codes into structured errors, validating a
//! transfer request before anything is sent, and handing out each
//! handle's release action exactly once.  The foreign calls themselves
//! live outside the verified core; they feed their raw integer results
//! into the functions here.
//!
//! A handle is a single-owner resource: sharing one across threads
//! without external synchronization is the caller's responsibility.

pub mod error;
pub mod handle;

pub use error::Error;
pub use handle::Pigpio;
pub use handle::Spi;
