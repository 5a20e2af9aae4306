//! Host-side flashing core for BL602/BL616 microcontrollers.
//!
//! The library speaks a framed command/response protocol over a serial
//! link to the on-chip boot ROM, uploads a RAM-resident second-stage
//! programmer, and drives it to erase, program, verify and read back
//! flash regions.  All protocol logic is verified; the physical serial
//! endpoint is reached through the [`port::SerialIo`] trait.

pub mod chip;
pub mod connection;
pub mod error;
pub mod flasher;
pub mod hashing;
pub mod pins;
pub mod port;
pub mod protocol;
pub mod script;
pub mod wire;

pub use chip::ChipType;
pub use connection::Connection;
pub use error::Error;
pub use error::RomError;
pub use flasher::Flasher;
pub use flasher::RomSegment;
