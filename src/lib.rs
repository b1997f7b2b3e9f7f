//! Host side of a mask-ROM USB recovery protocol: vendor command framing,
//! bounded interface acquisition, deadline handling for transfers, chunked
//! image upload and the session that sequences them.
//!
//! The library decides; the caller performs the USB and file I/O and reports
//! back what happened.

pub mod protocol;
pub mod error;
pub mod transfer;
pub mod acquire;
pub mod loader;
pub mod identity;
pub mod device;
pub mod session;
