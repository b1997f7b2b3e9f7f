//! The failures a session can meet.

use vstd::prelude::*;

verus! {

#[derive(Debug, Clone, Copy, PartialEq, Eq, Structural)]
pub enum LoaderError {
    /// No device with the expected vendor and product id is attached.
    DeviceNotFound,
    /// The interface could not be claimed within the acquisition window.
    InterfaceClaimFailed,
    /// A transfer did not complete before its deadline.
    TransferTimeout,
    /// The device reported a non-success status, or the transport failed.
    TransferIoError,
    /// The image file could not be opened.
    FileOpenFailed,
    /// The identity response is not text.
    ResponseDecodeFailed,
}

impl LoaderError {
    /// A short description of the failure.
    pub fn message(&self) -> (r: &'static str) {
        match self {
            LoaderError::DeviceNotFound => "device not found, is it connected and in the right mode?",
            LoaderError::InterfaceClaimFailed => "failure claiming USB interface",
            LoaderError::TransferTimeout => "transfer timed out",
            LoaderError::TransferIoError => "transfer failed",
            LoaderError::FileOpenFailed => "cannot open the image file",
            LoaderError::ResponseDecodeFailed => "device response is not valid text",
        }
    }
}

} // verus!
