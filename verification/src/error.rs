//! The errors of the device-facing operations.

use crate::text::{decimal, hex_word, push_decimal, push_hex_word};
use vstd::prelude::*;
use vstd::string::StringExecFns;

verus! {

/// The half of an exchange in which the transport failed.
#[derive(Debug, Clone, Copy, PartialEq, Eq, Structural)]
pub enum TransportStep {
    /// Writing the feature report.
    Send,
    /// Reading the feature report back.
    Receive,
}

/// Why an operation on a keyboard failed.
#[derive(Debug, Clone, PartialEq, Eq)]
pub enum AkkoError {
    /// The host's HID layer could not be started; holds the cause.
    HidInitFailure(String),
    /// No HID endpoint has this vendor and product id.
    DeviceNotFound { vendor_id: u16, product_id: u16 },
    /// A matching endpoint exists, but the system would not open it; holds
    /// the cause.
    InterfaceOpenFailure(String),
    /// Writing or reading a feature report failed.
    TransportIoError { step: TransportStep, cause: String },
    /// A raw packet was not exactly sixty-four bytes long; holds its length.
    UnsupportedPacketSize(usize),
}

impl AkkoError {
    /// The text of the error, as shown to the operator.
    pub open spec fn message_text(self) -> Seq<char> {
        match self {
            AkkoError::HidInitFailure(cause) => "Failed to init HID API: "@ + cause@,
            AkkoError::DeviceNotFound { vendor_id, product_id } => "No device found with VID: 0x"@
                + hex_word(vendor_id) + ", PID: 0x"@ + hex_word(product_id),
            AkkoError::InterfaceOpenFailure(cause) => "Failed to open device: "@ + cause@,
            AkkoError::TransportIoError { step: TransportStep::Send, cause } =>
                "send_feature_report failed: "@ + cause@ + " (ensure 65-byte buffer)"@,
            AkkoError::TransportIoError { step: TransportStep::Receive, cause } =>
                "get_feature_report failed: "@ + cause@,
            AkkoError::UnsupportedPacketSize(len) => "Packet must be 64 bytes, got "@ + decimal(
                len as nat,
            ),
        }
    }

    /// Renders the error as a human-readable message.
    pub fn message(&self) -> (text: String)
        ensures
            text@ == self.message_text(),
    {
        match self {
            AkkoError::HidInitFailure(cause) => {
                let mut text = String::from_str("Failed to init HID API: ");
                text.append(cause.as_str());
                text
            },
            AkkoError::DeviceNotFound { vendor_id, product_id } => {
                let mut text = String::from_str("No device found with VID: 0x");
                push_hex_word(&mut text, *vendor_id);
                text.append(", PID: 0x");
                push_hex_word(&mut text, *product_id);
                text
            },
            AkkoError::InterfaceOpenFailure(cause) => {
                let mut text = String::from_str("Failed to open device: ");
                text.append(cause.as_str());
                text
            },
            AkkoError::TransportIoError { step: TransportStep::Send, cause } => {
                let mut text = String::from_str("send_feature_report failed: ");
                text.append(cause.as_str());
                text.append(" (ensure 65-byte buffer)");
                text
            },
            AkkoError::TransportIoError { step: TransportStep::Receive, cause } => {
                let mut text = String::from_str("get_feature_report failed: ");
                text.append(cause.as_str());
                text
            },
            AkkoError::UnsupportedPacketSize(len) => {
                let mut text = String::from_str("Packet must be 64 bytes, got ");
                push_decimal(&mut text, *len);
                text
            },
        }
    }
}

} // verus!
