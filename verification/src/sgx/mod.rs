//! The binary artifacts of SGX attestation and enclave loading.

pub mod attributes;
pub mod checker;
pub mod length;
pub mod quote;
pub mod sigstruct;

pub use attributes::Attributes;
pub use checker::{aesmd_installed, driver_loaded, psw_installed, Installation};
pub use length::{validate_minimum_length, LengthMismatch, Section};
pub use quote::{Quote3, Quote3View, QuoteHeader, QuoteHeaderView, ReportBody, ReportBodyView};
pub use sigstruct::{
    SigStruct, SigStructBody, SigStructBodyView, SigStructBuffer, SigStructBufferView,
    SigStructHeader, SigStructHeaderView, SigStructKey, SigStructKeyView, SigStructView,
};
