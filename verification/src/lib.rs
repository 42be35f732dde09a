//! Inspection of SGX platforms and of two artifacts of attestation and
//! enclave loading: the enclave signing structure and the attestation quote.
//!
//! The library has three parts.
//!
//! * [`sgx`] decodes the two artifacts from bytes and renders them as text.
//!   A signing structure is a record of 1808 bytes; a quote is a header, a
//!   report body and a signature whose length the quote declares. Decoding
//!   fails in one way only, a [`sgx::LengthMismatch`].
//! * [`cpu`] draws the report on what a processor offers of SGX from the
//!   registers of its identification instruction. The [`cpu::Probe`] is a
//!   state machine: it says what to ask, takes the answer, and stops at the
//!   first capability that is missing. It runs no instruction itself, so it
//!   can be driven by the processor or by a table of registers.
//! * [`commands`] holds what the commands of the tool decide: whether SGX
//!   can be used, what a dump says, and in which format a key is written.
//!
//! [`text`], [`hex`] and [`bytes`] are the tools of the three: rendering of
//! numbers and bytes, and reading of little-endian fields.
//!
//! Every function states what it returns over a model of its arguments:
//! byte strings are `Seq<u8>`, texts are `Seq<char>`, and each record has a
//! view that holds its fields as plain values.

pub mod bytes;
pub mod commands;
pub mod cpu;
pub mod hex;
pub mod sgx;
pub mod text;
