//! Extraction of structured purchase data from a photographed receipt.
//!
//! The reading itself is done by a remote multimodal model. This library is
//! what stands around that call:
//!
//! - [`resize`] brings an image under the byte budget of the service, by
//!   shrinking it along the schedule of [`shrink`];
//! - [`request`] builds the request, with the image as base64
//!   ([`encoding`]) and the instructions to the model;
//! - [`reply`] validates the model's answer against the shape of a
//!   [`Receipt`];
//! - [`pipeline`] ties the steps together as a state machine that performs
//!   no I/O: the caller makes the remote call and reports its outcome.
//!
//! The image codec, base64 and the JSON parser come from the crates `image`,
//! `base64` and `serde_json`; the calls into them are gathered in [`codec`],
//! [`encoding`] and [`json`], each with the contract that the proofs rest on.

pub mod codec;
pub mod document;
pub mod encoding;
pub mod json;
pub mod pipeline;
pub mod receipt;
pub mod reply;
pub mod request;
pub mod resize;
pub mod shrink;

pub use pipeline::analyze;
pub use receipt::{Confidence, Receipt, ReceiptItem};
pub use resize::resize_image;
