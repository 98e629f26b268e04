//! Ownership and status layer for sessions with USB Video Class devices.
//!
//! The native library is reached by the embedding program. This crate holds
//! what surrounds each native call: which status means which failure, which
//! wrapper may be built from which answer, what has to be released afterwards,
//! and who borrows from whom.
//!
//! Every operation runs the same way. The program makes the native call with
//! the addresses this crate keeps ([`Device::as_raw`], [`DeviceHandle::as_raw`],
//! [`DeviceHandle::stream_request`]), packs what came back into a reply, and
//! hands the reply to the method of the same name as the operation. The method
//! returns the wrapper or the failure, and names what the program has to give
//! back to the native layer.
//!
//! A [`DeviceHandle`] borrows its [`Device`], and a [`StreamCtrl`] borrows its
//! [`DeviceHandle`]: a parent cannot be given back while a child is in use.
//!
//! [`history`] states what holds of the handles of one device over any run of
//! opens and closes.

pub mod device;
pub mod error;
pub mod history;
pub mod native;
pub mod streaming;
pub mod text;

pub use crate::device::{DescriptionOutcome, Device, DeviceDescription, DeviceHandle};
pub use crate::error::{UvcError, UvcResult};
pub use crate::native::{
    DescriptorReply, FrameFormat, NegotiationReply, OpenReply, RawDescriptor, StreamRequest,
};
pub use crate::streaming::StreamCtrl;
