//! The exchange with the native layer, as plain values.
//!
//! The embedding program makes each native call and reports here what came
//! back: the status the call returned, and what it wrote through its out
//! parameters. Addresses of native records travel as `usize`, zero standing
//! for the null pointer.

use vstd::prelude::*;

use crate::error::UVC_SUCCESS;

verus! {

/// Pixel encodings in which a stream is asked for.
#[derive(Debug, Clone, Copy, PartialEq, Eq, Structural)]
pub enum FrameFormat {
    /// Packed YUV 4:2:2, one luminance value per pixel and one chrominance
    /// pair for every two pixels.
    Yuyv,
}

/// What came back from a request to open a session on a device.
#[derive(Debug, Clone, Copy, PartialEq, Eq, Structural)]
pub struct OpenReply {
    /// The status the call returned.
    pub status: i32,
    /// The address of the session the call created; meaningful on success only.
    pub session: usize,
}

/// The fields of a native device descriptor, copied out of native memory.
#[derive(Debug)]
pub struct RawDescriptor {
    pub id_vendor: u16,
    pub id_product: u16,
    pub bcd_uvc: u16,
    /// The bytes of each text field up to its terminator, or `None` where the
    /// record held a null pointer.
    pub serial_number: Option<Vec<u8>>,
    pub manufacturer: Option<Vec<u8>>,
    pub product: Option<Vec<u8>>,
}

/// What came back from a query for a device's descriptor.
#[derive(Debug)]
pub struct DescriptorReply {
    /// The status the call returned.
    pub status: i32,
    /// The address of the descriptor record that the call left allocated, zero
    /// where it left none.
    pub descriptor: usize,
    /// The fields of that record. They are read on success only.
    pub fields: Option<RawDescriptor>,
}

impl DescriptorReply {
    /// The record that the query left allocated, if any.
    pub open spec fn allocation(self) -> Option<usize> {
        if self.descriptor != 0 {
            Some(self.descriptor)
        } else {
            None
        }
    }

    /// Whether the fields of the record at `descriptor` are there to be read
    /// after a query that returned `status`: only a successful query has
    /// filled them in, and only a record that exists has any.
    pub fn may_read_fields(status: i32, descriptor: usize) -> (b: bool)
        ensures
            b <==> status == UVC_SUCCESS && descriptor != 0,
    {
        status == UVC_SUCCESS && descriptor != 0
    }
}

/// The arguments of a stream negotiation, in the integer types the native
/// call takes. The size and the rate are the numbers that were asked for.
#[derive(Debug, Clone, Copy, PartialEq, Eq, Structural)]
pub struct StreamRequest {
    /// The address of the session to negotiate on.
    pub session: usize,
    pub format: FrameFormat,
    pub width: i32,
    pub height: i32,
    pub fps: i32,
}

/// What came back from a stream negotiation. `C` is the native control block,
/// which this crate stores and hands on without looking into it.
#[derive(Debug)]
pub struct NegotiationReply<C> {
    /// The status the call returned.
    pub status: i32,
    /// The control block the call filled in; meaningful on success only.
    pub ctrl: C,
}

} // verus!
