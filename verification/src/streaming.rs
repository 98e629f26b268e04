//! Negotiated stream settings.

use vstd::prelude::*;

use crate::device::DeviceHandle;
use crate::native::StreamRequest;

verus! {

/// Stream settings that a device has confirmed it can deliver.
///
/// The settings live in the native control block `C`, which stays opaque here.
/// Beside it stands the request that the device said yes to: the encoding, the
/// frame size and the frame rate. They were negotiated on one session and are
/// of use on that session only, so the value borrows the handle for as long as
/// it exists.
pub struct StreamCtrl<'a, C> {
    ctrl: C,
    request: StreamRequest,
    handle: &'a DeviceHandle<'a>,
}

impl<'a, C> StreamCtrl<'a, C> {
    /// The control block as the native layer filled it in.
    pub closed spec fn settings(&self) -> C {
        self.ctrl
    }

    /// The request that the settings are the answer to.
    pub closed spec fn answers(&self) -> StreamRequest {
        self.request
    }

    /// The session the settings were negotiated on.
    pub closed spec fn session(&self) -> DeviceHandle<'a> {
        *self.handle
    }

    pub(crate) fn new(ctrl: C, request: StreamRequest, handle: &'a DeviceHandle<'a>) -> (s: Self)
        ensures
            s.settings() == ctrl,
            s.answers() == request,
            s.session() == *handle,
    {
        StreamCtrl { ctrl, request, handle }
    }

    /// The encoding, frame size and frame rate that the device confirmed.
    pub fn request(&self) -> (request: StreamRequest)
        ensures
            request == self.answers(),
    {
        self.request
    }

    /// The control block, for the call that starts the stream.
    pub fn as_native(&self) -> (c: &C)
        ensures
            *c == self.settings(),
    {
        &self.ctrl
    }

    /// The handle of the session the settings belong to.
    pub fn handle(&self) -> (h: &'a DeviceHandle<'a>)
        ensures
            *h == self.session(),
    {
        self.handle
    }
}

} // verus!
