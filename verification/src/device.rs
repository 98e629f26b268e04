//! Devices, the sessions opened on them, and what a device says of itself.

use vstd::prelude::*;

use crate::error::{
    translate, UvcError, UvcResult, UVC_ERROR_BUSY, UVC_ERROR_INVALID_MODE,
    UVC_ERROR_NOT_SUPPORTED, UVC_SUCCESS,
};
use crate::native::{
    DescriptorReply, FrameFormat, NegotiationReply, OpenReply, RawDescriptor, StreamRequest,
};
use crate::streaming::StreamCtrl;
use crate::text::{
    absent_and_empty_text_differ, decodable, decode_text, decoded_text, empty_stays_empty,
    field_bytes, field_text,
};

verus! {

/// One reference to a native device record.
///
/// The native layer counts the references to a record. A `Device` stands for
/// exactly one of them, from `from_raw` until `into_raw` gives it back.
#[derive(Debug)]
pub struct Device {
    dev: usize,
}

/// An exclusive session with a device.
///
/// The session is valid only while the device reference it was opened from is
/// held, so the handle borrows its `Device`.
#[derive(Debug)]
pub struct DeviceHandle<'a> {
    devh: usize,
    dev: &'a Device,
}

/// What a device reports about itself: an owned copy, free of the device.
#[derive(Debug)]
pub struct DeviceDescription {
    pub id_vendor: u16,
    pub id_product: u16,
    pub bcd_uvc: u16,
    pub serial_number: Option<String>,
    pub manufacturer: Option<String>,
    pub product: Option<String>,
}

/// The contents of a `DeviceDescription`.
pub struct DescriptionView {
    pub id_vendor: u16,
    pub id_product: u16,
    pub bcd_uvc: u16,
    pub serial_number: Option<Seq<char>>,
    pub manufacturer: Option<Seq<char>>,
    pub product: Option<Seq<char>>,
}

impl View for DeviceDescription {
    type V = DescriptionView;

    open spec fn view(&self) -> DescriptionView {
        DescriptionView {
            id_vendor: self.id_vendor,
            id_product: self.id_product,
            bcd_uvc: self.bcd_uvc,
            serial_number: field_text(self.serial_number),
            manufacturer: field_text(self.manufacturer),
            product: field_text(self.product),
        }
    }
}

/// How a descriptor query ends.
#[must_use]
#[derive(Debug)]
pub struct DescriptionOutcome {
    /// The description, or why there is none.
    pub result: UvcResult<DeviceDescription>,
    /// The address of the native descriptor record that has to be freed now.
    pub release: Option<usize>,
}

/// The description that a descriptor reply amounts to.
///
/// A failed query gives its translated status. A successful one gives the
/// numbers as they are and each text field decoded. A field that cannot be
/// decoded fails the whole description with `Other`, and so does a success
/// that came without any fields.
pub open spec fn described(status: int, fields: Option<RawDescriptor>) -> UvcResult<
    DescriptionView,
> {
    if status != UVC_SUCCESS {
        Err(translate(status))
    } else {
        match fields {
            None => Err(UvcError::Other),
            Some(fields) => match (
                decoded_text(field_bytes(fields.serial_number)),
                decoded_text(field_bytes(fields.manufacturer)),
                decoded_text(field_bytes(fields.product)),
            ) {
                (Ok(serial_number), Ok(manufacturer), Ok(product)) => Ok(
                    DescriptionView {
                        id_vendor: fields.id_vendor,
                        id_product: fields.id_product,
                        bcd_uvc: fields.bcd_uvc,
                        serial_number,
                        manufacturer,
                        product,
                    },
                ),
                _ => Err(UvcError::Other),
            },
        }
    }
}

/// The session that the reply to an open request stands for, or the failure.
pub open spec fn opened(reply: OpenReply) -> UvcResult<usize> {
    if reply.status == UVC_SUCCESS {
        Ok(reply.session)
    } else {
        Err(translate(reply.status as int))
    }
}

impl Device {
    #[verifier::type_invariant]
    spec fn never_null(self) -> bool {
        self.dev != 0
    }

    /// The address of the native device record.
    pub closed spec fn addr(&self) -> usize {
        self.dev
    }

    /// Takes over one reference to the native device record at `dev`.
    ///
    /// A null address is no device: whoever hands one in has broken its side
    /// of the bargain, and there is nothing to recover.
    pub fn from_raw(dev: usize) -> (d: Device)
        requires
            dev != 0,
        ensures
            d.addr() == dev,
    {
        Device { dev }
    }

    /// The address of the native device record, for calls on the device.
    pub fn as_raw(&self) -> (dev: usize)
        ensures
            dev == self.addr(),
            dev != 0,
    {
        proof {
            use_type_invariant(self);
        }
        self.dev
    }

    /// Gives the reference back. The caller drops it at the native layer, once.
    #[must_use]
    pub fn into_raw(self) -> (dev: usize)
        ensures
            dev == self.addr(),
            dev != 0,
    {
        proof {
            use_type_invariant(&self);
        }
        self.dev
    }

    /// Turns the reply to an open request on this device into a session handle.
    ///
    /// A handle is built on success only; any other status comes back as the
    /// failure it stands for. The handle borrows the device, which therefore
    /// cannot be given back while the handle is around.
    ///
    /// A reply that reports success names the session: success with a null
    /// session is not an answer of the native layer, and no handle can be
    /// made of it.
    pub fn open<'a>(&'a self, reply: OpenReply) -> (r: UvcResult<DeviceHandle<'a>>)
        requires
            reply.status == UVC_SUCCESS ==> reply.session != 0,
        ensures
            match r {
                Ok(handle) => opened(reply) == Ok::<_, UvcError>(handle.addr())
                    && handle.opened_from() == *self,
                Err(e) => opened(reply) == Err::<usize, _>(e),
            },
    {
        match UvcError::check(reply.status) {
            Ok(()) => Ok(DeviceHandle { devh: reply.session, dev: self }),
            Err(e) => Err(e),
        }
    }

    /// Turns the reply to a descriptor query into an owned description, and
    /// says which native record has to be freed.
    ///
    /// Whatever the query left allocated is released, whether a description
    /// came of it or not.
    pub fn description(&self, reply: DescriptorReply) -> (out: DescriptionOutcome)
        ensures
            out.release == reply.allocation(),
            match out.result {
                Ok(d) => described(reply.status as int, reply.fields) == Ok::<_, UvcError>(d@),
                Err(e) => described(reply.status as int, reply.fields) == Err::<
                    DescriptionView,
                    _,
                >(e),
            },
    {
        let release = if reply.descriptor != 0 {
            Some(reply.descriptor)
        } else {
            None
        };
        let result = match UvcError::check(reply.status) {
            Err(e) => Err(e),
            Ok(()) => match reply.fields {
                None => Err(UvcError::Other),
                Some(fields) => Self::describe(fields),
            },
        };
        DescriptionOutcome { result, release }
    }

    /// Copies the fields of a descriptor into an owned description.
    fn describe(fields: RawDescriptor) -> (r: UvcResult<DeviceDescription>)
        ensures
            match r {
                Ok(d) => described(UVC_SUCCESS as int, Some(fields)) == Ok::<_, UvcError>(d@),
                Err(e) => described(UVC_SUCCESS as int, Some(fields)) == Err::<DescriptionView, _>(
                    e,
                ),
            },
    {
        let id_vendor = fields.id_vendor;
        let id_product = fields.id_product;
        let bcd_uvc = fields.bcd_uvc;
        let serial_number = match decode_text(fields.serial_number) {
            Ok(text) => text,
            Err(e) => {
                return Err(e);
            },
        };
        let manufacturer = match decode_text(fields.manufacturer) {
            Ok(text) => text,
            Err(e) => {
                return Err(e);
            },
        };
        let product = match decode_text(fields.product) {
            Ok(text) => text,
            Err(e) => {
                return Err(e);
            },
        };
        Ok(DeviceDescription { id_vendor, id_product, bcd_uvc, serial_number, manufacturer, product })
    }
}

/// What a negotiation for the given frame size and frame rate asks of the
/// native layer.
///
/// The native call takes signed integers. A size or a rate beyond their range
/// cannot be asked for: it is refused as `InvalidParameter`, and nothing is
/// handed to the native layer. Every other request carries the numbers as
/// given, and YUYV as the encoding.
pub open spec fn requested(session: usize, width: u32, height: u32, fps: u32) -> UvcResult<
    StreamRequest,
> {
    if width <= i32::MAX && height <= i32::MAX && fps <= i32::MAX {
        Ok(
            StreamRequest {
                session,
                format: FrameFormat::Yuyv,
                width: width as i32,
                height: height as i32,
                fps: fps as i32,
            },
        )
    } else {
        Err(UvcError::InvalidParameter)
    }
}

/// The settings that the reply to a stream negotiation stands for, or the
/// failure.
pub open spec fn negotiated<C>(reply: NegotiationReply<C>) -> UvcResult<C> {
    if reply.status == UVC_SUCCESS {
        Ok(reply.ctrl)
    } else {
        Err(translate(reply.status as int))
    }
}

impl<'a> DeviceHandle<'a> {
    #[verifier::type_invariant]
    spec fn never_null(self) -> bool {
        self.devh != 0
    }

    /// The address of the native session.
    pub closed spec fn addr(&self) -> usize {
        self.devh
    }

    /// The device the session was opened on.
    pub closed spec fn opened_from(&self) -> Device {
        *self.dev
    }

    /// The address of the native session, for calls on the session.
    pub fn as_raw(&self) -> (devh: usize)
        ensures
            devh == self.addr(),
            devh != 0,
    {
        proof {
            use_type_invariant(self);
        }
        self.devh
    }

    /// The device the session was opened on.
    pub fn device(&self) -> (dev: &'a Device)
        ensures
            *dev == self.opened_from(),
    {
        self.dev
    }

    /// Ends the session. The caller closes it at the native layer, once.
    #[must_use]
    pub fn close(self) -> (devh: usize)
        ensures
            devh == self.addr(),
            devh != 0,
    {
        proof {
            use_type_invariant(&self);
        }
        self.devh
    }

    /// The arguments with which to negotiate a stream of the given frame size
    /// and frame rate on this session. The encoding is always YUYV.
    ///
    /// A size or a rate that the native integers cannot hold is refused here,
    /// before any native call is made.
    pub fn stream_request(&self, width: u32, height: u32, fps: u32) -> (r: UvcResult<
        StreamRequest,
    >)
        ensures
            r == requested(self.addr(), width, height, fps),
    {
        if width > 0x7fff_ffff || height > 0x7fff_ffff || fps > 0x7fff_ffff {
            Err(UvcError::InvalidParameter)
        } else {
            Ok(
                StreamRequest {
                    session: self.devh,
                    format: FrameFormat::Yuyv,
                    width: width as i32,
                    height: height as i32,
                    fps: fps as i32,
                },
            )
        }
    }

    /// Turns the reply to the negotiation for the given frame size and frame
    /// rate into the negotiated settings.
    ///
    /// Settings are built only for a request that could be made and a reply
    /// of success, and they are settings for the size and rate that were asked
    /// for. A request that could not be made fails as `stream_request` fails,
    /// whatever the reply; any other status than success comes back as the
    /// failure it stands for. The settings borrow the handle.
    pub fn get_stream_ctrl_with_size_and_fps<'h, C>(
        &'h self,
        width: u32,
        height: u32,
        fps: u32,
        reply: NegotiationReply<C>,
    ) -> (r: UvcResult<StreamCtrl<'h, C>>)
        ensures
            match r {
                Ok(ctrl) => requested(self.addr(), width, height, fps) == Ok::<_, UvcError>(
                    ctrl.answers(),
                ) && negotiated(reply) == Ok::<_, UvcError>(ctrl.settings()) && ctrl.session()
                    == *self,
                Err(e) => match requested(self.addr(), width, height, fps) {
                    Err(refused) => e == refused,
                    Ok(_) => negotiated(reply) == Err::<C, _>(e),
                },
            },
    {
        let request = match self.stream_request(width, height, fps) {
            Ok(request) => request,
            Err(e) => {
                return Err(e);
            },
        };
        match UvcError::check(reply.status) {
            Ok(()) => Ok(StreamCtrl::new(reply.ctrl, request, self)),
            Err(e) => Err(e),
        }
    }
}

/// Whether a session can be had is for the native layer to say, and a wrapper
/// adds nothing of its own: while the reply is `Busy` the outcome is `Busy`
/// and no session, whichever wrapper of the device asked; as soon as the
/// reply is success the outcome is the session it names.
pub proof fn open_follows_the_reply(reply: OpenReply)
    ensures
        opened(reply) is Ok <==> reply.status == UVC_SUCCESS,
        reply.status == UVC_SUCCESS ==> opened(reply) == Ok::<_, UvcError>(reply.session),
        reply.status == UVC_ERROR_BUSY ==> opened(reply) == Err::<usize, _>(UvcError::Busy),
        opened(reply) matches Err(e) ==> e != UvcError::Success,
{
}

/// A request is made exactly when the width, the height and the rate each fit
/// the native integer. It then carries those three numbers unchanged, so no
/// number below zero and no number other than the one asked for ever reaches
/// the native layer.
pub proof fn request_carries_what_was_asked(session: usize, width: u32, height: u32, fps: u32)
    ensures
        requested(session, width, height, fps) is Ok <==> width <= i32::MAX && height <= i32::MAX
            && fps <= i32::MAX,
        requested(session, width, height, fps) matches Ok(request) ==> {
            &&& request.session == session
            &&& request.format == FrameFormat::Yuyv
            &&& request.width == width
            &&& request.height == height
            &&& request.fps == fps
        },
        requested(session, width, height, fps) matches Err(e) ==> e == UvcError::InvalidParameter,
{
}

/// Settings come of a negotiation exactly when the native layer reported
/// success, and they are then the ones it filled in. A combination that the
/// device does not support gives `NotSupported` and no settings.
pub proof fn negotiation_follows_the_reply<C>(reply: NegotiationReply<C>)
    ensures
        negotiated(reply) is Ok <==> reply.status == UVC_SUCCESS,
        reply.status == UVC_SUCCESS ==> negotiated(reply) == Ok::<_, UvcError>(reply.ctrl),
        reply.status == UVC_ERROR_NOT_SUPPORTED || reply.status == UVC_ERROR_INVALID_MODE
            ==> negotiated(reply) == Err::<C, _>(UvcError::NotSupported),
        negotiated(reply) matches Err(e) ==> e != UvcError::Success,
{
}

/// A reply amounts to a description exactly when the query succeeded, its
/// fields were read, and each of the three text fields can be decoded. In
/// every other case it amounts to a failure, and that failure is never
/// `Success`.
pub proof fn description_is_owed(status: int, fields: Option<RawDescriptor>)
    ensures
        described(status, fields) is Ok <==> {
            &&& status == UVC_SUCCESS
            &&& fields matches Some(f)
            &&& decodable(field_bytes(f.serial_number))
            &&& decodable(field_bytes(f.manufacturer))
            &&& decodable(field_bytes(f.product))
        },
        described(status, fields) matches Err(e) ==> e != UvcError::Success,
        status != UVC_SUCCESS ==> described(status, fields) == Err::<DescriptionView, _>(
            translate(status),
        ),
{
}

/// A description has a text exactly where the descriptor has one: a field
/// without text in the record is `None`, and a field with text is `Some`,
/// also where the text is empty. The numbers are those of the record.
pub proof fn description_keeps_absence(fields: RawDescriptor)
    ensures
        described(UVC_SUCCESS as int, Some(fields)) matches Ok(d) ==> {
            &&& d.serial_number is None <==> fields.serial_number is None
            &&& d.manufacturer is None <==> fields.manufacturer is None
            &&& d.product is None <==> fields.product is None
            &&& empty_stays_empty(field_bytes(fields.serial_number), d.serial_number)
            &&& empty_stays_empty(field_bytes(fields.manufacturer), d.manufacturer)
            &&& empty_stays_empty(field_bytes(fields.product), d.product)
            &&& d.id_vendor == fields.id_vendor
            &&& d.id_product == fields.id_product
            &&& d.bcd_uvc == fields.bcd_uvc
        },
{
    absent_and_empty_text_differ(field_bytes(fields.serial_number));
    absent_and_empty_text_differ(field_bytes(fields.manufacturer));
    absent_and_empty_text_differ(field_bytes(fields.product));
}

} // verus!
