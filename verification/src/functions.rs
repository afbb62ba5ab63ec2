//! What the host decides around the calls of the device API: what a call is
//! handed, and what its answer means. The calls themselves are made by the
//! caller, who passes in what the device answered.

use crate::error::{
    api_error, errcode_try, result_view, spec_api_error, spec_errcode_try, Error, ErrorView,
};
use crate::event::{
    all_valid, resolve_event_ptrs, spec_wait_ptr, spec_waits, Event, EventList, EventView,
    ResolvedEventPtrs,
};
use crate::handle::{CommandQueue, DeviceId, Kernel, Mem, PlatformId, Sampler};
use vstd::layout::size_of;
use vstd::prelude::*;
use vstd::string::StringExecFns;
use vstd::utf8::{decode_utf8, valid_utf8};

verus! {

/// The most devices that a query for the devices of a platform asks for.
pub const DEVICES_MAX: u32 = 16;

/// The device types that a query asks for when none are named: all of them.
pub const DEVICE_TYPE_ALL: u64 = 0xFFFF_FFFF;

/// Stands in for the user data of a build callback.
pub struct UserDataPh(usize);

impl UserDataPh {
    /// The value that is held.
    pub closed spec fn spec_value(&self) -> usize {
        self.0
    }

    /// A placeholder that holds `value`.
    pub fn new(value: usize) -> (r: UserDataPh)
        ensures
            r.spec_value() == value,
    {
        UserDataPh(value)
    }

    /// The address handed to the device for this user data: always null, as
    /// build callbacks are not supported.
    pub fn unwrapped(&self) -> (r: usize)
        ensures
            r == 0,
    {
        0
    }
}

/// A truth value as the device API takes it.
pub open spec fn spec_cl_bool(b: bool) -> u32 {
    if b {
        1
    } else {
        0
    }
}

/// A truth value as the device API takes it.
pub fn cl_bool(b: bool) -> (r: u32)
    ensures
        r == spec_cl_bool(b),
{
    if b {
        1
    } else {
        0
    }
}

/// The size in bytes of `len` elements of `elem` bytes each, if the machine
/// can count that far.
pub open spec fn spec_byte_len(len: nat, elem: nat) -> Option<usize> {
    if len * elem <= usize::MAX {
        Some((len * elem) as usize)
    } else {
        None
    }
}

/// The size in bytes of `len` elements of type `T`, if the machine can count
/// that far.
pub fn byte_len<T>(len: usize) -> (r: Option<usize>)
    ensures
        r == spec_byte_len(len as nat, size_of::<T>()),
{
    len.checked_mul(core::mem::size_of::<T>())
}

/// A command for a queue, with the arguments that are its own.
#[derive(Clone, Debug, PartialEq, Eq)]
pub enum Command {
    ReadBuffer {
        buffer: usize,
        blocking: u32,
        offset: usize,
        size: usize,
    },
    ReadBufferRect {
        buffer: usize,
        blocking: u32,
        buffer_origin: [usize; 3],
        host_origin: [usize; 3],
        region: [usize; 3],
        buffer_row_pitch: usize,
        buffer_slc_pitch: usize,
        host_row_pitch: usize,
        host_slc_pitch: usize,
    },
    WriteBuffer {
        buffer: usize,
        blocking: u32,
        offset: usize,
        size: usize,
    },
    WriteBufferRect {
        buffer: usize,
        blocking: u32,
        buffer_origin: [usize; 3],
        host_origin: [usize; 3],
        region: [usize; 3],
        buffer_row_pitch: usize,
        buffer_slc_pitch: usize,
        host_row_pitch: usize,
        host_slc_pitch: usize,
    },
    FillBuffer {
        buffer: usize,
        pattern_size: usize,
        offset: usize,
        size: usize,
    },
    CopyBufferRect {
        src_buffer: usize,
        dst_buffer: usize,
        src_origin: [usize; 3],
        dst_origin: [usize; 3],
        region: [usize; 3],
        src_row_pitch: usize,
        src_slc_pitch: usize,
        dst_row_pitch: usize,
        dst_slc_pitch: usize,
    },
    ReadImage {
        image: usize,
        blocking: u32,
        origin: [usize; 3],
        region: [usize; 3],
        row_pitch: usize,
        slc_pitch: usize,
    },
    WriteImage {
        image: usize,
        blocking: u32,
        origin: [usize; 3],
        region: [usize; 3],
        input_row_pitch: usize,
        input_slc_pitch: usize,
    },
    FillImage {
        image: usize,
        origin: [usize; 3],
        region: [usize; 3],
    },
    CopyImage {
        src_image: usize,
        dst_image: usize,
        src_origin: [usize; 3],
        dst_origin: [usize; 3],
        region: [usize; 3],
    },
    CopyImageToBuffer {
        src_image: usize,
        dst_buffer: usize,
        src_origin: [usize; 3],
        region: [usize; 3],
        dst_offset: usize,
    },
    CopyBufferToImage {
        src_buffer: usize,
        dst_image: usize,
        src_offset: usize,
        dst_origin: [usize; 3],
        region: [usize; 3],
    },
    MapBuffer {
        buffer: usize,
        blocking: u32,
        map_flags: u64,
        offset: usize,
        size: usize,
    },
    MapImage {
        image: usize,
        blocking: u32,
        map_flags: u64,
        origin: [usize; 3],
        region: [usize; 3],
        row_pitch: usize,
        slc_pitch: usize,
    },
    UnmapMemObject {
        memobj: usize,
        mapped_ptr: usize,
    },
    Marker,
    Barrier,
    CopyBuffer {
        src_buffer: usize,
        dst_buffer: usize,
        src_offset: usize,
        dst_offset: usize,
        size: usize,
    },
    MigrateMemObjects { num_mem_objects: u32, mem_objects: Vec<usize>, flags: u64 },
    NDRangeKernel {
        kernel: usize,
        work_dims: u32,
        global_work_offset: Option<[usize; 3]>,
        global_work_dims: [usize; 3],
        local_work_dims: Option<[usize; 3]>,
    },
    Task { kernel: usize },
}

/// A command as the caller hands it to the device: the queue it goes to, the
/// command, the events around it, and the words that name the call when its
/// answer is read.
#[derive(Clone, Debug, PartialEq, Eq)]
pub struct Submission {
    pub queue: usize,
    pub command: Command,
    pub events: ResolvedEventPtrs,
    pub message: String,
}

/// What a builder of a submission hands back, for the command `command` on
/// `queue`, named `message`, that waits for `waits`, where the place for the
/// new event held `slot_before` and holds `slot_after` afterwards.
///
/// It succeeds exactly if every event waited for is valid and they are no
/// more than the device can count. Then the submission holds the queue, the
/// command and the name as given; the count of events, and the pointer to
/// them, which is null for none; and whether there is a place for the new
/// event, which has been emptied, with the handle it gave up. Otherwise the
/// error is `InvalidHandle` for an event without a handle, else
/// `ResourceExhausted`, and the place for the new event is untouched.
pub open spec fn spec_submitted(
    r: Result<Submission, Error>,
    queue: CommandQueue,
    command: Command,
    message: Seq<char>,
    waits: Seq<Event>,
    slot_before: Option<EventView>,
    slot_after: Option<EventView>,
) -> bool {
    match r {
        Ok(s) => {
            &&& all_valid(waits)
            &&& waits.len() <= u32::MAX
            &&& s.queue == queue.ptr
            &&& s.command == command
            &&& s.message@ == message
            &&& s.events.wait_list_len == waits.len()
            &&& match s.events.wait_list {
                Some(handles) => Some(handles@),
                None => None,
            } == spec_wait_ptr(waits)
            &&& s.events.new_event == slot_before is Some
            &&& s.events.released == match slot_before {
                Some(slot) => Event::spec_released(slot),
                None => None,
            }
            &&& slot_before is Some ==> slot_after == Some(Event::empty_view())
            &&& slot_before is None ==> slot_after is None
        },
        Err(e) => {
            &&& e@ == if all_valid(waits) {
                ErrorView::ResourceExhausted
            } else {
                ErrorView::InvalidHandle
            }
            &&& !all_valid(waits) || waits.len() > u32::MAX
            &&& slot_after == slot_before
        },
    }
}

/// Puts a submission together: resolves the events and names the call.
pub fn submit(
    command_queue: &CommandQueue,
    command: Command,
    message: &str,
    wait_list: Option<&EventList>,
    new_event: Option<&mut Event>,
) -> (r: Result<Submission, Error>)
    ensures
        spec_submitted(
            r,
            *command_queue,
            command,
            message@,
            spec_waits(wait_list),
            match new_event {
                Some(slot) => Some((*slot)@),
                None => None,
            },
            match new_event {
                Some(slot) => Some(final(slot)@),
                None => None,
            },
        ),
{
    match resolve_event_ptrs(wait_list, new_event) {
        Ok(events) => Ok(
            Submission {
                queue: command_queue.ptr,
                command,
                events,
                message: String::from_str(message),
            },
        ),
        Err(e) => Err(e),
    }
}

impl Submission {
    /// Reads the code that the device answered the submission with.
    pub fn complete(&self, errcode: i32) -> (r: Result<(), Error>)
        ensures
            result_view(r) == spec_errcode_try(self.message@, errcode as int),
    {
        errcode_try(self.message.as_str(), errcode)
    }

    /// Reads the answer to a map command: the code, and the address that the
    /// memory was mapped to.
    pub fn complete_map(&self, errcode: i32, mapped_ptr: usize) -> (r: Result<usize, Error>)
        ensures
            result_view(r) == match spec_errcode_try(self.message@, errcode as int) {
                Ok(()) => Ok(mapped_ptr),
                Err(e) => Err(e),
            },
    {
        match errcode_try(self.message.as_str(), errcode) {
            Ok(()) => Ok(mapped_ptr),
            Err(e) => Err(e),
        }
    }
}

/// Describes a read from the device memory `buffer` into `data`, `offset`
/// bytes into the buffer.
///
/// See [`spec_submitted`] for when this succeeds and what is handed back.
/// A size in bytes that does not fit the machine is refused with
/// `ResourceExhausted` before anything else is looked at.
pub fn enqueue_read_buffer<T>(
    command_queue: &CommandQueue,
    buffer: &Mem,
    block: bool,
    offset: usize,
    data: &[T],
    wait_list: Option<&EventList>,
    new_event: Option<&mut Event>,
) -> (r: Result<Submission, Error>)
    ensures
        match spec_byte_len(data@.len(), size_of::<T>()) {
            Some(size) => spec_submitted(
                r,
                *command_queue,
                Command::ReadBuffer { buffer: buffer.ptr, blocking: spec_cl_bool(block), offset, size },
                "clEnqueueReadBuffer()"@,
                spec_waits(wait_list),
                match new_event {
                    Some(slot) => Some((*slot)@),
                    None => None,
                },
                match new_event {
                    Some(slot) => Some(final(slot)@),
                    None => None,
                },
            ),
            None => {
                &&& r matches Err(e) && e@ == ErrorView::ResourceExhausted
                &&& new_event matches Some(slot) ==> *final(slot) == *slot
            },
        },
{
    let size = match byte_len::<T>(data.len()) {
        Some(size) => size,
        None => {
            return Err(Error::ResourceExhausted);
        },
    };
    submit(command_queue, Command::ReadBuffer { buffer: buffer.ptr, blocking: cl_bool(block), offset, size }, "clEnqueueReadBuffer()", wait_list, new_event)
}

/// Describes a read of a rectangular region of `buffer` into host memory.
///
/// See [`spec_submitted`] for when this succeeds and what is handed back.
pub fn enqueue_read_buffer_rect(
    command_queue: &CommandQueue,
    buffer: &Mem,
    block: bool,
    buffer_origin: [usize; 3],
    host_origin: [usize; 3],
    region: [usize; 3],
    buffer_row_pitch: usize,
    buffer_slc_pitch: usize,
    host_row_pitch: usize,
    host_slc_pitch: usize,
    wait_list: Option<&EventList>,
    new_event: Option<&mut Event>,
) -> (r: Result<Submission, Error>)
    ensures
        spec_submitted(
            r,
            *command_queue,
            Command::ReadBufferRect { buffer: buffer.ptr, blocking: spec_cl_bool(block), buffer_origin, host_origin, region, buffer_row_pitch, buffer_slc_pitch, host_row_pitch, host_slc_pitch },
            "clEnqueueReadBufferRect()"@,
            spec_waits(wait_list),
            match new_event {
                Some(slot) => Some((*slot)@),
                None => None,
            },
            match new_event {
                Some(slot) => Some(final(slot)@),
                None => None,
            },
        ),
{
    submit(command_queue, Command::ReadBufferRect { buffer: buffer.ptr, blocking: cl_bool(block), buffer_origin, host_origin, region, buffer_row_pitch, buffer_slc_pitch, host_row_pitch, host_slc_pitch }, "clEnqueueReadBufferRect()", wait_list, new_event)
}

/// Describes a write from `data` to the device memory `buffer`, `offset`
/// bytes into the buffer.
///
/// See [`spec_submitted`] for when this succeeds and what is handed back.
/// A size in bytes that does not fit the machine is refused with
/// `ResourceExhausted` before anything else is looked at.
pub fn enqueue_write_buffer<T>(
    command_queue: &CommandQueue,
    buffer: &Mem,
    block: bool,
    offset: usize,
    data: &[T],
    wait_list: Option<&EventList>,
    new_event: Option<&mut Event>,
) -> (r: Result<Submission, Error>)
    ensures
        match spec_byte_len(data@.len(), size_of::<T>()) {
            Some(size) => spec_submitted(
                r,
                *command_queue,
                Command::WriteBuffer { buffer: buffer.ptr, blocking: spec_cl_bool(block), offset, size },
                "clEnqueueWriteBuffer()"@,
                spec_waits(wait_list),
                match new_event {
                    Some(slot) => Some((*slot)@),
                    None => None,
                },
                match new_event {
                    Some(slot) => Some(final(slot)@),
                    None => None,
                },
            ),
            None => {
                &&& r matches Err(e) && e@ == ErrorView::ResourceExhausted
                &&& new_event matches Some(slot) ==> *final(slot) == *slot
            },
        },
{
    let size = match byte_len::<T>(data.len()) {
        Some(size) => size,
        None => {
            return Err(Error::ResourceExhausted);
        },
    };
    submit(command_queue, Command::WriteBuffer { buffer: buffer.ptr, blocking: cl_bool(block), offset, size }, "clEnqueueWriteBuffer()", wait_list, new_event)
}

/// Describes a write of a rectangular region from host memory to `buffer`.
///
/// See [`spec_submitted`] for when this succeeds and what is handed back.
pub fn enqueue_write_buffer_rect(
    command_queue: &CommandQueue,
    buffer: &Mem,
    block: bool,
    buffer_origin: [usize; 3],
    host_origin: [usize; 3],
    region: [usize; 3],
    buffer_row_pitch: usize,
    buffer_slc_pitch: usize,
    host_row_pitch: usize,
    host_slc_pitch: usize,
    wait_list: Option<&EventList>,
    new_event: Option<&mut Event>,
) -> (r: Result<Submission, Error>)
    ensures
        spec_submitted(
            r,
            *command_queue,
            Command::WriteBufferRect { buffer: buffer.ptr, blocking: spec_cl_bool(block), buffer_origin, host_origin, region, buffer_row_pitch, buffer_slc_pitch, host_row_pitch, host_slc_pitch },
            "clEnqueueWriteBufferRect()"@,
            spec_waits(wait_list),
            match new_event {
                Some(slot) => Some((*slot)@),
                None => None,
            },
            match new_event {
                Some(slot) => Some(final(slot)@),
                None => None,
            },
        ),
{
    submit(command_queue, Command::WriteBufferRect { buffer: buffer.ptr, blocking: cl_bool(block), buffer_origin, host_origin, region, buffer_row_pitch, buffer_slc_pitch, host_row_pitch, host_slc_pitch }, "clEnqueueWriteBufferRect()", wait_list, new_event)
}

/// Describes the filling of `size` bytes of `buffer`, from `offset` on, with
/// a pattern of `pattern_size` bytes.
///
/// See [`spec_submitted`] for when this succeeds and what is handed back.
pub fn enqueue_fill_buffer(
    command_queue: &CommandQueue,
    buffer: &Mem,
    pattern_size: usize,
    offset: usize,
    size: usize,
    wait_list: Option<&EventList>,
    new_event: Option<&mut Event>,
) -> (r: Result<Submission, Error>)
    ensures
        spec_submitted(
            r,
            *command_queue,
            Command::FillBuffer { buffer: buffer.ptr, pattern_size, offset, size },
            "clEnqueueFillBuffer()"@,
            spec_waits(wait_list),
            match new_event {
                Some(slot) => Some((*slot)@),
                None => None,
            },
            match new_event {
                Some(slot) => Some(final(slot)@),
                None => None,
            },
        ),
{
    submit(command_queue, Command::FillBuffer { buffer: buffer.ptr, pattern_size, offset, size }, "clEnqueueFillBuffer()", wait_list, new_event)
}

/// Describes a copy of a rectangular region from one buffer to another.
///
/// See [`spec_submitted`] for when this succeeds and what is handed back.
pub fn enqueue_copy_buffer_rect(
    command_queue: &CommandQueue,
    src_buffer: &Mem,
    dst_buffer: &Mem,
    src_origin: [usize; 3],
    dst_origin: [usize; 3],
    region: [usize; 3],
    src_row_pitch: usize,
    src_slc_pitch: usize,
    dst_row_pitch: usize,
    dst_slc_pitch: usize,
    wait_list: Option<&EventList>,
    new_event: Option<&mut Event>,
) -> (r: Result<Submission, Error>)
    ensures
        spec_submitted(
            r,
            *command_queue,
            Command::CopyBufferRect { src_buffer: src_buffer.ptr, dst_buffer: dst_buffer.ptr, src_origin, dst_origin, region, src_row_pitch, src_slc_pitch, dst_row_pitch, dst_slc_pitch },
            "clEnqueueCopyBufferRect()"@,
            spec_waits(wait_list),
            match new_event {
                Some(slot) => Some((*slot)@),
                None => None,
            },
            match new_event {
                Some(slot) => Some(final(slot)@),
                None => None,
            },
        ),
{
    submit(command_queue, Command::CopyBufferRect { src_buffer: src_buffer.ptr, dst_buffer: dst_buffer.ptr, src_origin, dst_origin, region, src_row_pitch, src_slc_pitch, dst_row_pitch, dst_slc_pitch }, "clEnqueueCopyBufferRect()", wait_list, new_event)
}

/// Describes a read of a region of `image` into host memory.
///
/// See [`spec_submitted`] for when this succeeds and what is handed back.
pub fn enqueue_read_image(
    command_queue: &CommandQueue,
    image: &Mem,
    block: bool,
    origin: [usize; 3],
    region: [usize; 3],
    row_pitch: usize,
    slc_pitch: usize,
    wait_list: Option<&EventList>,
    new_event: Option<&mut Event>,
) -> (r: Result<Submission, Error>)
    ensures
        spec_submitted(
            r,
            *command_queue,
            Command::ReadImage { image: image.ptr, blocking: spec_cl_bool(block), origin, region, row_pitch, slc_pitch },
            "clEnqueueReadImage()"@,
            spec_waits(wait_list),
            match new_event {
                Some(slot) => Some((*slot)@),
                None => None,
            },
            match new_event {
                Some(slot) => Some(final(slot)@),
                None => None,
            },
        ),
{
    submit(command_queue, Command::ReadImage { image: image.ptr, blocking: cl_bool(block), origin, region, row_pitch, slc_pitch }, "clEnqueueReadImage()", wait_list, new_event)
}

/// Describes a write from host memory to a region of `image`.
///
/// See [`spec_submitted`] for when this succeeds and what is handed back.
pub fn enqueue_write_image(
    command_queue: &CommandQueue,
    image: &Mem,
    block: bool,
    origin: [usize; 3],
    region: [usize; 3],
    input_row_pitch: usize,
    input_slc_pitch: usize,
    wait_list: Option<&EventList>,
    new_event: Option<&mut Event>,
) -> (r: Result<Submission, Error>)
    ensures
        spec_submitted(
            r,
            *command_queue,
            Command::WriteImage { image: image.ptr, blocking: spec_cl_bool(block), origin, region, input_row_pitch, input_slc_pitch },
            "clEnqueueWriteImage()"@,
            spec_waits(wait_list),
            match new_event {
                Some(slot) => Some((*slot)@),
                None => None,
            },
            match new_event {
                Some(slot) => Some(final(slot)@),
                None => None,
            },
        ),
{
    submit(command_queue, Command::WriteImage { image: image.ptr, blocking: cl_bool(block), origin, region, input_row_pitch, input_slc_pitch }, "clEnqueueWriteImage()", wait_list, new_event)
}

/// Describes the filling of a region of `image` with one colour.
///
/// See [`spec_submitted`] for when this succeeds and what is handed back.
pub fn enqueue_fill_image(
    command_queue: &CommandQueue,
    image: &Mem,
    origin: [usize; 3],
    region: [usize; 3],
    wait_list: Option<&EventList>,
    new_event: Option<&mut Event>,
) -> (r: Result<Submission, Error>)
    ensures
        spec_submitted(
            r,
            *command_queue,
            Command::FillImage { image: image.ptr, origin, region },
            "clEnqueueFillImage()"@,
            spec_waits(wait_list),
            match new_event {
                Some(slot) => Some((*slot)@),
                None => None,
            },
            match new_event {
                Some(slot) => Some(final(slot)@),
                None => None,
            },
        ),
{
    submit(command_queue, Command::FillImage { image: image.ptr, origin, region }, "clEnqueueFillImage()", wait_list, new_event)
}

/// Describes a copy of a region from one image to another.
///
/// See [`spec_submitted`] for when this succeeds and what is handed back.
pub fn enqueue_copy_image(
    command_queue: &CommandQueue,
    src_image: &Mem,
    dst_image: &Mem,
    src_origin: [usize; 3],
    dst_origin: [usize; 3],
    region: [usize; 3],
    wait_list: Option<&EventList>,
    new_event: Option<&mut Event>,
) -> (r: Result<Submission, Error>)
    ensures
        spec_submitted(
            r,
            *command_queue,
            Command::CopyImage { src_image: src_image.ptr, dst_image: dst_image.ptr, src_origin, dst_origin, region },
            "clEnqueueCopyImage()"@,
            spec_waits(wait_list),
            match new_event {
                Some(slot) => Some((*slot)@),
                None => None,
            },
            match new_event {
                Some(slot) => Some(final(slot)@),
                None => None,
            },
        ),
{
    submit(command_queue, Command::CopyImage { src_image: src_image.ptr, dst_image: dst_image.ptr, src_origin, dst_origin, region }, "clEnqueueCopyImage()", wait_list, new_event)
}

/// Describes a copy of a region of an image into a buffer.
///
/// See [`spec_submitted`] for when this succeeds and what is handed back.
pub fn enqueue_copy_image_to_buffer(
    command_queue: &CommandQueue,
    src_image: &Mem,
    dst_buffer: &Mem,
    src_origin: [usize; 3],
    region: [usize; 3],
    dst_offset: usize,
    wait_list: Option<&EventList>,
    new_event: Option<&mut Event>,
) -> (r: Result<Submission, Error>)
    ensures
        spec_submitted(
            r,
            *command_queue,
            Command::CopyImageToBuffer { src_image: src_image.ptr, dst_buffer: dst_buffer.ptr, src_origin, region, dst_offset },
            "clEnqueueCopyImageToBuffer()"@,
            spec_waits(wait_list),
            match new_event {
                Some(slot) => Some((*slot)@),
                None => None,
            },
            match new_event {
                Some(slot) => Some(final(slot)@),
                None => None,
            },
        ),
{
    submit(command_queue, Command::CopyImageToBuffer { src_image: src_image.ptr, dst_buffer: dst_buffer.ptr, src_origin, region, dst_offset }, "clEnqueueCopyImageToBuffer()", wait_list, new_event)
}

/// Describes a copy from a buffer into a region of an image.
///
/// See [`spec_submitted`] for when this succeeds and what is handed back.
pub fn enqueue_copy_buffer_to_image(
    command_queue: &CommandQueue,
    src_buffer: &Mem,
    dst_image: &Mem,
    src_offset: usize,
    dst_origin: [usize; 3],
    region: [usize; 3],
    wait_list: Option<&EventList>,
    new_event: Option<&mut Event>,
) -> (r: Result<Submission, Error>)
    ensures
        spec_submitted(
            r,
            *command_queue,
            Command::CopyBufferToImage { src_buffer: src_buffer.ptr, dst_image: dst_image.ptr, src_offset, dst_origin, region },
            "clEnqueueCopyBufferToImage()"@,
            spec_waits(wait_list),
            match new_event {
                Some(slot) => Some((*slot)@),
                None => None,
            },
            match new_event {
                Some(slot) => Some(final(slot)@),
                None => None,
            },
        ),
{
    submit(command_queue, Command::CopyBufferToImage { src_buffer: src_buffer.ptr, dst_image: dst_image.ptr, src_offset, dst_origin, region }, "clEnqueueCopyBufferToImage()", wait_list, new_event)
}

/// Describes the mapping of `size` bytes of `buffer`, from `offset` on, into
/// host memory. The address comes with the device's answer: see
/// [`Submission::complete_map`].
///
/// See [`spec_submitted`] for when this succeeds and what is handed back.
pub fn enqueue_map_buffer(
    command_queue: &CommandQueue,
    buffer: &Mem,
    block: bool,
    map_flags: u64,
    offset: usize,
    size: usize,
    wait_list: Option<&EventList>,
    new_event: Option<&mut Event>,
) -> (r: Result<Submission, Error>)
    ensures
        spec_submitted(
            r,
            *command_queue,
            Command::MapBuffer { buffer: buffer.ptr, blocking: spec_cl_bool(block), map_flags, offset, size },
            "clEnqueueMapBuffer()"@,
            spec_waits(wait_list),
            match new_event {
                Some(slot) => Some((*slot)@),
                None => None,
            },
            match new_event {
                Some(slot) => Some(final(slot)@),
                None => None,
            },
        ),
{
    submit(command_queue, Command::MapBuffer { buffer: buffer.ptr, blocking: cl_bool(block), map_flags, offset, size }, "clEnqueueMapBuffer()", wait_list, new_event)
}

/// Describes the mapping of a region of `image` into host memory. The
/// address comes with the device's answer: see
/// [`Submission::complete_map`].
///
/// See [`spec_submitted`] for when this succeeds and what is handed back.
pub fn enqueue_map_image(
    command_queue: &CommandQueue,
    image: &Mem,
    block: bool,
    map_flags: u64,
    origin: [usize; 3],
    region: [usize; 3],
    row_pitch: usize,
    slc_pitch: usize,
    wait_list: Option<&EventList>,
    new_event: Option<&mut Event>,
) -> (r: Result<Submission, Error>)
    ensures
        spec_submitted(
            r,
            *command_queue,
            Command::MapImage { image: image.ptr, blocking: spec_cl_bool(block), map_flags, origin, region, row_pitch, slc_pitch },
            "clEnqueueMapImage()"@,
            spec_waits(wait_list),
            match new_event {
                Some(slot) => Some((*slot)@),
                None => None,
            },
            match new_event {
                Some(slot) => Some(final(slot)@),
                None => None,
            },
        ),
{
    submit(command_queue, Command::MapImage { image: image.ptr, blocking: cl_bool(block), map_flags, origin, region, row_pitch, slc_pitch }, "clEnqueueMapImage()", wait_list, new_event)
}

/// Describes the unmapping of a region of `memobj` that was mapped to
/// `mapped_ptr`.
///
/// See [`spec_submitted`] for when this succeeds and what is handed back.
pub fn enqueue_unmap_mem_object(
    command_queue: &CommandQueue,
    memobj: &Mem,
    mapped_ptr: usize,
    wait_list: Option<&EventList>,
    new_event: Option<&mut Event>,
) -> (r: Result<Submission, Error>)
    ensures
        spec_submitted(
            r,
            *command_queue,
            Command::UnmapMemObject { memobj: memobj.ptr, mapped_ptr },
            "clEnqueueUnmapMemObject()"@,
            spec_waits(wait_list),
            match new_event {
                Some(slot) => Some((*slot)@),
                None => None,
            },
            match new_event {
                Some(slot) => Some(final(slot)@),
                None => None,
            },
        ),
{
    submit(command_queue, Command::UnmapMemObject { memobj: memobj.ptr, mapped_ptr }, "clEnqueueUnmapMemObject()", wait_list, new_event)
}

/// Describes a marker: a command that completes when the events it waits
/// for have, or, with none to wait for, when all earlier commands have.
///
/// See [`spec_submitted`] for when this succeeds and what is handed back.
pub fn enqueue_marker_with_wait_list(
    command_queue: &CommandQueue,
    wait_list: Option<&EventList>,
    new_event: Option<&mut Event>,
) -> (r: Result<Submission, Error>)
    ensures
        spec_submitted(
            r,
            *command_queue,
            Command::Marker,
            "clEnqueueMarkerWithWaitList()"@,
            spec_waits(wait_list),
            match new_event {
                Some(slot) => Some((*slot)@),
                None => None,
            },
            match new_event {
                Some(slot) => Some(final(slot)@),
                None => None,
            },
        ),
{
    submit(command_queue, Command::Marker, "clEnqueueMarkerWithWaitList()", wait_list, new_event)
}

/// Describes a barrier: a point that later commands of the queue do not
/// pass before the events waited for have completed.
///
/// See [`spec_submitted`] for when this succeeds and what is handed back.
pub fn enqueue_barrier_with_wait_list(
    command_queue: &CommandQueue,
    wait_list: Option<&EventList>,
    new_event: Option<&mut Event>,
) -> (r: Result<Submission, Error>)
    ensures
        spec_submitted(
            r,
            *command_queue,
            Command::Barrier,
            "clEnqueueBarrierWithWaitList()"@,
            spec_waits(wait_list),
            match new_event {
                Some(slot) => Some((*slot)@),
                None => None,
            },
            match new_event {
                Some(slot) => Some(final(slot)@),
                None => None,
            },
        ),
{
    submit(command_queue, Command::Barrier, "clEnqueueBarrierWithWaitList()", wait_list, new_event)
}

/// Describes a copy of `len_copy_bytes` bytes from one buffer to another. It
/// waits for no event and has none of its own.
pub fn enqueue_copy_buffer(
    command_queue: &CommandQueue,
    src_buffer: &Mem,
    dst_buffer: &Mem,
    src_offset: usize,
    dst_offset: usize,
    len_copy_bytes: usize,
) -> (s: Submission)
    ensures
        spec_submitted(
            Ok(s),
            *command_queue,
            Command::CopyBuffer {
                src_buffer: src_buffer.ptr,
                dst_buffer: dst_buffer.ptr,
                src_offset,
                dst_offset,
                size: len_copy_bytes,
            },
            "clEnqueueCopyBuffer()"@,
            Seq::empty(),
            None,
            None,
        ),
{
    Submission {
        queue: command_queue.ptr,
        command: Command::CopyBuffer {
            src_buffer: src_buffer.ptr,
            dst_buffer: dst_buffer.ptr,
            src_offset,
            dst_offset,
            size: len_copy_bytes,
        },
        events: ResolvedEventPtrs {
            wait_list_len: 0,
            wait_list: None,
            new_event: false,
            released: None,
        },
        message: String::from_str("clEnqueueCopyBuffer()"),
    }
}

/// The handles of memory objects, in order.
pub open spec fn spec_mem_ptrs(mem_objects: Seq<Mem>) -> Seq<usize> {
    Seq::new(mem_objects.len(), |i: int| mem_objects[i].ptr)
}

/// Describes the migration of memory objects to the device of the queue:
/// of the first `num_mem_objects` objects of the handles handed over.
///
/// See [`spec_submitted`] for when this succeeds and what is handed back.
pub fn enqueue_migrate_mem_objects(
    command_queue: &CommandQueue,
    num_mem_objects: u32,
    mem_objects: &[Mem],
    flags: u64,
    wait_list: Option<&EventList>,
    new_event: Option<&mut Event>,
) -> (r: Result<Submission, Error>)
    ensures
        match r {
            Ok(s) => s.command matches Command::MigrateMemObjects {
                num_mem_objects: n,
                mem_objects: ptrs,
                flags: f,
            } && n == num_mem_objects && f == flags && ptrs@ == spec_mem_ptrs(mem_objects@)
                && spec_submitted(
                r,
                *command_queue,
                s.command,
                "clEnqueueMigrateMemObjects()"@,
                spec_waits(wait_list),
                match new_event {
                    Some(slot) => Some((*slot)@),
                    None => None,
                },
                match new_event {
                    Some(slot) => Some(final(slot)@),
                    None => None,
                },
            ),
            Err(_) => spec_submitted(
                r,
                *command_queue,
                Command::Marker,
                "clEnqueueMigrateMemObjects()"@,
                spec_waits(wait_list),
                match new_event {
                    Some(slot) => Some((*slot)@),
                    None => None,
                },
                match new_event {
                    Some(slot) => Some(final(slot)@),
                    None => None,
                },
            ),
        },
{
    let mut ptrs: Vec<usize> = Vec::new();
    let mut i: usize = 0;
    while i < mem_objects.len()
        invariant
            i <= mem_objects@.len(),
            ptrs@ == spec_mem_ptrs(mem_objects@.take(i as int)),
        decreases mem_objects@.len() - i,
    {
        ptrs.push(mem_objects[i].ptr);
        i += 1;
        assert(ptrs@ =~= spec_mem_ptrs(mem_objects@.take(i as int)));
    }
    assert(mem_objects@.take(i as int) =~= mem_objects@);
    submit(
        command_queue,
        Command::MigrateMemObjects { num_mem_objects, mem_objects: ptrs, flags },
        "clEnqueueMigrateMemObjects()",
        wait_list,
        new_event,
    )
}

/// The name that a kernel goes by in messages: the one given, or none.
pub open spec fn spec_kernel_name(kernel_name: Option<&str>) -> Seq<char> {
    match kernel_name {
        Some(name) => name@,
        None => Seq::empty(),
    }
}

/// The words that name a call on behalf of a kernel: the call, then the
/// kernel's name in quotes and brackets, then a colon.
pub open spec fn spec_kernel_message(call: Seq<char>, kernel_name: Option<&str>) -> Seq<char> {
    call + "('"@ + spec_kernel_name(kernel_name) + "'):"@
}

/// The words that name a call on behalf of a kernel.
pub fn kernel_message(call: &str, kernel_name: Option<&str>) -> (r: String)
    ensures
        r@ == spec_kernel_message(call@, kernel_name),
{
    let mut s = String::from_str(call);
    s.append("('");
    match kernel_name {
        Some(name) => {
            s.append(name);
        },
        None => {
            assert(s@ + Seq::<char>::empty() =~= s@);
        },
    }
    s.append("'):");
    s
}

/// Describes the execution of a kernel over a range of work items.
///
/// See [`spec_submitted`] for when this succeeds and what is handed back.
pub fn enqueue_kernel(
    command_queue: &CommandQueue,
    kernel: &Kernel,
    work_dims: u32,
    global_work_offset: Option<[usize; 3]>,
    global_work_dims: [usize; 3],
    local_work_dims: Option<[usize; 3]>,
    wait_list: Option<&EventList>,
    new_event: Option<&mut Event>,
    kernel_name: Option<&str>,
) -> (r: Result<Submission, Error>)
    ensures
        spec_submitted(
            r,
            *command_queue,
            Command::NDRangeKernel {
                kernel: kernel.ptr,
                work_dims,
                global_work_offset,
                global_work_dims,
                local_work_dims,
            },
            spec_kernel_message("clEnqueueNDRangeKernel"@, kernel_name),
            spec_waits(wait_list),
            match new_event {
                Some(slot) => Some((*slot)@),
                None => None,
            },
            match new_event {
                Some(slot) => Some(final(slot)@),
                None => None,
            },
        ),
{
    let message = kernel_message("clEnqueueNDRangeKernel", kernel_name);
    submit(
        command_queue,
        Command::NDRangeKernel {
            kernel: kernel.ptr,
            work_dims,
            global_work_offset,
            global_work_dims,
            local_work_dims,
        },
        message.as_str(),
        wait_list,
        new_event,
    )
}

/// Describes the execution of a kernel by a single work item.
///
/// See [`spec_submitted`] for when this succeeds and what is handed back.
pub fn enqueue_task(
    command_queue: &CommandQueue,
    kernel: &Kernel,
    wait_list: Option<&EventList>,
    new_event: Option<&mut Event>,
    kernel_name: Option<&str>,
) -> (r: Result<Submission, Error>)
    ensures
        spec_submitted(
            r,
            *command_queue,
            Command::Task { kernel: kernel.ptr },
            spec_kernel_message("clEnqueueTask"@, kernel_name),
            spec_waits(wait_list),
            match new_event {
                Some(slot) => Some((*slot)@),
                None => None,
            },
            match new_event {
                Some(slot) => Some(final(slot)@),
                None => None,
            },
        ),
{
    let message = kernel_message("clEnqueueTask", kernel_name);
    submit(
        command_queue,
        Command::Task { kernel: kernel.ptr },
        message.as_str(),
        wait_list,
        new_event,
    )
}

/// An argument of a kernel, as far as its size and its kind go.
#[derive(Clone, Copy, Debug, PartialEq, Eq, Structural)]
pub enum KernelArg {
    /// A memory object.
    Mem(Mem),
    /// No memory object.
    MemNull,
    /// A sampler.
    Sampler(Sampler),
    /// No sampler.
    SamplerNull,
    /// One value of the element type.
    Scalar,
    /// So many values of the element type.
    Vector(usize),
    /// Local memory for so many values of the element type.
    Local(usize),
    /// So many bytes at an address of the caller's.
    UnsafePointer { size: usize, value: usize },
}

/// Where the value of a kernel argument is found.
#[derive(Clone, Copy, Debug, PartialEq, Eq, Structural)]
pub enum KernelArgValue {
    /// Nowhere: the null pointer.
    Null,
    /// In the handle that is given.
    Handle(usize),
    /// In the caller's own data.
    Data,
    /// At the address that is given.
    Address(usize),
}

/// The size in bytes of a handle of the device API.
pub open spec fn spec_handle_size() -> nat {
    size_of::<usize>()
}

/// The size and the place of the value of a kernel argument whose elements
/// take `elem` bytes each; `None` where the size is more than the machine
/// can count.
pub open spec fn spec_kernel_arg(arg: KernelArg, elem: nat) -> Option<(usize, KernelArgValue)> {
    match arg {
        KernelArg::Mem(mem) => Some((spec_handle_size() as usize, KernelArgValue::Handle(mem.ptr))),
        KernelArg::Sampler(sampler) => Some(
            (spec_handle_size() as usize, KernelArgValue::Handle(sampler.ptr)),
        ),
        KernelArg::Scalar => Some((elem as usize, KernelArgValue::Data)),
        KernelArg::Vector(len) => match spec_byte_len(len as nat, elem) {
            Some(size) => Some((size, KernelArgValue::Data)),
            None => None,
        },
        KernelArg::Local(len) => match spec_byte_len(len as nat, elem) {
            Some(size) => Some((size, KernelArgValue::Null)),
            None => None,
        },
        KernelArg::UnsafePointer { size, value } => Some((size, KernelArgValue::Address(value))),
        KernelArg::MemNull => Some((spec_handle_size() as usize, KernelArgValue::Null)),
        KernelArg::SamplerNull => Some((spec_handle_size() as usize, KernelArgValue::Null)),
    }
}

/// What is handed to the device to set one argument of a kernel.
#[derive(Clone, Debug, PartialEq, Eq)]
pub struct KernelArgCall {
    pub kernel: usize,
    pub arg_index: u32,
    pub arg_size: usize,
    pub arg_value: KernelArgValue,
    pub message: String,
}

/// Describes the setting of argument `arg_index` of `kernel` to `arg`, for a
/// kernel whose values are of type `T`. The size handed over is that of a
/// handle for a memory object or a sampler, present or not, that of `T`
/// for a scalar, and that of so many `T` for a vector or for local memory,
/// which has no value. A size that the machine cannot count is refused with
/// `ResourceExhausted`.
pub fn set_kernel_arg<T>(kernel: &Kernel, arg_index: u32, arg: KernelArg, name: Option<&str>) -> (r:
    Result<KernelArgCall, Error>)
    ensures
        match spec_kernel_arg(arg, size_of::<T>()) {
            Some((size, value)) => r matches Ok(call) && call.kernel == kernel.ptr && call.arg_index
                == arg_index && call.arg_size == size && call.arg_value == value && call.message@
                == spec_kernel_message("clSetKernelArg"@, name),
            None => r matches Err(e) && e@ == ErrorView::ResourceExhausted,
        },
{
    let handle_size = core::mem::size_of::<usize>();
    let elem = core::mem::size_of::<T>();
    let sized: Option<(usize, KernelArgValue)> = match arg {
        KernelArg::Mem(mem) => Some((handle_size, KernelArgValue::Handle(mem.ptr))),
        KernelArg::Sampler(sampler) => Some((handle_size, KernelArgValue::Handle(sampler.ptr))),
        KernelArg::Scalar => Some((elem, KernelArgValue::Data)),
        KernelArg::Vector(len) => match byte_len::<T>(len) {
            Some(size) => Some((size, KernelArgValue::Data)),
            None => None,
        },
        KernelArg::Local(len) => match byte_len::<T>(len) {
            Some(size) => Some((size, KernelArgValue::Null)),
            None => None,
        },
        KernelArg::UnsafePointer { size, value } => Some((size, KernelArgValue::Address(value))),
        KernelArg::MemNull => Some((handle_size, KernelArgValue::Null)),
        KernelArg::SamplerNull => Some((handle_size, KernelArgValue::Null)),
    };
    match sized {
        Some((arg_size, arg_value)) => Ok(
            KernelArgCall {
                kernel: kernel.ptr,
                arg_index,
                arg_size,
                arg_value,
                message: kernel_message("clSetKernelArg", name),
            },
        ),
        None => Err(Error::ResourceExhausted),
    }
}

/// The text that frames the build log of a program.
pub open spec fn spec_build_log_text(log: Seq<char>) -> Seq<char> {
    "\n\n###################### OPENCL PROGRAM BUILD DEBUG OUTPUT ######################\n\n"@
        + log
        + "\n###############################################################################\n\n"@
}

/// The first of the logs that holds more than its end mark, if any does.
pub open spec fn spec_first_log(logs: Seq<Vec<u8>>) -> Option<int>
    decreases logs.len(),
{
    if logs.len() == 0 {
        None
    } else {
        match spec_first_log(logs.drop_last()) {
            Some(i) => Some(i),
            None => if logs.last()@.len() > 1 {
                Some(logs.len() - 1)
            } else {
                None
            },
        }
    }
}

/// What one build log amounts to: no error if it holds no more than its end
/// mark, else the failure that carries the log in full; a log that is no
/// text is reported as such.
pub open spec fn spec_build_log(log: Seq<u8>) -> Result<(), ErrorView> {
    if log.len() <= 1 {
        Ok(())
    } else if valid_utf8(log) {
        Err(ErrorView::BuildFailure(spec_build_log_text(decode_utf8(log))))
    } else {
        Err(ErrorView::Message("The build log of the program is not valid UTF-8."@))
    }
}

/// What the build logs of a program, one for each device, amount to: no
/// error if none holds more than its end mark, else what the first such log
/// amounts to.
pub open spec fn spec_program_build_err(logs: Seq<Vec<u8>>) -> Result<(), ErrorView> {
    match spec_first_log(logs) {
        None => Ok(()),
        Some(i) => spec_build_log(logs[i]@),
    }
}

/// The text of `bytes` read as UTF-8, or `None` if they are not UTF-8.
/// `String::from_utf8` of the standard library does the reading: it accepts
/// exactly the byte sequences that are valid UTF-8 and gives the text that
/// they encode.
#[verifier::external_body]
fn string_from_utf8(bytes: Vec<u8>) -> (r: Option<String>)
    ensures
        r is Some <==> valid_utf8(bytes@),
        r matches Some(s) ==> s@ == decode_utf8(bytes@),
{
    String::from_utf8(bytes).ok()
}

/// Reads the build log of a program for one device: a log that holds more
/// than its end mark is a build failure, which carries the log in full.
pub fn build_log(log: Vec<u8>) -> (r: Result<(), Error>)
    ensures
        result_view(r) == spec_build_log(log@),
{
    if log.len() <= 1 {
        return Ok(());
    }
    match string_from_utf8(log) {
        Some(text) => {
            let mut s = String::from_str(
                "\n\n###################### OPENCL PROGRAM BUILD DEBUG OUTPUT ######################\n\n",
            );
            s.append(text.as_str());
            s.append(
                "\n###############################################################################\n\n",
            );
            Err(Error::BuildFailure(s))
        },
        None => Err(Error::message("The build log of the program is not valid UTF-8.")),
    }
}

/// What the answer to the query for one device's build log amounts to: the
/// error of the query if it failed, else what the log amounts to.
pub open spec fn spec_build_log_step(errcode: int, log: Seq<u8>) -> Result<(), ErrorView> {
    match spec_errcode_try("clGetProgramBuildInfo()"@, errcode) {
        Err(e) => Err(e),
        Ok(()) => spec_build_log(log),
    }
}

/// Reads the answer to the query for one device's build log: the code of
/// the query, and the log that it filled in. `Ok` tells the caller to go on
/// to the next device; an error ends the walk through the devices.
pub fn build_log_step(errcode: i32, log: Vec<u8>) -> (r: Result<(), Error>)
    ensures
        result_view(r) == spec_build_log_step(errcode as int, log@),
{
    match errcode_try("clGetProgramBuildInfo()", errcode) {
        Err(e) => Err(e),
        Ok(()) => build_log(log),
    }
}

/// If the program has a build log of any length for one of the devices, the
/// first such log is returned as a build failure.
pub fn program_build_err(build_logs: &Vec<Vec<u8>>) -> (r: Result<(), Error>)
    ensures
        result_view(r) == spec_program_build_err(build_logs@),
{
    let mut i: usize = 0;
    while i < build_logs.len()
        invariant
            i <= build_logs@.len(),
            spec_first_log(build_logs@.take(i as int)) is None,
        decreases build_logs@.len() - i,
    {
        proof {
            assert(build_logs@.take(i + 1).drop_last() =~= build_logs@.take(i as int));
            assert(build_logs@.take(i + 1).last() == build_logs@[i as int]);
        }
        if build_logs[i].len() > 1 {
            proof {
                assert(spec_first_log(build_logs@.take(i + 1)) == Some(i as int));
                lemma_first_log_extends(build_logs@, i + 1);
            }
            let log = build_logs[i].clone();
            assert(log@ == build_logs@[i as int]@);
            return build_log(log);
        }
        i += 1;
    }
    assert(build_logs@.take(i as int) =~= build_logs@);
    Ok(())
}

/// A log found among the first `n` is the first log of the whole.
pub proof fn lemma_first_log_extends(logs: Seq<Vec<u8>>, n: int)
    requires
        0 <= n <= logs.len(),
        spec_first_log(logs.take(n)) is Some,
    ensures
        spec_first_log(logs) == spec_first_log(logs.take(n)),
    decreases logs.len() - n,
{
    if n < logs.len() {
        assert(logs.take(n + 1).drop_last() =~= logs.take(n));
        lemma_first_log_extends(logs, n + 1);
    } else {
        assert(logs.take(n) =~= logs);
    }
}

/// Whether the answer to a build sends the caller to the build logs: a
/// negative code does.
pub open spec fn spec_build_wants_logs(errcode: int) -> bool {
    errcode < 0
}

/// Whether the answer to a build sends the caller to the build logs.
pub fn build_wants_logs(errcode: i32) -> (r: bool)
    ensures
        r == spec_build_wants_logs(errcode as int),
{
    errcode < 0
}

/// What the answer to a build of a program amounts to, given what the build
/// logs amount to. A build that answered with a negative code has failed:
/// the error is that of the logs, and where the logs hold none, that of the
/// code. Any other code is read as the code of the call, whatever the logs.
pub open spec fn spec_build_result(errcode: int, logs: Result<(), ErrorView>) -> Result<
    (),
    ErrorView,
> {
    if spec_build_wants_logs(errcode) {
        match logs {
            Err(e) => Err(e),
            Ok(()) => Err(spec_api_error("clBuildProgram()"@, errcode)),
        }
    } else {
        spec_errcode_try("clBuildProgram()"@, errcode)
    }
}

/// Reads the answer to a build of a program: the code of the call, and what
/// the walk through the build logs gave, which is asked for only where
/// [`build_wants_logs`] says so.
pub fn build_result(errcode: i32, logs: Result<(), Error>) -> (r: Result<(), Error>)
    ensures
        result_view(r) == spec_build_result(errcode as int, result_view(logs)),
{
    if build_wants_logs(errcode) {
        match logs {
            Err(e) => Err(e),
            Ok(()) => Err(api_error("clBuildProgram()", errcode)),
        }
    } else {
        errcode_try("clBuildProgram()", errcode)
    }
}

/// What the answer to a build of a program amounts to, given the build logs
/// of the program, one for each device.
pub open spec fn spec_build_program(errcode: int, logs: Seq<Vec<u8>>) -> Result<(), ErrorView> {
    spec_build_result(errcode, spec_program_build_err(logs))
}

/// Reads the answer to a build of a program: the code of the call, and the
/// build logs of the program, one for each device.
pub fn build_program(errcode: i32, build_logs: &Vec<Vec<u8>>) -> (r: Result<(), Error>)
    ensures
        result_view(r) == spec_build_program(errcode as int, build_logs@),
{
    let logs = program_build_err(build_logs);
    build_result(errcode, logs)
}

/// A build succeeds only if the device answered with the code of success:
/// every other code is an error, whatever the build logs hold.
pub proof fn lemma_failed_build_is_an_error(errcode: int, logs: Seq<Vec<u8>>)
    ensures
        spec_build_program(errcode, logs) is Ok <==> errcode == 0,
{
}

/// The number of devices to create a context for, or the reason why there
/// can be no context.
pub open spec fn spec_create_context(num_devices: nat) -> Result<u32, ErrorView> {
    if num_devices == 0 {
        Err(ErrorView::Message("ocl::core::create_context: No devices specified."@))
    } else if num_devices > u32::MAX {
        Err(ErrorView::ResourceExhausted)
    } else {
        Ok(num_devices as u32)
    }
}

/// Checks the devices that a context is to be created for, and counts them
/// for the device API. A context needs at least one device.
pub fn create_context(device_ids: &Vec<DeviceId>) -> (r: Result<u32, Error>)
    ensures
        result_view(r) == spec_create_context(device_ids@.len()),
{
    if device_ids.len() == 0 {
        Err(Error::message("ocl::core::create_context: No devices specified."))
    } else if device_ids.len() > u32::MAX as usize {
        Err(Error::ResourceExhausted)
    } else {
        Ok(device_ids.len() as u32)
    }
}

/// The answer to the first half of a query: the buffer to hand to the second
/// half, `size` bytes of `fill`.
pub open spec fn spec_info_buffer(message: Seq<char>, errcode: int, size: nat, fill: u8) -> Result<
    Seq<u8>,
    ErrorView,
> {
    match spec_errcode_try(message, errcode) {
        Err(e) => Err(e),
        Ok(()) => Ok(Seq::new(size, |i: int| fill)),
    }
}

/// A result with its bytes and its error taken by their views.
pub open spec fn bytes_view(r: Result<Vec<u8>, Error>) -> Result<Seq<u8>, ErrorView> {
    match r {
        Ok(bytes) => Ok(bytes@),
        Err(e) => Err(e@),
    }
}

/// Reads the answer to the first half of a query, which asked for the size
/// of the value, and makes the buffer for the second half.
pub fn info_buffer(message: &str, errcode: i32, size: usize, fill: u8) -> (r: Result<
    Vec<u8>,
    Error,
>)
    ensures
        bytes_view(r) == spec_info_buffer(message@, errcode as int, size as nat, fill),
{
    match errcode_try(message, errcode) {
        Err(e) => Err(e),
        Ok(()) => {
            let mut buffer: Vec<u8> = Vec::new();
            let mut i: usize = 0;
            while i < size
                invariant
                    i <= size,
                    buffer@ == Seq::new(i as nat, |j: int| fill),
                decreases size - i,
            {
                buffer.push(fill);
                i += 1;
                assert(buffer@ =~= Seq::new(i as nat, |j: int| fill));
            }
            Ok(buffer)
        },
    }
}

/// Reads the answer to the second half of a query, which filled the buffer.
pub fn info_result(message: &str, errcode: i32, value: Vec<u8>) -> (r: Result<Vec<u8>, Error>)
    ensures
        bytes_view(r) == match spec_errcode_try(message@, errcode as int) {
            Err(e) => Err(e),
            Ok(()) => Ok(value@),
        },
{
    match errcode_try(message, errcode) {
        Err(e) => Err(e),
        Ok(()) => Ok(value),
    }
}

/// Whether the size that a context reports for a piece of information shows
/// that the handle is no context: more than ten thousand bytes, or none at
/// all where the devices were asked for.
pub open spec fn spec_context_suspect(devices_requested: bool, result_size: nat) -> bool {
    result_size > 10000 || (result_size == 0 && devices_requested)
}

/// The answer to the first half of a query for information on a context.
pub open spec fn spec_context_info_buffer(
    devices_requested: bool,
    errcode: int,
    result_size: nat,
) -> Result<Seq<u8>, ErrorView> {
    match spec_errcode_try("clGetContextInfo"@, errcode) {
        Err(e) => Err(e),
        Ok(()) => if spec_context_suspect(devices_requested, result_size) {
            Err(
                ErrorView::Message(
                    "\n\nocl::core::context_info(): Possible invalid context detected. \nContext info result size is either '> 10k bytes' or '== 0'. Almost certainly an \ninvalid context object. If not, please file an issue at: \nhttps://github.com/cogciprocate/ocl/issues.\n\n"@,
                ),
            )
        } else {
            Ok(Seq::new(result_size, |i: int| 0u8))
        },
    }
}

/// Reads the answer to the first half of a query for information on a
/// context, and makes the buffer for the second half. The size is held
/// against what a context can report: see [`spec_context_suspect`].
pub fn get_context_info(devices_requested: bool, errcode: i32, result_size: usize) -> (r: Result<
    Vec<u8>,
    Error,
>)
    ensures
        bytes_view(r) == spec_context_info_buffer(
            devices_requested,
            errcode as int,
            result_size as nat,
        ),
{
    match errcode_try("clGetContextInfo", errcode) {
        Err(e) => Err(e),
        Ok(()) => {
            if result_size > 10000 || (result_size == 0 && devices_requested) {
                Err(
                    Error::message(
                        "\n\nocl::core::context_info(): Possible invalid context detected. \nContext info result size is either '> 10k bytes' or '== 0'. Almost certainly an \ninvalid context object. If not, please file an issue at: \nhttps://github.com/cogciprocate/ocl/issues.\n\n",
                    ),
                )
            } else {
                info_buffer("clGetContextInfo", 0, result_size, 0)
            }
        },
    }
}

/// Verifies that a handle is a context, by the answer to a query for its
/// devices.
pub fn verify_context(errcode: i32, result_size: usize) -> (r: Result<(), Error>)
    ensures
        result_view(r) == match spec_context_info_buffer(true, errcode as int, result_size as nat) {
            Ok(_) => Ok(()),
            Err(e) => Err(e),
        },
{
    match get_context_info(true, errcode, result_size) {
        Ok(_) => Ok(()),
        Err(e) => Err(e),
    }
}

/// The size in bytes of a new buffer of `len` elements of `elem` bytes,
/// which has to be as long as the data it is made from, if any.
pub open spec fn spec_create_buffer(len: nat, elem: nat, data_len: Option<nat>) -> Result<
    usize,
    ErrorView,
> {
    if data_len matches Some(n) && n != len {
        Err(ErrorView::Message("ocl::create_buffer: Data length mismatch."@))
    } else {
        match spec_byte_len(len, elem) {
            Some(size) => Ok(size),
            None => Err(ErrorView::ResourceExhausted),
        }
    }
}

/// Checks the request for a buffer of `len` elements of type `T`, made from
/// `data` if there is any, and gives its size in bytes.
pub fn create_buffer<T>(len: usize, data: Option<&[T]>) -> (r: Result<usize, Error>)
    ensures
        result_view(r) == spec_create_buffer(
            len as nat,
            size_of::<T>(),
            match data {
                Some(d) => Some(d@.len()),
                None => None,
            },
        ),
{
    match data {
        Some(d) => {
            if d.len() != len {
                return Err(Error::message("ocl::create_buffer: Data length mismatch."));
            }
        },
        None => {},
    }
    match byte_len::<T>(len) {
        Some(size) => Ok(size),
        None => Err(Error::ResourceExhausted),
    }
}

/// The lengths of binaries, in order.
pub open spec fn spec_lengths(binaries: Seq<Vec<u8>>) -> Seq<usize> {
    Seq::new(binaries.len(), |i: int| binaries[i]@.len() as usize)
}

/// Checks the binaries that a program is to be made from, one for each
/// device, and gives their lengths.
pub fn create_program_with_binary(devices: &[DeviceId], binaries: &Vec<Vec<u8>>) -> (r: Result<
    Vec<usize>,
    Error,
>)
    ensures
        match r {
            Ok(lengths) => devices@.len() > 0 && devices@.len() == binaries@.len() && lengths@
                == spec_lengths(binaries@),
            Err(e) => e@ == if devices@.len() == 0 {
                ErrorView::Message(
                    "ocl::create_program_with_binary: Length of 'devices' must be greater than zero."@,
                )
            } else {
                ErrorView::Message(
                    "ocl::create_program_with_binary: Length of 'devices' must equal the length of 'binaries' (e.g. one binary per device)."@,
                )
            } && (devices@.len() == 0 || devices@.len() != binaries@.len()),
        },
{
    if devices.len() == 0 {
        return Err(
            Error::message(
                "ocl::create_program_with_binary: Length of 'devices' must be greater than zero.",
            ),
        );
    }
    if devices.len() != binaries.len() {
        return Err(
            Error::message(
                "ocl::create_program_with_binary: Length of 'devices' must equal the length of 'binaries' (e.g. one binary per device).",
            ),
        );
    }
    let mut lengths: Vec<usize> = Vec::new();
    let mut i: usize = 0;
    while i < binaries.len()
        invariant
            i <= binaries@.len(),
            lengths@ == spec_lengths(binaries@.take(i as int)),
        decreases binaries@.len() - i,
    {
        lengths.push(binaries[i].len());
        i += 1;
        assert(lengths@ =~= spec_lengths(binaries@.take(i as int)));
    }
    assert(binaries@.take(i as int) =~= binaries@);
    Ok(lengths)
}

/// The words that name the loading of the binary for device `i`.
pub open spec fn spec_binary_message(i: int) -> Seq<char> {
    "clCreateProgramWithBinary: Device ["@ + crate::error::decimal(i) + "]"@
}

/// The first device whose binary was turned down, if any was.
pub open spec fn spec_first_failed(binary_status: Seq<i32>) -> Option<int>
    decreases binary_status.len(),
{
    if binary_status.len() == 0 {
        None
    } else {
        match spec_first_failed(binary_status.drop_last()) {
            Some(i) => Some(i),
            None => if binary_status.last() != 0 {
                Some(binary_status.len() - 1)
            } else {
                None
            },
        }
    }
}

/// What the answer to the making of a program from binaries amounts to: the
/// error of the call, else that of the first device whose binary was turned
/// down, else none.
pub open spec fn spec_binary_result(errcode: int, binary_status: Seq<i32>) -> Result<
    (),
    ErrorView,
> {
    match spec_errcode_try("clCreateProgramWithBinary"@, errcode) {
        Err(e) => Err(e),
        Ok(()) => match spec_first_failed(binary_status) {
            Some(i) => Err(spec_api_error(spec_binary_message(i), binary_status[i] as int)),
            None => Ok(()),
        },
    }
}

/// A failure found among the first `n` is the first failure of the whole.
pub proof fn lemma_first_failed_extends(binary_status: Seq<i32>, n: int)
    requires
        0 <= n <= binary_status.len(),
        spec_first_failed(binary_status.take(n)) is Some,
    ensures
        spec_first_failed(binary_status) == spec_first_failed(binary_status.take(n)),
    decreases binary_status.len() - n,
{
    if n < binary_status.len() {
        assert(binary_status.take(n + 1).drop_last() =~= binary_status.take(n));
        lemma_first_failed_extends(binary_status, n + 1);
    } else {
        assert(binary_status.take(n) =~= binary_status);
    }
}

/// Reads the answer to the making of a program from binaries: the code of
/// the call, and the status of each device's binary.
pub fn binary_status_result(errcode: i32, binary_status: &[i32]) -> (r: Result<(), Error>)
    ensures
        result_view(r) == spec_binary_result(errcode as int, binary_status@),
{
    match errcode_try("clCreateProgramWithBinary", errcode) {
        Err(e) => {
            return Err(e);
        },
        Ok(()) => {},
    }
    let mut i: usize = 0;
    while i < binary_status.len()
        invariant
            errcode == 0,
            i <= binary_status@.len(),
            spec_first_failed(binary_status@.take(i as int)) is None,
        decreases binary_status@.len() - i,
    {
        proof {
            assert(binary_status@.take(i + 1).drop_last() =~= binary_status@.take(i as int));
            assert(binary_status@.take(i + 1).last() == binary_status@[i as int]);
        }
        if binary_status[i] != 0 {
            proof {
                assert(spec_first_failed(binary_status@.take(i + 1)) == Some(i as int));
                lemma_first_failed_extends(binary_status@, i + 1);
            }
            let mut message = String::from_str("clCreateProgramWithBinary: Device [");
            crate::error::append_decimal_nat(&mut message, i as u64);
            message.append("]");
            assert(message@ =~= spec_binary_message(i as int));
            return Err(api_error(message.as_str(), binary_status[i]));
        }
        i += 1;
    }
    assert(binary_status@.take(i as int) =~= binary_status@);
    Ok(())
}

/// Get the first platform.
pub fn get_first_platform(platform_list: &Vec<PlatformId>) -> (r: Result<PlatformId, Error>)
    ensures
        result_view(r) == if platform_list@.len() == 0 {
            Err(ErrorView::Message("No platforms found!"@))
        } else {
            Ok(platform_list@[0])
        },
{
    if platform_list.len() == 0 {
        Err(Error::message("No platforms found!"))
    } else {
        Ok(platform_list[0])
    }
}

/// The buffer for the platforms that the device API counted: so many null
/// handles, for the second half of the query to fill.
pub fn get_platform_ids(errcode: i32, num_platforms: u32) -> (r: Result<Vec<PlatformId>, Error>)
    ensures
        match r {
            Ok(ids) => errcode == 0 && ids@ == Seq::new(
                num_platforms as nat,
                |i: int| PlatformId { ptr: 0 },
            ),
            Err(e) => Err::<(), ErrorView>(e@) == spec_errcode_try(
                "clGetPlatformIDs()"@,
                errcode as int,
            ),
        },
{
    match errcode_try("clGetPlatformIDs()", errcode) {
        Err(e) => Err(e),
        Ok(()) => {
            let mut ids: Vec<PlatformId> = Vec::new();
            let mut i: u32 = 0;
            while i < num_platforms
                invariant
                    i <= num_platforms,
                    ids@ == Seq::new(i as nat, |j: int| PlatformId { ptr: 0 }),
                decreases num_platforms - i,
            {
                ids.push(PlatformId::null());
                i += 1;
                assert(ids@ =~= Seq::new(i as nat, |j: int| PlatformId { ptr: 0 }));
            }
            Ok(ids)
        },
    }
}

/// The number of devices that a query has filled in: as many as the device
/// API says are available, but no more than there was room for.
pub open spec fn spec_devices_kept(room: nat, devices_available: nat) -> nat {
    if devices_available < room {
        devices_available
    } else {
        room
    }
}

/// Reads the answer to a query for the devices of a platform: the code, the
/// buffer of device handles that the query filled, and the number of devices
/// that are available. The handles that were filled in are kept.
pub fn get_device_ids(errcode: i32, device_ids: Vec<DeviceId>, devices_available: u32) -> (r:
    Result<Vec<DeviceId>, Error>)
    ensures
        match r {
            Ok(ids) => errcode == 0 && ids@ == device_ids@.take(
                spec_devices_kept(device_ids@.len(), devices_available as nat) as int,
            ),
            Err(e) => Err::<(), ErrorView>(e@) == spec_errcode_try(
                "clGetDeviceIDs()"@,
                errcode as int,
            ),
        },
{
    match errcode_try("clGetDeviceIDs()", errcode) {
        Err(e) => Err(e),
        Ok(()) => {
            let mut ids = device_ids;
            if (devices_available as usize) < ids.len() {
                ids.truncate(devices_available as usize);
            }
            assert(ids@ =~= device_ids@.take(
                spec_devices_kept(device_ids@.len(), devices_available as nat) as int,
            ));
            Ok(ids)
        },
    }
}

/// Reads the address that the device API gave for an extension function: a
/// null address means that there is no such function.
pub fn get_extension_function_address_for_platform(ext_fn: usize) -> (r: Result<usize, Error>)
    ensures
        result_view(r) == if ext_fn == 0 {
            Err(
                ErrorView::Message(
                    "The specified function does not exist for the implementation or 'platform' is not a valid platform."@,
                ),
            )
        } else {
            Ok(ext_fn)
        },
{
    if ext_fn == 0 {
        Err(
            Error::message(
                "The specified function does not exist for the implementation or 'platform' is not a valid platform.",
            ),
        )
    } else {
        Ok(ext_fn)
    }
}

} // verus!
