//! Handles of device objects, as the plain values the host passes around.
//!
//! A handle is the address that the device API gave for an object; zero is
//! the null handle, which denotes no object.

use vstd::prelude::*;

verus! {

/// A platform of the device API.
#[derive(Clone, Copy, Debug, PartialEq, Eq, Structural)]
pub struct PlatformId {
    pub ptr: usize,
}

/// A device of a platform.
#[derive(Clone, Copy, Debug, PartialEq, Eq, Structural)]
pub struct DeviceId {
    pub ptr: usize,
}

/// A context: the devices and the objects that commands may share.
#[derive(Clone, Copy, Debug, PartialEq, Eq, Structural)]
pub struct Context {
    pub ptr: usize,
}

/// A command queue of one device, in the context it was created in.
#[derive(Clone, Copy, Debug, PartialEq, Eq, Structural)]
pub struct CommandQueue {
    pub ptr: usize,
    pub context: Context,
}

/// A memory object: a buffer or an image.
#[derive(Clone, Copy, Debug, PartialEq, Eq, Structural)]
pub struct Mem {
    pub ptr: usize,
}

/// A sampler.
#[derive(Clone, Copy, Debug, PartialEq, Eq, Structural)]
pub struct Sampler {
    pub ptr: usize,
}

/// A program.
#[derive(Clone, Copy, Debug, PartialEq, Eq, Structural)]
pub struct Program {
    pub ptr: usize,
}

/// A kernel.
#[derive(Clone, Copy, Debug, PartialEq, Eq, Structural)]
pub struct Kernel {
    pub ptr: usize,
}

impl PlatformId {
    /// The null handle.
    pub fn null() -> (r: PlatformId)
        ensures
            r.ptr == 0,
    {
        PlatformId { ptr: 0 }
    }

    /// The handle that the device API gave.
    pub fn from_fresh_ptr(ptr: usize) -> (r: PlatformId)
        ensures
            r.ptr == ptr,
    {
        PlatformId { ptr }
    }

    /// The handle as the device API takes it.
    pub fn as_ptr(&self) -> (r: usize)
        ensures
            r == self.ptr,
    {
        self.ptr
    }
}

impl DeviceId {
    /// The null handle.
    pub fn null() -> (r: DeviceId)
        ensures
            r.ptr == 0,
    {
        DeviceId { ptr: 0 }
    }

    /// The handle that the device API gave.
    pub fn from_fresh_ptr(ptr: usize) -> (r: DeviceId)
        ensures
            r.ptr == ptr,
    {
        DeviceId { ptr }
    }

    /// The handle as the device API takes it.
    pub fn as_ptr(&self) -> (r: usize)
        ensures
            r == self.ptr,
    {
        self.ptr
    }
}

impl Context {
    /// The handle that the device API gave.
    pub fn from_fresh_ptr(ptr: usize) -> (r: Context)
        ensures
            r.ptr == ptr,
    {
        Context { ptr }
    }

    /// The handle as the device API takes it.
    pub fn as_ptr(&self) -> (r: usize)
        ensures
            r == self.ptr,
    {
        self.ptr
    }
}

impl CommandQueue {
    /// The queue with handle `ptr`, created in `context`.
    pub fn from_fresh_ptr(ptr: usize, context: Context) -> (r: CommandQueue)
        ensures
            r.ptr == ptr,
            r.context == context,
    {
        CommandQueue { ptr, context }
    }

    /// The handle as the device API takes it.
    pub fn as_ptr(&self) -> (r: usize)
        ensures
            r == self.ptr,
    {
        self.ptr
    }

    /// The context that the queue was created in.
    pub fn context(&self) -> (r: Context)
        ensures
            r == self.context,
    {
        self.context
    }

    /// Whether the two are one and the same queue of the device.
    pub fn is_same_queue(&self, other: &CommandQueue) -> (r: bool)
        ensures
            r == (self.ptr == other.ptr),
    {
        self.ptr == other.ptr
    }
}

impl Mem {
    /// The handle that the device API gave.
    pub fn from_fresh_ptr(ptr: usize) -> (r: Mem)
        ensures
            r.ptr == ptr,
    {
        Mem { ptr }
    }

    /// The handle as the device API takes it.
    pub fn as_ptr(&self) -> (r: usize)
        ensures
            r == self.ptr,
    {
        self.ptr
    }
}

impl Sampler {
    /// The handle that the device API gave.
    pub fn from_fresh_ptr(ptr: usize) -> (r: Sampler)
        ensures
            r.ptr == ptr,
    {
        Sampler { ptr }
    }

    /// The handle as the device API takes it.
    pub fn as_ptr(&self) -> (r: usize)
        ensures
            r == self.ptr,
    {
        self.ptr
    }
}

impl Program {
    /// The handle that the device API gave.
    pub fn from_fresh_ptr(ptr: usize) -> (r: Program)
        ensures
            r.ptr == ptr,
    {
        Program { ptr }
    }

    /// The handle as the device API takes it.
    pub fn as_ptr(&self) -> (r: usize)
        ensures
            r == self.ptr,
    {
        self.ptr
    }
}

impl Kernel {
    /// The handle that the device API gave.
    pub fn from_fresh_ptr(ptr: usize) -> (r: Kernel)
        ensures
            r.ptr == ptr,
    {
        Kernel { ptr }
    }

    /// The handle as the device API takes it.
    pub fn as_ptr(&self) -> (r: usize)
        ensures
            r == self.ptr,
    {
        self.ptr
    }
}

} // verus!
