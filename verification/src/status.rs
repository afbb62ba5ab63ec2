//! Status codes of the device API.
//!
//! Every call into the device API answers with a signed 32-bit code: zero for
//! success, a negative value for a failure. The codes that the API names are
//! gathered in [`Status`]; an event's execution status is a
//! [`CommandExecutionStatus`] while the command is healthy and a negative code
//! once it has failed, which [`EventStatus`] folds into the three states that
//! the rest of the library works with.

use vstd::prelude::*;

verus! {

/// The status codes that the device API names.
#[allow(non_camel_case_types)]
#[derive(Clone, Copy, Debug, PartialEq, Eq, Structural)]
pub enum Status {
    CL_SUCCESS,
    CL_DEVICE_NOT_FOUND,
    CL_DEVICE_NOT_AVAILABLE,
    CL_COMPILER_NOT_AVAILABLE,
    CL_MEM_OBJECT_ALLOCATION_FAILURE,
    CL_OUT_OF_RESOURCES,
    CL_OUT_OF_HOST_MEMORY,
    CL_PROFILING_INFO_NOT_AVAILABLE,
    CL_MEM_COPY_OVERLAP,
    CL_IMAGE_FORMAT_MISMATCH,
    CL_IMAGE_FORMAT_NOT_SUPPORTED,
    CL_BUILD_PROGRAM_FAILURE,
    CL_MAP_FAILURE,
    CL_MISALIGNED_SUB_BUFFER_OFFSET,
    CL_EXEC_STATUS_ERROR_FOR_EVENTS_IN_WAIT_LIST,
    CL_COMPILE_PROGRAM_FAILURE,
    CL_LINKER_NOT_AVAILABLE,
    CL_LINK_PROGRAM_FAILURE,
    CL_DEVICE_PARTITION_FAILED,
    CL_KERNEL_ARG_INFO_NOT_AVAILABLE,
    CL_INVALID_VALUE,
    CL_INVALID_DEVICE_TYPE,
    CL_INVALID_PLATFORM,
    CL_INVALID_DEVICE,
    CL_INVALID_CONTEXT,
    CL_INVALID_QUEUE_PROPERTIES,
    CL_INVALID_COMMAND_QUEUE,
    CL_INVALID_HOST_PTR,
    CL_INVALID_MEM_OBJECT,
    CL_INVALID_IMAGE_FORMAT_DESCRIPTOR,
    CL_INVALID_IMAGE_SIZE,
    CL_INVALID_SAMPLER,
    CL_INVALID_BINARY,
    CL_INVALID_BUILD_OPTIONS,
    CL_INVALID_PROGRAM,
    CL_INVALID_PROGRAM_EXECUTABLE,
    CL_INVALID_KERNEL_NAME,
    CL_INVALID_KERNEL_DEFINITION,
    CL_INVALID_KERNEL,
    CL_INVALID_ARG_INDEX,
    CL_INVALID_ARG_VALUE,
    CL_INVALID_ARG_SIZE,
    CL_INVALID_KERNEL_ARGS,
    CL_INVALID_WORK_DIMENSION,
    CL_INVALID_WORK_GROUP_SIZE,
    CL_INVALID_WORK_ITEM_SIZE,
    CL_INVALID_GLOBAL_OFFSET,
    CL_INVALID_EVENT_WAIT_LIST,
    CL_INVALID_EVENT,
    CL_INVALID_OPERATION,
    CL_INVALID_GL_OBJECT,
    CL_INVALID_BUFFER_SIZE,
    CL_INVALID_MIP_LEVEL,
    CL_INVALID_GLOBAL_WORK_SIZE,
    CL_INVALID_PROPERTY,
    CL_INVALID_IMAGE_DESCRIPTOR,
    CL_INVALID_COMPILER_OPTIONS,
    CL_INVALID_LINKER_OPTIONS,
    CL_INVALID_DEVICE_PARTITION_COUNT,
}

impl Status {
    /// The number that the device API uses for this status.
    pub open spec fn spec_code(self) -> int {
        match self {
            Status::CL_SUCCESS => 0,
            Status::CL_DEVICE_NOT_FOUND => -1,
            Status::CL_DEVICE_NOT_AVAILABLE => -2,
            Status::CL_COMPILER_NOT_AVAILABLE => -3,
            Status::CL_MEM_OBJECT_ALLOCATION_FAILURE => -4,
            Status::CL_OUT_OF_RESOURCES => -5,
            Status::CL_OUT_OF_HOST_MEMORY => -6,
            Status::CL_PROFILING_INFO_NOT_AVAILABLE => -7,
            Status::CL_MEM_COPY_OVERLAP => -8,
            Status::CL_IMAGE_FORMAT_MISMATCH => -9,
            Status::CL_IMAGE_FORMAT_NOT_SUPPORTED => -10,
            Status::CL_BUILD_PROGRAM_FAILURE => -11,
            Status::CL_MAP_FAILURE => -12,
            Status::CL_MISALIGNED_SUB_BUFFER_OFFSET => -13,
            Status::CL_EXEC_STATUS_ERROR_FOR_EVENTS_IN_WAIT_LIST => -14,
            Status::CL_COMPILE_PROGRAM_FAILURE => -15,
            Status::CL_LINKER_NOT_AVAILABLE => -16,
            Status::CL_LINK_PROGRAM_FAILURE => -17,
            Status::CL_DEVICE_PARTITION_FAILED => -18,
            Status::CL_KERNEL_ARG_INFO_NOT_AVAILABLE => -19,
            Status::CL_INVALID_VALUE => -30,
            Status::CL_INVALID_DEVICE_TYPE => -31,
            Status::CL_INVALID_PLATFORM => -32,
            Status::CL_INVALID_DEVICE => -33,
            Status::CL_INVALID_CONTEXT => -34,
            Status::CL_INVALID_QUEUE_PROPERTIES => -35,
            Status::CL_INVALID_COMMAND_QUEUE => -36,
            Status::CL_INVALID_HOST_PTR => -37,
            Status::CL_INVALID_MEM_OBJECT => -38,
            Status::CL_INVALID_IMAGE_FORMAT_DESCRIPTOR => -39,
            Status::CL_INVALID_IMAGE_SIZE => -40,
            Status::CL_INVALID_SAMPLER => -41,
            Status::CL_INVALID_BINARY => -42,
            Status::CL_INVALID_BUILD_OPTIONS => -43,
            Status::CL_INVALID_PROGRAM => -44,
            Status::CL_INVALID_PROGRAM_EXECUTABLE => -45,
            Status::CL_INVALID_KERNEL_NAME => -46,
            Status::CL_INVALID_KERNEL_DEFINITION => -47,
            Status::CL_INVALID_KERNEL => -48,
            Status::CL_INVALID_ARG_INDEX => -49,
            Status::CL_INVALID_ARG_VALUE => -50,
            Status::CL_INVALID_ARG_SIZE => -51,
            Status::CL_INVALID_KERNEL_ARGS => -52,
            Status::CL_INVALID_WORK_DIMENSION => -53,
            Status::CL_INVALID_WORK_GROUP_SIZE => -54,
            Status::CL_INVALID_WORK_ITEM_SIZE => -55,
            Status::CL_INVALID_GLOBAL_OFFSET => -56,
            Status::CL_INVALID_EVENT_WAIT_LIST => -57,
            Status::CL_INVALID_EVENT => -58,
            Status::CL_INVALID_OPERATION => -59,
            Status::CL_INVALID_GL_OBJECT => -60,
            Status::CL_INVALID_BUFFER_SIZE => -61,
            Status::CL_INVALID_MIP_LEVEL => -62,
            Status::CL_INVALID_GLOBAL_WORK_SIZE => -63,
            Status::CL_INVALID_PROPERTY => -64,
            Status::CL_INVALID_IMAGE_DESCRIPTOR => -65,
            Status::CL_INVALID_COMPILER_OPTIONS => -66,
            Status::CL_INVALID_LINKER_OPTIONS => -67,
            Status::CL_INVALID_DEVICE_PARTITION_COUNT => -68,
        }
    }

    /// The name of the constant, as a sequence of characters.
    pub open spec fn spec_name(self) -> Seq<char> {
        match self {
            Status::CL_SUCCESS => "CL_SUCCESS"@,
            Status::CL_DEVICE_NOT_FOUND => "CL_DEVICE_NOT_FOUND"@,
            Status::CL_DEVICE_NOT_AVAILABLE => "CL_DEVICE_NOT_AVAILABLE"@,
            Status::CL_COMPILER_NOT_AVAILABLE => "CL_COMPILER_NOT_AVAILABLE"@,
            Status::CL_MEM_OBJECT_ALLOCATION_FAILURE => "CL_MEM_OBJECT_ALLOCATION_FAILURE"@,
            Status::CL_OUT_OF_RESOURCES => "CL_OUT_OF_RESOURCES"@,
            Status::CL_OUT_OF_HOST_MEMORY => "CL_OUT_OF_HOST_MEMORY"@,
            Status::CL_PROFILING_INFO_NOT_AVAILABLE => "CL_PROFILING_INFO_NOT_AVAILABLE"@,
            Status::CL_MEM_COPY_OVERLAP => "CL_MEM_COPY_OVERLAP"@,
            Status::CL_IMAGE_FORMAT_MISMATCH => "CL_IMAGE_FORMAT_MISMATCH"@,
            Status::CL_IMAGE_FORMAT_NOT_SUPPORTED => "CL_IMAGE_FORMAT_NOT_SUPPORTED"@,
            Status::CL_BUILD_PROGRAM_FAILURE => "CL_BUILD_PROGRAM_FAILURE"@,
            Status::CL_MAP_FAILURE => "CL_MAP_FAILURE"@,
            Status::CL_MISALIGNED_SUB_BUFFER_OFFSET => "CL_MISALIGNED_SUB_BUFFER_OFFSET"@,
            Status::CL_EXEC_STATUS_ERROR_FOR_EVENTS_IN_WAIT_LIST => "CL_EXEC_STATUS_ERROR_FOR_EVENTS_IN_WAIT_LIST"@,
            Status::CL_COMPILE_PROGRAM_FAILURE => "CL_COMPILE_PROGRAM_FAILURE"@,
            Status::CL_LINKER_NOT_AVAILABLE => "CL_LINKER_NOT_AVAILABLE"@,
            Status::CL_LINK_PROGRAM_FAILURE => "CL_LINK_PROGRAM_FAILURE"@,
            Status::CL_DEVICE_PARTITION_FAILED => "CL_DEVICE_PARTITION_FAILED"@,
            Status::CL_KERNEL_ARG_INFO_NOT_AVAILABLE => "CL_KERNEL_ARG_INFO_NOT_AVAILABLE"@,
            Status::CL_INVALID_VALUE => "CL_INVALID_VALUE"@,
            Status::CL_INVALID_DEVICE_TYPE => "CL_INVALID_DEVICE_TYPE"@,
            Status::CL_INVALID_PLATFORM => "CL_INVALID_PLATFORM"@,
            Status::CL_INVALID_DEVICE => "CL_INVALID_DEVICE"@,
            Status::CL_INVALID_CONTEXT => "CL_INVALID_CONTEXT"@,
            Status::CL_INVALID_QUEUE_PROPERTIES => "CL_INVALID_QUEUE_PROPERTIES"@,
            Status::CL_INVALID_COMMAND_QUEUE => "CL_INVALID_COMMAND_QUEUE"@,
            Status::CL_INVALID_HOST_PTR => "CL_INVALID_HOST_PTR"@,
            Status::CL_INVALID_MEM_OBJECT => "CL_INVALID_MEM_OBJECT"@,
            Status::CL_INVALID_IMAGE_FORMAT_DESCRIPTOR => "CL_INVALID_IMAGE_FORMAT_DESCRIPTOR"@,
            Status::CL_INVALID_IMAGE_SIZE => "CL_INVALID_IMAGE_SIZE"@,
            Status::CL_INVALID_SAMPLER => "CL_INVALID_SAMPLER"@,
            Status::CL_INVALID_BINARY => "CL_INVALID_BINARY"@,
            Status::CL_INVALID_BUILD_OPTIONS => "CL_INVALID_BUILD_OPTIONS"@,
            Status::CL_INVALID_PROGRAM => "CL_INVALID_PROGRAM"@,
            Status::CL_INVALID_PROGRAM_EXECUTABLE => "CL_INVALID_PROGRAM_EXECUTABLE"@,
            Status::CL_INVALID_KERNEL_NAME => "CL_INVALID_KERNEL_NAME"@,
            Status::CL_INVALID_KERNEL_DEFINITION => "CL_INVALID_KERNEL_DEFINITION"@,
            Status::CL_INVALID_KERNEL => "CL_INVALID_KERNEL"@,
            Status::CL_INVALID_ARG_INDEX => "CL_INVALID_ARG_INDEX"@,
            Status::CL_INVALID_ARG_VALUE => "CL_INVALID_ARG_VALUE"@,
            Status::CL_INVALID_ARG_SIZE => "CL_INVALID_ARG_SIZE"@,
            Status::CL_INVALID_KERNEL_ARGS => "CL_INVALID_KERNEL_ARGS"@,
            Status::CL_INVALID_WORK_DIMENSION => "CL_INVALID_WORK_DIMENSION"@,
            Status::CL_INVALID_WORK_GROUP_SIZE => "CL_INVALID_WORK_GROUP_SIZE"@,
            Status::CL_INVALID_WORK_ITEM_SIZE => "CL_INVALID_WORK_ITEM_SIZE"@,
            Status::CL_INVALID_GLOBAL_OFFSET => "CL_INVALID_GLOBAL_OFFSET"@,
            Status::CL_INVALID_EVENT_WAIT_LIST => "CL_INVALID_EVENT_WAIT_LIST"@,
            Status::CL_INVALID_EVENT => "CL_INVALID_EVENT"@,
            Status::CL_INVALID_OPERATION => "CL_INVALID_OPERATION"@,
            Status::CL_INVALID_GL_OBJECT => "CL_INVALID_GL_OBJECT"@,
            Status::CL_INVALID_BUFFER_SIZE => "CL_INVALID_BUFFER_SIZE"@,
            Status::CL_INVALID_MIP_LEVEL => "CL_INVALID_MIP_LEVEL"@,
            Status::CL_INVALID_GLOBAL_WORK_SIZE => "CL_INVALID_GLOBAL_WORK_SIZE"@,
            Status::CL_INVALID_PROPERTY => "CL_INVALID_PROPERTY"@,
            Status::CL_INVALID_IMAGE_DESCRIPTOR => "CL_INVALID_IMAGE_DESCRIPTOR"@,
            Status::CL_INVALID_COMPILER_OPTIONS => "CL_INVALID_COMPILER_OPTIONS"@,
            Status::CL_INVALID_LINKER_OPTIONS => "CL_INVALID_LINKER_OPTIONS"@,
            Status::CL_INVALID_DEVICE_PARTITION_COUNT => "CL_INVALID_DEVICE_PARTITION_COUNT"@,
        }
    }

    /// The status that `code` names, if it names one.
    pub open spec fn spec_from_i32(code: int) -> Option<Status> {
        if code == 0 {
            Some(Status::CL_SUCCESS)
        } else if code == -1 {
            Some(Status::CL_DEVICE_NOT_FOUND)
        } else if code == -2 {
            Some(Status::CL_DEVICE_NOT_AVAILABLE)
        } else if code == -3 {
            Some(Status::CL_COMPILER_NOT_AVAILABLE)
        } else if code == -4 {
            Some(Status::CL_MEM_OBJECT_ALLOCATION_FAILURE)
        } else if code == -5 {
            Some(Status::CL_OUT_OF_RESOURCES)
        } else if code == -6 {
            Some(Status::CL_OUT_OF_HOST_MEMORY)
        } else if code == -7 {
            Some(Status::CL_PROFILING_INFO_NOT_AVAILABLE)
        } else if code == -8 {
            Some(Status::CL_MEM_COPY_OVERLAP)
        } else if code == -9 {
            Some(Status::CL_IMAGE_FORMAT_MISMATCH)
        } else if code == -10 {
            Some(Status::CL_IMAGE_FORMAT_NOT_SUPPORTED)
        } else if code == -11 {
            Some(Status::CL_BUILD_PROGRAM_FAILURE)
        } else if code == -12 {
            Some(Status::CL_MAP_FAILURE)
        } else if code == -13 {
            Some(Status::CL_MISALIGNED_SUB_BUFFER_OFFSET)
        } else if code == -14 {
            Some(Status::CL_EXEC_STATUS_ERROR_FOR_EVENTS_IN_WAIT_LIST)
        } else if code == -15 {
            Some(Status::CL_COMPILE_PROGRAM_FAILURE)
        } else if code == -16 {
            Some(Status::CL_LINKER_NOT_AVAILABLE)
        } else if code == -17 {
            Some(Status::CL_LINK_PROGRAM_FAILURE)
        } else if code == -18 {
            Some(Status::CL_DEVICE_PARTITION_FAILED)
        } else if code == -19 {
            Some(Status::CL_KERNEL_ARG_INFO_NOT_AVAILABLE)
        } else if code == -30 {
            Some(Status::CL_INVALID_VALUE)
        } else if code == -31 {
            Some(Status::CL_INVALID_DEVICE_TYPE)
        } else if code == -32 {
            Some(Status::CL_INVALID_PLATFORM)
        } else if code == -33 {
            Some(Status::CL_INVALID_DEVICE)
        } else if code == -34 {
            Some(Status::CL_INVALID_CONTEXT)
        } else if code == -35 {
            Some(Status::CL_INVALID_QUEUE_PROPERTIES)
        } else if code == -36 {
            Some(Status::CL_INVALID_COMMAND_QUEUE)
        } else if code == -37 {
            Some(Status::CL_INVALID_HOST_PTR)
        } else if code == -38 {
            Some(Status::CL_INVALID_MEM_OBJECT)
        } else if code == -39 {
            Some(Status::CL_INVALID_IMAGE_FORMAT_DESCRIPTOR)
        } else if code == -40 {
            Some(Status::CL_INVALID_IMAGE_SIZE)
        } else if code == -41 {
            Some(Status::CL_INVALID_SAMPLER)
        } else if code == -42 {
            Some(Status::CL_INVALID_BINARY)
        } else if code == -43 {
            Some(Status::CL_INVALID_BUILD_OPTIONS)
        } else if code == -44 {
            Some(Status::CL_INVALID_PROGRAM)
        } else if code == -45 {
            Some(Status::CL_INVALID_PROGRAM_EXECUTABLE)
        } else if code == -46 {
            Some(Status::CL_INVALID_KERNEL_NAME)
        } else if code == -47 {
            Some(Status::CL_INVALID_KERNEL_DEFINITION)
        } else if code == -48 {
            Some(Status::CL_INVALID_KERNEL)
        } else if code == -49 {
            Some(Status::CL_INVALID_ARG_INDEX)
        } else if code == -50 {
            Some(Status::CL_INVALID_ARG_VALUE)
        } else if code == -51 {
            Some(Status::CL_INVALID_ARG_SIZE)
        } else if code == -52 {
            Some(Status::CL_INVALID_KERNEL_ARGS)
        } else if code == -53 {
            Some(Status::CL_INVALID_WORK_DIMENSION)
        } else if code == -54 {
            Some(Status::CL_INVALID_WORK_GROUP_SIZE)
        } else if code == -55 {
            Some(Status::CL_INVALID_WORK_ITEM_SIZE)
        } else if code == -56 {
            Some(Status::CL_INVALID_GLOBAL_OFFSET)
        } else if code == -57 {
            Some(Status::CL_INVALID_EVENT_WAIT_LIST)
        } else if code == -58 {
            Some(Status::CL_INVALID_EVENT)
        } else if code == -59 {
            Some(Status::CL_INVALID_OPERATION)
        } else if code == -60 {
            Some(Status::CL_INVALID_GL_OBJECT)
        } else if code == -61 {
            Some(Status::CL_INVALID_BUFFER_SIZE)
        } else if code == -62 {
            Some(Status::CL_INVALID_MIP_LEVEL)
        } else if code == -63 {
            Some(Status::CL_INVALID_GLOBAL_WORK_SIZE)
        } else if code == -64 {
            Some(Status::CL_INVALID_PROPERTY)
        } else if code == -65 {
            Some(Status::CL_INVALID_IMAGE_DESCRIPTOR)
        } else if code == -66 {
            Some(Status::CL_INVALID_COMPILER_OPTIONS)
        } else if code == -67 {
            Some(Status::CL_INVALID_LINKER_OPTIONS)
        } else if code == -68 {
            Some(Status::CL_INVALID_DEVICE_PARTITION_COUNT)
        } else {
            None
        }
    }

    /// The status that `code` names; `None` for a number without a name.
    pub fn from_i32(code: i32) -> (r: Option<Status>)
        ensures
            r == Status::spec_from_i32(code as int),
    {
        match code {
            0 => Some(Status::CL_SUCCESS),
            -1 => Some(Status::CL_DEVICE_NOT_FOUND),
            -2 => Some(Status::CL_DEVICE_NOT_AVAILABLE),
            -3 => Some(Status::CL_COMPILER_NOT_AVAILABLE),
            -4 => Some(Status::CL_MEM_OBJECT_ALLOCATION_FAILURE),
            -5 => Some(Status::CL_OUT_OF_RESOURCES),
            -6 => Some(Status::CL_OUT_OF_HOST_MEMORY),
            -7 => Some(Status::CL_PROFILING_INFO_NOT_AVAILABLE),
            -8 => Some(Status::CL_MEM_COPY_OVERLAP),
            -9 => Some(Status::CL_IMAGE_FORMAT_MISMATCH),
            -10 => Some(Status::CL_IMAGE_FORMAT_NOT_SUPPORTED),
            -11 => Some(Status::CL_BUILD_PROGRAM_FAILURE),
            -12 => Some(Status::CL_MAP_FAILURE),
            -13 => Some(Status::CL_MISALIGNED_SUB_BUFFER_OFFSET),
            -14 => Some(Status::CL_EXEC_STATUS_ERROR_FOR_EVENTS_IN_WAIT_LIST),
            -15 => Some(Status::CL_COMPILE_PROGRAM_FAILURE),
            -16 => Some(Status::CL_LINKER_NOT_AVAILABLE),
            -17 => Some(Status::CL_LINK_PROGRAM_FAILURE),
            -18 => Some(Status::CL_DEVICE_PARTITION_FAILED),
            -19 => Some(Status::CL_KERNEL_ARG_INFO_NOT_AVAILABLE),
            -30 => Some(Status::CL_INVALID_VALUE),
            -31 => Some(Status::CL_INVALID_DEVICE_TYPE),
            -32 => Some(Status::CL_INVALID_PLATFORM),
            -33 => Some(Status::CL_INVALID_DEVICE),
            -34 => Some(Status::CL_INVALID_CONTEXT),
            -35 => Some(Status::CL_INVALID_QUEUE_PROPERTIES),
            -36 => Some(Status::CL_INVALID_COMMAND_QUEUE),
            -37 => Some(Status::CL_INVALID_HOST_PTR),
            -38 => Some(Status::CL_INVALID_MEM_OBJECT),
            -39 => Some(Status::CL_INVALID_IMAGE_FORMAT_DESCRIPTOR),
            -40 => Some(Status::CL_INVALID_IMAGE_SIZE),
            -41 => Some(Status::CL_INVALID_SAMPLER),
            -42 => Some(Status::CL_INVALID_BINARY),
            -43 => Some(Status::CL_INVALID_BUILD_OPTIONS),
            -44 => Some(Status::CL_INVALID_PROGRAM),
            -45 => Some(Status::CL_INVALID_PROGRAM_EXECUTABLE),
            -46 => Some(Status::CL_INVALID_KERNEL_NAME),
            -47 => Some(Status::CL_INVALID_KERNEL_DEFINITION),
            -48 => Some(Status::CL_INVALID_KERNEL),
            -49 => Some(Status::CL_INVALID_ARG_INDEX),
            -50 => Some(Status::CL_INVALID_ARG_VALUE),
            -51 => Some(Status::CL_INVALID_ARG_SIZE),
            -52 => Some(Status::CL_INVALID_KERNEL_ARGS),
            -53 => Some(Status::CL_INVALID_WORK_DIMENSION),
            -54 => Some(Status::CL_INVALID_WORK_GROUP_SIZE),
            -55 => Some(Status::CL_INVALID_WORK_ITEM_SIZE),
            -56 => Some(Status::CL_INVALID_GLOBAL_OFFSET),
            -57 => Some(Status::CL_INVALID_EVENT_WAIT_LIST),
            -58 => Some(Status::CL_INVALID_EVENT),
            -59 => Some(Status::CL_INVALID_OPERATION),
            -60 => Some(Status::CL_INVALID_GL_OBJECT),
            -61 => Some(Status::CL_INVALID_BUFFER_SIZE),
            -62 => Some(Status::CL_INVALID_MIP_LEVEL),
            -63 => Some(Status::CL_INVALID_GLOBAL_WORK_SIZE),
            -64 => Some(Status::CL_INVALID_PROPERTY),
            -65 => Some(Status::CL_INVALID_IMAGE_DESCRIPTOR),
            -66 => Some(Status::CL_INVALID_COMPILER_OPTIONS),
            -67 => Some(Status::CL_INVALID_LINKER_OPTIONS),
            -68 => Some(Status::CL_INVALID_DEVICE_PARTITION_COUNT),
            _ => None,
        }
    }

    /// The number that the device API uses for this status.
    pub fn code(&self) -> (r: i32)
        ensures
            r == self.spec_code(),
    {
        match self {
            Status::CL_SUCCESS => 0,
            Status::CL_DEVICE_NOT_FOUND => -1,
            Status::CL_DEVICE_NOT_AVAILABLE => -2,
            Status::CL_COMPILER_NOT_AVAILABLE => -3,
            Status::CL_MEM_OBJECT_ALLOCATION_FAILURE => -4,
            Status::CL_OUT_OF_RESOURCES => -5,
            Status::CL_OUT_OF_HOST_MEMORY => -6,
            Status::CL_PROFILING_INFO_NOT_AVAILABLE => -7,
            Status::CL_MEM_COPY_OVERLAP => -8,
            Status::CL_IMAGE_FORMAT_MISMATCH => -9,
            Status::CL_IMAGE_FORMAT_NOT_SUPPORTED => -10,
            Status::CL_BUILD_PROGRAM_FAILURE => -11,
            Status::CL_MAP_FAILURE => -12,
            Status::CL_MISALIGNED_SUB_BUFFER_OFFSET => -13,
            Status::CL_EXEC_STATUS_ERROR_FOR_EVENTS_IN_WAIT_LIST => -14,
            Status::CL_COMPILE_PROGRAM_FAILURE => -15,
            Status::CL_LINKER_NOT_AVAILABLE => -16,
            Status::CL_LINK_PROGRAM_FAILURE => -17,
            Status::CL_DEVICE_PARTITION_FAILED => -18,
            Status::CL_KERNEL_ARG_INFO_NOT_AVAILABLE => -19,
            Status::CL_INVALID_VALUE => -30,
            Status::CL_INVALID_DEVICE_TYPE => -31,
            Status::CL_INVALID_PLATFORM => -32,
            Status::CL_INVALID_DEVICE => -33,
            Status::CL_INVALID_CONTEXT => -34,
            Status::CL_INVALID_QUEUE_PROPERTIES => -35,
            Status::CL_INVALID_COMMAND_QUEUE => -36,
            Status::CL_INVALID_HOST_PTR => -37,
            Status::CL_INVALID_MEM_OBJECT => -38,
            Status::CL_INVALID_IMAGE_FORMAT_DESCRIPTOR => -39,
            Status::CL_INVALID_IMAGE_SIZE => -40,
            Status::CL_INVALID_SAMPLER => -41,
            Status::CL_INVALID_BINARY => -42,
            Status::CL_INVALID_BUILD_OPTIONS => -43,
            Status::CL_INVALID_PROGRAM => -44,
            Status::CL_INVALID_PROGRAM_EXECUTABLE => -45,
            Status::CL_INVALID_KERNEL_NAME => -46,
            Status::CL_INVALID_KERNEL_DEFINITION => -47,
            Status::CL_INVALID_KERNEL => -48,
            Status::CL_INVALID_ARG_INDEX => -49,
            Status::CL_INVALID_ARG_VALUE => -50,
            Status::CL_INVALID_ARG_SIZE => -51,
            Status::CL_INVALID_KERNEL_ARGS => -52,
            Status::CL_INVALID_WORK_DIMENSION => -53,
            Status::CL_INVALID_WORK_GROUP_SIZE => -54,
            Status::CL_INVALID_WORK_ITEM_SIZE => -55,
            Status::CL_INVALID_GLOBAL_OFFSET => -56,
            Status::CL_INVALID_EVENT_WAIT_LIST => -57,
            Status::CL_INVALID_EVENT => -58,
            Status::CL_INVALID_OPERATION => -59,
            Status::CL_INVALID_GL_OBJECT => -60,
            Status::CL_INVALID_BUFFER_SIZE => -61,
            Status::CL_INVALID_MIP_LEVEL => -62,
            Status::CL_INVALID_GLOBAL_WORK_SIZE => -63,
            Status::CL_INVALID_PROPERTY => -64,
            Status::CL_INVALID_IMAGE_DESCRIPTOR => -65,
            Status::CL_INVALID_COMPILER_OPTIONS => -66,
            Status::CL_INVALID_LINKER_OPTIONS => -67,
            Status::CL_INVALID_DEVICE_PARTITION_COUNT => -68,
        }
    }

    /// The name of the constant.
    pub fn name(&self) -> (r: &'static str)
        ensures
            r@ == self.spec_name(),
    {
        match self {
            Status::CL_SUCCESS => "CL_SUCCESS",
            Status::CL_DEVICE_NOT_FOUND => "CL_DEVICE_NOT_FOUND",
            Status::CL_DEVICE_NOT_AVAILABLE => "CL_DEVICE_NOT_AVAILABLE",
            Status::CL_COMPILER_NOT_AVAILABLE => "CL_COMPILER_NOT_AVAILABLE",
            Status::CL_MEM_OBJECT_ALLOCATION_FAILURE => "CL_MEM_OBJECT_ALLOCATION_FAILURE",
            Status::CL_OUT_OF_RESOURCES => "CL_OUT_OF_RESOURCES",
            Status::CL_OUT_OF_HOST_MEMORY => "CL_OUT_OF_HOST_MEMORY",
            Status::CL_PROFILING_INFO_NOT_AVAILABLE => "CL_PROFILING_INFO_NOT_AVAILABLE",
            Status::CL_MEM_COPY_OVERLAP => "CL_MEM_COPY_OVERLAP",
            Status::CL_IMAGE_FORMAT_MISMATCH => "CL_IMAGE_FORMAT_MISMATCH",
            Status::CL_IMAGE_FORMAT_NOT_SUPPORTED => "CL_IMAGE_FORMAT_NOT_SUPPORTED",
            Status::CL_BUILD_PROGRAM_FAILURE => "CL_BUILD_PROGRAM_FAILURE",
            Status::CL_MAP_FAILURE => "CL_MAP_FAILURE",
            Status::CL_MISALIGNED_SUB_BUFFER_OFFSET => "CL_MISALIGNED_SUB_BUFFER_OFFSET",
            Status::CL_EXEC_STATUS_ERROR_FOR_EVENTS_IN_WAIT_LIST => "CL_EXEC_STATUS_ERROR_FOR_EVENTS_IN_WAIT_LIST",
            Status::CL_COMPILE_PROGRAM_FAILURE => "CL_COMPILE_PROGRAM_FAILURE",
            Status::CL_LINKER_NOT_AVAILABLE => "CL_LINKER_NOT_AVAILABLE",
            Status::CL_LINK_PROGRAM_FAILURE => "CL_LINK_PROGRAM_FAILURE",
            Status::CL_DEVICE_PARTITION_FAILED => "CL_DEVICE_PARTITION_FAILED",
            Status::CL_KERNEL_ARG_INFO_NOT_AVAILABLE => "CL_KERNEL_ARG_INFO_NOT_AVAILABLE",
            Status::CL_INVALID_VALUE => "CL_INVALID_VALUE",
            Status::CL_INVALID_DEVICE_TYPE => "CL_INVALID_DEVICE_TYPE",
            Status::CL_INVALID_PLATFORM => "CL_INVALID_PLATFORM",
            Status::CL_INVALID_DEVICE => "CL_INVALID_DEVICE",
            Status::CL_INVALID_CONTEXT => "CL_INVALID_CONTEXT",
            Status::CL_INVALID_QUEUE_PROPERTIES => "CL_INVALID_QUEUE_PROPERTIES",
            Status::CL_INVALID_COMMAND_QUEUE => "CL_INVALID_COMMAND_QUEUE",
            Status::CL_INVALID_HOST_PTR => "CL_INVALID_HOST_PTR",
            Status::CL_INVALID_MEM_OBJECT => "CL_INVALID_MEM_OBJECT",
            Status::CL_INVALID_IMAGE_FORMAT_DESCRIPTOR => "CL_INVALID_IMAGE_FORMAT_DESCRIPTOR",
            Status::CL_INVALID_IMAGE_SIZE => "CL_INVALID_IMAGE_SIZE",
            Status::CL_INVALID_SAMPLER => "CL_INVALID_SAMPLER",
            Status::CL_INVALID_BINARY => "CL_INVALID_BINARY",
            Status::CL_INVALID_BUILD_OPTIONS => "CL_INVALID_BUILD_OPTIONS",
            Status::CL_INVALID_PROGRAM => "CL_INVALID_PROGRAM",
            Status::CL_INVALID_PROGRAM_EXECUTABLE => "CL_INVALID_PROGRAM_EXECUTABLE",
            Status::CL_INVALID_KERNEL_NAME => "CL_INVALID_KERNEL_NAME",
            Status::CL_INVALID_KERNEL_DEFINITION => "CL_INVALID_KERNEL_DEFINITION",
            Status::CL_INVALID_KERNEL => "CL_INVALID_KERNEL",
            Status::CL_INVALID_ARG_INDEX => "CL_INVALID_ARG_INDEX",
            Status::CL_INVALID_ARG_VALUE => "CL_INVALID_ARG_VALUE",
            Status::CL_INVALID_ARG_SIZE => "CL_INVALID_ARG_SIZE",
            Status::CL_INVALID_KERNEL_ARGS => "CL_INVALID_KERNEL_ARGS",
            Status::CL_INVALID_WORK_DIMENSION => "CL_INVALID_WORK_DIMENSION",
            Status::CL_INVALID_WORK_GROUP_SIZE => "CL_INVALID_WORK_GROUP_SIZE",
            Status::CL_INVALID_WORK_ITEM_SIZE => "CL_INVALID_WORK_ITEM_SIZE",
            Status::CL_INVALID_GLOBAL_OFFSET => "CL_INVALID_GLOBAL_OFFSET",
            Status::CL_INVALID_EVENT_WAIT_LIST => "CL_INVALID_EVENT_WAIT_LIST",
            Status::CL_INVALID_EVENT => "CL_INVALID_EVENT",
            Status::CL_INVALID_OPERATION => "CL_INVALID_OPERATION",
            Status::CL_INVALID_GL_OBJECT => "CL_INVALID_GL_OBJECT",
            Status::CL_INVALID_BUFFER_SIZE => "CL_INVALID_BUFFER_SIZE",
            Status::CL_INVALID_MIP_LEVEL => "CL_INVALID_MIP_LEVEL",
            Status::CL_INVALID_GLOBAL_WORK_SIZE => "CL_INVALID_GLOBAL_WORK_SIZE",
            Status::CL_INVALID_PROPERTY => "CL_INVALID_PROPERTY",
            Status::CL_INVALID_IMAGE_DESCRIPTOR => "CL_INVALID_IMAGE_DESCRIPTOR",
            Status::CL_INVALID_COMPILER_OPTIONS => "CL_INVALID_COMPILER_OPTIONS",
            Status::CL_INVALID_LINKER_OPTIONS => "CL_INVALID_LINKER_OPTIONS",
            Status::CL_INVALID_DEVICE_PARTITION_COUNT => "CL_INVALID_DEVICE_PARTITION_COUNT",
        }
    }

    /// Whether this status reports success.
    pub fn is_success(&self) -> (r: bool)
        ensures
            r == (self.spec_code() == 0),
    {
        match self {
            Status::CL_SUCCESS => true,
            _ => false,
        }
    }
}

/// A status is found again from its own number, and a number that names a
/// status is the number of that status.
pub proof fn lemma_status_code_roundtrip(s: Status, code: int)
    ensures
        Status::spec_from_i32(s.spec_code()) == Some(s),
        Status::spec_from_i32(code) matches Some(t) ==> t.spec_code() == code,
        s.spec_code() <= 0,
{
}

/// How far a healthy command has come on its queue.
#[derive(Clone, Copy, Debug, PartialEq, Eq, Structural)]
pub enum CommandExecutionStatus {
    Complete,
    Running,
    Submitted,
    Queued,
}

impl CommandExecutionStatus {
    /// The number that the device API uses for this execution status.
    pub open spec fn spec_code(self) -> int {
        match self {
            CommandExecutionStatus::Complete => 0,
            CommandExecutionStatus::Running => 1,
            CommandExecutionStatus::Submitted => 2,
            CommandExecutionStatus::Queued => 3,
        }
    }

    /// The execution status that `code` names, if it names one.
    pub open spec fn spec_from_i32(code: int) -> Option<CommandExecutionStatus> {
        if code == 0 {
            Some(CommandExecutionStatus::Complete)
        } else if code == 1 {
            Some(CommandExecutionStatus::Running)
        } else if code == 2 {
            Some(CommandExecutionStatus::Submitted)
        } else if code == 3 {
            Some(CommandExecutionStatus::Queued)
        } else {
            None
        }
    }

    /// The execution status that `code` names; `None` for any other number,
    /// the negative ones of a failed command among them.
    pub fn from_i32(code: i32) -> (r: Option<CommandExecutionStatus>)
        ensures
            r == CommandExecutionStatus::spec_from_i32(code as int),
    {
        match code {
            0 => Some(CommandExecutionStatus::Complete),
            1 => Some(CommandExecutionStatus::Running),
            2 => Some(CommandExecutionStatus::Submitted),
            3 => Some(CommandExecutionStatus::Queued),
            _ => None,
        }
    }

    /// The number that the device API uses for this execution status.
    pub fn code(&self) -> (r: i32)
        ensures
            r == self.spec_code(),
    {
        match self {
            CommandExecutionStatus::Complete => 0,
            CommandExecutionStatus::Running => 1,
            CommandExecutionStatus::Submitted => 2,
            CommandExecutionStatus::Queued => 3,
        }
    }
}

/// What the host knows of a completion event: still on its way, finished, or
/// failed with the code that the device reported.
#[derive(Clone, Copy, Debug, PartialEq, Eq, Structural)]
pub enum EventStatus {
    Pending,
    Complete,
    Error(i32),
}

impl EventStatus {
    /// The reading of a raw execution status: zero is completion, a negative
    /// number a failure with that code, anything above zero a command that has
    /// not finished yet.
    pub open spec fn spec_from_raw(raw: int) -> EventStatus {
        if raw == 0 {
            EventStatus::Complete
        } else if raw < 0 {
            EventStatus::Error(raw as i32)
        } else {
            EventStatus::Pending
        }
    }

    /// Whether the status is final: complete or failed.
    pub open spec fn is_terminal(self) -> bool {
        !(self is Pending)
    }

    /// The only moves an event makes: it stays what it is, or it leaves
    /// `Pending` for good.
    pub open spec fn may_become(self, next: EventStatus) -> bool {
        self == next || self is Pending
    }

    /// Reads a raw execution status as reported by the device.
    pub fn from_raw(raw: i32) -> (r: EventStatus)
        ensures
            r == EventStatus::spec_from_raw(raw as int),
    {
        if raw == 0 {
            EventStatus::Complete
        } else if raw < 0 {
            EventStatus::Error(raw)
        } else {
            EventStatus::Pending
        }
    }

    /// Whether the status is final: complete or failed.
    pub fn terminal(&self) -> (r: bool)
        ensures
            r == self.is_terminal(),
    {
        match self {
            EventStatus::Pending => false,
            _ => true,
        }
    }

    /// The status after the device reports `observed`: a final status is
    /// kept, a pending one gives way to what was observed.
    pub open spec fn spec_merge(self, observed: EventStatus) -> EventStatus {
        if self is Pending {
            observed
        } else {
            self
        }
    }

    /// The status after the device reports `observed`. A final status never
    /// changes again, whatever is reported later.
    pub fn merge(self, observed: EventStatus) -> (r: EventStatus)
        ensures
            r == self.spec_merge(observed),
            self.may_become(r),
            self.is_terminal() ==> r == self,
    {
        match self {
            EventStatus::Pending => observed,
            _ => self,
        }
    }
}

/// An execution status and its reading agree: only `Complete` reads as
/// complete, the others as pending.
pub proof fn lemma_execution_status_reading(s: CommandExecutionStatus)
    ensures
        CommandExecutionStatus::spec_from_i32(s.spec_code()) == Some(s),
        EventStatus::spec_from_raw(s.spec_code()) == if s is Complete {
            EventStatus::Complete
        } else {
            EventStatus::Pending
        },
{
}

} // verus!
