use ocl::error::Error;
use ocl::event::{Event, EventList};
use ocl::functions::{
    binary_status_result, build_log, build_log_step, build_program, build_result,
    build_wants_logs, byte_len, cl_bool, create_buffer, create_context,
    create_program_with_binary, enqueue_barrier_with_wait_list, enqueue_copy_buffer,
    enqueue_copy_buffer_rect, enqueue_copy_buffer_to_image, enqueue_copy_image,
    enqueue_copy_image_to_buffer, enqueue_fill_buffer, enqueue_fill_image, enqueue_kernel,
    enqueue_map_buffer, enqueue_map_image, enqueue_marker_with_wait_list,
    enqueue_migrate_mem_objects, enqueue_read_buffer, enqueue_read_buffer_rect,
    enqueue_read_image, enqueue_task, enqueue_unmap_mem_object, enqueue_write_buffer,
    enqueue_write_buffer_rect, enqueue_write_image, get_context_info, get_device_ids,
    get_extension_function_address_for_platform, get_first_platform, get_platform_ids,
    info_buffer, info_result, kernel_message, program_build_err, set_kernel_arg, submit,
    verify_context, Command, KernelArg, KernelArgValue, UserDataPh, DEVICES_MAX,
    DEVICE_TYPE_ALL,
};
use ocl::handle::{CommandQueue, Context, DeviceId, Kernel, Mem, PlatformId, Sampler};

fn queue() -> CommandQueue {
    CommandQueue::from_fresh_ptr(0x91, Context::from_fresh_ptr(0xc0))
}

fn waits(ptrs: &[usize]) -> EventList {
    let mut list = EventList::new();
    for p in ptrs {
        list.push(Event::from_fresh_ptr(*p));
    }
    list
}

const INVALID_CONTEXT: &str = "\n\nocl::core::context_info(): Possible invalid context detected. \nContext info result size is either '> 10k bytes' or '== 0'. Almost certainly an \ninvalid context object. If not, please file an issue at: \nhttps://github.com/cogciprocate/ocl/issues.\n\n";

#[test]
fn user_data_placeholder_is_null() {
    assert_eq!(UserDataPh::new(77).unwrapped(), 0);
}

#[test]
fn constants() {
    assert_eq!(DEVICES_MAX, 16);
    assert_eq!(DEVICE_TYPE_ALL, 0xFFFF_FFFF);
    assert_eq!(cl_bool(true), 1);
    assert_eq!(cl_bool(false), 0);
}

#[test]
fn byte_lengths() {
    assert_eq!(byte_len::<i32>(1 << 20), Some(4 << 20));
    assert_eq!(byte_len::<[i32; 4]>(3), Some(48));
    assert_eq!(byte_len::<u8>(usize::MAX), Some(usize::MAX));
    assert_eq!(byte_len::<u16>(usize::MAX), None);
    assert_eq!(byte_len::<u64>(0), Some(0));
}

#[test]
fn read_buffer_submission() {
    let list = waits(&[0xe1, 0xe2]);
    let mut new_event = Event::from_fresh_ptr(0xe9);
    let data = [0i32; 10];
    let s = enqueue_read_buffer(
        &queue(),
        &Mem::from_fresh_ptr(0xb1),
        true,
        8,
        &data,
        Some(&list),
        Some(&mut new_event),
    )
    .unwrap();
    assert_eq!(s.queue, 0x91);
    assert_eq!(s.command, Command::ReadBuffer { buffer: 0xb1, blocking: 1, offset: 8, size: 40 });
    assert_eq!(s.message, "clEnqueueReadBuffer()");
    assert_eq!(s.events.wait_list_len, 2);
    assert_eq!(s.events.wait_list, Some(vec![0xe1, 0xe2]));
    assert!(s.events.new_event);
    assert_eq!(s.events.released, Some(0xe9));
    assert!(new_event.is_null());
    assert_eq!(s.complete(0), Ok(()));
    assert_eq!(
        s.complete(-38).unwrap_err().description(),
        " { OPENCL ERROR: \"clEnqueueReadBuffer() failed with code [-38]: CL_INVALID_MEM_OBJECT\" } "
    );
}

#[test]
fn write_buffer_without_events() {
    let data = [0u8; 7];
    let s = enqueue_write_buffer(&queue(), &Mem::from_fresh_ptr(0xb1), false, 0, &data, None, None)
        .unwrap();
    assert_eq!(s.command, Command::WriteBuffer { buffer: 0xb1, blocking: 0, offset: 0, size: 7 });
    assert_eq!(s.events.wait_list_len, 0);
    assert_eq!(s.events.wait_list, None);
    assert!(!s.events.new_event);
    assert_eq!(s.message, "clEnqueueWriteBuffer()");
}

#[test]
fn submission_refuses_stale_events() {
    let mut list = waits(&[0xe1]);
    list.push(Event::empty());
    let mut new_event = Event::from_fresh_ptr(0xe9);
    let data = [0i32; 2];
    assert_eq!(
        enqueue_write_buffer(
            &queue(),
            &Mem::from_fresh_ptr(0xb1),
            true,
            0,
            &data,
            Some(&list),
            Some(&mut new_event)
        )
        .unwrap_err(),
        Error::InvalidHandle
    );
    assert_eq!(new_event, Event::from_fresh_ptr(0xe9));
    assert_eq!(
        enqueue_marker_with_wait_list(&queue(), Some(&list), None).unwrap_err(),
        Error::InvalidHandle
    );
}

#[test]
fn rect_and_image_submissions() {
    let q = queue();
    let m = Mem::from_fresh_ptr(0xb1);
    let n = Mem::from_fresh_ptr(0xb2);
    let o = [1, 2, 3];
    let h = [4, 5, 6];
    let r = [7, 8, 9];
    assert_eq!(
        enqueue_read_buffer_rect(&q, &m, true, o, h, r, 10, 11, 12, 13, None, None).unwrap().command,
        Command::ReadBufferRect {
            buffer: 0xb1,
            blocking: 1,
            buffer_origin: o,
            host_origin: h,
            region: r,
            buffer_row_pitch: 10,
            buffer_slc_pitch: 11,
            host_row_pitch: 12,
            host_slc_pitch: 13
        }
    );
    assert_eq!(
        enqueue_write_buffer_rect(&q, &m, false, o, h, r, 10, 11, 12, 13, None, None)
            .unwrap()
            .command,
        Command::WriteBufferRect {
            buffer: 0xb1,
            blocking: 0,
            buffer_origin: o,
            host_origin: h,
            region: r,
            buffer_row_pitch: 10,
            buffer_slc_pitch: 11,
            host_row_pitch: 12,
            host_slc_pitch: 13
        }
    );
    assert_eq!(
        enqueue_fill_buffer(&q, &m, 16, 32, 64, None, None).unwrap().command,
        Command::FillBuffer { buffer: 0xb1, pattern_size: 16, offset: 32, size: 64 }
    );
    assert_eq!(
        enqueue_copy_buffer_rect(&q, &m, &n, o, h, r, 1, 2, 3, 4, None, None).unwrap().command,
        Command::CopyBufferRect {
            src_buffer: 0xb1,
            dst_buffer: 0xb2,
            src_origin: o,
            dst_origin: h,
            region: r,
            src_row_pitch: 1,
            src_slc_pitch: 2,
            dst_row_pitch: 3,
            dst_slc_pitch: 4
        }
    );
    assert_eq!(
        enqueue_read_image(&q, &m, true, o, r, 5, 6, None, None).unwrap().command,
        Command::ReadImage { image: 0xb1, blocking: 1, origin: o, region: r, row_pitch: 5, slc_pitch: 6 }
    );
    assert_eq!(
        enqueue_write_image(&q, &m, true, o, r, 5, 6, None, None).unwrap().command,
        Command::WriteImage {
            image: 0xb1,
            blocking: 1,
            origin: o,
            region: r,
            input_row_pitch: 5,
            input_slc_pitch: 6
        }
    );
    assert_eq!(
        enqueue_fill_image(&q, &m, o, r, None, None).unwrap().command,
        Command::FillImage { image: 0xb1, origin: o, region: r }
    );
    assert_eq!(
        enqueue_copy_image(&q, &m, &n, o, h, r, None, None).unwrap().command,
        Command::CopyImage { src_image: 0xb1, dst_image: 0xb2, src_origin: o, dst_origin: h, region: r }
    );
    assert_eq!(
        enqueue_copy_image_to_buffer(&q, &m, &n, o, r, 99, None, None).unwrap().command,
        Command::CopyImageToBuffer {
            src_image: 0xb1,
            dst_buffer: 0xb2,
            src_origin: o,
            region: r,
            dst_offset: 99
        }
    );
    assert_eq!(
        enqueue_copy_buffer_to_image(&q, &m, &n, 98, h, r, None, None).unwrap().command,
        Command::CopyBufferToImage {
            src_buffer: 0xb1,
            dst_image: 0xb2,
            src_offset: 98,
            dst_origin: h,
            region: r
        }
    );
    let s = enqueue_map_image(&q, &m, false, 3, o, r, 5, 6, None, None).unwrap();
    assert_eq!(
        s.command,
        Command::MapImage {
            image: 0xb1,
            blocking: 0,
            map_flags: 3,
            origin: o,
            region: r,
            row_pitch: 5,
            slc_pitch: 6
        }
    );
    assert_eq!(s.message, "clEnqueueMapImage()");
}

#[test]
fn map_and_unmap_submissions() {
    let q = queue();
    let m = Mem::from_fresh_ptr(0xb1);
    let mut ev = Event::empty();
    let s = enqueue_map_buffer(&q, &m, false, 2, 0, 4096, None, Some(&mut ev)).unwrap();
    assert_eq!(
        s.command,
        Command::MapBuffer { buffer: 0xb1, blocking: 0, map_flags: 2, offset: 0, size: 4096 }
    );
    assert_eq!(s.complete_map(0, 0x7000), Ok(0x7000));
    assert_eq!(s.complete_map(-12, 0).unwrap_err().api_code(), Some(-12));
    assert_eq!(
        s.complete_map(-12, 0x7000).unwrap_err().description(),
        " { OPENCL ERROR: \"clEnqueueMapBuffer() failed with code [-12]: CL_MAP_FAILURE\" } "
    );
    let u = enqueue_unmap_mem_object(&q, &m, 0x7000, None, None).unwrap();
    assert_eq!(u.command, Command::UnmapMemObject { memobj: 0xb1, mapped_ptr: 0x7000 });
    assert_eq!(u.message, "clEnqueueUnmapMemObject()");
}

#[test]
fn copy_buffer_waits_for_nothing() {
    let s = enqueue_copy_buffer(
        &queue(),
        &Mem::from_fresh_ptr(1),
        &Mem::from_fresh_ptr(2),
        3,
        4,
        5,
    );
    assert_eq!(
        s.command,
        Command::CopyBuffer { src_buffer: 1, dst_buffer: 2, src_offset: 3, dst_offset: 4, size: 5 }
    );
    assert_eq!(s.events.wait_list_len, 0);
    assert_eq!(s.events.wait_list, None);
    assert!(!s.events.new_event);
    assert_eq!(s.message, "clEnqueueCopyBuffer()");
}

#[test]
fn migrate_marker_barrier() {
    let q = queue();
    let mems = [Mem::from_fresh_ptr(5), Mem::from_fresh_ptr(6)];
    let s = enqueue_migrate_mem_objects(&q, 2, &mems, 1, None, None).unwrap();
    assert_eq!(
        s.command,
        Command::MigrateMemObjects { num_mem_objects: 2, mem_objects: vec![5, 6], flags: 1 }
    );
    assert_eq!(s.message, "clEnqueueMigrateMemObjects()");
    let list = waits(&[0xe1]);
    let m = enqueue_marker_with_wait_list(&q, Some(&list), None).unwrap();
    assert_eq!(m.command, Command::Marker);
    assert_eq!(m.events.wait_list, Some(vec![0xe1]));
    assert_eq!(m.message, "clEnqueueMarkerWithWaitList()");
    let b = enqueue_barrier_with_wait_list(&q, None, None).unwrap();
    assert_eq!(b.command, Command::Barrier);
    assert_eq!(b.message, "clEnqueueBarrierWithWaitList()");
    let direct = submit(&q, Command::Barrier, "x", None, None).unwrap();
    assert_eq!(direct.message, "x");
}

#[test]
fn kernel_submissions_name_the_kernel() {
    let q = queue();
    let k = Kernel::from_fresh_ptr(0x4b);
    let s = enqueue_kernel(
        &q,
        &k,
        1,
        None,
        [1 << 20, 1, 1],
        Some([64, 1, 1]),
        None,
        None,
        Some("add_slowly"),
    )
    .unwrap();
    assert_eq!(
        s.command,
        Command::NDRangeKernel {
            kernel: 0x4b,
            work_dims: 1,
            global_work_offset: None,
            global_work_dims: [1 << 20, 1, 1],
            local_work_dims: Some([64, 1, 1])
        }
    );
    assert_eq!(s.message, "clEnqueueNDRangeKernel('add_slowly'):");
    assert_eq!(
        s.complete(-54).unwrap_err().description(),
        " { OPENCL ERROR: \"clEnqueueNDRangeKernel('add_slowly'): failed with code [-54]: CL_INVALID_WORK_GROUP_SIZE\" } "
    );
    let t = enqueue_task(&q, &k, None, None, None).unwrap();
    assert_eq!(t.command, Command::Task { kernel: 0x4b });
    assert_eq!(t.message, "clEnqueueTask(''):");
    assert_eq!(kernel_message("clCreateKernel", Some("k")), "clCreateKernel('k'):");
}

#[test]
fn kernel_argument_sizes() {
    let k = Kernel::from_fresh_ptr(0x4b);
    let word = std::mem::size_of::<usize>();
    let call = set_kernel_arg::<i32>(&k, 0, KernelArg::Mem(Mem::from_fresh_ptr(9)), Some("add"))
        .unwrap();
    assert_eq!(call.kernel, 0x4b);
    assert_eq!(call.arg_index, 0);
    assert_eq!(call.arg_size, word);
    assert_eq!(call.arg_value, KernelArgValue::Handle(9));
    assert_eq!(call.message, "clSetKernelArg('add'):");
    let call = set_kernel_arg::<i32>(&k, 1, KernelArg::Scalar, None).unwrap();
    assert_eq!((call.arg_size, call.arg_value), (4, KernelArgValue::Data));
    assert_eq!(call.message, "clSetKernelArg(''):");
    let call = set_kernel_arg::<[i32; 4]>(&k, 2, KernelArg::Vector(3), None).unwrap();
    assert_eq!((call.arg_size, call.arg_value), (48, KernelArgValue::Data));
    let call = set_kernel_arg::<f32>(&k, 3, KernelArg::Local(256), None).unwrap();
    assert_eq!((call.arg_size, call.arg_value), (1024, KernelArgValue::Null));
    let call =
        set_kernel_arg::<u8>(&k, 4, KernelArg::Sampler(Sampler::from_fresh_ptr(7)), None).unwrap();
    assert_eq!((call.arg_size, call.arg_value), (word, KernelArgValue::Handle(7)));
    let call = set_kernel_arg::<u8>(&k, 5, KernelArg::MemNull, None).unwrap();
    assert_eq!((call.arg_size, call.arg_value), (word, KernelArgValue::Null));
    let call = set_kernel_arg::<u8>(&k, 6, KernelArg::SamplerNull, None).unwrap();
    assert_eq!((call.arg_size, call.arg_value), (word, KernelArgValue::Null));
    let call =
        set_kernel_arg::<u8>(&k, 7, KernelArg::UnsafePointer { size: 12, value: 0x500 }, None)
            .unwrap();
    assert_eq!((call.arg_size, call.arg_value), (12, KernelArgValue::Address(0x500)));
    assert_eq!(
        set_kernel_arg::<u64>(&k, 8, KernelArg::Vector(usize::MAX), None).unwrap_err(),
        Error::ResourceExhausted
    );
}

#[test]
fn build_log_becomes_a_build_failure() {
    let logs = vec![vec![], vec![0u8], b"error: x undeclared\n".to_vec(), b"second".to_vec()];
    let err = program_build_err(&logs).unwrap_err();
    assert_eq!(
        err,
        Error::BuildFailure(String::from(
            "\n\n###################### OPENCL PROGRAM BUILD DEBUG OUTPUT ######################\n\nerror: x undeclared\n\n###############################################################################\n\n"
        ))
    );
}

#[test]
fn build_log_text_is_decoded() {
    // two bytes, one character: the log is text, not bytes
    let logs = vec!["né".as_bytes().to_vec()];
    match program_build_err(&logs).unwrap_err() {
        Error::BuildFailure(text) => {
            assert!(text.contains("né"));
            assert_eq!(text.chars().count(), 83 + 2 + 82);
        }
        other => panic!("{:?}", other),
    }
}

#[test]
fn short_logs_are_no_failure() {
    assert_eq!(program_build_err(&vec![]), Ok(()));
    assert_eq!(program_build_err(&vec![vec![], vec![0], vec![b'x']]), Ok(()));
}

#[test]
fn build_log_that_is_no_text() {
    assert_eq!(
        program_build_err(&vec![vec![0xff, 0xfe, 0xfd]]).unwrap_err(),
        Error::message("The build log of the program is not valid UTF-8.")
    );
}

#[test]
fn build_answer() {
    let logs = vec![b"boom".to_vec()];
    assert!(matches!(build_program(-11, &logs), Err(Error::BuildFailure(_))));
    assert_eq!(
        build_program(-11, &vec![vec![0]]).unwrap_err().description(),
        " { OPENCL ERROR: \"clBuildProgram() failed with code [-11]: CL_BUILD_PROGRAM_FAILURE\" } "
    );
    assert_eq!(build_program(-11, &vec![]).unwrap_err().api_code(), Some(-11));
    assert_eq!(build_program(-43, &vec![vec![], vec![0]]).unwrap_err().api_code(), Some(-43));
    assert_eq!(build_program(0, &vec![]), Ok(()));
    assert_eq!(build_program(0, &logs), Ok(()));
    assert_eq!(
        build_program(5, &logs).unwrap_err().description(),
        " { OPENCL ERROR: \"clBuildProgram() failed with code [5]: [Unknown Error Code: 5]\" } "
    );
}

#[test]
fn build_logs_one_by_one() {
    assert_eq!(build_log(vec![]), Ok(()));
    assert_eq!(build_log(vec![0]), Ok(()));
    assert!(matches!(build_log(b"ab".to_vec()), Err(Error::BuildFailure(_))));
    assert_eq!(build_log_step(0, vec![0]), Ok(()));
    assert!(matches!(build_log_step(0, b"warning".to_vec()), Err(Error::BuildFailure(_))));
    assert_eq!(
        build_log_step(-33, b"warning".to_vec()).unwrap_err().description(),
        " { OPENCL ERROR: \"clGetProgramBuildInfo() failed with code [-33]: CL_INVALID_DEVICE\" } "
    );
    assert_eq!(
        build_log_step(0, vec![0xc0, 0x80]).unwrap_err(),
        Error::message("The build log of the program is not valid UTF-8.")
    );
}

#[test]
fn build_result_never_hides_a_failure() {
    assert!(build_wants_logs(-1));
    assert!(build_wants_logs(i32::MIN));
    assert!(!build_wants_logs(0));
    assert!(!build_wants_logs(7));
    assert_eq!(build_result(0, Ok(())), Ok(()));
    assert_eq!(build_result(0, Err(Error::InvalidHandle)), Ok(()));
    assert_eq!(build_result(-11, Ok(())).unwrap_err().api_code(), Some(-11));
    assert_eq!(
        build_result(-11, Err(Error::BuildFailure(String::from("x")))),
        Err(Error::BuildFailure(String::from("x")))
    );
    assert_eq!(build_result(3, Ok(())).unwrap_err().api_code(), Some(3));
    for code in [-68, -11, -1, 1, 2, i32::MAX, i32::MIN] {
        assert!(build_program(code, &vec![]).is_err());
        assert!(build_program(code, &vec![vec![0], b"log".to_vec()]).is_err());
    }
}

#[test]
fn context_needs_devices() {
    assert_eq!(
        create_context(&vec![]).unwrap_err(),
        Error::message("ocl::core::create_context: No devices specified.")
    );
    assert_eq!(create_context(&vec![DeviceId::from_fresh_ptr(1), DeviceId::null()]), Ok(2));
}

#[test]
fn info_query_in_two_halves() {
    assert_eq!(info_buffer("clGetEventInfo", 0, 4, 0), Ok(vec![0, 0, 0, 0]));
    assert_eq!(info_buffer("clGetPlatformInfo()", 0, 3, 32), Ok(vec![32, 32, 32]));
    assert_eq!(info_buffer("clGetEventInfo", 0, 0, 0), Ok(vec![]));
    assert_eq!(info_buffer("clGetEventInfo", -58, 4, 0).unwrap_err().api_code(), Some(-58));
    assert_eq!(info_result("clGetEventInfo", 0, vec![1, 2]), Ok(vec![1, 2]));
    assert_eq!(
        info_result("clGetEventInfo", -30, vec![1, 2]).unwrap_err().description(),
        " { OPENCL ERROR: \"clGetEventInfo failed with code [-30]: CL_INVALID_VALUE\" } "
    );
}

#[test]
fn context_info_sizes() {
    assert_eq!(get_context_info(false, 0, 8), Ok(vec![0; 8]));
    assert_eq!(get_context_info(false, 0, 0), Ok(vec![]));
    assert_eq!(get_context_info(true, 0, 10000), Ok(vec![0; 10000]));
    assert_eq!(get_context_info(true, 0, 0).unwrap_err(), Error::message(INVALID_CONTEXT));
    assert_eq!(get_context_info(false, 0, 10001).unwrap_err(), Error::message(INVALID_CONTEXT));
    assert_eq!(get_context_info(true, -34, 8).unwrap_err().api_code(), Some(-34));
    assert_eq!(verify_context(0, 8), Ok(()));
    assert_eq!(verify_context(0, 0).unwrap_err(), Error::message(INVALID_CONTEXT));
    assert_eq!(
        verify_context(-34, 8).unwrap_err().description(),
        " { OPENCL ERROR: \"clGetContextInfo failed with code [-34]: CL_INVALID_CONTEXT\" } "
    );
}

#[test]
fn buffer_sizes() {
    assert_eq!(create_buffer::<i32>(1 << 20, None), Ok(4 << 20));
    let data = [1u16, 2, 3];
    assert_eq!(create_buffer(3, Some(&data[..])), Ok(6));
    assert_eq!(
        create_buffer(4, Some(&data[..])).unwrap_err(),
        Error::message("ocl::create_buffer: Data length mismatch.")
    );
    assert_eq!(create_buffer::<u32>(usize::MAX, None).unwrap_err(), Error::ResourceExhausted);
}

#[test]
fn program_binaries() {
    let devices = [DeviceId::from_fresh_ptr(1), DeviceId::from_fresh_ptr(2)];
    let binaries = vec![vec![1u8, 2, 3], vec![]];
    assert_eq!(create_program_with_binary(&devices, &binaries), Ok(vec![3, 0]));
    assert_eq!(
        create_program_with_binary(&[], &binaries).unwrap_err(),
        Error::message(
            "ocl::create_program_with_binary: Length of 'devices' must be greater than zero."
        )
    );
    assert_eq!(
        create_program_with_binary(&devices, &vec![vec![1u8]]).unwrap_err(),
        Error::message(
            "ocl::create_program_with_binary: Length of 'devices' must equal the length of 'binaries' (e.g. one binary per device)."
        )
    );
}

#[test]
fn binary_status_of_each_device() {
    assert_eq!(binary_status_result(0, &[0, 0, 0]), Ok(()));
    assert_eq!(binary_status_result(0, &[]), Ok(()));
    assert_eq!(
        binary_status_result(0, &[0, -42, -5]).unwrap_err().description(),
        " { OPENCL ERROR: \"clCreateProgramWithBinary: Device [1] failed with code [-42]: CL_INVALID_BINARY\" } "
    );
    assert_eq!(
        binary_status_result(-33, &[0, -42]).unwrap_err().description(),
        " { OPENCL ERROR: \"clCreateProgramWithBinary failed with code [-33]: CL_INVALID_DEVICE\" } "
    );
    let mut many = vec![0; 12];
    many[11] = 1;
    assert_eq!(
        binary_status_result(0, &many).unwrap_err().description(),
        " { OPENCL ERROR: \"clCreateProgramWithBinary: Device [11] failed with code [1]: [Unknown Error Code: 1]\" } "
    );
}

#[test]
fn platforms_and_devices() {
    assert_eq!(
        get_first_platform(&vec![]).unwrap_err(),
        Error::message("No platforms found!")
    );
    assert_eq!(
        get_first_platform(&vec![PlatformId::from_fresh_ptr(3), PlatformId::from_fresh_ptr(4)]),
        Ok(PlatformId::from_fresh_ptr(3))
    );
    assert_eq!(get_platform_ids(0, 2), Ok(vec![PlatformId::null(), PlatformId::null()]));
    assert_eq!(get_platform_ids(0, 0), Ok(vec![]));
    assert_eq!(
        get_platform_ids(-32, 2).unwrap_err().description(),
        " { OPENCL ERROR: \"clGetPlatformIDs() failed with code [-32]: CL_INVALID_PLATFORM\" } "
    );
    let filled: Vec<DeviceId> = (1..=16).map(DeviceId::from_fresh_ptr).collect();
    assert_eq!(get_device_ids(0, filled.clone(), 3), Ok(filled[..3].to_vec()));
    assert_eq!(get_device_ids(0, filled.clone(), 16), Ok(filled.clone()));
    assert_eq!(get_device_ids(0, filled.clone(), 40), Ok(filled.clone()));
    assert_eq!(get_device_ids(0, filled.clone(), 0), Ok(vec![]));
    assert_eq!(get_device_ids(-1, filled, 3).unwrap_err().api_code(), Some(-1));
}

#[test]
fn extension_function_address() {
    assert_eq!(get_extension_function_address_for_platform(0x4000), Ok(0x4000));
    assert_eq!(
        get_extension_function_address_for_platform(0).unwrap_err(),
        Error::message(
            "The specified function does not exist for the implementation or 'platform' is not a valid platform."
        )
    );
}
