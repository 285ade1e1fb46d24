use std::sync::Arc;

use oneapi_rs::sycl::result::{sycl_rs_result_t, SyclError};
use oneapi_rs::sycl::safe::{
    bytes_for_len, invalid_argument, length_mismatch, memcpy_size, sycl_rs_alloc_kind_t, AllocRequest,
    DeviceCopy, DevicePtr, SyclBuffer, SyclContext, SyclDevice, SyclEvent, SyclKernel, SyclKernelArg,
    SyclProgram, SyclQueue,
};

fn queue() -> Arc<SyclQueue> {
    let device = Arc::new(SyclDevice::from_handle(1));
    let context = Arc::new(SyclContext::from_parts(2, device));
    Arc::new(SyclQueue::from_parts(3, context))
}

fn mismatch() -> SyclError {
    SyclError {
        code: sycl_rs_result_t::SYCL_RS_RESULT_INVALID_ARGUMENT,
        message: "buffer length mismatch".to_string(),
    }
}

#[test]
fn sycl_result_success_is_ok() {
    assert_eq!(sycl_rs_result_t::SYCL_RS_RESULT_SUCCESS.result("ignored".to_string()), Ok(()));
}

#[test]
fn result_error_carries_code_and_message() {
    let r = sycl_rs_result_t::SYCL_RS_RESULT_OUT_OF_MEMORY.result("no memory".to_string());
    assert_eq!(
        r,
        Err(SyclError { code: sycl_rs_result_t::SYCL_RS_RESULT_OUT_OF_MEMORY, message: "no memory".to_string() })
    );
}

#[test]
fn codes_match_the_header() {
    assert_eq!(sycl_rs_result_t::SYCL_RS_RESULT_SUCCESS.code(), 0);
    assert_eq!(sycl_rs_result_t::SYCL_RS_RESULT_INVALID_ARGUMENT.code(), 1);
    assert_eq!(sycl_rs_result_t::SYCL_RS_RESULT_OUT_OF_MEMORY.code(), 2);
    assert_eq!(sycl_rs_result_t::SYCL_RS_RESULT_RUNTIME_ERROR.code(), 3);
    assert_eq!(sycl_rs_result_t::from_code(3), Some(sycl_rs_result_t::SYCL_RS_RESULT_RUNTIME_ERROR));
    assert_eq!(sycl_rs_result_t::from_code(4), None);
}

#[test]
fn error_description() {
    let e = SyclError::new(sycl_rs_result_t::SYCL_RS_RESULT_RUNTIME_ERROR, String::new());
    assert_eq!(e.describe(), "SYCL error code 3");
    let e = SyclError::new(sycl_rs_result_t::SYCL_RS_RESULT_INVALID_ARGUMENT, "bad queue".to_string());
    assert_eq!(e.describe(), "bad queue (code 1)");
}

#[test]
fn invalid_argument_and_mismatch_errors() {
    assert_eq!(
        invalid_argument("x"),
        SyclError { code: sycl_rs_result_t::SYCL_RS_RESULT_INVALID_ARGUMENT, message: "x".to_string() }
    );
    assert_eq!(length_mismatch(), mismatch());
}

#[test]
fn bytes_for_len_checks_overflow() {
    assert_eq!(bytes_for_len::<u32>(3), Ok(12));
    assert_eq!(bytes_for_len::<u64>(usize::MAX), Err(mismatch()));
}

#[test]
fn memcpy_size_needs_equal_lengths() {
    assert_eq!(memcpy_size::<u16>(4, 4), Ok(8));
    assert_eq!(memcpy_size::<u16>(4, 5), Err(mismatch()));
    assert_eq!(memcpy_size::<u8>(0, 0), Ok(0));
}

#[test]
fn alloc_request_skips_empty_allocations() {
    assert_eq!(SyclQueue::alloc_request::<u32>(0), Ok(None));
    assert_eq!(SyclQueue::alloc_request::<u32>(5), Ok(Some(AllocRequest { bytes: 20, alignment: 4 })));
    assert_eq!(SyclQueue::alloc_request::<u64>(usize::MAX), Err(mismatch()));
}

#[test]
fn host_buffer_for_copy_back() {
    let v: Vec<i64> = SyclQueue::host_buffer(3);
    assert_eq!(v, vec![0, 0, 0]);
}

#[test]
fn accessors_follow_construction() {
    let q = queue();
    assert_eq!(q.handle(), 3);
    assert_eq!(q.context().handle(), 2);
    assert_eq!(q.context().device().handle(), 1);
    let b: SyclBuffer<u8> = SyclBuffer::from_raw_parts(0x40, 16, q.clone(), sycl_rs_alloc_kind_t::SYCL_RS_ALLOC_KIND_SHARED);
    assert_eq!(b.len(), 16);
    assert!(!b.is_empty());
    assert_eq!(b.as_mut_ptr(), 0x40);
    assert_eq!(b.device_ptr(), 0x40);
    assert_eq!(b.queue().handle(), 3);
    assert_eq!(b.allocation_kind(), sycl_rs_alloc_kind_t::SYCL_RS_ALLOC_KIND_SHARED);
    let program = Arc::new(SyclProgram::from_parts(7, q.context().clone()));
    assert_eq!(program.context().handle(), 2);
    assert_eq!(program.handle(), 7);
    let kernel = SyclKernel::from_parts(8, program);
    assert_eq!(kernel.program().handle(), 7);
    assert_eq!(kernel.handle(), 8);
    assert_eq!(SyclEvent::from_handle(9).handle(), 9);
}

#[test]
fn kernel_name_refuses_interior_nul() {
    assert_eq!(SyclProgram::kernel_name("vec_add"), Ok(b"vec_add\0".to_vec()));
    assert_eq!(
        SyclProgram::kernel_name("a\0b"),
        Err(SyclError {
            code: sycl_rs_result_t::SYCL_RS_RESULT_INVALID_ARGUMENT,
            message: "kernel name contains interior NUL".to_string(),
        })
    );
}

#[test]
fn build_log_text_of_c_string() {
    assert_eq!(SyclProgram::build_log_text(None), "");
    assert_eq!(SyclProgram::build_log_text(Some(b"ok")), "ok");
    assert_eq!(SyclProgram::build_log_text(Some(&[0xc3, 0x28])), "\u{fffd}(");
}

#[test]
fn scalar_arguments_are_native_bytes() {
    assert_eq!(SyclKernelArg::scalar(&0x0102_0304u32).bytes(), &0x0102_0304u32.to_ne_bytes());
    assert_eq!(SyclKernelArg::scalar(&-2i16).bytes(), &(-2i16).to_ne_bytes());
    assert_eq!(SyclKernelArg::scalar(&true).bytes(), &[1]);
    assert_eq!(SyclKernelArg::scalar(&7u8).bytes(), &[7]);
    assert_eq!(SyclKernelArg::scalar(&-1i8).bytes(), &[0xff]);
    assert_eq!(SyclKernelArg::scalar(&9u64).bytes(), &9u64.to_ne_bytes());
    assert_eq!(SyclKernelArg::scalar(&5u128).bytes(), &5u128.to_ne_bytes());
    assert_eq!(SyclKernelArg::scalar(&-5isize).bytes(), &(-5isize).to_ne_bytes());
    let mut expected = 1u16.to_ne_bytes().to_vec();
    expected.extend_from_slice(&2u16.to_ne_bytes());
    assert_eq!(SyclKernelArg::scalar(&[1u16, 2u16]).bytes(), expected.as_slice());
    assert_eq!([3u32, 4u32].device_bytes().len(), 8);
}

#[test]
fn pointer_arguments_hold_the_address() {
    let mut b: SyclBuffer<u32> = SyclBuffer::from_raw_parts(0xdead_beef, 4, queue(), sycl_rs_alloc_kind_t::SYCL_RS_ALLOC_KIND_DEVICE);
    assert_eq!(SyclKernelArg::buffer(&b).bytes(), &0xdead_beefusize.to_ne_bytes());
    assert_eq!(SyclKernelArg::buffer_mut(&mut b).bytes(), &0xdead_beefusize.to_ne_bytes());
    assert_eq!(SyclKernelArg::ptr(16).bytes(), &16usize.to_ne_bytes());
    assert_eq!(SyclKernelArg::ptr_mut(32).bytes(), &32usize.to_ne_bytes());
    assert_eq!(SyclKernelArg::device_ptr::<u32, _>(&b), SyclKernelArg::ptr(0xdead_beef));
    assert_eq!(SyclKernelArg::device_ptr_mut::<u32, _>(&mut b), SyclKernelArg::ptr(0xdead_beef));
}

#[test]
fn mutable_buffer_argument_leaves_buffer_unchanged() {
    let q = queue();
    let mut b: SyclBuffer<u16> = SyclBuffer::from_raw_parts(0x40, 3, q.clone(), sycl_rs_alloc_kind_t::SYCL_RS_ALLOC_KIND_SHARED);
    let arg = SyclKernelArg::buffer_mut(&mut b);
    assert_eq!(arg, SyclKernelArg::buffer(&b));
    assert_eq!(b.as_mut_ptr(), 0x40);
    assert_eq!(b.len(), 3);
    assert_eq!(b.allocation_kind(), sycl_rs_alloc_kind_t::SYCL_RS_ALLOC_KIND_SHARED);
    assert!(Arc::ptr_eq(b.queue(), &q));
}

#[test]
fn scalar_argument_length_is_value_size() {
    assert_eq!(SyclKernelArg::scalar(&7u16).bytes().len(), 2);
    assert_eq!(SyclKernelArg::scalar(&7i32).bytes().len(), 4);
    assert_eq!(SyclKernelArg::scalar(&7usize).bytes().len(), std::mem::size_of::<usize>());
    assert_eq!(SyclKernelArg::scalar(&[1u64, 2, 3]).bytes().len(), 24);
    assert_eq!(SyclKernelArg::ptr(1).bytes().len(), std::mem::size_of::<usize>());
}

#[test]
fn allocations_keep_their_kind_and_length() {
    let q = queue();
    let d: SyclBuffer<u32> = SyclBuffer::device_allocation(0x100, 4, q.clone());
    assert_eq!((d.as_mut_ptr(), d.len()), (0x100, 4));
    assert_eq!(d.allocation_kind(), sycl_rs_alloc_kind_t::SYCL_RS_ALLOC_KIND_DEVICE);
    let s: SyclBuffer<u8> = SyclBuffer::shared_allocation(0x200, 9, q.clone());
    assert_eq!((s.as_mut_ptr(), s.len()), (0x200, 9));
    assert_eq!(s.allocation_kind(), sycl_rs_alloc_kind_t::SYCL_RS_ALLOC_KIND_SHARED);
    let h: SyclBuffer<u64> = SyclBuffer::host_allocation(0, 0, q.clone());
    assert_eq!((h.as_mut_ptr(), h.len()), (0, 0));
    assert_eq!(h.allocation_kind(), sycl_rs_alloc_kind_t::SYCL_RS_ALLOC_KIND_HOST);
    assert!(Arc::ptr_eq(h.queue(), &q));
}

#[test]
fn null_pointer_arguments_are_zero_bytes() {
    let q = queue();
    let mut empty: SyclBuffer<u32> = SyclBuffer::device_allocation(0, 0, q);
    assert!(SyclKernelArg::buffer(&empty).bytes().iter().all(|b| *b == 0));
    assert!(SyclKernelArg::buffer_mut(&mut empty).bytes().iter().all(|b| *b == 0));
    assert_eq!(SyclKernelArg::ptr(0).bytes(), &[0u8; std::mem::size_of::<usize>()]);
}
