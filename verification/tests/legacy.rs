use std::sync::Arc;

use oneapi_rs::legacy::surface::{
    event_wait_list, nul_terminated, DevicePtr, DevicePtrMut, UrContext, UrDeviceSlice, UrEvent,
    UrEventStatus, UrKernel, UrProgram, UrQueue,
};
use oneapi_rs::unified_runtime::creation::ContextParts;
use oneapi_rs::unified_runtime::result::{ur_result_t, UnifiedRuntimeError};
use oneapi_rs::unified_runtime::safe::queue_device;

fn context() -> Arc<UrContext> {
    Arc::new(UrContext::from_parts(ContextParts { handle: 5, devices: vec![50, 51], adapters: vec![1] }))
}

#[test]
fn event_status_decodes_each_raw_value() {
    assert_eq!(UrEventStatus::from_raw(0), Ok(UrEventStatus::Complete));
    assert_eq!(UrEventStatus::from_raw(1), Ok(UrEventStatus::Running));
    assert_eq!(UrEventStatus::from_raw(2), Ok(UrEventStatus::Submitted));
    assert_eq!(UrEventStatus::from_raw(3), Ok(UrEventStatus::Queued));
    assert_eq!(UrEventStatus::from_raw(4), Ok(UrEventStatus::Error));
}

#[test]
fn event_status_refuses_unknown_value() {
    let invalid = Err(UnifiedRuntimeError(ur_result_t::UR_RESULT_ERROR_INVALID_ENUMERATION));
    assert_eq!(UrEventStatus::from_raw(5), invalid);
    assert_eq!(UrEventStatus::from_raw(0x7fff_ffff), invalid);
}

#[test]
fn event_completion_only_for_complete() {
    assert_eq!(UrEventStatus::completion(0), Ok(true));
    assert_eq!(UrEventStatus::completion(1), Ok(false));
    assert_eq!(UrEventStatus::completion(4), Ok(false));
    assert!(UrEventStatus::completion(9).is_err());
    assert!(UrEventStatus::Complete.is_complete());
    assert!(!UrEventStatus::Queued.is_complete());
}

#[test]
fn wait_list_keeps_event_order() {
    let a = UrEvent::from_handle(30);
    let b = UrEvent::from_handle(10);
    let c = UrEvent::from_handle(20);
    assert_eq!(event_wait_list(&[&a, &b, &c]), vec![30, 10, 20]);
    assert_eq!(event_wait_list(&[]), Vec::<u64>::new());
    assert!(a.eq(&UrEvent::from_handle(30)));
    assert!(!a.eq(&b));
}

#[test]
fn queue_uses_first_device_of_context() {
    let ctx = context();
    assert_eq!(UrQueue::device_for(&ctx), Ok(50));
    assert_eq!(queue_device(&[]), Err(UnifiedRuntimeError(ur_result_t::UR_RESULT_ERROR_INVALID_DEVICE)));
    let q = UrQueue::from_parts(8, ctx.clone(), 50);
    assert_eq!(q.handle(), 8);
    assert_eq!(q.device(), 50);
    assert_eq!(q.context().handle(), 5);
    assert_eq!(q.context().devices(), &[50, 51]);
    assert!(UrQueue::eq(&q, &UrQueue::from_parts(8, ctx, 50)));
}

#[test]
fn host_buffer_has_requested_length() {
    let v: Vec<u32> = UrQueue::host_buffer(5);
    assert_eq!(v, vec![0; 5]);
    let e: Vec<u8> = UrQueue::host_buffer(0);
    assert!(e.is_empty());
}

#[test]
fn program_is_built_for_first_device() {
    let p = UrProgram::from_parts(11, context());
    assert_eq!(p.handle(), 11);
    assert_eq!(p.device(), 50);
    assert_eq!(p.context().handle(), 5);
}

#[test]
fn build_info_drops_trailing_nuls() {
    assert_eq!(UrProgram::build_info_text(b"warning: x\0\0\0"), "warning: x");
    assert_eq!(UrProgram::build_info_text(b""), "");
    assert_eq!(UrProgram::build_info_text(b"\0"), "");
    assert_eq!(UrProgram::build_info_text(b"a\0b\0"), "a\0b");
}

#[test]
fn build_info_decodes_lossily() {
    assert_eq!(UrProgram::build_info_text(&[0x61, 0xff, 0x62, 0]), "a\u{fffd}b");
    assert_eq!(UrProgram::build_info_text("é\0".as_bytes()), "é");
}

#[test]
fn kernel_name_is_nul_terminated() {
    assert_eq!(UrProgram::kernel_name("add"), b"add\0".to_vec());
    assert_eq!(nul_terminated(b""), vec![0]);
}

#[test]
fn kernel_arguments_and_launch_shape() {
    let p = Arc::new(UrProgram::from_parts(11, context()));
    let k = UrKernel::from_parts(12, p);
    assert_eq!(k.handle(), 12);
    assert_eq!(k.program().handle(), 11);
    assert_eq!(UrKernel::arg_size::<u64>(), 8);
    assert_eq!(UrKernel::arg_size::<[u16; 3]>(), 6);
    assert_eq!(UrKernel::global_work_size(256), [256]);
}

#[test]
fn device_slice_pointer_access() {
    let q = Arc::new(UrQueue::from_parts(8, context(), 50));
    let mut s: UrDeviceSlice<f32> = UrDeviceSlice::from_raw_parts(0x2000, 3, q);
    assert_eq!(s.len(), 3);
    assert!(!s.is_empty());
    assert_eq!(s.as_mut_ptr(), 0x2000);
    assert_eq!(s.device_ptr(), 0x2000);
    assert_eq!(s.device_ptr_mut(), 0x2000);
    assert_eq!(s.queue().handle(), 8);
}

#[test]
fn context_equality() {
    let a = context();
    let b = context();
    assert!(UrContext::eq(&a, &b));
    let c = UrContext::from_parts(ContextParts { handle: 5, devices: vec![50], adapters: vec![1] });
    assert!(!UrContext::eq(&a, &c));
    assert_eq!(a.adapters(), &[1]);
}

#[test]
fn build_log_is_empty_when_no_size_is_reported() {
    assert_eq!(UrProgram::build_log_text(0, &[]), "");
    assert_eq!(UrProgram::build_log_text(0, b"stale"), "");
    assert_eq!(UrProgram::build_log_text(4, b"ok\0\0"), "ok");
    assert_eq!(UrProgram::build_log_text(1, &[0]), "");
}
