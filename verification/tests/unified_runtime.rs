use std::sync::Arc;

use oneapi_rs::unified_runtime::adapters::AdapterRetention;
use oneapi_rs::unified_runtime::calls::{UrCall, UrReply};
use oneapi_rs::unified_runtime::count::{DeviceCount, PlatformDeviceCount};
use oneapi_rs::unified_runtime::creation::{ContextCreation, ContextParts};
use oneapi_rs::unified_runtime::enumeration::DeviceEnumeration;
use oneapi_rs::unified_runtime::result::{ur_result_t, UnifiedRuntimeError};
use oneapi_rs::unified_runtime::safe::{queue_device, same_handles, Context, Queue, UrDeviceSlice};
use oneapi_rs::unified_runtime::setup::{copy_handles, ContextSetup};
use oneapi_rs::unified_runtime::sizes::{copy_size, usm_size};

fn ok() -> UrReply {
    UrReply::Status(ur_result_t::UR_RESULT_SUCCESS)
}

fn err(code: ur_result_t) -> UnifiedRuntimeError {
    UnifiedRuntimeError(code)
}

fn handles(hs: &[u64]) -> UrReply {
    UrReply::Handles(Ok(hs.to_vec()))
}

/// Runs `next`/`resume` with the replies in order, returning the calls made.
fn drive<M>(
    machine: &mut M,
    replies: Vec<UrReply>,
    next: fn(&M) -> Option<UrCall>,
    resume: fn(&mut M, UrReply),
) -> Vec<UrCall> {
    let mut calls = Vec::new();
    let mut replies = replies.into_iter();
    while let Some(call) = next(machine) {
        calls.push(call);
        let reply = replies.next().expect("a reply for every call");
        resume(machine, reply);
    }
    assert!(replies.next().is_none(), "every reply used");
    calls
}

#[test]
fn raw_codes_map_to_named_variants() {
    assert_eq!(ur_result_t::from_raw(0), ur_result_t::UR_RESULT_SUCCESS);
    assert_eq!(ur_result_t::from_raw(19), ur_result_t::UR_RESULT_ERROR_INVALID_DEVICE);
    assert_eq!(ur_result_t::from_raw(49), ur_result_t::UR_RESULT_ERROR_INVALID_SIZE);
    assert_eq!(ur_result_t::from_raw(53), ur_result_t::UR_RESULT_ERROR_INVALID_ENUMERATION);
    assert_eq!(ur_result_t::from_raw(40), ur_result_t::UR_RESULT_ERROR_OTHER(40));
    assert_eq!(ur_result_t::from_raw(0).result(), Ok(()));
    assert_eq!(ur_result_t::from_raw(19).result(), Err(UnifiedRuntimeError(ur_result_t::UR_RESULT_ERROR_INVALID_DEVICE)));
}

#[test]
fn result_success_is_ok() {
    assert_eq!(ur_result_t::UR_RESULT_SUCCESS.result(), Ok(()));
}

#[test]
fn result_error_keeps_code() {
    assert_eq!(
        ur_result_t::UR_RESULT_ERROR_INVALID_DEVICE.result(),
        Err(err(ur_result_t::UR_RESULT_ERROR_INVALID_DEVICE))
    );
    assert_eq!(
        ur_result_t::UR_RESULT_ERROR_OTHER(40).result(),
        Err(err(ur_result_t::UR_RESULT_ERROR_OTHER(40)))
    );
}

#[test]
fn usm_size_multiplies_by_element_size() {
    assert_eq!(usm_size::<u32>(10), Ok(40));
    assert_eq!(usm_size::<u64>(0), Ok(0));
    assert_eq!(usm_size::<u8>(usize::MAX), Ok(usize::MAX));
}

#[test]
fn usm_size_overflow_is_invalid_size() {
    assert_eq!(usm_size::<u64>(usize::MAX / 4), Err(err(ur_result_t::UR_RESULT_ERROR_INVALID_SIZE)));
}

#[test]
fn copy_size_requires_equal_lengths() {
    assert_eq!(copy_size::<u16>(3, 3), Ok(6));
    assert_eq!(copy_size::<u16>(3, 4), Err(err(ur_result_t::UR_RESULT_ERROR_INVALID_SIZE)));
    assert_eq!(copy_size::<u32>(usize::MAX, usize::MAX), Err(err(ur_result_t::UR_RESULT_ERROR_INVALID_SIZE)));
}

#[test]
fn enumeration_retains_devices_in_order() {
    let mut e = DeviceEnumeration::new(vec![1, 2]);
    let calls = drive(
        &mut e,
        vec![
            handles(&[10, 11]),
            handles(&[100]),
            ok(),
            handles(&[]),
            handles(&[20]),
            handles(&[200, 201]),
            ok(),
            ok(),
        ],
        DeviceEnumeration::next_call,
        DeviceEnumeration::resume,
    );
    assert_eq!(
        calls,
        vec![
            UrCall::PlatformGet(1),
            UrCall::DeviceGet(10),
            UrCall::DeviceRetain(100),
            UrCall::DeviceGet(11),
            UrCall::PlatformGet(2),
            UrCall::DeviceGet(20),
            UrCall::DeviceRetain(200),
            UrCall::DeviceRetain(201),
        ]
    );
    assert_eq!(e.finish(), Ok(vec![100, 200, 201]));
}

#[test]
fn enumeration_without_adapters_finds_nothing() {
    let e = DeviceEnumeration::new(vec![]);
    assert!(e.is_finished());
    assert_eq!(e.next_call(), None);
    assert_eq!(e.finish(), Ok(vec![]));
}

#[test]
fn enumeration_device_failure_releases_kept_devices() {
    let failure = err(ur_result_t::UR_RESULT_ERROR_OTHER(7));
    let mut e = DeviceEnumeration::new(vec![1]);
    let calls = drive(
        &mut e,
        vec![
            handles(&[10, 11]),
            handles(&[100, 101]),
            ok(),
            ok(),
            UrReply::Handles(Err(failure)),
            ok(),
            ok(),
        ],
        DeviceEnumeration::next_call,
        DeviceEnumeration::resume,
    );
    assert_eq!(&calls[4..], &[UrCall::DeviceGet(11), UrCall::DeviceRelease(100), UrCall::DeviceRelease(101)]);
    assert_eq!(e.finish(), Err(failure));
}

#[test]
fn enumeration_platform_failure_ends_at_once() {
    let failure = err(ur_result_t::UR_RESULT_ERROR_OTHER(3));
    let mut e = DeviceEnumeration::new(vec![1, 2]);
    let calls = drive(
        &mut e,
        vec![handles(&[10]), handles(&[100]), ok(), UrReply::Handles(Err(failure))],
        DeviceEnumeration::next_call,
        DeviceEnumeration::resume,
    );
    assert_eq!(calls.last(), Some(&UrCall::PlatformGet(2)));
    assert_eq!(e.finish(), Err(failure));
}

#[test]
fn enumeration_retain_failure_ends_at_once() {
    let mut e = DeviceEnumeration::new(vec![1]);
    let calls = drive(
        &mut e,
        vec![handles(&[10]), handles(&[100, 101]), ok(), UrReply::Status(ur_result_t::UR_RESULT_ERROR_INVALID_DEVICE)],
        DeviceEnumeration::next_call,
        DeviceEnumeration::resume,
    );
    assert_eq!(calls.len(), 4);
    assert_eq!(e.finish(), Err(err(ur_result_t::UR_RESULT_ERROR_INVALID_DEVICE)));
}

#[test]
fn creation_of_empty_device_list_releases_adapters() {
    let mut c = ContextCreation::new(vec![], vec![5, 6]);
    let calls = drive(&mut c, vec![ok(), ok()], ContextCreation::next_call, ContextCreation::resume);
    assert_eq!(calls, vec![UrCall::AdapterRelease(5), UrCall::AdapterRelease(6)]);
    assert_eq!(c.finish(), Err(err(ur_result_t::UR_RESULT_ERROR_INVALID_SIZE)));
}

#[test]
fn creation_succeeds_with_all_parts() {
    let mut c = ContextCreation::new(vec![100, 101], vec![5]);
    let calls = drive(
        &mut c,
        vec![ok(), ok(), UrReply::Handle(Ok(77))],
        ContextCreation::next_call,
        ContextCreation::resume,
    );
    assert_eq!(
        calls,
        vec![UrCall::DeviceRetain(100), UrCall::DeviceRetain(101), UrCall::ContextCreate(vec![100, 101])]
    );
    assert_eq!(c.finish(), Ok(ContextParts { handle: 77, devices: vec![100, 101], adapters: vec![5] }));
}

#[test]
fn creation_failure_releases_devices_then_adapters() {
    let failure = err(ur_result_t::UR_RESULT_ERROR_OTHER(9));
    let mut c = ContextCreation::new(vec![100], vec![5]);
    let calls = drive(
        &mut c,
        vec![ok(), UrReply::Handle(Err(failure)), ok(), ok()],
        ContextCreation::next_call,
        ContextCreation::resume,
    );
    assert_eq!(
        calls,
        vec![
            UrCall::DeviceRetain(100),
            UrCall::ContextCreate(vec![100]),
            UrCall::DeviceRelease(100),
            UrCall::AdapterRelease(5),
        ]
    );
    assert_eq!(c.finish(), Err(failure));
}

#[test]
fn creation_retain_failure_ends_at_once() {
    let mut c = ContextCreation::new(vec![100, 101], vec![5]);
    let calls = drive(
        &mut c,
        vec![ok(), UrReply::Status(ur_result_t::UR_RESULT_ERROR_OTHER(2))],
        ContextCreation::next_call,
        ContextCreation::resume,
    );
    assert_eq!(calls.len(), 2);
    assert_eq!(c.finish(), Err(err(ur_result_t::UR_RESULT_ERROR_OTHER(2))));
}

#[test]
fn setup_creates_context_on_chosen_device() {
    let mut s = ContextSetup::new(1);
    let calls = drive(
        &mut s,
        vec![
            ok(),
            handles(&[1]),
            handles(&[10]),
            handles(&[100, 101]),
            ok(),
            ok(),
            ok(),
            UrReply::Handle(Ok(77)),
            ok(),
            ok(),
        ],
        ContextSetup::next_call,
        ContextSetup::resume,
    );
    assert_eq!(
        calls,
        vec![
            UrCall::LoaderInit,
            UrCall::AdapterGet,
            UrCall::PlatformGet(1),
            UrCall::DeviceGet(10),
            UrCall::DeviceRetain(100),
            UrCall::DeviceRetain(101),
            UrCall::DeviceRetain(101),
            UrCall::ContextCreate(vec![101]),
            UrCall::DeviceRelease(100),
            UrCall::DeviceRelease(101),
        ]
    );
    let parts = s.finish().unwrap();
    assert_eq!(parts, ContextParts { handle: 77, devices: vec![101], adapters: vec![1] });
    let ctx = Context::from_parts(parts);
    assert_eq!(ctx.handle(), 77);
    assert_eq!(ctx.devices(), &[101]);
    assert_eq!(ctx.adapters(), &[1]);
}

#[test]
fn setup_refuses_missing_ordinal() {
    let mut s = ContextSetup::new(2);
    let calls = drive(
        &mut s,
        vec![ok(), handles(&[1]), handles(&[10]), handles(&[100]), ok(), ok(), ok()],
        ContextSetup::next_call,
        ContextSetup::resume,
    );
    assert_eq!(&calls[5..], &[UrCall::AdapterRelease(1), UrCall::DeviceRelease(100)]);
    assert_eq!(s.finish(), Err(err(ur_result_t::UR_RESULT_ERROR_INVALID_DEVICE)));
}

#[test]
fn setup_refusal_releases_everything_whatever_the_answers() {
    let failure = UrReply::Status(ur_result_t::UR_RESULT_ERROR_OTHER(9));
    let mut s = ContextSetup::new(3);
    let calls = drive(
        &mut s,
        vec![
            ok(),
            handles(&[1, 2]),
            handles(&[10]),
            handles(&[100, 101]),
            ok(),
            ok(),
            handles(&[20]),
            handles(&[102]),
            ok(),
            ok(),
            failure,
            ok(),
            ok(),
            ok(),
        ],
        ContextSetup::next_call,
        ContextSetup::resume,
    );
    assert_eq!(
        &calls[9..],
        &[
            UrCall::AdapterRelease(1),
            UrCall::AdapterRelease(2),
            UrCall::DeviceRelease(100),
            UrCall::DeviceRelease(101),
            UrCall::DeviceRelease(102),
        ]
    );
    assert!(!calls.iter().any(|c| matches!(c, UrCall::ContextCreate(_))));
    assert_eq!(s.finish(), Err(err(ur_result_t::UR_RESULT_ERROR_INVALID_DEVICE)));
}

#[test]
fn setup_loader_failure_stops() {
    let mut s = ContextSetup::new(0);
    let calls = drive(
        &mut s,
        vec![UrReply::Status(ur_result_t::UR_RESULT_ERROR_OTHER(1))],
        ContextSetup::next_call,
        ContextSetup::resume,
    );
    assert_eq!(calls, vec![UrCall::LoaderInit]);
    assert_eq!(s.finish(), Err(err(ur_result_t::UR_RESULT_ERROR_OTHER(1))));
}

#[test]
fn setup_creation_failure_still_releases_discovered() {
    let failure = err(ur_result_t::UR_RESULT_ERROR_OTHER(4));
    let mut s = ContextSetup::new(0);
    let calls = drive(
        &mut s,
        vec![
            ok(),
            handles(&[1]),
            handles(&[10]),
            handles(&[100]),
            ok(),
            ok(),
            UrReply::Handle(Err(failure)),
            ok(),
            ok(),
            ok(),
        ],
        ContextSetup::next_call,
        ContextSetup::resume,
    );
    assert_eq!(
        &calls[6..],
        &[UrCall::ContextCreate(vec![100]), UrCall::DeviceRelease(100), UrCall::AdapterRelease(1), UrCall::DeviceRelease(100)]
    );
    assert_eq!(s.finish(), Err(failure));
}

#[test]
fn device_count_releases_everything() {
    let mut c = DeviceCount::new();
    let calls = drive(
        &mut c,
        vec![ok(), handles(&[1]), handles(&[10, 11]), handles(&[100]), ok(), handles(&[110]), ok(), ok(), ok(), ok()],
        DeviceCount::next_call,
        DeviceCount::resume,
    );
    assert_eq!(
        &calls[7..],
        &[UrCall::AdapterRelease(1), UrCall::DeviceRelease(100), UrCall::DeviceRelease(110)]
    );
    assert_eq!(c.finish(), Ok(2));
}

#[test]
fn device_count_discovery_failure_releases_adapters() {
    let failure = err(ur_result_t::UR_RESULT_ERROR_OTHER(6));
    let mut c = DeviceCount::new();
    let calls = drive(
        &mut c,
        vec![ok(), handles(&[1, 2]), UrReply::Handles(Err(failure)), ok(), ok()],
        DeviceCount::next_call,
        DeviceCount::resume,
    );
    assert_eq!(&calls[3..], &[UrCall::AdapterRelease(1), UrCall::AdapterRelease(2)]);
    assert_eq!(c.finish(), Err(failure));
}

#[test]
fn platform_count_adds_list_lengths() {
    let mut c = PlatformDeviceCount::new();
    let replies = vec![
        ok(),
        handles(&[1, 2]),
        handles(&[10, 11]),
        handles(&[100, 101, 102]),
        handles(&[110]),
        handles(&[20]),
        handles(&[]),
        ok(),
        ok(),
    ];
    let calls = drive(&mut c, replies, PlatformDeviceCount::next_call, PlatformDeviceCount::resume);
    assert_eq!(&calls[7..], &[UrCall::AdapterRelease(1), UrCall::AdapterRelease(2)]);
    assert_eq!(c.finish(), Ok(4));
}

#[test]
fn platform_count_without_adapters_is_zero() {
    let mut c = PlatformDeviceCount::new();
    let calls = drive(&mut c, vec![ok(), handles(&[])], PlatformDeviceCount::next_call, PlatformDeviceCount::resume);
    assert_eq!(calls, vec![UrCall::LoaderInit, UrCall::AdapterGet]);
    assert_eq!(c.finish(), Ok(0));
}

#[test]
fn platform_count_failure_releases_adapters() {
    let failure = err(ur_result_t::UR_RESULT_ERROR_OTHER(8));
    let mut c = PlatformDeviceCount::new();
    let calls = drive(
        &mut c,
        vec![ok(), handles(&[1]), handles(&[10]), UrReply::Handles(Err(failure)), ok()],
        PlatformDeviceCount::next_call,
        PlatformDeviceCount::resume,
    );
    assert_eq!(calls.last(), Some(&UrCall::AdapterRelease(1)));
    assert_eq!(c.finish(), Err(failure));
}

#[test]
fn platform_count_checks_overflow() {
    let mut c = PlatformDeviceCount::new();
    c.resume(ok());
    c.resume(handles(&[1]));
    c.resume(handles(&[10]));
    assert!(c.fits(&handles(&[100, 101])));
}

#[test]
fn adapter_retention_retains_each() {
    let mut r = AdapterRetention::new(vec![1, 2]);
    let calls = drive(&mut r, vec![ok(), ok()], AdapterRetention::next_call, AdapterRetention::resume);
    assert_eq!(calls, vec![UrCall::AdapterRetain(1), UrCall::AdapterRetain(2)]);
    assert_eq!(r.finish(), Ok(vec![1, 2]));
}

#[test]
fn adapter_retention_stops_at_failure() {
    let mut r = AdapterRetention::new(vec![1, 2, 3]);
    let calls = drive(
        &mut r,
        vec![ok(), UrReply::Status(ur_result_t::UR_RESULT_ERROR_OTHER(5))],
        AdapterRetention::next_call,
        AdapterRetention::resume,
    );
    assert_eq!(calls.len(), 2);
    assert_eq!(r.finish(), Err(err(ur_result_t::UR_RESULT_ERROR_OTHER(5))));
}

#[test]
fn queue_takes_first_device() {
    assert_eq!(queue_device(&[7, 8]), Ok(7));
    assert_eq!(queue_device(&[]), Err(err(ur_result_t::UR_RESULT_ERROR_INVALID_DEVICE)));
    let ctx = Arc::new(Context::from_parts(ContextParts { handle: 1, devices: vec![3, 4], adapters: vec![] }));
    assert_eq!(Queue::device_for(&ctx), Ok(3));
    let q = Arc::new(Queue::from_parts(9, ctx.clone(), 3));
    assert_eq!(q.handle(), 9);
    assert_eq!(q.device(), 3);
    assert!(Context::eq(q.context(), &ctx));
    assert!(Queue::eq(&q, &Queue::from_parts(9, ctx.clone(), 3)));
    assert!(!Queue::eq(&q, &Queue::from_parts(9, ctx, 4)));
}

#[test]
fn device_slice_accessors() {
    let ctx = Arc::new(Context::from_parts(ContextParts { handle: 1, devices: vec![3], adapters: vec![2] }));
    let q = Arc::new(Queue::from_parts(9, ctx, 3));
    let s: UrDeviceSlice<u32> = UrDeviceSlice::from_raw_parts(0x1000, 4, q.clone());
    assert_eq!(s.len(), 4);
    assert!(!s.is_empty());
    assert_eq!(s.as_mut_ptr(), 0x1000);
    assert_eq!(s.queue().handle(), 9);
    let empty: UrDeviceSlice<u32> = UrDeviceSlice::from_raw_parts(0, 0, q);
    assert!(empty.is_empty());
}

#[test]
fn context_equality_compares_all_parts() {
    let a = Context::from_parts(ContextParts { handle: 1, devices: vec![3], adapters: vec![2] });
    let b = Context::from_parts(ContextParts { handle: 1, devices: vec![3], adapters: vec![2] });
    let c = Context::from_parts(ContextParts { handle: 1, devices: vec![3], adapters: vec![] });
    assert!(a.eq(&b));
    assert!(!a.eq(&c));
    assert!(same_handles(&vec![1, 2], &vec![1, 2]));
    assert!(!same_handles(&vec![1, 2], &vec![2, 1]));
    assert_eq!(copy_handles(&vec![4, 5, 6]), vec![4, 5, 6]);
}
