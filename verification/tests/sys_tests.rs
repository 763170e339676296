use windows_kernel::macros::{InitializeObjectAttributes, PAGED_CODE};
use windows_kernel::string::UNICODE_STRING;
use windows_kernel::sys::base::{
    NT_SUCCESS, OBJECT_ATTRIBUTES, OBJ_CASE_INSENSITIVE, OBJ_KERNEL_HANDLE, STATUS_SUCCESS, STATUS_UNSUCCESSFUL,
};
use windows_kernel::sys::fltmgr::{FLT_OPERATION_REGISTRATION, PostOperationRoutine, PreOperationRoutine};
use windows_kernel::sys::mutex::{
    ExAcquireFastMutex, ExInitializeFastMutex, ExReleaseFastMutex, KeInitializeEvent, FAST_MUTEX, KEVENT,
    NotificationEvent, SynchronizationEvent,
};

#[test]
fn nt_success_is_non_negative() {
    assert!(NT_SUCCESS(STATUS_SUCCESS));
    assert!(NT_SUCCESS(0x103));
    assert!(!NT_SUCCESS(STATUS_UNSUCCESSFUL));
    assert!(!NT_SUCCESS(-1));
}

#[test]
fn paged_code_refuses_above_apc_level() {
    assert_eq!(PAGED_CODE(0), None);
    assert_eq!(PAGED_CODE(1), None);
    assert_eq!(PAGED_CODE(2), Some(STATUS_UNSUCCESSFUL));
}

#[test]
fn registration_new_is_empty() {
    let r = FLT_OPERATION_REGISTRATION::new();
    assert_eq!(r.MajorFunction, 0);
    assert_eq!(r.Flags, 0);
    assert_eq!(r.PreOperation, None);
    assert_eq!(r.PostOperation, None);
    assert_eq!(r.Reserved1, 0);
}

#[test]
fn registration_builders_set_one_field() {
    let r = FLT_OPERATION_REGISTRATION::new()
        .set_major_function(FLT_OPERATION_REGISTRATION::IRP_MJ_SET_INFORMATION)
        .set_flags(3)
        .set_preop(Some(PreOperationRoutine(0x1000)))
        .set_postop(Some(PostOperationRoutine(0x2000)));
    assert_eq!(r.MajorFunction, 0x06);
    assert_eq!(r.Flags, 3);
    assert_eq!(r.PreOperation, Some(PreOperationRoutine(0x1000)));
    assert_eq!(r.PostOperation, Some(PostOperationRoutine(0x2000)));
    let s = r.set_major_function(FLT_OPERATION_REGISTRATION::IRP_MJ_CREATE);
    assert_eq!(s.MajorFunction, 0);
    assert_eq!(s.Flags, 3);
    assert_eq!(s.PreOperation, r.PreOperation);
    assert_eq!(s.PostOperation, r.PostOperation);
}

#[test]
fn registration_builders_commute() {
    let base = FLT_OPERATION_REGISTRATION::new();
    let a = base.set_preop(Some(PreOperationRoutine(7))).set_major_function(FLT_OPERATION_REGISTRATION::IRP_MJ_OPERATION_END);
    let b = base.set_major_function(FLT_OPERATION_REGISTRATION::IRP_MJ_OPERATION_END).set_preop(Some(PreOperationRoutine(7)));
    assert_eq!(a, b);
    assert_eq!(a.set_flags(1).set_flags(2), a.set_flags(2));
}

#[test]
fn fast_mutex_new_is_uninitialized() {
    let m = FAST_MUTEX::new();
    assert_eq!(m.Count, 0);
    assert_eq!(m.Owner, 0);
    assert_eq!(m.Contention, 9);
    assert_eq!(m.OldIrql, 0);
    assert_eq!(m.Event.Header.Type, 0);
}

#[test]
fn fast_mutex_initialize_acquire_release() {
    let mut m = FAST_MUTEX::new();
    ExInitializeFastMutex(&mut m);
    assert_eq!(m.Count, 1);
    assert_eq!(m.Owner, 0);
    assert_eq!(m.Contention, 0);
    assert_eq!(m.Event.Header.Type, SynchronizationEvent as u8);
    assert_eq!(m.Event.Header.SignalState, 0);
    assert_eq!(m.Event.Header.Size, if usize::BITS == 64 { 6 } else { 4 });
    let before = m;
    ExAcquireFastMutex(&mut m);
    assert_eq!(m.Count, 0);
    assert_eq!(m.Event, before.Event);
    ExReleaseFastMutex(&mut m);
    assert_eq!(m.Count, 1);
    assert_eq!(m.Owner, 0);
    assert_eq!(m.Contention, before.Contention);
    assert_eq!(m.Event, before.Event);
}

#[test]
fn initialize_event_sets_kind_and_state() {
    let mut e: KEVENT = FAST_MUTEX::new().Event;
    e.Header.Type = 1;
    KeInitializeEvent(&mut e, NotificationEvent, 1);
    assert_eq!(e.Header.Type, 0);
    assert_eq!(e.Header.SignalState, 1);
    assert_eq!(e.Header.Size, if usize::BITS == 64 { 6 } else { 4 });
}

#[test]
fn object_attributes_are_filled_in() {
    let name = UNICODE_STRING::create("\\mf");
    let mut oa = OBJECT_ATTRIBUTES {
        Length: 0,
        RootDirectory: 5,
        ObjectName: None,
        Attributes: 0,
        SecurityDescriptor: 0,
        SecurityQualityOfService: 9,
    };
    InitializeObjectAttributes(&mut oa, &name, OBJ_CASE_INSENSITIVE | OBJ_KERNEL_HANDLE, 0, 0x4000);
    let expected_size = if usize::BITS == 64 { 48 } else { 24 };
    assert_eq!(oa.Length, expected_size);
    assert_eq!(oa.RootDirectory, 0);
    assert_eq!(oa.Attributes, 0x240);
    assert_eq!(oa.SecurityDescriptor, 0x4000);
    assert_eq!(oa.SecurityQualityOfService, 0);
    let object_name = oa.ObjectName.unwrap();
    assert_eq!(object_name.Length, 6);
    assert_eq!(object_name.MaximumLength, 8);
    assert_eq!(object_name.Buffer, &[0x5C, 0x6D, 0x66, 0][..]);
}
