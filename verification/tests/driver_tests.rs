use windows_kernel::driver::{
    filter_registration, operation_registrations, port_name, DriverCallbacks, DriverEntry, DriverEntryAction,
    DriverEntryStage, FilterCall,
    InstanceFilterUnloadCallback, InstanceQueryTeardownCallback, InstanceSetupCallback, MiniSendRec,
    FLT_PREOP_SUCCESS_NO_CALLBACK, MAX_CONNECTIONS, PORT_NAME_ATTRIBUTES,
};
use windows_kernel::kernel_alloc::{
    unrecoverable_error_bugcheck, KernelAlloc, BUGCHECK_CODE, POOL_FLAG_PAGED, POOL_TAG,
};
use windows_kernel::sys::base::{FLT_PORT_ALL_ACCESS, STATUS_SUCCESS, STATUS_UNSUCCESSFUL};
use windows_kernel::sys::fltmgr::{FilterRoutine, FLT_OPERATION_REGISTRATION, FLT_REGISTRATION_VERSION, PreOperationRoutine};

fn run(statuses: [i32; 4]) -> Vec<DriverEntryAction> {
    let mut d = DriverEntry::new();
    let mut actions = Vec::new();
    let mut next = 0usize;
    let mut status = STATUS_SUCCESS;
    loop {
        let action = d.step(status);
        actions.push(action);
        match action {
            DriverEntryAction::Return(_) => return actions,
            DriverEntryAction::FreeSecurityDescriptor | DriverEntryAction::UnregisterFilter => {
                status = 12345;
            }
            _ => {
                status = statuses[next];
                next += 1;
            }
        }
    }
}

fn create() -> DriverEntryAction {
    DriverEntryAction::CreateCommunicationPort { name_attributes: PORT_NAME_ATTRIBUTES, max_connections: MAX_CONNECTIONS }
}

fn build() -> DriverEntryAction {
    DriverEntryAction::BuildSecurityDescriptor { access: FLT_PORT_ALL_ACCESS }
}

#[test]
fn driver_entry_all_succeed() {
    let a = run([0, 0, 0, 0]);
    assert_eq!(
        a,
        vec![
            DriverEntryAction::RegisterFilter,
            build(),
            create(),
            DriverEntryAction::FreeSecurityDescriptor,
            DriverEntryAction::StartFiltering,
            DriverEntryAction::Return(0),
        ]
    );
}

#[test]
fn driver_entry_register_fails() {
    assert_eq!(run([-5, 0, 0, 0]), vec![DriverEntryAction::RegisterFilter, DriverEntryAction::Return(-5)]);
}

#[test]
fn driver_entry_descriptor_fails() {
    assert_eq!(run([0, -6, 0, 0]), vec![DriverEntryAction::RegisterFilter, build(), DriverEntryAction::Return(-6)]);
}

#[test]
fn driver_entry_port_fails_frees_descriptor() {
    assert_eq!(
        run([0, 0, -7, 0]),
        vec![
            DriverEntryAction::RegisterFilter,
            build(),
            create(),
            DriverEntryAction::FreeSecurityDescriptor,
            DriverEntryAction::Return(-7),
        ]
    );
}

#[test]
fn driver_entry_start_fails_unregisters() {
    assert_eq!(
        run([0, 0, 0, STATUS_UNSUCCESSFUL]),
        vec![
            DriverEntryAction::RegisterFilter,
            build(),
            create(),
            DriverEntryAction::FreeSecurityDescriptor,
            DriverEntryAction::StartFiltering,
            DriverEntryAction::UnregisterFilter,
            DriverEntryAction::Return(STATUS_UNSUCCESSFUL),
        ]
    );
}

#[test]
fn driver_entry_warning_status_counts_as_success() {
    let a = run([0x103, 1, 2, 3]);
    assert_eq!(*a.last().unwrap(), DriverEntryAction::Return(3));
    assert_eq!(a.len(), 6);
}

#[test]
fn driver_entry_stage_after_return_is_finished() {
    let mut d = DriverEntry::new();
    d.step(0);
    assert_eq!(d.stage, DriverEntryStage::AwaitRegister);
    assert_eq!(d.step(-1), DriverEntryAction::Return(-1));
    assert_eq!(d.stage, DriverEntryStage::Finished);
}

#[test]
fn port_name_attributes_combine_flags() {
    assert_eq!(PORT_NAME_ATTRIBUTES, 0x40 | 0x200);
    assert_eq!(MAX_CONNECTIONS, 1);
}

#[test]
fn port_name_is_backslash_mf() {
    let n = port_name();
    assert_eq!(n.ptr, vec![0x5C, 0x6D, 0x66, 0]);
    assert_eq!(n.Length, 6);
    assert_eq!(n.MaximumLength, 8);
    assert_eq!(n.as_rust_string(), "\\mf");
}

#[test]
fn registrations_end_with_operation_end() {
    let ops = operation_registrations(PreOperationRoutine(0xABC));
    assert_eq!(ops.len(), 2);
    assert_eq!(ops[0].MajorFunction, FLT_OPERATION_REGISTRATION::IRP_MJ_CREATE);
    assert_eq!(ops[0].PreOperation, Some(PreOperationRoutine(0xABC)));
    assert_eq!(ops[0].PostOperation, None);
    assert_eq!(ops[1].MajorFunction, FLT_OPERATION_REGISTRATION::IRP_MJ_OPERATION_END);
    assert_eq!(ops[1].PreOperation, None);
}

#[test]
fn callbacks_respect_irql() {
    assert_eq!(InstanceSetupCallback(0), STATUS_SUCCESS);
    assert_eq!(InstanceSetupCallback(2), STATUS_UNSUCCESSFUL);
    let t = InstanceQueryTeardownCallback(1);
    assert_eq!(t.calls, vec![FilterCall::UnregisterFilter]);
    assert_eq!(t.status, STATUS_SUCCESS);
    let t = InstanceQueryTeardownCallback(2);
    assert!(t.calls.is_empty());
    assert_eq!(t.status, STATUS_UNSUCCESSFUL);
    let u = InstanceFilterUnloadCallback(0);
    assert_eq!(u.calls, vec![FilterCall::CloseCommunicationPort, FilterCall::UnregisterFilter]);
    assert_eq!(u.status, STATUS_SUCCESS);
    let u = InstanceFilterUnloadCallback(15);
    assert!(u.calls.is_empty());
    assert_eq!(u.status, STATUS_UNSUCCESSFUL);
    assert_eq!(FLT_PREOP_SUCCESS_NO_CALLBACK, 1);
}

#[test]
fn send_receive_reads_message_and_writes_reply() {
    let mut out = vec![0xFFu8; 20];
    let r = MiniSendRec(b"ping\0rest", &mut out);
    assert_eq!(r.status, STATUS_SUCCESS);
    assert_eq!(r.message, b"ping".to_vec());
    assert_eq!(&out[..17], b"Rust from kernel\0");
    assert_eq!(&out[17..], &[0xFF, 0xFF, 0xFF]);
}

#[test]
fn pool_request_uses_paged_pool_and_tag() {
    let r = KernelAlloc.pool_request(128);
    assert_eq!(r.Flags, POOL_FLAG_PAGED);
    assert_eq!(r.NumberOfBytes, 128);
    assert_eq!(r.Tag, POOL_TAG);
    assert_eq!(POOL_FLAG_PAGED, 0x100);
}

#[test]
fn pool_tag_is_tsur_in_memory() {
    assert_eq!(POOL_TAG.to_le_bytes(), *b"TSUR");
}

#[test]
fn bugcheck_takes_low_address_bits() {
    let b = unrecoverable_error_bugcheck(0x1_2345_6789);
    assert_eq!(b.Code, BUGCHECK_CODE);
    assert_eq!(b.Code, 0xDEAD0000);
    assert_eq!(b.Parameter1, 0x2345_6789);
    assert_eq!((b.Parameter2, b.Parameter3, b.Parameter4), (0, 0, 0));
}

#[test]
fn send_receive_short_output_gets_what_fits() {
    let mut out = vec![7u8; 4];
    let r = MiniSendRec(b"unterminated", &mut out);
    assert_eq!(r.status, STATUS_SUCCESS);
    assert_eq!(r.message, b"unterminated".to_vec());
    assert_eq!(out, b"Rust".to_vec());
    let mut sixteen = vec![7u8; 16];
    MiniSendRec(b"\0", &mut sixteen);
    assert_eq!(sixteen, b"Rust from kernel".to_vec());
    let mut empty: Vec<u8> = Vec::new();
    assert_eq!(MiniSendRec(b"", &mut empty).status, STATUS_SUCCESS);
    assert!(empty.is_empty());
}

#[test]
fn registration_record_is_exact() {
    let callbacks = DriverCallbacks {
        pre_operation_create: PreOperationRoutine(1),
        filter_unload: FilterRoutine(2),
        instance_setup: FilterRoutine(3),
        instance_query_teardown: FilterRoutine(4),
        instance_teardown_start: FilterRoutine(5),
        instance_teardown_complete: FilterRoutine(6),
    };
    let r = filter_registration(callbacks);
    assert_eq!(r.Size, if usize::BITS == 64 { 112 } else { 60 });
    assert_eq!(r.Version, FLT_REGISTRATION_VERSION);
    assert_eq!(r.Version, 0x0203);
    assert_eq!(r.Flags, 0);
    assert_eq!(r.ContextRegistration, 0);
    assert_eq!(r.OperationRegistration, operation_registrations(PreOperationRoutine(1)));
    assert_eq!(r.FilterUnloadCallback, Some(FilterRoutine(2)));
    assert_eq!(r.InstanceSetupCallback, Some(FilterRoutine(3)));
    assert_eq!(r.InstanceQueryTeardownCallback, Some(FilterRoutine(4)));
    assert_eq!(r.InstanceTeardownStartCallback, Some(FilterRoutine(5)));
    assert_eq!(r.InstanceTeardownCompleteCallback, Some(FilterRoutine(6)));
    assert_eq!(r.GenerateFileNameCallback, None);
    assert_eq!(r.NormalizeNameComponentCallback, None);
    assert_eq!(r.NormalizeContextCleanupCallback, None);
    assert_eq!(r.TransactionNotificationCallback, None);
    assert_eq!(r.NormalizeNameComponentExCallback, None);
    assert_eq!(r.SectionNotificationCallback, None);
}
