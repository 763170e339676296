//! The decisions of the minifilter driver: the order of the steps that
//! bring it up in `DriverEntry`, what its instance and unload callbacks do,
//! and the operations it registers for. The kernel calls themselves are made
//! by the code that runs these decisions; each step here names the call to
//! make and is given the status that the last call returned.
use vstd::prelude::*;
use crate::macros::PAGED_CODE;
use crate::string::{law_create_round_trip, len_to_nul, UNICODE_STRING};
use crate::sys::base::{
    nt_success, FLT_PORT_ALL_ACCESS, LONG, NTSTATUS, OBJ_CASE_INSENSITIVE, OBJ_KERNEL_HANDLE,
    STATUS_SUCCESS, ULONG, APC_LEVEL, KIRQL, STATUS_UNSUCCESSFUL,
};
use crate::sys::fltmgr::{flt_registration_size, FilterRoutine, FLT_OPERATION_REGISTRATION, FLT_REGISTRATION, FLT_REGISTRATION_VERSION, PreOperationRoutine};
use vstd::string::StringSliceAdditionalSpecFns;

verus! {

/// The status of a pre-operation callback that lets the operation go on and
/// asks for no post-operation callback.
pub const FLT_PREOP_SUCCESS_NO_CALLBACK: cty::c_int = 1;

/// The attributes of the communication port's name.
pub const PORT_NAME_ATTRIBUTES: ULONG = 0x0000_0240;

/// The largest number of clients that may connect to the port at once.
pub const MAX_CONNECTIONS: LONG = 1;

/// The kernel call that `DriverEntry` makes next, or its return.
#[derive(Clone, Copy, Debug, PartialEq, Eq, Structural)]
pub enum DriverEntryAction {
    /// Register the minifilter with the filter manager.
    RegisterFilter,
    /// Build the default security descriptor with the access rights given.
    BuildSecurityDescriptor { access: ULONG },
    /// Create the communication port, named by `port_name()` with the name
    /// attributes given, secured by the descriptor just built.
    CreateCommunicationPort { name_attributes: ULONG, max_connections: LONG },
    /// Free the security descriptor.
    FreeSecurityDescriptor,
    /// Start filtering.
    StartFiltering,
    /// Unregister the minifilter.
    UnregisterFilter,
    /// Return the status given from `DriverEntry`.
    Return(NTSTATUS),
}

/// Where `DriverEntry` stands: which call's status it waits for.
#[derive(Clone, Copy, Debug, PartialEq, Eq, Structural)]
pub enum DriverEntryStage {
    Start,
    AwaitRegister,
    AwaitDescriptor,
    AwaitPort,
    AwaitFree { port_status: NTSTATUS },
    AwaitStart,
    AwaitUnregister { start_status: NTSTATUS },
    Finished,
}

/// What `DriverEntry` does next in stage `stage`, given the status that the
/// last call returned: the next stage and the action.
pub open spec fn driver_entry_next(stage: DriverEntryStage, status: NTSTATUS) -> (DriverEntryStage, DriverEntryAction) {
    match stage {
        DriverEntryStage::Start => (DriverEntryStage::AwaitRegister, DriverEntryAction::RegisterFilter),
        DriverEntryStage::AwaitRegister => if !nt_success(status) {
            (DriverEntryStage::Finished, DriverEntryAction::Return(status))
        } else {
            (DriverEntryStage::AwaitDescriptor, DriverEntryAction::BuildSecurityDescriptor { access: FLT_PORT_ALL_ACCESS })
        },
        DriverEntryStage::AwaitDescriptor => if !nt_success(status) {
            (DriverEntryStage::Finished, DriverEntryAction::Return(status))
        } else {
            (DriverEntryStage::AwaitPort, DriverEntryAction::CreateCommunicationPort {
                name_attributes: PORT_NAME_ATTRIBUTES,
                max_connections: MAX_CONNECTIONS,
            })
        },
        DriverEntryStage::AwaitPort => (DriverEntryStage::AwaitFree { port_status: status }, DriverEntryAction::FreeSecurityDescriptor),
        DriverEntryStage::AwaitFree { port_status } => if nt_success(port_status) {
            (DriverEntryStage::AwaitStart, DriverEntryAction::StartFiltering)
        } else {
            (DriverEntryStage::Finished, DriverEntryAction::Return(port_status))
        },
        DriverEntryStage::AwaitStart => if nt_success(status) {
            (DriverEntryStage::Finished, DriverEntryAction::Return(status))
        } else {
            (DriverEntryStage::AwaitUnregister { start_status: status }, DriverEntryAction::UnregisterFilter)
        },
        DriverEntryStage::AwaitUnregister { start_status } => (DriverEntryStage::Finished, DriverEntryAction::Return(start_status)),
        DriverEntryStage::Finished => (DriverEntryStage::Finished, DriverEntryAction::Return(status)),
    }
}

/// The bring-up of the driver, one kernel call at a time.
pub struct DriverEntry {
    pub stage: DriverEntryStage,
}

impl DriverEntry {
    /// A bring-up that has not made any call yet.
    pub fn new() -> (d: DriverEntry)
        ensures
            d.stage == DriverEntryStage::Start,
    {
        DriverEntry { stage: DriverEntryStage::Start }
    }

    /// Takes the status that the last call returned (any value before the
    /// first call, and after calls whose status is not used) and returns
    /// the next call to make, or the status to return.
    pub fn step(&mut self, status: NTSTATUS) -> (action: DriverEntryAction)
        requires
            old(self).stage != DriverEntryStage::Finished,
        ensures
            (final(self).stage, action) == driver_entry_next(old(self).stage, status),
    {
        let (stage, action) = match self.stage {
            DriverEntryStage::Start => (DriverEntryStage::AwaitRegister, DriverEntryAction::RegisterFilter),
            DriverEntryStage::AwaitRegister => if status < 0 {
                (DriverEntryStage::Finished, DriverEntryAction::Return(status))
            } else {
                (DriverEntryStage::AwaitDescriptor, DriverEntryAction::BuildSecurityDescriptor { access: FLT_PORT_ALL_ACCESS })
            },
            DriverEntryStage::AwaitDescriptor => if status < 0 {
                (DriverEntryStage::Finished, DriverEntryAction::Return(status))
            } else {
                (DriverEntryStage::AwaitPort, DriverEntryAction::CreateCommunicationPort {
                    name_attributes: OBJ_CASE_INSENSITIVE | OBJ_KERNEL_HANDLE,
                    max_connections: MAX_CONNECTIONS,
                })
            },
            DriverEntryStage::AwaitPort => (DriverEntryStage::AwaitFree { port_status: status }, DriverEntryAction::FreeSecurityDescriptor),
            DriverEntryStage::AwaitFree { port_status } => if port_status >= 0 {
                (DriverEntryStage::AwaitStart, DriverEntryAction::StartFiltering)
            } else {
                (DriverEntryStage::Finished, DriverEntryAction::Return(port_status))
            },
            DriverEntryStage::AwaitStart => if status >= 0 {
                (DriverEntryStage::Finished, DriverEntryAction::Return(status))
            } else {
                (DriverEntryStage::AwaitUnregister { start_status: status }, DriverEntryAction::UnregisterFilter)
            },
            DriverEntryStage::AwaitUnregister { start_status } => (DriverEntryStage::Finished, DriverEntryAction::Return(start_status)),
            DriverEntryStage::Finished => (DriverEntryStage::Finished, DriverEntryAction::Return(status)),
        };
        proof {
            assert((OBJ_CASE_INSENSITIVE | OBJ_KERNEL_HANDLE) == PORT_NAME_ATTRIBUTES) by (bit_vector);
        }
        self.stage = stage;
        action
    }
}

/// The actions that the stages from `stage` on take when each is given the
/// next status of `feed`, up to the return.
pub open spec fn driver_entry_trace(stage: DriverEntryStage, feed: Seq<NTSTATUS>) -> Seq<DriverEntryAction>
    decreases feed.len(),
{
    if feed.len() == 0 || stage == DriverEntryStage::Finished {
        Seq::<DriverEntryAction>::empty()
    } else {
        let (next, action) = driver_entry_next(stage, feed[0]);
        seq![action] + driver_entry_trace(next, feed.drop_first())
    }
}

/// The status that `DriverEntry` returns when registering the filter,
/// building the descriptor, creating the port and starting to filter
/// return the statuses given: the first of them that reports a failure, or
/// the last where none does.
pub open spec fn driver_entry_status(register: NTSTATUS, descriptor: NTSTATUS, port: NTSTATUS, start: NTSTATUS) -> NTSTATUS {
    if !nt_success(register) {
        register
    } else if !nt_success(descriptor) {
        descriptor
    } else if !nt_success(port) {
        port
    } else {
        start
    }
}

/// The calls that `DriverEntry` makes, and its return, when the calls that
/// return a status return the statuses given.
pub open spec fn driver_entry_plan(register: NTSTATUS, descriptor: NTSTATUS, port: NTSTATUS, start: NTSTATUS) -> Seq<DriverEntryAction> {
    let create = DriverEntryAction::CreateCommunicationPort {
        name_attributes: PORT_NAME_ATTRIBUTES,
        max_connections: MAX_CONNECTIONS,
    };
    let build = DriverEntryAction::BuildSecurityDescriptor { access: FLT_PORT_ALL_ACCESS };
    let ret = DriverEntryAction::Return(driver_entry_status(register, descriptor, port, start));
    if !nt_success(register) {
        seq![DriverEntryAction::RegisterFilter, ret]
    } else if !nt_success(descriptor) {
        seq![DriverEntryAction::RegisterFilter, build, ret]
    } else if !nt_success(port) {
        seq![DriverEntryAction::RegisterFilter, build, create, DriverEntryAction::FreeSecurityDescriptor, ret]
    } else if !nt_success(start) {
        seq![
            DriverEntryAction::RegisterFilter,
            build,
            create,
            DriverEntryAction::FreeSecurityDescriptor,
            DriverEntryAction::StartFiltering,
            DriverEntryAction::UnregisterFilter,
            ret,
        ]
    } else {
        seq![
            DriverEntryAction::RegisterFilter,
            build,
            create,
            DriverEntryAction::FreeSecurityDescriptor,
            DriverEntryAction::StartFiltering,
            ret,
        ]
    }
}

/// Run from the start, the steps make the calls of `driver_entry_plan`,
/// whatever values they are given where a status is not used (`ignored0`
/// before the first call, `ignored1` after freeing the descriptor,
/// `ignored2` after unregistering).
pub proof fn law_driver_entry_runs_plan(
    register: NTSTATUS,
    descriptor: NTSTATUS,
    port: NTSTATUS,
    start: NTSTATUS,
    ignored0: NTSTATUS,
    ignored1: NTSTATUS,
    ignored2: NTSTATUS,
)
    ensures
        driver_entry_trace(
            DriverEntryStage::Start,
            seq![ignored0, register, descriptor, port, ignored1, start, ignored2],
        ) == driver_entry_plan(register, descriptor, port, start),
{
    let feed = seq![ignored0, register, descriptor, port, ignored1, start, ignored2];
    reveal_with_fuel(driver_entry_trace, 8);
    let f1 = feed.drop_first();
    let f2 = f1.drop_first();
    let f3 = f2.drop_first();
    let f4 = f3.drop_first();
    let f5 = f4.drop_first();
    let f6 = f5.drop_first();
    let f7 = f6.drop_first();
    assert(f1 =~= seq![register, descriptor, port, ignored1, start, ignored2]);
    assert(f2 =~= seq![descriptor, port, ignored1, start, ignored2]);
    assert(f3 =~= seq![port, ignored1, start, ignored2]);
    assert(f4 =~= seq![ignored1, start, ignored2]);
    assert(f5 =~= seq![start, ignored2]);
    assert(f6 =~= seq![ignored2]);
    assert(f7 =~= Seq::<NTSTATUS>::empty());
    let plan = driver_entry_plan(register, descriptor, port, start);
    let trace = driver_entry_trace(DriverEntryStage::Start, feed);
    assert(trace =~= plan);
}

/// `DriverEntry` succeeds exactly when every call it depends on succeeds,
/// and its last action returns the first failure.
pub proof fn law_driver_entry_status(register: NTSTATUS, descriptor: NTSTATUS, port: NTSTATUS, start: NTSTATUS)
    ensures
        nt_success(driver_entry_status(register, descriptor, port, start))
            <==> nt_success(register) && nt_success(descriptor) && nt_success(port) && nt_success(start),
        driver_entry_plan(register, descriptor, port, start).last()
            == DriverEntryAction::Return(driver_entry_status(register, descriptor, port, start)),
{
}

/// The security descriptor is freed exactly when it was built, and then
/// only after the port was created with it; filtering starts only on a port
/// that was created; and the filter is unregistered again exactly when
/// filtering fails to start.
pub proof fn law_driver_entry_cleanup(register: NTSTATUS, descriptor: NTSTATUS, port: NTSTATUS, start: NTSTATUS)
    ensures
        ({
            let plan = driver_entry_plan(register, descriptor, port, start);
            let create = DriverEntryAction::CreateCommunicationPort {
                name_attributes: PORT_NAME_ATTRIBUTES,
                max_connections: MAX_CONNECTIONS,
            };
            &&& plan.contains(DriverEntryAction::FreeSecurityDescriptor) <==> nt_success(register) && nt_success(descriptor)
            &&& plan.contains(DriverEntryAction::FreeSecurityDescriptor) ==> plan[2] == create && plan[3] == DriverEntryAction::FreeSecurityDescriptor
            &&& plan.contains(DriverEntryAction::StartFiltering) <==> nt_success(register) && nt_success(descriptor) && nt_success(port)
            &&& plan.contains(DriverEntryAction::UnregisterFilter)
                <==> nt_success(register) && nt_success(descriptor) && nt_success(port) && !nt_success(start)
        }),
{
    let plan = driver_entry_plan(register, descriptor, port, start);
    if plan.contains(DriverEntryAction::FreeSecurityDescriptor) {
        let k = choose|k: int| 0 <= k < plan.len() && plan[k] == DriverEntryAction::FreeSecurityDescriptor;
    }
    if plan.contains(DriverEntryAction::StartFiltering) {
        let k = choose|k: int| 0 <= k < plan.len() && plan[k] == DriverEntryAction::StartFiltering;
    }
    if plan.contains(DriverEntryAction::UnregisterFilter) {
        let k = choose|k: int| 0 <= k < plan.len() && plan[k] == DriverEntryAction::UnregisterFilter;
    }
    if nt_success(register) && nt_success(descriptor) {
        assert(plan[3] == DriverEntryAction::FreeSecurityDescriptor);
        if nt_success(port) {
            assert(plan[4] == DriverEntryAction::StartFiltering);
            if !nt_success(start) {
                assert(plan[5] == DriverEntryAction::UnregisterFilter);
            }
        }
    }
}

/// The name of the communication port, `\\mf`, as a counted string.
pub fn port_name() -> (name: UNICODE_STRING)
    ensures
        name.wf(),
        name.Length == 6,
        name.MaximumLength == 8,
        name.text() == seq![0x5Cu16, 0x6Du16, 0x66u16],
{
    let text = "\\mf";
    proof {
        reveal_strlit("\\mf");
    }
    let name = UNICODE_STRING::create(text);
    proof {
        law_create_round_trip(text, name);
        assert(crate::string::ascii_units(text@) =~= seq![0x5Cu16, 0x6Du16, 0x66u16]);
    }
    name
}

/// The operations the driver registers for: create requests, with the
/// pre-operation callback `preop`, and the entry that ends the array.
pub fn operation_registrations(preop: PreOperationRoutine) -> (ops: Vec<FLT_OPERATION_REGISTRATION>)
    ensures
        ops@ == seq![
            FLT_OPERATION_REGISTRATION::empty()
                .with_major_function(FLT_OPERATION_REGISTRATION::IRP_MJ_CREATE)
                .with_preop(Some(preop)),
            FLT_OPERATION_REGISTRATION::empty()
                .with_major_function(FLT_OPERATION_REGISTRATION::IRP_MJ_OPERATION_END),
        ],
{
    let mut ops: Vec<FLT_OPERATION_REGISTRATION> = Vec::new();
    ops.push(
        FLT_OPERATION_REGISTRATION::new()
            .set_major_function(FLT_OPERATION_REGISTRATION::IRP_MJ_CREATE)
            .set_preop(Some(preop)),
    );
    ops.push(
        FLT_OPERATION_REGISTRATION::new()
            .set_major_function(FLT_OPERATION_REGISTRATION::IRP_MJ_OPERATION_END),
    );
    ops
}

/// The driver's callback routines, named by their addresses.
#[derive(Clone, Copy, Debug, PartialEq, Eq, Structural)]
pub struct DriverCallbacks {
    pub pre_operation_create: PreOperationRoutine,
    pub filter_unload: FilterRoutine,
    pub instance_setup: FilterRoutine,
    pub instance_query_teardown: FilterRoutine,
    pub instance_teardown_start: FilterRoutine,
    pub instance_teardown_complete: FilterRoutine,
}

/// What the driver registers with the filter manager: the record's size,
/// `FLT_REGISTRATION_VERSION`, no flags, no contexts, the operations of
/// `operation_registrations`, the unload and the four instance callbacks,
/// and none of the name, transaction or section callbacks.
pub fn filter_registration(callbacks: DriverCallbacks) -> (r: FLT_REGISTRATION)
    ensures
        r.Size == flt_registration_size(),
        r.Version == FLT_REGISTRATION_VERSION,
        r.Flags == 0,
        r.ContextRegistration == 0,
        r.OperationRegistration@ == seq![
            FLT_OPERATION_REGISTRATION::empty()
                .with_major_function(FLT_OPERATION_REGISTRATION::IRP_MJ_CREATE)
                .with_preop(Some(callbacks.pre_operation_create)),
            FLT_OPERATION_REGISTRATION::empty()
                .with_major_function(FLT_OPERATION_REGISTRATION::IRP_MJ_OPERATION_END),
        ],
        r.FilterUnloadCallback == Some(callbacks.filter_unload),
        r.InstanceSetupCallback == Some(callbacks.instance_setup),
        r.InstanceQueryTeardownCallback == Some(callbacks.instance_query_teardown),
        r.InstanceTeardownStartCallback == Some(callbacks.instance_teardown_start),
        r.InstanceTeardownCompleteCallback == Some(callbacks.instance_teardown_complete),
        r.GenerateFileNameCallback is None,
        r.NormalizeNameComponentCallback is None,
        r.NormalizeContextCleanupCallback is None,
        r.TransactionNotificationCallback is None,
        r.NormalizeNameComponentExCallback is None,
        r.SectionNotificationCallback is None,
{
    FLT_REGISTRATION {
        Size: if usize::BITS == 64 { 112 } else { 60 },
        Version: FLT_REGISTRATION_VERSION,
        Flags: 0,
        ContextRegistration: 0,
        OperationRegistration: operation_registrations(callbacks.pre_operation_create),
        FilterUnloadCallback: Some(callbacks.filter_unload),
        InstanceSetupCallback: Some(callbacks.instance_setup),
        InstanceQueryTeardownCallback: Some(callbacks.instance_query_teardown),
        InstanceTeardownStartCallback: Some(callbacks.instance_teardown_start),
        InstanceTeardownCompleteCallback: Some(callbacks.instance_teardown_complete),
        GenerateFileNameCallback: None,
        NormalizeNameComponentCallback: None,
        NormalizeContextCleanupCallback: None,
        TransactionNotificationCallback: None,
        NormalizeNameComponentExCallback: None,
        SectionNotificationCallback: None,
    }
}

/// The array of registered operations is ended by exactly one entry, its
/// last, whose major function is `IRP_MJ_OPERATION_END`, and only create
/// requests get a callback.
pub proof fn law_operation_array_terminated(preop: PreOperationRoutine)
    ensures
        ({
            let ops = seq![
                FLT_OPERATION_REGISTRATION::empty()
                    .with_major_function(FLT_OPERATION_REGISTRATION::IRP_MJ_CREATE)
                    .with_preop(Some(preop)),
                FLT_OPERATION_REGISTRATION::empty()
                    .with_major_function(FLT_OPERATION_REGISTRATION::IRP_MJ_OPERATION_END),
            ];
            &&& ops.last().MajorFunction == FLT_OPERATION_REGISTRATION::IRP_MJ_OPERATION_END
            &&& forall|i: int| 0 <= i < ops.len() - 1
                ==> ops[i].MajorFunction != FLT_OPERATION_REGISTRATION::IRP_MJ_OPERATION_END
            &&& forall|i: int| 0 <= i < ops.len() && (#[trigger] ops[i]).PreOperation is Some
                ==> ops[i].MajorFunction == FLT_OPERATION_REGISTRATION::IRP_MJ_CREATE
        }),
{
}

/// What a callback that opens pageable code decides: whether it goes on
/// with its work, and the status it returns.
#[derive(Clone, Copy, Debug, PartialEq, Eq, Structural)]
pub struct CallbackOutcome {
    pub proceed: bool,
    pub status: NTSTATUS,
}

/// The outcome of a pageable callback that runs at `irql`: it goes on and
/// succeeds at or below `APC_LEVEL`, and stops with `STATUS_UNSUCCESSFUL`
/// above it.
pub open spec fn paged_outcome(irql: KIRQL) -> CallbackOutcome {
    if irql > APC_LEVEL {
        CallbackOutcome { proceed: false, status: STATUS_UNSUCCESSFUL }
    } else {
        CallbackOutcome { proceed: true, status: STATUS_SUCCESS }
    }
}

fn paged_callback(irql: KIRQL) -> (outcome: CallbackOutcome)
    ensures
        outcome == paged_outcome(irql),
{
    match PAGED_CODE(irql) {
        Some(status) => CallbackOutcome { proceed: false, status },
        None => CallbackOutcome { proceed: true, status: STATUS_SUCCESS },
    }
}

/// Whether the driver attaches to a volume, called at `irql`: it does, with
/// `STATUS_SUCCESS`, wherever pageable code may run.
pub fn InstanceSetupCallback(irql: KIRQL) -> (status: NTSTATUS)
    ensures
        status == paged_outcome(irql).status,
{
    paged_callback(irql).status
}

/// A kernel call that a callback makes once it has passed its check.
#[derive(Clone, Copy, Debug, PartialEq, Eq, Structural)]
pub enum FilterCall {
    /// Close the driver's communication port.
    CloseCommunicationPort,
    /// Unregister the minifilter.
    UnregisterFilter,
}

/// What a callback does: the kernel calls it makes, in order, and the
/// status it returns.
pub struct CallbackPlan {
    pub calls: Vec<FilterCall>,
    pub status: NTSTATUS,
}

/// The calls of a pageable callback at `irql`: `calls` where pageable code
/// may run, none otherwise.
pub open spec fn paged_calls(irql: KIRQL, calls: Seq<FilterCall>) -> Seq<FilterCall> {
    if irql <= APC_LEVEL { calls } else { Seq::<FilterCall>::empty() }
}

/// The calls of the unload callback once it may run: close the port, then
/// unregister the filter.
pub open spec fn unload_calls() -> Seq<FilterCall> {
    seq![FilterCall::CloseCommunicationPort, FilterCall::UnregisterFilter]
}

/// The calls of the query-teardown callback once it may run: unregister the
/// filter.
pub open spec fn teardown_calls() -> Seq<FilterCall> {
    seq![FilterCall::UnregisterFilter]
}

/// Whether the driver detaches from a volume, called at `irql`: where
/// pageable code may run, it unregisters the filter and succeeds; above
/// `APC_LEVEL` it makes no call and returns `STATUS_UNSUCCESSFUL`.
pub fn InstanceQueryTeardownCallback(irql: KIRQL) -> (plan: CallbackPlan)
    ensures
        plan.calls@ == paged_calls(irql, teardown_calls()),
        plan.status == paged_outcome(irql).status,
{
    let outcome = paged_callback(irql);
    let mut calls: Vec<FilterCall> = Vec::new();
    if outcome.proceed {
        calls.push(FilterCall::UnregisterFilter);
    }
    proof {
        assert(calls@ =~= paged_calls(irql, teardown_calls()));
    }
    CallbackPlan { calls, status: outcome.status }
}

/// The unloading of the driver, called at `irql`: where pageable code may
/// run, it closes the communication port, then unregisters the filter, and
/// succeeds; above `APC_LEVEL` it makes no call and returns
/// `STATUS_UNSUCCESSFUL`.
pub fn InstanceFilterUnloadCallback(irql: KIRQL) -> (plan: CallbackPlan)
    ensures
        plan.calls@ == paged_calls(irql, unload_calls()),
        plan.status == paged_outcome(irql).status,
{
    let outcome = paged_callback(irql);
    let mut calls: Vec<FilterCall> = Vec::new();
    if outcome.proceed {
        calls.push(FilterCall::CloseCommunicationPort);
        calls.push(FilterCall::UnregisterFilter);
    }
    proof {
        assert(calls@ =~= paged_calls(irql, unload_calls()));
    }
    CallbackPlan { calls, status: outcome.status }
}

/// A pageable callback makes its calls exactly when it runs at or below
/// `APC_LEVEL`, and it succeeds exactly when it makes them.
pub proof fn law_paged_callbacks(irql: KIRQL, calls: Seq<FilterCall>)
    ensures
        paged_outcome(irql).proceed <==> irql <= APC_LEVEL,
        nt_success(paged_outcome(irql).status) <==> paged_outcome(irql).proceed,
        paged_calls(irql, calls) == (if paged_outcome(irql).proceed { calls } else { Seq::<FilterCall>::empty() }),
{
}

/// The text that the driver writes back to a client.
pub open spec fn reply_chars() -> Seq<char> {
    "Rust from kernel"@
}

/// The bytes that the driver writes back to a client: the text, followed by
/// a zero byte.
pub open spec fn reply_bytes() -> Seq<u8> {
    reply_chars().map_values(|c: char| c as u8).push(0u8)
}

/// The bytes of `b` before its first zero byte.
pub open spec fn nul_prefix(b: Seq<u8>) -> Seq<u8> {
    b.take(len_to_nul(b, 0u8) as int)
}

/// The message that a client sends, which the driver prints as text, and
/// the status it returns.
pub struct SendReceive {
    pub status: NTSTATUS,
    pub message: Vec<u8>,
}

/// The number of reply bytes that fit in an output buffer of `len` bytes.
pub open spec fn reply_fit(len: nat) -> int {
    if len < reply_bytes().len() { len as int } else { reply_bytes().len() as int }
}

/// Serves one message from a client: takes the text of `input` up to its
/// first zero byte, or all of it where it holds none (which the driver
/// prints), writes the reply bytes, zero byte included, to the front of
/// `output`, as many of them as `output` holds, and succeeds.
pub fn MiniSendRec(input: &[u8], output: &mut Vec<u8>) -> (r: SendReceive)
    ensures
        r.status == STATUS_SUCCESS,
        r.message@ == nul_prefix(input@),
        final(output)@ == reply_bytes().take(reply_fit(old(output)@.len()))
            + old(output)@.skip(reply_fit(old(output)@.len())),
{
    let n = crate::string::strlen(input);
    let message = vstd::slice::slice_to_vec(vstd::slice::slice_subrange(input, 0, n));
    let text = "Rust from kernel";
    proof {
        reveal_strlit("Rust from kernel");
        vstd::utf8::is_ascii_chars_encode_utf8(text@);
    }
    let reply = text.as_bytes();
    proof {
        assert(reply@ =~= reply_chars().map_values(|c: char| c as u8));
    }
    let ghost before = output@;
    let mut i: usize = 0;
    while i < reply.len() && i < output.len()
        invariant
            reply@.len() == 16,
            i <= 16,
            i <= before.len(),
            output@.len() == before.len(),
            forall|j: int| 0 <= j < i ==> output@[j] == reply@[j],
            forall|j: int| i <= j < before.len() ==> output@[j] == before[j],
        decreases 16 - i,
    {
        output.set(i, reply[i]);
        i = i + 1;
    }
    if output.len() > 16 {
        output.set(16, 0);
    }
    proof {
        let k = reply_fit(before.len());
        assert(output@ =~= reply_bytes().take(k) + before.skip(k));
    }
    SendReceive { status: STATUS_SUCCESS, message }
}

} // verus!
