//! The filter manager's operation-registration record and its builders.
use vstd::prelude::*;
use crate::sys::base::{UCHAR, ULONG, USHORT};

verus! {

/// Flags of one operation registration.
pub type FLT_OPERATION_REGISTRATION_FLAGS = ULONG;

/// Flags of a filter registration.
pub type FLT_REGISTRATION_FLAGS = ULONG;

/// A pre-operation callback routine, named by its entry address.
#[derive(Clone, Copy, Debug, PartialEq, Eq, Structural)]
pub struct PreOperationRoutine(pub usize);

/// A post-operation callback routine, named by its entry address.
#[derive(Clone, Copy, Debug, PartialEq, Eq, Structural)]
pub struct PostOperationRoutine(pub usize);

/// An optional pre-operation callback routine.
pub type PFLT_PRE_OPERATION_CALLBACK = Option<PreOperationRoutine>;

/// An optional post-operation callback routine.
pub type PFLT_POST_OPERATION_CALLBACK = Option<PostOperationRoutine>;

/// Which callbacks a minifilter registers for one kind of I/O request.
/// `Reserved1` is an address that stays null (zero).
#[derive(Clone, Copy, Debug, PartialEq, Eq, Structural)]
pub struct FLT_OPERATION_REGISTRATION {
    pub MajorFunction: UCHAR,
    pub Flags: FLT_OPERATION_REGISTRATION_FLAGS,
    pub PreOperation: PFLT_PRE_OPERATION_CALLBACK,
    pub PostOperation: PFLT_POST_OPERATION_CALLBACK,
    pub Reserved1: usize,
}

impl FLT_OPERATION_REGISTRATION {
    /// The major function code of create requests.
    pub const IRP_MJ_CREATE: UCHAR = 0x00;

    /// The major function code of set-information requests.
    pub const IRP_MJ_SET_INFORMATION: UCHAR = 0x06;

    /// The major function code that ends an array of operation
    /// registrations.
    pub const IRP_MJ_OPERATION_END: UCHAR = 0x80;

    /// The registration for major function 0 with no flags and no
    /// callbacks.
    pub open spec fn empty() -> FLT_OPERATION_REGISTRATION {
        FLT_OPERATION_REGISTRATION {
            MajorFunction: 0,
            Flags: 0,
            PreOperation: None,
            PostOperation: None,
            Reserved1: 0,
        }
    }

    /// This registration with its major function replaced.
    pub open spec fn with_major_function(self, major_function: UCHAR) -> FLT_OPERATION_REGISTRATION {
        FLT_OPERATION_REGISTRATION { MajorFunction: major_function, Reserved1: 0, ..self }
    }

    /// This registration with its flags replaced.
    pub open spec fn with_flags(self, flags: FLT_REGISTRATION_FLAGS) -> FLT_OPERATION_REGISTRATION {
        FLT_OPERATION_REGISTRATION { Flags: flags, Reserved1: 0, ..self }
    }

    /// This registration with its pre-operation callback replaced.
    pub open spec fn with_preop(self, preop: PFLT_PRE_OPERATION_CALLBACK) -> FLT_OPERATION_REGISTRATION {
        FLT_OPERATION_REGISTRATION { PreOperation: preop, Reserved1: 0, ..self }
    }

    /// This registration with its post-operation callback replaced.
    pub open spec fn with_postop(self, postop: PFLT_POST_OPERATION_CALLBACK) -> FLT_OPERATION_REGISTRATION {
        FLT_OPERATION_REGISTRATION { PostOperation: postop, Reserved1: 0, ..self }
    }

    /// An empty registration.
    pub fn new() -> (r: FLT_OPERATION_REGISTRATION)
        ensures
            r == FLT_OPERATION_REGISTRATION::empty(),
    {
        FLT_OPERATION_REGISTRATION {
            MajorFunction: 0,
            Flags: 0,
            PreOperation: None,
            PostOperation: None,
            Reserved1: 0,
        }
    }

    /// A copy of this registration for `major_function`.
    pub fn set_major_function(&self, major_function: UCHAR) -> (r: FLT_OPERATION_REGISTRATION)
        ensures
            r == self.with_major_function(major_function),
    {
        FLT_OPERATION_REGISTRATION {
            MajorFunction: major_function,
            Flags: self.Flags,
            PreOperation: self.PreOperation,
            PostOperation: self.PostOperation,
            Reserved1: 0,
        }
    }

    /// A copy of this registration with `flags`.
    pub fn set_flags(&self, flags: FLT_REGISTRATION_FLAGS) -> (r: FLT_OPERATION_REGISTRATION)
        ensures
            r == self.with_flags(flags),
    {
        FLT_OPERATION_REGISTRATION {
            MajorFunction: self.MajorFunction,
            Flags: flags,
            PreOperation: self.PreOperation,
            PostOperation: self.PostOperation,
            Reserved1: 0,
        }
    }

    /// A copy of this registration with the pre-operation callback `preop`.
    pub fn set_preop(&self, preop: PFLT_PRE_OPERATION_CALLBACK) -> (r: FLT_OPERATION_REGISTRATION)
        ensures
            r == self.with_preop(preop),
    {
        FLT_OPERATION_REGISTRATION {
            MajorFunction: self.MajorFunction,
            Flags: self.Flags,
            PreOperation: preop,
            PostOperation: self.PostOperation,
            Reserved1: 0,
        }
    }

    /// A copy of this registration with the post-operation callback
    /// `postop`.
    pub fn set_postop(&self, postop: PFLT_POST_OPERATION_CALLBACK) -> (r: FLT_OPERATION_REGISTRATION)
        ensures
            r == self.with_postop(postop),
    {
        FLT_OPERATION_REGISTRATION {
            MajorFunction: self.MajorFunction,
            Flags: self.Flags,
            PreOperation: self.PreOperation,
            PostOperation: postop,
            Reserved1: 0,
        }
    }
}

/// Each builder sets its own field and leaves the others: builders of two
/// different fields give the same registration in either order.
pub proof fn law_builders_commute(
    r: FLT_OPERATION_REGISTRATION,
    major_function: UCHAR,
    flags: FLT_REGISTRATION_FLAGS,
    preop: PFLT_PRE_OPERATION_CALLBACK,
    postop: PFLT_POST_OPERATION_CALLBACK,
)
    ensures
        r.with_major_function(major_function).with_preop(preop) == r.with_preop(preop).with_major_function(major_function),
        r.with_major_function(major_function).with_postop(postop) == r.with_postop(postop).with_major_function(major_function),
        r.with_major_function(major_function).with_flags(flags) == r.with_flags(flags).with_major_function(major_function),
        r.with_flags(flags).with_preop(preop) == r.with_preop(preop).with_flags(flags),
        r.with_flags(flags).with_postop(postop) == r.with_postop(postop).with_flags(flags),
        r.with_preop(preop).with_postop(postop) == r.with_postop(postop).with_preop(preop),
{
}

/// The last value a builder sets is the one that stays.
pub proof fn law_builders_last_wins(
    r: FLT_OPERATION_REGISTRATION,
    m1: UCHAR,
    m2: UCHAR,
    f1: FLT_REGISTRATION_FLAGS,
    f2: FLT_REGISTRATION_FLAGS,
    pre1: PFLT_PRE_OPERATION_CALLBACK,
    pre2: PFLT_PRE_OPERATION_CALLBACK,
    post1: PFLT_POST_OPERATION_CALLBACK,
    post2: PFLT_POST_OPERATION_CALLBACK,
)
    ensures
        r.with_major_function(m1).with_major_function(m2) == r.with_major_function(m2),
        r.with_flags(f1).with_flags(f2) == r.with_flags(f2),
        r.with_preop(pre1).with_preop(pre2) == r.with_preop(pre2),
        r.with_postop(post1).with_postop(post2) == r.with_postop(post2),
{
}

/// A filter-manager callback routine other than an operation callback,
/// named by its entry address.
#[derive(Clone, Copy, Debug, PartialEq, Eq, Structural)]
pub struct FilterRoutine(pub usize);

/// The version of the registration record.
pub const FLT_REGISTRATION_VERSION: USHORT = 0x0203;

/// The size in bytes of a registration record in the filter manager's
/// layout: two 16-bit and one 32-bit field, then thirteen pointers.
pub open spec fn flt_registration_size() -> USHORT {
    if usize::BITS == 64 { 112 } else { 60 }
}

/// What a minifilter registers with the filter manager. The callbacks are
/// `None` where the minifilter has none; `ContextRegistration` is an
/// address (zero for none).
pub struct FLT_REGISTRATION {
    pub Size: USHORT,
    pub Version: USHORT,
    pub Flags: FLT_REGISTRATION_FLAGS,
    pub ContextRegistration: usize,
    pub OperationRegistration: Vec<FLT_OPERATION_REGISTRATION>,
    pub FilterUnloadCallback: Option<FilterRoutine>,
    pub InstanceSetupCallback: Option<FilterRoutine>,
    pub InstanceQueryTeardownCallback: Option<FilterRoutine>,
    pub InstanceTeardownStartCallback: Option<FilterRoutine>,
    pub InstanceTeardownCompleteCallback: Option<FilterRoutine>,
    pub GenerateFileNameCallback: Option<FilterRoutine>,
    pub NormalizeNameComponentCallback: Option<FilterRoutine>,
    pub NormalizeContextCleanupCallback: Option<FilterRoutine>,
    pub TransactionNotificationCallback: Option<FilterRoutine>,
    pub NormalizeNameComponentExCallback: Option<FilterRoutine>,
    pub SectionNotificationCallback: Option<FilterRoutine>,
}

} // verus!
