//! Vendor status codes and their mapping to error values.
//!
//! Every call into the native library reports a `TY_STATUS` integer. The
//! code `TY_STATUS_OK` (zero) means success; each failure code is one of a
//! fixed set dictated by the vendor's header. [`ErrorCode`] enumerates that
//! set, [`DeviceError`] pairs a code with an optional firmware error word,
//! and [`chkerr`] turns a raw status into a `Result`.

use vstd::prelude::*;

verus! {

pub const TY_STATUS_OK: i32 = 0;
pub const TY_STATUS_ERROR: i32 = -1001;
pub const TY_STATUS_NOT_INITED: i32 = -1002;
pub const TY_STATUS_NOT_IMPLEMENTED: i32 = -1003;
pub const TY_STATUS_NOT_PERMITTED: i32 = -1004;
pub const TY_STATUS_DEVICE_ERROR: i32 = -1005;
pub const TY_STATUS_INVALID_PARAMETER: i32 = -1006;
pub const TY_STATUS_INVALID_HANDLE: i32 = -1007;
pub const TY_STATUS_INVALID_COMPONENT: i32 = -1008;
pub const TY_STATUS_INVALID_FEATURE: i32 = -1009;
pub const TY_STATUS_WRONG_TYPE: i32 = -1010;
pub const TY_STATUS_WRONG_SIZE: i32 = -1011;
pub const TY_STATUS_OUT_OF_MEMORY: i32 = -1012;
pub const TY_STATUS_OUT_OF_RANGE: i32 = -1013;
pub const TY_STATUS_TIMEOUT: i32 = -1014;
pub const TY_STATUS_WRONG_MODE: i32 = -1015;
pub const TY_STATUS_BUSY: i32 = -1016;
pub const TY_STATUS_IDLE: i32 = -1017;
pub const TY_STATUS_NO_DATA: i32 = -1018;
pub const TY_STATUS_NO_BUFFER: i32 = -1019;
pub const TY_STATUS_NULL_POINTER: i32 = -1020;
pub const TY_STATUS_READONLY_FEATURE: i32 = -1021;
pub const TY_STATUS_INVALID_DESCRIPTOR: i32 = -1022;
pub const TY_STATUS_INVALID_INTERFACE: i32 = -1023;
pub const TY_STATUS_FIRMWARE_ERROR: i32 = -1024;
pub const TY_STATUS_DEV_EPERM: i32 = -1;
pub const TY_STATUS_DEV_EIO: i32 = -5;
pub const TY_STATUS_DEV_ENOMEM: i32 = -12;
pub const TY_STATUS_DEV_EBUSY: i32 = -16;
pub const TY_STATUS_DEV_EINVAL: i32 = -22;

/// One failure code of the vendor's `TY_STATUS` set.
#[allow(non_camel_case_types)]
#[derive(Debug, Clone, Copy, PartialEq, Eq, Structural)]
pub enum ErrorCode {
    ERROR,
    NotInited,
    NotImplemented,
    NotPermitted,
    DeviceError,
    InvalidParameter,
    InvalidHandle,
    InvalidComponent,
    InvalidFeature,
    WrongType,
    WrongSize,
    OutOfMemory,
    OutOfRange,
    TIMEOUT,
    WrongMode,
    Busy,
    Idle,
    NoData,
    NoBuffer,
    NullPointer,
    ReadonlyFeature,
    InvalidDescriptor,
    InvalidInterface,
    FirmwareError,
    DevEperm,
    DevEio,
    DevEnomem,
    DevEbusy,
    DevEinval,
}

impl ErrorCode {
    /// The raw `TY_STATUS` value that this code stands for.
    pub open spec fn spec_code(self) -> i32 {
        match self {
            ErrorCode::ERROR => TY_STATUS_ERROR,
            ErrorCode::NotInited => TY_STATUS_NOT_INITED,
            ErrorCode::NotImplemented => TY_STATUS_NOT_IMPLEMENTED,
            ErrorCode::NotPermitted => TY_STATUS_NOT_PERMITTED,
            ErrorCode::DeviceError => TY_STATUS_DEVICE_ERROR,
            ErrorCode::InvalidParameter => TY_STATUS_INVALID_PARAMETER,
            ErrorCode::InvalidHandle => TY_STATUS_INVALID_HANDLE,
            ErrorCode::InvalidComponent => TY_STATUS_INVALID_COMPONENT,
            ErrorCode::InvalidFeature => TY_STATUS_INVALID_FEATURE,
            ErrorCode::WrongType => TY_STATUS_WRONG_TYPE,
            ErrorCode::WrongSize => TY_STATUS_WRONG_SIZE,
            ErrorCode::OutOfMemory => TY_STATUS_OUT_OF_MEMORY,
            ErrorCode::OutOfRange => TY_STATUS_OUT_OF_RANGE,
            ErrorCode::TIMEOUT => TY_STATUS_TIMEOUT,
            ErrorCode::WrongMode => TY_STATUS_WRONG_MODE,
            ErrorCode::Busy => TY_STATUS_BUSY,
            ErrorCode::Idle => TY_STATUS_IDLE,
            ErrorCode::NoData => TY_STATUS_NO_DATA,
            ErrorCode::NoBuffer => TY_STATUS_NO_BUFFER,
            ErrorCode::NullPointer => TY_STATUS_NULL_POINTER,
            ErrorCode::ReadonlyFeature => TY_STATUS_READONLY_FEATURE,
            ErrorCode::InvalidDescriptor => TY_STATUS_INVALID_DESCRIPTOR,
            ErrorCode::InvalidInterface => TY_STATUS_INVALID_INTERFACE,
            ErrorCode::FirmwareError => TY_STATUS_FIRMWARE_ERROR,
            ErrorCode::DevEperm => TY_STATUS_DEV_EPERM,
            ErrorCode::DevEio => TY_STATUS_DEV_EIO,
            ErrorCode::DevEnomem => TY_STATUS_DEV_ENOMEM,
            ErrorCode::DevEbusy => TY_STATUS_DEV_EBUSY,
            ErrorCode::DevEinval => TY_STATUS_DEV_EINVAL,
        }
    }

    /// The code that a raw `TY_STATUS` value stands for, if any.
    pub open spec fn spec_from_repr(v: i32) -> Option<ErrorCode> {
        if v == TY_STATUS_ERROR {
            Some(ErrorCode::ERROR)
        } else if v == TY_STATUS_NOT_INITED {
            Some(ErrorCode::NotInited)
        } else if v == TY_STATUS_NOT_IMPLEMENTED {
            Some(ErrorCode::NotImplemented)
        } else if v == TY_STATUS_NOT_PERMITTED {
            Some(ErrorCode::NotPermitted)
        } else if v == TY_STATUS_DEVICE_ERROR {
            Some(ErrorCode::DeviceError)
        } else if v == TY_STATUS_INVALID_PARAMETER {
            Some(ErrorCode::InvalidParameter)
        } else if v == TY_STATUS_INVALID_HANDLE {
            Some(ErrorCode::InvalidHandle)
        } else if v == TY_STATUS_INVALID_COMPONENT {
            Some(ErrorCode::InvalidComponent)
        } else if v == TY_STATUS_INVALID_FEATURE {
            Some(ErrorCode::InvalidFeature)
        } else if v == TY_STATUS_WRONG_TYPE {
            Some(ErrorCode::WrongType)
        } else if v == TY_STATUS_WRONG_SIZE {
            Some(ErrorCode::WrongSize)
        } else if v == TY_STATUS_OUT_OF_MEMORY {
            Some(ErrorCode::OutOfMemory)
        } else if v == TY_STATUS_OUT_OF_RANGE {
            Some(ErrorCode::OutOfRange)
        } else if v == TY_STATUS_TIMEOUT {
            Some(ErrorCode::TIMEOUT)
        } else if v == TY_STATUS_WRONG_MODE {
            Some(ErrorCode::WrongMode)
        } else if v == TY_STATUS_BUSY {
            Some(ErrorCode::Busy)
        } else if v == TY_STATUS_IDLE {
            Some(ErrorCode::Idle)
        } else if v == TY_STATUS_NO_DATA {
            Some(ErrorCode::NoData)
        } else if v == TY_STATUS_NO_BUFFER {
            Some(ErrorCode::NoBuffer)
        } else if v == TY_STATUS_NULL_POINTER {
            Some(ErrorCode::NullPointer)
        } else if v == TY_STATUS_READONLY_FEATURE {
            Some(ErrorCode::ReadonlyFeature)
        } else if v == TY_STATUS_INVALID_DESCRIPTOR {
            Some(ErrorCode::InvalidDescriptor)
        } else if v == TY_STATUS_INVALID_INTERFACE {
            Some(ErrorCode::InvalidInterface)
        } else if v == TY_STATUS_FIRMWARE_ERROR {
            Some(ErrorCode::FirmwareError)
        } else if v == TY_STATUS_DEV_EPERM {
            Some(ErrorCode::DevEperm)
        } else if v == TY_STATUS_DEV_EIO {
            Some(ErrorCode::DevEio)
        } else if v == TY_STATUS_DEV_ENOMEM {
            Some(ErrorCode::DevEnomem)
        } else if v == TY_STATUS_DEV_EBUSY {
            Some(ErrorCode::DevEbusy)
        } else if v == TY_STATUS_DEV_EINVAL {
            Some(ErrorCode::DevEinval)
        } else {
            None
        }
    }

    /// The code that a raw `TY_STATUS` value stands for, if any.
    pub fn from_repr(v: i32) -> (r: Option<ErrorCode>)
        ensures
            r == ErrorCode::spec_from_repr(v),
    {
        if v == TY_STATUS_ERROR {
            Some(ErrorCode::ERROR)
        } else if v == TY_STATUS_NOT_INITED {
            Some(ErrorCode::NotInited)
        } else if v == TY_STATUS_NOT_IMPLEMENTED {
            Some(ErrorCode::NotImplemented)
        } else if v == TY_STATUS_NOT_PERMITTED {
            Some(ErrorCode::NotPermitted)
        } else if v == TY_STATUS_DEVICE_ERROR {
            Some(ErrorCode::DeviceError)
        } else if v == TY_STATUS_INVALID_PARAMETER {
            Some(ErrorCode::InvalidParameter)
        } else if v == TY_STATUS_INVALID_HANDLE {
            Some(ErrorCode::InvalidHandle)
        } else if v == TY_STATUS_INVALID_COMPONENT {
            Some(ErrorCode::InvalidComponent)
        } else if v == TY_STATUS_INVALID_FEATURE {
            Some(ErrorCode::InvalidFeature)
        } else if v == TY_STATUS_WRONG_TYPE {
            Some(ErrorCode::WrongType)
        } else if v == TY_STATUS_WRONG_SIZE {
            Some(ErrorCode::WrongSize)
        } else if v == TY_STATUS_OUT_OF_MEMORY {
            Some(ErrorCode::OutOfMemory)
        } else if v == TY_STATUS_OUT_OF_RANGE {
            Some(ErrorCode::OutOfRange)
        } else if v == TY_STATUS_TIMEOUT {
            Some(ErrorCode::TIMEOUT)
        } else if v == TY_STATUS_WRONG_MODE {
            Some(ErrorCode::WrongMode)
        } else if v == TY_STATUS_BUSY {
            Some(ErrorCode::Busy)
        } else if v == TY_STATUS_IDLE {
            Some(ErrorCode::Idle)
        } else if v == TY_STATUS_NO_DATA {
            Some(ErrorCode::NoData)
        } else if v == TY_STATUS_NO_BUFFER {
            Some(ErrorCode::NoBuffer)
        } else if v == TY_STATUS_NULL_POINTER {
            Some(ErrorCode::NullPointer)
        } else if v == TY_STATUS_READONLY_FEATURE {
            Some(ErrorCode::ReadonlyFeature)
        } else if v == TY_STATUS_INVALID_DESCRIPTOR {
            Some(ErrorCode::InvalidDescriptor)
        } else if v == TY_STATUS_INVALID_INTERFACE {
            Some(ErrorCode::InvalidInterface)
        } else if v == TY_STATUS_FIRMWARE_ERROR {
            Some(ErrorCode::FirmwareError)
        } else if v == TY_STATUS_DEV_EPERM {
            Some(ErrorCode::DevEperm)
        } else if v == TY_STATUS_DEV_EIO {
            Some(ErrorCode::DevEio)
        } else if v == TY_STATUS_DEV_ENOMEM {
            Some(ErrorCode::DevEnomem)
        } else if v == TY_STATUS_DEV_EBUSY {
            Some(ErrorCode::DevEbusy)
        } else if v == TY_STATUS_DEV_EINVAL {
            Some(ErrorCode::DevEinval)
        } else {
            None
        }
    }

    /// The raw `TY_STATUS` value that this code stands for.
    pub fn code(&self) -> (r: i32)
        ensures
            r == self.spec_code(),
    {
        match self {
            ErrorCode::ERROR => TY_STATUS_ERROR,
            ErrorCode::NotInited => TY_STATUS_NOT_INITED,
            ErrorCode::NotImplemented => TY_STATUS_NOT_IMPLEMENTED,
            ErrorCode::NotPermitted => TY_STATUS_NOT_PERMITTED,
            ErrorCode::DeviceError => TY_STATUS_DEVICE_ERROR,
            ErrorCode::InvalidParameter => TY_STATUS_INVALID_PARAMETER,
            ErrorCode::InvalidHandle => TY_STATUS_INVALID_HANDLE,
            ErrorCode::InvalidComponent => TY_STATUS_INVALID_COMPONENT,
            ErrorCode::InvalidFeature => TY_STATUS_INVALID_FEATURE,
            ErrorCode::WrongType => TY_STATUS_WRONG_TYPE,
            ErrorCode::WrongSize => TY_STATUS_WRONG_SIZE,
            ErrorCode::OutOfMemory => TY_STATUS_OUT_OF_MEMORY,
            ErrorCode::OutOfRange => TY_STATUS_OUT_OF_RANGE,
            ErrorCode::TIMEOUT => TY_STATUS_TIMEOUT,
            ErrorCode::WrongMode => TY_STATUS_WRONG_MODE,
            ErrorCode::Busy => TY_STATUS_BUSY,
            ErrorCode::Idle => TY_STATUS_IDLE,
            ErrorCode::NoData => TY_STATUS_NO_DATA,
            ErrorCode::NoBuffer => TY_STATUS_NO_BUFFER,
            ErrorCode::NullPointer => TY_STATUS_NULL_POINTER,
            ErrorCode::ReadonlyFeature => TY_STATUS_READONLY_FEATURE,
            ErrorCode::InvalidDescriptor => TY_STATUS_INVALID_DESCRIPTOR,
            ErrorCode::InvalidInterface => TY_STATUS_INVALID_INTERFACE,
            ErrorCode::FirmwareError => TY_STATUS_FIRMWARE_ERROR,
            ErrorCode::DevEperm => TY_STATUS_DEV_EPERM,
            ErrorCode::DevEio => TY_STATUS_DEV_EIO,
            ErrorCode::DevEnomem => TY_STATUS_DEV_ENOMEM,
            ErrorCode::DevEbusy => TY_STATUS_DEV_EBUSY,
            ErrorCode::DevEinval => TY_STATUS_DEV_EINVAL,
        }
    }

    /// The short description of this code.
    pub open spec fn spec_message(self) -> Seq<char> {
        match self {
            ErrorCode::ERROR => "error"@,
            ErrorCode::NotInited => "not inited"@,
            ErrorCode::NotImplemented => "not implemented"@,
            ErrorCode::NotPermitted => "not permitted"@,
            ErrorCode::DeviceError => "device error"@,
            ErrorCode::InvalidParameter => "invalid parameter"@,
            ErrorCode::InvalidHandle => "invalid handle"@,
            ErrorCode::InvalidComponent => "invalid component"@,
            ErrorCode::InvalidFeature => "invalid feature"@,
            ErrorCode::WrongType => "wrong type"@,
            ErrorCode::WrongSize => "wrong size"@,
            ErrorCode::OutOfMemory => "out of memory"@,
            ErrorCode::OutOfRange => "out of range"@,
            ErrorCode::TIMEOUT => "timeout"@,
            ErrorCode::WrongMode => "wrong mode"@,
            ErrorCode::Busy => "busy"@,
            ErrorCode::Idle => "idle"@,
            ErrorCode::NoData => "no data"@,
            ErrorCode::NoBuffer => "no buffer"@,
            ErrorCode::NullPointer => "null pointer"@,
            ErrorCode::ReadonlyFeature => "readonly feature"@,
            ErrorCode::InvalidDescriptor => "invalid descriptor"@,
            ErrorCode::InvalidInterface => "invalid interface"@,
            ErrorCode::FirmwareError => "foreware error"@,
            ErrorCode::DevEperm => "dev error permission"@,
            ErrorCode::DevEio => "dev error io"@,
            ErrorCode::DevEnomem => "dev error no memory"@,
            ErrorCode::DevEbusy => "dev error busy"@,
            ErrorCode::DevEinval => "dev error invalid"@,
        }
    }

    /// The short description of this code.
    pub fn message(&self) -> (r: &'static str)
        ensures
            r@ == self.spec_message(),
    {
        match self {
            ErrorCode::ERROR => "error",
            ErrorCode::NotInited => "not inited",
            ErrorCode::NotImplemented => "not implemented",
            ErrorCode::NotPermitted => "not permitted",
            ErrorCode::DeviceError => "device error",
            ErrorCode::InvalidParameter => "invalid parameter",
            ErrorCode::InvalidHandle => "invalid handle",
            ErrorCode::InvalidComponent => "invalid component",
            ErrorCode::InvalidFeature => "invalid feature",
            ErrorCode::WrongType => "wrong type",
            ErrorCode::WrongSize => "wrong size",
            ErrorCode::OutOfMemory => "out of memory",
            ErrorCode::OutOfRange => "out of range",
            ErrorCode::TIMEOUT => "timeout",
            ErrorCode::WrongMode => "wrong mode",
            ErrorCode::Busy => "busy",
            ErrorCode::Idle => "idle",
            ErrorCode::NoData => "no data",
            ErrorCode::NoBuffer => "no buffer",
            ErrorCode::NullPointer => "null pointer",
            ErrorCode::ReadonlyFeature => "readonly feature",
            ErrorCode::InvalidDescriptor => "invalid descriptor",
            ErrorCode::InvalidInterface => "invalid interface",
            ErrorCode::FirmwareError => "foreware error",
            ErrorCode::DevEperm => "dev error permission",
            ErrorCode::DevEio => "dev error io",
            ErrorCode::DevEnomem => "dev error no memory",
            ErrorCode::DevEbusy => "dev error busy",
            ErrorCode::DevEinval => "dev error invalid",
        }
    }
}

/// Turning a failure code into its raw value and back returns the code.
pub proof fn lemma_error_code_round_trip(e: ErrorCode)
    ensures
        ErrorCode::spec_from_repr(e.spec_code()) == Some(e),
{
}

/// Turning a recognised raw value into its code and back returns the value.
pub proof fn lemma_status_round_trip(v: i32)
    ensures
        ErrorCode::spec_from_repr(v) matches Some(e) ==> e.spec_code() == v,
{
}

/// A recognised raw status value is never the success status.
pub proof fn lemma_known_code_not_ok(v: i32)
    ensures
        ErrorCode::spec_from_repr(v) is Some ==> v != TY_STATUS_OK,
{
}

/// An error reported by the library or by a device: the failure code, and
/// the firmware's own error word where a device handed one back.
#[derive(Debug, Clone, Copy, PartialEq, Eq)]
pub struct DeviceError {
    pub errcode: ErrorCode,
    pub firmware_errcode: Option<u32>,
}

impl DeviceError {
    /// The error that a raw failure status stands for.
    ///
    /// A status outside the vendor's set has no error value, so it is left
    /// out here; a caller that cannot rule such a status out goes through
    /// [`ErrorCode::from_repr`] first.
    pub fn from_status(status: i32) -> (r: DeviceError)
        requires
            ErrorCode::spec_from_repr(status) is Some,
        ensures
            Some(r.errcode) == ErrorCode::spec_from_repr(status),
            r.firmware_errcode is None,
    {
        let code = ErrorCode::from_repr(status);
        match code {
            Some(errcode) => DeviceError { errcode, firmware_errcode: None },
            None => DeviceError { errcode: ErrorCode::ERROR, firmware_errcode: None },
        }
    }

    /// The short description of this error's code.
    pub fn message(&self) -> (r: &'static str)
        ensures
            r@ == self.errcode.spec_message(),
    {
        self.errcode.message()
    }
}

/// The text that [`ty_error_string`] returns for a raw status value.
pub open spec fn spec_error_string(status: i32) -> Seq<char> {
    if status == TY_STATUS_OK {
        "ok"@
    } else {
        match ErrorCode::spec_from_repr(status) {
            Some(e) => if e == ErrorCode::NotInited {
                "not initialized"@
            } else {
                e.spec_message()
            },
            None => "unknown status"@,
        }
    }
}

/// A readable description of a raw status value, recognised or not.
pub fn ty_error_string(status: i32) -> (r: &'static str)
    ensures
        r@ == spec_error_string(status),
{
    if status == TY_STATUS_OK {
        "ok"
    } else {
        match ErrorCode::from_repr(status) {
            Some(e) => if e == ErrorCode::NotInited {
                "not initialized"
            } else {
                e.message()
            },
            None => "unknown status",
        }
    }
}

/// Whether a raw status is the success status or a recognised failure code.
pub open spec fn recognised_status(status: i32) -> bool {
    status == TY_STATUS_OK || ErrorCode::spec_from_repr(status) is Some
}

/// Maps a raw status to `Ok` exactly when it is the success status.
pub fn chkerr(status: i32) -> (r: Result<(), DeviceError>)
    requires
        recognised_status(status),
    ensures
        r is Ok <==> status == TY_STATUS_OK,
        r matches Err(e) ==> Some(e.errcode) == ErrorCode::spec_from_repr(status)
            && e.firmware_errcode is None,
{
    if status != TY_STATUS_OK {
        Err(DeviceError::from_status(status))
    } else {
        Ok(())
    }
}

} // verus!
