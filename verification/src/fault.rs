//! A compact error enumeration keyed by the magnitude of a status code.
//!
//! Where [`crate::status`] covers the vendor's whole status set, this
//! module keys a reduced set of faults by the positive magnitude of the
//! raw code: the status `-1002` is the fault numbered `1002`.

use vstd::prelude::*;

verus! {

/// A fault, numbered by the positive magnitude of its status code.
#[allow(non_camel_case_types)]
#[derive(Debug, Clone, Copy, PartialEq, Eq, Structural)]
pub enum DeviceError {
    ERROR,
    NotInited,
}

impl DeviceError {
    /// The fault's number: the magnitude of the raw status it stands for.
    pub open spec fn spec_repr(self) -> usize {
        match self {
            DeviceError::ERROR => 1001,
            DeviceError::NotInited => 1002,
        }
    }

    /// The fault numbered `v`, if any.
    pub open spec fn spec_from_repr(v: usize) -> Option<DeviceError> {
        if v == 1001 {
            Some(DeviceError::ERROR)
        } else if v == 1002 {
            Some(DeviceError::NotInited)
        } else {
            None
        }
    }

    /// The fault numbered `v`, if any.
    pub fn from_repr(v: usize) -> (r: Option<DeviceError>)
        ensures
            r == DeviceError::spec_from_repr(v),
    {
        if v == 1001 {
            Some(DeviceError::ERROR)
        } else if v == 1002 {
            Some(DeviceError::NotInited)
        } else {
            None
        }
    }

    /// The fault that a raw (negative) status value stands for.
    ///
    /// A status whose magnitude numbers no fault is left out here, so the
    /// conversion is total on what it admits.
    pub fn from_status(value: i32) -> (r: DeviceError)
        requires
            value == -1001 || value == -1002,
        ensures
            Some(r) == DeviceError::spec_from_repr((-value) as usize),
    {
        if value == -1001 {
            DeviceError::ERROR
        } else {
            DeviceError::NotInited
        }
    }

    /// The fault numbered by a positive code word.
    pub fn from_code(value: u32) -> (r: DeviceError)
        requires
            value == 1001 || value == 1002,
        ensures
            Some(r) == DeviceError::spec_from_repr(value as usize),
    {
        if value == 1001 {
            DeviceError::ERROR
        } else {
            DeviceError::NotInited
        }
    }

    /// The short description of this fault.
    pub fn message(&self) -> (r: &'static str)
        ensures
            *self == DeviceError::ERROR ==> r@ == "error"@,
            *self == DeviceError::NotInited ==> r@ == "not inited"@,
    {
        match self {
            DeviceError::ERROR => "error",
            DeviceError::NotInited => "not inited",
        }
    }
}

/// Numbering a fault and looking the number up returns the fault.
pub proof fn lemma_fault_round_trip(e: DeviceError)
    ensures
        DeviceError::spec_from_repr(e.spec_repr()) == Some(e),
{
}

/// A tiny enumeration with a single successful value.
#[derive(Debug, Clone, Copy, PartialEq, Eq, Structural)]
pub enum TestEnum {
    OK,
}

impl TestEnum {
    /// The value numbered `v`, if any: only zero names one.
    pub fn from_repr(v: usize) -> (r: Option<TestEnum>)
        ensures
            r is Some <==> v == 0,
            r matches Some(e) ==> e == TestEnum::OK,
    {
        if v == 0 {
            Some(TestEnum::OK)
        } else {
            None
        }
    }
}

} // verus!
