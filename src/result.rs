use vstd::prelude::*;

verus! {

/// The status code a runtime call returns when it succeeds.
#[derive(Debug, Clone, Copy, PartialEq, Eq, Structural)]
pub enum HipSuccess {
    Success,
}

impl HipSuccess {
    pub fn new() -> (r: Self)
        ensures
            r == HipSuccess::Success,
    {
        HipSuccess::Success
    }
}

/// The semantic class of a nonzero status code.
#[derive(Debug, Clone, Copy, PartialEq, Eq, Structural)]
pub enum HipErrorKind {
    InvalidValue,
    MemoryAllocation,
    NotInitialized,
    Deinitialized,
    InvalidDevice,
    FileNotFound,
    NotReady,
    NotSupported,
    Unknown,
}

/// The status codes that have a kind of their own; every other nonzero code is unknown.
pub open spec fn is_mapped_code(code: u32) -> bool {
    code == 1 || code == 2 || code == 3 || code == 4 || code == 101 || code == 301 || code
        == 600 || code == 801
}

/// The kind that a raw status code is classified as.
pub open spec fn kind_of(code: u32) -> HipErrorKind {
    match code {
        1 => HipErrorKind::InvalidValue,
        2 => HipErrorKind::MemoryAllocation,
        3 => HipErrorKind::NotInitialized,
        4 => HipErrorKind::Deinitialized,
        101 => HipErrorKind::InvalidDevice,
        301 => HipErrorKind::FileNotFound,
        600 => HipErrorKind::NotReady,
        801 => HipErrorKind::NotSupported,
        _ => HipErrorKind::Unknown,
    }
}

/// The runtime's status code that stands for each kind.
pub open spec fn code_of_kind(kind: HipErrorKind) -> u32 {
    match kind {
        HipErrorKind::InvalidValue => 1,
        HipErrorKind::MemoryAllocation => 2,
        HipErrorKind::NotInitialized => 3,
        HipErrorKind::Deinitialized => 4,
        HipErrorKind::InvalidDevice => 101,
        HipErrorKind::FileNotFound => 301,
        HipErrorKind::NotReady => 600,
        HipErrorKind::NotSupported => 801,
        HipErrorKind::Unknown => 999,
    }
}

impl HipErrorKind {
    /// Classifies a raw status code; codes outside the table are `Unknown`.
    pub fn from_raw(error: u32) -> (r: Self)
        ensures
            r == kind_of(error),
            !is_mapped_code(error) ==> r == HipErrorKind::Unknown,
    {
        match error {
            1 => HipErrorKind::InvalidValue,
            2 => HipErrorKind::MemoryAllocation,
            3 => HipErrorKind::NotInitialized,
            4 => HipErrorKind::Deinitialized,
            101 => HipErrorKind::InvalidDevice,
            301 => HipErrorKind::FileNotFound,
            600 => HipErrorKind::NotReady,
            801 => HipErrorKind::NotSupported,
            _ => HipErrorKind::Unknown,
        }
    }

    /// The status code that stands for this kind.
    pub fn code(self) -> (r: u32)
        ensures
            r == code_of_kind(self),
            r != 0,
            kind_of(r) == self,
    {
        match self {
            HipErrorKind::InvalidValue => 1,
            HipErrorKind::MemoryAllocation => 2,
            HipErrorKind::NotInitialized => 3,
            HipErrorKind::Deinitialized => 4,
            HipErrorKind::InvalidDevice => 101,
            HipErrorKind::FileNotFound => 301,
            HipErrorKind::NotReady => 600,
            HipErrorKind::NotSupported => 801,
            HipErrorKind::Unknown => 999,
        }
    }
}

/// A failed runtime call: the classified kind and the raw code it came from.
#[derive(Debug, Clone, Copy, PartialEq, Eq, Structural)]
pub struct HipError {
    pub kind: HipErrorKind,
    pub code: u32,
}

/// The error that a nonzero status code becomes.
pub open spec fn error_of(code: u32) -> HipError {
    HipError { kind: kind_of(code), code }
}

/// What a call that left `value` in its output slot and returned `code` amounts to.
pub open spec fn outcome<T>(value: T, code: u32) -> core::result::Result<T, HipError> {
    if code == 0 {
        Ok(value)
    } else {
        Err(error_of(code))
    }
}

impl HipError {
    pub fn new(code: u32) -> (r: Self)
        ensures
            r == error_of(code),
    {
        HipError { kind: HipErrorKind::from_raw(code), code }
    }

    /// The error that the runtime reports for `kind`, carrying that kind's own code.
    pub fn from_kind(kind: HipErrorKind) -> (r: Self)
        ensures
            r.kind == kind,
            r.code == code_of_kind(kind),
            r == error_of(r.code),
    {
        HipError { kind, code: kind.code() }
    }
}

pub type Result<T> = core::result::Result<T, HipError>;

/// A raw outcome of a runtime call, turned into a typed result.
pub trait HipResult: Sized {
    type Value;

    spec fn raw_value(&self) -> Self::Value;

    spec fn raw_code(&self) -> u32;

    /// Success with the value exactly when the code is zero, else the classified error.
    fn to_result(self) -> (r: Result<Self::Value>)
        ensures
            r == outcome(self.raw_value(), self.raw_code()),
            r is Ok <==> self.raw_code() == 0,
            r is Ok ==> r == Ok::<Self::Value, HipError>(self.raw_value()),
            r is Err ==> r->Err_0.code == self.raw_code() && r->Err_0.kind == kind_of(
                self.raw_code(),
            ),
    ;
}

/// A value left in an output slot, paired with the status code of the call.
impl<T> HipResult for (T, u32) {
    type Value = T;

    open spec fn raw_value(&self) -> T {
        self.0
    }

    open spec fn raw_code(&self) -> u32 {
        self.1
    }

    fn to_result(self) -> (r: Result<T>) {
        let (value, code) = self;
        if code == 0 {
            Ok(value)
        } else {
            Err(HipError::new(code))
        }
    }
}

} // verus!
