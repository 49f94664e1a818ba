use vstd::prelude::*;

verus! {

/// The closed set of outcomes that every engine operation reports.
#[derive(Debug, Clone, Copy, PartialEq, Eq, Structural)]
pub enum WebrtcApmError {
    NoError,
    UnspecifiedError,
    BadParameterError,
    BadSampleRateError,
    NullPointerError,
}

/// The signal that a raw outcome code of the engine stands for; every code
/// that the engine does not document collapses to `UnspecifiedError`.
pub open spec fn error_of_code(code: i32) -> WebrtcApmError {
    if code == 0 {
        WebrtcApmError::NoError
    } else if code == -6 {
        WebrtcApmError::BadParameterError
    } else if code == -7 {
        WebrtcApmError::BadSampleRateError
    } else if code == -8 {
        WebrtcApmError::NullPointerError
    } else {
        WebrtcApmError::UnspecifiedError
    }
}

impl From<i32> for WebrtcApmError {
    fn from(value: i32) -> (r: WebrtcApmError)
        ensures
            r == error_of_code(value),
    {
        match value {
            0 => WebrtcApmError::NoError,
            -1 => WebrtcApmError::UnspecifiedError,
            -6 => WebrtcApmError::BadParameterError,
            -7 => WebrtcApmError::BadSampleRateError,
            -8 => WebrtcApmError::NullPointerError,
            _ => WebrtcApmError::UnspecifiedError,
        }
    }
}

impl vstd::std_specs::convert::FromSpecImpl<i32> for WebrtcApmError {
    open spec fn obeys_from_spec() -> bool {
        true
    }

    open spec fn from_spec(v: i32) -> WebrtcApmError {
        error_of_code(v)
    }
}

impl WebrtcApmError {
    /// Maps a raw outcome code of the engine to its signal.
    pub fn from_code(code: i32) -> (r: WebrtcApmError)
        ensures
            r == error_of_code(code),
    {
        WebrtcApmError::from(code)
    }

    /// True only for `NoError`: the one signal on which a caller may proceed.
    pub fn is_ok(&self) -> (r: bool)
        ensures
            r == (*self == WebrtcApmError::NoError),
    {
        matches!(self, WebrtcApmError::NoError)
    }

    /// Turns an outcome into a `Result`: `Ok` for `NoError`, the signal itself otherwise.
    pub fn into_result(self) -> (r: Result<(), WebrtcApmError>)
        ensures
            r == (if self == WebrtcApmError::NoError { Ok(()) } else { Err(self) }),
    {
        if self.is_ok() {
            Ok(())
        } else {
            Err(self)
        }
    }
}

/// The five documented codes map to the five signals in order, and every other
/// code maps to `UnspecifiedError`.
pub proof fn code_mapping_is_total(code: i32)
    ensures
        code == 0 ==> error_of_code(code) == WebrtcApmError::NoError,
        code == -1 ==> error_of_code(code) == WebrtcApmError::UnspecifiedError,
        code == -6 ==> error_of_code(code) == WebrtcApmError::BadParameterError,
        code == -7 ==> error_of_code(code) == WebrtcApmError::BadSampleRateError,
        code == -8 ==> error_of_code(code) == WebrtcApmError::NullPointerError,
        !(code == 0 || code == -6 || code == -7 || code == -8) ==> error_of_code(code)
            == WebrtcApmError::UnspecifiedError,
{
}

/// Only the code for success is read as success.
pub proof fn success_only_from_zero(code: i32)
    ensures
        (error_of_code(code) == WebrtcApmError::NoError) <==> code == 0,
{
}

} // verus!
