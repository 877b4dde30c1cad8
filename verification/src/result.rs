//! NCCL result codes, the library's error type, and the rule that turns a
//! result code into a `Result`.
use vstd::prelude::*;
use vstd::string::*;

use crate::abi;

verus! {

/// A NCCL result code, including codes unknown to this library.
#[derive(Clone, Copy, Debug, PartialEq, Eq, Structural)]
pub struct ResultCode(pub i32);

/// The named result codes of `nccl.h`.
impl ResultCode {
    pub fn success() -> (code: ResultCode)
        ensures
            code.0 == abi::ncclSuccess,
    {
        ResultCode(abi::ncclSuccess)
    }

    pub fn unhandled_cuda_error() -> (code: ResultCode)
        ensures
            code.0 == abi::ncclUnhandledCudaError,
    {
        ResultCode(abi::ncclUnhandledCudaError)
    }

    pub fn system_error() -> (code: ResultCode)
        ensures
            code.0 == abi::ncclSystemError,
    {
        ResultCode(abi::ncclSystemError)
    }

    pub fn internal_error() -> (code: ResultCode)
        ensures
            code.0 == abi::ncclInternalError,
    {
        ResultCode(abi::ncclInternalError)
    }

    pub fn invalid_argument() -> (code: ResultCode)
        ensures
            code.0 == abi::ncclInvalidArgument,
    {
        ResultCode(abi::ncclInvalidArgument)
    }

    pub fn invalid_usage() -> (code: ResultCode)
        ensures
            code.0 == abi::ncclInvalidUsage,
    {
        ResultCode(abi::ncclInvalidUsage)
    }

    pub fn remote_error() -> (code: ResultCode)
        ensures
            code.0 == abi::ncclRemoteError,
    {
        ResultCode(abi::ncclRemoteError)
    }

    pub fn in_progress() -> (code: ResultCode)
        ensures
            code.0 == abi::ncclInProgress,
    {
        ResultCode(abi::ncclInProgress)
    }

    pub fn timeout() -> (code: ResultCode)
        ensures
            code.0 == abi::ncclTimeout,
    {
        ResultCode(abi::ncclTimeout)
    }

    pub fn is_success(self) -> (b: bool)
        ensures
            b == (self.0 == abi::ncclSuccess),
    {
        self.0 == abi::ncclSuccess
    }

    pub fn as_raw(self) -> (raw: i32)
        ensures
            raw == self.0,
    {
        self.0
    }

    /// The text of this code: NCCL's own description when it gave one
    /// (`message`), else `NCCL error ` followed by the code in decimal.
    pub fn description(self, message: Option<String>) -> (text: String)
        ensures
            text@ == spec_description(self.0 as int, option_text(message)),
    {
        match message {
            Some(m) => m,
            None => {
                let digits = decimal_text(self.0);
                let prefix = String::from_str("NCCL error ");
                proof {
                    reveal_strlit("NCCL error ");
                }
                prefix.concat(digits.as_str())
            },
        }
    }
}

/// `n` (non-negative) in decimal, most significant digit first.
pub open spec fn spec_digits(n: nat) -> Seq<char>
    decreases n,
{
    if n < 10 {
        seq![(('0' as u8) + n) as char]
    } else {
        spec_digits(n / 10) + seq![(('0' as u8) + (n % 10)) as char]
    }
}

/// `v` in decimal, with a leading `-` when it is negative.
pub open spec fn spec_decimal(v: int) -> Seq<char> {
    if v < 0 {
        seq!['-'] + spec_digits((-v) as nat)
    } else {
        spec_digits(v as nat)
    }
}

/// The characters of an optional string.
pub open spec fn option_text(text: Option<String>) -> Option<Seq<char>> {
    match text {
        Some(t) => Some(t@),
        None => None,
    }
}

/// The description of result code `code` given NCCL's text for it, if any.
pub open spec fn spec_description(code: int, message: Option<Seq<char>>) -> Seq<char> {
    match message {
        Some(m) => m,
        None => "NCCL error "@ + spec_decimal(code),
    }
}

/// `i32::to_string`: its `Display` output, the value in decimal with a `-`
/// sign when negative. The contract restates that documented format.
#[verifier::external_body]
fn decimal_text(v: i32) -> (s: String)
    ensures
        s@ == spec_decimal(v as int),
{
    v.to_string()
}

/// The error `CString::new` reports: the string held a NUL byte.
#[derive(Debug)]
pub struct NulError {
    pub position: usize,
    pub bytes: Vec<u8>,
}

impl NulError {
    pub fn nul_position(&self) -> (p: usize)
        ensures
            p == self.position,
    {
        self.position
    }

    pub fn into_vec(self) -> (v: Vec<u8>)
        ensures
            v@ == self.bytes@,
    {
        self.bytes
    }
}

/// Errors from either NCCL or the library's argument and handle checks.
#[derive(Debug)]
pub enum Error {
    Nccl(ResultCode),
    InvalidArgument(&'static str),
    InteriorNul(NulError),
    NullOnSuccess(&'static str),
}

impl Error {
    pub fn nccl_code(&self) -> (code: Option<ResultCode>)
        ensures
            code == (match self {
                Error::Nccl(c) => Some(*c),
                _ => None,
            }),
    {
        match self {
            Error::Nccl(code) => Some(*code),
            _ => None,
        }
    }
}

/// The text shown for an error; `description` is NCCL's text for the
/// result code of a NCCL error, if it gave one.
pub open spec fn spec_error_message(e: Error, description: Option<Seq<char>>) -> Seq<char> {
    match e {
        Error::Nccl(code) => spec_description(code.0 as int, description),
        Error::InvalidArgument(m) => m@,
        Error::InteriorNul(_) => "string contains an interior NUL byte"@,
        Error::NullOnSuccess(api) => api@ + " returned success with a null handle"@,
    }
}

impl Error {
    /// The error's text (the `Display` form).
    pub fn message(&self, description: Option<String>) -> (text: String)
        ensures
            text@ == spec_error_message(*self, option_text(description)),
    {
        match self {
            Error::Nccl(code) => code.description(description),
            Error::InvalidArgument(m) => String::from_str(m),
            Error::InteriorNul(_) => {
                proof {
                    reveal_strlit("string contains an interior NUL byte");
                }
                String::from_str("string contains an interior NUL byte")
            },
            Error::NullOnSuccess(api) => {
                proof {
                    reveal_strlit(" returned success with a null handle");
                }
                String::from_str(api).concat(" returned success with a null handle")
            },
        }
    }
}

impl From<NulError> for Error {
    fn from(value: NulError) -> (e: Self) {
        Error::InteriorNul(value)
    }
}

impl vstd::std_specs::convert::FromSpecImpl<NulError> for Error {
    open spec fn obeys_from_spec() -> bool {
        true
    }

    open spec fn from_spec(v: NulError) -> Error {
        Error::InteriorNul(v)
    }
}

/// What a NCCL call that returned `code` amounts to.
pub open spec fn spec_check(code: i32) -> Result<(), Error> {
    if code == abi::ncclSuccess {
        Ok(())
    } else {
        Err(Error::Nccl(ResultCode(code)))
    }
}

/// A NCCL call succeeded exactly when it returned `ncclSuccess`; any other
/// code is reported as that code.
pub fn check(code: i32) -> (r: Result<(), Error>)
    ensures
        r == spec_check(code),
{
    if code == abi::ncclSuccess {
        Ok(())
    } else {
        Err(Error::Nccl(ResultCode(code)))
    }
}

/// The outcome of a NCCL call that returned `code` and filled in `value`.
pub open spec fn spec_check_value<T>(code: i32, value: T) -> Result<T, Error> {
    if code == abi::ncclSuccess {
        Ok(value)
    } else {
        Err(Error::Nccl(ResultCode(code)))
    }
}

/// The value a NCCL call filled in, provided the call succeeded.
pub fn check_value<T>(code: i32, value: T) -> (r: Result<T, Error>)
    ensures
        r == spec_check_value(code, value),
{
    match check(code) {
        Ok(()) => Ok(value),
        Err(e) => Err(e),
    }
}

/// A text NCCL may leave out (a null string) reads as the empty string.
pub fn text_or_empty(text: Option<String>) -> (s: String)
    ensures
        s@ == (match text {
            Some(t) => t@,
            None => Seq::<char>::empty(),
        }),
{
    match text {
        Some(t) => t,
        None => String::new(),
    }
}

/// The error `nccl_code` reports is the code the failed call returned.
pub proof fn lemma_check_reports_code(code: i32)
    requires
        code != abi::ncclSuccess,
    ensures
        spec_check(code) matches Err(Error::Nccl(c)) && c.0 == code,
        !ResultCode(code).spec_is_success(),
{
}

impl ResultCode {
    pub open spec fn spec_is_success(self) -> bool {
        self.0 == abi::ncclSuccess
    }
}

} // verus!
