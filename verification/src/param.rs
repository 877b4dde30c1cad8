//! NCCL runtime parameters: key checks, bound parameter handles, and the
//! validation of the lengths and tables NCCL reports.
use vstd::prelude::*;
use vstd::string::StringSliceAdditionalSpecFns;

use crate::comm::{checked_handle, spec_handle};
use crate::config::{c_string_bytes, first_nul, nul_free};
use crate::result::{check, spec_check, Error};

verus! {

/// The bytes of a parameter key, which must not contain a NUL byte.
pub fn parameter_key(key: &str) -> (r: Result<Vec<u8>, Error>)
    ensures
        match r {
            Ok(bytes) => bytes@ == key.spec_bytes() && nul_free(bytes@),
            Err(Error::InteriorNul(e)) => e.bytes@ == key.spec_bytes() && first_nul(
                key.spec_bytes(),
                e.position as int,
            ),
            Err(_) => false,
        },
{
    match c_string_bytes(key) {
        Ok(bytes) => Ok(bytes),
        Err(e) => Err(Error::from(e)),
    }
}

/// A runtime parameter bound by `ncclParamBind`; NCCL owns the handle.
#[derive(Debug)]
pub struct Parameter {
    raw: usize,
}

impl Parameter {
    pub closed spec fn spec_raw(self) -> usize {
        self.raw
    }

    #[verifier::type_invariant]
    closed spec fn wf(self) -> bool {
        self.raw != 0
    }

    /// The parameter `ncclParamBind` bound, given its code and handle.
    pub fn from_bound(code: i32, raw: usize) -> (r: Result<Self, Error>)
        ensures
            match r {
                Ok(p) => spec_handle(code, raw, "ncclParamBind") == Ok::<usize, Error>(
                    p.spec_raw(),
                ),
                Err(e) => spec_handle(code, raw, "ncclParamBind") == Err::<usize, Error>(e),
            },
            code != crate::abi::ncclSuccess ==> (r matches Err(Error::Nccl(c)) && c.0 == code),
            r matches Ok(p) ==> p.spec_raw() == raw && raw != 0 && code == crate::abi::ncclSuccess,
            r matches Err(Error::NullOnSuccess(_)) ==> code == crate::abi::ncclSuccess && raw == 0,
    {
        match checked_handle(code, raw, "ncclParamBind") {
            Ok(h) => Ok(Parameter { raw: h }),
            Err(e) => Err(e),
        }
    }

    /// The handle every parameter read receives.
    pub fn raw(&self) -> (raw: usize)
        ensures
            raw == self.spec_raw(),
            raw != 0,
    {
        proof {
            use_type_invariant(self);
        }
        self.raw
    }

    /// The string `ncclParamGetStr` produced: empty when it gave none.
    pub fn string_value(code: i32, value: Option<String>) -> (r: Result<String, Error>)
        ensures
            match r {
                Ok(s) => code == crate::abi::ncclSuccess && s@ == (match value {
                    Some(v) => v@,
                    None => Seq::<char>::empty(),
                }),
                Err(e) => Err::<(), Error>(e) == spec_check(code) && code
                    != crate::abi::ncclSuccess,
            },
    {
        match check(code) {
            Ok(()) => Ok(crate::result::text_or_empty(value)),
            Err(e) => Err(e),
        }
    }

    /// The buffer length passed to `ncclParamGet`, which must fit in an
    /// `i32`.
    pub fn bytes_capacity(max_len: usize) -> (r: Result<i32, Error>)
        ensures
            r == (if max_len > i32::MAX {
                Err(Error::InvalidArgument("parameter buffer exceeds i32::MAX"))
            } else {
                Ok(max_len as i32)
            }),
    {
        if max_len > 0x7fff_ffff {
            return Err(Error::InvalidArgument("parameter buffer exceeds i32::MAX"));
        }
        Ok(max_len as i32)
    }

    /// The bytes `ncclParamGet` produced in `bytes`, given the length it
    /// reported: that many leading bytes, provided the length is within the
    /// buffer.
    pub fn bytes_value(code: i32, bytes: Vec<u8>, actual: i32) -> (r: Result<Vec<u8>, Error>)
        ensures
            match r {
                Ok(v) => {
                    &&& code == crate::abi::ncclSuccess
                    &&& 0 <= actual <= bytes@.len()
                    &&& v@ == bytes@.take(actual as int)
                },
                Err(e) => if code != crate::abi::ncclSuccess {
                    Err::<(), Error>(e) == spec_check(code)
                } else {
                    &&& actual < 0 || actual > bytes@.len()
                    &&& e == Error::InvalidArgument("NCCL returned an invalid parameter length")
                },
            },
    {
        match check(code) {
            Ok(()) => {},
            Err(e) => {
                return Err(e);
            },
        }
        if actual < 0 || actual as usize > bytes.len() {
            return Err(Error::InvalidArgument("NCCL returned an invalid parameter length"));
        }
        let mut bytes = bytes;
        bytes.truncate(actual as usize);
        Ok(bytes)
    }
}

/// The number of bytes of the value `ncclParamGetParameter` reported, given
/// its code, whether the value pointer was null, and the length: a negative
/// length, or a null value with a non-zero length, is refused.
pub fn parameter_value_length(code: i32, value_is_null: bool, len: i32) -> (r: Result<
    usize,
    Error,
>)
    ensures
        r == (if code != crate::abi::ncclSuccess {
            Err(Error::Nccl(crate::result::ResultCode(code)))
        } else if len < 0 || (value_is_null && len != 0) {
            Err(Error::InvalidArgument("NCCL returned an invalid parameter value"))
        } else {
            Ok(len as usize)
        }),
{
    match check(code) {
        Ok(()) => {},
        Err(e) => {
            return Err(e);
        },
    }
    if len < 0 || (value_is_null && len != 0) {
        return Err(Error::InvalidArgument("NCCL returned an invalid parameter value"));
    }
    Ok(len as usize)
}

/// The number of keys in the table `ncclParamGetAllParameterKeys`
/// reported, given its code, whether the table pointer was null, and the
/// length: a negative length, or a null table with a non-zero length, is
/// refused.
pub fn parameter_table_length(code: i32, table_is_null: bool, len: i32) -> (r: Result<
    usize,
    Error,
>)
    ensures
        r == (if code != crate::abi::ncclSuccess {
            Err(Error::Nccl(crate::result::ResultCode(code)))
        } else if len < 0 || (table_is_null && len != 0) {
            Err(Error::InvalidArgument("NCCL returned an invalid parameter table"))
        } else {
            Ok(len as usize)
        }),
{
    match check(code) {
        Ok(()) => {},
        Err(e) => {
            return Err(e);
        },
    }
    if len < 0 || (table_is_null && len != 0) {
        return Err(Error::InvalidArgument("NCCL returned an invalid parameter table"));
    }
    Ok(len as usize)
}

/// The keys of a parameter table, read entry by entry (`None` for a null
/// entry): all of them in order, or an error when any entry is null.
pub fn parameter_keys_from(entries: Vec<Option<String>>) -> (r: Result<Vec<String>, Error>)
    ensures
        match r {
            Ok(keys) => {
                &&& keys@.len() == entries@.len()
                &&& forall|i: int|
                    0 <= i < entries@.len() ==> entries@[i] == Some(#[trigger] keys@[i])
            },
            Err(e) => {
                &&& e == Error::InvalidArgument("NCCL parameter table contains a null key")
                &&& exists|i: int| 0 <= i < entries@.len() && entries@[i] is None
            },
        },
{
    let mut keys: Vec<String> = Vec::new();
    let mut i: usize = 0;
    while i < entries.len()
        invariant
            0 <= i <= entries@.len(),
            keys@.len() == i,
            forall|j: int| 0 <= j < i ==> entries@[j] == Some(#[trigger] keys@[j]),
        decreases entries@.len() - i,
    {
        match &entries[i] {
            Some(key) => {
                keys.push(key.clone());
            },
            None => {
                return Err(Error::InvalidArgument("NCCL parameter table contains a null key"));
            },
        }
        i = i + 1;
    }
    Ok(keys)
}

} // verus!
