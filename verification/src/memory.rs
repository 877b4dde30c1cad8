//! Memory allocated through `ncclMemAlloc`: the size request and the
//! bookkeeping of an allocation.
use core::marker::PhantomData;
use vstd::prelude::*;

use crate::result::{check, spec_check, Error};

verus! {

/// The byte count to request for `len` elements of `T`, or why none can be
/// requested.
pub open spec fn spec_allocation_size<T>(len: usize) -> Result<usize, Error> {
    let bytes = vstd::layout::size_of::<T>() * len;
    if len == 0 {
        Err(Error::InvalidArgument("NCCL allocation length must be non-zero"))
    } else if bytes > usize::MAX {
        Err(Error::InvalidArgument("NCCL allocation size overflow"))
    } else if bytes == 0 {
        Err(Error::InvalidArgument("zero-sized Rust types cannot be NCCL buffers"))
    } else {
        Ok(bytes as usize)
    }
}

/// A device allocation of `len` elements of `T` made by NCCL, identified by
/// its (non-null) address.
#[derive(Debug)]
pub struct NcclMemory<T> {
    addr: usize,
    len: usize,
    _marker: PhantomData<T>,
}

impl<T> NcclMemory<T> {
    /// The allocation's address.
    pub closed spec fn spec_addr(self) -> usize {
        self.addr
    }

    /// The number of elements allocated.
    pub closed spec fn spec_len(self) -> usize {
        self.len
    }

    /// The address is not null and the allocation is not empty.
    #[verifier::type_invariant]
    closed spec fn wf(self) -> bool {
        &&& self.addr != 0
        &&& self.len > 0
    }

    /// The number of bytes to ask `ncclMemAlloc` for when allocating `len`
    /// elements: non-zero and without overflow.
    pub fn allocation_size(len: usize) -> (r: Result<usize, Error>)
        ensures
            r == spec_allocation_size::<T>(len),
    {
        if len == 0 {
            return Err(Error::InvalidArgument("NCCL allocation length must be non-zero"));
        }
        let bytes = match core::mem::size_of::<T>().checked_mul(len) {
            Some(b) => b,
            None => {
                return Err(Error::InvalidArgument("NCCL allocation size overflow"));
            },
        };
        if bytes == 0 {
            return Err(Error::InvalidArgument("zero-sized Rust types cannot be NCCL buffers"));
        }
        Ok(bytes)
    }

    /// The allocation `ncclMemAlloc` made for `len` elements, given the code
    /// it returned and the address it wrote.
    pub fn from_allocation(len: usize, code: i32, addr: usize) -> (r: Result<Self, Error>)
        requires
            spec_allocation_size::<T>(len) is Ok,
        ensures
            match r {
                Ok(m) => spec_check(code) is Ok && addr != 0 && m.spec_addr() == addr
                    && m.spec_len() == len,
                Err(e) => if spec_check(code) is Err {
                    Err::<(), Error>(e) == spec_check(code)
                } else {
                    addr == 0 && e == Error::NullOnSuccess("ncclMemAlloc")
                },
            },
    {
        match check(code) {
            Ok(()) => {},
            Err(e) => {
                return Err(e);
            },
        }
        if addr == 0 {
            return Err(Error::NullOnSuccess("ncclMemAlloc"));
        }
        Ok(NcclMemory { addr, len, _marker: PhantomData })
    }

    pub fn len(&self) -> (n: usize)
        ensures
            n == self.spec_len(),
            n > 0,
    {
        proof {
            use_type_invariant(self);
        }
        self.len
    }

    /// An allocation is never empty.
    pub fn is_empty(&self) -> (b: bool)
        ensures
            b == (self.spec_len() == 0),
            !b,
    {
        proof {
            use_type_invariant(self);
        }
        false
    }

    pub fn as_ptr(&self) -> (addr: usize)
        ensures
            addr == self.spec_addr(),
            addr != 0,
    {
        proof {
            use_type_invariant(self);
        }
        self.addr
    }

    pub fn as_mut_ptr(&mut self) -> (addr: usize)
        ensures
            addr == old(self).spec_addr(),
            addr != 0,
            *final(self) == *old(self),
    {
        proof {
            use_type_invariant(&*self);
        }
        self.addr
    }
}

} // verus!
