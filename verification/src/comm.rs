//! Communicators and the handles created through them: the argument checks
//! made before NCCL is called, the reading of what NCCL handed back, and the
//! ownership rule that a communicator is destroyed at most once.
use vstd::prelude::*;

use crate::abi;
use crate::result::{check, spec_check, Error};
use crate::types::{spec_wait_desc, ReductionOp, WaitSignal};

verus! {

/// Whether `rank` is a valid rank of a communicator of `nranks` ranks.
pub open spec fn spec_validate_rank(nranks: i32, rank: i32) -> Result<(), Error> {
    if nranks <= 0 {
        Err(Error::InvalidArgument("nranks must be positive"))
    } else if rank < 0 || rank >= nranks {
        Err(Error::InvalidArgument("rank must be in 0..nranks"))
    } else {
        Ok(())
    }
}

/// A communicator needs a positive rank count and a rank in `0..nranks`.
pub fn validate_rank(nranks: i32, rank: i32) -> (r: Result<(), Error>)
    ensures
        r == spec_validate_rank(nranks, rank),
        r is Ok <==> 0 <= rank < nranks,
{
    if nranks <= 0 {
        return Err(Error::InvalidArgument("nranks must be positive"));
    }
    if rank < 0 || rank >= nranks {
        return Err(Error::InvalidArgument("rank must be in 0..nranks"));
    }
    Ok(())
}

/// The handle NCCL returned, provided the call succeeded and the handle is
/// not null (`api` names the call in the error).
pub open spec fn spec_handle(code: i32, raw: usize, api: &'static str) -> Result<usize, Error> {
    if code != abi::ncclSuccess {
        Err(Error::Nccl(crate::result::ResultCode(code)))
    } else if raw == 0 {
        Err(Error::NullOnSuccess(api))
    } else {
        Ok(raw)
    }
}

/// A failed call is reported by its own code whatever handle it left
/// behind; a null handle is an error only after a successful call; any other
/// handle of a successful call is accepted as it is.
pub proof fn lemma_handle_outcomes(code: i32, raw: usize, api: &'static str)
    ensures
        code != abi::ncclSuccess ==> spec_handle(code, raw, api) == Err::<usize, Error>(
            Error::Nccl(crate::result::ResultCode(code)),
        ),
        code == abi::ncclSuccess && raw == 0 ==> spec_handle(code, raw, api) == Err::<
            usize,
            Error,
        >(Error::NullOnSuccess(api)),
        code == abi::ncclSuccess && raw != 0 ==> spec_handle(code, raw, api) == Ok::<usize, Error>(
            raw,
        ),
{
}

/// The handle a successful NCCL call wrote, which must not be null.
pub fn checked_handle(code: i32, raw: usize, api: &'static str) -> (r: Result<usize, Error>)
    ensures
        r == spec_handle(code, raw, api),
        code != abi::ncclSuccess ==> r == Err::<usize, Error>(Error::Nccl(
            crate::result::ResultCode(code),
        )),
        r matches Err(Error::NullOnSuccess(a)) ==> code == abi::ncclSuccess && raw == 0 && a
            == api,
        r matches Ok(h) ==> h == raw && raw != 0 && code == abi::ncclSuccess,
        code == abi::ncclSuccess && raw != 0 ==> r == Ok::<usize, Error>(raw),
{
    match check(code) {
        Ok(()) => {},
        Err(e) => {
            return Err(e);
        },
    }
    if raw == 0 {
        return Err(Error::NullOnSuccess(api));
    }
    Ok(raw)
}

/// An owned NCCL communicator, identified by its (non-null) handle.
#[derive(Debug)]
pub struct Communicator {
    raw: usize,
    closed: bool,
}

impl Communicator {
    /// The communicator's handle.
    pub closed spec fn spec_raw(self) -> usize {
        self.raw
    }

    /// Whether the handle has been given up for destruction.
    pub closed spec fn spec_closed(self) -> bool {
        self.closed
    }

    #[verifier::type_invariant]
    closed spec fn wf(self) -> bool {
        self.raw != 0
    }

    /// The communicator whose handle NCCL wrote (`api` names the call).
    pub fn from_raw(raw: usize, api: &'static str) -> (r: Result<Self, Error>)
        ensures
            match r {
                Ok(c) => raw != 0 && c.spec_raw() == raw && !c.spec_closed(),
                Err(e) => raw == 0 && e == Error::NullOnSuccess(api),
            },
    {
        if raw == 0 {
            return Err(Error::NullOnSuccess(api));
        }
        Ok(Communicator { raw, closed: false })
    }

    /// The communicator created by a NCCL call that returned `code` and
    /// wrote the handle `raw` (`ncclCommInitRank`, `ncclCommInitRankConfig`,
    /// `ncclCommInitRankScalable`, `ncclCommShrink`).
    pub fn from_created(code: i32, raw: usize, api: &'static str) -> (r: Result<Self, Error>)
        ensures
            match r {
                Ok(c) => spec_handle(code, raw, api) == Ok::<usize, Error>(c.spec_raw())
                    && !c.spec_closed(),
                Err(e) => spec_handle(code, raw, api) == Err::<usize, Error>(e),
            },
            code != abi::ncclSuccess ==> (r matches Err(Error::Nccl(c)) && c.0 == code),
            r matches Ok(c) ==> c.spec_raw() == raw && code == abi::ncclSuccess && raw != 0,
            r matches Err(Error::NullOnSuccess(a)) ==> code == abi::ncclSuccess && raw == 0 && a
                == api,
    {
        match checked_handle(code, raw, api) {
            Ok(h) => Communicator::from_raw(h, api),
            Err(e) => Err(e),
        }
    }

    /// The number of bootstrap identifiers to pass to
    /// `ncclCommInitRankScalable`: the rank must be valid and there must be
    /// between one and `i32::MAX` identifiers.
    pub fn scalable_id_count(nranks: i32, rank: i32, ids_len: usize) -> (r: Result<i32, Error>)
        ensures
            r == (match spec_validate_rank(nranks, rank) {
                Err(e) => Err(e),
                Ok(()) => if ids_len == 0 {
                    Err(Error::InvalidArgument("at least one unique ID is required"))
                } else if ids_len > i32::MAX {
                    Err(Error::InvalidArgument("too many unique IDs"))
                } else {
                    Ok(ids_len as i32)
                },
            }),
    {
        match validate_rank(nranks, rank) {
            Ok(()) => {},
            Err(e) => {
                return Err(e);
            },
        }
        if ids_len == 0 {
            return Err(Error::InvalidArgument("at least one unique ID is required"));
        }
        if ids_len > 0x7fff_ffff {
            return Err(Error::InvalidArgument("too many unique IDs"));
        }
        Ok(ids_len as i32)
    }

    /// The color passed to `ncclCommSplit`: the requested one, or
    /// `NCCL_SPLIT_NOCOLOR` when this rank joins no new communicator.
    pub fn split_color(color: Option<i32>) -> (c: i32)
        ensures
            c == (match color {
                Some(v) => v,
                None => abi::NCCL_SPLIT_NOCOLOR,
            }),
    {
        match color {
            Some(v) => v,
            None => abi::NCCL_SPLIT_NOCOLOR,
        }
    }

    /// What `ncclCommSplit` produced: nothing when it wrote a null handle
    /// (this rank is in no new communicator), else the new communicator.
    pub fn from_split(code: i32, raw: usize) -> (r: Result<Option<Self>, Error>)
        ensures
            match r {
                Ok(None) => code == abi::ncclSuccess && raw == 0,
                Ok(Some(c)) => code == abi::ncclSuccess && raw != 0 && c.spec_raw() == raw
                    && !c.spec_closed(),
                Err(e) => code != abi::ncclSuccess && Err::<(), Error>(e) == spec_check(code),
            },
    {
        match check(code) {
            Ok(()) => {},
            Err(e) => {
                return Err(e);
            },
        }
        if raw == 0 {
            return Ok(None);
        }
        match Communicator::from_raw(raw, "ncclCommSplit") {
            Ok(c) => Ok(Some(c)),
            Err(e) => Err(e),
        }
    }

    /// The exclusion count and flags passed to `ncclCommShrink`: the number
    /// of excluded ranks must fit in an `i32`; aborting the parent's
    /// operations selects `NCCL_SHRINK_ABORT`.
    pub fn shrink_arguments(exclude_len: usize, abort_parent_operations: bool) -> (r: Result<
        (i32, i32),
        Error,
    >)
        ensures
            r == (if exclude_len > i32::MAX {
                Err(Error::InvalidArgument("too many excluded ranks"))
            } else {
                Ok(
                    (
                        exclude_len as i32,
                        if abort_parent_operations {
                            abi::NCCL_SHRINK_ABORT
                        } else {
                            abi::NCCL_SHRINK_DEFAULT
                        },
                    ),
                )
            }),
    {
        if exclude_len > 0x7fff_ffff {
            return Err(Error::InvalidArgument("too many excluded ranks"));
        }
        let flags = if abort_parent_operations {
            abi::NCCL_SHRINK_ABORT
        } else {
            abi::NCCL_SHRINK_DEFAULT
        };
        Ok((exclude_len as i32, flags))
    }

    /// The handle every NCCL call on this communicator receives.
    pub fn raw(&self) -> (raw: usize)
        ensures
            raw == self.spec_raw(),
            raw != 0,
    {
        proof {
            use_type_invariant(self);
        }
        self.raw
    }

    pub fn is_closed(&self) -> (b: bool)
        ensures
            b == self.spec_closed(),
    {
        self.closed
    }

    /// Give up the handle for destruction (`ncclCommDestroy` or
    /// `ncclCommAbort`): the handle the first time, nothing afterwards.
    pub fn close(&mut self) -> (raw: Option<usize>)
        ensures
            final(self).spec_raw() == old(self).spec_raw(),
            final(self).spec_closed(),
            raw == (if old(self).spec_closed() {
                None
            } else {
                Some(old(self).spec_raw())
            }),
    {
        proof {
            use_type_invariant(&*self);
        }
        if self.closed {
            None
        } else {
            self.closed = true;
            Some(self.raw)
        }
    }

    /// A buffer to register must be non-null and non-empty.
    pub fn check_registration(addr: usize, size: usize) -> (r: Result<(), Error>)
        ensures
            r == (if addr == 0 || size == 0 {
                Err(Error::InvalidArgument("registered buffer must be non-null and non-empty"))
            } else {
                Ok(())
            }),
    {
        if addr == 0 || size == 0 {
            return Err(Error::InvalidArgument("registered buffer must be non-null and non-empty"));
        }
        Ok(())
    }

    /// A window buffer must be non-null and non-empty.
    pub fn check_window(addr: usize, size: usize) -> (r: Result<(), Error>)
        ensures
            r == (if addr == 0 || size == 0 {
                Err(Error::InvalidArgument("window buffer must be non-null and non-empty"))
            } else {
                Ok(())
            }),
    {
        if addr == 0 || size == 0 {
            return Err(Error::InvalidArgument("window buffer must be non-null and non-empty"));
        }
        Ok(())
    }

    /// The arguments of `ncclWaitSignal` for `waits`: their number, which
    /// must fit in an `i32`, and their C descriptors; every operation count
    /// must be non-negative.
    pub fn wait_signal_descriptors(waits: &[WaitSignal]) -> (r: Result<
        (i32, Vec<abi::ncclWaitSignalDesc_t>),
        Error,
    >)
        ensures
            match r {
                Ok((count, descs)) => {
                    &&& waits@.len() <= i32::MAX
                    &&& count == waits@.len()
                    &&& forall|i: int| 0 <= i < waits@.len() ==> waits@[i].operation_count >= 0
                    &&& descs@ == waits@.map_values(|w: WaitSignal| spec_wait_desc(w))
                },
                Err(e) => if waits@.len() > i32::MAX {
                    e == Error::InvalidArgument("too many signal descriptors")
                } else {
                    &&& e == Error::InvalidArgument("signal operation counts must be non-negative")
                    &&& exists|i: int| 0 <= i < waits@.len() && waits@[i].operation_count < 0
                },
            },
    {
        if waits.len() > 0x7fff_ffff {
            return Err(Error::InvalidArgument("too many signal descriptors"));
        }
        let count = waits.len() as i32;
        let mut descs: Vec<abi::ncclWaitSignalDesc_t> = Vec::new();
        let mut i: usize = 0;
        while i < waits.len()
            invariant
                0 <= i <= waits@.len(),
                waits@.len() <= i32::MAX,
                forall|j: int| 0 <= j < i ==> waits@[j].operation_count >= 0,
                descs@ == waits@.take(i as int).map_values(|w: WaitSignal| spec_wait_desc(w)),
            decreases waits@.len() - i,
        {
            let w = waits[i];
            if w.operation_count < 0 {
                return Err(Error::InvalidArgument("signal operation counts must be non-negative"));
            }
            descs.push(w.as_raw());
            assert(waits@.take(i as int + 1).map_values(|w: WaitSignal| spec_wait_desc(w))
                =~= waits@.take(i as int).map_values(|w: WaitSignal| spec_wait_desc(w)).push(
                spec_wait_desc(w),
            ));
            i = i + 1;
        }
        assert(waits@.take(i as int) =~= waits@);
        Ok((count, descs))
    }
}

/// A dynamic reduction operator owned by the communicator that created it.
#[derive(Debug)]
pub struct OwnedReductionOp {
    raw: i32,
    comm: usize,
}

impl OwnedReductionOp {
    /// The operator's `ncclRedOp_t` code.
    pub closed spec fn spec_raw(self) -> i32 {
        self.raw
    }

    /// The handle of the communicator that owns the operator.
    pub closed spec fn spec_comm(self) -> usize {
        self.comm
    }

    /// The operator `ncclRedOpCreatePreMulSum` created on `comm`.
    pub fn from_created(code: i32, raw: i32, comm: &Communicator) -> (r: Result<Self, Error>)
        ensures
            match r {
                Ok(op) => code == abi::ncclSuccess && op.spec_raw() == raw && op.spec_comm()
                    == comm.spec_raw(),
                Err(e) => Err::<(), Error>(e) == spec_check(code) && code != abi::ncclSuccess,
            },
    {
        match check(code) {
            Ok(()) => Ok(OwnedReductionOp { raw, comm: comm.raw() }),
            Err(e) => Err(e),
        }
    }

    /// The operation to pass to collectives while the operator lives.
    pub fn op(&self) -> (op: ReductionOp<'_>)
        ensures
            op@ == self.spec_raw(),
    {
        ReductionOp::from_raw(self.raw)
    }

    /// The arguments of `ncclRedOpDestroy`: the code and the owning
    /// communicator's handle.
    pub fn destroy_arguments(&self) -> (args: (i32, usize))
        ensures
            args == (self.spec_raw(), self.spec_comm()),
    {
        (self.raw, self.comm)
    }
}

/// A buffer registration made by `ncclCommRegister`.
#[derive(Debug)]
pub struct Registration {
    handle: usize,
    comm: usize,
}

impl Registration {
    pub closed spec fn spec_handle(self) -> usize {
        self.handle
    }

    pub closed spec fn spec_comm(self) -> usize {
        self.comm
    }

    #[verifier::type_invariant]
    closed spec fn wf(self) -> bool {
        self.handle != 0
    }

    /// The registration `ncclCommRegister` made on `comm`.
    pub fn from_registered(code: i32, handle: usize, comm: &Communicator) -> (r: Result<
        Self,
        Error,
    >)
        ensures
            match r {
                Ok(reg) => spec_handle(code, handle, "ncclCommRegister") == Ok::<usize, Error>(
                    reg.spec_handle(),
                ) && reg.spec_comm() == comm.spec_raw(),
                Err(e) => spec_handle(code, handle, "ncclCommRegister") == Err::<usize, Error>(e),
            },
            code != abi::ncclSuccess ==> (r matches Err(Error::Nccl(c)) && c.0 == code),
            r matches Ok(reg) ==> reg.spec_handle() == handle && handle != 0 && code
                == abi::ncclSuccess,
            r matches Err(Error::NullOnSuccess(_)) ==> code == abi::ncclSuccess && handle == 0,
    {
        match checked_handle(code, handle, "ncclCommRegister") {
            Ok(h) => Ok(Registration { handle: h, comm: comm.raw() }),
            Err(e) => Err(e),
        }
    }

    /// The arguments of `ncclCommDeregister`: the communicator and the
    /// registration handle.
    pub fn deregister_arguments(&self) -> (args: (usize, usize))
        ensures
            args == (self.spec_comm(), self.spec_handle()),
            args.1 != 0,
    {
        proof {
            use_type_invariant(self);
        }
        (self.comm, self.handle)
    }
}

/// A memory window registered by `ncclCommWindowRegister`.
#[derive(Debug)]
pub struct Window {
    raw: usize,
    comm: usize,
}

impl Window {
    pub closed spec fn spec_raw(self) -> usize {
        self.raw
    }

    pub closed spec fn spec_comm(self) -> usize {
        self.comm
    }

    #[verifier::type_invariant]
    closed spec fn wf(self) -> bool {
        self.raw != 0
    }

    /// The window `ncclCommWindowRegister` registered on `comm`.
    pub fn from_registered(code: i32, raw: usize, comm: &Communicator) -> (r: Result<
        Self,
        Error,
    >)
        ensures
            match r {
                Ok(w) => spec_handle(code, raw, "ncclCommWindowRegister") == Ok::<usize, Error>(
                    w.spec_raw(),
                ) && w.spec_comm() == comm.spec_raw(),
                Err(e) => spec_handle(code, raw, "ncclCommWindowRegister") == Err::<usize, Error>(
                    e,
                ),
            },
            code != abi::ncclSuccess ==> (r matches Err(Error::Nccl(c)) && c.0 == code),
            r matches Ok(w) ==> w.spec_raw() == raw && raw != 0 && code == abi::ncclSuccess,
            r matches Err(Error::NullOnSuccess(_)) ==> code == abi::ncclSuccess && raw == 0,
    {
        match checked_handle(code, raw, "ncclCommWindowRegister") {
            Ok(h) => Ok(Window { raw: h, comm: comm.raw() }),
            Err(e) => Err(e),
        }
    }

    pub fn as_raw(&self) -> (raw: usize)
        ensures
            raw == self.spec_raw(),
            raw != 0,
    {
        proof {
            use_type_invariant(self);
        }
        self.raw
    }

    /// The handle of the communicator the window belongs to.
    pub fn comm_raw(&self) -> (comm: usize)
        ensures
            comm == self.spec_comm(),
    {
        self.comm
    }
}

} // verus!
