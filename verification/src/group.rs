//! NCCL group semantics as a state machine: once `ncclGroupStart` has
//! succeeded, `ncclGroupEnd` is called whether the group's body returns a
//! value, returns an error or panics.
//!
//! The caller drives the machine: it performs each action the machine asks
//! for (`ncclGroupStart`, the body, `ncclGroupEnd`) and hands back what came
//! of it.
use vstd::prelude::*;

use crate::abi;
use crate::result::{check, Error, ResultCode};

verus! {

/// How the group's body ended.
pub enum BodyOutcome<T> {
    Returned(Result<T, Error>),
    Panicked,
}

/// What the caller must do next.
pub enum GroupAction<T> {
    /// Run the group's body.
    RunBody,
    /// Call `ncclGroupEnd`.
    CallEnd,
    /// Return this result.
    Finish(Result<T, Error>),
    /// Resume the body's panic.
    ResumePanic,
}

/// Where a group scope stands.
#[derive(PartialEq, Eq, Structural)]
pub enum GroupPhase {
    /// `ncclGroupStart` is being called.
    Starting,
    /// The body is running.
    Running,
    /// `ncclGroupEnd` is being called.
    Ending,
    /// The scope is over.
    Done,
}

/// The result of a group whose body ended with `body` and whose
/// `ncclGroupEnd` returned `end_code`: the body's error wins over the end's.
pub open spec fn spec_group_result<T>(body: BodyOutcome<T>, end_code: i32) -> GroupAction<T> {
    match body {
        BodyOutcome::Returned(Ok(v)) => if end_code == abi::ncclSuccess {
            GroupAction::Finish(Ok(v))
        } else {
            GroupAction::Finish(Err(Error::Nccl(ResultCode(end_code))))
        },
        BodyOutcome::Returned(Err(e)) => GroupAction::Finish(Err(e)),
        BodyOutcome::Panicked => GroupAction::ResumePanic,
    }
}

/// A group returns its body's value only when both the body and
/// `ncclGroupEnd` succeeded; a failed end turns a successful body into the
/// end's error; a body error is returned whatever the end returned; a body
/// panic is resumed whatever the end returned.
pub proof fn lemma_group_result<T>(body: BodyOutcome<T>, end_code: i32)
    ensures
        spec_group_result(body, end_code) matches GroupAction::Finish(Ok(v)) ==> end_code
            == abi::ncclSuccess && body == BodyOutcome::Returned(Ok::<T, Error>(v)),
        body matches BodyOutcome::Returned(Ok(v)) ==> spec_group_result(body, end_code) == (
        if end_code == abi::ncclSuccess {
            GroupAction::<T>::Finish(Ok(v))
        } else {
            GroupAction::<T>::Finish(Err(Error::Nccl(ResultCode(end_code))))
        }),
        body matches BodyOutcome::Returned(Err(e)) ==> spec_group_result(body, end_code)
            == GroupAction::<T>::Finish(Err(e)),
        body is Panicked ==> spec_group_result(body, end_code) is ResumePanic,
        !(spec_group_result(body, end_code) is RunBody),
        !(spec_group_result(body, end_code) is CallEnd),
{
}

/// One NCCL group scope.
pub struct GroupScope<T> {
    phase: GroupPhase,
    body: Option<BodyOutcome<T>>,
}

impl<T> GroupScope<T> {
    pub closed spec fn spec_phase(self) -> GroupPhase {
        self.phase
    }

    /// How the body ended, once it has.
    pub closed spec fn spec_body(self) -> Option<BodyOutcome<T>> {
        self.body
    }

    /// A scope about to call `ncclGroupStart`.
    pub fn new() -> (s: Self)
        ensures
            s.spec_phase() == GroupPhase::Starting,
            s.spec_body() is None,
    {
        GroupScope { phase: GroupPhase::Starting, body: None }
    }

    /// `ncclGroupStart` returned `code`: run the body if it succeeded, else
    /// finish with its error without running the body or ending the group.
    pub fn on_start(&mut self, code: i32) -> (action: GroupAction<T>)
        requires
            old(self).spec_phase() == GroupPhase::Starting,
        ensures
            final(self).spec_body() == old(self).spec_body(),
            if code == abi::ncclSuccess {
                &&& action is RunBody
                &&& final(self).spec_phase() == GroupPhase::Running
            } else {
                &&& action == GroupAction::<T>::Finish(Err(Error::Nccl(ResultCode(code))))
                &&& final(self).spec_phase() == GroupPhase::Done
            },
    {
        match check(code) {
            Ok(()) => {
                self.phase = GroupPhase::Running;
                GroupAction::RunBody
            },
            Err(e) => {
                self.phase = GroupPhase::Done;
                GroupAction::Finish(Err(e))
            },
        }
    }

    /// The body ended: whatever its outcome, the group is ended next.
    pub fn on_body(&mut self, outcome: BodyOutcome<T>) -> (action: GroupAction<T>)
        requires
            old(self).spec_phase() == GroupPhase::Running,
        ensures
            action is CallEnd,
            final(self).spec_phase() == GroupPhase::Ending,
            final(self).spec_body() == Some(outcome),
    {
        self.phase = GroupPhase::Ending;
        self.body = Some(outcome);
        GroupAction::CallEnd
    }

    /// `ncclGroupEnd` returned `code`: finish with the body's value when both
    /// succeeded, with the body's error when it failed, with the end's error
    /// when only the end failed, and resume a panic of the body.
    pub fn on_end(&mut self, code: i32) -> (action: GroupAction<T>)
        requires
            old(self).spec_phase() == GroupPhase::Ending,
            old(self).spec_body() is Some,
        ensures
            final(self).spec_phase() == GroupPhase::Done,
            final(self).spec_body() is None,
            action == spec_group_result(old(self).spec_body().unwrap(), code),
            old(self).spec_body() matches Some(BodyOutcome::Returned(Ok(_))) && code
                != abi::ncclSuccess ==> action == GroupAction::<T>::Finish(
                Err(Error::Nccl(ResultCode(code))),
            ),
            action matches GroupAction::Finish(Ok(v)) ==> code == abi::ncclSuccess
                && old(self).spec_body() == Some(BodyOutcome::Returned(Ok::<T, Error>(v))),
            old(self).spec_body() matches Some(BodyOutcome::Returned(Err(e))) ==> action
                == GroupAction::<T>::Finish(Err(e)),
            old(self).spec_body() matches Some(BodyOutcome::Panicked) ==> action is ResumePanic,
    {
        self.phase = GroupPhase::Done;
        let body = self.body.take();
        match body {
            Some(BodyOutcome::Returned(Ok(v))) => match check(code) {
                Ok(()) => GroupAction::Finish(Ok(v)),
                Err(e) => GroupAction::Finish(Err(e)),
            },
            Some(BodyOutcome::Returned(Err(e))) => GroupAction::Finish(Err(e)),
            Some(BodyOutcome::Panicked) => GroupAction::ResumePanic,
            None => GroupAction::ResumePanic,
        }
    }
}

} // verus!
