//! The shared memory behind a frame: which system calls make it, in which
//! order, and what follows from each way in which one of them can fail.
//!
//! The memory is an anonymous object where the system offers those, and
//! else a named object whose name is removed at once.

use vstd::prelude::*;
use vstd::string::StringExecFns;

use crate::text::{decimal, decimal_digits};

verus! {

/// Why a system call failed.
#[derive(Debug, Clone, Copy, PartialEq, Eq, Structural)]
pub enum ShmErrno {
    /// The call was interrupted before it did anything.
    Interrupted,
    /// The system does not have the call.
    Unavailable,
    /// An object of that name exists already.
    Exists,
    /// Any other failure, by its number.
    Other(i32),
}

/// How far the making of the memory has come.
#[derive(Debug, Clone, Copy, PartialEq, Eq)]
pub enum ShmStage {
    /// An anonymous object is being made.
    Memfd,
    /// The anonymous object is there; it is being sealed against shrinking
    /// and against further seals.
    Sealing,
    /// A named object is being made; its name is spelt from `nanos`.
    ShmOpen { nanos: u32 },
    /// The named object is there; its name is being removed.
    Unlinking { nanos: u32 },
    /// The name could not be removed, for the reason given; the descriptor is
    /// being closed.
    Closing(ShmErrno),
    /// Nothing is left to do: the descriptor is there, or the making failed.
    Done(Result<(), ShmErrno>),
}

/// The system call that is to be made next.
#[derive(Debug, PartialEq, Eq)]
pub enum ShmCall {
    /// Make an anonymous object that is closed on exec and can be sealed.
    CreateMemfd,
    /// Seal the object against shrinking and against further seals.
    AddSeals,
    /// Make the object of this name, for reading and writing by this user
    /// alone, closed on exec, and only if there is none of that name yet.
    OpenShm { name: String },
    /// Remove this name.
    Unlink { name: String },
    /// Close the descriptor.
    Close,
    /// Make no call: hand out the descriptor, or the failure.
    Return(Result<(), ShmErrno>),
}

/// A `ShmCall` as plain values.
pub enum ShmCallView {
    CreateMemfd,
    AddSeals,
    OpenShm { name: Seq<char> },
    Unlink { name: Seq<char> },
    Close,
    Return(Result<(), ShmErrno>),
}

impl View for ShmCall {
    type V = ShmCallView;

    open spec fn view(&self) -> ShmCallView {
        match *self {
            ShmCall::CreateMemfd => ShmCallView::CreateMemfd,
            ShmCall::AddSeals => ShmCallView::AddSeals,
            ShmCall::OpenShm { name } => ShmCallView::OpenShm { name: name@ },
            ShmCall::Unlink { name } => ShmCallView::Unlink { name: name@ },
            ShmCall::Close => ShmCallView::Close,
            ShmCall::Return(result) => ShmCallView::Return(result),
        }
    }
}

/// The name of the named object that is spelt from `nanos`.
pub open spec fn spec_shm_name(nanos: u32) -> Seq<char> {
    "/wayshot-"@ + decimal_digits(nanos as nat)
}

/// The name of the named object that is spelt from `nanos`: the fixed
/// beginning, then the number in base ten.
pub fn shm_name(nanos: u32) -> (name: String)
    ensures
        name@ == spec_shm_name(nanos),
{
    let mut name = String::from_str("/wayshot-");
    name.append(decimal(nanos as u64).as_str());
    name
}

impl ShmStage {
    /// The stage after the call of this stage has ended as `result` says.
    /// Where a new name is needed, it is spelt from `nanos`.
    ///
    /// An interrupted call is made again. Without anonymous objects a named
    /// one is made, under a new name as long as the name is taken. A seal
    /// that cannot be added does no harm. A name that cannot be removed
    /// fails the making with the reason why the name stayed, after the
    /// descriptor has been closed, whether or not closing it fails too.
    pub open spec fn spec_step(self, result: Result<(), ShmErrno>, nanos: u32) -> ShmStage {
        match self {
            ShmStage::Memfd => match result {
                Ok(_) => ShmStage::Sealing,
                Err(ShmErrno::Interrupted) => ShmStage::Memfd,
                Err(ShmErrno::Unavailable) => ShmStage::ShmOpen { nanos },
                Err(errno) => ShmStage::Done(Err(errno)),
            },
            ShmStage::Sealing => ShmStage::Done(Ok(())),
            ShmStage::ShmOpen { nanos: tried } => match result {
                Ok(_) => ShmStage::Unlinking { nanos: tried },
                Err(ShmErrno::Exists) => ShmStage::ShmOpen { nanos },
                Err(ShmErrno::Interrupted) => ShmStage::ShmOpen { nanos: tried },
                Err(errno) => ShmStage::Done(Err(errno)),
            },
            ShmStage::Unlinking { nanos: _ } => match result {
                Ok(_) => ShmStage::Done(Ok(())),
                Err(errno) => ShmStage::Closing(errno),
            },
            ShmStage::Closing(unlink_errno) => ShmStage::Done(Err(unlink_errno)),
            ShmStage::Done(outcome) => ShmStage::Done(outcome),
        }
    }

    /// The stage after the calls have ended as `results` say, one after the
    /// other; each result comes with the clock's reading at its time.
    pub open spec fn after(self, results: Seq<(Result<(), ShmErrno>, u32)>) -> ShmStage
        decreases results.len(),
    {
        if results.len() == 0 {
            self
        } else {
            self.after(results.drop_last()).spec_step(results.last().0, results.last().1)
        }
    }

    /// The call that is to be made at this stage.
    pub open spec fn spec_call(self) -> ShmCallView {
        match self {
            ShmStage::Memfd => ShmCallView::CreateMemfd,
            ShmStage::Sealing => ShmCallView::AddSeals,
            ShmStage::ShmOpen { nanos } => ShmCallView::OpenShm { name: spec_shm_name(nanos) },
            ShmStage::Unlinking { nanos } => ShmCallView::Unlink { name: spec_shm_name(nanos) },
            ShmStage::Closing(_) => ShmCallView::Close,
            ShmStage::Done(outcome) => ShmCallView::Return(outcome),
        }
    }

    /// The beginning: an anonymous object is tried first.
    pub fn start() -> (r: Self)
        ensures
            r == ShmStage::Memfd,
    {
        ShmStage::Memfd
    }

    /// The call that is to be made at this stage.
    pub fn call(&self) -> (r: ShmCall)
        ensures
            r@ == self.spec_call(),
    {
        match *self {
            ShmStage::Memfd => ShmCall::CreateMemfd,
            ShmStage::Sealing => ShmCall::AddSeals,
            ShmStage::ShmOpen { nanos } => ShmCall::OpenShm { name: shm_name(nanos) },
            ShmStage::Unlinking { nanos } => ShmCall::Unlink { name: shm_name(nanos) },
            ShmStage::Closing(_) => ShmCall::Close,
            ShmStage::Done(outcome) => ShmCall::Return(outcome),
        }
    }

    /// The stage after the call of this stage has ended as `result` says.
    /// `nanos` is a fresh reading of the clock, from which a new name is
    /// spelt where one is needed.
    pub fn step(self, result: Result<(), ShmErrno>, nanos: u32) -> (r: Self)
        ensures
            r == self.spec_step(result, nanos),
    {
        match self {
            ShmStage::Memfd => match result {
                Ok(_) => ShmStage::Sealing,
                Err(ShmErrno::Interrupted) => ShmStage::Memfd,
                Err(ShmErrno::Unavailable) => ShmStage::ShmOpen { nanos },
                Err(errno) => ShmStage::Done(Err(errno)),
            },
            ShmStage::Sealing => ShmStage::Done(Ok(())),
            ShmStage::ShmOpen { nanos: tried } => match result {
                Ok(_) => ShmStage::Unlinking { nanos: tried },
                Err(ShmErrno::Exists) => ShmStage::ShmOpen { nanos },
                Err(ShmErrno::Interrupted) => ShmStage::ShmOpen { nanos: tried },
                Err(errno) => ShmStage::Done(Err(errno)),
            },
            ShmStage::Unlinking { nanos: _ } => match result {
                Ok(_) => ShmStage::Done(Ok(())),
                Err(errno) => ShmStage::Closing(errno),
            },
            ShmStage::Closing(unlink_errno) => ShmStage::Done(Err(unlink_errno)),
            ShmStage::Done(outcome) => ShmStage::Done(outcome),
        }
    }
}

/// Once the making has ended, nothing changes its outcome.
pub proof fn lemma_outcome_is_final(
    outcome: Result<(), ShmErrno>,
    results: Seq<(Result<(), ShmErrno>, u32)>,
)
    ensures
        ShmStage::Done(outcome).after(results) == ShmStage::Done(outcome),
    decreases results.len(),
{
    if results.len() > 0 {
        lemma_outcome_is_final(outcome, results.drop_last());
    }
}

/// A name that cannot be removed fails the making with the reason why it
/// stayed: the descriptor is closed next, and whatever closing it gives, and
/// whatever is reported after that, the outcome is that reason.
pub proof fn lemma_unlink_failure_is_the_outcome(
    nanos: u32,
    unlink_errno: ShmErrno,
    clock: u32,
    later: Seq<(Result<(), ShmErrno>, u32)>,
)
    ensures
        ({
            let failed = (ShmStage::Unlinking { nanos }).spec_step(Err(unlink_errno), clock);
            &&& failed == ShmStage::Closing(unlink_errno)
            &&& failed.spec_call() == ShmCallView::Close
            &&& later.len() > 0 ==> failed.after(later) == ShmStage::Done(Err(unlink_errno))
        }),
    decreases later.len(),
{
    let failed = ShmStage::Closing(unlink_errno);
    if later.len() > 1 {
        lemma_unlink_failure_is_the_outcome(nanos, unlink_errno, clock, later.drop_last());
    } else if later.len() == 1 {
        assert(failed.after(later.drop_last()) == failed);
    }
}

/// The making succeeds in two ways only: an anonymous object was made, and
/// sealed or not; or a named object was made and its name removed. No
/// interrupted call and no taken name ends it, and every other failure of
/// making an object is its outcome.
pub proof fn lemma_ways_to_end(stage: ShmStage, result: Result<(), ShmErrno>, clock: u32)
    ensures
        stage.spec_step(result, clock) == ShmStage::Done(Ok(())) <==> {
            ||| stage is Sealing
            ||| stage is Unlinking && result is Ok
            ||| stage == ShmStage::Done(Ok(()))
        },
        result == Err::<(), ShmErrno>(ShmErrno::Interrupted) && (stage is Memfd
            || stage is ShmOpen) ==> stage.spec_step(result, clock) == stage,
        result == Err::<(), ShmErrno>(ShmErrno::Exists) && stage is ShmOpen ==> stage.spec_step(
            result,
            clock,
        ) == (ShmStage::ShmOpen { nanos: clock }),
        result == Err::<(), ShmErrno>(ShmErrno::Unavailable) && stage is Memfd
            ==> stage.spec_step(result, clock) == (ShmStage::ShmOpen { nanos: clock }),
        stage is ShmOpen && result is Ok ==> stage.spec_step(result, clock) == (
        ShmStage::Unlinking { nanos: stage->ShmOpen_nanos }),
{
}

} // verus!
