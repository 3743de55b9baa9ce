//! The non-blocking device source: how one is set up, step by step, and what
//! one poll of it yields.
//!
//! The kernel calls themselves are made by the caller. This module decides
//! which call comes next and what follows from each outcome.

use crate::event::RawEvent;
use vstd::prelude::*;

verus! {

/// One of the kernel calls that set a source up.
#[derive(Clone, Copy, Debug, PartialEq, Eq, Structural)]
pub enum SetupStep {
    /// Switching the device's descriptor to non-blocking mode.
    SetNonBlocking,
    /// Opening the notification context.
    CreateContext,
    /// Registering the device's descriptor with the context.
    Register,
}

/// A set-up call that failed, with the error number it failed with. Such a
/// failure is final: the device gets no source.
#[derive(Clone, Copy, Debug, PartialEq, Eq, Structural)]
pub struct SetupError {
    pub step: SetupStep,
    pub errno: i32,
}

/// What the caller is to do next for a source under construction.
#[derive(Clone, Copy, Debug, PartialEq, Eq, Structural)]
pub enum SetupAction {
    /// Switch `descriptor` to non-blocking mode.
    SetNonBlocking { descriptor: i32 },
    /// Open a notification context that is closed when the process image is
    /// replaced.
    CreateContext,
    /// Register interest in read-readiness of `descriptor` with `context`,
    /// attaching `tag`.
    Register { context: i32, descriptor: i32, tag: u64 },
    /// Close `context`; a failure to do so is ignored.
    Release { context: i32 },
}

/// How far the construction of a source has come.
#[derive(Clone, Copy, Debug, PartialEq, Eq, Structural)]
pub enum Stage {
    SetNonBlocking,
    CreateContext,
    Register { context: i32 },
    /// Registration failed with `errno`; the context is still to be closed.
    Release { context: i32, errno: i32 },
}

/// A source under construction for the device behind `descriptor`.
#[derive(Clone, Copy, Debug, PartialEq, Eq, Structural)]
pub struct Setup {
    pub descriptor: i32,
    pub tag: u64,
    pub stage: Stage,
}

/// The kernel's notification context of one source, with the single interest
/// registered on it.
#[derive(Clone, Copy, Debug, PartialEq, Eq, Structural)]
pub struct ReadinessHandle {
    context: i32,
    registered: i32,
    tag: u64,
}

/// A device whose descriptor is in non-blocking mode, with its readiness
/// handle.
#[derive(Clone, Copy, Debug, PartialEq, Eq, Structural)]
pub struct NonBlockingSource {
    descriptor: i32,
    readiness: ReadinessHandle,
}

/// What a source holds.
pub struct SourceView {
    /// The device's descriptor.
    pub descriptor: i32,
    /// The descriptor of the notification context.
    pub context: i32,
    /// The descriptor that the context's interest is registered for.
    pub registered: i32,
    /// The value attached to that registration.
    pub tag: u64,
}

/// Where the construction of a source stands after a step.
#[derive(Clone, Copy, Debug, PartialEq, Eq, Structural)]
pub enum Progress {
    /// Another kernel call is needed.
    Next(Setup),
    /// All calls succeeded.
    Ready(NonBlockingSource),
    /// A call failed; the context, if one was opened, has been released.
    Failed(SetupError),
}

impl ReadinessHandle {
    /// The descriptor of the notification context.
    pub closed spec fn context_spec(self) -> i32 {
        self.context
    }

    /// The descriptor that the interest is registered for.
    pub closed spec fn registered_spec(self) -> i32 {
        self.registered
    }

    /// The value attached to the registration.
    pub closed spec fn tag_spec(self) -> u64 {
        self.tag
    }

    /// The descriptor of the notification context.
    pub fn context(&self) -> (context: i32)
        ensures
            context == self.context_spec(),
    {
        self.context
    }

    /// The descriptor that the interest is registered for.
    pub fn registered(&self) -> (descriptor: i32)
        ensures
            descriptor == self.registered_spec(),
    {
        self.registered
    }

    /// The value attached to the registration.
    pub fn tag(&self) -> (tag: u64)
        ensures
            tag == self.tag_spec(),
    {
        self.tag
    }

    /// Gives the handle up. The caller is to do what is returned: close the
    /// context, ignoring a failure.
    pub fn release(self) -> (action: SetupAction)
        ensures
            action == (SetupAction::Release { context: self.context_spec() }),
    {
        SetupAction::Release { context: self.context }
    }
}

impl View for NonBlockingSource {
    type V = SourceView;

    closed spec fn view(&self) -> SourceView {
        SourceView {
            descriptor: self.descriptor,
            context: self.readiness.context,
            registered: self.readiness.registered,
            tag: self.readiness.tag,
        }
    }
}

impl NonBlockingSource {
    /// The interest of a source's readiness handle is registered for the
    /// source's own descriptor.
    #[verifier::type_invariant]
    spec fn registered_for_own_descriptor(self) -> bool {
        self.readiness.registered == self.descriptor
    }

    /// The device's descriptor, which is also the one that the readiness
    /// handle is registered for.
    pub fn descriptor(&self) -> (descriptor: i32)
        ensures
            descriptor == self@.descriptor,
            descriptor == self@.registered,
    {
        proof {
            use_type_invariant(self);
        }
        self.descriptor
    }

    /// The tag attached to the source's registration.
    pub fn tag(&self) -> (tag: u64)
        ensures
            tag == self@.tag,
    {
        self.readiness.tag
    }

    /// The source's readiness handle.
    pub fn readiness(&self) -> (handle: ReadinessHandle)
        ensures
            handle.context_spec() == self@.context,
            handle.registered_spec() == self@.registered,
            handle.tag_spec() == self@.tag,
    {
        self.readiness
    }
}

/// The stage that follows `stage` once its call has ended in `outcome`, or
/// `None` where the construction is over: after the registration has
/// succeeded, after the first or second call has failed, and after the
/// context of a failed registration has been released.
pub open spec fn next_stage(stage: Stage, outcome: Result<i32, i32>) -> Option<Stage> {
    match stage {
        Stage::SetNonBlocking => match outcome {
            Ok(_) => Some(Stage::CreateContext),
            Err(_) => None,
        },
        Stage::CreateContext => match outcome {
            Ok(context) => Some(Stage::Register { context }),
            Err(_) => None,
        },
        Stage::Register { context } => match outcome {
            Ok(_) => None,
            Err(errno) => Some(Stage::Release { context, errno }),
        },
        Stage::Release { .. } => None,
    }
}

/// The error that ends the construction at `stage` with `outcome`, if it ends
/// in one. A failed registration is reported once its context is released,
/// whatever came of the release.
pub open spec fn failure_at(stage: Stage, outcome: Result<i32, i32>) -> Option<SetupError> {
    match stage {
        Stage::SetNonBlocking => match outcome {
            Ok(_) => None,
            Err(errno) => Some(SetupError { step: SetupStep::SetNonBlocking, errno }),
        },
        Stage::CreateContext => match outcome {
            Ok(_) => None,
            Err(errno) => Some(SetupError { step: SetupStep::CreateContext, errno }),
        },
        Stage::Register { .. } => None,
        Stage::Release { errno, .. } => Some(SetupError { step: SetupStep::Register, errno }),
    }
}

/// The stage reached from the start by calls that ended in `outcomes`, in
/// that order; `None` once the construction is over.
pub open spec fn stage_after(outcomes: Seq<Result<i32, i32>>) -> Option<Stage>
    decreases outcomes.len(),
{
    if outcomes.len() == 0 {
        Some(Stage::SetNonBlocking)
    } else {
        match stage_after(outcomes.drop_last()) {
            Some(stage) => next_stage(stage, outcomes.last()),
            None => None,
        }
    }
}

impl Setup {
    /// Starts the construction of a source for the device behind
    /// `descriptor`, whose registration will carry `tag`.
    pub fn begin(descriptor: i32, tag: u64) -> (setup: Setup)
        ensures
            setup == (Setup { descriptor, tag, stage: Stage::SetNonBlocking }),
    {
        Setup { descriptor, tag, stage: Stage::SetNonBlocking }
    }

    /// The call that is due at this stage.
    pub open spec fn action_spec(self) -> SetupAction {
        match self.stage {
            Stage::SetNonBlocking => SetupAction::SetNonBlocking { descriptor: self.descriptor },
            Stage::CreateContext => SetupAction::CreateContext,
            Stage::Register { context } => SetupAction::Register {
                context,
                descriptor: self.descriptor,
                tag: self.tag,
            },
            Stage::Release { context, .. } => SetupAction::Release { context },
        }
    }

    /// The call that the caller is to make now.
    pub fn action(&self) -> (action: SetupAction)
        ensures
            action == self.action_spec(),
    {
        match self.stage {
            Stage::SetNonBlocking => SetupAction::SetNonBlocking { descriptor: self.descriptor },
            Stage::CreateContext => SetupAction::CreateContext,
            Stage::Register { context } => SetupAction::Register {
                context,
                descriptor: self.descriptor,
                tag: self.tag,
            },
            Stage::Release { context, .. } => SetupAction::Release { context },
        }
    }

    /// Takes the outcome of the call that was due: `Ok` with what the call
    /// returned, of which only the descriptor of a newly opened context is
    /// used, or `Err` with the error number.
    ///
    /// The construction goes on to the next stage, ends in a source when the
    /// registration has succeeded, or ends in the error of the call that
    /// failed. The source has the descriptor and tag that the construction
    /// began with, and the context that was opened for it.
    pub fn advance(self, outcome: Result<i32, i32>) -> (progress: Progress)
        ensures
            match next_stage(self.stage, outcome) {
                Some(stage) => progress == Progress::Next(
                    Setup { descriptor: self.descriptor, tag: self.tag, stage },
                ),
                None => match failure_at(self.stage, outcome) {
                    Some(error) => progress == Progress::Failed(error),
                    None => {
                        &&& progress matches Progress::Ready(source)
                        &&& self.stage matches Stage::Register { context }
                        &&& source@ == (SourceView {
                            descriptor: self.descriptor,
                            context,
                            registered: self.descriptor,
                            tag: self.tag,
                        })
                    },
                },
            },
    {
        let descriptor = self.descriptor;
        let tag = self.tag;
        match self.stage {
            Stage::SetNonBlocking => match outcome {
                Ok(_) => Progress::Next(Setup { descriptor, tag, stage: Stage::CreateContext }),
                Err(errno) => Progress::Failed(
                    SetupError { step: SetupStep::SetNonBlocking, errno },
                ),
            },
            Stage::CreateContext => match outcome {
                Ok(context) => Progress::Next(
                    Setup { descriptor, tag, stage: Stage::Register { context } },
                ),
                Err(errno) => Progress::Failed(
                    SetupError { step: SetupStep::CreateContext, errno },
                ),
            },
            Stage::Register { context } => match outcome {
                Ok(_) => Progress::Ready(
                    NonBlockingSource {
                        descriptor,
                        readiness: ReadinessHandle { context, registered: descriptor, tag },
                    },
                ),
                Err(errno) => Progress::Next(
                    Setup { descriptor, tag, stage: Stage::Release { context, errno } },
                ),
            },
            Stage::Release { errno, .. } => Progress::Failed(
                SetupError { step: SetupStep::Register, errno },
            ),
        }
    }
}

/// The calls that lead to a stage are fixed: the registration is only
/// reached after the switch to non-blocking mode and the opening of the
/// context have both succeeded, in that order, and a release only after the
/// registration has then failed. So a source, which comes of a successful
/// registration, is never made for a descriptor that was not switched to
/// non-blocking mode first.
pub proof fn stage_tells_what_succeeded(outcomes: Seq<Result<i32, i32>>)
    ensures
        match stage_after(outcomes) {
            Some(Stage::SetNonBlocking) => outcomes.len() == 0,
            Some(Stage::CreateContext) => outcomes.len() == 1 && outcomes[0] is Ok,
            Some(Stage::Register { context }) => {
                &&& outcomes.len() == 2
                &&& outcomes[0] is Ok
                &&& outcomes[1] == Ok::<i32, i32>(context)
            },
            Some(Stage::Release { context, errno }) => {
                &&& outcomes.len() == 3
                &&& outcomes[0] is Ok
                &&& outcomes[1] == Ok::<i32, i32>(context)
                &&& outcomes[2] == Err::<i32, i32>(errno)
            },
            None => outcomes.len() > 0,
        },
    decreases outcomes.len(),
{
    if outcomes.len() > 0 {
        let earlier = outcomes.drop_last();
        stage_tells_what_succeeded(earlier);
        assert forall|i: int| 0 <= i < earlier.len() implies earlier[i] == outcomes[i] by {}
    }
}

/// How one call of a device's batch fetch ended.
#[derive(Clone, Debug)]
pub enum FetchOutcome {
    /// The events that were pending, in the order the device reported them;
    /// there may be none.
    Events(Vec<RawEvent>),
    /// The call would have had to wait: nothing is pending.
    WouldBlock,
    /// The call failed for another reason, described by the text.
    Failed(String),
}

/// What one poll of a source yields.
#[derive(Clone, Debug)]
pub struct Polled {
    /// The batch of events, if the device delivered one.
    pub batch: Option<Vec<RawEvent>>,
    /// The line to write to the error stream, if the fetch failed.
    pub report: Option<String>,
}

/// The events that an outcome delivers, if it delivers a batch.
pub open spec fn batch_of(outcome: FetchOutcome) -> Option<Seq<RawEvent>> {
    match outcome {
        FetchOutcome::Events(events) => Some(events@),
        FetchOutcome::WouldBlock => None,
        FetchOutcome::Failed(_) => None,
    }
}

/// The line that an outcome puts on the error stream, if it puts one there:
/// the description of a failure that is not a mere lack of events.
pub open spec fn report_of(outcome: FetchOutcome) -> Option<Seq<char>> {
    match outcome {
        FetchOutcome::Events(_) => None,
        FetchOutcome::WouldBlock => None,
        FetchOutcome::Failed(description) => Some(description@),
    }
}

impl Polled {
    /// The events of the batch, if there is one.
    pub open spec fn batch_view(self) -> Option<Seq<RawEvent>> {
        match self.batch {
            Some(events) => Some(events@),
            None => None,
        }
    }

    /// The text of the report, if there is one.
    pub open spec fn report_view(self) -> Option<Seq<char>> {
        match self.report {
            Some(line) => Some(line@),
            None => None,
        }
    }
}

impl NonBlockingSource {
    /// Decides what one poll yields from the outcome of the single fetch that
    /// was made on the device. No outcome asks the caller to wait or to fetch
    /// again: a batch is handed on as it is, a lack of events yields nothing
    /// and no report, and any other failure yields nothing but its report.
    pub fn try_fetch(&self, outcome: FetchOutcome) -> (polled: Polled)
        ensures
            polled.batch_view() == batch_of(outcome),
            polled.report_view() == report_of(outcome),
    {
        match outcome {
            FetchOutcome::Events(events) => Polled { batch: Some(events), report: None },
            FetchOutcome::WouldBlock => Polled { batch: None, report: None },
            FetchOutcome::Failed(description) => Polled { batch: None, report: Some(description) },
        }
    }
}

} // verus!
