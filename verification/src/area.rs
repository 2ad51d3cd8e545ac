//! The capture of a region that the user selects: every output is captured,
//! each capture is shown on an overlay over its output, a region is selected,
//! the overlays are taken down again, and the region is found in the buffer
//! of the output that it lies on.
//!
//! The engine decides and the caller acts: `next_action` says what is to be
//! done, and `handle` takes in what came of it.

use vstd::prelude::*;

use crate::haruhierror::{HaruhiError, HaruhiErrorView};
use crate::overlay::{LayerShellState, LayerSurfaceEvent};
use crate::screenshot::{AreaSelectCallback, AreaShotInfo, BufferPlan, CaptureOutputData};
use crate::state::HaruhiShotState;
use crate::utils::{OutputView, Region, Transform, WlOutputInfo};

verus! {

/// The exclusive zone of an overlay: negative, so that the overlay reserves
/// no room on the screen and is not moved out of the way of other surfaces.
pub const OVERLAY_EXCLUSIVE_ZONE: i32 = -1;

/// How far the capture of a region has come.
#[derive(Debug, Clone, Copy, PartialEq, Eq, Structural)]
pub enum AreaPhase {
    /// The outputs are captured, one after the other.
    Capturing,
    /// The globals that the overlays need are bound.
    Binding,
    /// The overlay of the next output is to be made.
    Creating,
    /// The newest overlay waits to be configured, to take its buffer then.
    Configuring,
    /// The newest overlay has its buffer; the compositor is given a turn.
    Settling,
    /// Every overlay is up; a region is to be selected.
    Selecting,
    /// The overlays are taken down, one after the other.
    Destroying,
    /// No overlay is left; the compositor is waited for once more.
    Syncing,
    /// Nothing is left to do.
    Finished,
}

/// The outcome of a selection: the captured output that the region lies on,
/// by its number, and the region in the pixels of its buffer.
#[derive(Debug, Clone, Copy, PartialEq, Eq)]
pub struct AreaSelection {
    pub index: usize,
    pub region: Region,
}

/// What the caller reports to the engine.
#[derive(Debug, PartialEq, Eq)]
pub enum AreaInput {
    /// The output that was to be captured is in a buffer like `plan`, its
    /// content turned as `transform` says.
    Captured { plan: BufferPlan, transform: Transform },
    /// The globals are bound.
    Bound,
    /// The overlay has been made: anchored to all four edges of its output,
    /// without margins, with the exclusive zone asked for, and committed
    /// without a buffer.
    Created,
    /// The compositor's events have been waited for and handed on.
    Dispatched,
    /// The overlay has its buffer, turned and scaled as asked, and has been
    /// committed.
    Attached,
    /// The selection has ended, with a region or with a failure.
    Selected(Result<Region, HaruhiError>),
    /// The overlay has lost its buffer, has been committed and destroyed.
    Destroyed,
    /// The compositor has worked off everything that was sent.
    Synced,
    /// What was to be done has failed.
    Failed(HaruhiError),
    /// The overlay of `output` reported `event`.
    Layer { output: u32, event: LayerSurfaceEvent },
}

/// An `AreaInput` as plain values.
pub enum AreaInputView {
    Captured { plan: BufferPlan, transform: Transform },
    Bound,
    Created,
    Dispatched,
    Attached,
    Selected(Result<Region, HaruhiErrorView>),
    Destroyed,
    Synced,
    Failed(HaruhiErrorView),
    Layer { output: u32, event: LayerSurfaceEvent },
}

impl View for AreaInput {
    type V = AreaInputView;

    open spec fn view(&self) -> AreaInputView {
        match *self {
            AreaInput::Captured { plan, transform } => AreaInputView::Captured { plan, transform },
            AreaInput::Bound => AreaInputView::Bound,
            AreaInput::Created => AreaInputView::Created,
            AreaInput::Dispatched => AreaInputView::Dispatched,
            AreaInput::Attached => AreaInputView::Attached,
            AreaInput::Selected(Ok(region)) => AreaInputView::Selected(Ok(region)),
            AreaInput::Selected(Err(error)) => AreaInputView::Selected(Err(error@)),
            AreaInput::Destroyed => AreaInputView::Destroyed,
            AreaInput::Synced => AreaInputView::Synced,
            AreaInput::Failed(error) => AreaInputView::Failed(error@),
            AreaInput::Layer { output, event } => AreaInputView::Layer { output, event },
        }
    }
}

/// What the caller is to do next.
#[derive(Debug, PartialEq, Eq)]
pub enum AreaAction {
    /// Capture the whole output of this number, and report `Captured`.
    CaptureOutput(usize),
    /// Bind the globals that make surfaces, overlays and viewports, and
    /// report `Bound`.
    Bind,
    /// Make the overlay for the output of the number `index`, known to the
    /// connection as `output`: on the topmost layer, anchored to all four
    /// edges, without margins and with this exclusive zone; commit it without
    /// a buffer, and report `Created`.
    CreateOverlay { index: usize, output: u32, exclusive_zone: i32 },
    /// Wait for the compositor's events, hand on what the overlays report,
    /// and report `Dispatched`.
    Dispatch,
    /// Give the overlay of the output of the number `index` its captured
    /// buffer, turned as `transform` says and shown as `width` by `height`;
    /// commit it, and report `Attached`.
    AttachBuffer { index: usize, transform: Transform, width: i32, height: i32 },
    /// Have the region selected, and report `Selected`.
    Select,
    /// Take the buffer from the overlay of the output of this number, commit
    /// and destroy it, and report `Destroyed`.
    DestroyOverlay(usize),
    /// Wait until the compositor has worked off everything, and report
    /// `Synced`.
    Roundtrip,
    /// Nothing is left to do: this is the outcome.
    Finish(Result<AreaSelection, HaruhiError>),
}

/// An `AreaAction` as plain values.
pub enum AreaActionView {
    CaptureOutput(usize),
    Bind,
    CreateOverlay { index: usize, output: u32, exclusive_zone: i32 },
    Dispatch,
    AttachBuffer { index: usize, transform: Transform, width: i32, height: i32 },
    Select,
    DestroyOverlay(usize),
    Roundtrip,
    Finish(Result<AreaSelection, HaruhiErrorView>),
}

impl View for AreaAction {
    type V = AreaActionView;

    open spec fn view(&self) -> AreaActionView {
        match *self {
            AreaAction::CaptureOutput(index) => AreaActionView::CaptureOutput(index),
            AreaAction::Bind => AreaActionView::Bind,
            AreaAction::CreateOverlay { index, output, exclusive_zone } => {
                AreaActionView::CreateOverlay { index, output, exclusive_zone }
            },
            AreaAction::Dispatch => AreaActionView::Dispatch,
            AreaAction::AttachBuffer { index, transform, width, height } => {
                AreaActionView::AttachBuffer { index, transform, width, height }
            },
            AreaAction::Select => AreaActionView::Select,
            AreaAction::DestroyOverlay(index) => AreaActionView::DestroyOverlay(index),
            AreaAction::Roundtrip => AreaActionView::Roundtrip,
            AreaAction::Finish(Ok(selection)) => AreaActionView::Finish(Ok(selection)),
            AreaAction::Finish(Err(error)) => AreaActionView::Finish(Err(error@)),
        }
    }
}

/// The number of the first of `shots` from `from` on that the corner of
/// `region` lies on.
pub open spec fn first_shot_from(shots: Seq<AreaShotInfo>, region: Region, from: int) -> Option<
    int,
>
    decreases shots.len() - from,
{
    if from < 0 || from >= shots.len() {
        None
    } else if shots[from].spec_in_this_screen(region) {
        Some(from)
    } else {
        first_shot_from(shots, region, from + 1)
    }
}

/// Where `region` is found in `shots`: on the first captured output that its
/// corner lies on, mapped to that output's buffer; out of bounds where its
/// corner lies on none.
pub open spec fn spec_locate(shots: Seq<AreaShotInfo>, region: Region) -> Result<
    AreaSelection,
    HaruhiErrorView,
> {
    match first_shot_from(shots, region, 0) {
        Some(index) => Ok(
            AreaSelection {
                index: index as usize,
                region: shots[index].spec_clip_area(region).unwrap(),
            },
        ),
        None => Err(HaruhiErrorView::RegionOutOfBounds),
    }
}

/// `first_shot_from` finds the first output from `from` on that holds the
/// corner of `region`, and finds none only where there is none.
pub proof fn lemma_first_shot_from(shots: Seq<AreaShotInfo>, region: Region, from: int)
    requires
        0 <= from <= shots.len(),
    ensures
        match first_shot_from(shots, region, from) {
            Some(index) => {
                &&& from <= index < shots.len()
                &&& shots[index].spec_in_this_screen(region)
                &&& forall|j: int| from <= j < index ==> !shots[j].spec_in_this_screen(region)
            },
            None => forall|j: int| from <= j < shots.len() ==> !shots[j].spec_in_this_screen(region),
        },
    decreases shots.len() - from,
{
    if from < shots.len() && !shots[from].spec_in_this_screen(region) {
        lemma_first_shot_from(shots, region, from + 1);
    }
}

/// What a selection gave, as plain values.
pub open spec fn selection_view(answer: Result<Region, HaruhiError>) -> Result<
    Region,
    HaruhiErrorView,
> {
    match answer {
        Ok(region) => Ok(region),
        Err(error) => Err(error@),
    }
}

/// The outcome as plain values.
pub open spec fn outcome_view(outcome: Result<AreaSelection, HaruhiError>) -> Result<
    AreaSelection,
    HaruhiErrorView,
> {
    match outcome {
        Ok(selection) => Ok(selection),
        Err(error) => Err(error@),
    }
}

/// Finds `region` in `shots`: on the first captured output that its corner
/// lies on, mapped to the pixels of that output's buffer. A region whose
/// corner lies on no captured output is out of bounds.
pub fn locate(shots: &Vec<AreaShotInfo>, region: Region) -> (r: Result<AreaSelection, HaruhiError>)
    ensures
        outcome_view(r) == spec_locate(shots@, region),
        match r {
            Ok(selection) => {
                &&& selection.index < shots@.len()
                &&& shots@[selection.index as int].spec_in_this_screen(region)
                &&& forall|j: int|
                    0 <= j < selection.index ==> !shots@[j].spec_in_this_screen(region)
                &&& Some(selection.region) == shots@[selection.index as int].spec_clip_area(region)
            },
            Err(error) => {
                &&& error@ == HaruhiErrorView::RegionOutOfBounds
                &&& forall|j: int| 0 <= j < shots@.len() ==> !shots@[j].spec_in_this_screen(region)
            },
        },
{
    let mut i: usize = 0;
    while i < shots.len()
        invariant
            i <= shots@.len(),
            first_shot_from(shots@, region, 0) == first_shot_from(shots@, region, i as int),
            forall|j: int| 0 <= j < i ==> !shots@[j].spec_in_this_screen(region),
        decreases shots@.len() - i,
    {
        match shots[i].clip_area(region) {
            Some(mapped) => {
                return Ok(AreaSelection { index: i, region: mapped });
            },
            None => {},
        }
        i += 1;
    }
    Err(HaruhiError::RegionOutOfBounds)
}

/// The capture of a region, as plain values.
pub struct AreaView {
    /// The outputs that are captured, in their order.
    pub outputs: Seq<OutputView>,
    /// The captures made so far: the first outputs, in their order.
    pub shots: Seq<AreaShotInfo>,
    pub phase: AreaPhase,
    /// How many overlays have been made: those of the first outputs.
    pub created: nat,
    /// How many overlays have been destroyed: the first of those made.
    pub destroyed: nat,
    /// The outputs whose overlay has been configured.
    pub configured: Set<u32>,
    /// The first failure of what the caller had to do.
    pub failure: Option<HaruhiErrorView>,
    /// What the selection gave.
    pub selection: Option<Result<Region, HaruhiErrorView>>,
}

impl AreaView {
    /// The beginning: nothing captured, no overlay made.
    pub open spec fn start(outputs: Seq<OutputView>) -> AreaView {
        AreaView {
            outputs,
            shots: Seq::empty(),
            phase: if outputs.len() == 0 {
                AreaPhase::Binding
            } else {
                AreaPhase::Capturing
            },
            created: 0,
            destroyed: 0,
            configured: Set::empty(),
            failure: None,
            selection: None,
        }
    }

    /// What holds of the capture of a region at every moment.
    pub open spec fn wf(self) -> bool {
        &&& self.outputs.len() <= usize::MAX
        &&& self.shots.len() <= self.outputs.len()
        &&& forall|i: int|
            0 <= i < self.shots.len() ==> {
                &&& (#[trigger] self.shots[i]).data.output == self.outputs[i].output
                &&& self.shots[i].data.real_width == self.outputs[i].logical_size.width
                &&& self.shots[i].data.real_height == self.outputs[i].logical_size.height
                &&& self.shots[i].data.screen_position == self.outputs[i].position
            }
        &&& self.destroyed <= self.created <= self.shots.len()
        &&& match self.phase {
            AreaPhase::Capturing => {
                &&& self.shots.len() < self.outputs.len()
                &&& self.created == 0
                &&& self.failure is None
                &&& self.selection is None
            },
            AreaPhase::Binding => {
                &&& self.shots.len() == self.outputs.len()
                &&& self.created == 0
                &&& self.failure is None
                &&& self.selection is None
            },
            AreaPhase::Creating => {
                &&& self.shots.len() == self.outputs.len()
                &&& self.created < self.outputs.len()
                &&& self.destroyed == 0
                &&& self.failure is None
                &&& self.selection is None
            },
            AreaPhase::Configuring | AreaPhase::Settling => {
                &&& self.shots.len() == self.outputs.len()
                &&& 0 < self.created
                &&& self.destroyed == 0
                &&& self.failure is None
                &&& self.selection is None
            },
            AreaPhase::Selecting => {
                &&& self.shots.len() == self.outputs.len()
                &&& self.created == self.outputs.len()
                &&& self.destroyed == 0
                &&& self.failure is None
                &&& self.selection is None
            },
            AreaPhase::Destroying => {
                &&& self.destroyed < self.created
                &&& (self.failure is Some || self.selection is Some)
            },
            AreaPhase::Syncing | AreaPhase::Finished => {
                &&& self.destroyed == self.created
                &&& (self.failure is Some || self.selection is Some)
            },
        }
    }

    /// The outcome: a failure of what the caller had to do comes first, then
    /// a failure of the selection; a selected region is looked for on the
    /// captured outputs.
    pub open spec fn outcome(self) -> Result<AreaSelection, HaruhiErrorView> {
        match self.failure {
            Some(error) => Err(error),
            None => match self.selection {
                Some(Ok(region)) => spec_locate(self.shots, region),
                Some(Err(error)) => Err(error),
                None => Err(HaruhiErrorView::RegionOutOfBounds),
            },
        }
    }

    /// What the caller is to do next.
    pub open spec fn spec_next_action(self) -> AreaActionView {
        match self.phase {
            AreaPhase::Capturing => AreaActionView::CaptureOutput(self.shots.len() as usize),
            AreaPhase::Binding => AreaActionView::Bind,
            AreaPhase::Creating => AreaActionView::CreateOverlay {
                index: self.created as usize,
                output: self.outputs[self.created as int].output,
                exclusive_zone: OVERLAY_EXCLUSIVE_ZONE,
            },
            AreaPhase::Configuring => {
                let newest = self.created - 1;
                if self.configured.contains(self.outputs[newest].output) {
                    AreaActionView::AttachBuffer {
                        index: newest as usize,
                        transform: self.shots[newest].data.transform,
                        width: self.shots[newest].data.real_width,
                        height: self.shots[newest].data.real_height,
                    }
                } else {
                    AreaActionView::Dispatch
                }
            },
            AreaPhase::Settling => AreaActionView::Dispatch,
            AreaPhase::Selecting => AreaActionView::Select,
            AreaPhase::Destroying => AreaActionView::DestroyOverlay(self.destroyed as usize),
            AreaPhase::Syncing => AreaActionView::Roundtrip,
            AreaPhase::Finished => AreaActionView::Finish(self.outcome()),
        }
    }

    /// The state after a failure of what the caller had to do. The first
    /// failure is kept. While overlays may be up, they are taken down before
    /// anything else; before any has been made, and when the last wait
    /// fails, nothing is left to do.
    pub open spec fn with_failure(self, error: HaruhiErrorView) -> AreaView {
        let failure = if self.failure is Some {
            self.failure
        } else {
            Some(error)
        };
        match self.phase {
            AreaPhase::Finished => self,
            AreaPhase::Destroying => AreaView { failure, ..self },
            AreaPhase::Capturing | AreaPhase::Binding | AreaPhase::Syncing => AreaView {
                failure,
                phase: AreaPhase::Finished,
                ..self
            },
            _ => AreaView {
                failure,
                phase: if self.created > 0 {
                    AreaPhase::Destroying
                } else {
                    AreaPhase::Finished
                },
                ..self
            },
        }
    }

    /// The state after `input`. A report that does not answer what was to be
    /// done changes nothing.
    pub open spec fn with_input(self, input: AreaInputView) -> AreaView {
        match input {
            AreaInputView::Layer { output, event } => AreaView {
                configured: LayerShellState::with_event(self.configured, output, event),
                ..self
            },
            AreaInputView::Failed(error) => self.with_failure(error),
            AreaInputView::Captured { plan, transform } => if self.phase is Capturing {
                AreaView {
                    shots: self.shots.push(
                        AreaShotInfo {
                            data: CaptureOutputData::spec_new(
                                self.outputs[self.shots.len() as int],
                                plan,
                                transform,
                            ),
                        },
                    ),
                    phase: if self.shots.len() + 1 == self.outputs.len() {
                        AreaPhase::Binding
                    } else {
                        AreaPhase::Capturing
                    },
                    ..self
                }
            } else {
                self
            },
            AreaInputView::Bound => if self.phase is Binding {
                AreaView {
                    phase: if self.outputs.len() == 0 {
                        AreaPhase::Selecting
                    } else {
                        AreaPhase::Creating
                    },
                    ..self
                }
            } else {
                self
            },
            AreaInputView::Created => if self.phase is Creating {
                AreaView { created: self.created + 1, phase: AreaPhase::Configuring, ..self }
            } else {
                self
            },
            AreaInputView::Dispatched => if self.phase is Settling {
                AreaView {
                    phase: if self.created < self.outputs.len() {
                        AreaPhase::Creating
                    } else {
                        AreaPhase::Selecting
                    },
                    ..self
                }
            } else {
                self
            },
            AreaInputView::Attached => if self.phase is Configuring && self.configured.contains(
                self.outputs[self.created - 1].output,
            ) {
                AreaView { phase: AreaPhase::Settling, ..self }
            } else {
                self
            },
            AreaInputView::Selected(result) => if self.phase is Selecting {
                AreaView {
                    selection: Some(result),
                    phase: if self.created > 0 {
                        AreaPhase::Destroying
                    } else {
                        AreaPhase::Syncing
                    },
                    ..self
                }
            } else {
                self
            },
            AreaInputView::Destroyed => if self.phase is Destroying {
                AreaView {
                    destroyed: self.destroyed + 1,
                    phase: if self.destroyed + 1 == self.created {
                        AreaPhase::Syncing
                    } else {
                        AreaPhase::Destroying
                    },
                    ..self
                }
            } else {
                self
            },
            AreaInputView::Synced => if self.phase is Syncing {
                AreaView { phase: AreaPhase::Finished, ..self }
            } else {
                self
            },
        }
    }

    /// The state after all of `inputs`, in their order.
    pub open spec fn with_inputs(self, inputs: Seq<AreaInputView>) -> AreaView
        decreases inputs.len(),
    {
        if inputs.len() == 0 {
            self
        } else {
            self.with_inputs(inputs.drop_last()).with_input(inputs.last())
        }
    }

    /// How many overlays the caller has made in the course of `inputs`: the
    /// reports `Created` that answered a request for an overlay.
    pub open spec fn overlays_made(self, inputs: Seq<AreaInputView>) -> nat
        decreases inputs.len(),
    {
        if inputs.len() == 0 {
            0
        } else {
            let before = self.with_inputs(inputs.drop_last());
            let now: nat = if before.spec_next_action() is CreateOverlay && inputs.last()
                is Created {
                1
            } else {
                0
            };
            self.overlays_made(inputs.drop_last()) + now
        }
    }

    /// How many overlays the caller has destroyed in the course of `inputs`:
    /// the reports `Destroyed` that answered a request to destroy one.
    pub open spec fn overlays_unmade(self, inputs: Seq<AreaInputView>) -> nat
        decreases inputs.len(),
    {
        if inputs.len() == 0 {
            0
        } else {
            let before = self.with_inputs(inputs.drop_last());
            let now: nat = if before.spec_next_action() is DestroyOverlay && inputs.last()
                is Destroyed {
                1
            } else {
                0
            };
            self.overlays_unmade(inputs.drop_last()) + now
        }
    }
}

/// A selected region is looked for on exactly one captured output: the first
/// that its corner lies on, whose buffer it is then mapped to. Where its
/// corner lies on no captured output, the outcome is that it is out of
/// bounds; no output is guessed.
pub proof fn lemma_outcome_of_selection(state: AreaView, region: Region)
    requires
        state.wf(),
        state.failure is None,
        state.selection == Some(Ok::<Region, HaruhiErrorView>(region)),
    ensures
        match state.outcome() {
            Ok(selection) => {
                &&& selection.index < state.shots.len()
                &&& state.shots[selection.index as int].spec_in_this_screen(region)
                &&& forall|j: int|
                    0 <= j < selection.index ==> !state.shots[j].spec_in_this_screen(region)
                &&& Some(selection.region) == state.shots[selection.index as int].spec_clip_area(
                    region,
                )
            },
            Err(error) => {
                &&& error == HaruhiErrorView::RegionOutOfBounds
                &&& forall|j: int|
                    0 <= j < state.shots.len() ==> !state.shots[j].spec_in_this_screen(region)
            },
        },
{
    lemma_first_shot_from(state.shots, region, 0);
}

/// Whatever is reported, the capture of a region stays in order.
pub proof fn lemma_input_keeps_wf(state: AreaView, input: AreaInputView)
    requires
        state.wf(),
    ensures
        state.with_input(input).wf(),
{
    let after = state.with_input(input);
    match input {
        AreaInputView::Captured { plan, transform } => {
            if state.phase is Capturing {
                assert forall|i: int| 0 <= i < after.shots.len() implies {
                    &&& (#[trigger] after.shots[i]).data.output == after.outputs[i].output
                    &&& after.shots[i].data.real_width == after.outputs[i].logical_size.width
                    &&& after.shots[i].data.real_height == after.outputs[i].logical_size.height
                    &&& after.shots[i].data.screen_position == after.outputs[i].position
                } by {
                    if i < state.shots.len() {
                        assert(after.shots[i] == state.shots[i]);
                    }
                }
            }
        },
        _ => {},
    }
}

/// Every overlay that was made is destroyed before the capture of a region
/// ends, however it ends: with a region, with a failure of the selection, or
/// with a failure of anything else.
///
/// Whatever the caller reports, and in whatever order: the engine never
/// counts more overlays destroyed than made nor more made than there are
/// outputs; once the selection has ended or anything has failed, it asks to
/// destroy the next overlay as long as one is up; and once it says that
/// nothing is left to do, as many overlays have been destroyed as have been
/// made.
pub proof fn lemma_every_overlay_destroyed(outputs: Seq<OutputView>, inputs: Seq<AreaInputView>)
    requires
        outputs.len() <= usize::MAX,
    ensures
        ({
            let start = AreaView::start(outputs);
            let end = start.with_inputs(inputs);
            &&& end.wf()
            &&& end.outputs == outputs
            &&& end.created == start.overlays_made(inputs)
            &&& end.destroyed == start.overlays_unmade(inputs)
            &&& start.overlays_unmade(inputs) <= start.overlays_made(inputs) <= outputs.len()
            &&& end.spec_next_action() is DestroyOverlay ==> start.overlays_unmade(inputs)
                < start.overlays_made(inputs)
            &&& end.spec_next_action() is Finish ==> start.overlays_unmade(inputs)
                == start.overlays_made(inputs)
            &&& (end.selection is Some || end.failure is Some) && start.overlays_unmade(inputs)
                < start.overlays_made(inputs) ==> end.spec_next_action()
                == AreaActionView::DestroyOverlay(start.overlays_unmade(inputs) as usize)
        }),
    decreases inputs.len(),
{
    let start = AreaView::start(outputs);
    if inputs.len() > 0 {
        lemma_every_overlay_destroyed(outputs, inputs.drop_last());
        lemma_input_keeps_wf(start.with_inputs(inputs.drop_last()), inputs.last());
    }
}

/// The capture of a region that the user selects.
#[derive(Debug)]
pub struct AreaCapture {
    outputs: Vec<WlOutputInfo>,
    shots: Vec<AreaShotInfo>,
    phase: AreaPhase,
    created: usize,
    destroyed: usize,
    layer_state: LayerShellState,
    failure: Option<HaruhiError>,
    selection: Option<Result<Region, HaruhiError>>,
}

impl View for AreaCapture {
    type V = AreaView;

    closed spec fn view(&self) -> AreaView {
        AreaView {
            outputs: Seq::new(self.outputs@.len(), |i: int| self.outputs@[i]@),
            shots: self.shots@,
            phase: self.phase,
            created: self.created as nat,
            destroyed: self.destroyed as nat,
            configured: self.layer_state@,
            failure: match self.failure {
                Some(error) => Some(error@),
                None => None,
            },
            selection: match self.selection {
                Some(Ok(region)) => Some(Ok(region)),
                Some(Err(error)) => Some(Err(error@)),
                None => None,
            },
        }
    }
}

impl AreaCapture {
    /// The capture of a region on `outputs`, at its beginning.
    pub fn new(outputs: Vec<WlOutputInfo>) -> (r: Self)
        ensures
            r@.wf(),
            r@.outputs.len() == outputs@.len(),
            forall|i: int| 0 <= i < outputs@.len() ==> (#[trigger] r@.outputs[i]) == outputs@[i]@,
            r@ == AreaView::start(r@.outputs),
    {
        let phase = if outputs.len() == 0 {
            AreaPhase::Binding
        } else {
            AreaPhase::Capturing
        };
        let r = AreaCapture {
            outputs,
            shots: Vec::new(),
            phase,
            created: 0,
            destroyed: 0,
            layer_state: LayerShellState::new(),
            failure: None,
            selection: None,
        };
        assert(r@.shots =~= Seq::empty());
        r
    }

    /// How far the capture has come.
    pub fn phase(&self) -> (r: AreaPhase)
        ensures
            r == self@.phase,
    {
        self.phase
    }

    /// The captures made so far.
    pub fn shots(&self) -> (r: &Vec<AreaShotInfo>)
        ensures
            r@ == self@.shots,
    {
        &self.shots
    }

    /// How many overlays have been made.
    pub fn overlays_created(&self) -> (r: usize)
        ensures
            r == self@.created,
    {
        self.created
    }

    /// How many overlays have been destroyed.
    pub fn overlays_destroyed(&self) -> (r: usize)
        ensures
            r == self@.destroyed,
    {
        self.destroyed
    }

    /// What the caller is to do next.
    pub fn next_action(&self) -> (r: AreaAction)
        requires
            self@.wf(),
        ensures
            r@ == self@.spec_next_action(),
    {
        match self.phase {
            AreaPhase::Capturing => AreaAction::CaptureOutput(self.shots.len()),
            AreaPhase::Binding => AreaAction::Bind,
            AreaPhase::Creating => AreaAction::CreateOverlay {
                index: self.created,
                output: self.outputs[self.created].output,
                exclusive_zone: OVERLAY_EXCLUSIVE_ZONE,
            },
            AreaPhase::Configuring => {
                let newest = self.created - 1;
                if self.layer_state.is_configured(self.outputs[newest].output) {
                    AreaAction::AttachBuffer {
                        index: newest,
                        transform: self.shots[newest].data.transform,
                        width: self.shots[newest].data.real_width,
                        height: self.shots[newest].data.real_height,
                    }
                } else {
                    AreaAction::Dispatch
                }
            },
            AreaPhase::Settling => AreaAction::Dispatch,
            AreaPhase::Selecting => AreaAction::Select,
            AreaPhase::Destroying => AreaAction::DestroyOverlay(self.destroyed),
            AreaPhase::Syncing => AreaAction::Roundtrip,
            AreaPhase::Finished => AreaAction::Finish(self.outcome()),
        }
    }

    /// The outcome, as far as it is known: a failure of what the caller had
    /// to do comes first, then a failure of the selection; a selected region
    /// is looked for on the captured outputs.
    pub fn outcome(&self) -> (r: Result<AreaSelection, HaruhiError>)
        ensures
            outcome_view(r) == self@.outcome(),
    {
        match &self.failure {
            Some(error) => Err(error.copy()),
            None => match &self.selection {
                Some(Ok(region)) => locate(&self.shots, *region),
                Some(Err(error)) => Err(error.copy()),
                None => Err(HaruhiError::RegionOutOfBounds),
            },
        }
    }

    /// Takes in what the caller reports. Where the overlay of an output
    /// reports that it has been configured, the serial to acknowledge is
    /// returned.
    pub fn handle(&mut self, input: AreaInput) -> (ack: Option<u32>)
        requires
            old(self)@.wf(),
        ensures
            final(self)@ == old(self)@.with_input(input@),
            final(self)@.wf(),
            ack == match input {
                AreaInput::Layer { output, event } => LayerShellState::acknowledged(event),
                _ => None,
            },
    {
        proof {
            lemma_input_keeps_wf(self@, input@);
        }
        let ghost before = self@;
        let mut ack: Option<u32> = None;
        match input {
            AreaInput::Layer { output, event } => {
                ack = self.layer_state.event(output, event);
            },
            AreaInput::Failed(error) => {
                match self.phase {
                    AreaPhase::Finished => {},
                    AreaPhase::Destroying => {
                        if self.failure.is_none() {
                            self.failure = Some(error);
                        }
                    },
                    AreaPhase::Capturing | AreaPhase::Binding | AreaPhase::Syncing => {
                        if self.failure.is_none() {
                            self.failure = Some(error);
                        }
                        self.phase = AreaPhase::Finished;
                    },
                    _ => {
                        if self.failure.is_none() {
                            self.failure = Some(error);
                        }
                        self.phase = if self.created > 0 {
                            AreaPhase::Destroying
                        } else {
                            AreaPhase::Finished
                        };
                    },
                }
            },
            AreaInput::Captured { plan, transform } => {
                if let AreaPhase::Capturing = self.phase {
                    let data = CaptureOutputData::new(
                        &self.outputs[self.shots.len()],
                        plan,
                        transform,
                    );
                    self.shots.push(AreaShotInfo { data });
                    self.phase = if self.shots.len() == self.outputs.len() {
                        AreaPhase::Binding
                    } else {
                        AreaPhase::Capturing
                    };
                }
            },
            AreaInput::Bound => {
                if let AreaPhase::Binding = self.phase {
                    self.phase = if self.outputs.len() == 0 {
                        AreaPhase::Selecting
                    } else {
                        AreaPhase::Creating
                    };
                }
            },
            AreaInput::Created => {
                if let AreaPhase::Creating = self.phase {
                    self.created = self.created + 1;
                    self.phase = AreaPhase::Configuring;
                }
            },
            AreaInput::Dispatched => {
                if let AreaPhase::Settling = self.phase {
                    self.phase = if self.created < self.outputs.len() {
                        AreaPhase::Creating
                    } else {
                        AreaPhase::Selecting
                    };
                }
            },
            AreaInput::Attached => {
                if let AreaPhase::Configuring = self.phase {
                    if self.layer_state.is_configured(self.outputs[self.created - 1].output) {
                        self.phase = AreaPhase::Settling;
                    }
                }
            },
            AreaInput::Selected(result) => {
                if let AreaPhase::Selecting = self.phase {
                    self.selection = Some(result);
                    self.phase = if self.created > 0 {
                        AreaPhase::Destroying
                    } else {
                        AreaPhase::Syncing
                    };
                }
            },
            AreaInput::Destroyed => {
                if let AreaPhase::Destroying = self.phase {
                    self.destroyed = self.destroyed + 1;
                    self.phase = if self.destroyed == self.created {
                        AreaPhase::Syncing
                    } else {
                        AreaPhase::Destroying
                    };
                }
            },
            AreaInput::Synced => {
                if let AreaPhase::Syncing = self.phase {
                    self.phase = AreaPhase::Finished;
                }
            },
        }
        proof {
            assert(self@.outputs =~= before.outputs);
            assert(self@.shots =~= before.with_input(input@).shots);
            assert(self@.configured =~= before.with_input(input@).configured);
        }
        ack
    }

    /// Has the region selected by `callback`, which is shown what `state`
    /// knows of the outputs, and takes in what it answers. Unless a selection
    /// is the thing to do, the selector is not run and nothing changes.
    pub fn select<F: AreaSelectCallback>(&mut self, callback: F, state: &HaruhiShotState)
        requires
            old(self)@.wf(),
            old(self)@.phase is Selecting ==> callback.ready(state),
        ensures
            final(self)@.wf(),
            !(old(self)@.phase is Selecting) ==> final(self)@ == old(self)@,
            old(self)@.phase is Selecting ==> exists|answer: Result<Region, HaruhiError>|
                {
                    &&& #[trigger] callback.answers(state, answer)
                    &&& final(self)@ == old(self)@.with_input(
                        AreaInputView::Selected(selection_view(answer)),
                    )
                },
    {
        if let AreaPhase::Selecting = self.phase {
            let answer = callback.slurp(state);
            let ghost given = answer;
            self.handle(AreaInput::Selected(answer));
            assert(callback.answers(state, given) && self@ == old(self)@.with_input(
                AreaInputView::Selected(selection_view(given)),
            ));
        }
    }
}

} // verus!
