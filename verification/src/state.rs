//! The engine's knowledge of outputs and windows, and how the compositor's
//! events change it.

use vstd::prelude::*;

use crate::text::signed_decimal_digits;
use crate::utils::{
    OutputView, Position, Region, Size, TopLevel, TopLevelView, Transform, WlOutputInfo,
};

verus! {

/// What the compositor tells of an output itself.
#[derive(Debug, Clone, PartialEq, Eq)]
pub enum OutputEvent {
    Name { name: String },
    Scale { factor: i32 },
    Mode { width: i32, height: i32 },
    Geometry { transform: Transform },
    /// Any other event; nothing is learnt from it.
    Other,
}

/// An `OutputEvent` as plain values.
pub enum OutputEventView {
    Name { name: Seq<char> },
    Scale { factor: i32 },
    Mode { width: i32, height: i32 },
    Geometry { transform: Transform },
    Other,
}

impl View for OutputEvent {
    type V = OutputEventView;

    open spec fn view(&self) -> OutputEventView {
        match *self {
            OutputEvent::Name { name } => OutputEventView::Name { name: name@ },
            OutputEvent::Scale { factor } => OutputEventView::Scale { factor },
            OutputEvent::Mode { width, height } => OutputEventView::Mode { width, height },
            OutputEvent::Geometry { transform } => OutputEventView::Geometry { transform },
            OutputEvent::Other => OutputEventView::Other,
        }
    }
}

impl OutputView {
    /// The output after `event` has been taken in.
    pub open spec fn with_event(self, event: OutputEventView) -> OutputView {
        match event {
            OutputEventView::Name { name } => OutputView { name, ..self },
            OutputEventView::Scale { factor } => OutputView { scale: factor, ..self },
            OutputEventView::Mode { width, height } => OutputView {
                size: Size { width, height },
                ..self
            },
            OutputEventView::Geometry { transform } => OutputView { transform, ..self },
            OutputEventView::Other => self,
        }
    }
}

/// What the compositor tells of an output's place among the others.
#[derive(Debug, Clone, PartialEq, Eq)]
pub enum XdgOutputEvent {
    LogicalPosition { x: i32, y: i32 },
    LogicalSize { width: i32, height: i32 },
    Description { description: String },
    /// Any other event; nothing is learnt from it.
    Other,
}

/// An `XdgOutputEvent` as plain values.
pub enum XdgOutputEventView {
    LogicalPosition { x: i32, y: i32 },
    LogicalSize { width: i32, height: i32 },
    Description { description: Seq<char> },
    Other,
}

impl View for XdgOutputEvent {
    type V = XdgOutputEventView;

    open spec fn view(&self) -> XdgOutputEventView {
        match *self {
            XdgOutputEvent::LogicalPosition { x, y } => XdgOutputEventView::LogicalPosition {
                x,
                y,
            },
            XdgOutputEvent::LogicalSize { width, height } => XdgOutputEventView::LogicalSize {
                width,
                height,
            },
            XdgOutputEvent::Description { description } => XdgOutputEventView::Description {
                description: description@,
            },
            XdgOutputEvent::Other => XdgOutputEventView::Other,
        }
    }
}

impl OutputView {
    /// The output after `event` has been taken in.
    pub open spec fn with_xdg_event(self, event: XdgOutputEventView) -> OutputView {
        match event {
            XdgOutputEventView::LogicalPosition { x, y } => OutputView {
                position: Position { x, y },
                ..self
            },
            XdgOutputEventView::LogicalSize { width, height } => OutputView {
                logical_size: Size { width, height },
                ..self
            },
            XdgOutputEventView::Description { description } => OutputView { description, ..self },
            XdgOutputEventView::Other => self,
        }
    }

    /// The lines that describe the output to a reader: its name and
    /// description, its size in pixels, its logical size, its position, and
    /// its scale.
    pub open spec fn info_text(self) -> Seq<char> {
        self.name + ", "@ + self.description + "\n"@ + pair_line(
            "    Size: "@,
            self.size.width as int,
            ","@,
            self.size.height as int,
        ) + pair_line(
            "    LogicSize: "@,
            self.logical_size.width as int,
            ", "@,
            self.logical_size.height as int,
        ) + pair_line("    Position: "@, self.position.x as int, ", "@, self.position.y as int)
            + "    Scale: "@ + signed_decimal_digits(self.scale as int) + "\n"@
    }
}

/// A line that shows two numbers: what they are, the first, what parts them,
/// the second.
pub open spec fn pair_line(
    label: Seq<char>,
    first: int,
    separator: Seq<char>,
    second: int,
) -> Seq<char> {
    label + signed_decimal_digits(first) + separator + signed_decimal_digits(second) + "\n"@
}

/// What the compositor tells of a window.
#[derive(Debug, Clone, PartialEq, Eq)]
pub enum ToplevelEvent {
    Title { title: String },
    /// Any other event; nothing is learnt from it.
    Other,
}

/// A `ToplevelEvent` as plain values.
pub enum ToplevelEventView {
    Title { title: Seq<char> },
    Other,
}

impl View for ToplevelEvent {
    type V = ToplevelEventView;

    open spec fn view(&self) -> ToplevelEventView {
        match *self {
            ToplevelEvent::Title { title } => ToplevelEventView::Title { title: title@ },
            ToplevelEvent::Other => ToplevelEventView::Other,
        }
    }
}

impl TopLevelView {
    /// The window after `event` has been taken in.
    pub open spec fn with_event(self, event: ToplevelEventView) -> TopLevelView {
        match event {
            ToplevelEventView::Title { title } => TopLevelView { title, ..self },
            ToplevelEventView::Other => self,
        }
    }
}

/// A global that the compositor announces, with the number of the object that
/// was bound for it.
#[derive(Debug, Clone, Copy, PartialEq, Eq)]
pub enum Global {
    Output(u32),
    Shm(u32),
    Screencopy(u32),
    XdgOutputManager(u32),
    /// A global that the engine has no use for.
    Other,
}

/// The engine's knowledge of the compositor's outputs and windows, and of the
/// globals that a capture needs.
#[derive(Debug)]
pub struct HaruhiShotState {
    toplevels: Vec<TopLevel>,
    output_infos: Vec<WlOutputInfo>,
    shm: Option<u32>,
    wlr_screencopy: Option<u32>,
    xdg_output_manager: Option<u32>,
}

/// The engine's knowledge as plain values.
pub struct StateView {
    pub toplevels: Seq<TopLevelView>,
    pub outputs: Seq<OutputView>,
    pub shm: Option<u32>,
    pub wlr_screencopy: Option<u32>,
    pub xdg_output_manager: Option<u32>,
}

/// The least of the origin's and the outputs' left edges.
pub open spec fn left_edge(outputs: Seq<OutputView>) -> int
    decreases outputs.len(),
{
    if outputs.len() == 0 {
        0
    } else {
        let rest = left_edge(outputs.drop_last());
        let x = outputs.last().position.x as int;
        if x < rest {
            x
        } else {
            rest
        }
    }
}

/// The least of the origin's and the outputs' top edges.
pub open spec fn top_edge(outputs: Seq<OutputView>) -> int
    decreases outputs.len(),
{
    if outputs.len() == 0 {
        0
    } else {
        let rest = top_edge(outputs.drop_last());
        let y = outputs.last().position.y as int;
        if y < rest {
            y
        } else {
            rest
        }
    }
}

/// The greatest of the origin's and the outputs' right edges.
pub open spec fn right_edge(outputs: Seq<OutputView>) -> int
    decreases outputs.len(),
{
    if outputs.len() == 0 {
        0
    } else {
        let rest = right_edge(outputs.drop_last());
        let x = outputs.last().position.x + outputs.last().logical_size.width;
        if x > rest {
            x
        } else {
            rest
        }
    }
}

/// The greatest of the origin's and the outputs' bottom edges.
pub open spec fn bottom_edge(outputs: Seq<OutputView>) -> int
    decreases outputs.len(),
{
    if outputs.len() == 0 {
        0
    } else {
        let rest = bottom_edge(outputs.drop_last());
        let y = outputs.last().position.y + outputs.last().logical_size.height;
        if y > rest {
            y
        } else {
            rest
        }
    }
}

/// The descriptions of all `outputs`, one after the other.
pub open spec fn info_text(outputs: Seq<OutputView>) -> Seq<char>
    decreases outputs.len(),
{
    if outputs.len() == 0 {
        Seq::empty()
    } else {
        info_text(outputs.drop_last()) + outputs.last().info_text()
    }
}

impl StateView {
    /// Whether `i` is the first output that the connection knows as `proxy`.
    pub open spec fn is_output(self, proxy: u32, i: int) -> bool {
        &&& 0 <= i < self.outputs.len()
        &&& self.outputs[i].output == proxy
        &&& forall|j: int| 0 <= j < i ==> self.outputs[j].output != proxy
    }

    /// Whether `i` is the first output whose logical geometry is reported by
    /// the object `proxy`.
    pub open spec fn is_xdg_output(self, proxy: u32, i: int) -> bool {
        &&& 0 <= i < self.outputs.len()
        &&& self.outputs[i].xdg_output == Some(proxy)
        &&& forall|j: int| 0 <= j < i ==> self.outputs[j].xdg_output != Some(proxy)
    }

    /// Whether `i` is the first window that the connection knows as `handle`.
    pub open spec fn is_toplevel(self, handle: u32, i: int) -> bool {
        &&& 0 <= i < self.toplevels.len()
        &&& self.toplevels[i].handle == handle
        &&& forall|j: int| 0 <= j < i ==> self.toplevels[j].handle != handle
    }

    /// Whether `i` is the first output of the name `name`.
    pub open spec fn is_named(self, name: Seq<char>, i: int) -> bool {
        &&& 0 <= i < self.outputs.len()
        &&& self.outputs[i].name == name
        &&& forall|j: int| 0 <= j < i ==> self.outputs[j].name != name
    }

    /// Whether `i` is the first output that the point `(x, y)` lies on.
    pub open spec fn is_display_at(self, x: int, y: int, i: int) -> bool {
        &&& 0 <= i < self.outputs.len()
        &&& self.outputs[i].logical_region().contains_point(x, y)
        &&& forall|j: int|
            0 <= j < i ==> !(#[trigger] self.outputs[j]).logical_region().contains_point(x, y)
    }

    /// The state after the output `proxy` has reported `event`: the first
    /// output of that number takes the event in, and nothing else changes.
    pub open spec fn with_output_event(self, proxy: u32, event: OutputEventView) -> StateView {
        StateView {
            outputs: Seq::new(
                self.outputs.len(),
                |i: int|
                    if self.is_output(proxy, i) {
                        self.outputs[i].with_event(event)
                    } else {
                        self.outputs[i]
                    },
            ),
            ..self
        }
    }

    /// The state after the object `proxy` has reported `event`: the first
    /// output that it belongs to takes the event in, and nothing else changes.
    pub open spec fn with_xdg_output_event(
        self,
        proxy: u32,
        event: XdgOutputEventView,
    ) -> StateView {
        StateView {
            outputs: Seq::new(
                self.outputs.len(),
                |i: int|
                    if self.is_xdg_output(proxy, i) {
                        self.outputs[i].with_xdg_event(event)
                    } else {
                        self.outputs[i]
                    },
            ),
            ..self
        }
    }

    /// The state after the window `handle` has reported `event`: the first
    /// window of that number takes the event in, and nothing else changes.
    pub open spec fn with_toplevel_event(self, handle: u32, event: ToplevelEventView) -> StateView {
        StateView {
            toplevels: Seq::new(
                self.toplevels.len(),
                |i: int|
                    if self.is_toplevel(handle, i) {
                        self.toplevels[i].with_event(event)
                    } else {
                        self.toplevels[i]
                    },
            ),
            ..self
        }
    }

    /// The state after the compositor has announced `global`.
    pub open spec fn with_global(self, global: Global) -> StateView {
        match global {
            Global::Output(output) => StateView {
                outputs: self.outputs.push(OutputView::fresh(output)),
                ..self
            },
            Global::Shm(shm) => StateView { shm: Some(shm), ..self },
            Global::Screencopy(manager) => StateView { wlr_screencopy: Some(manager), ..self },
            Global::XdgOutputManager(manager) => StateView {
                xdg_output_manager: Some(manager),
                ..self
            },
            Global::Other => self,
        }
    }

    /// The rectangle of the global coordinate space that the output `i`
    /// covers.
    pub open spec fn display_region(self, i: int) -> Region {
        self.outputs[i].logical_region()
    }

    /// Whether the smallest rectangle around the origin and all outputs has a
    /// width and a height that an `i32` holds.
    pub open spec fn whole_screens_fit(self) -> bool {
        &&& right_edge(self.outputs) - left_edge(self.outputs) <= i32::MAX
        &&& bottom_edge(self.outputs) - top_edge(self.outputs) <= i32::MAX
    }
}

impl View for HaruhiShotState {
    type V = StateView;

    closed spec fn view(&self) -> StateView {
        StateView {
            toplevels: Seq::new(self.toplevels@.len(), |i: int| self.toplevels@[i]@),
            outputs: Seq::new(self.output_infos@.len(), |i: int| self.output_infos@[i]@),
            shm: self.shm,
            wlr_screencopy: self.wlr_screencopy,
            xdg_output_manager: self.xdg_output_manager,
        }
    }
}

impl HaruhiShotState {
    /// An engine that knows of no output, no window and no global.
    pub fn new() -> (r: Self)
        ensures
            r@.outputs.len() == 0,
            r@.toplevels.len() == 0,
            r@.shm is None,
            r@.wlr_screencopy is None,
            r@.xdg_output_manager is None,
    {
        HaruhiShotState {
            toplevels: Vec::new(),
            output_infos: Vec::new(),
            shm: None,
            wlr_screencopy: None,
            xdg_output_manager: None,
        }
    }

    /// The outputs, in the order in which the compositor announced them.
    pub fn outputs(&self) -> (r: &Vec<WlOutputInfo>)
        ensures
            r@.len() == self@.outputs.len(),
            forall|i: int| 0 <= i < r@.len() ==> (#[trigger] r@[i])@ == self@.outputs[i],
    {
        &self.output_infos
    }

    /// The windows, in the order in which the compositor announced them.
    pub fn toplevels(&self) -> (r: &Vec<TopLevel>)
        ensures
            r@.len() == self@.toplevels.len(),
            forall|i: int| 0 <= i < r@.len() ==> (#[trigger] r@[i])@ == self@.toplevels[i],
    {
        &self.toplevels
    }

    /// Takes in a global that the compositor announces: an output joins the
    /// list as one of which only its number is known, and each of the three
    /// globals that a capture needs is remembered.
    pub fn global(&mut self, global: Global)
        ensures
            final(self)@ == old(self)@.with_global(global),
    {
        match global {
            Global::Output(output) => {
                self.output_infos.push(WlOutputInfo::new(output));
                assert(self@.outputs =~= old(self)@.outputs.push(OutputView::fresh(output)));
            },
            Global::Shm(shm) => {
                self.shm = Some(shm);
                assert(self@.outputs =~= old(self)@.outputs);
            },
            Global::Screencopy(manager) => {
                self.wlr_screencopy = Some(manager);
                assert(self@.outputs =~= old(self)@.outputs);
            },
            Global::XdgOutputManager(manager) => {
                self.xdg_output_manager = Some(manager);
                assert(self@.outputs =~= old(self)@.outputs);
            },
            Global::Other => {},
        }
        assert(self@.toplevels =~= old(self)@.toplevels);
    }

    /// Whether everything that a screencopy capture needs is there: at least
    /// one output, and the three globals.
    pub fn is_ready(&self) -> (r: bool)
        ensures
            r == (self@.outputs.len() > 0 && self@.wlr_screencopy is Some && self@.shm is Some
                && self@.xdg_output_manager is Some),
    {
        if self.output_infos.len() == 0 {
            return false;
        }
        if self.wlr_screencopy.is_none() {
            return false;
        }
        if self.shm.is_none() {
            return false;
        }
        if self.xdg_output_manager.is_none() {
            return false;
        }
        true
    }

    /// Remembers `xdg_output` as the object that reports the logical geometry
    /// of the output at `index`, unless one is remembered already. Returns
    /// whether it was taken.
    pub fn set_xdg_output(&mut self, index: usize, xdg_output: u32) -> (taken: bool)
        requires
            index < old(self)@.outputs.len(),
        ensures
            taken == (old(self)@.outputs[index as int].xdg_output is None),
            final(self)@.outputs == if taken {
                old(self)@.outputs.update(
                    index as int,
                    OutputView { xdg_output: Some(xdg_output), ..old(self)@.outputs[index as int] },
                )
            } else {
                old(self)@.outputs
            },
            final(self)@.toplevels == old(self)@.toplevels,
            final(self)@.shm == old(self)@.shm,
            final(self)@.wlr_screencopy == old(self)@.wlr_screencopy,
            final(self)@.xdg_output_manager == old(self)@.xdg_output_manager,
    {
        let taken = self.output_infos[index].xdg_output.is_none();
        if taken {
            self.output_infos[index].xdg_output = Some(xdg_output);
        }
        proof {
            assert(old(self)@.outputs[index as int] == old(self).output_infos@[index as int]@);
            if taken {
                assert(self@.outputs =~= old(self)@.outputs.update(
                    index as int,
                    OutputView { xdg_output: Some(xdg_output), ..old(self)@.outputs[index as int] },
                ));
            } else {
                assert(self@.outputs =~= old(self)@.outputs);
            }
            assert(self@.toplevels =~= old(self)@.toplevels);
        }
        taken
    }

    /// Takes in what the output `proxy` reports.
    pub fn output_event(&mut self, proxy: u32, event: OutputEvent)
        ensures
            final(self)@ == old(self)@.with_output_event(proxy, event@),
    {
        let ghost ev = event@;
        let mut i: usize = 0;
        while i < self.output_infos.len() && self.output_infos[i].output != proxy
            invariant
                *self == *old(self),
                i <= self.output_infos@.len(),
                forall|j: int| 0 <= j < i ==> self.output_infos@[j].output != proxy,
            decreases self.output_infos@.len() - i,
        {
            i += 1;
        }
        if i < self.output_infos.len() {
            match event {
                OutputEvent::Name { name } => {
                    self.output_infos[i].name = name;
                },
                OutputEvent::Scale { factor } => {
                    self.output_infos[i].scale = factor;
                },
                OutputEvent::Mode { width, height } => {
                    self.output_infos[i].size = Size { width, height };
                },
                OutputEvent::Geometry { transform } => {
                    self.output_infos[i].transform = transform;
                },
                OutputEvent::Other => {},
            }
        }
        proof {
            let before = old(self)@;
            let after = before.with_output_event(proxy, ev);
            assert forall|k: int| 0 <= k < before.outputs.len() implies self@.outputs[k]
                == after.outputs[k] by {
                assert(before.outputs[k] == old(self).output_infos@[k]@);
                if k == i {
                    assert(before.is_output(proxy, k)) by {
                        assert forall|j: int| 0 <= j < k implies before.outputs[j].output
                            != proxy by {
                            assert(old(self).output_infos@[j].output != proxy);
                        }
                    }
                } else if before.is_output(proxy, k) {
                    if k < i {
                        assert(old(self).output_infos@[k].output != proxy);
                    } else {
                        assert(before.outputs[i as int].output == proxy);
                    }
                }
            }
            assert(self@.outputs =~= after.outputs);
            assert(self@.toplevels =~= before.toplevels);
        }
    }

    /// Takes in what the object `proxy` reports of the logical geometry of its
    /// output.
    pub fn xdg_output_event(&mut self, proxy: u32, event: XdgOutputEvent)
        ensures
            final(self)@ == old(self)@.with_xdg_output_event(proxy, event@),
    {
        let ghost ev = event@;
        let mut i: usize = 0;
        while i < self.output_infos.len() && !is_some_of(self.output_infos[i].xdg_output, proxy)
            invariant
                *self == *old(self),
                i <= self.output_infos@.len(),
                forall|j: int| 0 <= j < i ==> self.output_infos@[j].xdg_output != Some(proxy),
            decreases self.output_infos@.len() - i,
        {
            i += 1;
        }
        if i < self.output_infos.len() {
            match event {
                XdgOutputEvent::LogicalPosition { x, y } => {
                    self.output_infos[i].position = Position { x, y };
                },
                XdgOutputEvent::LogicalSize { width, height } => {
                    self.output_infos[i].logical_size = Size { width, height };
                },
                XdgOutputEvent::Description { description } => {
                    self.output_infos[i].description = description;
                },
                XdgOutputEvent::Other => {},
            }
        }
        proof {
            let before = old(self)@;
            let after = before.with_xdg_output_event(proxy, ev);
            assert forall|k: int| 0 <= k < before.outputs.len() implies self@.outputs[k]
                == after.outputs[k] by {
                assert(before.outputs[k] == old(self).output_infos@[k]@);
                if k == i {
                    assert(before.is_xdg_output(proxy, k)) by {
                        assert forall|j: int| 0 <= j < k implies before.outputs[j].xdg_output
                            != Some(proxy) by {
                            assert(old(self).output_infos@[j].xdg_output != Some(proxy));
                        }
                    }
                } else if before.is_xdg_output(proxy, k) {
                    if k < i {
                        assert(old(self).output_infos@[k].xdg_output != Some(proxy));
                    } else {
                        assert(before.outputs[i as int].xdg_output == Some(proxy));
                    }
                }
            }
            assert(self@.outputs =~= after.outputs);
            assert(self@.toplevels =~= before.toplevels);
        }
    }

    /// Takes in a window that the compositor announces: it joins the list as
    /// one of which only its number is known.
    pub fn toplevel(&mut self, handle: u32)
        ensures
            final(self)@ == (StateView {
                toplevels: old(self)@.toplevels.push(
                    TopLevelView {
                        handle,
                        title: Seq::empty(),
                        app_id: Seq::empty(),
                        identifier: Seq::empty(),
                    },
                ),
                ..old(self)@
            }),
    {
        self.toplevels.push(TopLevel::new(handle));
        assert(self@.toplevels =~= old(self)@.toplevels.push(
            TopLevelView {
                handle,
                title: Seq::empty(),
                app_id: Seq::empty(),
                identifier: Seq::empty(),
            },
        ));
        assert(self@.outputs =~= old(self)@.outputs);
    }

    /// Takes in what the window `handle` reports.
    pub fn toplevel_event(&mut self, handle: u32, event: ToplevelEvent)
        ensures
            final(self)@ == old(self)@.with_toplevel_event(handle, event@),
    {
        let ghost ev = event@;
        let mut i: usize = 0;
        while i < self.toplevels.len() && self.toplevels[i].handle != handle
            invariant
                *self == *old(self),
                i <= self.toplevels@.len(),
                forall|j: int| 0 <= j < i ==> self.toplevels@[j].handle != handle,
            decreases self.toplevels@.len() - i,
        {
            i += 1;
        }
        if i < self.toplevels.len() {
            match event {
                ToplevelEvent::Title { title } => {
                    self.toplevels[i].title = title;
                },
                ToplevelEvent::Other => {},
            }
        }
        proof {
            let before = old(self)@;
            let after = before.with_toplevel_event(handle, ev);
            assert forall|k: int| 0 <= k < before.toplevels.len() implies self@.toplevels[k]
                == after.toplevels[k] by {
                assert(before.toplevels[k] == old(self).toplevels@[k]@);
                if k == i {
                    assert(before.is_toplevel(handle, k)) by {
                        assert forall|j: int| 0 <= j < k implies before.toplevels[j].handle
                            != handle by {
                            assert(old(self).toplevels@[j].handle != handle);
                        }
                    }
                } else if before.is_toplevel(handle, k) {
                    if k < i {
                        assert(old(self).toplevels@[k].handle != handle);
                    } else {
                        assert(before.toplevels[i as int].handle == handle);
                    }
                }
            }
            assert(self@.toplevels =~= after.toplevels);
            assert(self@.outputs =~= before.outputs);
        }
    }
}

/// Whether `value` holds `wanted`.
fn is_some_of(value: Option<u32>, wanted: u32) -> (r: bool)
    ensures
        r == (value == Some(wanted)),
{
    match value {
        Some(held) => held == wanted,
        None => false,
    }
}

} // verus!
