//! Sizes, positions and regions, and what is known of outputs and windows.

use vstd::prelude::*;
use vstd::std_specs::ops::{SubSpec, SubSpecImpl};
use vstd::string::StringExecFns;

verus! {

/// A width and a height.
#[derive(Debug, Default, Clone, Copy, PartialEq, Eq)]
pub struct Size<T = i32> where T: Default {
    pub width: T,
    pub height: T,
}

/// A point of the plane.
#[derive(Debug, Default, Clone, Copy, PartialEq, Eq)]
pub struct Position<T = i32> where T: Default {
    pub x: T,
    pub y: T,
}

impl<T> core::ops::Sub for Position<T> where T: core::ops::Sub<Output = T> + Default {
    type Output = Position<T>;

    /// The offset that leads from `rhs` to `self`.
    fn sub(self, rhs: Position<T>) -> (r: Position<T>) {
        Position { x: self.x - rhs.x, y: self.y - rhs.y }
    }
}

impl<T> SubSpecImpl for Position<T> where T: core::ops::Sub<Output = T> + Default {
    open spec fn obeys_sub_spec() -> bool {
        T::obeys_sub_spec()
    }

    /// Both differences can be taken.
    open spec fn sub_req(self, rhs: Position<T>) -> bool {
        &&& self.x.sub_req(rhs.x)
        &&& self.y.sub_req(rhs.y)
    }

    open spec fn sub_spec(self, rhs: Position<T>) -> Position<T> {
        Position { x: self.x.sub_spec(rhs.x), y: self.y.sub_spec(rhs.y) }
    }
}

/// A rectangle: its top left corner and its extent. It holds its left and
/// top border, and neither its right nor its bottom border: a rectangle of
/// the width `w` at `x` covers the columns from `x` to `x + w - 1`, so that
/// rectangles that lie side by side share no point.
#[derive(Debug, Clone, Copy, PartialEq, Eq)]
pub struct Region {
    pub position: Position,
    pub size: Size,
}

impl Region {
    /// Whether the point `(x, y)` lies in this rectangle.
    pub open spec fn contains_point(&self, x: int, y: int) -> bool {
        &&& self.position.x <= x < self.position.x + self.size.width
        &&& self.position.y <= y < self.position.y + self.size.height
    }

    /// Whether this rectangle and `other` have a point in common.
    pub open spec fn spec_intersects(&self, other: Region) -> bool {
        exists|x: int, y: int| #[trigger] self.contains_point(x, y) && other.contains_point(x, y)
    }

    /// Whether the point `p` lies in this rectangle.
    pub fn contains(&self, p: Position) -> (r: bool)
        ensures
            r == self.contains_point(p.x as int, p.y as int),
    {
        let left = self.position.x as i64;
        let top = self.position.y as i64;
        let x = p.x as i64;
        let y = p.y as i64;
        left <= x && x < left + self.size.width as i64 && top <= y && y < top
            + self.size.height as i64
    }

    /// Whether this rectangle and `other` have a point in common. A rectangle
    /// without width or without height holds no point and intersects nothing.
    #[verifier::when_used_as_spec(spec_intersects)]
    pub fn intersects(&self, other: Region) -> (r: bool)
        ensures
            r == self.spec_intersects(other),
    {
        let left = self.position.x as i64;
        let top = self.position.y as i64;
        let right = left + self.size.width as i64;
        let bottom = top + self.size.height as i64;
        let other_left = other.position.x as i64;
        let other_top = other.position.y as i64;
        let other_right = other_left + other.size.width as i64;
        let other_bottom = other_top + other.size.height as i64;
        let r = left < right && other_left < other_right && left < other_right && other_left
            < right && top < bottom && other_top < other_bottom && top < other_bottom
            && other_top < bottom;
        proof {
            if r {
                let x = if left >= other_left {
                    left as int
                } else {
                    other_left as int
                };
                let y = if top >= other_top {
                    top as int
                } else {
                    other_top as int
                };
                assert(self.contains_point(x, y) && other.contains_point(x, y));
            }
        }
        r
    }
}

/// How an output is turned and mirrored.
#[derive(Debug, Clone, Copy, PartialEq, Eq, Structural)]
pub enum Transform {
    Normal,
    _90,
    _180,
    _270,
    Flipped,
    Flipped90,
    Flipped180,
    Flipped270,
}

/// What is known of one output.
#[derive(Debug, Clone)]
pub struct WlOutputInfo {
    /// The number under which the compositor's connection knows the output.
    pub output: u32,
    /// The size of the current mode, in pixels.
    pub size: Size,
    /// The size in the compositor's global coordinate space.
    pub logical_size: Size,
    /// The top left corner in the compositor's global coordinate space.
    pub position: Position,
    pub name: String,
    pub description: String,
    /// The number of the object that reports the logical geometry, once one
    /// has been asked for.
    pub xdg_output: Option<u32>,
    pub transform: Transform,
    pub scale: i32,
}

/// What is known of one output, as plain values.
pub struct OutputView {
    pub output: u32,
    pub size: Size,
    pub logical_size: Size,
    pub position: Position,
    pub name: Seq<char>,
    pub description: Seq<char>,
    pub xdg_output: Option<u32>,
    pub transform: Transform,
    pub scale: i32,
}

impl OutputView {
    /// An output of which only its number is known yet.
    pub open spec fn fresh(output: u32) -> OutputView {
        OutputView {
            output,
            size: Size { width: 0, height: 0 },
            logical_size: Size { width: 0, height: 0 },
            position: Position { x: 0, y: 0 },
            name: Seq::empty(),
            description: Seq::empty(),
            xdg_output: None,
            transform: Transform::Normal,
            scale: 1,
        }
    }

    /// The rectangle that the output covers in the global coordinate space.
    pub open spec fn logical_region(self) -> Region {
        Region { position: self.position, size: self.logical_size }
    }
}

impl View for WlOutputInfo {
    type V = OutputView;

    open spec fn view(&self) -> OutputView {
        OutputView {
            output: self.output,
            size: self.size,
            logical_size: self.logical_size,
            position: self.position,
            name: self.name@,
            description: self.description@,
            xdg_output: self.xdg_output,
            transform: self.transform,
            scale: self.scale,
        }
    }
}

impl WlOutputInfo {
    /// The name of the output.
    pub fn name(&self) -> (r: &str)
        ensures
            r@ == self@.name,
    {
        self.name.as_str()
    }

    /// The description of the output.
    pub fn description(&self) -> (r: &str)
        ensures
            r@ == self@.description,
    {
        self.description.as_str()
    }

    /// The number under which the compositor's connection knows the output.
    pub fn wl_output(&self) -> (r: u32)
        ensures
            r == self@.output,
    {
        self.output
    }

    /// An output of which only its number is known yet: no name, no extent,
    /// at the origin, not turned, at scale one.
    pub fn new(output: u32) -> (r: Self)
        ensures
            r@ == OutputView::fresh(output),
    {
        WlOutputInfo {
            output,
            position: Position { x: 0, y: 0 },
            size: Size { width: 0, height: 0 },
            logical_size: Size { width: 0, height: 0 },
            name: String::new(),
            description: String::new(),
            xdg_output: None,
            transform: Transform::Normal,
            scale: 1,
        }
    }

    /// The rectangle that the output covers in the global coordinate space.
    pub fn logical_region(&self) -> (r: Region)
        ensures
            r == self@.logical_region(),
    {
        Region { position: self.position, size: self.logical_size }
    }
}

/// What is known of one window.
#[derive(Debug, Clone)]
pub struct TopLevel {
    /// The number under which the compositor's connection knows the window.
    pub handle: u32,
    pub title: String,
    pub app_id: String,
    pub identifier: String,
}

/// What is known of one window, as plain values.
pub struct TopLevelView {
    pub handle: u32,
    pub title: Seq<char>,
    pub app_id: Seq<char>,
    pub identifier: Seq<char>,
}

impl View for TopLevel {
    type V = TopLevelView;

    open spec fn view(&self) -> TopLevelView {
        TopLevelView {
            handle: self.handle,
            title: self.title@,
            app_id: self.app_id@,
            identifier: self.identifier@,
        }
    }
}

impl TopLevel {
    /// A window of which only its number is known yet.
    pub fn new(handle: u32) -> (r: Self)
        ensures
            r@ == (TopLevelView {
                handle,
                title: Seq::empty(),
                app_id: Seq::empty(),
                identifier: Seq::empty(),
            }),
    {
        TopLevel {
            handle,
            title: String::new(),
            app_id: String::new(),
            identifier: String::new(),
        }
    }

    pub fn title(&self) -> (r: &str)
        ensures
            r@ == self@.title,
    {
        self.title.as_str()
    }

    pub fn app_id(&self) -> (r: &str)
        ensures
            r@ == self@.app_id,
    {
        self.app_id.as_str()
    }

    pub fn identifier(&self) -> (r: &str)
        ensures
            r@ == self@.identifier,
    {
        self.identifier.as_str()
    }

    /// The application's name and the title, with one space between them.
    pub fn id_and_title(&self) -> (r: String)
        ensures
            r@ == self@.app_id + seq![' '] + self@.title,
    {
        proof {
            reveal_strlit(" ");
        }
        let r = String::from_str(self.app_id.as_str()).concat(" ").concat(self.title.as_str());
        assert(" "@ =~= seq![' ']);
        r
    }

    /// The number under which the compositor's connection knows the window.
    pub fn handle(&self) -> (r: u32)
        ensures
            r == self@.handle,
    {
        self.handle
    }
}

} // verus!
