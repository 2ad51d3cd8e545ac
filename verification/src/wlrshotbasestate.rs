//! Questions about the layout of the outputs: which one a point lies on,
//! which ones a rectangle touches, and how far they reach together.

use vstd::prelude::*;
use vstd::string::StringExecFns;

use crate::state::{
    bottom_edge, info_text, left_edge, pair_line, right_edge, top_edge, HaruhiShotState,
};
use crate::text::{signed_decimal, signed_decimal_digits};
use crate::utils::{OutputView, Position, Region, Size, WlOutputInfo};

verus! {

/// The rectangle with its top left corner at `pos` and of the extent `size`.
pub open spec fn region_of(pos: (i32, i32), size: (i32, i32)) -> Region {
    Region {
        position: Position { x: pos.0, y: pos.1 },
        size: Size { width: size.0, height: size.1 },
    }
}

/// The numbers of the `outputs` that have a point in common with `query`, in
/// rising order.
pub open spec fn displays_meeting(outputs: Seq<OutputView>, query: Region) -> Seq<usize>
    decreases outputs.len(),
{
    if outputs.len() == 0 {
        Seq::empty()
    } else {
        let rest = displays_meeting(outputs.drop_last(), query);
        if outputs.last().logical_region().spec_intersects(query) {
            rest.push((outputs.len() - 1) as usize)
        } else {
            rest
        }
    }
}

/// The list of the outputs that a rectangle meets holds exactly the outputs
/// that have a point in common with it, each once, in rising order. It is
/// empty exactly where the rectangle meets no output.
pub proof fn lemma_displays_meeting(outputs: Seq<OutputView>, query: Region)
    requires
        outputs.len() <= usize::MAX,
    ensures
        forall|k: int|
            0 <= k < displays_meeting(outputs, query).len() ==> {
                &&& (#[trigger] displays_meeting(outputs, query)[k]) < outputs.len()
                &&& outputs[displays_meeting(outputs, query)[k] as int].logical_region().spec_intersects(
                    query,
                )
            },
        forall|j: int, k: int|
            0 <= j < k < displays_meeting(outputs, query).len() ==> displays_meeting(
                outputs,
                query,
            )[j] < displays_meeting(outputs, query)[k],
        forall|i: int|
            0 <= i < outputs.len() && (#[trigger] outputs[i]).logical_region().spec_intersects(
                query,
            ) ==> displays_meeting(outputs, query).contains(i as usize),
        displays_meeting(outputs, query).len() == 0 <==> forall|i: int|
            0 <= i < outputs.len() ==> !(#[trigger] outputs[i]).logical_region().spec_intersects(
                query,
            ),
    decreases outputs.len(),
{
    if outputs.len() > 0 {
        let shorter = outputs.drop_last();
        let rest = displays_meeting(shorter, query);
        let all = displays_meeting(outputs, query);
        lemma_displays_meeting(shorter, query);
        let last = (outputs.len() - 1) as usize;
        assert forall|i: int|
            0 <= i < outputs.len() && (#[trigger] outputs[i]).logical_region().spec_intersects(
                query,
            ) implies all.contains(i as usize) by {
            if i < shorter.len() {
                assert(shorter[i] == outputs[i]);
                let k = choose|k: int| 0 <= k < rest.len() && rest[k] == i as usize;
                assert(all[k] == i as usize);
            } else {
                assert(all[all.len() - 1] == last);
            }
        }
        assert forall|k: int| 0 <= k < all.len() implies {
            &&& (#[trigger] all[k]) < outputs.len()
            &&& outputs[all[k] as int].logical_region().spec_intersects(query)
        } by {
            if k < rest.len() {
                assert(all[k] == rest[k]);
                assert(shorter[rest[k] as int] == outputs[rest[k] as int]);
            }
        }
        assert forall|j: int, k: int| 0 <= j < k < all.len() implies all[j] < all[k] by {
            assert(all[j] == rest[j]);
            if k < rest.len() {
                assert(all[k] == rest[k]);
            }
        }
        if all.len() == 0 {
            assert forall|i: int| 0 <= i < outputs.len() implies !(#[trigger] outputs[i])
                .logical_region().spec_intersects(query) by {
                if i < shorter.len() {
                    assert(shorter[i] == outputs[i]);
                }
            }
        }
    }
}

impl HaruhiShotState {
    /// The edges of the smallest rectangle that holds the origin and every
    /// output: left, top, right, bottom.
    fn whole_screens_edges(&self) -> (r: (i32, i32, i64, i64))
        ensures
            r.0 == left_edge(self@.outputs),
            r.1 == top_edge(self@.outputs),
            r.2 == right_edge(self@.outputs),
            r.3 == bottom_edge(self@.outputs),
            r.0 <= 0 <= r.2 <= 2 * (i32::MAX as int),
            r.1 <= 0 <= r.3 <= 2 * (i32::MAX as int),
    {
        let outputs = self.outputs();
        let mut startx: i32 = 0;
        let mut starty: i32 = 0;
        let mut endx: i64 = 0;
        let mut endy: i64 = 0;
        let mut i: usize = 0;
        while i < outputs.len()
            invariant
                i <= outputs@.len(),
                outputs@.len() == self@.outputs.len(),
                forall|k: int| 0 <= k < outputs@.len() ==> (#[trigger] outputs@[k])@ == self@.outputs[k],
                startx == left_edge(self@.outputs.take(i as int)),
                starty == top_edge(self@.outputs.take(i as int)),
                endx == right_edge(self@.outputs.take(i as int)),
                endy == bottom_edge(self@.outputs.take(i as int)),
                startx <= 0 <= endx <= 2 * (i32::MAX as int),
                starty <= 0 <= endy <= 2 * (i32::MAX as int),
            decreases outputs@.len() - i,
        {
            let info = &outputs[i];
            proof {
                assert(info@ == self@.outputs[i as int]);
                assert(self@.outputs.take(i + 1).drop_last() =~= self@.outputs.take(i as int));
                assert(self@.outputs.take(i + 1).last() == self@.outputs[i as int]);
            }
            if info.position.x < startx {
                startx = info.position.x;
            }
            if info.position.y < starty {
                starty = info.position.y;
            }
            let right = info.position.x as i64 + info.logical_size.width as i64;
            if right > endx {
                endx = right;
            }
            let bottom = info.position.y as i64 + info.logical_size.height as i64;
            if bottom > endy {
                endy = bottom;
            }
            i += 1;
        }
        assert(self@.outputs.take(i as int) =~= self@.outputs);
        (startx, starty, endx, endy)
    }

    /// Whether the smallest rectangle that holds the origin and every output
    /// has a width and a height that an `i32` holds.
    pub fn whole_screens_fit(&self) -> (r: bool)
        ensures
            r == self@.whole_screens_fit(),
    {
        let (left, top, right, bottom) = self.whole_screens_edges();
        right - left as i64 <= 0x7fff_ffff && bottom - top as i64 <= 0x7fff_ffff
    }

    /// The smallest rectangle that holds the origin and every output: its
    /// left and top edge, then its width and height.
    pub fn get_whole_screens_pos_and_region(&self) -> (r: (i32, i32, i32, i32))
        requires
            self@.whole_screens_fit(),
        ensures
            r.0 == left_edge(self@.outputs),
            r.1 == top_edge(self@.outputs),
            r.2 == right_edge(self@.outputs) - left_edge(self@.outputs),
            r.3 == bottom_edge(self@.outputs) - top_edge(self@.outputs),
    {
        let (left, top, right, bottom) = self.whole_screens_edges();
        (left, top, (right - left as i64) as i32, (bottom - top as i64) as i32)
    }

    /// The number of the first output of the name `screen`.
    pub fn get_select_id(&self, screen: String) -> (r: Option<usize>)
        ensures
            match r {
                Some(i) => self@.is_named(screen@, i as int),
                None => forall|i: int|
                    0 <= i < self@.outputs.len() ==> (#[trigger] self@.outputs[i]).name != screen@,
            },
    {
        let outputs = self.outputs();
        let mut i: usize = 0;
        while i < outputs.len()
            invariant
                i <= outputs@.len(),
                outputs@.len() == self@.outputs.len(),
                forall|k: int| 0 <= k < outputs@.len() ==> (#[trigger] outputs@[k])@ == self@.outputs[k],
                forall|j: int| 0 <= j < i ==> (#[trigger] self@.outputs[j]).name != screen@,
            decreases outputs@.len() - i,
        {
            if outputs[i].name == screen {
                assert(outputs@[i as int]@ == self@.outputs[i as int]);
                return Some(i);
            }
            assert(outputs@[i as int]@ == self@.outputs[i as int]);
            i += 1;
        }
        None
    }

    /// The number of the first output that the point `pos` lies on.
    pub fn get_pos_display_id(&self, pos: (i32, i32)) -> (r: Option<usize>)
        ensures
            match r {
                Some(i) => self@.is_display_at(pos.0 as int, pos.1 as int, i as int),
                None => forall|i: int|
                    0 <= i < self@.outputs.len() ==> !(#[trigger] self@.outputs[i])
                        .logical_region().contains_point(pos.0 as int, pos.1 as int),
            },
    {
        let outputs = self.outputs();
        let point = Position { x: pos.0, y: pos.1 };
        let mut i: usize = 0;
        while i < outputs.len()
            invariant
                i <= outputs@.len(),
                outputs@.len() == self@.outputs.len(),
                point.x == pos.0,
                point.y == pos.1,
                forall|k: int| 0 <= k < outputs@.len() ==> (#[trigger] outputs@[k])@ == self@.outputs[k],
                forall|j: int|
                    0 <= j < i ==> !(#[trigger] self@.outputs[j]).logical_region().contains_point(
                        pos.0 as int,
                        pos.1 as int,
                    ),
            decreases outputs@.len() - i,
        {
            assert(outputs@[i as int]@ == self@.outputs[i as int]);
            if outputs[i].logical_region().contains(point) {
                return Some(i);
            }
            i += 1;
        }
        None
    }

    /// The numbers of the outputs that the rectangle at `pos` of the extent
    /// `size` has a point in common with, in rising order; `None` where it
    /// meets no output.
    pub fn get_pos_display_ids(&self, pos: (i32, i32), size: (i32, i32)) -> (r: Option<
        Vec<usize>,
    >)
        ensures
            match r {
                Some(ids) => {
                    &&& ids@ == displays_meeting(self@.outputs, region_of(pos, size))
                    &&& ids@.len() > 0
                    &&& forall|k: int|
                        0 <= k < ids@.len() ==> {
                            &&& (#[trigger] ids@[k]) < self@.outputs.len()
                            &&& self@.display_region(ids@[k] as int).spec_intersects(
                                region_of(pos, size),
                            )
                        }
                    &&& forall|j: int, k: int| 0 <= j < k < ids@.len() ==> ids@[j] < ids@[k]
                    &&& forall|i: int|
                        0 <= i < self@.outputs.len() && (#[trigger] self@.display_region(
                            i,
                        )).spec_intersects(region_of(pos, size)) ==> ids@.contains(i as usize)
                },
                None => forall|i: int|
                    0 <= i < self@.outputs.len() ==> !(#[trigger] self@.display_region(
                        i,
                    )).spec_intersects(region_of(pos, size)),
            },
    {
        let outputs = self.outputs();
        let query = Region {
            position: Position { x: pos.0, y: pos.1 },
            size: Size { width: size.0, height: size.1 },
        };
        let mut ids: Vec<usize> = Vec::new();
        let mut i: usize = 0;
        while i < outputs.len()
            invariant
                i <= outputs@.len(),
                outputs@.len() == self@.outputs.len(),
                query == region_of(pos, size),
                forall|k: int| 0 <= k < outputs@.len() ==> (#[trigger] outputs@[k])@ == self@.outputs[k],
                ids@ == displays_meeting(self@.outputs.take(i as int), query),
            decreases outputs@.len() - i,
        {
            proof {
                assert(outputs@[i as int]@ == self@.outputs[i as int]);
                assert(self@.outputs.take(i + 1).drop_last() =~= self@.outputs.take(i as int));
                assert(self@.outputs.take(i + 1).last() == self@.outputs[i as int]);
            }
            if outputs[i].logical_region().intersects(query) {
                ids.push(i);
            }
            i += 1;
        }
        proof {
            assert(self@.outputs.take(i as int) =~= self@.outputs);
            lemma_displays_meeting(self@.outputs, query);
        }
        if ids.len() == 0 {
            None
        } else {
            Some(ids)
        }
    }

    /// Where the point `pos` of the global coordinate space lies on the
    /// output `id`, counted from that output's top left corner.
    pub fn get_pos_from_screen(&self, pos: (i32, i32), id: usize) -> (r: (i32, i32))
        requires
            id < self@.outputs.len(),
            i32::MIN <= pos.0 - self@.outputs[id as int].position.x <= i32::MAX,
            i32::MIN <= pos.1 - self@.outputs[id as int].position.y <= i32::MAX,
        ensures
            r.0 == pos.0 - self@.outputs[id as int].position.x,
            r.1 == pos.1 - self@.outputs[id as int].position.y,
    {
        let outputs = self.outputs();
        assert(outputs@[id as int]@ == self@.outputs[id as int]);
        (pos.0 - outputs[id].position.x, pos.1 - outputs[id].position.y)
    }

    /// The text that describes every output to a reader: five lines each.
    pub fn display_info(&self) -> (r: String)
        ensures
            r@ == info_text(self@.outputs),
    {
        let outputs = self.outputs();
        let mut text = String::new();
        let mut i: usize = 0;
        while i < outputs.len()
            invariant
                i <= outputs@.len(),
                outputs@.len() == self@.outputs.len(),
                forall|k: int| 0 <= k < outputs@.len() ==> (#[trigger] outputs@[k])@ == self@.outputs[k],
                text@ == info_text(self@.outputs.take(i as int)),
            decreases outputs@.len() - i,
        {
            proof {
                assert(outputs@[i as int]@ == self@.outputs[i as int]);
                assert(self@.outputs.take(i + 1).drop_last() =~= self@.outputs.take(i as int));
                assert(self@.outputs.take(i + 1).last() == self@.outputs[i as int]);
            }
            append_output_info(&mut text, &outputs[i]);
            i += 1;
        }
        assert(self@.outputs.take(i as int) =~= self@.outputs);
        text
    }
}

/// Appends a line that shows two numbers to `text`.
fn append_pair_line(text: &mut String, label: &str, first: i32, separator: &str, second: i32)
    ensures
        final(text)@ == old(text)@ + pair_line(label@, first as int, separator@, second as int),
{
    text.append(label);
    text.append(signed_decimal(first).as_str());
    text.append(separator);
    text.append(signed_decimal(second).as_str());
    text.append("\n");
    assert(text@ =~= old(text)@ + pair_line(label@, first as int, separator@, second as int));
}

/// Appends the line that names an output to `text`.
fn append_name_line(text: &mut String, name: &str, description: &str)
    ensures
        final(text)@ == old(text)@ + name@ + ", "@ + description@ + "\n"@,
{
    text.append(name);
    text.append(", ");
    text.append(description);
    text.append("\n");
    assert(text@ =~= old(text)@ + name@ + ", "@ + description@ + "\n"@);
}

/// Appends the line that shows the scale of an output to `text`.
fn append_scale_line(text: &mut String, scale: i32)
    ensures
        final(text)@ == old(text)@ + "    Scale: "@ + signed_decimal_digits(scale as int) + "\n"@,
{
    text.append("    Scale: ");
    text.append(signed_decimal(scale).as_str());
    text.append("\n");
    assert(text@ =~= old(text)@ + "    Scale: "@ + signed_decimal_digits(scale as int) + "\n"@);
}

/// Appends the five lines that describe `info` to `text`.
fn append_output_info(text: &mut String, info: &WlOutputInfo)
    ensures
        final(text)@ == old(text)@ + info@.info_text(),
{
    append_name_line(text, info.name.as_str(), info.description.as_str());
    append_pair_line(text, "    Size: ", info.size.width, ",", info.size.height);
    append_pair_line(
        text,
        "    LogicSize: ",
        info.logical_size.width,
        ", ",
        info.logical_size.height,
    );
    append_pair_line(text, "    Position: ", info.position.x, ", ", info.position.y);
    append_scale_line(text, info.scale);
    assert(text@ =~= old(text)@ + info@.info_text());
}

} // verus!
