use vstd::prelude::*;
use vstd::string::StringExecFns;

use crate::units::ChartUnits;

verus! {

/// Number of colours in the chart palette.
pub const PALETTE_LEN: usize = 7;

pub open spec fn palette() -> Seq<Seq<char>> {
    seq![
        "#99c1f1"@,
        "#8ff0a4"@,
        "#f9f06b"@,
        "#ffbe6f"@,
        "#f66151"@,
        "#dc8add"@,
        "#cdab8f"@,
    ]
}

/// Colour of the chart created in position `index`: the palette is used
/// round-robin.
pub fn palette_colour(index: usize) -> (r: &'static str)
    ensures
        r@ == palette()[(index % PALETTE_LEN) as int],
{
    match index % PALETTE_LEN {
        0 => "#99c1f1",
        1 => "#8ff0a4",
        2 => "#f9f06b",
        3 => "#ffbe6f",
        4 => "#f66151",
        5 => "#dc8add",
        _ => "#cdab8f",
    }
}

/// One named series: its samples in the order they were collected, and how
/// it is displayed. `P` is the sample type.
#[derive(Clone, Debug)]
pub struct Chart<P> {
    pub name: String,
    pub points: Vec<P>,
    pub units: ChartUnits,
    pub smooth: bool,
    pub colour: String,
}

impl<P> Chart<P> {
    /// A chart with no samples yet.
    pub fn new(name: String, units: ChartUnits, smooth: bool, colour: String) -> (r: Self)
        ensures
            r.name == name,
            r.points@.len() == 0,
            r.units == units,
            r.smooth == smooth,
            r.colour == colour,
    {
        Chart { name, points: Vec::new(), units, smooth, colour }
    }

    /// Appends a sample after all earlier ones; nothing else changes.
    pub fn add_point(&mut self, point: P)
        ensures
            final(self).points@ == old(self).points@.push(point),
            final(self).name == old(self).name,
            final(self).units == old(self).units,
            final(self).smooth == old(self).smooth,
            final(self).colour == old(self).colour,
    {
        self.points.push(point);
    }

    /// Whether the chart has too few samples to draw a line: it is then
    /// rendered as a placeholder, whatever the requested size.
    pub fn needs_placeholder(&self) -> (r: bool)
        ensures
            r == (self.points@.len() <= 1),
    {
        self.points.len() <= 1
    }
}

/// Fixed top, bottom and right margin of the plot area, in pixels.
pub const MARGIN: u64 = 50;

/// Width in pixels assumed for one character of an axis label.
pub const CHAR_WIDTH: u64 = 9;

/// Smallest left margin, in pixels.
pub const MIN_LEFT: u64 = 50;

pub open spec fn label_room(len: int) -> int {
    len * CHAR_WIDTH + 5
}

pub open spec fn max3(a: int, b: int, c: int) -> int {
    if a >= b && a >= c {
        a
    } else if b >= c {
        b
    } else {
        c
    }
}

/// Placement of the plot area inside the picture.
#[derive(Clone, Copy, Debug, PartialEq, Eq, Structural)]
pub struct Frame {
    /// Left margin: room for the longer of the two axis labels.
    pub p_left: u64,
    /// Top, bottom and right margin.
    pub p_other: u64,
    /// Width of the plot area (negative where the picture is too narrow).
    pub width: i128,
    /// Height of the plot area (negative where the picture is too low).
    pub height: i128,
}

/// Layout of a picture of `width` by `height` pixels whose vertical axis is
/// labelled with texts of `max_label_len` and `min_label_len` characters.
pub fn plot_frame(width: usize, height: usize, max_label_len: usize, min_label_len: usize) -> (r:
    Frame)
    requires
        max_label_len <= u32::MAX,
        min_label_len <= u32::MAX,
    ensures
        r.p_left == max3(label_room(max_label_len as int), label_room(min_label_len as int), 50),
        r.p_other == 50,
        r.width == width - r.p_left - 50,
        r.height == height - 100,
{
    let max_room: u64 = max_label_len as u64 * CHAR_WIDTH + 5;
    let min_room: u64 = min_label_len as u64 * CHAR_WIDTH + 5;
    let p_left: u64 = if max_room >= min_room && max_room >= MIN_LEFT {
        max_room
    } else if min_room >= MIN_LEFT {
        min_room
    } else {
        MIN_LEFT
    };
    Frame {
        p_left,
        p_other: MARGIN,
        width: width as i128 - p_left as i128 - MARGIN as i128,
        height: height as i128 - 2 * MARGIN as i128,
    }
}

/// The path commands written one after the other.
pub open spec fn joined(parts: Seq<Seq<char>>) -> Seq<char>
    decreases parts.len(),
{
    if parts.len() == 0 {
        Seq::empty()
    } else {
        joined(parts.drop_last()) + parts.last()
    }
}

/// Concatenates the rendered path commands, in order, into one path.
pub fn join_commands(parts: &Vec<String>) -> (r: String)
    ensures
        r@ == joined(parts@.map_values(|s: String| s@)),
{
    let ghost views = parts@.map_values(|s: String| s@);
    let mut res = String::new();
    let mut i: usize = 0;
    while i < parts.len()
        invariant
            i <= parts@.len(),
            views == parts@.map_values(|s: String| s@),
            res@ == joined(views.take(i as int)),
        decreases parts@.len() - i,
    {
        res.append(parts[i].as_str());
        proof {
            assert(views.take(i + 1).drop_last() =~= views.take(i as int));
        }
        i = i + 1;
    }
    proof {
        assert(views.take(parts@.len() as int) =~= views);
    }
    res
}

} // verus!
