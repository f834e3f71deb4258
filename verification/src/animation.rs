//! The animation: how many points of the curve a frame reveals, and what a
//! frame draws.

use vstd::prelude::*;
use crate::curve::{is_curve, sample_curve};
use crate::geometry::{Point, Rect};

verus! {

/// Number of points of the curve that an animation samples.
pub const POINT_COUNT: u32 = 200;

/// Margin between the canvas and the extent of the curve.
pub const PADDING: i32 = 50;

/// How far before the width and the height of the canvas the axes end.
pub const AXIS_OFFSET: i64 = 30;

/// Distance of an axis label from its axis.
pub const LABEL_OFFSET: i64 = 15;

/// Font size of the axis labels.
pub const LABEL_FONT_SIZE: u32 = 16;

/// Stroke weight of the axes.
pub const AXIS_STROKE_WEIGHT: u32 = 1;

/// Stroke weight of the curve.
pub const CURVE_STROKE_WEIGHT: u32 = 2;

/// Number of frames that pass for each point revealed.
pub const FRAMES_PER_POINT: u64 = 2;

/// The colours that a frame uses.
#[derive(Clone, Copy, Debug, PartialEq, Eq)]
pub enum Color {
    White,
    Gray,
    Black,
    Red,
}

/// A straight line segment to draw.
#[derive(Clone, Copy, Debug, PartialEq, Eq)]
pub struct Line {
    pub start: Point,
    pub end: Point,
    pub color: Color,
    pub stroke_weight: u32,
}

/// A short text to draw, centred at `position`.
#[derive(Clone, Copy, Debug, PartialEq, Eq)]
pub struct Label {
    pub text: &'static str,
    pub position: Point,
    pub color: Color,
    pub font_size: u32,
}

/// What is drawn once, beneath everything else: the cleared background, the
/// two positive axes and their labels.
#[derive(Clone, Copy, Debug, PartialEq, Eq)]
pub struct Backdrop {
    pub background: Color,
    pub x_axis: Line,
    pub y_axis: Line,
    pub x_label: Label,
    pub y_label: Label,
}

/// What one frame draws, in drawing order: the backdrop, where the frame has
/// one, then the segments of the curve.
#[derive(Debug, PartialEq, Eq)]
pub struct FrameCommands {
    pub backdrop: Option<Backdrop>,
    pub curve: Vec<Line>,
}

/// Number of points revealed once `elapsed_frames` frames have passed, for a
/// curve of `curve_length` points: one point every `FRAMES_PER_POINT` frames,
/// and never more than the curve has.
pub open spec fn reveal_index_at(elapsed_frames: nat, curve_length: nat) -> nat {
    let paced = elapsed_frames / (FRAMES_PER_POINT as nat);
    if paced <= curve_length {
        paced
    } else {
        curve_length
    }
}

/// Number of segments that join `revealed` consecutive points.
pub open spec fn segment_count(revealed: nat) -> nat {
    if revealed == 0 {
        0
    } else {
        (revealed - 1) as nat
    }
}

/// The segment of the curve from point `i` to point `i + 1`.
pub open spec fn curve_segment(points: Seq<Point>, i: int) -> Line {
    Line {
        start: points[i],
        end: points[i + 1],
        color: Color::Red,
        stroke_weight: CURVE_STROKE_WEIGHT,
    }
}

/// The segments that join the first `revealed` points of the curve, in order.
pub open spec fn curve_lines(points: Seq<Point>, revealed: nat) -> Seq<Line> {
    Seq::new(segment_count(revealed), |i: int| curve_segment(points, i))
}

/// `line` runs from `(start_x, start_y)` to `(end_x, end_y)` in `color`, with
/// the stroke weight of an axis.
pub open spec fn is_thin_line(
    line: Line,
    start_x: int,
    start_y: int,
    end_x: int,
    end_y: int,
    color: Color,
) -> bool {
    &&& line.start.is_at(start_x, start_y)
    &&& line.end.is_at(end_x, end_y)
    &&& line.color == color
    &&& line.stroke_weight == AXIS_STROKE_WEIGHT
}

/// `label` shows `text` in black at `(x, y)`.
pub open spec fn is_axis_label(label: Label, text: Seq<char>, x: int, y: int) -> bool {
    &&& label.text@ == text
    &&& label.position.is_at(x, y)
    &&& label.color == Color::Black
    &&& label.font_size == LABEL_FONT_SIZE
}

/// `backdrop` is the backdrop of `canvas`: a white background; a gray axis from
/// the origin along each positive direction, ending `AXIS_OFFSET` before the
/// width, respectively the height, of the canvas; and the labels "X" and "Y"
/// beside the ends of their axes.
pub open spec fn is_backdrop(backdrop: Backdrop, canvas: Rect) -> bool {
    &&& backdrop.background == Color::White
    &&& is_thin_line(backdrop.x_axis, 0, 0, canvas.width() - AXIS_OFFSET, 0, Color::Gray)
    &&& is_thin_line(backdrop.y_axis, 0, 0, 0, canvas.height() - AXIS_OFFSET, Color::Gray)
    &&& is_axis_label(
        backdrop.x_label,
        "X"@,
        canvas.width() - AXIS_OFFSET,
        LABEL_OFFSET as int,
    )
    &&& is_axis_label(
        backdrop.y_label,
        "Y"@,
        LABEL_OFFSET as int,
        canvas.height() - AXIS_OFFSET,
    )
}

/// Only the first frame draws the backdrop.
pub open spec fn draws_backdrop(frame_index: nat) -> bool {
    frame_index == 0
}

/// Number of frames among the first `frames` that draw the backdrop.
pub open spec fn backdrops_drawn(frames: nat) -> nat
    decreases frames,
{
    if frames == 0 {
        0
    } else {
        backdrops_drawn((frames - 1) as nat) + if draws_backdrop((frames - 1) as nat) {
            1nat
        } else {
            0nat
        }
    }
}

/// The reveal index never exceeds the length of the curve, starts at zero, and
/// never decreases as frames pass.
pub proof fn lemma_reveal_index_monotonic(earlier: nat, later: nat, curve_length: nat)
    requires
        earlier <= later,
    ensures
        reveal_index_at(0, curve_length) == 0,
        reveal_index_at(earlier, curve_length) <= reveal_index_at(later, curve_length),
        reveal_index_at(later, curve_length) <= curve_length,
{
}

/// With no point revealed a frame draws no segment of the curve; with
/// `revealed >= 1` points revealed it draws exactly `revealed - 1`.
pub proof fn lemma_segments_drawn(points: Seq<Point>, revealed: nat)
    ensures
        revealed == 0 ==> curve_lines(points, revealed).len() == 0,
        revealed >= 1 ==> curve_lines(points, revealed).len() == revealed - 1,
{
}

/// However many frames are drawn, from the first frame on, the backdrop is
/// drawn exactly once.
pub proof fn lemma_backdrop_drawn_once(frames: nat)
    requires
        frames >= 1,
    ensures
        backdrops_drawn(frames) == 1,
    decreases frames,
{
    if frames == 1 {
        assert(backdrops_drawn(0) == 0);
    } else {
        lemma_backdrop_drawn_once((frames - 1) as nat);
    }
}

/// Number of points revealed once `elapsed_frames` frames have passed.
pub fn reveal_index(elapsed_frames: u64, curve_length: usize) -> (index: usize)
    ensures
        index == reveal_index_at(elapsed_frames as nat, curve_length as nat),
        index <= curve_length,
{
    let paced: u64 = elapsed_frames / FRAMES_PER_POINT;
    if paced <= curve_length as u64 {
        paced as usize
    } else {
        curve_length
    }
}

/// A line from `(start_x, start_y)` to `(end_x, end_y)` in `color`, as thin as
/// an axis.
pub fn draw_line(start_x: i64, start_y: i64, end_x: i64, end_y: i64, color: Color) -> (line: Line)
    ensures
        is_thin_line(line, start_x as int, start_y as int, end_x as int, end_y as int, color),
{
    Line {
        start: Point::at(start_x, start_y),
        end: Point::at(end_x, end_y),
        color,
        stroke_weight: AXIS_STROKE_WEIGHT,
    }
}

/// The backdrop of `canvas`.
pub fn backdrop(canvas: Rect) -> (b: Backdrop)
    ensures
        is_backdrop(b, canvas),
{
    let axis_end_x: i64 = canvas.w() - AXIS_OFFSET;
    let axis_end_y: i64 = canvas.h() - AXIS_OFFSET;
    Backdrop {
        background: Color::White,
        x_axis: draw_line(0, 0, axis_end_x, 0, Color::Gray),
        y_axis: draw_line(0, 0, 0, axis_end_y, Color::Gray),
        x_label: Label {
            text: "X",
            position: Point::at(axis_end_x, LABEL_OFFSET),
            color: Color::Black,
            font_size: LABEL_FONT_SIZE,
        },
        y_label: Label {
            text: "Y",
            position: Point::at(LABEL_OFFSET, axis_end_y),
            color: Color::Black,
            font_size: LABEL_FONT_SIZE,
        },
    }
}

/// The state of an animation, as a mathematical value.
pub struct AnimationView {
    /// The points of the curve, in drawing order.
    pub points: Seq<Point>,
    /// How many leading points of the curve count as drawn.
    pub reveal_index: nat,
}

/// The curve and the number of its points revealed so far. The reveal index
/// never exceeds the length of the curve.
#[derive(Debug)]
pub struct AnimationState {
    points: Vec<Point>,
    drawn_until: usize,
}

impl View for AnimationState {
    type V = AnimationView;

    closed spec fn view(&self) -> AnimationView {
        AnimationView { points: self.points@, reveal_index: self.drawn_until as nat }
    }
}

impl AnimationState {
    #[verifier::type_invariant]
    spec fn reveal_within_curve(self) -> bool {
        self.drawn_until <= self.points@.len()
    }

    /// The animation of a curve of `POINT_COUNT` points sampled over the
    /// horizontal extent of `canvas` inset by `PADDING`, with nothing revealed.
    pub fn new(canvas: Rect) -> (state: AnimationState)
        requires
            canvas.can_pad(PADDING),
        ensures
            is_curve(
                state@.points,
                POINT_COUNT as int,
                canvas.x_start + PADDING,
                canvas.x_end - PADDING,
            ),
            state@.reveal_index == 0,
    {
        let region = canvas.pad(PADDING);
        AnimationState {
            points: sample_curve(POINT_COUNT, region.x_start, region.x_end),
            drawn_until: 0,
        }
    }

    /// The animation of the given curve, with nothing revealed.
    pub fn with_points(points: Vec<Point>) -> (state: AnimationState)
        ensures
            state@.points == points@,
            state@.reveal_index == 0,
    {
        AnimationState { points, drawn_until: 0 }
    }

    /// Sets the reveal index to what `elapsed_frames` frames reveal. The curve
    /// stays as it is.
    pub fn advance(&mut self, elapsed_frames: u64)
        ensures
            final(self)@.points == old(self)@.points,
            final(self)@.reveal_index == reveal_index_at(
                elapsed_frames as nat,
                old(self)@.points.len(),
            ),
            final(self)@.reveal_index <= final(self)@.points.len(),
    {
        self.drawn_until = reveal_index(elapsed_frames, self.points.len());
    }

    /// What frame number `frame_index` draws on `canvas`: the backdrop on the
    /// first frame and on no other, then the segments between the revealed
    /// points of the curve.
    pub fn render(&self, frame_index: u64, canvas: Rect) -> (commands: FrameCommands)
        ensures
            draws_backdrop(frame_index as nat) ==> (commands.backdrop matches Some(b)
                && is_backdrop(b, canvas)),
            !draws_backdrop(frame_index as nat) ==> commands.backdrop is None,
            commands.curve@ == curve_lines(self@.points, self@.reveal_index),
            commands.curve@.len() == segment_count(self@.reveal_index),
    {
        proof {
            use_type_invariant(self);
        }
        let first: Option<Backdrop> = if frame_index == 0 {
            Some(backdrop(canvas))
        } else {
            None
        };
        let segments: usize = self.drawn_until.saturating_sub(1);
        let mut curve: Vec<Line> = Vec::new();
        let mut i: usize = 0;
        while i < segments
            invariant
                i <= segments,
                segments == segment_count(self.drawn_until as nat),
                self.drawn_until <= self.points@.len(),
                curve@.len() == i,
                forall|k: int| 0 <= k < i ==> #[trigger] curve@[k] == curve_segment(self.points@, k),
            decreases segments - i,
        {
            curve.push(
                Line {
                    start: self.points[i],
                    end: self.points[i + 1],
                    color: Color::Red,
                    stroke_weight: CURVE_STROKE_WEIGHT,
                },
            );
            i = i + 1;
        }
        assert(curve@ =~= curve_lines(self@.points, self@.reveal_index));
        FrameCommands { backdrop: first, curve }
    }

    /// The points of the curve.
    pub fn points(&self) -> (points: &Vec<Point>)
        ensures
            points@ == self@.points,
    {
        &self.points
    }

    /// How many leading points of the curve count as drawn.
    pub fn reveal_index(&self) -> (index: usize)
        ensures
            index == self@.reveal_index,
            index <= self@.points.len(),
    {
        proof {
            use_type_invariant(self);
        }
        self.drawn_until
    }
}

} // verus!
