//! The annotation state machine.
//!
//! `Painting` turns pointer gestures into persisted vector shapes: freehand
//! lines, arrows, circles, squares and text anchors. A gesture is a
//! press/release pair; while one of its endpoints is still missing the
//! pending coordinate holds the `(-1, -1)` sentinel. Finished shapes are kept
//! in per-kind lists, and an undo stack records the order in which kinds were
//! added. Outputs convert panel coordinates to source-image pixels through
//! the stored shift and scale factors.

use vstd::prelude::*;
use vstd::string::*;
use crate::geometry::{
    Point, Scale, IRect, point_in_range, scale_wf, spec_unset, spec_rect_contains,
    rect_in_range, spec_to_image_point, to_image_point, scale_apply, unset_point,
    spec_rect_from_points, scale_apply_bounds, COORD_BOUND,
};

verus! {

/// The kinds of annotation a pointer gesture can produce.
#[derive(Clone, Copy, Debug, PartialEq, Eq, Structural)]
pub enum PpOptions {
    Arrow,
    Circle,
    Square,
    Text,
    Painting,
}

/// An RGBA color, eight bits a channel.
#[derive(Clone, Copy, Debug, PartialEq, Eq, Structural)]
pub struct Color {
    pub r: u8,
    pub g: u8,
    pub b: u8,
    pub a: u8,
}

/// A stroke: a width in whole points and a color.
#[derive(Clone, Copy, Debug, PartialEq, Eq, Structural)]
pub struct Stroke {
    pub width: u32,
    pub color: Color,
}

impl Color {
    pub fn new(r: u8, g: u8, b: u8, a: u8) -> (c: Color)
        ensures
            c == (Color { r, g, b, a }),
    {
        Color { r, g, b, a }
    }
}

impl Stroke {
    pub fn new(width: u32, color: Color) -> (s: Stroke)
        ensures
            s == (Stroke { width, color }),
    {
        Stroke { width, color }
    }
}

/// A point that has been set: neither coordinate still holds the sentinel
/// value. The front end tests the two coordinates separately, so this is not
/// the negation of `spec_unset`.
pub open spec fn spec_set(p: Point) -> bool {
    p.x != -1 && p.y != -1
}

/// `x` if nonnegative, else `-x`.
pub open spec fn spec_abs(x: int) -> int {
    if x >= 0 {
        x
    } else {
        -x
    }
}

/// Every point of the sequence is in the model's range.
pub open spec fn pts_in_range(s: Seq<Point>) -> bool {
    forall|j: int| 0 <= j < s.len() ==> point_in_range(#[trigger] s[j])
}

/// How many entries of the undo stack have kind `k`.
pub open spec fn count_kind(s: Seq<PpOptions>, k: PpOptions) -> nat
    decreases s.len(),
{
    if s.len() == 0 {
        0
    } else {
        count_kind(s.drop_last(), k) + if s.last() == k { 1nat } else { 0nat }
    }
}

/// Pushing one entry on the undo stack raises exactly that kind's count.
pub proof fn lemma_count_kind_push(s: Seq<PpOptions>, pushed: PpOptions)
    ensures
        forall|k: PpOptions|
            count_kind(s.push(pushed), k) == count_kind(s, k) + if pushed == k {
                1nat
            } else {
                0nat
            },
{
    assert forall|k: PpOptions|
        count_kind(s.push(pushed), k) == count_kind(s, k) + if pushed == k {
            1nat
        } else {
            0nat
        } by {
        assert(s.push(pushed).drop_last() =~= s);
        assert(s.push(pushed).last() == pushed);
    }
}

/// The pending endpoint a press event leaves behind: the position where the
/// pointer went down, if it went down inside the canvas while no endpoint
/// was pending yet.
pub open spec fn press_result(
    pending: Point,
    any_pressed: bool,
    pos: Option<Point>,
    rect: IRect,
) -> Point {
    if any_pressed && pos is Some && spec_rect_contains(rect, pos.unwrap()) && spec_unset(pending) {
        pos.unwrap()
    } else {
        pending
    }
}

/// The closing endpoint a release event leaves behind: the position where
/// the pointer went up, if it went up inside the canvas while the opening
/// endpoint was set and the closing one was not.
pub open spec fn release_result(
    pending: Point,
    opening: Point,
    any_released: bool,
    pos: Option<Point>,
    rect: IRect,
) -> Point {
    if any_released && pos is Some && spec_rect_contains(rect, pos.unwrap()) && spec_unset(pending)
        && spec_set(opening) {
        pos.unwrap()
    } else {
        pending
    }
}

/// What one frame of the freehand-line gesture does to the line list: make
/// sure a current line exists, append the pointer position to it while the
/// pointer is down (skipping an exact repeat), and open a fresh line when
/// the pointer lifts off a non-empty one. The flag says whether anything
/// changed.
pub open spec fn line_gesture_spec(
    lines: Seq<(Seq<Point>, Stroke)>,
    stroke: Stroke,
    pointer: Option<Point>,
) -> (Seq<(Seq<Point>, Stroke)>, bool) {
    let base = if lines.len() == 0 {
        lines.push((Seq::<Point>::empty(), stroke))
    } else {
        lines
    };
    let cur = base.last();
    match pointer {
        Some(p) => if cur.0.len() == 0 || cur.0.last() != p {
            (base.update(base.len() - 1, (cur.0.push(p), cur.1)), true)
        } else {
            (base, false)
        },
        None => if cur.0.len() > 0 {
            (base.push((Seq::<Point>::empty(), stroke)), true)
        } else {
            (base, false)
        },
    }
}

/// `wf_shapes` carries over between two states whose shape lists are equal.
proof fn lemma_wf_shapes_same_lists(a: Painting, b: Painting)
    requires
        a.wf_shapes(),
        b.lines_field_view() == a.lines_field_view(),
        b.arrows_field_view() == a.arrows_field_view(),
        b.circles_field_view() == a.circles_field_view(),
        b.squares_field_view() == a.squares_field_view(),
        b.texts_field_view() == a.texts_field_view(),
    ensures
        b.wf_shapes(),
{
}

/// `wf_shapes` survives pushing one in-range arrow.
proof fn lemma_wf_shapes_push_arrow(a: Painting, b: Painting, el: (Point, Point, Stroke))
    requires
        a.wf_shapes(),
        b.lines_field_view() == a.lines_field_view(),
        b.circles_field_view() == a.circles_field_view(),
        b.squares_field_view() == a.squares_field_view(),
        b.texts_field_view() == a.texts_field_view(),
        b.arrows_field_view() == a.arrows_field_view().push(el),
        point_in_range(el.0),
        point_in_range(el.1),
    ensures
        b.wf_shapes(),
{
    assert forall|i: int| 0 <= i < b.arrows_field_view().len() implies
        point_in_range(#[trigger] b.arrows_field_view()[i].0) && point_in_range(
        b.arrows_field_view()[i].1,
    ) by {
        if i < a.arrows_field_view().len() {
            assert(b.arrows_field_view()[i] == a.arrows_field_view()[i]);
            assert(point_in_range(a.arrows_field_view()[i].0));
        } else {
            assert(b.arrows_field_view()[i] == el);
        }
    }
}

/// `wf_shapes` survives pushing one in-range circle.
proof fn lemma_wf_shapes_push_circle(a: Painting, b: Painting, el: (Point, i64, Stroke))
    requires
        a.wf_shapes(),
        b.lines_field_view() == a.lines_field_view(),
        b.arrows_field_view() == a.arrows_field_view(),
        b.squares_field_view() == a.squares_field_view(),
        b.texts_field_view() == a.texts_field_view(),
        b.circles_field_view() == a.circles_field_view().push(el),
        point_in_range(el.0),
        0 <= el.1 <= 2 * COORD_BOUND,
    ensures
        b.wf_shapes(),
{
    assert forall|i: int| 0 <= i < b.circles_field_view().len() implies
        point_in_range(#[trigger] b.circles_field_view()[i].0) && 0 <= b.circles_field_view()[i].1
            <= 2 * COORD_BOUND by {
        if i < a.circles_field_view().len() {
            assert(b.circles_field_view()[i] == a.circles_field_view()[i]);
            assert(point_in_range(a.circles_field_view()[i].0));
        } else {
            assert(b.circles_field_view()[i] == el);
        }
    }
}

/// `wf_shapes` survives pushing one in-range square.
proof fn lemma_wf_shapes_push_square(a: Painting, b: Painting, el: (IRect, Stroke))
    requires
        a.wf_shapes(),
        b.lines_field_view() == a.lines_field_view(),
        b.arrows_field_view() == a.arrows_field_view(),
        b.circles_field_view() == a.circles_field_view(),
        b.texts_field_view() == a.texts_field_view(),
        b.squares_field_view() == a.squares_field_view().push(el),
        point_in_range(el.0.min),
        point_in_range(el.0.max),
    ensures
        b.wf_shapes(),
{
    assert forall|i: int| 0 <= i < b.squares_field_view().len() implies
        point_in_range(#[trigger] b.squares_field_view()[i].0.min) && point_in_range(
        b.squares_field_view()[i].0.max,
    ) by {
        if i < a.squares_field_view().len() {
            assert(b.squares_field_view()[i] == a.squares_field_view()[i]);
            assert(point_in_range(a.squares_field_view()[i].0.min));
        } else {
            assert(b.squares_field_view()[i] == el);
        }
    }
}

/// `wf_shapes` survives pushing one in-range text.
proof fn lemma_wf_shapes_push_text(a: Painting, b: Painting, el: (String, Point, Point, Stroke))
    requires
        a.wf_shapes(),
        b.lines_field_view() == a.lines_field_view(),
        b.arrows_field_view() == a.arrows_field_view(),
        b.circles_field_view() == a.circles_field_view(),
        b.squares_field_view() == a.squares_field_view(),
        b.texts_field_view() == a.texts_field_view().push(el),
        point_in_range(el.1),
        point_in_range(el.2),
    ensures
        b.wf_shapes(),
{
    assert forall|i: int| 0 <= i < b.texts_field_view().len() implies
        point_in_range(#[trigger] b.texts_field_view()[i].1) && point_in_range(
        b.texts_field_view()[i].2,
    ) by {
        if i < a.texts_field_view().len() {
            assert(b.texts_field_view()[i] == a.texts_field_view()[i]);
            assert(point_in_range(a.texts_field_view()[i].1));
        } else {
            assert(b.texts_field_view()[i] == el);
        }
    }
}

/// The deep view of a list of lines: each point list abstracted to a
/// sequence.
pub open spec fn view_line_list(v: Seq<(Vec<Point>, Stroke)>) -> Seq<(Seq<Point>, Stroke)> {
    v.map_values(|l: (Vec<Point>, Stroke)| (l.0@, l.1))
}

/// The first `n` lines, keeping only those with at least two points: what
/// is worth rendering as a polyline.
pub open spec fn renderable_prefix(
    lines: Seq<(Seq<Point>, Stroke)>,
    n: int,
) -> Seq<(Seq<Point>, Stroke)>
    decreases n,
{
    if n <= 0 {
        Seq::empty()
    } else {
        let prev = renderable_prefix(lines, n - 1);
        if lines[n - 1].0.len() >= 2 {
            prev.push(lines[n - 1])
        } else {
            prev
        }
    }
}

/// The lines with at least two points, in order.
pub open spec fn spec_renderable_lines(
    lines: Seq<(Seq<Point>, Stroke)>,
) -> Seq<(Seq<Point>, Stroke)> {
    renderable_prefix(lines, lines.len() as int)
}

/// Where the head of an arrow lands in image coordinates: the scaled tail
/// plus the scaled drag vector.
pub open spec fn spec_arrow_tip(a: Point, b: Point, shift: Point, sx: Scale, sy: Scale) -> Point {
    let o = spec_to_image_point(a, shift, sx, sy);
    Point {
        x: (o.x + scale_apply(b.x - a.x, sx.num as int, sx.den as int)) as i64,
        y: (o.y + scale_apply(b.y - a.y, sy.num as int, sy.den as int)) as i64,
    }
}

pub struct Painting {
    last_type_added: Vec<PpOptions>,

    mult_factor: Option<(Scale, Scale)>,
    lines: Vec<(Vec<Point>, Stroke)>,
    lines_stroke: Stroke,

    starting_point: Point,
    final_point: Point,
    arrows: Vec<(Point, Point, Stroke)>,
    arrows_stroke: Stroke,

    circle_center: Point,
    radius: i64,
    circles: Vec<(Point, i64, Stroke)>,
    circles_stroke: Stroke,

    square_starting_point: Point,
    square_ending_point: Point,
    squares_stroke: Stroke,
    squares: Vec<(IRect, Stroke)>,
    shift_squares: Option<Point>,

    text_starting_position: Point,
    text_ending_position: Point,
    texts_stroke: Stroke,
    texts: Vec<(String, Point, Point, Stroke)>,
    to_write_text: String,
    ready_to_write: bool,
}

impl Painting {
    /// The lines with each point list abstracted to a sequence.
    pub closed spec fn lines_view(self) -> Seq<(Seq<Point>, Stroke)> {
        self.lines@.map_values(|l: (Vec<Point>, Stroke)| (l.0@, l.1))
    }

    pub closed spec fn arrows_view(self) -> Seq<(Point, Point, Stroke)> {
        self.arrows@
    }

    pub closed spec fn circles_view(self) -> Seq<(Point, i64, Stroke)> {
        self.circles@
    }

    pub closed spec fn squares_view(self) -> Seq<(IRect, Stroke)> {
        self.squares@
    }

    pub closed spec fn texts_view(self) -> Seq<(Seq<char>, Point, Point, Stroke)> {
        self.texts@.map_values(|t: (String, Point, Point, Stroke)| (t.0@, t.1, t.2, t.3))
    }

    pub closed spec fn undo_stack_view(self) -> Seq<PpOptions> {
        self.last_type_added@
    }

    spec fn lines_field_view(self) -> Seq<(Vec<Point>, Stroke)> {
        self.lines@
    }

    spec fn arrows_field_view(self) -> Seq<(Point, Point, Stroke)> {
        self.arrows@
    }

    spec fn circles_field_view(self) -> Seq<(Point, i64, Stroke)> {
        self.circles@
    }

    spec fn squares_field_view(self) -> Seq<(IRect, Stroke)> {
        self.squares@
    }

    spec fn texts_field_view(self) -> Seq<(String, Point, Point, Stroke)> {
        self.texts@
    }

    pub closed spec fn spec_mult_factor(self) -> Option<(Scale, Scale)> {
        self.mult_factor
    }

    pub closed spec fn spec_shift(self) -> Option<Point> {
        self.shift_squares
    }

    pub closed spec fn spec_starting_point(self) -> Point {
        self.starting_point
    }

    pub closed spec fn spec_final_point(self) -> Point {
        self.final_point
    }

    pub closed spec fn spec_circle_center(self) -> Point {
        self.circle_center
    }

    pub closed spec fn spec_radius(self) -> int {
        self.radius as int
    }

    pub closed spec fn spec_square_start(self) -> Point {
        self.square_starting_point
    }

    pub closed spec fn spec_square_end(self) -> Point {
        self.square_ending_point
    }

    pub closed spec fn spec_text_start(self) -> Point {
        self.text_starting_position
    }

    pub closed spec fn spec_text_end(self) -> Point {
        self.text_ending_position
    }

    pub closed spec fn spec_ready_to_write(self) -> bool {
        self.ready_to_write
    }

    pub closed spec fn spec_to_write_text(self) -> Seq<char> {
        self.to_write_text@
    }

    pub closed spec fn spec_lines_stroke(self) -> Stroke {
        self.lines_stroke
    }

    pub closed spec fn spec_arrows_stroke(self) -> Stroke {
        self.arrows_stroke
    }

    pub closed spec fn spec_circles_stroke(self) -> Stroke {
        self.circles_stroke
    }

    pub closed spec fn spec_squares_stroke(self) -> Stroke {
        self.squares_stroke
    }

    pub closed spec fn spec_texts_stroke(self) -> Stroke {
        self.texts_stroke
    }

    /// Every coordinate a shape list or a pending endpoint holds stays in
    /// the model's range, and the undo stack counts exactly the finished
    /// shapes of each kind.
    /// The undo stack counts exactly the finished shapes of each kind.
    pub closed spec fn wf_counts(self) -> bool {
        &&& self.arrows@.len() == count_kind(self.last_type_added@, PpOptions::Arrow)
        &&& self.circles@.len() == count_kind(self.last_type_added@, PpOptions::Circle)
        &&& self.squares@.len() == count_kind(self.last_type_added@, PpOptions::Square)
        &&& self.texts@.len() == count_kind(self.last_type_added@, PpOptions::Text)
        &&& count_kind(self.last_type_added@, PpOptions::Painting) == 0
    }

    /// Every coordinate a finished shape holds stays in the model's range.
    pub closed spec fn wf_shapes(self) -> bool {
        &&& forall|i: int| 0 <= i < self.lines@.len() ==> pts_in_range(#[trigger] self.lines@[i].0@)
        &&& forall|i: int| 0 <= i < self.arrows@.len() ==>
                point_in_range(#[trigger] self.arrows@[i].0) && point_in_range(self.arrows@[i].1)
        &&& forall|i: int| 0 <= i < self.circles@.len() ==>
                point_in_range(#[trigger] self.circles@[i].0)
                    && 0 <= self.circles@[i].1 <= 2 * COORD_BOUND
        &&& forall|i: int| 0 <= i < self.squares@.len() ==>
                point_in_range(#[trigger] self.squares@[i].0.min)
                    && point_in_range(self.squares@[i].0.max)
        &&& forall|i: int| 0 <= i < self.texts@.len() ==>
                point_in_range(#[trigger] self.texts@[i].1) && point_in_range(self.texts@[i].2)
    }

    /// Every pending endpoint and view parameter stays in the model's range.
    pub closed spec fn wf_pending(self) -> bool {
        &&& point_in_range(self.starting_point)
        &&& point_in_range(self.final_point)
        &&& point_in_range(self.circle_center)
        &&& (self.radius == -1 || 0 <= self.radius <= 2 * COORD_BOUND)
        &&& point_in_range(self.square_starting_point)
        &&& point_in_range(self.square_ending_point)
        &&& point_in_range(self.text_starting_position)
        &&& point_in_range(self.text_ending_position)
        &&& (self.mult_factor is Some ==>
                scale_wf(self.mult_factor.unwrap().0) && scale_wf(self.mult_factor.unwrap().1))
        &&& (self.shift_squares is Some ==> point_in_range(self.shift_squares.unwrap()))
    }

    /// Every coordinate a shape list or a pending endpoint holds stays in
    /// the model's range, and the undo stack counts exactly the finished
    /// shapes of each kind.
    pub closed spec fn wf(self) -> bool {
        &&& self.wf_counts()
        &&& self.wf_shapes()
        &&& self.wf_pending()
    }
}

/// The freehand-line state of `b` equals that of `a`.
pub open spec fn lines_unchanged(a: Painting, b: Painting) -> bool {
    b.lines_view() == a.lines_view()
}

/// The arrow state of `b`, finished and pending, equals that of `a`.
pub open spec fn arrows_unchanged(a: Painting, b: Painting) -> bool {
    &&& b.arrows_view() == a.arrows_view()
    &&& b.spec_starting_point() == a.spec_starting_point()
    &&& b.spec_final_point() == a.spec_final_point()
}

/// The circle state of `b`, finished and pending, equals that of `a`.
pub open spec fn circles_unchanged(a: Painting, b: Painting) -> bool {
    &&& b.circles_view() == a.circles_view()
    &&& b.spec_circle_center() == a.spec_circle_center()
    &&& b.spec_radius() == a.spec_radius()
}

/// The square state of `b`, finished and pending, equals that of `a`.
pub open spec fn squares_unchanged(a: Painting, b: Painting) -> bool {
    &&& b.squares_view() == a.squares_view()
    &&& b.spec_square_start() == a.spec_square_start()
    &&& b.spec_square_end() == a.spec_square_end()
}

/// The text state of `b`, finished and pending, equals that of `a`.
pub open spec fn texts_unchanged(a: Painting, b: Painting) -> bool {
    &&& b.texts_view() == a.texts_view()
    &&& b.spec_text_start() == a.spec_text_start()
    &&& b.spec_text_end() == a.spec_text_end()
    &&& b.spec_ready_to_write() == a.spec_ready_to_write()
    &&& b.spec_to_write_text() == a.spec_to_write_text()
}

/// Every stroke of `b` equals the corresponding stroke of `a`.
pub open spec fn strokes_unchanged(a: Painting, b: Painting) -> bool {
    &&& b.spec_lines_stroke() == a.spec_lines_stroke()
    &&& b.spec_arrows_stroke() == a.spec_arrows_stroke()
    &&& b.spec_circles_stroke() == a.spec_circles_stroke()
    &&& b.spec_squares_stroke() == a.spec_squares_stroke()
    &&& b.spec_texts_stroke() == a.spec_texts_stroke()
}

impl Default for Painting {
    /// An empty painting: no shapes, every pending endpoint at the sentinel,
    /// every stroke one point wide in the default green, and the text box
    /// primed with a placeholder.
    fn default() -> (p: Painting)
        ensures
            p.wf(),
            p.lines_view() == Seq::<(Seq<Point>, Stroke)>::empty(),
            p.arrows_view() == Seq::<(Point, Point, Stroke)>::empty(),
            p.circles_view() == Seq::<(Point, i64, Stroke)>::empty(),
            p.squares_view() == Seq::<(IRect, Stroke)>::empty(),
            p.texts_view() == Seq::<(Seq<char>, Point, Point, Stroke)>::empty(),
            p.undo_stack_view() == Seq::<PpOptions>::empty(),
            p.spec_mult_factor() is None,
            p.spec_shift() is None,
            spec_unset(p.spec_starting_point()),
            spec_unset(p.spec_final_point()),
            spec_unset(p.spec_circle_center()),
            p.spec_radius() == -1,
            spec_unset(p.spec_square_start()),
            spec_unset(p.spec_square_end()),
            spec_unset(p.spec_text_start()),
            spec_unset(p.spec_text_end()),
            !p.spec_ready_to_write(),
            p.spec_to_write_text() == "Write something"@,
            p.spec_lines_stroke() == default_stroke(),
            p.spec_arrows_stroke() == default_stroke(),
            p.spec_circles_stroke() == default_stroke(),
            p.spec_squares_stroke() == default_stroke(),
            p.spec_texts_stroke() == default_stroke(),
    {
        let stroke = Stroke { width: 1, color: Color { r: 25, g: 200, b: 100, a: 255 } };
        let p = Painting {
            last_type_added: Vec::new(),
            mult_factor: None,
            lines: Vec::new(),
            lines_stroke: stroke,
            starting_point: unset_point(),
            final_point: unset_point(),
            arrows: Vec::new(),
            arrows_stroke: stroke,
            circle_center: unset_point(),
            radius: -1,
            circles: Vec::new(),
            circles_stroke: stroke,
            square_starting_point: unset_point(),
            square_ending_point: unset_point(),
            squares_stroke: stroke,
            squares: Vec::new(),
            shift_squares: None,
            text_starting_position: unset_point(),
            text_ending_position: unset_point(),
            texts_stroke: stroke,
            texts: Vec::new(),
            to_write_text: String::from_str("Write something"),
            ready_to_write: false,
        };
        proof {
            assert(p.lines_view() =~= Seq::<(Seq<Point>, Stroke)>::empty());
            assert(p.texts_view() =~= Seq::<(Seq<char>, Point, Point, Stroke)>::empty());
        }
        p
    }
}

/// One point wide, the default annotation green, fully opaque.
pub open spec fn default_stroke() -> Stroke {
    Stroke { width: 1, color: Color { r: 25, g: 200, b: 100, a: 255 } }
}

impl Painting {
    /// Removes the most recently finished shape: the kind on top of the undo
    /// stack says which list loses its last entry, and the stack entry goes
    /// with it.
    pub fn undo(&mut self)
        requires
            old(self).wf(),
            old(self).undo_stack_view().len() > 0,
        ensures
            final(self).wf(),
            final(self).undo_stack_view() == old(self).undo_stack_view().drop_last(),
            final(self).arrows_view() == if old(self).undo_stack_view().last() == PpOptions::Arrow {
                old(self).arrows_view().drop_last()
            } else {
                old(self).arrows_view()
            },
            final(self).circles_view() == if old(self).undo_stack_view().last()
                == PpOptions::Circle {
                old(self).circles_view().drop_last()
            } else {
                old(self).circles_view()
            },
            final(self).squares_view() == if old(self).undo_stack_view().last()
                == PpOptions::Square {
                old(self).squares_view().drop_last()
            } else {
                old(self).squares_view()
            },
            final(self).texts_view() == if old(self).undo_stack_view().last() == PpOptions::Text {
                old(self).texts_view().drop_last()
            } else {
                old(self).texts_view()
            },
            final(self).lines_view() == old(self).lines_view(),
            final(self).spec_mult_factor() == old(self).spec_mult_factor(),
            final(self).spec_shift() == old(self).spec_shift(),
            final(self).spec_starting_point() == old(self).spec_starting_point(),
            final(self).spec_final_point() == old(self).spec_final_point(),
            final(self).spec_circle_center() == old(self).spec_circle_center(),
            final(self).spec_radius() == old(self).spec_radius(),
            final(self).spec_square_start() == old(self).spec_square_start(),
            final(self).spec_square_end() == old(self).spec_square_end(),
            final(self).spec_text_start() == old(self).spec_text_start(),
            final(self).spec_text_end() == old(self).spec_text_end(),
            final(self).spec_ready_to_write() == old(self).spec_ready_to_write(),
            final(self).spec_to_write_text() == old(self).spec_to_write_text(),
            final(self).spec_lines_stroke() == old(self).spec_lines_stroke(),
            final(self).spec_arrows_stroke() == old(self).spec_arrows_stroke(),
            final(self).spec_circles_stroke() == old(self).spec_circles_stroke(),
            final(self).spec_squares_stroke() == old(self).spec_squares_stroke(),
            final(self).spec_texts_stroke() == old(self).spec_texts_stroke(),
    {
        let last_index: usize = self.last_type_added.len() - 1;
        let last = self.last_type_added[last_index];
        match last {
            PpOptions::Arrow => {
                proof {
                    assert(count_kind(self.last_type_added@, PpOptions::Arrow) > 0);
                }
                self.arrows.pop();
            },
            PpOptions::Circle => {
                proof {
                    assert(count_kind(self.last_type_added@, PpOptions::Circle) > 0);
                }
                self.circles.pop();
            },
            PpOptions::Square => {
                proof {
                    assert(count_kind(self.last_type_added@, PpOptions::Square) > 0);
                }
                self.squares.pop();
            },
            PpOptions::Text => {
                proof {
                    assert(count_kind(self.last_type_added@, PpOptions::Text) > 0);
                }
                self.texts.pop();
            },
            PpOptions::Painting => {},
        }
        self.last_type_added.pop();
        proof {
            let stack = old(self).undo_stack_view();
            assert(forall|k: PpOptions|
                count_kind(stack, k) == count_kind(stack.drop_last(), k) + if stack.last() == k {
                    1nat
                } else {
                    0nat
                });
            assert(self.lines_view() =~= old(self).lines_view());
            assert(self.undo_stack_view() =~= old(self).undo_stack_view().drop_last());
            assert(self.arrows_view() =~= if old(self).undo_stack_view().last()
                == PpOptions::Arrow {
                old(self).arrows_view().drop_last()
            } else {
                old(self).arrows_view()
            });
            assert(self.circles_view() =~= if old(self).undo_stack_view().last()
                == PpOptions::Circle {
                old(self).circles_view().drop_last()
            } else {
                old(self).circles_view()
            });
            assert(self.squares_view() =~= if old(self).undo_stack_view().last()
                == PpOptions::Square {
                old(self).squares_view().drop_last()
            } else {
                old(self).squares_view()
            });
            assert(self.texts_view() =~= if old(self).undo_stack_view().last()
                == PpOptions::Text {
                old(self).texts_view().drop_last()
            } else {
                old(self).texts_view()
            });
        }
    }
}

impl Painting {
    /// One frame of the freehand-line gesture. `pointer` is the pointer
    /// position while a drag is in progress, in panel coordinates, `None`
    /// once it lifts. Records the view parameters, keeps a current line,
    /// extends it while the pointer is down and opens a fresh one when it
    /// lifts. Returns whether the line list changed.
    #[verifier::rlimit(60)]
    pub fn line_gesture(
        &mut self,
        pointer: Option<Point>,
        rect: IRect,
        sx: Scale,
        sy: Scale,
    ) -> (changed: bool)
        requires
            old(self).wf(),
            rect_in_range(rect),
            scale_wf(sx),
            scale_wf(sy),
            pointer is Some ==> point_in_range(pointer.unwrap()),
        ensures
            final(self).wf(),
            final(self).lines_view() == line_gesture_spec(
                old(self).lines_view(),
                old(self).spec_lines_stroke(),
                pointer,
            ).0,
            changed == line_gesture_spec(
                old(self).lines_view(),
                old(self).spec_lines_stroke(),
                pointer,
            ).1,
            final(self).spec_mult_factor() == Some((sx, sy)),
            final(self).spec_shift() == Some(rect.min),
            arrows_unchanged(*old(self), *final(self)),
            circles_unchanged(*old(self), *final(self)),
            squares_unchanged(*old(self), *final(self)),
            texts_unchanged(*old(self), *final(self)),
            strokes_unchanged(*old(self), *final(self)),
            final(self).undo_stack_view() == old(self).undo_stack_view(),
    {
        self.mult_factor = Some((sx, sy));
        self.shift_squares = Some(Point { x: rect.min.x, y: rect.min.y });
        if self.lines.len() == 0 {
            let fresh: Vec<Point> = Vec::new();
            self.lines.push((fresh, self.lines_stroke));
        }
        let ghost base = self.lines_view();
        proof {
            assert(base =~~= if old(self).lines_view().len() == 0 {
                old(self).lines_view().push((Seq::<Point>::empty(), old(self).spec_lines_stroke()))
            } else {
                old(self).lines_view()
            });
        }
        let changed: bool;
        match pointer {
            Some(p) => {
                let mut cur = self.lines.pop().unwrap();
                let push_it: bool = if cur.0.len() == 0 {
                    true
                } else {
                    cur.0[cur.0.len() - 1] != p
                };
                if push_it {
                    cur.0.push(p);
                }
                self.lines.push(cur);
                changed = push_it;
                proof {
                    if push_it {
                        assert(self.lines_view() =~~= base.update(
                            base.len() - 1,
                            (base.last().0.push(p), base.last().1),
                        ));
                    } else {
                        assert(self.lines_view() =~~= base);
                    }
                }
            },
            None => {
                let li: usize = self.lines.len() - 1;
                let not_empty = self.lines[li].0.len() > 0;
                if not_empty {
                    let fresh: Vec<Point> = Vec::new();
                    self.lines.push((fresh, self.lines_stroke));
                    changed = true;
                    proof {
                        assert(self.lines_view() =~~= base.push(
                            (Seq::<Point>::empty(), old(self).spec_lines_stroke()),
                        ));
                    }
                } else {
                    changed = false;
                    proof {
                        assert(self.lines_view() =~~= base);
                    }
                }
            },
        }
        changed
    }

    /// One frame of the arrow gesture: a press inside the canvas pins the
    /// tail, a release inside the canvas pins the head, and once both are
    /// pinned the arrow joins the list, the pending endpoints return to the
    /// sentinel and the undo stack records an arrow.
    #[verifier::rlimit(60)]
    pub fn arrow_gesture(
        &mut self,
        any_pressed: bool,
        any_released: bool,
        interact: Option<Point>,
        rect: IRect,
        sx: Scale,
        sy: Scale,
    )
        requires
            old(self).wf(),
            rect_in_range(rect),
            scale_wf(sx),
            scale_wf(sy),
            interact is Some ==> point_in_range(interact.unwrap()),
        ensures
            final(self).wf(),
            ({
                let s1 = press_result(
                    old(self).spec_starting_point(),
                    any_pressed,
                    interact,
                    rect,
                );
                let f1 = release_result(
                    old(self).spec_final_point(),
                    s1,
                    any_released,
                    interact,
                    rect,
                );
                let commit = spec_set(s1) && spec_set(f1);
                &&& final(self).arrows_view() == if commit {
                    old(self).arrows_view().push((s1, f1, old(self).spec_arrows_stroke()))
                } else {
                    old(self).arrows_view()
                }
                &&& final(self).undo_stack_view() == if commit {
                    old(self).undo_stack_view().push(PpOptions::Arrow)
                } else {
                    old(self).undo_stack_view()
                }
                &&& (commit ==> spec_unset(final(self).spec_starting_point()) && spec_unset(
                    final(self).spec_final_point(),
                ))
                &&& (!commit ==> final(self).spec_starting_point() == s1 && final(self).spec_final_point() == f1)
            }),
            final(self).spec_mult_factor() == Some((sx, sy)),
            final(self).spec_shift() == Some(rect.min),
            lines_unchanged(*old(self), *final(self)),
            circles_unchanged(*old(self), *final(self)),
            squares_unchanged(*old(self), *final(self)),
            texts_unchanged(*old(self), *final(self)),
            strokes_unchanged(*old(self), *final(self)),
    {
        self.mult_factor = Some((sx, sy));
        let ghost mut committed: bool = false;
        let ghost mut pushed: (Point, Point, Stroke) = arbitrary();
        if any_pressed {
            if let Some(p) = interact {
                if rect.contains(p) && self.starting_point.is_unset() {
                    self.starting_point = p;
                }
            }
        }
        if any_released {
            if let Some(p) = interact {
                if rect.contains(p) && self.final_point.is_unset() && self.starting_point.x != -1
                    && self.starting_point.y != -1 {
                    self.final_point = p;
                }
            }
        }
        if self.final_point.x != -1 && self.final_point.y != -1 && self.starting_point.x != -1
            && self.starting_point.y != -1 {
            let ghost st = self.last_type_added@;
            let ghost el = (self.starting_point, self.final_point, self.arrows_stroke);
            self.arrows.push((self.starting_point, self.final_point, self.arrows_stroke));
            self.starting_point = unset_point();
            self.final_point = unset_point();
            self.last_type_added.push(PpOptions::Arrow);
            proof {
                lemma_count_kind_push(st, PpOptions::Arrow);
                committed = true;
                pushed = el;
                assert(point_in_range(el.0) && point_in_range(el.1));
            }
        }
        self.shift_squares = Some(Point { x: rect.min.x, y: rect.min.y });
        proof {
            assert(self.lines_view() =~~= old(self).lines_view());
            assert(self.texts_view() =~~= old(self).texts_view());
            if committed {
                lemma_wf_shapes_push_arrow(*old(self), *self, pushed);
            } else {
                lemma_wf_shapes_same_lists(*old(self), *self);
            }
            assert(self.wf_counts());
            assert(self.wf_pending());
        }
    }

    /// One frame of the circle gesture: a press inside the canvas pins the
    /// center at the pointer's interaction position, a release fixes the
    /// radius as the horizontal distance to the center, and once both are
    /// known the circle joins the list, the pending state returns to its
    /// sentinels, the undo stack records a circle and the canvas origin is
    /// remembered. `latest` is the pointer's latest position, which gates
    /// the press; `interact` is its interaction position, which is the
    /// value taken.
    #[verifier::rlimit(60)]
    pub fn circle_gesture(
        &mut self,
        any_pressed: bool,
        any_released: bool,
        latest: Option<Point>,
        interact: Option<Point>,
        rect: IRect,
        sx: Scale,
        sy: Scale,
    )
        requires
            old(self).wf(),
            rect_in_range(rect),
            scale_wf(sx),
            scale_wf(sy),
            latest is Some ==> point_in_range(latest.unwrap()),
            interact is Some ==> point_in_range(interact.unwrap()),
            (any_pressed && latest is Some && spec_rect_contains(rect, latest.unwrap())
                && spec_unset(old(self).spec_circle_center())) ==> interact is Some,
            ({
                let c1 = if any_pressed && latest is Some && spec_rect_contains(
                    rect,
                    latest.unwrap(),
                ) && spec_unset(old(self).spec_circle_center()) {
                    interact.unwrap()
                } else {
                    old(self).spec_circle_center()
                };
                (any_released && spec_set(c1) && old(self).spec_radius() == -1)
                    ==> interact is Some
            }),
        ensures
            final(self).wf(),
            ({
                let c1 = if any_pressed && latest is Some && spec_rect_contains(
                    rect,
                    latest.unwrap(),
                ) && spec_unset(old(self).spec_circle_center()) {
                    interact.unwrap()
                } else {
                    old(self).spec_circle_center()
                };
                let r1 = if any_released && spec_set(c1) && old(self).spec_radius() == -1 {
                    spec_abs(interact.unwrap().x - c1.x)
                } else {
                    old(self).spec_radius()
                };
                let commit = spec_set(c1) && r1 != -1;
                &&& final(self).circles_view() == if commit {
                    old(self).circles_view().push(
                        (c1, r1 as i64, old(self).spec_circles_stroke()),
                    )
                } else {
                    old(self).circles_view()
                }
                &&& final(self).undo_stack_view() == if commit {
                    old(self).undo_stack_view().push(PpOptions::Circle)
                } else {
                    old(self).undo_stack_view()
                }
                &&& (commit ==> spec_unset(final(self).spec_circle_center()) && final(self).spec_radius() == -1)
                &&& (!commit ==> final(self).spec_circle_center() == c1 && final(self).spec_radius() == r1)
                &&& final(self).spec_shift() == if commit {
                    Some(rect.min)
                } else {
                    old(self).spec_shift()
                }
            }),
            final(self).spec_mult_factor() == Some((sx, sy)),
            lines_unchanged(*old(self), *final(self)),
            arrows_unchanged(*old(self), *final(self)),
            squares_unchanged(*old(self), *final(self)),
            texts_unchanged(*old(self), *final(self)),
            strokes_unchanged(*old(self), *final(self)),
    {
        self.mult_factor = Some((sx, sy));
        let ghost mut committed: bool = false;
        let ghost mut pushed: (Point, i64, Stroke) = arbitrary();
        if any_pressed {
            if let Some(p) = latest {
                if rect.contains(p) && self.circle_center.is_unset() {
                    self.circle_center = interact.unwrap();
                }
            }
        }
        if any_released && self.circle_center.x != -1 && self.circle_center.y != -1
            && self.radius == -1 {
            let p = interact.unwrap();
            let d: i64 = p.x - self.circle_center.x;
            self.radius = if d >= 0 {
                d
            } else {
                -d
            };
        }
        if self.circle_center.x != -1 && self.circle_center.y != -1 && self.radius != -1 {
            let ghost st = self.last_type_added@;
            let ghost el = (self.circle_center, self.radius, self.circles_stroke);
            self.circles.push((self.circle_center, self.radius, self.circles_stroke));
            self.circle_center = unset_point();
            self.radius = -1;
            self.last_type_added.push(PpOptions::Circle);
            self.shift_squares = Some(Point { x: rect.min.x, y: rect.min.y });
            proof {
                lemma_count_kind_push(st, PpOptions::Circle);
                committed = true;
                pushed = el;
                assert(point_in_range(el.0) && 0 <= el.1 <= 2 * COORD_BOUND);
            }
        }
        proof {
            assert(self.lines_view() =~~= old(self).lines_view());
            assert(self.texts_view() =~~= old(self).texts_view());
            if committed {
                lemma_wf_shapes_push_circle(*old(self), *self, pushed);
            } else {
                lemma_wf_shapes_same_lists(*old(self), *self);
            }
            assert(self.wf_counts());
            assert(self.wf_pending());
        }
    }

    /// One frame of the square gesture: a press inside the canvas pins one
    /// corner and remembers the canvas origin, a release inside the canvas
    /// pins the opposite corner, and once the corners pass the completion
    /// test the spanned rectangle joins the list, the pending corners return
    /// to the sentinel and the undo stack records a square.
    #[verifier::rlimit(60)]
    pub fn square_gesture(
        &mut self,
        any_pressed: bool,
        any_released: bool,
        press_pos: Option<Point>,
        release_pos: Option<Point>,
        rect: IRect,
        sx: Scale,
        sy: Scale,
    )
        requires
            old(self).wf(),
            rect_in_range(rect),
            scale_wf(sx),
            scale_wf(sy),
            press_pos is Some ==> point_in_range(press_pos.unwrap()),
            release_pos is Some ==> point_in_range(release_pos.unwrap()),
        ensures
            final(self).wf(),
            ({
                let s1 = press_result(
                    old(self).spec_square_start(),
                    any_pressed,
                    press_pos,
                    rect,
                );
                let e1 = release_result(
                    old(self).spec_square_end(),
                    s1,
                    any_released,
                    release_pos,
                    rect,
                );
                let commit = spec_set(s1) && e1.x != -1 && e1.y != 1;
                &&& final(self).squares_view() == if commit {
                    old(self).squares_view().push(
                        (spec_rect_from_points(s1, e1), old(self).spec_squares_stroke()),
                    )
                } else {
                    old(self).squares_view()
                }
                &&& final(self).undo_stack_view() == if commit {
                    old(self).undo_stack_view().push(PpOptions::Square)
                } else {
                    old(self).undo_stack_view()
                }
                &&& (commit ==> spec_unset(final(self).spec_square_start()) && spec_unset(
                    final(self).spec_square_end(),
                ))
                &&& (!commit ==> final(self).spec_square_start() == s1 && final(self).spec_square_end() == e1)
                &&& final(self).spec_shift() == if any_pressed && press_pos is Some
                    && spec_rect_contains(rect, press_pos.unwrap()) && spec_unset(
                    old(self).spec_square_start(),
                ) {
                    Some(rect.min)
                } else {
                    old(self).spec_shift()
                }
            }),
            final(self).spec_mult_factor() == Some((sx, sy)),
            lines_unchanged(*old(self), *final(self)),
            arrows_unchanged(*old(self), *final(self)),
            circles_unchanged(*old(self), *final(self)),
            texts_unchanged(*old(self), *final(self)),
            strokes_unchanged(*old(self), *final(self)),
    {
        self.mult_factor = Some((sx, sy));
        let ghost mut committed: bool = false;
        let ghost mut pushed: (IRect, Stroke) = arbitrary();
        if any_pressed {
            if let Some(p) = press_pos {
                if rect.contains(p) && self.square_starting_point.is_unset() {
                    self.shift_squares = Some(Point { x: rect.min.x, y: rect.min.y });
                    self.square_starting_point = p;
                }
            }
        }
        if any_released {
            if let Some(p) = release_pos {
                if rect.contains(p) && self.square_ending_point.is_unset()
                    && self.square_starting_point.x != -1 && self.square_starting_point.y != -1 {
                    self.square_ending_point = p;
                }
            }
        }
        if self.square_starting_point.x != -1 && self.square_starting_point.y != -1
            && self.square_ending_point.x != -1 && self.square_ending_point.y != 1 {
            let re = IRect::from_points(self.square_starting_point, self.square_ending_point);
            let ghost st = self.last_type_added@;
            let ghost el = (re, self.squares_stroke);
            self.squares.push((re, self.squares_stroke));
            self.square_starting_point = unset_point();
            self.square_ending_point = unset_point();
            self.last_type_added.push(PpOptions::Square);
            proof {
                lemma_count_kind_push(st, PpOptions::Square);
                committed = true;
                pushed = el;
                assert(point_in_range(el.0.min) && point_in_range(el.0.max));
            }
        }
        proof {
            assert(self.lines_view() =~~= old(self).lines_view());
            assert(self.texts_view() =~~= old(self).texts_view());
            if committed {
                lemma_wf_shapes_push_square(*old(self), *self, pushed);
            } else {
                lemma_wf_shapes_same_lists(*old(self), *self);
            }
            assert(self.wf_counts());
            assert(self.wf_pending());
        }
    }

    /// One frame of the text gesture: a press inside the canvas pins the
    /// anchor, a release inside the canvas pins the far corner, and once
    /// both are pinned and the text was confirmed, the pending text joins
    /// the list, the pending state resets and the undo stack records a
    /// text. The canvas origin and view parameters are recorded every
    /// frame.
    #[verifier::rlimit(60)]
    pub fn text_gesture(
        &mut self,
        any_pressed: bool,
        any_released: bool,
        press_pos: Option<Point>,
        release_pos: Option<Point>,
        rect: IRect,
        sx: Scale,
        sy: Scale,
    )
        requires
            old(self).wf(),
            rect_in_range(rect),
            scale_wf(sx),
            scale_wf(sy),
            press_pos is Some ==> point_in_range(press_pos.unwrap()),
            release_pos is Some ==> point_in_range(release_pos.unwrap()),
        ensures
            final(self).wf(),
            ({
                let s1 = press_result(
                    old(self).spec_text_start(),
                    any_pressed,
                    press_pos,
                    rect,
                );
                let e1 = release_result(
                    old(self).spec_text_end(),
                    s1,
                    any_released,
                    release_pos,
                    rect,
                );
                let wrote = spec_set(s1) && spec_set(e1) && old(self).spec_ready_to_write();
                &&& final(self).texts_view() == if wrote {
                    old(self).texts_view().push(
                        (
                            old(self).spec_to_write_text(),
                            s1,
                            e1,
                            old(self).spec_texts_stroke(),
                        ),
                    )
                } else {
                    old(self).texts_view()
                }
                &&& final(self).undo_stack_view() == if wrote {
                    old(self).undo_stack_view().push(PpOptions::Text)
                } else {
                    old(self).undo_stack_view()
                }
                &&& (wrote ==> spec_unset(final(self).spec_text_start()) && spec_unset(
                    final(self).spec_text_end(),
                ) && !final(self).spec_ready_to_write())
                &&& (!wrote ==> final(self).spec_text_start() == s1 && final(self).spec_text_end() == e1 && final(self).spec_ready_to_write() == old(self).spec_ready_to_write())
            }),
            final(self).spec_to_write_text() == old(self).spec_to_write_text(),
            final(self).spec_mult_factor() == Some((sx, sy)),
            final(self).spec_shift() == Some(rect.min),
            lines_unchanged(*old(self), *final(self)),
            arrows_unchanged(*old(self), *final(self)),
            circles_unchanged(*old(self), *final(self)),
            squares_unchanged(*old(self), *final(self)),
            strokes_unchanged(*old(self), *final(self)),
    {
        self.shift_squares = Some(Point { x: rect.min.x, y: rect.min.y });
        self.mult_factor = Some((sx, sy));
        let ghost mut committed: bool = false;
        let ghost mut pushed: (String, Point, Point, Stroke) = arbitrary();
        if any_pressed {
            if let Some(p) = press_pos {
                if rect.contains(p) && self.text_starting_position.is_unset() {
                    self.text_starting_position = p;
                }
            }
        }
        if any_released {
            if let Some(p) = release_pos {
                if rect.contains(p) && self.text_ending_position.is_unset()
                    && self.text_starting_position.x != -1
                    && self.text_starting_position.y != -1 {
                    self.text_ending_position = p;
                }
            }
        }
        if self.text_starting_position.x != -1 && self.text_starting_position.y != -1
            && self.text_ending_position.x != -1 && self.text_ending_position.y != -1 {
            if self.ready_to_write {
                let ghost st = self.last_type_added@;
                let ghost ts = self.text_starting_position;
                let ghost te = self.text_ending_position;
                let text = self.to_write_text.clone();
                self.texts.push(
                    (
                        text,
                        self.text_starting_position,
                        self.text_ending_position,
                        self.texts_stroke,
                    ),
                );
                self.text_starting_position = unset_point();
                self.text_ending_position = unset_point();
                self.ready_to_write = false;
                self.last_type_added.push(PpOptions::Text);
                proof {
                    lemma_count_kind_push(st, PpOptions::Text);
                    committed = true;
                    pushed = self.texts@.last();
                    assert(point_in_range(pushed.1) && point_in_range(pushed.2));
                    assert(self.texts@ == old(self).texts@.push(pushed));
                    assert(self.texts_view() =~~= old(self).texts_view().push(
                        (old(self).spec_to_write_text(), ts, te, old(self).spec_texts_stroke()),
                    ));
                }
            }
        }
        proof {
            assert(self.lines_view() =~~= old(self).lines_view());
            if !(spec_set(press_result(old(self).spec_text_start(), any_pressed, press_pos, rect))
                && spec_set(
                release_result(
                    old(self).spec_text_end(),
                    press_result(old(self).spec_text_start(), any_pressed, press_pos, rect),
                    any_released,
                    release_pos,
                    rect,
                ),
            ) && old(self).spec_ready_to_write()) {
                assert(self.texts_view() =~~= old(self).texts_view());
            }
            if committed {
                lemma_wf_shapes_push_text(*old(self), *self, pushed);
            } else {
                lemma_wf_shapes_same_lists(*old(self), *self);
            }
            assert(self.wf_counts());
            assert(self.wf_pending());
        }
    }

    /// The finished freehand lines converted to source-image pixels, each
    /// with its stroke color: what the rasterizer is handed for lines.
    pub fn lines_in_image_coords(&self) -> (r: Vec<(Vec<Point>, Color)>)
        requires
            self.wf(),
            self.spec_shift() is Some,
            self.spec_mult_factor() is Some,
        ensures
            r@.len() == self.lines_view().len(),
            forall|i: int|
                0 <= i < r@.len() ==> {
                    let sh = self.spec_shift().unwrap();
                    let m = self.spec_mult_factor().unwrap();
                    &&& (#[trigger] r@[i]).1 == self.lines_view()[i].1.color
                    &&& r@[i].0@.len() == self.lines_view()[i].0.len()
                    &&& forall|j: int|
                        0 <= j < r@[i].0@.len() ==> (#[trigger] r@[i].0@[j])
                            == spec_to_image_point(self.lines_view()[i].0[j], sh, m.0, m.1)
                },
    {
        let shift = self.shift_squares.unwrap();
        let (sx, sy) = self.mult_factor.unwrap();
        let mut out: Vec<(Vec<Point>, Color)> = Vec::new();
        let mut i: usize = 0;
        while i < self.lines.len()
            invariant
                self.wf(),
                self.spec_shift() == Some(shift),
                self.spec_mult_factor() == Some((sx, sy)),
                0 <= i <= self.lines.len(),
                out@.len() == i,
                forall|k: int|
                    0 <= k < i ==> {
                        &&& (#[trigger] out@[k]).1 == self.lines_view()[k].1.color
                        &&& out@[k].0@.len() == self.lines_view()[k].0.len()
                        &&& forall|j: int|
                            0 <= j < out@[k].0@.len() ==> (#[trigger] out@[k].0@[j])
                                == spec_to_image_point(self.lines_view()[k].0[j], shift, sx, sy)
                    },
            decreases self.lines.len() - i,
        {
            let line = &self.lines[i];
            let mut pts: Vec<Point> = Vec::new();
            let mut j: usize = 0;
            while j < line.0.len()
                invariant
                    self.wf(),
                    self.spec_shift() == Some(shift),
                    self.spec_mult_factor() == Some((sx, sy)),
                    0 <= i < self.lines.len(),
                    line == &self.lines[i as int],
                    0 <= j <= line.0.len(),
                    pts@.len() == j,
                    forall|k: int|
                        0 <= k < j ==> (#[trigger] pts@[k]) == spec_to_image_point(
                            self.lines_view()[i as int].0[k],
                            shift,
                            sx,
                            sy,
                        ),
                decreases line.0.len() - j,
            {
                proof {
                    assert(point_in_range(self.lines@[i as int].0@[j as int]));
                }
                let p = to_image_point(line.0[j], shift, sx, sy);
                pts.push(p);
                j += 1;
            }
            let color = line.1.color;
            out.push((pts, color));
            i += 1;
        }
        out
    }

    /// The finished circles converted to source-image pixels: shifted and
    /// scaled center, radius scaled by the vertical factor, stroke kept.
    pub fn circles_in_image_coords(&self) -> (r: Vec<(Point, i64, Stroke)>)
        requires
            self.wf(),
            self.spec_shift() is Some,
            self.spec_mult_factor() is Some,
        ensures
            r@.len() == self.circles_view().len(),
            forall|i: int|
                0 <= i < r@.len() ==> {
                    let sh = self.spec_shift().unwrap();
                    let m = self.spec_mult_factor().unwrap();
                    &&& (#[trigger] r@[i]).0 == spec_to_image_point(
                        self.circles_view()[i].0,
                        sh,
                        m.0,
                        m.1,
                    )
                    &&& r@[i].1 == scale_apply(
                        self.circles_view()[i].1 as int,
                        m.1.num as int,
                        m.1.den as int,
                    )
                    &&& r@[i].2 == self.circles_view()[i].2
                },
    {
        let shift = self.shift_squares.unwrap();
        let (sx, sy) = self.mult_factor.unwrap();
        let mut out: Vec<(Point, i64, Stroke)> = Vec::new();
        let mut i: usize = 0;
        while i < self.circles.len()
            invariant
                self.wf(),
                self.spec_shift() == Some(shift),
                self.spec_mult_factor() == Some((sx, sy)),
                0 <= i <= self.circles.len(),
                out@.len() == i,
                forall|k: int|
                    0 <= k < i ==> {
                        &&& (#[trigger] out@[k]).0 == spec_to_image_point(
                            self.circles_view()[k].0,
                            shift,
                            sx,
                            sy,
                        )
                        &&& out@[k].1 == scale_apply(
                            self.circles_view()[k].1 as int,
                            sy.num as int,
                            sy.den as int,
                        )
                        &&& out@[k].2 == self.circles_view()[k].2
                    },
            decreases self.circles.len() - i,
        {
            let c = self.circles[i];
            proof {
                assert(point_in_range(self.circles@[i as int].0));
                assert(0 <= self.circles@[i as int].1 <= 2 * COORD_BOUND);
            }
            let center = to_image_point(c.0, shift, sx, sy);
            let radius = sy.apply(c.1);
            out.push((center, radius, c.2));
            i += 1;
        }
        out
    }

    /// The finished squares converted to source-image pixels: both corners
    /// shifted and scaled, stroke kept.
    pub fn squares_in_image_coords(&self) -> (r: Vec<(IRect, Stroke)>)
        requires
            self.wf(),
            self.spec_shift() is Some,
            self.spec_mult_factor() is Some,
        ensures
            r@.len() == self.squares_view().len(),
            forall|i: int|
                0 <= i < r@.len() ==> {
                    let sh = self.spec_shift().unwrap();
                    let m = self.spec_mult_factor().unwrap();
                    &&& (#[trigger] r@[i]).0.min == spec_to_image_point(
                        self.squares_view()[i].0.min,
                        sh,
                        m.0,
                        m.1,
                    )
                    &&& r@[i].0.max == spec_to_image_point(
                        self.squares_view()[i].0.max,
                        sh,
                        m.0,
                        m.1,
                    )
                    &&& r@[i].1 == self.squares_view()[i].1
                },
    {
        let shift = self.shift_squares.unwrap();
        let (sx, sy) = self.mult_factor.unwrap();
        let mut out: Vec<(IRect, Stroke)> = Vec::new();
        let mut i: usize = 0;
        while i < self.squares.len()
            invariant
                self.wf(),
                self.spec_shift() == Some(shift),
                self.spec_mult_factor() == Some((sx, sy)),
                0 <= i <= self.squares.len(),
                out@.len() == i,
                forall|k: int|
                    0 <= k < i ==> {
                        &&& (#[trigger] out@[k]).0.min == spec_to_image_point(
                            self.squares_view()[k].0.min,
                            shift,
                            sx,
                            sy,
                        )
                        &&& out@[k].0.max == spec_to_image_point(
                            self.squares_view()[k].0.max,
                            shift,
                            sx,
                            sy,
                        )
                        &&& out@[k].1 == self.squares_view()[k].1
                    },
            decreases self.squares.len() - i,
        {
            let s = self.squares[i];
            proof {
                assert(point_in_range(self.squares@[i as int].0.min));
                assert(point_in_range(self.squares@[i as int].0.max));
            }
            let mn = to_image_point(s.0.min, shift, sx, sy);
            let mx = to_image_point(s.0.max, shift, sx, sy);
            out.push((IRect { min: mn, max: mx }, s.1));
            i += 1;
        }
        out
    }

    /// Each finished arrow as a segment in source-image pixels: the scaled
    /// tail and the head at the tail plus the scaled drag vector, with the
    /// stroke color.
    pub fn arrow_segments_in_image_coords(&self) -> (r: Vec<(Point, Point, Color)>)
        requires
            self.wf(),
            self.spec_shift() is Some,
            self.spec_mult_factor() is Some,
        ensures
            r@.len() == self.arrows_view().len(),
            forall|i: int|
                0 <= i < r@.len() ==> {
                    let sh = self.spec_shift().unwrap();
                    let m = self.spec_mult_factor().unwrap();
                    &&& (#[trigger] r@[i]).0 == spec_to_image_point(
                        self.arrows_view()[i].0,
                        sh,
                        m.0,
                        m.1,
                    )
                    &&& r@[i].1 == spec_arrow_tip(
                        self.arrows_view()[i].0,
                        self.arrows_view()[i].1,
                        sh,
                        m.0,
                        m.1,
                    )
                    &&& r@[i].2 == self.arrows_view()[i].2.color
                },
    {
        let shift = self.shift_squares.unwrap();
        let (sx, sy) = self.mult_factor.unwrap();
        let mut out: Vec<(Point, Point, Color)> = Vec::new();
        let mut i: usize = 0;
        while i < self.arrows.len()
            invariant
                self.wf(),
                self.spec_shift() == Some(shift),
                self.spec_mult_factor() == Some((sx, sy)),
                0 <= i <= self.arrows.len(),
                out@.len() == i,
                forall|k: int|
                    0 <= k < i ==> {
                        &&& (#[trigger] out@[k]).0 == spec_to_image_point(
                            self.arrows_view()[k].0,
                            shift,
                            sx,
                            sy,
                        )
                        &&& out@[k].1 == spec_arrow_tip(
                            self.arrows_view()[k].0,
                            self.arrows_view()[k].1,
                            shift,
                            sx,
                            sy,
                        )
                        &&& out@[k].2 == self.arrows_view()[k].2.color
                    },
            decreases self.arrows.len() - i,
        {
            let a = self.arrows[i];
            proof {
                assert(point_in_range(self.arrows@[i as int].0));
                assert(point_in_range(self.arrows@[i as int].1));
                scale_apply_bounds(
                    a.1.x - a.0.x,
                    sx.num as int,
                    sx.den as int,
                );
                scale_apply_bounds(
                    a.1.y - a.0.y,
                    sy.num as int,
                    sy.den as int,
                );
                scale_apply_bounds(a.0.x - shift.x, sx.num as int, sx.den as int);
                scale_apply_bounds(a.0.y - shift.y, sy.num as int, sy.den as int);
            }
            let origin = to_image_point(a.0, shift, sx, sy);
            let tip = Point {
                x: origin.x + sx.apply(a.1.x - a.0.x),
                y: origin.y + sy.apply(a.1.y - a.0.y),
            };
            out.push((origin, tip, a.2.color));
            i += 1;
        }
        out
    }

    /// The pending text, its color, and its anchor converted to
    /// source-image pixels: what the caller overlays while the text is
    /// being placed.
    pub fn text_overlay(&self) -> (r: (String, Color, Point))
        requires
            self.wf(),
            self.spec_shift() is Some,
            self.spec_mult_factor() is Some,
        ensures
            r.0@ == self.spec_to_write_text(),
            r.1 == self.spec_texts_stroke().color,
            r.2 == spec_to_image_point(
                self.spec_text_start(),
                self.spec_shift().unwrap(),
                self.spec_mult_factor().unwrap().0,
                self.spec_mult_factor().unwrap().1,
            ),
    {
        let shift = self.shift_squares.unwrap();
        let (sx, sy) = self.mult_factor.unwrap();
        let pos = to_image_point(self.text_starting_position, shift, sx, sy);
        (self.to_write_text.clone(), self.texts_stroke.color, pos)
    }

    /// The stroke the control panel shows for a kind. For freehand lines it
    /// is the stroke of the current line when one exists, else the default
    /// line stroke.
    pub fn stroke(&self, kind: PpOptions) -> (s: Stroke)
        ensures
            s == match kind {
                PpOptions::Arrow => self.spec_arrows_stroke(),
                PpOptions::Circle => self.spec_circles_stroke(),
                PpOptions::Square => self.spec_squares_stroke(),
                PpOptions::Text => self.spec_texts_stroke(),
                PpOptions::Painting => if self.lines_view().len() == 0 {
                    self.spec_lines_stroke()
                } else {
                    self.lines_view().last().1
                },
            },
    {
        match kind {
            PpOptions::Arrow => self.arrows_stroke,
            PpOptions::Circle => self.circles_stroke,
            PpOptions::Square => self.squares_stroke,
            PpOptions::Text => self.texts_stroke,
            PpOptions::Painting => {
                if self.lines.len() == 0 {
                    self.lines_stroke
                } else {
                    self.lines[self.lines.len() - 1].1
                }
            },
        }
    }

    /// Stores an edited stroke for a kind. For freehand lines the stroke of
    /// the current line is replaced and remembered as the default for the
    /// next line, as the control panel does.
    pub fn set_stroke(&mut self, kind: PpOptions, s: Stroke)
        requires
            old(self).wf(),
        ensures
            final(self).wf(),
            match kind {
                PpOptions::Arrow => final(self).spec_arrows_stroke() == s && final(self).spec_lines_stroke() == old(self).spec_lines_stroke() && lines_unchanged(
                    *old(self),
                    *final(self),
                ),
                PpOptions::Circle => final(self).spec_circles_stroke() == s && final(self).spec_lines_stroke() == old(self).spec_lines_stroke() && lines_unchanged(
                    *old(self),
                    *final(self),
                ),
                PpOptions::Square => final(self).spec_squares_stroke() == s && final(self).spec_lines_stroke() == old(self).spec_lines_stroke() && lines_unchanged(
                    *old(self),
                    *final(self),
                ),
                PpOptions::Text => final(self).spec_texts_stroke() == s && final(self).spec_lines_stroke() == old(self).spec_lines_stroke() && lines_unchanged(
                    *old(self),
                    *final(self),
                ),
                PpOptions::Painting => final(self).spec_lines_stroke() == s && final(self).lines_view() == if old(self).lines_view().len() == 0 {
                    old(self).lines_view()
                } else {
                    old(self).lines_view().update(
                        old(self).lines_view().len() - 1,
                        (old(self).lines_view().last().0, s),
                    )
                },
            },
            kind != PpOptions::Arrow ==> final(self).spec_arrows_stroke() == old(self).spec_arrows_stroke(),
            kind != PpOptions::Circle ==> final(self).spec_circles_stroke() == old(self).spec_circles_stroke(),
            kind != PpOptions::Square ==> final(self).spec_squares_stroke() == old(self).spec_squares_stroke(),
            kind != PpOptions::Text ==> final(self).spec_texts_stroke() == old(self).spec_texts_stroke(),
            arrows_unchanged(*old(self), *final(self)),
            circles_unchanged(*old(self), *final(self)),
            squares_unchanged(*old(self), *final(self)),
            texts_unchanged(*old(self), *final(self)),
            final(self).undo_stack_view() == old(self).undo_stack_view(),
            final(self).spec_mult_factor() == old(self).spec_mult_factor(),
            final(self).spec_shift() == old(self).spec_shift(),
    {
        match kind {
            PpOptions::Arrow => {
                self.arrows_stroke = s;
            },
            PpOptions::Circle => {
                self.circles_stroke = s;
            },
            PpOptions::Square => {
                self.squares_stroke = s;
            },
            PpOptions::Text => {
                self.texts_stroke = s;
            },
            PpOptions::Painting => {
                if self.lines.len() == 0 {
                    self.lines_stroke = s;
                } else {
                    let mut cur = self.lines.pop().unwrap();
                    cur.1 = s;
                    self.lines.push(cur);
                    self.lines_stroke = s;
                    proof {
                        assert(self.lines_view() =~~= old(self).lines_view().update(
                            old(self).lines_view().len() - 1,
                            (old(self).lines_view().last().0, s),
                        ));
                    }
                }
            },
        }
        proof {
            assert(self.lines_view().len() == old(self).lines_view().len());
            assert forall|i: int| 0 <= i < self.lines@.len() implies pts_in_range(
                #[trigger] self.lines@[i].0@,
            ) by {
                assert(pts_in_range(old(self).lines@[i].0@));
                assert(self.lines@[i].0@ == old(self).lines@[i].0@);
            }
            assert(self.wf_counts());
            assert(self.wf_shapes());
            assert(self.wf_pending());
        }
    }

    /// Drops every freehand line, as the control panel's clear action does.
    pub fn clear_lines(&mut self)
        requires
            old(self).wf(),
        ensures
            final(self).wf(),
            final(self).lines_view() == Seq::<(Seq<Point>, Stroke)>::empty(),
            arrows_unchanged(*old(self), *final(self)),
            circles_unchanged(*old(self), *final(self)),
            squares_unchanged(*old(self), *final(self)),
            texts_unchanged(*old(self), *final(self)),
            strokes_unchanged(*old(self), *final(self)),
            final(self).undo_stack_view() == old(self).undo_stack_view(),
            final(self).spec_mult_factor() == old(self).spec_mult_factor(),
            final(self).spec_shift() == old(self).spec_shift(),
    {
        self.lines.clear();
        proof {
            assert(self.lines_view() =~~= Seq::<(Seq<Point>, Stroke)>::empty());
            assert(self.texts_view() =~~= old(self).texts_view());
        }
    }

    /// Replaces the text waiting to be written.
    pub fn set_to_write_text(&mut self, t: String)
        requires
            old(self).wf(),
        ensures
            final(self).wf(),
            final(self).spec_to_write_text() == t@,
            final(self).spec_text_start() == old(self).spec_text_start(),
            final(self).spec_text_end() == old(self).spec_text_end(),
            final(self).spec_ready_to_write() == old(self).spec_ready_to_write(),
            final(self).texts_view() == old(self).texts_view(),
            lines_unchanged(*old(self), *final(self)),
            arrows_unchanged(*old(self), *final(self)),
            circles_unchanged(*old(self), *final(self)),
            squares_unchanged(*old(self), *final(self)),
            strokes_unchanged(*old(self), *final(self)),
            final(self).undo_stack_view() == old(self).undo_stack_view(),
            final(self).spec_mult_factor() == old(self).spec_mult_factor(),
            final(self).spec_shift() == old(self).spec_shift(),
    {
        self.to_write_text = t;
        proof {
            assert(self.lines_view() =~~= old(self).lines_view());
            assert(self.texts_view() =~~= old(self).texts_view());
        }
    }

    /// Marks the pending text ready to be written, provided both of its
    /// anchor points have been placed, as the control panel's write action
    /// does.
    pub fn confirm_text(&mut self)
        requires
            old(self).wf(),
        ensures
            final(self).wf(),
            final(self).spec_ready_to_write() == if spec_set(old(self).spec_text_start())
                && spec_set(old(self).spec_text_end()) {
                true
            } else {
                old(self).spec_ready_to_write()
            },
            final(self).spec_to_write_text() == old(self).spec_to_write_text(),
            final(self).spec_text_start() == old(self).spec_text_start(),
            final(self).spec_text_end() == old(self).spec_text_end(),
            final(self).texts_view() == old(self).texts_view(),
            lines_unchanged(*old(self), *final(self)),
            arrows_unchanged(*old(self), *final(self)),
            circles_unchanged(*old(self), *final(self)),
            squares_unchanged(*old(self), *final(self)),
            strokes_unchanged(*old(self), *final(self)),
            final(self).undo_stack_view() == old(self).undo_stack_view(),
            final(self).spec_mult_factor() == old(self).spec_mult_factor(),
            final(self).spec_shift() == old(self).spec_shift(),
    {
        if self.text_starting_position.x != -1 && self.text_starting_position.y != -1
            && self.text_ending_position.x != -1 && self.text_ending_position.y != -1 {
            self.ready_to_write = true;
        }
        proof {
            assert(self.lines_view() =~~= old(self).lines_view());
            assert(self.texts_view() =~~= old(self).texts_view());
        }
    }

    /// How many shapes the undo stack remembers.
    pub fn undo_stack_len(&self) -> (n: usize)
        ensures
            n == self.undo_stack_view().len(),
    {
        self.last_type_added.len()
    }

    /// The finished freehand lines, in panel coordinates.
    pub fn lines(&self) -> (r: &Vec<(Vec<Point>, Stroke)>)
        ensures
            view_line_list(r@) == self.lines_view(),
    {
        &self.lines
    }

    /// The finished arrows, in panel coordinates.
    pub fn arrows(&self) -> (r: &Vec<(Point, Point, Stroke)>)
        ensures
            r@ == self.arrows_view(),
    {
        &self.arrows
    }

    /// The finished circles, in panel coordinates.
    pub fn circles(&self) -> (r: &Vec<(Point, i64, Stroke)>)
        ensures
            r@ == self.circles_view(),
    {
        &self.circles
    }

    /// The finished squares, in panel coordinates.
    pub fn squares(&self) -> (r: &Vec<(IRect, Stroke)>)
        ensures
            r@ == self.squares_view(),
    {
        &self.squares
    }

    /// The finished texts, in panel coordinates.
    pub fn texts(&self) -> (r: &Vec<(String, Point, Point, Stroke)>)
        ensures
            r@.len() == self.texts_view().len(),
            forall|i: int|
                0 <= i < r@.len() ==> {
                    &&& (#[trigger] r@[i]).0@ == self.texts_view()[i].0
                    &&& r@[i].1 == self.texts_view()[i].1
                    &&& r@[i].2 == self.texts_view()[i].2
                    &&& r@[i].3 == self.texts_view()[i].3
                },
    {
        &self.texts
    }

    /// The text waiting to be written.
    pub fn pending_text(&self) -> (r: &String)
        ensures
            r@ == self.spec_to_write_text(),
    {
        &self.to_write_text
    }

    /// The stored view parameters, if a canvas frame has recorded them.
    pub fn view_params(&self) -> (r: (Option<Point>, Option<(Scale, Scale)>))
        ensures
            r.0 == self.spec_shift(),
            r.1 == self.spec_mult_factor(),
    {
        (self.shift_squares, self.mult_factor)
    }

    /// The lines with at least two points, in order: those worth rendering
    /// as polylines.
    pub fn renderable_lines(&self) -> (r: Vec<(Vec<Point>, Stroke)>)
        ensures
            view_line_list(r@) == spec_renderable_lines(self.lines_view()),
    {
        let mut out: Vec<(Vec<Point>, Stroke)> = Vec::new();
        let mut i: usize = 0;
        while i < self.lines.len()
            invariant
                0 <= i <= self.lines.len(),
                view_line_list(out@) == renderable_prefix(self.lines_view(), i as int),
            decreases self.lines.len() - i,
        {
            let line = &self.lines[i];
            if line.0.len() >= 2 {
                let mut pts: Vec<Point> = Vec::new();
                let mut j: usize = 0;
                while j < line.0.len()
                    invariant
                        0 <= i < self.lines.len(),
                        line == &self.lines[i as int],
                        0 <= j <= line.0.len(),
                        pts@ == line.0@.take(j as int),
                    decreases line.0.len() - j,
                {
                    pts.push(line.0[j]);
                    proof {
                        assert(pts@ =~= line.0@.take(j + 1 as int));
                    }
                    j += 1;
                }
                proof {
                    assert(pts@ =~= line.0@);
                }
                out.push((pts, line.1));
                proof {
                    assert(view_line_list(out@) =~~= renderable_prefix(
                        self.lines_view(),
                        i + 1 as int,
                    ));
                }
            } else {
                proof {
                    assert(view_line_list(out@) =~~= renderable_prefix(
                        self.lines_view(),
                        i + 1 as int,
                    ));
                }
            }
            i += 1;
        }
        out
    }
}

} // verus!
