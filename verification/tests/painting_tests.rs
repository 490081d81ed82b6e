use screen_grabbing::geometry::{IRect, Point, Scale};
use screen_grabbing::painting::{Color, Painting, PpOptions, Stroke};

fn canvas() -> IRect {
    IRect::from_points(Point::new(0, 0), Point::new(400, 300))
}

fn scales() -> (Scale, Scale) {
    (Scale::new(1, 1), Scale::new(1, 1))
}

#[test]
fn default_painting_is_empty() {
    let p = Painting::default();
    assert_eq!(p.undo_stack_len(), 0);
    assert_eq!(p.lines().len(), 0);
    assert_eq!(p.arrows().len(), 0);
    assert_eq!(p.circles().len(), 0);
    assert_eq!(p.squares().len(), 0);
    assert_eq!(p.texts().len(), 0);
    assert_eq!(p.pending_text().as_str(), "Write something");
    let s = p.stroke(PpOptions::Painting);
    assert_eq!(s.width, 1);
    assert_eq!(s.color, Color::new(25, 200, 100, 255));
    let (shift, mult) = p.view_params();
    assert!(shift.is_none());
    assert!(mult.is_none());
}

#[test]
fn line_gesture_collects_points() {
    let mut p = Painting::default();
    let (sx, sy) = scales();
    let changed = p.line_gesture(Some(Point::new(10, 10)), canvas(), sx, sy);
    assert!(changed);
    let changed = p.line_gesture(Some(Point::new(10, 10)), canvas(), sx, sy);
    assert!(!changed, "an exact repeat of the last point is skipped");
    let changed = p.line_gesture(Some(Point::new(20, 15)), canvas(), sx, sy);
    assert!(changed);
    assert_eq!(p.lines().len(), 1);
    assert_eq!(p.lines()[0].0, vec![Point::new(10, 10), Point::new(20, 15)]);
    let changed = p.line_gesture(None, canvas(), sx, sy);
    assert!(changed, "lifting the pointer opens a fresh line");
    assert_eq!(p.lines().len(), 2);
    assert_eq!(p.lines()[1].0.len(), 0);
    let changed = p.line_gesture(None, canvas(), sx, sy);
    assert!(!changed, "an idle frame on an empty line changes nothing");
}

#[test]
fn arrow_gesture_commits_on_press_release() {
    let mut p = Painting::default();
    let (sx, sy) = scales();
    p.arrow_gesture(true, false, Some(Point::new(50, 50)), canvas(), sx, sy);
    assert_eq!(p.arrows().len(), 0, "an arrow needs both endpoints");
    p.arrow_gesture(false, true, Some(Point::new(90, 120)), canvas(), sx, sy);
    assert_eq!(p.arrows().len(), 1);
    let a = p.arrows()[0];
    assert_eq!(a.0, Point::new(50, 50));
    assert_eq!(a.1, Point::new(90, 120));
    assert_eq!(a.2.color, Color::new(25, 200, 100, 255));
    assert_eq!(p.undo_stack_len(), 1);
}

#[test]
fn arrow_gesture_ignores_positions_outside_the_canvas() {
    let mut p = Painting::default();
    let (sx, sy) = scales();
    p.arrow_gesture(true, false, Some(Point::new(500, 50)), canvas(), sx, sy);
    p.arrow_gesture(false, true, Some(Point::new(90, 120)), canvas(), sx, sy);
    assert_eq!(
        p.arrows().len(),
        0,
        "a press outside the canvas pins nothing, and a release cannot open an arrow"
    );
}

#[test]
fn circle_gesture_uses_horizontal_distance_as_radius() {
    let mut p = Painting::default();
    let (sx, sy) = scales();
    p.circle_gesture(
        true,
        false,
        Some(Point::new(100, 80)),
        Some(Point::new(100, 80)),
        canvas(),
        sx,
        sy,
    );
    assert_eq!(p.circles().len(), 0);
    p.circle_gesture(
        false,
        true,
        Some(Point::new(60, 200)),
        Some(Point::new(60, 200)),
        canvas(),
        sx,
        sy,
    );
    assert_eq!(p.circles().len(), 1);
    let c = p.circles()[0];
    assert_eq!(c.0, Point::new(100, 80));
    assert_eq!(c.1, 40, "the radius is the horizontal distance to the center");
    assert_eq!(p.undo_stack_len(), 1);
}

#[test]
fn square_gesture_normalizes_the_dragged_corners() {
    let mut p = Painting::default();
    let (sx, sy) = scales();
    p.square_gesture(
        true,
        false,
        Some(Point::new(200, 50)),
        None,
        canvas(),
        sx,
        sy,
    );
    p.square_gesture(
        false,
        true,
        None,
        Some(Point::new(100, 150)),
        canvas(),
        sx,
        sy,
    );
    assert_eq!(p.squares().len(), 1);
    let s = p.squares()[0];
    assert_eq!(s.0.min, Point::new(100, 50));
    assert_eq!(s.0.max, Point::new(200, 150));
}

#[test]
fn square_gesture_stalls_on_the_completion_test() {
    let mut p = Painting::default();
    let (sx, sy) = scales();
    p.square_gesture(
        true,
        false,
        Some(Point::new(20, 30)),
        None,
        canvas(),
        sx,
        sy,
    );
    p.square_gesture(false, true, None, Some(Point::new(80, 1)), canvas(), sx, sy);
    assert_eq!(
        p.squares().len(),
        0,
        "a closing corner on row one never passes the completion test"
    );
}

#[test]
fn text_gesture_needs_confirmation() {
    let mut p = Painting::default();
    let (sx, sy) = scales();
    p.text_gesture(true, false, Some(Point::new(30, 40)), None, canvas(), sx, sy);
    p.text_gesture(
        false,
        true,
        None,
        Some(Point::new(90, 60)),
        canvas(),
        sx,
        sy,
    );
    assert_eq!(p.texts().len(), 0, "unconfirmed text is not written");
    p.set_to_write_text(String::from("caption"));
    p.confirm_text();
    p.text_gesture(false, false, None, None, canvas(), sx, sy);
    assert_eq!(p.texts().len(), 1);
    let t = &p.texts()[0];
    assert_eq!(t.0.as_str(), "caption");
    assert_eq!(t.1, Point::new(30, 40));
    assert_eq!(t.2, Point::new(90, 60));
    assert_eq!(p.undo_stack_len(), 1);
}

#[test]
fn confirm_text_needs_both_anchors() {
    let mut p = Painting::default();
    let (sx, sy) = scales();
    p.text_gesture(true, false, Some(Point::new(30, 40)), None, canvas(), sx, sy);
    p.confirm_text();
    p.text_gesture(false, false, None, None, canvas(), sx, sy);
    assert_eq!(p.texts().len(), 0, "confirmation without the far corner does nothing");
}

#[test]
fn undo_removes_the_most_recent_kind() {
    let mut p = Painting::default();
    let (sx, sy) = scales();
    p.arrow_gesture(true, false, Some(Point::new(10, 10)), canvas(), sx, sy);
    p.arrow_gesture(false, true, Some(Point::new(20, 20)), canvas(), sx, sy);
    p.circle_gesture(
        true,
        false,
        Some(Point::new(50, 50)),
        Some(Point::new(50, 50)),
        canvas(),
        sx,
        sy,
    );
    p.circle_gesture(
        false,
        true,
        Some(Point::new(70, 50)),
        Some(Point::new(70, 50)),
        canvas(),
        sx,
        sy,
    );
    assert_eq!(p.undo_stack_len(), 2);
    p.undo();
    assert_eq!(p.circles().len(), 0, "the circle came last and goes first");
    assert_eq!(p.arrows().len(), 1);
    p.undo();
    assert_eq!(p.arrows().len(), 0);
    assert_eq!(p.undo_stack_len(), 0);
}

#[test]
fn lines_convert_to_image_coordinates() {
    let mut p = Painting::default();
    let rect = IRect::from_points(Point::new(10, 20), Point::new(410, 320));
    let sx = Scale::new(2, 1);
    let sy = Scale::new(3, 2);
    p.line_gesture(Some(Point::new(110, 120)), rect, sx, sy);
    p.line_gesture(Some(Point::new(210, 220)), rect, sx, sy);
    let out = p.lines_in_image_coords();
    assert_eq!(out.len(), 1);
    assert_eq!(out[0].0, vec![Point::new(200, 150), Point::new(400, 300)]);
    assert_eq!(out[0].1, Color::new(25, 200, 100, 255));
}

#[test]
fn circles_convert_to_image_coordinates() {
    let mut p = Painting::default();
    let rect = IRect::from_points(Point::new(10, 20), Point::new(410, 320));
    let sx = Scale::new(2, 1);
    let sy = Scale::new(3, 1);
    p.circle_gesture(
        true,
        false,
        Some(Point::new(110, 70)),
        Some(Point::new(110, 70)),
        rect,
        sx,
        sy,
    );
    p.circle_gesture(
        false,
        true,
        Some(Point::new(130, 70)),
        Some(Point::new(130, 70)),
        rect,
        sx,
        sy,
    );
    let out = p.circles_in_image_coords();
    assert_eq!(out.len(), 1);
    assert_eq!(out[0].0, Point::new(200, 150));
    assert_eq!(out[0].1, 60, "the radius is scaled by the vertical factor");
}

#[test]
fn squares_convert_to_image_coordinates() {
    let mut p = Painting::default();
    let rect = IRect::from_points(Point::new(10, 20), Point::new(410, 320));
    let sx = Scale::new(2, 1);
    let sy = Scale::new(2, 1);
    p.square_gesture(
        true,
        false,
        Some(Point::new(60, 70)),
        None,
        rect,
        sx,
        sy,
    );
    p.square_gesture(
        false,
        true,
        None,
        Some(Point::new(110, 120)),
        rect,
        sx,
        sy,
    );
    let out = p.squares_in_image_coords();
    assert_eq!(out.len(), 1);
    assert_eq!(out[0].0.min, Point::new(100, 100));
    assert_eq!(out[0].0.max, Point::new(200, 200));
}

#[test]
fn arrow_segments_convert_to_image_coordinates() {
    let mut p = Painting::default();
    let rect = IRect::from_points(Point::new(10, 10), Point::new(410, 310));
    let sx = Scale::new(2, 1);
    let sy = Scale::new(2, 1);
    p.arrow_gesture(true, false, Some(Point::new(60, 60)), rect, sx, sy);
    p.arrow_gesture(false, true, Some(Point::new(110, 90)), rect, sx, sy);
    let out = p.arrow_segments_in_image_coords();
    assert_eq!(out.len(), 1);
    assert_eq!(out[0].0, Point::new(100, 100));
    assert_eq!(out[0].1, Point::new(200, 160));
}

#[test]
fn text_overlay_reports_the_pending_text() {
    let mut p = Painting::default();
    let rect = IRect::from_points(Point::new(10, 10), Point::new(410, 310));
    let (sx, sy) = scales();
    p.set_to_write_text(String::from("note"));
    p.text_gesture(true, false, Some(Point::new(30, 40)), None, rect, sx, sy);
    let (text, color, pos) = p.text_overlay();
    assert_eq!(text.as_str(), "note");
    assert_eq!(color, Color::new(25, 200, 100, 255));
    assert_eq!(pos, Point::new(20, 30));
}

#[test]
fn renderable_lines_keeps_only_polylines() {
    let mut p = Painting::default();
    let (sx, sy) = scales();
    p.line_gesture(Some(Point::new(1, 1)), canvas(), sx, sy);
    p.line_gesture(None, canvas(), sx, sy);
    p.line_gesture(Some(Point::new(2, 2)), canvas(), sx, sy);
    p.line_gesture(Some(Point::new(3, 3)), canvas(), sx, sy);
    p.line_gesture(None, canvas(), sx, sy);
    assert_eq!(p.lines().len(), 3);
    let r = p.renderable_lines();
    assert_eq!(r.len(), 1, "single points and empty lines are not rendered");
    assert_eq!(r[0].0, vec![Point::new(2, 2), Point::new(3, 3)]);
}

#[test]
fn set_stroke_painting_edits_the_current_line() {
    let mut p = Painting::default();
    let (sx, sy) = scales();
    let red = Stroke::new(3, Color::new(255, 0, 0, 255));
    p.set_stroke(PpOptions::Painting, red);
    assert_eq!(p.stroke(PpOptions::Painting), red);
    p.line_gesture(Some(Point::new(5, 5)), canvas(), sx, sy);
    let blue = Stroke::new(2, Color::new(0, 0, 255, 255));
    p.set_stroke(PpOptions::Painting, blue);
    assert_eq!(p.lines()[0].1, blue, "the current line takes the new stroke");
    assert_eq!(p.stroke(PpOptions::Arrow).color, Color::new(25, 200, 100, 255));
}

#[test]
fn clear_lines_drops_every_line() {
    let mut p = Painting::default();
    let (sx, sy) = scales();
    p.line_gesture(Some(Point::new(5, 5)), canvas(), sx, sy);
    p.line_gesture(Some(Point::new(6, 6)), canvas(), sx, sy);
    p.clear_lines();
    assert_eq!(p.lines().len(), 0);
}

#[test]
fn per_kind_strokes_are_independent() {
    let mut p = Painting::default();
    let red = Stroke::new(4, Color::new(255, 0, 0, 255));
    p.set_stroke(PpOptions::Circle, red);
    assert_eq!(p.stroke(PpOptions::Circle), red);
    assert_eq!(p.stroke(PpOptions::Square).color, Color::new(25, 200, 100, 255));
    assert_eq!(p.stroke(PpOptions::Text).color, Color::new(25, 200, 100, 255));
    assert_eq!(p.stroke(PpOptions::Arrow).color, Color::new(25, 200, 100, 255));
}

#[test]
fn committed_shapes_carry_the_stroke_at_commit_time() {
    let mut p = Painting::default();
    let (sx, sy) = scales();
    let red = Stroke::new(2, Color::new(200, 0, 0, 255));
    p.set_stroke(PpOptions::Circle, red);
    p.circle_gesture(
        true,
        false,
        Some(Point::new(10, 10)),
        Some(Point::new(10, 10)),
        canvas(),
        sx,
        sy,
    );
    p.circle_gesture(
        false,
        true,
        Some(Point::new(15, 10)),
        Some(Point::new(15, 10)),
        canvas(),
        sx,
        sy,
    );
    assert_eq!(p.circles()[0].2, red);
}
