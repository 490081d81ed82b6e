use screen_grabbing::geometry::{Point, Scale};
use screen_grabbing::painting::PpOptions;
use screen_grabbing::session::{
    FirstWindow, ImageFormat, LoadingState, ModeOptions, Shapes, TimerOptions,
};

fn session() -> FirstWindow {
    FirstWindow::new(String::from("unix"))
}

#[test]
fn new_session_defaults() {
    let s = session();
    assert_eq!(s.selected_window(), 1);
    assert_eq!(s.selected_mode, ModeOptions::Rectangle);
    assert_eq!(s.selected_mode_string.as_str(), "Rectangle");
    assert_eq!(s.selected_timer, TimerOptions::NoTimer);
    assert_eq!(s.selected_timer_string.as_str(), "No timer");
    assert_eq!(s.selected_timer_numeric, 0);
    assert_eq!(s.selected_shape, Shapes::NoShape);
    assert_eq!(s.selected_shape_string.as_str(), "Select a shape!");
    assert_eq!(s.image_format, ImageFormat::Jpg);
    assert_eq!(s.image_format_string.as_str(), "jpg");
    assert_eq!(s.loading_state, LoadingState::NotLoaded);
    assert!(s.pp_option.is_none());
    assert_eq!(s.customizing_hotkey, usize::MAX);
}

#[test]
fn select_timer_sets_label_and_seconds() {
    let mut s = session();
    s.select_timer(TimerOptions::ThreeSeconds);
    assert_eq!(s.selected_timer_numeric, 3);
    assert_eq!(s.selected_timer_string.as_str(), "3 Seconds");
    s.select_timer(TimerOptions::FiveSeconds);
    assert_eq!(s.selected_timer_numeric, 5);
    assert_eq!(s.selected_timer_string.as_str(), "5 Seconds");
    s.select_timer(TimerOptions::TenSeconds);
    assert_eq!(s.selected_timer_numeric, 10);
    assert_eq!(s.selected_timer_string.as_str(), "10 Seconds");
    s.select_timer(TimerOptions::NoTimer);
    assert_eq!(s.selected_timer_numeric, 0);
    assert_eq!(s.selected_timer_string.as_str(), "No Timer");
}

#[test]
fn select_mode_and_format_set_labels() {
    let mut s = session();
    s.select_mode(ModeOptions::FullScreen);
    assert_eq!(s.selected_mode_string.as_str(), "Full Screen");
    s.select_mode(ModeOptions::Rectangle);
    assert_eq!(s.selected_mode_string.as_str(), "Rectangle");
    s.select_format(ImageFormat::Png);
    assert_eq!(s.image_format_string.as_str(), "png");
    s.select_format(ImageFormat::Gif);
    assert_eq!(s.image_format_string.as_str(), "gif");
}

#[test]
fn select_shape_sets_tool_and_label() {
    let mut s = session();
    s.select_shape(Shapes::Arrow);
    assert_eq!(s.selected_shape_string.as_str(), "↘ Arrow");
    assert_eq!(s.pp_option, Some(PpOptions::Arrow));
    s.select_shape(Shapes::Circle);
    assert_eq!(s.selected_shape_string.as_str(), "⭕ Circle");
    assert_eq!(s.pp_option, Some(PpOptions::Circle));
    s.select_shape(Shapes::Square);
    assert_eq!(s.selected_shape_string.as_str(), "⬜ Square");
    assert_eq!(s.pp_option, Some(PpOptions::Square));
    s.select_paint_tool();
    assert_eq!(s.pp_option, Some(PpOptions::Painting));
    assert_eq!(s.selected_shape_string.as_str(), "Select a shape!");
    s.select_text_tool();
    assert_eq!(s.pp_option, Some(PpOptions::Text));
}

#[test]
fn define_rectangle_normalizes_every_quadrant() {
    let mut s = session();
    s.set_mouse_pos(Some(Point::new(10, 10)));
    s.set_mouse_pos_f(Some(Point::new(50, 60)));
    s.define_rectangle();
    assert_eq!(s.rect_pos, Point::new(10, 10));
    assert_eq!(s.rect_pos_f, Point::new(50, 60));

    let mut s = session();
    s.set_mouse_pos(Some(Point::new(50, 60)));
    s.set_mouse_pos_f(Some(Point::new(10, 10)));
    s.define_rectangle();
    assert_eq!(s.rect_pos, Point::new(10, 10));
    assert_eq!(s.rect_pos_f, Point::new(50, 60));

    let mut s = session();
    s.set_mouse_pos(Some(Point::new(50, 10)));
    s.set_mouse_pos_f(Some(Point::new(10, 60)));
    s.define_rectangle();
    assert_eq!(s.rect_pos, Point::new(10, 10));
    assert_eq!(s.rect_pos_f, Point::new(50, 60));

    let mut s = session();
    s.set_mouse_pos(Some(Point::new(10, 60)));
    s.set_mouse_pos_f(Some(Point::new(50, 10)));
    s.define_rectangle();
    assert_eq!(s.rect_pos, Point::new(10, 10));
    assert_eq!(s.rect_pos_f, Point::new(50, 60));
}

#[test]
fn define_rectangle_leaves_a_flat_drag_alone() {
    let mut s = session();
    s.set_mouse_pos(Some(Point::new(10, 10)));
    s.set_mouse_pos_f(Some(Point::new(10, 60)));
    s.define_rectangle();
    assert_eq!(s.rect_pos, Point::new(0, 0));
    assert_eq!(s.rect_pos_f, Point::new(0, 0));
}

#[test]
fn set_width_height_spans_the_rectangle() {
    let mut s = session();
    s.set_mouse_pos(Some(Point::new(10, 20)));
    s.set_mouse_pos_f(Some(Point::new(110, 220)));
    s.define_rectangle();
    s.set_width_height();
    assert_eq!(s.width, 100);
    assert_eq!(s.height, 200);
}

#[test]
fn set_width_height_full_screen_takes_the_texture() {
    let mut s = session();
    s.select_mode(ModeOptions::FullScreen);
    s.set_texture_size(1920, 1080);
    s.set_width_height();
    assert_eq!(s.width, 1920);
    assert_eq!(s.height, 1080);
}

#[test]
fn set_width_height_scales_on_windows() {
    let mut s = FirstWindow::new(String::from("windows"));
    s.set_multiplication_factor(Scale::new(2, 1));
    s.set_mouse_pos(Some(Point::new(10, 20)));
    s.set_mouse_pos_f(Some(Point::new(110, 220)));
    s.define_rectangle();
    s.set_width_height();
    assert_eq!(s.width, 200);
    assert_eq!(s.height, 400);
    assert_eq!(s.rect_pos, Point::new(20, 40));
}

#[test]
fn adjust_capture_origin_on_secondary_screen() {
    let mut s = session();
    s.select_screen(7, 1920, 1080, 0, 0);
    s.set_mouse_pos(Some(Point::new(500, 100)));
    s.set_mouse_pos_f(Some(Point::new(700, 300)));
    s.define_rectangle();
    s.adjust_capture_origin(false, 1920);
    assert_eq!(
        s.rect_pos,
        Point::new(500 - 1920 + 1920, 100),
        "moving left of the screen wraps by the selected screen's width"
    );
    let mut s = session();
    s.set_mouse_pos(Some(Point::new(500, 100)));
    s.set_mouse_pos_f(Some(Point::new(700, 300)));
    s.define_rectangle();
    s.adjust_capture_origin(true, 1920);
    assert_eq!(s.rect_pos, Point::new(500, 100), "a primary screen needs no correction");
}

#[test]
fn hotkey_events_act_only_in_their_window() {
    let ids: Vec<u32> = vec![11, 22, 33, 44, 55, 66];
    let mut s = session();
    s.hotkey_event(22, true, &ids);
    assert_eq!(s.selected_window(), 2, "the capture shortcut opens the overlay");
    s.hotkey_event(11, true, &ids);
    assert_eq!(s.selected_window(), 1, "the exit shortcut leaves the overlay");
    s.hotkey_event(33, true, &ids);
    assert!(!s.ready_to_save, "the save shortcut is dead outside the editor");
    s.open_capture_overlay();
    s.finish_region_selection();
    s.window_step();
    s.window_step();
    assert_eq!(s.selected_window(), 5);
    s.hotkey_event(33, true, &ids);
    assert!(s.ready_to_save);
    s.hotkey_event(44, true, &ids);
    assert!(s.ready_to_copy);
    s.hotkey_event(55, true, &ids);
    assert!(s.ready_to_save_with_name);
    s.hotkey_event(66, true, &ids);
    assert!(s.ready_to_crop);
    s.ready_to_save = false;
    s.hotkey_event(33, false, &ids);
    assert!(!s.ready_to_save, "a released shortcut does nothing");
}

#[test]
fn window_transitions_follow_the_pipeline() {
    let mut s = session();
    s.open_settings();
    assert_eq!(s.selected_window(), 6);
    s.close_settings();
    assert_eq!(s.selected_window(), 1);
    s.open_capture_overlay();
    assert_eq!(s.selected_window(), 2);
    s.finish_region_selection();
    assert_eq!(s.selected_window(), 3);
    s.window_step();
    assert_eq!(s.selected_window(), 4);
    s.window_step();
    assert_eq!(s.selected_window(), 5);
    s.close_capture_overlay();
    assert_eq!(s.selected_window(), 1);
}

#[test]
fn on_texture_ready_loads_or_falls_back() {
    let mut s = session();
    s.open_capture_overlay();
    s.on_texture_ready(true);
    assert_eq!(s.loading_state, LoadingState::Loaded);
    assert_eq!(s.pp_option, Some(PpOptions::Painting));
    assert_eq!(s.selected_window(), 2);
    let mut s = session();
    s.open_capture_overlay();
    s.on_texture_ready(false);
    assert_eq!(s.selected_window(), 1, "without a texture the chooser returns");
}

#[test]
fn compute_canvas_dim_shrinks_large_captures() {
    let mut s = session();
    s.width = 1300;
    s.height = 800;
    let dim = s.compute_canvas_dim();
    assert_eq!(dim, (910, 560));
    let mut s = session();
    s.width = 1300;
    s.height = 500;
    assert_eq!(s.compute_canvas_dim(), (910, 350));
    let mut s = session();
    s.width = 1000;
    s.height = 800;
    assert_eq!(s.compute_canvas_dim(), (600, 480));
    let mut s = session();
    s.width = 800;
    s.height = 500;
    assert_eq!(s.compute_canvas_dim(), (800, 500));
}

#[test]
fn compute_canvas_dim_divides_by_the_ratio_on_windows() {
    let mut s = FirstWindow::new(String::from("windows"));
    s.set_multiplication_factor(Scale::new(2, 1));
    s.width = 1300;
    s.height = 800;
    let dim = s.compute_canvas_dim();
    assert_eq!(dim, (455, 280), "seven tenths, then halved by the ratio");
}

#[test]
fn compute_crop_rect_maps_back_to_image_pixels() {
    let mut s = session();
    s.set_multiplication_factor(Scale::new(1, 1));
    s.width = 800;
    s.height = 500;
    s.compute_canvas_dim();
    s.set_to_cut_rect(Point::new(50, 40), Point::new(150, 140));
    let r = s.compute_crop_rect(Point::new(10, 10));
    assert_eq!(r, (40, 30, 100, 100));
}

#[test]
fn compute_crop_rect_floors_negative_offsets() {
    let mut s = session();
    s.set_multiplication_factor(Scale::new(1, 1));
    s.width = 800;
    s.height = 500;
    s.compute_canvas_dim();
    s.set_to_cut_rect(Point::new(5, 4), Point::new(105, 104));
    let r = s.compute_crop_rect(Point::new(10, 10));
    assert_eq!(r, (0, 0, 100, 100));
}

#[test]
fn compute_crop_rect_undoes_the_shrink() {
    let mut s = session();
    s.set_multiplication_factor(Scale::new(1, 1));
    s.width = 1300;
    s.height = 800;
    s.compute_canvas_dim();
    s.set_to_cut_rect(Point::new(80, 80), Point::new(150, 150));
    let r = s.compute_crop_rect(Point::new(10, 10));
    assert_eq!(r, (100, 100, 100, 100), "canvas pixels grow back by ten sevenths");
}

#[test]
fn crop_flow_toggles_the_flags() {
    let mut s = session();
    let needs = s.begin_crop();
    assert!(!needs, "nothing to flatten yet");
    assert!(s.cut_clicked);
    assert!(s.pp_option.is_none());
    s.arrow_pixels.push((Point::new(0, 0), Point::new(5, 5), screen_grabbing::painting::Color::new(1, 2, 3, 4)));
    let needs = s.begin_crop();
    assert!(needs, "pending annotations must be flattened first");
    s.clear_annotation_pixels();
    assert_eq!(s.arrow_pixels.len(), 0);
    s.finish_crop();
    assert!(!s.cut_clicked);
    assert!(s.cropped);
    assert_eq!(s.pp_option, Some(PpOptions::Painting));
    assert!(!s.ready_to_crop);
}

#[test]
fn reset_selection_returns_to_the_sentinels() {
    let mut s = session();
    s.set_mouse_pos(Some(Point::new(9, 9)));
    s.set_mouse_pos_f(Some(Point::new(90, 90)));
    s.define_rectangle();
    s.reset_selection();
    assert_eq!(s.mouse_pos, Some(Point::new(-1, -1)));
    assert_eq!(s.mouse_pos_f, Some(Point::new(-1, -1)));
    assert_eq!(s.rect_pos, Point::new(0, 0));
    assert_eq!(s.rect_pos_f, Point::new(0, 0));
}

#[test]
fn compute_crop_rect_resets_the_ratio_on_windows() {
    let mut s = FirstWindow::new(String::from("windows"));
    s.set_multiplication_factor(Scale::new(2, 1));
    s.width = 800;
    s.height = 500;
    s.compute_canvas_dim();
    s.set_to_cut_rect(Point::new(50, 40), Point::new(150, 140));
    let r = s.compute_crop_rect(Point::new(10, 10));
    assert_eq!(
        s.multiplication_factor,
        Some(Scale::new(1, 1)),
        "cropping on windows resets the ratio to one"
    );
    assert_eq!(r.2, 100 * 2, "the canvas shrink of one half is undone");
}

#[test]
fn select_screen_records_the_choice() {
    let mut s = session();
    s.select_screen(3, 2560, 1440, 100, 200);
    assert_eq!(s.screen_to_show, Some(3));
    assert_eq!(s.screen_size, Some((2560, 1440)));
    assert_eq!(s.frame_initial_pos, Some(Point::new(100, 200)));
}
