//! The capture session.
//!
//! `FirstWindow` is the application's state: which window is showing, the
//! capture mode and timer, the selected annotation tool, the pointer-drag
//! that selects a screen region, the captured image's dimensions, and the
//! flags the global shortcuts raise. The front end forwards events and plain
//! values; every decision — window transitions, drag normalization,
//! capture-origin adjustment, canvas sizing, crop geometry — is made here.

use vstd::prelude::*;
use vstd::string::*;
use crate::geometry::{
    Point, Scale, IRect, coord_in_range, point_in_range, scale_wf, scale_apply,
    scale_apply_bounds, COORD_BOUND, SMALL_SCALE_BOUND,
};
use crate::painting::{PpOptions, Color};

verus! {

/// How the capture region is chosen.
#[derive(Clone, Copy, Debug, PartialEq, Eq, Structural)]
pub enum ModeOptions {
    Rectangle,
    FullScreen,
}

/// The shape picker's entries.
#[derive(Clone, Copy, Debug, PartialEq, Eq, Structural)]
pub enum Shapes {
    NoShape,
    Arrow,
    Circle,
    Square,
}

/// The capture delay choices.
#[derive(Clone, Copy, Debug, PartialEq, Eq, Structural)]
pub enum TimerOptions {
    NoTimer,
    ThreeSeconds,
    FiveSeconds,
    TenSeconds,
}

/// Whether the captured image has been handed to the canvas.
#[derive(Clone, Copy, Debug, PartialEq, Eq, Structural)]
pub enum LoadingState {
    Loaded,
    NotLoaded,
}

/// The file format the capture is saved in.
#[derive(Clone, Copy, Debug, PartialEq, Eq, Structural)]
pub enum ImageFormat {
    Jpg,
    Png,
    Gif,
}

/// A pixel-per-point ratio small enough that composing it with the canvas
/// shrink factors stays inside `Scale`'s bounds.
pub open spec fn small_scale(s: Scale) -> bool {
    1 <= s.num <= SMALL_SCALE_BOUND && 1 <= s.den <= SMALL_SCALE_BOUND
}

pub struct FirstWindow {
    pub selected_window: usize,

    pub selected_mode: ModeOptions,
    pub selected_mode_string: String,
    pub selected_timer: TimerOptions,
    pub selected_timer_string: String,
    pub selected_timer_numeric: u64,
    pub selected_shape: Shapes,
    pub selected_shape_string: String,
    pub pp_option: Option<PpOptions>,
    pub image_format: ImageFormat,
    pub image_format_string: String,
    pub loading_state: LoadingState,
    pub current_os: String,

    pub mouse_pos: Option<Point>,
    pub mouse_pos_f: Option<Point>,
    pub rect_pos: Point,
    pub rect_pos_f: Point,
    pub width: i64,
    pub height: i64,
    pub texture_size: Option<(i64, i64)>,

    pub screen_to_show: Option<u32>,
    pub screen_size: Option<(i64, i64)>,
    pub frame_initial_pos: Option<Point>,
    pub number_of_screens: Option<usize>,
    pub multiplication_factor: Option<Scale>,
    pub shrink_fact: Option<Scale>,
    pub to_cut_rect: Option<(Point, Point)>,

    pub cut_clicked: bool,
    pub cropped: bool,
    pub save: bool,
    pub ready_to_save: bool,
    pub ready_to_save_with_name: bool,
    pub ready_to_copy: bool,
    pub ready_to_crop: bool,
    pub customizing_hotkey: usize,

    pub circle_pixels: Vec<(Point, i64, Color)>,
    pub square_pixels: Vec<(IRect, Color)>,
    pub arrow_pixels: Vec<(Point, Point, Color)>,
    pub text_pixels: Vec<(Point, Color, String)>,
    pub line_pixels: Vec<(Vec<Point>, Color)>,
}

impl FirstWindow {
    pub closed spec fn spec_selected_window(self) -> usize {
        self.selected_window
    }

    pub closed spec fn spec_mouse_pos(self) -> Option<Point> {
        self.mouse_pos
    }

    pub closed spec fn spec_mouse_pos_f(self) -> Option<Point> {
        self.mouse_pos_f
    }

    pub closed spec fn spec_rect_pos(self) -> Point {
        self.rect_pos
    }

    pub closed spec fn spec_rect_pos_f(self) -> Point {
        self.rect_pos_f
    }

    pub closed spec fn spec_texture_size(self) -> Option<(i64, i64)> {
        self.texture_size
    }

    pub closed spec fn spec_screen_to_show(self) -> Option<u32> {
        self.screen_to_show
    }

    pub closed spec fn spec_screen_size(self) -> Option<(i64, i64)> {
        self.screen_size
    }

    pub closed spec fn spec_frame_initial_pos(self) -> Option<Point> {
        self.frame_initial_pos
    }

    pub closed spec fn spec_multiplication_factor(self) -> Option<Scale> {
        self.multiplication_factor
    }

    pub closed spec fn spec_shrink_fact(self) -> Option<Scale> {
        self.shrink_fact
    }

    pub closed spec fn spec_to_cut_rect(self) -> Option<(Point, Point)> {
        self.to_cut_rect
    }

    /// The session runs on the operating system named `windows`, where
    /// coordinates are corrected by the display's pixel-per-point ratio.
    pub closed spec fn spec_is_windows(self) -> bool {
        self.current_os@ == "windows"@
    }

    /// Coordinates and ratios the session stores stay in the model's range.
    pub closed spec fn wf(self) -> bool {
        &&& 1 <= self.selected_window <= 6
        &&& point_in_range(self.rect_pos)
        &&& point_in_range(self.rect_pos_f)
        &&& (self.mouse_pos is Some ==> point_in_range(self.mouse_pos.unwrap()))
        &&& (self.mouse_pos_f is Some ==> point_in_range(self.mouse_pos_f.unwrap()))
        &&& (self.texture_size is Some ==> 0 <= self.texture_size.unwrap().0 <= COORD_BOUND
            && 0 <= self.texture_size.unwrap().1 <= COORD_BOUND)
        &&& (self.screen_size is Some ==> 0 <= self.screen_size.unwrap().0 <= COORD_BOUND
            && 0 <= self.screen_size.unwrap().1 <= COORD_BOUND)
        &&& (self.frame_initial_pos is Some ==> point_in_range(self.frame_initial_pos.unwrap()))
        &&& (self.multiplication_factor is Some ==> small_scale(
            self.multiplication_factor.unwrap(),
        ))
        &&& (self.shrink_fact is Some ==> scale_wf(self.shrink_fact.unwrap()))
        &&& (self.to_cut_rect is Some ==> point_in_range(self.to_cut_rect.unwrap().0)
            && point_in_range(self.to_cut_rect.unwrap().1))
    }

    /// A fresh session on the named operating system: the chooser window,
    /// rectangle mode, no timer, no shape, the `jpg` format, and every
    /// pending coordinate at its sentinel.
    pub fn new(current_os: String) -> (r: FirstWindow)
        ensures
            r.wf(),
            r.spec_selected_window() == 1,
            r.selected_mode == ModeOptions::Rectangle,
            r.selected_mode_string@ == "Rectangle"@,
            r.selected_timer == TimerOptions::NoTimer,
            r.selected_timer_string@ == "No timer"@,
            r.selected_timer_numeric == 0,
            r.selected_shape == Shapes::NoShape,
            r.selected_shape_string@ == "Select a shape!"@,
            r.pp_option is None,
            r.image_format == ImageFormat::Jpg,
            r.image_format_string@ == "jpg"@,
            r.loading_state == LoadingState::NotLoaded,
            r.current_os@ == current_os@,
            r.spec_mouse_pos() == Some(Point { x: -1i64, y: -1i64 }),
            r.spec_mouse_pos_f() == Some(Point { x: -1i64, y: -1i64 }),
            r.spec_rect_pos() == (Point { x: 0i64, y: 0i64 }),
            r.spec_rect_pos_f() == (Point { x: 0i64, y: 0i64 }),
            r.width == 0 && r.height == 0,
            r.spec_texture_size() is None,
            r.spec_screen_to_show() is None,
            r.spec_screen_size() is None,
            r.spec_frame_initial_pos() is None,
            r.number_of_screens is None,
            r.spec_multiplication_factor() is None,
            r.spec_shrink_fact() is None,
            r.spec_to_cut_rect() is None,
            !r.cut_clicked && !r.cropped && !r.save,
            !r.ready_to_save && !r.ready_to_save_with_name && !r.ready_to_copy
                && !r.ready_to_crop,
            r.customizing_hotkey == usize::MAX,
            r.circle_pixels@.len() == 0,
            r.square_pixels@.len() == 0,
            r.arrow_pixels@.len() == 0,
            r.text_pixels@.len() == 0,
            r.line_pixels@.len() == 0,
    {
        FirstWindow {
            selected_window: 1,
            selected_mode: ModeOptions::Rectangle,
            selected_mode_string: String::from_str("Rectangle"),
            selected_timer: TimerOptions::NoTimer,
            selected_timer_string: String::from_str("No timer"),
            selected_timer_numeric: 0,
            selected_shape: Shapes::NoShape,
            selected_shape_string: String::from_str("Select a shape!"),
            pp_option: None,
            image_format: ImageFormat::Jpg,
            image_format_string: String::from_str("jpg"),
            loading_state: LoadingState::NotLoaded,
            current_os,
            mouse_pos: Some(Point { x: -1, y: -1 }),
            mouse_pos_f: Some(Point { x: -1, y: -1 }),
            rect_pos: Point { x: 0, y: 0 },
            rect_pos_f: Point { x: 0, y: 0 },
            width: 0,
            height: 0,
            texture_size: None,
            screen_to_show: None,
            screen_size: None,
            frame_initial_pos: None,
            number_of_screens: None,
            multiplication_factor: None,
            shrink_fact: None,
            to_cut_rect: None,
            cut_clicked: false,
            cropped: false,
            save: false,
            ready_to_save: false,
            ready_to_save_with_name: false,
            ready_to_copy: false,
            ready_to_crop: false,
            customizing_hotkey: usize::MAX,
            circle_pixels: Vec::new(),
            square_pixels: Vec::new(),
            arrow_pixels: Vec::new(),
            text_pixels: Vec::new(),
            line_pixels: Vec::new(),
        }
    }

    /// Sets the capture size from the selection. In rectangle mode it is the
    /// span of the drag rectangle; in full-screen mode the captured
    /// texture's size. On `windows` the size and the rectangle origin are
    /// then corrected by the pixel-per-point ratio.
    pub fn set_width_height(&mut self)
        requires
            old(self).wf(),
            old(self).selected_mode == ModeOptions::FullScreen ==> old(self).spec_texture_size()
                is Some,
            old(self).spec_is_windows() ==> old(self).spec_multiplication_factor() is Some,
            old(self).spec_is_windows() ==> {
                let m = old(self).spec_multiplication_factor().unwrap();
                &&& coord_in_range(
                    scale_apply(old(self).spec_rect_pos().x as int, m.num as int, m.den as int),
                )
                &&& coord_in_range(
                    scale_apply(old(self).spec_rect_pos().y as int, m.num as int, m.den as int),
                )
            },
        ensures
            final(self).wf(),
            ({
                let w0: int = if old(self).selected_mode == ModeOptions::Rectangle {
                    old(self).spec_rect_pos_f().x - old(self).spec_rect_pos().x
                } else {
                    old(self).spec_texture_size().unwrap().0 as int
                };
                let h0: int = if old(self).selected_mode == ModeOptions::Rectangle {
                    old(self).spec_rect_pos_f().y - old(self).spec_rect_pos().y
                } else {
                    old(self).spec_texture_size().unwrap().1 as int
                };
                if old(self).spec_is_windows() {
                    let m = old(self).spec_multiplication_factor().unwrap();
                    &&& final(self).width == scale_apply(w0, m.num as int, m.den as int)
                    &&& final(self).height == scale_apply(h0, m.num as int, m.den as int)
                    &&& final(self).spec_rect_pos().x == scale_apply(
                        old(self).spec_rect_pos().x as int,
                        m.num as int,
                        m.den as int,
                    )
                    &&& final(self).spec_rect_pos().y == scale_apply(
                        old(self).spec_rect_pos().y as int,
                        m.num as int,
                        m.den as int,
                    )
                } else {
                    &&& final(self).width == w0
                    &&& final(self).height == h0
                    &&& final(self).spec_rect_pos() == old(self).spec_rect_pos()
                }
            }),
            final(self).spec_rect_pos_f() == old(self).spec_rect_pos_f(),
            final(self).spec_selected_window() == old(self).spec_selected_window(),
    {
        match self.selected_mode {
            ModeOptions::Rectangle => {
                self.width = self.rect_pos_f.x - self.rect_pos.x;
                self.height = self.rect_pos_f.y - self.rect_pos.y;
            },
            ModeOptions::FullScreen => {
                let (w, h) = self.texture_size.unwrap();
                self.width = w;
                self.height = h;
            },
        }
        if self.current_os == String::from_str("windows") {
            let m = self.multiplication_factor.unwrap();
            proof {
                scale_apply_bounds(self.width as int, m.num as int, m.den as int);
                scale_apply_bounds(self.height as int, m.num as int, m.den as int);
            }
            self.width = m.apply(self.width);
            self.height = m.apply(self.height);
            self.rect_pos = Point { x: m.apply(self.rect_pos.x), y: m.apply(self.rect_pos.y) };
        }
    }

    /// Normalizes the region drag: whatever diagonal the pointer traced,
    /// `rect_pos` becomes the top-left corner and `rect_pos_f` the
    /// bottom-right one. A drag with no horizontal or no vertical extent
    /// leaves the rectangle as it was.
    pub fn define_rectangle(&mut self)
        requires
            old(self).wf(),
            old(self).spec_mouse_pos() is Some,
            old(self).spec_mouse_pos_f() is Some,
        ensures
            final(self).wf(),
            ({
                let a = old(self).spec_mouse_pos().unwrap();
                let b = old(self).spec_mouse_pos_f().unwrap();
                let dx = b.x - a.x;
                let dy = b.y - a.y;
                if dx > 0 && dy > 0 {
                    final(self).spec_rect_pos() == a && final(self).spec_rect_pos_f() == b
                } else if dx < 0 && dy < 0 {
                    final(self).spec_rect_pos() == b && final(self).spec_rect_pos_f() == a
                } else if dx < 0 && dy > 0 {
                    &&& final(self).spec_rect_pos() == (Point { x: b.x, y: a.y })
                    &&& final(self).spec_rect_pos_f() == (Point { x: a.x, y: b.y })
                } else if dx > 0 && dy < 0 {
                    &&& final(self).spec_rect_pos() == (Point { x: a.x, y: b.y })
                    &&& final(self).spec_rect_pos_f() == (Point { x: b.x, y: a.y })
                } else {
                    final(self).spec_rect_pos() == old(self).spec_rect_pos() && final(self).spec_rect_pos_f() == old(self).spec_rect_pos_f()
                }
            }),
            final(self).spec_mouse_pos() == old(self).spec_mouse_pos(),
            final(self).spec_mouse_pos_f() == old(self).spec_mouse_pos_f(),
            final(self).spec_selected_window() == old(self).spec_selected_window(),
    {
        let a = self.mouse_pos.unwrap();
        let b = self.mouse_pos_f.unwrap();
        let diff_x = b.x - a.x;
        let diff_y = b.y - a.y;
        if diff_x > 0 && diff_y > 0 {
            self.rect_pos = a;
            self.rect_pos_f = b;
        } else if diff_x < 0 && diff_y < 0 {
            self.rect_pos = b;
            self.rect_pos_f = a;
        } else if diff_x < 0 && diff_y > 0 {
            self.rect_pos = Point { x: b.x, y: a.y };
            self.rect_pos_f = Point { x: a.x, y: b.y };
        } else if diff_x > 0 && diff_y < 0 {
            self.rect_pos = Point { x: a.x, y: b.y };
            self.rect_pos_f = Point { x: b.x, y: a.y };
        }
    }

    /// Corrects the capture origin for the screen being captured: on a
    /// non-primary screen the origin moves left by that screen's width, and
    /// an origin that went negative wraps by the selected screen's width.
    pub fn adjust_capture_origin(&mut self, screen_is_primary: bool, screen_width: i64)
        requires
            old(self).wf(),
            0 <= screen_width <= COORD_BOUND,
            !screen_is_primary ==> coord_in_range(old(self).spec_rect_pos().x - screen_width),
            ({
                let x1: int = if !screen_is_primary {
                    old(self).spec_rect_pos().x - screen_width
                } else {
                    old(self).spec_rect_pos().x as int
                };
                x1 < 0 ==> old(self).spec_screen_size() is Some
            }),
        ensures
            final(self).wf(),
            ({
                let x1: int = if !screen_is_primary {
                    old(self).spec_rect_pos().x - screen_width
                } else {
                    old(self).spec_rect_pos().x as int
                };
                let x2: int = if x1 < 0 {
                    x1 + old(self).spec_screen_size().unwrap().0
                } else {
                    x1
                };
                final(self).spec_rect_pos() == (Point { x: x2 as i64, y: old(self).spec_rect_pos().y })
            }),
            final(self).spec_rect_pos_f() == old(self).spec_rect_pos_f(),
    {
        if !screen_is_primary {
            self.rect_pos = Point { x: self.rect_pos.x - screen_width, y: self.rect_pos.y };
        }
        if self.rect_pos.x < 0 {
            let (sw, _sh) = self.screen_size.unwrap();
            self.rect_pos = Point { x: self.rect_pos.x + sw, y: self.rect_pos.y };
        }
    }

    /// Reacts to a global-shortcut event: each slot's shortcut acts only in
    /// the window it belongs to — exit the capture overlay, open it, or
    /// raise one of the save, copy, save-with-name and crop flags on the
    /// editor window.
    pub fn hotkey_event(&mut self, event_id: u32, pressed: bool, ids: &Vec<u32>)
        requires
            old(self).wf(),
            ids@.len() >= 6,
        ensures
            final(self).wf(),
            ({
                let sw = old(self).spec_selected_window();
                let g0 = event_id == ids@[0] && sw == 2;
                let g1 = event_id == ids@[1] && sw == 1;
                let g2 = event_id == ids@[2] && sw == 5;
                let g3 = event_id == ids@[3] && sw == 5;
                let g4 = event_id == ids@[4] && sw == 5;
                let g5 = event_id == ids@[5] && sw == 5;
                if pressed && g0 {
                    final(self).spec_selected_window() == 1 && flags_unchanged(
                        *old(self),
                        *final(self),
                    )
                } else if pressed && !g0 && g1 {
                    final(self).spec_selected_window() == 2 && flags_unchanged(
                        *old(self),
                        *final(self),
                    )
                } else if pressed && !g0 && !g1 && g2 {
                    final(self).ready_to_save && window_unchanged(*old(self), *final(self))
                        && final(self).ready_to_save_with_name == old(self).ready_to_save_with_name && final(self).ready_to_copy == old(self).ready_to_copy && final(self).ready_to_crop == old(self).ready_to_crop
                } else if pressed && !g0 && !g1 && !g2 && g3 {
                    final(self).ready_to_copy && window_unchanged(*old(self), *final(self))
                        && final(self).ready_to_save == old(self).ready_to_save && final(self).ready_to_save_with_name == old(self).ready_to_save_with_name && final(self).ready_to_crop == old(self).ready_to_crop
                } else if pressed && !g0 && !g1 && !g2 && !g3 && g4 {
                    final(self).ready_to_save_with_name && window_unchanged(
                        *old(self),
                        *final(self),
                    ) && final(self).ready_to_save == old(self).ready_to_save && final(self).ready_to_copy == old(self).ready_to_copy && final(self).ready_to_crop
                        == old(self).ready_to_crop
                } else if pressed && !g0 && !g1 && !g2 && !g3 && !g4 && g5 {
                    final(self).ready_to_crop && window_unchanged(*old(self), *final(self))
                        && final(self).ready_to_save == old(self).ready_to_save && final(self).ready_to_copy == old(self).ready_to_copy && final(self).ready_to_save_with_name == old(self).ready_to_save_with_name
                } else {
                    window_unchanged(*old(self), *final(self)) && flags_unchanged(
                        *old(self),
                        *final(self),
                    )
                }
            }),
    {
        if pressed {
            if event_id == ids[0] && self.selected_window == 2 {
                self.selected_window = 1;
            } else if event_id == ids[1] && self.selected_window == 1 {
                self.selected_window = 2;
            } else if event_id == ids[2] && self.selected_window == 5 {
                self.ready_to_save = true;
            } else if event_id == ids[3] && self.selected_window == 5 {
                self.ready_to_copy = true;
            } else if event_id == ids[4] && self.selected_window == 5 {
                self.ready_to_save_with_name = true;
            } else if event_id == ids[5] && self.selected_window == 5 {
                self.ready_to_crop = true;
            }
        }
    }

    /// Records a timer choice: the label and the delay in seconds follow the
    /// chosen entry.
    pub fn select_timer(&mut self, t: TimerOptions)
        requires
            old(self).wf(),
        ensures
            final(self).wf(),
            final(self).selected_timer == t,
            final(self).selected_timer_numeric == match t {
                TimerOptions::NoTimer => 0u64,
                TimerOptions::ThreeSeconds => 3u64,
                TimerOptions::FiveSeconds => 5u64,
                TimerOptions::TenSeconds => 10u64,
            },
            final(self).selected_timer_string@ == match t {
                TimerOptions::NoTimer => "No Timer"@,
                TimerOptions::ThreeSeconds => "3 Seconds"@,
                TimerOptions::FiveSeconds => "5 Seconds"@,
                TimerOptions::TenSeconds => "10 Seconds"@,
            },
            final(self).spec_selected_window() == old(self).spec_selected_window(),
    {
        self.selected_timer = t;
        match t {
            TimerOptions::NoTimer => {
                self.selected_timer_string = String::from_str("No Timer");
                self.selected_timer_numeric = 0;
            },
            TimerOptions::ThreeSeconds => {
                self.selected_timer_string = String::from_str("3 Seconds");
                self.selected_timer_numeric = 3;
            },
            TimerOptions::FiveSeconds => {
                self.selected_timer_string = String::from_str("5 Seconds");
                self.selected_timer_numeric = 5;
            },
            TimerOptions::TenSeconds => {
                self.selected_timer_string = String::from_str("10 Seconds");
                self.selected_timer_numeric = 10;
            },
        }
    }

    /// Records a capture-mode choice and its label.
    pub fn select_mode(&mut self, m: ModeOptions)
        requires
            old(self).wf(),
        ensures
            final(self).wf(),
            final(self).selected_mode == m,
            final(self).selected_mode_string@ == match m {
                ModeOptions::Rectangle => "Rectangle"@,
                ModeOptions::FullScreen => "Full Screen"@,
            },
            final(self).spec_selected_window() == old(self).spec_selected_window(),
    {
        self.selected_mode = m;
        match m {
            ModeOptions::Rectangle => {
                self.selected_mode_string = String::from_str("Rectangle");
            },
            ModeOptions::FullScreen => {
                self.selected_mode_string = String::from_str("Full Screen");
            },
        }
    }

    /// Records a shape-picker choice: the label and the annotation tool
    /// follow the chosen shape; choosing nothing changes nothing.
    pub fn select_shape(&mut self, s: Shapes)
        requires
            old(self).wf(),
        ensures
            final(self).wf(),
            s != Shapes::NoShape ==> final(self).selected_shape == s,
            s == Shapes::NoShape ==> final(self).selected_shape == old(self).selected_shape
                && final(self).pp_option == old(self).pp_option,
            final(self).selected_shape_string@ == match s {
                Shapes::Arrow => "↘ Arrow"@,
                Shapes::Circle => "⭕ Circle"@,
                Shapes::Square => "⬜ Square"@,
                Shapes::NoShape => old(self).selected_shape_string@,
            },
            final(self).pp_option == match s {
                Shapes::Arrow => Some(PpOptions::Arrow),
                Shapes::Circle => Some(PpOptions::Circle),
                Shapes::Square => Some(PpOptions::Square),
                Shapes::NoShape => old(self).pp_option,
            },
            final(self).spec_selected_window() == old(self).spec_selected_window(),
    {
        match s {
            Shapes::Arrow => {
                self.selected_shape = Shapes::Arrow;
                self.selected_shape_string = String::from_str("↘ Arrow");
                self.pp_option = Some(PpOptions::Arrow);
            },
            Shapes::Circle => {
                self.selected_shape = Shapes::Circle;
                self.selected_shape_string = String::from_str("⭕ Circle");
                self.pp_option = Some(PpOptions::Circle);
            },
            Shapes::Square => {
                self.selected_shape = Shapes::Square;
                self.selected_shape_string = String::from_str("⬜ Square");
                self.pp_option = Some(PpOptions::Square);
            },
            Shapes::NoShape => {},
        }
    }

    /// Chooses the freehand paint tool and resets the shape picker's label.
    pub fn select_paint_tool(&mut self)
        requires
            old(self).wf(),
        ensures
            final(self).wf(),
            final(self).pp_option == Some(PpOptions::Painting),
            final(self).selected_shape_string@ == "Select a shape!"@,
            final(self).spec_selected_window() == old(self).spec_selected_window(),
    {
        self.pp_option = Some(PpOptions::Painting);
        self.selected_shape_string = String::from_str("Select a shape!");
    }

    /// Chooses the text tool and resets the shape picker's label.
    pub fn select_text_tool(&mut self)
        requires
            old(self).wf(),
        ensures
            final(self).wf(),
            final(self).pp_option == Some(PpOptions::Text),
            final(self).selected_shape_string@ == "Select a shape!"@,
            final(self).spec_selected_window() == old(self).spec_selected_window(),
    {
        self.pp_option = Some(PpOptions::Text);
        self.selected_shape_string = String::from_str("Select a shape!");
    }

    /// Records a file-format choice and its label.
    pub fn select_format(&mut self, f: ImageFormat)
        requires
            old(self).wf(),
        ensures
            final(self).wf(),
            final(self).image_format == f,
            final(self).image_format_string@ == match f {
                ImageFormat::Jpg => "jpg"@,
                ImageFormat::Png => "png"@,
                ImageFormat::Gif => "gif"@,
            },
            final(self).spec_selected_window() == old(self).spec_selected_window(),
    {
        self.image_format = f;
        match f {
            ImageFormat::Jpg => {
                self.image_format_string = String::from_str("jpg");
            },
            ImageFormat::Png => {
                self.image_format_string = String::from_str("png");
            },
            ImageFormat::Gif => {
                self.image_format_string = String::from_str("gif");
            },
        }
    }

    /// Records which screen to capture: its identifier, size and position.
    pub fn select_screen(&mut self, id: u32, w: i64, h: i64, x: i64, y: i64)
        requires
            old(self).wf(),
            0 <= w <= COORD_BOUND,
            0 <= h <= COORD_BOUND,
            coord_in_range(x as int),
            coord_in_range(y as int),
        ensures
            final(self).wf(),
            final(self).spec_screen_to_show() == Some(id),
            final(self).spec_screen_size() == Some((w, h)),
            final(self).spec_frame_initial_pos() == Some(Point { x: x, y: y }),
            final(self).spec_selected_window() == old(self).spec_selected_window(),
    {
        self.screen_to_show = Some(id);
        self.screen_size = Some((w, h));
        self.frame_initial_pos = Some(Point { x, y });
    }

    /// Records the display's pixel-per-point ratio.
    pub fn set_multiplication_factor(&mut self, m: Scale)
        requires
            old(self).wf(),
            small_scale(m),
        ensures
            final(self).wf(),
            final(self).spec_multiplication_factor() == Some(m),
            final(self).spec_selected_window() == old(self).spec_selected_window(),
    {
        self.multiplication_factor = Some(m);
    }

    /// Records the captured texture's size.
    pub fn set_texture_size(&mut self, w: i64, h: i64)
        requires
            old(self).wf(),
            0 <= w <= COORD_BOUND,
            0 <= h <= COORD_BOUND,
        ensures
            final(self).wf(),
            final(self).spec_texture_size() == Some((w, h)),
            final(self).spec_selected_window() == old(self).spec_selected_window(),
    {
        self.texture_size = Some((w, h));
    }

    /// Records the pointer-down position of the region drag.
    pub fn set_mouse_pos(&mut self, p: Option<Point>)
        requires
            old(self).wf(),
            p is Some ==> point_in_range(p.unwrap()),
        ensures
            final(self).wf(),
            final(self).spec_mouse_pos() == p,
            final(self).spec_selected_window() == old(self).spec_selected_window(),
    {
        self.mouse_pos = p;
    }

    /// Records the latest pointer position of the region drag.
    pub fn set_mouse_pos_f(&mut self, p: Option<Point>)
        requires
            old(self).wf(),
            p is Some ==> point_in_range(p.unwrap()),
        ensures
            final(self).wf(),
            final(self).spec_mouse_pos_f() == p,
            final(self).spec_selected_window() == old(self).spec_selected_window(),
    {
        self.mouse_pos_f = p;
    }

    /// Records the crop window's corners.
    pub fn set_to_cut_rect(&mut self, a: Point, b: Point)
        requires
            old(self).wf(),
            point_in_range(a),
            point_in_range(b),
        ensures
            final(self).wf(),
            final(self).spec_to_cut_rect() == Some((a, b)),
            final(self).spec_selected_window() == old(self).spec_selected_window(),
    {
        self.to_cut_rect = Some((a, b));
    }

    /// Resets the region-drag state on the chooser window.
    pub fn reset_selection(&mut self)
        requires
            old(self).wf(),
        ensures
            final(self).wf(),
            final(self).spec_mouse_pos() == Some(Point { x: -1i64, y: -1i64 }),
            final(self).spec_mouse_pos_f() == Some(Point { x: -1i64, y: -1i64 }),
            final(self).spec_rect_pos() == (Point { x: 0i64, y: 0i64 }),
            final(self).spec_rect_pos_f() == (Point { x: 0i64, y: 0i64 }),
            final(self).spec_selected_window() == old(self).spec_selected_window(),
    {
        self.mouse_pos = Some(Point { x: -1, y: -1 });
        self.mouse_pos_f = Some(Point { x: -1, y: -1 });
        self.rect_pos = Point { x: 0, y: 0 };
        self.rect_pos_f = Point { x: 0, y: 0 };
    }

    /// The window currently showing.
    pub fn selected_window(&self) -> (w: usize)
        ensures
            w == self.spec_selected_window(),
    {
        self.selected_window
    }

    /// Opens the capture overlay, after the front end has waited out the
    /// timer.
    pub fn open_capture_overlay(&mut self)
        requires
            old(self).wf(),
        ensures
            final(self).wf(),
            final(self).spec_selected_window() == 2,
    {
        self.selected_window = 2;
    }

    /// Leaves the capture overlay for the chooser window.
    pub fn close_capture_overlay(&mut self)
        requires
            old(self).wf(),
        ensures
            final(self).wf(),
            final(self).spec_selected_window() == 1,
    {
        self.selected_window = 1;
    }

    /// The pointer was released on the capture overlay: the region is
    /// chosen.
    pub fn finish_region_selection(&mut self)
        requires
            old(self).wf(),
        ensures
            final(self).wf(),
            final(self).spec_selected_window() == 3,
    {
        self.selected_window = 3;
    }

    /// One step of the capture pipeline: the blank frame advances toward the
    /// capture, and the capture hands over to the editor.
    pub fn window_step(&mut self)
        requires
            old(self).wf(),
        ensures
            final(self).wf(),
            final(self).spec_selected_window() == if old(self).spec_selected_window() == 3 {
                4int
            } else if old(self).spec_selected_window() == 4 {
                5int
            } else {
                old(self).spec_selected_window() as int
            },
    {
        if self.selected_window == 3 {
            self.selected_window = 4;
        } else if self.selected_window == 4 {
            self.selected_window = 5;
        }
    }

    /// Opens the settings window.
    pub fn open_settings(&mut self)
        requires
            old(self).wf(),
        ensures
            final(self).wf(),
            final(self).spec_selected_window() == 6,
    {
        self.selected_window = 6;
    }

    /// Leaves the settings window for the chooser.
    pub fn close_settings(&mut self)
        requires
            old(self).wf(),
        ensures
            final(self).wf(),
            final(self).spec_selected_window() == 1,
    {
        self.selected_window = 1;
    }

    /// The captured texture reached the editor: hand it to the canvas with
    /// the paint tool selected, or fall back to the chooser when there is
    /// nothing to show.
    pub fn on_texture_ready(&mut self, has_texture: bool)
        requires
            old(self).wf(),
        ensures
            final(self).wf(),
            has_texture ==> final(self).pp_option == Some(PpOptions::Painting) && final(self).loading_state == LoadingState::Loaded && final(self).spec_selected_window() == old(self).spec_selected_window(),
            !has_texture ==> final(self).spec_selected_window() == 1 && final(self).loading_state
                == old(self).loading_state,
    {
        if has_texture {
            self.pp_option = Some(PpOptions::Painting);
            self.loading_state = LoadingState::Loaded;
        } else {
            self.selected_window = 1;
        }
    }

    /// The canvas size the editor shows the capture at, and the shrink
    /// factor it implies. Large captures shrink to seven or six tenths; on
    /// `windows` the factor is further divided by the pixel-per-point
    /// ratio. The factor is stored and the canvas size returned.
    pub fn compute_canvas_dim(&mut self) -> (dim: (i64, i64))
        requires
            old(self).wf(),
            0 <= old(self).width <= COORD_BOUND,
            0 <= old(self).height <= COORD_BOUND,
            old(self).spec_is_windows() ==> old(self).spec_multiplication_factor() is Some,
        ensures
            final(self).wf(),
            ({
                let base_num: int = if old(self).width >= 1200 && old(self).height >= 700 {
                    7
                } else if old(self).width >= 1200 && old(self).height <= 700 {
                    7
                } else if old(self).width <= 1200 && old(self).height >= 700 {
                    6
                } else {
                    1
                };
                let base_den: int = if old(self).width >= 1200 && old(self).height >= 700 {
                    10
                } else if old(self).width >= 1200 && old(self).height <= 700 {
                    10
                } else if old(self).width <= 1200 && old(self).height >= 700 {
                    10
                } else {
                    1
                };
                let s = final(self).spec_shrink_fact().unwrap();
                &&& final(self).spec_shrink_fact() is Some
                &&& if old(self).spec_is_windows() {
                    let m = old(self).spec_multiplication_factor().unwrap();
                    s.num == base_num * m.den && s.den == base_den * m.num
                } else {
                    s.num == base_num && s.den == base_den
                }
                &&& dim.0 == scale_apply(old(self).width as int, s.num as int, s.den as int)
                &&& dim.1 == scale_apply(old(self).height as int, s.num as int, s.den as int)
            }),
            final(self).width == old(self).width,
            final(self).height == old(self).height,
            final(self).spec_selected_window() == old(self).spec_selected_window(),
    {
        let base_num: u32;
        let base_den: u32;
        if self.width >= 1200 && self.height >= 700 {
            base_num = 7;
            base_den = 10;
        } else if self.width >= 1200 && self.height <= 700 {
            base_num = 7;
            base_den = 10;
        } else if self.width <= 1200 && self.height >= 700 {
            base_num = 6;
            base_den = 10;
        } else {
            base_num = 1;
            base_den = 1;
        }
        let shrink: Scale;
        if self.current_os == String::from_str("windows") {
            let m = self.multiplication_factor.unwrap();
            shrink = Scale { num: base_num * m.den, den: base_den * m.num };
        } else {
            shrink = Scale { num: base_num, den: base_den };
        }
        self.shrink_fact = Some(shrink);
        let w = shrink.apply(self.width);
        let h = shrink.apply(self.height);
        (w, h)
    }

    /// The crop window's geometry in source-image pixels: the offset of the
    /// crop rectangle inside the canvas and its span, each divided by the
    /// shrink factor and scaled by the pixel-per-point ratio, truncated and
    /// floored at zero. On `windows` the ratio is first reset to one. The
    /// canvas origin is `resp_left`.
    pub fn compute_crop_rect(&mut self, resp_left: Point) -> (r: (i64, i64, i64, i64))
        requires
            old(self).wf(),
            point_in_range(resp_left),
            old(self).spec_to_cut_rect() is Some,
            old(self).spec_shrink_fact() is Some,
            !old(self).spec_is_windows() ==> old(self).spec_multiplication_factor() is Some,
            ({
                let s = old(self).spec_shrink_fact().unwrap();
                s.num <= 0x4000 && s.den <= 0x4000
            }),
        ensures
            final(self).wf(),
            final(self).spec_multiplication_factor() == if old(self).spec_is_windows() {
                Some(Scale { num: 1u32, den: 1u32 })
            } else {
                old(self).spec_multiplication_factor()
            },
            ({
                let cut = old(self).spec_to_cut_rect().unwrap();
                let s = old(self).spec_shrink_fact().unwrap();
                let m = final(self).spec_multiplication_factor().unwrap();
                let num: int = s.den * m.num;
                let den: int = s.num * m.den;
                let x0: int = scale_apply(cut.0.x - resp_left.x, num, den);
                let y0: int = scale_apply(cut.0.y - resp_left.y, num, den);
                let w0: int = scale_apply(
                    if cut.0.x - cut.1.x >= 0 {
                        cut.0.x - cut.1.x
                    } else {
                        cut.1.x - cut.0.x
                    },
                    num,
                    den,
                );
                let h0: int = scale_apply(
                    if cut.0.y - cut.1.y >= 0 {
                        cut.0.y - cut.1.y
                    } else {
                        cut.1.y - cut.0.y
                    },
                    num,
                    den,
                );
                &&& r.0 == if x0 < 0 {
                    0int
                } else {
                    x0
                }
                &&& r.1 == if y0 < 0 {
                    0int
                } else {
                    y0
                }
                &&& r.2 == w0
                &&& r.3 == h0
            }),
    {
        if self.current_os == String::from_str("windows") {
            self.multiplication_factor = Some(Scale { num: 1, den: 1 });
        }
        let cut = self.to_cut_rect.unwrap();
        let s = self.shrink_fact.unwrap();
        let m = self.multiplication_factor.unwrap();
        proof {
            assert(1 <= m.num <= 0x400 && 1 <= m.den <= 0x400);
            assert(s.den * m.num <= 0x4000 * 0x400) by (nonlinear_arith)
                requires s.den <= 0x4000 && m.num <= 0x400;
            assert(s.num * m.den <= 0x4000 * 0x400) by (nonlinear_arith)
                requires s.num <= 0x4000 && m.den <= 0x400;
            assert(1 <= s.den * m.num) by (nonlinear_arith)
                requires 1 <= s.den && 1 <= m.num;
            assert(1 <= s.num * m.den) by (nonlinear_arith)
                requires 1 <= s.num && 1 <= m.den;
        }
        let combined = Scale { num: s.den * m.num, den: s.num * m.den };
        let w_span: i64 = if cut.0.x - cut.1.x >= 0 {
            cut.0.x - cut.1.x
        } else {
            cut.1.x - cut.0.x
        };
        let h_span: i64 = if cut.0.y - cut.1.y >= 0 {
            cut.0.y - cut.1.y
        } else {
            cut.1.y - cut.0.y
        };
        let x0 = combined.apply(cut.0.x - resp_left.x);
        let y0 = combined.apply(cut.0.y - resp_left.y);
        let w0 = combined.apply(w_span);
        let h0 = combined.apply(h_span);
        let x = if x0 < 0 {
            0
        } else {
            x0
        };
        let y = if y0 < 0 {
            0
        } else {
            y0
        };
        (x, y, w0, h0)
    }

    /// The crop tool was chosen: the annotation tool is put away and the
    /// editor enters cropping. Returns whether annotations are pending, in
    /// which case the front end must flatten them onto the image first.
    pub fn begin_crop(&mut self) -> (needs_flatten: bool)
        requires
            old(self).wf(),
        ensures
            final(self).wf(),
            final(self).cut_clicked,
            final(self).pp_option is None,
            needs_flatten == (old(self).arrow_pixels@.len() > 0 || old(self).circle_pixels@.len() > 0 || old(self).square_pixels@.len() > 0 || old(self).text_pixels@.len() > 0 || old(self).line_pixels@.len() > 0),
            final(self).spec_selected_window() == old(self).spec_selected_window(),
    {
        self.pp_option = None;
        self.cut_clicked = true;
        self.arrow_pixels.len() > 0 || self.circle_pixels.len() > 0
            || self.square_pixels.len() > 0 || self.text_pixels.len() > 0
            || self.line_pixels.len() > 0
    }

    /// Empties every flattened annotation list, after the front end has
    /// drawn them onto the image.
    pub fn clear_annotation_pixels(&mut self)
        requires
            old(self).wf(),
        ensures
            final(self).wf(),
            final(self).circle_pixels@.len() == 0,
            final(self).square_pixels@.len() == 0,
            final(self).arrow_pixels@.len() == 0,
            final(self).text_pixels@.len() == 0,
            final(self).line_pixels@.len() == 0,
            final(self).spec_selected_window() == old(self).spec_selected_window(),
    {
        self.circle_pixels = Vec::new();
        self.square_pixels = Vec::new();
        self.arrow_pixels = Vec::new();
        self.text_pixels = Vec::new();
        self.line_pixels = Vec::new();
    }

    /// The crop is done: cropping ends, the paint tool returns, and the
    /// crop flag falls.
    pub fn finish_crop(&mut self)
        requires
            old(self).wf(),
        ensures
            final(self).wf(),
            !final(self).cut_clicked,
            final(self).cropped,
            final(self).pp_option == Some(PpOptions::Painting),
            !final(self).ready_to_crop,
            final(self).spec_selected_window() == old(self).spec_selected_window(),
    {
        self.cut_clicked = false;
        self.cropped = true;
        self.pp_option = Some(PpOptions::Painting);
        self.ready_to_crop = false;
    }
}

/// The windows of `b` and `a` agree.
pub open spec fn window_unchanged(a: FirstWindow, b: FirstWindow) -> bool {
    b.spec_selected_window() == a.spec_selected_window()
}

/// The shortcut flags of `b` and `a` agree.
pub open spec fn flags_unchanged(a: FirstWindow, b: FirstWindow) -> bool {
    &&& b.ready_to_save == a.ready_to_save
    &&& b.ready_to_save_with_name == a.ready_to_save_with_name
    &&& b.ready_to_copy == a.ready_to_copy
    &&& b.ready_to_crop == a.ready_to_crop
}

} // verus!
