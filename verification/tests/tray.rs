use macroquad::color::Color;
use macroquad::math::Vec2;
use marbling::error::InkError;
use marbling::ink::{InkDrop, TineLine};
use marbling::plane::Plane;
use marbling::settings::{Settings, DEFAULT_TINE_DISPLACEMENT, DEFAULT_TINE_SHARPNESS};
use marbling::tray::Tray;
use marbling::ui::UiEvent;

/// The plane of single-precision points, with radii and angles in double
/// precision.
struct Flat;

impl Plane for Flat {
    type Point = Vec2;
    type Scalar = f32;
    type Wide = f64;

    fn full_turn() -> f64 {
        std::f64::consts::TAU
    }

    fn count(n: usize) -> f64 {
        n as f64
    }

    fn wide_times(a: f64, b: f64) -> f64 {
        a * b
    }

    fn wide_over(a: f64, b: f64) -> f64 {
        a / b
    }

    fn cos(angle: f64) -> f64 {
        angle.cos()
    }

    fn sin(angle: f64) -> f64 {
        angle.sin()
    }

    fn narrow(a: f64) -> f32 {
        a as f32
    }

    fn one() -> f32 {
        1.0
    }

    fn half() -> f32 {
        0.5
    }

    fn plus(a: f32, b: f32) -> f32 {
        a + b
    }

    fn times(a: f32, b: f32) -> f32 {
        a * b
    }

    fn over(a: f32, b: f32) -> f32 {
        a / b
    }

    fn sqrt(a: f32) -> f32 {
        a.sqrt()
    }

    fn powf(base: f32, exponent: f32) -> f32 {
        base.powf(exponent)
    }

    fn abs(a: f32) -> f32 {
        a.abs()
    }

    fn is_zero(a: f32) -> bool {
        a == 0.0
    }

    fn is_positive(a: f32) -> bool {
        a > 0.0
    }

    fn point(x: f32, y: f32) -> Vec2 {
        Vec2::new(x, y)
    }

    fn shift(a: Vec2, b: Vec2) -> Vec2 {
        a + b
    }

    fn between(a: Vec2, b: Vec2) -> Vec2 {
        a - b
    }

    fn scale(v: Vec2, factor: f32) -> Vec2 {
        v * factor
    }

    fn dot(a: Vec2, b: Vec2) -> f32 {
        a.dot(b)
    }

    fn length_squared(v: Vec2) -> f32 {
        v.length_squared()
    }

    fn perp(v: Vec2) -> Vec2 {
        v.perp()
    }

    fn normalize(v: Vec2) -> Option<Vec2> {
        v.try_normalize()
    }
}

const RED: Color = Color { r: 1.0, g: 0.0, b: 0.0, a: 1.0 };
const BLUE: Color = Color { r: 0.0, g: 0.0, b: 1.0, a: 1.0 };

fn free_pointer() -> Settings<Flat> {
    let mut settings = Settings::default();
    settings.pointer_over_controls(false);
    settings
}

fn outlines(tray: &Tray<Flat, Color>) -> Vec<Vec<Vec2>> {
    tray.droplets().iter().map(|d| d.perimeter_points().clone()).collect()
}

fn drag_start(tray: &Tray<Flat, Color>) -> Option<Vec2> {
    tray.tine_drag().as_ref().map(|d| d.start)
}

#[test]
fn the_comb_starts_at_ten_and_two_with_the_pointer_off_the_tray() {
    let settings: Settings<Flat> = Settings::default();
    assert_eq!(DEFAULT_TINE_DISPLACEMENT, 10);
    assert_eq!(DEFAULT_TINE_SHARPNESS, 2);
    assert_eq!(settings.tine_displacement, 10.0);
    assert_eq!(settings.tine_sharpness, 2.0);
    assert!(!settings.mouse_enabled);
}

#[test]
fn the_pointer_is_free_when_it_is_not_over_the_controls() {
    let mut settings: Settings<Flat> = Settings::default();
    settings.tine_displacement = 35.0;
    settings.tine_sharpness = 4.0;
    settings.pointer_over_controls(false);
    assert!(settings.mouse_enabled);
    settings.pointer_over_controls(true);
    assert!(!settings.mouse_enabled);
    assert_eq!(settings.tine_displacement, 35.0);
    assert_eq!(settings.tine_sharpness, 4.0);
}

#[test]
fn the_later_button_wins() {
    assert_eq!(UiEvent::from_clicks(false, false, false), None);
    assert_eq!(UiEvent::from_clicks(true, false, false), Some(UiEvent::Save));
    assert_eq!(UiEvent::from_clicks(false, true, false), Some(UiEvent::Clear));
    assert_eq!(UiEvent::from_clicks(true, true, false), Some(UiEvent::Clear));
    assert_eq!(UiEvent::from_clicks(false, false, true), Some(UiEvent::Scale));
    assert_eq!(UiEvent::from_clicks(true, false, true), Some(UiEvent::Scale));
    assert_eq!(UiEvent::from_clicks(false, true, true), Some(UiEvent::Scale));
    assert_eq!(UiEvent::from_clicks(true, true, true), Some(UiEvent::Scale));
}

#[test]
fn a_new_tray_is_empty() {
    let tray: Tray<Flat, Color> = Tray::new();
    assert!(tray.droplets().is_empty());
    assert!(tray.tine_drag().is_none());
    assert!(tray.draw().is_empty());
}

#[test]
fn the_first_drop_comes_as_it_was_made() {
    let mut tray: Tray<Flat, Color> = Tray::new();
    let drop = InkDrop::new(Vec2::new(200.0, 200.0), 100.0, RED);
    let made = drop.perimeter_points().clone();
    assert_eq!(tray.add_drop(drop, 100.0), Ok(()));
    assert_eq!(tray.droplets().len(), 1);
    assert_eq!(tray.droplets()[0].perimeter_points(), &made);
    assert_eq!(tray.droplets()[0].color(), RED);
}

#[test]
fn a_press_drops_ink_that_pushes_the_earlier_drops_and_not_itself() {
    let mut tray: Tray<Flat, Color> = Tray::new();
    let settings = free_pointer();
    let first = Vec2::new(0.0, 0.0);
    let second = Vec2::new(20.0, 0.0);
    assert_eq!(tray.on_left_press(&settings, first, 10.0, RED), Ok(true));
    assert_eq!(tray.on_left_press(&settings, second, 5.0, BLUE), Ok(true));
    assert_eq!(tray.droplets().len(), 2);

    let mut expected: InkDrop<Flat, Color> = InkDrop::new(first, 10.0, RED);
    let fresh: InkDrop<Flat, Color> = InkDrop::new(second, 5.0, BLUE);
    assert_eq!(expected.be_marbled_by(&fresh, 5.0), Ok(()));
    assert_eq!(tray.droplets()[0].perimeter_points(), expected.perimeter_points());
    assert!((tray.droplets()[0].perimeter_points()[0].x - 8.820).abs() <= 1e-3);
    assert_eq!(tray.droplets()[0].centre(), first);
    assert_eq!(tray.droplets()[0].color(), RED);
    assert_eq!(tray.droplets()[1].perimeter_points(), fresh.perimeter_points());
    assert_eq!(tray.droplets()[1].centre(), second);
    assert_eq!(tray.droplets()[1].color(), BLUE);
}

#[test]
fn every_earlier_drop_is_pushed_by_the_newest_only() {
    let mut tray: Tray<Flat, Color> = Tray::new();
    let settings = free_pointer();
    let centres = [Vec2::new(0.0, 0.0), Vec2::new(300.0, 0.0), Vec2::new(0.0, 300.0)];
    for c in centres {
        assert_eq!(tray.on_left_press(&settings, c, 100.0, RED), Ok(true));
    }
    let before = outlines(&tray);
    let newest = Vec2::new(150.0, 150.0);
    assert_eq!(tray.on_left_press(&settings, newest, 100.0, BLUE), Ok(true));
    let after = outlines(&tray);
    assert_eq!(after.len(), 4);
    let fresh: InkDrop<Flat, Color> = InkDrop::new(newest, 100.0, BLUE);
    for i in 0..3 {
        for (p, q) in before[i].iter().zip(&after[i]) {
            assert_eq!(marbling::ink::marble_point::<Flat>(*p, newest, 10000.0), Some(*q));
        }
    }
    assert_eq!(&after[3], fresh.perimeter_points());
}

#[test]
fn a_press_over_the_controls_drops_nothing() {
    let mut tray: Tray<Flat, Color> = Tray::new();
    let mut settings = free_pointer();
    assert_eq!(tray.on_left_press(&settings, Vec2::ZERO, 10.0, RED), Ok(true));
    settings.pointer_over_controls(true);
    let before = outlines(&tray);
    assert_eq!(tray.on_left_press(&settings, Vec2::new(20.0, 0.0), 5.0, BLUE), Ok(false));
    assert_eq!(outlines(&tray), before);
}

#[test]
fn ink_dropped_on_a_point_of_a_drop_is_degenerate_and_leaves_the_tray() {
    let mut tray: Tray<Flat, Color> = Tray::new();
    let settings = free_pointer();
    assert_eq!(tray.on_left_press(&settings, Vec2::new(-50.0, 0.0), 10.0, RED), Ok(true));
    assert_eq!(tray.on_left_press(&settings, Vec2::ZERO, 10.0, RED), Ok(true));
    let before = outlines(&tray);
    assert_eq!(before[1][0], Vec2::new(10.0, 0.0));
    assert_eq!(
        tray.on_left_press(&settings, Vec2::new(10.0, 0.0), 5.0, BLUE),
        Err(InkError::Degenerate)
    );
    assert_eq!(outlines(&tray), before);
    let stuck = InkDrop::new(Vec2::new(10.0, 0.0), 5.0, BLUE);
    assert_eq!(tray.add_drop(stuck, 5.0), Err(InkError::Degenerate));
    assert_eq!(outlines(&tray), before);
}

#[test]
fn a_comb_is_set_down_only_while_the_pointer_is_free() {
    let mut tray: Tray<Flat, Color> = Tray::new();
    let mut settings = free_pointer();
    settings.pointer_over_controls(true);
    assert!(!tray.on_right_press(&settings, Vec2::new(1.0, 1.0)));
    assert_eq!(drag_start(&tray), None);
    settings.pointer_over_controls(false);
    assert!(tray.on_right_press(&settings, Vec2::new(1.0, 1.0)));
    assert_eq!(drag_start(&tray), Some(Vec2::new(1.0, 1.0)));
    assert!(tray.on_right_press(&settings, Vec2::new(2.0, 3.0)));
    assert_eq!(drag_start(&tray), Some(Vec2::new(2.0, 3.0)));
}

#[test]
fn lifting_the_comb_drags_its_line_through_every_drop() {
    let mut tray: Tray<Flat, Color> = Tray::new();
    let settings = free_pointer();
    assert_eq!(tray.on_left_press(&settings, Vec2::ZERO, 5.0, RED), Ok(true));
    assert_eq!(tray.on_left_press(&settings, Vec2::new(100.0, 40.0), 5.0, BLUE), Ok(true));
    let before = outlines(&tray);

    assert!(tray.on_right_press(&settings, Vec2::ZERO));
    assert_eq!(tray.on_right_release(&settings, Vec2::new(30.0, 0.0)), Ok(true));
    assert_eq!(drag_start(&tray), None);

    let line: TineLine<Flat> =
        TineLine::new(Vec2::ZERO, Vec2::new(30.0, 0.0), 10.0, 2.0).unwrap();
    assert_eq!(line.direction(), Vec2::new(1.0, 0.0));
    let after = outlines(&tray);
    assert_eq!(after.len(), 2);
    for (drop_before, drop_after) in before.iter().zip(&after) {
        assert_eq!(drop_after.len(), 100);
        for (p, q) in drop_before.iter().zip(drop_after) {
            assert_eq!(*q, line.drag(*p));
        }
    }
    assert!(after[0][0].x > before[0][0].x);
    assert_eq!(after[0][0].y, before[0][0].y);
    assert_eq!(tray.droplets()[0].color(), RED);
    assert_eq!(tray.droplets()[1].color(), BLUE);
}

#[test]
fn the_comb_takes_the_displacement_and_sharpness_that_are_set() {
    let mut tray: Tray<Flat, Color> = Tray::new();
    let mut settings = free_pointer();
    assert_eq!(tray.on_left_press(&settings, Vec2::ZERO, 4.0, RED), Ok(true));
    settings.tine_displacement = 32.0;
    settings.tine_sharpness = 1.0;
    assert!(tray.on_right_press(&settings, Vec2::new(-9.0, 0.0)));
    assert_eq!(tray.on_right_release(&settings, Vec2::new(-2.0, 0.0)), Ok(true));
    let points = tray.droplets()[0].perimeter_points();
    assert_eq!(points[0], Vec2::new(36.0, 0.0));
    assert!((points[25] - Vec2::new(2.0, 4.0)).length() <= 1e-3);
}

#[test]
fn a_comb_lifted_where_it_went_down_is_degenerate() {
    let mut tray: Tray<Flat, Color> = Tray::new();
    let settings = free_pointer();
    assert_eq!(tray.on_left_press(&settings, Vec2::ZERO, 5.0, RED), Ok(true));
    let before = outlines(&tray);
    assert!(tray.on_right_press(&settings, Vec2::new(3.0, 3.0)));
    assert_eq!(
        tray.on_right_release(&settings, Vec2::new(3.0, 3.0)),
        Err(InkError::Degenerate)
    );
    assert_eq!(outlines(&tray), before);
    assert_eq!(drag_start(&tray), None);
}

#[test]
fn a_comb_without_sharpness_is_degenerate() {
    for sharpness in [0.0_f32, -2.0] {
        let mut tray: Tray<Flat, Color> = Tray::new();
        let mut settings = free_pointer();
        assert_eq!(tray.on_left_press(&settings, Vec2::ZERO, 5.0, RED), Ok(true));
        let before = outlines(&tray);
        settings.tine_sharpness = sharpness;
        assert!(tray.on_right_press(&settings, Vec2::ZERO));
        assert_eq!(
            tray.on_right_release(&settings, Vec2::new(9.0, 0.0)),
            Err(InkError::Degenerate)
        );
        assert_eq!(outlines(&tray), before);
        assert_eq!(drag_start(&tray), None);
    }
}

#[test]
fn lifting_without_a_comb_does_nothing() {
    let mut tray: Tray<Flat, Color> = Tray::new();
    let settings = free_pointer();
    assert_eq!(tray.on_left_press(&settings, Vec2::ZERO, 5.0, RED), Ok(true));
    let before = outlines(&tray);
    assert_eq!(tray.on_right_release(&settings, Vec2::new(9.0, 0.0)), Ok(false));
    assert_eq!(outlines(&tray), before);
}

#[test]
fn a_comb_lifted_over_the_controls_stays_down() {
    let mut tray: Tray<Flat, Color> = Tray::new();
    let mut settings = free_pointer();
    assert_eq!(tray.on_left_press(&settings, Vec2::ZERO, 5.0, RED), Ok(true));
    let before = outlines(&tray);
    assert!(tray.on_right_press(&settings, Vec2::new(1.0, 0.0)));
    settings.pointer_over_controls(true);
    assert_eq!(tray.on_right_release(&settings, Vec2::new(9.0, 0.0)), Ok(false));
    assert_eq!(outlines(&tray), before);
    assert_eq!(drag_start(&tray), Some(Vec2::new(1.0, 0.0)));
}

#[test]
fn combing_uses_the_line_it_is_given() {
    let mut tray: Tray<Flat, Color> = Tray::new();
    assert_eq!(tray.add_drop(InkDrop::new(Vec2::ZERO, 5.0, RED), 5.0), Ok(()));
    let line: TineLine<Flat> =
        TineLine::new(Vec2::ZERO, Vec2::new(0.0, 2.0), 7.0, 3.0).unwrap();
    tray.comb(&line);
    let moved = tray.droplets()[0].perimeter_points()[25];
    assert!((moved - Vec2::new(0.0, 12.0)).length() <= 1e-3);
    assert_eq!(drag_start(&tray), None);
}

#[test]
fn clearing_leaves_no_drop_and_no_triangle() {
    let mut tray: Tray<Flat, Color> = Tray::new();
    let settings = free_pointer();
    assert_eq!(tray.on_left_press(&settings, Vec2::ZERO, 5.0, RED), Ok(true));
    assert_eq!(tray.on_left_press(&settings, Vec2::new(50.0, 0.0), 5.0, BLUE), Ok(true));
    assert_eq!(tray.draw().len(), 200);
    tray.clear();
    assert_eq!(tray.droplets().len(), 0);
    assert_eq!(tray.draw().len(), 0);
}

#[test]
fn clearing_keeps_a_comb_that_is_down() {
    let mut tray: Tray<Flat, Color> = Tray::new();
    let settings = free_pointer();
    assert_eq!(tray.on_left_press(&settings, Vec2::ZERO, 5.0, RED), Ok(true));
    assert!(tray.on_right_press(&settings, Vec2::new(4.0, 4.0)));
    tray.clear();
    assert_eq!(drag_start(&tray), Some(Vec2::new(4.0, 4.0)));
}

#[test]
fn the_picture_is_every_drop_in_turn() {
    let mut tray: Tray<Flat, Color> = Tray::new();
    let settings = free_pointer();
    assert_eq!(tray.on_left_press(&settings, Vec2::ZERO, 5.0, RED), Ok(true));
    assert_eq!(tray.on_left_press(&settings, Vec2::new(50.0, 0.0), 5.0, BLUE), Ok(true));
    let picture = tray.draw();
    let first = tray.droplets()[0].draw().unwrap();
    let second = tray.droplets()[1].draw().unwrap();
    assert_eq!(picture.len(), 200);
    assert_eq!(&picture[..100], &first[..]);
    assert_eq!(&picture[100..], &second[..]);
    assert_eq!(picture[0].v1, Vec2::ZERO);
    assert_eq!(picture[0].color, RED);
    assert_eq!(picture[100].v1, Vec2::new(50.0, 0.0));
    assert_eq!(picture[100].color, BLUE);
}

#[test]
fn the_controls_save_clear_and_scale() {
    let mut tray: Tray<Flat, Color> = Tray::new();
    let settings = free_pointer();
    assert_eq!(tray.on_ui(UiEvent::Scale), Ok(false));
    assert_eq!(tray.on_left_press(&settings, Vec2::ZERO, 5.0, RED), Ok(true));
    let before = outlines(&tray);

    assert_eq!(tray.on_ui(UiEvent::Save), Ok(true));
    assert_eq!(outlines(&tray), before);

    assert_eq!(tray.on_ui(UiEvent::Scale), Err(InkError::Unsupported));
    assert_eq!(tray.scale(), Err(InkError::Unsupported));
    assert_eq!(outlines(&tray), before);

    assert_eq!(tray.on_ui(UiEvent::Clear), Ok(false));
    assert!(tray.droplets().is_empty());
    assert_eq!(tray.scale(), Ok(()));
}
