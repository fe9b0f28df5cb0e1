use way_cooler::base_draw::{BaseDraw, DrawErr, DrawOp, DrawStatus, PaintRect};
use way_cooler::borders::{Borders, Output, TITLE_OFFSET};
use way_cooler::color::Color;
use way_cooler::config::{resolve, resolve_number, Config, ConfigKey, Setting};
use way_cooler::drop_data;
use way_cooler::geometry::{outer_geometry, Geometry, Point, Size};
use way_cooler::simple_draw::{DrawStep, Drawable, SimpleDraw};
use way_cooler::stride::calculate_stride;

fn geometry(x: i32, y: i32, w: u32, h: u32) -> Geometry {
    Geometry { origin: Point { x, y }, size: Size { w, h } }
}

fn config_with_thickness(t: i64) -> Config {
    let mut c = Config::new();
    c.set(ConfigKey::BorderSize, Setting::Number(t));
    c
}

#[test]
fn outer_geometry_scenario() {
    let g = geometry(10, 10, 100, 50);
    assert_eq!(outer_geometry(g, 4, 50), Some(geometry(6, -44, 104, 104)));
}

#[test]
fn outer_geometry_title_only_on_top() {
    let g = geometry(0, 0, 20, 30);
    let o = outer_geometry(g, 3, 7).unwrap();
    assert_eq!(o.origin.x, -3);
    assert_eq!(o.origin.y, -10);
    assert_eq!(o.size.w, 23);
    assert_eq!(o.size.h, 40);
}

#[test]
fn outer_geometry_overflow_is_none() {
    assert_eq!(outer_geometry(geometry(i32::MIN, 0, 1, 1), 1, 0), None);
    assert_eq!(outer_geometry(geometry(0, 0, u32::MAX, 1), 1, 0), None);
}

#[test]
fn create_scenario() {
    let c = config_with_thickness(4);
    let b = Borders::new(geometry(10, 10, 100, 50), Output { handle: 7 }, &c).unwrap();
    assert_eq!(b.get_geometry(), geometry(6, -44, 104, 104));
    assert_eq!(b.get_output(), Output { handle: 7 });
    assert_eq!(b.buffer().len(), 416 * 104);
    assert!(b.buffer().iter().all(|&x| x == 0));
    assert_eq!(b.title(), "Hello World!");
}

#[test]
fn create_without_thickness_is_none() {
    let g = geometry(10, 10, 100, 50);
    assert!(Borders::new(g, Output { handle: 1 }, &Config::new()).is_none());
    assert!(Borders::new(g, Output { handle: 1 }, &config_with_thickness(0)).is_none());
    assert!(Borders::new(g, Output { handle: 1 }, &config_with_thickness(-3)).is_none());
}

#[test]
fn reallocate_without_thickness_is_none() {
    let g = geometry(10, 10, 100, 50);
    let b = Borders::new(g, Output { handle: 1 }, &config_with_thickness(4)).unwrap();
    assert!(b.reallocate_buffer(g, &config_with_thickness(0)).is_none());
}

#[test]
fn reallocate_twice_keeps_buffer() {
    let c = config_with_thickness(4);
    let b = Borders::new(geometry(0, 0, 10, 10), Output { handle: 1 }, &c).unwrap();
    let g = geometry(5, 5, 30, 20);
    let first = b.reallocate_buffer(g, &c).unwrap();
    let len = first.buffer().len();
    let ptr = first.buffer().as_ptr();
    let second = first.reallocate_buffer(g, &c).unwrap();
    assert_eq!(second.buffer().len(), len);
    assert_eq!(second.buffer().as_ptr(), ptr);
    assert_eq!(second.get_geometry(), geometry(1, -49, 34, 74));
}

#[test]
fn reallocate_same_size_moves_origin() {
    let c = config_with_thickness(2);
    let b = Borders::new(geometry(0, 0, 10, 10), Output { handle: 1 }, &c).unwrap();
    let ptr = b.buffer().as_ptr();
    let moved = b.reallocate_buffer(geometry(40, 60, 10, 10), &c).unwrap();
    assert_eq!(moved.buffer().as_ptr(), ptr);
    assert_eq!(moved.get_geometry(), geometry(38, 8, 12, 62));
}

#[test]
fn reallocate_new_size_zeroes_buffer() {
    let c = config_with_thickness(2);
    let mut b = Borders::new(geometry(0, 0, 10, 10), Output { handle: 1 }, &c).unwrap();
    b.get_surface()[0] = 9;
    let b = b.reallocate_buffer(geometry(0, 0, 20, 10), &c).unwrap();
    assert_eq!(b.buffer().len(), 4 * 22 * 62);
    assert!(b.buffer().iter().all(|&x| x == 0));
}

#[test]
fn thickness_resolution() {
    assert_eq!(Borders::thickness(&Config::new()), 0);
    assert_eq!(Borders::thickness(&config_with_thickness(-5)), 0);
    assert_eq!(Borders::thickness(&config_with_thickness(6)), 6);
    assert_eq!(Borders::thickness(&config_with_thickness(i64::MAX)), u32::MAX);
    let mut c = Config::new();
    c.set(ConfigKey::BorderSize, Setting::NonNumeric);
    assert_eq!(Borders::thickness(&c), 0);
}

#[test]
fn resolve_values() {
    assert_eq!(resolve(Setting::Unset), None);
    assert_eq!(resolve(Setting::NonNumeric), Some(0));
    assert_eq!(resolve(Setting::Number(0)), Some(0));
    assert_eq!(resolve(Setting::Number(42)), Some(42));
    assert_eq!(resolve(Setting::Number(1 << 40)), Some(u32::MAX));
    assert_eq!(resolve_number(Setting::Unset), None);
    assert_eq!(resolve_number(Setting::NonNumeric), None);
    assert_eq!(resolve_number(Setting::Number(-4)), Some(0));
    assert_eq!(resolve_number(Setting::Number(0x1234)), Some(0x1234));
}

#[test]
fn color_fallback() {
    let c = Config::new();
    assert_eq!(Borders::default_color(&c), Color { r: 0, g: 0, b: 0, a: 255 });
    assert_eq!(Borders::active_color(&c), None);
    let mut c = Config::new();
    c.set(ConfigKey::ActiveBorderColor, Setting::NonNumeric);
    assert_eq!(Borders::active_color(&c), None);
    c.set(ConfigKey::ActiveBorderColor, Setting::Number(0));
    assert_eq!(Borders::active_color(&c), Some(Color { r: 0, g: 0, b: 0, a: 255 }));
}

#[test]
fn configured_colors() {
    let mut c = Config::new();
    c.set(ConfigKey::BorderColor, Setting::Number(0x123456));
    c.set(ConfigKey::ActiveBorderColor, Setting::Number(0xff0000));
    assert_eq!(Borders::default_color(&c), Color { r: 0x12, g: 0x34, b: 0x56, a: 255 });
    assert_eq!(Borders::active_color(&c), Some(Color { r: 0xff, g: 0, b: 0, a: 255 }));
}

#[test]
fn own_color_overrides_default() {
    let mut c = config_with_thickness(1);
    c.set(ConfigKey::BorderColor, Setting::Number(0x00ff00));
    let mut b = Borders::new(geometry(0, 0, 4, 4), Output { handle: 1 }, &c).unwrap();
    assert_eq!(b.color(&c), Color { r: 0, g: 0xff, b: 0, a: 255 });
    b.set_color(Some(Color { r: 1, g: 2, b: 3, a: 4 }));
    assert_eq!(b.color(&c), Color { r: 1, g: 2, b: 3, a: 4 });
    b.set_color(None);
    assert_eq!(b.color(&c), Color { r: 0, g: 0xff, b: 0, a: 255 });
}

#[test]
fn borders_equal_by_geometry() {
    let c = config_with_thickness(2);
    let a = Borders::new(geometry(0, 0, 4, 4), Output { handle: 1 }, &c).unwrap();
    let mut b = Borders::new(geometry(0, 0, 4, 4), Output { handle: 2 }, &c).unwrap();
    b.get_surface()[3] = 1;
    assert!(a == b);
    let d = Borders::new(geometry(1, 0, 4, 4), Output { handle: 1 }, &c).unwrap();
    assert!(a != d);
}

#[test]
fn packed_colors() {
    let c = Color::from_packed(0xab123456);
    assert_eq!(c, Color { r: 0x12, g: 0x34, b: 0x56, a: 255 });
    assert_eq!(c.packed(), 0x123456);
    assert_eq!(c.values(), (0x12, 0x34, 0x56, 255));
}

#[test]
fn stride_values() {
    assert_eq!(calculate_stride(0), 0);
    assert_eq!(calculate_stride(1), 4);
    assert_eq!(calculate_stride(104), 416);
}

#[test]
fn title_offset_value() {
    assert_eq!(Borders::title_offset(), 50);
    assert_eq!(TITLE_OFFSET, 50);
}

#[test]
fn config_key_names() {
    assert_eq!(ConfigKey::BorderSize.name(), "border_size");
    assert_eq!(ConfigKey::BorderColor.name(), "border_color");
    assert_eq!(ConfigKey::ActiveBorderColor.name(), "active_border_color");
}

fn started_pass(thickness: u32) -> (SimpleDraw, Geometry) {
    let c = config_with_thickness(thickness as i64);
    let b = Borders::new(geometry(10, 10, 100, 50), Output { handle: 1 }, &c).unwrap();
    let original = b.get_geometry();
    let d = SimpleDraw::new(BaseDraw::new(b), Color { r: 9, g: 8, b: 7, a: 255 }, thickness);
    (Drawable::draw(d, original), original)
}

#[test]
fn simple_draw_queues_clear_color_and_rectangle() {
    let (mut d, original) = started_pass(4);
    let ops = d.take_ops();
    assert_eq!(
        ops,
        vec![
            DrawOp::SetSource(Color { r: 0, g: 0, b: 0, a: 0 }),
            DrawOp::Paint,
            DrawOp::SetSource(Color { r: 9, g: 8, b: 7, a: 255 }),
            DrawOp::Rectangle(PaintRect { x: 4, y: -46, w: 108, h: 108 }),
        ]
    );
    assert_eq!(original, geometry(6, -44, 104, 104));
    assert!(d.take_ops().is_empty());
}

#[test]
fn simple_draw_odd_thickness_truncates() {
    let (mut d, _) = started_pass(5);
    let ops = d.take_ops();
    assert_eq!(ops[3], DrawOp::Rectangle(PaintRect { x: 3, y: -47, w: 110, h: 110 }));
}

#[test]
fn simple_draw_success_keeps_geometry() {
    let (mut d, original) = started_pass(4);
    d.take_ops();
    d.surface()[0] = 5;
    let mut d = match d.resume(DrawStatus::Success) {
        DrawStep::Continue(d) => d,
        DrawStep::Done(_) => panic!("pass ended after the rectangle"),
    };
    assert_eq!(d.take_ops(), vec![DrawOp::Fill]);
    match d.resume(DrawStatus::Success) {
        DrawStep::Done(Ok(b)) => {
            assert_eq!(b.get_geometry(), original);
            assert_eq!(b.buffer()[0], 5);
        },
        _ => panic!("pass did not end with the border"),
    }
}

#[test]
fn simple_draw_fill_failure_is_error() {
    let (mut d, original) = started_pass(4);
    d.take_ops();
    let d = match d.resume(DrawStatus::Success) {
        DrawStep::Continue(d) => d,
        DrawStep::Done(_) => panic!("pass ended after the rectangle"),
    };
    match d.resume(DrawStatus::Error(3)) {
        DrawStep::Done(Err(DrawErr::Engine(code, b))) => {
            assert_eq!(code, 3);
            assert_eq!(b.get_geometry(), original);
        },
        _ => panic!("fill failure was not an error"),
    }
}

#[test]
fn simple_draw_rectangle_failure_is_error() {
    let (d, _) = started_pass(4);
    match d.resume(DrawStatus::Error(1)) {
        DrawStep::Done(Err(DrawErr::Engine(code, _))) => assert_eq!(code, 1),
        _ => panic!("rectangle failure was not an error"),
    }
}

#[test]
fn base_draw_check_and_finish() {
    let c = config_with_thickness(2);
    let b = Borders::new(geometry(0, 0, 4, 4), Output { handle: 1 }, &c).unwrap();
    let mut base = BaseDraw::new(b);
    base.clear();
    base.fill();
    assert_eq!(base.take_ops(), vec![DrawOp::SetSource(Color::transparent()), DrawOp::Paint, DrawOp::Fill]);
    let base = match base.check_cairo(DrawStatus::Success) {
        Ok(base) => base,
        Err(_) => panic!("success was an error"),
    };
    let moved = geometry(3, 3, 6, 56);
    let b = base.finish(moved);
    assert_eq!(b.get_geometry(), moved);
    drop_data(vec![1, 2, 3]);
}

#[test]
fn simple_draw_rectangle_from_border_geometry() {
    let c = config_with_thickness(4);
    let b = Borders::new(geometry(10, 10, 100, 50), Output { handle: 1 }, &c).unwrap();
    let d = SimpleDraw::new(BaseDraw::new(b), Color { r: 1, g: 1, b: 1, a: 255 }, 4);
    let mut d = Drawable::draw(d, geometry(0, 0, 10, 10));
    let ops = d.take_ops();
    assert_eq!(ops[3], DrawOp::Rectangle(PaintRect { x: 4, y: -46, w: 108, h: 108 }));
}

#[test]
fn simple_draw_error_before_start_is_error() {
    let c = config_with_thickness(4);
    let b = Borders::new(geometry(10, 10, 100, 50), Output { handle: 1 }, &c).unwrap();
    let d = SimpleDraw::new(BaseDraw::new(b), Color { r: 1, g: 1, b: 1, a: 255 }, 4);
    match d.resume(DrawStatus::Error(2)) {
        DrawStep::Done(Err(DrawErr::Engine(code, b))) => {
            assert_eq!(code, 2);
            assert_eq!(b.get_geometry(), geometry(6, -44, 104, 104));
        },
        _ => panic!("error status did not end the pass"),
    }
}
