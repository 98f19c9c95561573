use theoshot::capture::{
    crop_region, display_under_cursor, frame_for_cursor, screenshot_path, CapturedFrame, DisplayArea,
};
use theoshot::color::{highlight_color, icon_color, screen_color, Color};
use theoshot::render::{
    apply_op, drawn_by_caller, op_fits, pixelate_region, plan_shape, render_plans, split_plan, DrawOp,
};
use theoshot::shape::Shape;
use theoshot::text::{apply_text_events, TextEvent};
use theoshot::tool::{toolbar_tools, Tool};

fn gradient(width: u32, height: u32) -> CapturedFrame {
    let mut data = Vec::new();
    for y in 0..height {
        for x in 0..width {
            data.extend_from_slice(&[x as u8, y as u8, (x + y) as u8, 255]);
        }
    }
    CapturedFrame { width, height, data }
}

fn pixel(f: &CapturedFrame, x: u32, y: u32) -> [u8; 4] {
    let i = ((y * f.width + x) * 4) as usize;
    [f.data[i], f.data[i + 1], f.data[i + 2], f.data[i + 3]]
}

#[test]
fn light_colors_get_black_icons() {
    assert!(Color::from_rgb(200, 200, 0).is_light());
    assert!(!Color::from_rgb(127, 127, 128).is_light());
    assert!(Color::from_rgb(128, 127, 128).is_light());
    assert_eq!(Color::from_rgb(255, 255, 255).contrast(), Color::black());
    assert_eq!(Color::from_rgb(255, 0, 0).contrast(), Color::white());
    assert_eq!(icon_color(true, Color::from_rgb(255, 255, 0)), Color::black());
    assert_eq!(icon_color(false, Color::from_rgb(255, 255, 0)), Color::white());
}

#[test]
fn preview_is_translucent() {
    let c = Color::from_rgb(10, 20, 30);
    assert_eq!(screen_color(c, true), Color { r: 10, g: 20, b: 30, a: 160 });
    assert_eq!(screen_color(c, false), Color { r: 10, g: 20, b: 30, a: 255 });
    assert_eq!(highlight_color(true).a, 200);
    assert_eq!(highlight_color(false).a, 100);
}

#[test]
fn toolbar_lists_all_tools_in_order() {
    let tools = toolbar_tools();
    assert_eq!(
        tools,
        vec![Tool::Rectangle, Tool::Circle, Tool::Step, Tool::Pen, Tool::Arrow, Tool::Blur, Tool::Text, Tool::Move]
    );
    assert_eq!(Tool::Rectangle.hover_name(), "Retângulo");
    assert_eq!(Tool::Move.hover_name(), "Mover");
}

#[test]
fn shapes_painted_on_screen() {
    let s = Shape::start(Tool::Text, (0i32, 0i32), Color::white(), None);
    assert!(!s.is_painted(false));
    assert!(s.is_painted(true));
    let r = Shape::start(Tool::Rectangle, (0i32, 0i32), Color::white(), None);
    assert!(r.is_painted(false));
    let m = Shape::start(Tool::Move, (0i32, 0i32), Color::white(), None);
    assert!(!m.is_painted(true));
}

#[test]
fn backspace_on_empty_text_does_nothing() {
    let mut t = String::new();
    let done = apply_text_events(&mut t, &vec![TextEvent::Backspace, TextEvent::Insert("ab".to_string())]);
    assert!(!done);
    assert_eq!(t, "ab");
    let done = apply_text_events(&mut t, &vec![TextEvent::Backspace, TextEvent::Enter, TextEvent::Backspace]);
    assert!(done);
    assert_eq!(t, "");
}

#[test]
fn cursor_picks_covering_display() {
    let ds = vec![
        DisplayArea { x: 0, y: 0, width: 100, height: 50 },
        DisplayArea { x: 100, y: 0, width: 80, height: 60 },
    ];
    assert_eq!(display_under_cursor(&ds, 10, 10), Some(0));
    assert_eq!(display_under_cursor(&ds, 100, 59), Some(1));
    assert_eq!(display_under_cursor(&ds, 179, 0), Some(1));
    assert_eq!(display_under_cursor(&ds, 180, 0), Some(0));
    assert_eq!(display_under_cursor(&ds, -1, 5), Some(0));
    assert_eq!(display_under_cursor(&Vec::new(), 1, 1), None);
}

#[test]
fn crop_region_is_clamped_to_frame() {
    let d = DisplayArea { x: 100, y: 0, width: 80, height: 60 };
    assert_eq!(crop_region(&d, 150, 40), (100, 0, 50, 40));
    let d = DisplayArea { x: -20, y: -5, width: 30, height: 10 };
    assert_eq!(crop_region(&d, 150, 40), (0, 0, 30, 10));
    let d = DisplayArea { x: 500, y: 500, width: 30, height: 10 };
    assert_eq!(crop_region(&d, 150, 40), (149, 39, 1, 1));
}

#[test]
fn frame_is_cropped_to_monitor_under_cursor() {
    let full = gradient(8, 6);
    let ds = vec![
        DisplayArea { x: 0, y: 0, width: 4, height: 6 },
        DisplayArea { x: 4, y: 1, width: 4, height: 5 },
    ];
    let out = frame_for_cursor(full, &ds, 5, 2);
    assert_eq!((out.width, out.height), (4, 5));
    assert_eq!(out.data.len(), 4 * 5 * 4);
    assert_eq!(pixel(&out, 0, 0), [4, 1, 5, 255]);
    assert_eq!(pixel(&out, 3, 4), [7, 5, 12, 255]);
}

#[test]
fn frame_without_monitors_is_kept() {
    let full = gradient(3, 2);
    let copy = full.data.clone();
    let out = frame_for_cursor(full, &Vec::new(), 0, 0);
    assert_eq!((out.width, out.height), (3, 2));
    assert_eq!(out.data, copy);
}

#[test]
fn plans_for_each_tool() {
    let pts = vec![(10u32, 20u32), (4u32, 25u32)];
    assert_eq!(
        plan_shape(Tool::Rectangle, &pts, false, None, 0),
        vec![DrawOp::RectOutline { left: 4, top: 20, width: 6, height: 5 }]
    );
    assert_eq!(
        plan_shape(Tool::Blur, &pts, false, None, 0),
        vec![DrawOp::Pixelate { x: 4, y: 20, width: 6, height: 5 }]
    );
    assert_eq!(
        plan_shape(Tool::Circle, &pts, false, None, 7),
        vec![DrawOp::CircleOutline { cx: 10, cy: 20, radius: 7 }]
    );
    assert_eq!(
        plan_shape(Tool::Step, &pts, false, Some(3), 15),
        vec![
            DrawOp::Disc { cx: 10, cy: 20, radius: 15 },
            DrawOp::StepNumber { x: 10, y: 20, radius: 15, number: 3 },
        ]
    );
    assert_eq!(plan_shape(Tool::Step, &pts, false, None, 15), vec![DrawOp::Disc { cx: 10, cy: 20, radius: 15 }]);
    assert_eq!(plan_shape(Tool::Text, &pts, true, None, 0), vec![DrawOp::Text { x: 10, y: 20 }]);
    assert_eq!(plan_shape(Tool::Text, &pts, false, None, 0), vec![]);
    assert_eq!(plan_shape(Tool::Move, &pts, true, Some(1), 1), vec![]);
    let pen = vec![(0u32, 0u32), (1, 1), (2, 3)];
    assert_eq!(
        plan_shape(Tool::Pen, &pen, false, None, 0),
        vec![
            DrawOp::Segment { from: (0, 0), to: (1, 1) },
            DrawOp::Segment { from: (1, 1), to: (2, 3) },
        ]
    );
    assert_eq!(plan_shape(Tool::Pen, &vec![(1u32, 1u32)], false, None, 0), vec![]);
    let arrow = vec![(0u32, 0u32), (9, 9), (9, 9), (5, 8), (9, 9), (8, 5)];
    assert_eq!(
        plan_shape(Tool::Arrow, &arrow, false, None, 0),
        vec![
            DrawOp::Segment { from: (0, 0), to: (9, 9) },
            DrawOp::Segment { from: (9, 9), to: (5, 8) },
            DrawOp::Segment { from: (9, 9), to: (8, 5) },
        ]
    );
}

fn pts_far() -> Vec<(u32, u32)> {
    vec![(1, 1), (9, 9)]
}

#[test]
fn degenerate_shapes_plan_nothing_or_flagged() {
    let same = vec![(3u32, 3u32), (3u32, 3u32)];
    assert_eq!(plan_shape(Tool::Circle, &same, false, None, 0), vec![]);
    assert_eq!(plan_shape(Tool::Circle, &pts_far(), false, None, -3), vec![]);
    assert_eq!(plan_shape(Tool::Blur, &same, false, None, 0), vec![]);
    let ops = plan_shape(Tool::Rectangle, &same, false, None, 0);
    assert_eq!(ops, vec![DrawOp::RectOutline { left: 3, top: 3, width: 0, height: 0 }]);
    assert!(!op_fits(&ops[0], 10, 10));
    assert!(op_fits(&DrawOp::Pixelate { x: 2, y: 2, width: 8, height: 8 }, 10, 10));
    assert!(!op_fits(&DrawOp::Pixelate { x: 3, y: 2, width: 8, height: 8 }, 10, 10));
    assert!(op_fits(&DrawOp::Segment { from: (99, 99), to: (0, 0) }, 10, 10));
    assert!(op_fits(&DrawOp::Disc { cx: 5, cy: 5, radius: -4 }, 10, 10));
    assert!(!op_fits(&DrawOp::Disc { cx: 5, cy: 5, radius: i32::MIN }, 10, 10));
    assert!(!op_fits(&DrawOp::Disc { cx: 0x4000_0000, cy: 5, radius: 1 }, 10, 10));
    assert!(op_fits(&DrawOp::Disc { cx: 0x3fff_ffff, cy: 5, radius: 1 }, 10, 10));
    assert!(!op_fits(&DrawOp::RectOutline { left: 0x3fff_ffff, top: 0, width: 2, height: 2 }, 10, 10));
    assert!(op_fits(&DrawOp::RectOutline { left: 0x3fff_fffe, top: 0, width: 2, height: 2 }, 10, 10));
    assert!(drawn_by_caller(&DrawOp::Segment { from: (0, 0), to: (1, 1) }));
    assert!(drawn_by_caller(&DrawOp::Text { x: 0, y: 0 }));
    assert!(!drawn_by_caller(&DrawOp::Disc { cx: 0, cy: 0, radius: 1 }));
}

#[test]
fn pixelation_changes_only_its_region() {
    let mut f = gradient(20, 10);
    let before = f.data.clone();
    pixelate_region(&mut f, 2, 3, 5, 4);
    assert_eq!((f.width, f.height), (20, 10));
    assert_eq!(f.data.len(), before.len());
    let first = pixel(&f, 2, 3);
    let mut changed = false;
    for y in 0..10u32 {
        for x in 0..20u32 {
            let inside = (2..7).contains(&x) && (3..7).contains(&y);
            let i = ((y * 20 + x) * 4) as usize;
            if inside {
                assert_eq!(pixel(&f, x, y), first);
                if f.data[i..i + 4] != before[i..i + 4] {
                    changed = true;
                }
            } else {
                assert_eq!(f.data[i..i + 4], before[i..i + 4]);
            }
        }
    }
    assert!(changed);
}

#[test]
fn apply_op_draws_outlines_and_discs() {
    let red = Color::from_rgb(255, 0, 0);
    let mut f = gradient(20, 20);
    apply_op(&mut f, &DrawOp::RectOutline { left: 2, top: 3, width: 5, height: 4 }, red);
    assert_eq!(pixel(&f, 2, 3), [255, 0, 0, 255]);
    assert_eq!(pixel(&f, 6, 6), [255, 0, 0, 255]);
    assert_eq!(pixel(&f, 4, 4), [4, 4, 8, 255]);
    let mut g = gradient(20, 20);
    apply_op(&mut g, &DrawOp::CircleOutline { cx: 10, cy: 10, radius: 3 }, red);
    assert_eq!(pixel(&g, 13, 10), [255, 0, 0, 255]);
    assert_eq!(pixel(&g, 10, 10), [10, 10, 20, 255]);
    let mut h = gradient(20, 20);
    apply_op(&mut h, &DrawOp::Disc { cx: 10, cy: 10, radius: 3 }, red);
    assert_eq!(pixel(&h, 10, 10), [255, 0, 0, 255]);
    assert_eq!(pixel(&h, 0, 0), [0, 0, 0, 255]);
    let mut k = gradient(5, 5);
    let before = k.data.clone();
    apply_op(&mut k, &DrawOp::Segment { from: (0, 0), to: (4, 4) }, red);
    apply_op(&mut k, &DrawOp::Text { x: 0, y: 0 }, red);
    apply_op(&mut k, &DrawOp::Disc { cx: 2, cy: 2, radius: -1 }, red);
    apply_op(&mut k, &DrawOp::CircleOutline { cx: 2, cy: 2, radius: -5 }, red);
    assert_eq!(k.data, before);
}

#[test]
fn apply_op_pixelates() {
    let mut f = gradient(8, 8);
    let before = f.data.clone();
    apply_op(&mut f, &DrawOp::Pixelate { x: 0, y: 0, width: 8, height: 8 }, Color::white());
    assert_ne!(f.data, before);
    assert!(f.data.chunks(4).all(|c| c == &f.data[0..4]));
}

#[test]
fn screenshot_uri_to_path() {
    assert_eq!(screenshot_path("file:///tmp/shot%201.png").unwrap(), b"/tmp/shot 1.png".to_vec());
    assert_eq!(screenshot_path("not a url").unwrap_err(), "Url parse error: relative URL without a base");
    assert_eq!(screenshot_path("http://[::1").unwrap_err(), "Url parse error: invalid IPv6 address");
    assert_eq!(
        screenshot_path("https://example.com/a.png").unwrap_err(),
        "Invalid URI: https://example.com/a.png"
    );
}

#[test]
fn monitor_covering_whole_screenshot_keeps_it() {
    let full = gradient(6, 4);
    let copy = full.data.clone();
    let ds = vec![DisplayArea { x: 0, y: 0, width: 6, height: 4 }];
    let out = frame_for_cursor(full, &ds, 100, 100);
    assert_eq!((out.width, out.height), (6, 4));
    assert_eq!(out.data, copy);
}

#[test]
fn backspaces_undo_typing() {
    let mut t = String::from("ab");
    apply_text_events(
        &mut t,
        &vec![TextEvent::Insert("çé".to_string()), TextEvent::Backspace, TextEvent::Backspace],
    );
    assert_eq!(t, "ab");
}

#[test]
fn plans_paint_in_list_order() {
    let red = Color::from_rgb(255, 0, 0);
    let blue = Color::from_rgb(0, 0, 255);
    let mut f = gradient(20, 20);
    let plans = vec![
        (vec![DrawOp::Disc { cx: 10, cy: 10, radius: 3 }], red),
        (vec![DrawOp::Disc { cx: 10, cy: 10, radius: 1 }], blue),
    ];
    render_plans(&mut f, &plans);
    assert_eq!(pixel(&f, 10, 10), [0, 0, 255, 255]);
    assert_eq!(pixel(&f, 12, 10), [255, 0, 0, 255]);
    let mut g = gradient(20, 20);
    let reversed = vec![plans[1].clone(), plans[0].clone()];
    render_plans(&mut g, &reversed);
    assert_eq!(pixel(&g, 10, 10), [255, 0, 0, 255]);
    let mut h = gradient(4, 4);
    let before = h.data.clone();
    render_plans(&mut h, &Vec::new());
    assert_eq!(h.data, before);
}

#[test]
fn small_pixelation_is_uniform_large_is_not_necessarily() {
    let mut f = gradient(200, 10);
    pixelate_region(&mut f, 0, 0, 127, 10);
    let first = pixel(&f, 0, 0);
    for y in 0..10u32 {
        for x in 0..127u32 {
            assert_eq!(pixel(&f, x, y), first);
        }
    }
    let mut g = gradient(200, 10);
    pixelate_region(&mut g, 0, 0, 128, 10);
    assert_ne!(pixel(&g, 0, 0), pixel(&g, 127, 0));
}

#[test]
fn rectangle_outline_sets_exactly_its_border() {
    let red = Color::from_rgb(255, 0, 0);
    let mut f = gradient(12, 10);
    let before = f.data.clone();
    apply_op(&mut f, &DrawOp::RectOutline { left: 2, top: 3, width: 5, height: 4 }, red);
    for y in 0..10u32 {
        for x in 0..12u32 {
            let border = (2..=6).contains(&x) && (3..=6).contains(&y) && (x == 2 || x == 6 || y == 3 || y == 6);
            let i = ((y * 12 + x) * 4) as usize;
            if border {
                assert_eq!(pixel(&f, x, y), [255, 0, 0, 255]);
            } else {
                assert_eq!(f.data[i..i + 4], before[i..i + 4]);
            }
        }
    }
    let mut g = gradient(4, 4);
    apply_op(&mut g, &DrawOp::RectOutline { left: -1, top: 2, width: 3, height: 5 }, red);
    assert_eq!(pixel(&g, 1, 2), [255, 0, 0, 255]);
    assert_eq!(pixel(&g, 0, 3), [0, 3, 3, 255]);
    assert_eq!(pixel(&g, 1, 3), [255, 0, 0, 255]);
}

#[test]
fn split_plan_separates_caller_steps() {
    let ops = plan_shape(Tool::Step, &vec![(3u32, 4u32)], false, Some(2), 5);
    let (library, caller) = split_plan(&ops);
    assert_eq!(library, vec![DrawOp::Disc { cx: 3, cy: 4, radius: 5 }]);
    assert_eq!(caller, vec![DrawOp::StepNumber { x: 3, y: 4, radius: 5, number: 2 }]);
    let pen = plan_shape(Tool::Pen, &vec![(0u32, 0u32), (1, 1)], false, None, 0);
    let (library, caller) = split_plan(&pen);
    assert!(library.is_empty());
    assert_eq!(caller, pen);
    let blur = plan_shape(Tool::Blur, &vec![(0u32, 0u32), (4, 4)], false, None, 0);
    let (library, caller) = split_plan(&blur);
    assert_eq!(library, blur);
    assert!(caller.is_empty());
}
