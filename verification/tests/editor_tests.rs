use theoshot::color::Color;
use theoshot::editor::Editor;
use theoshot::text::TextEvent;
use theoshot::tool::Tool;

type Pt = (f32, f32);

fn drag(e: &mut Editor<Pt>, from: Pt, to: Pt) {
    e.start_drag(from);
    e.drag_to(to);
    e.stop_drag();
}

#[test]
fn new_editor_starts_with_pen_and_red() {
    let e: Editor<Pt> = Editor::new();
    assert_eq!(e.current_tool(), Tool::Pen);
    assert_eq!(e.stroke_color(), Color { r: 255, g: 0, b: 0, a: 255 });
    assert!(e.shapes().is_empty());
    assert!(e.redo_stack().is_empty());
    assert!(e.pending_shape().is_none());
    assert_eq!(e.current_step(), 1);
    assert_eq!(e.selected_index(), None);
    assert_eq!(e.hover_index(), None);
}

#[test]
fn rectangle_drag_commits_two_points() {
    let mut e: Editor<Pt> = Editor::new();
    e.select_tool(Tool::Rectangle);
    e.start_drag((1.0, 2.0));
    assert_eq!(e.pending_shape().unwrap().points, vec![(1.0, 2.0), (1.0, 2.0)]);
    e.drag_to((5.0, 6.0));
    e.drag_to((7.0, 8.0));
    assert_eq!(e.pending_shape().unwrap().points, vec![(1.0, 2.0), (7.0, 8.0)]);
    e.stop_drag();
    assert!(e.pending_shape().is_none());
    assert_eq!(e.shapes().len(), 1);
    assert_eq!(e.shapes()[0].tool, Tool::Rectangle);
    assert_eq!(e.shapes()[0].points, vec![(1.0, 2.0), (7.0, 8.0)]);
    assert_eq!(e.shapes()[0].step_number, None);
}

#[test]
fn pen_drag_collects_every_point() {
    let mut e: Editor<Pt> = Editor::new();
    e.start_drag((0.0, 0.0));
    e.drag_to((1.0, 0.0));
    e.drag_to((2.0, 1.0));
    e.stop_drag();
    assert_eq!(e.shapes()[0].points, vec![(0.0, 0.0), (0.0, 0.0), (1.0, 0.0), (2.0, 1.0)]);
}

#[test]
fn undo_then_redo_restores_history() {
    let mut e: Editor<Pt> = Editor::new();
    drag(&mut e, (0.0, 0.0), (1.0, 1.0));
    drag(&mut e, (2.0, 2.0), (3.0, 3.0));
    e.undo();
    assert_eq!(e.shapes().len(), 1);
    assert_eq!(e.redo_stack().len(), 1);
    assert_eq!(e.redo_stack()[0].points[0], (2.0, 2.0));
    e.redo();
    assert_eq!(e.shapes().len(), 2);
    assert!(e.redo_stack().is_empty());
    assert_eq!(e.shapes()[1].points[0], (2.0, 2.0));
}

#[test]
fn undo_and_redo_on_empty_history_do_nothing() {
    let mut e: Editor<Pt> = Editor::new();
    e.undo();
    e.redo();
    assert!(e.shapes().is_empty());
    assert!(e.redo_stack().is_empty());
}

#[test]
fn new_shape_clears_redo_stack() {
    let mut e: Editor<Pt> = Editor::new();
    drag(&mut e, (0.0, 0.0), (1.0, 1.0));
    e.undo();
    assert_eq!(e.redo_stack().len(), 1);
    drag(&mut e, (5.0, 5.0), (6.0, 6.0));
    assert!(e.redo_stack().is_empty());
    assert_eq!(e.shapes().len(), 1);
    e.redo();
    assert_eq!(e.shapes().len(), 1);
}

#[test]
fn redo_shortcut_wins_over_undo() {
    let mut e: Editor<Pt> = Editor::new();
    drag(&mut e, (0.0, 0.0), (1.0, 1.0));
    drag(&mut e, (2.0, 2.0), (3.0, 3.0));
    e.apply_history_shortcut(false, true);
    assert_eq!(e.shapes().len(), 1);
    e.apply_history_shortcut(true, true);
    assert_eq!(e.shapes().len(), 2);
    e.apply_history_shortcut(false, false);
    assert_eq!(e.shapes().len(), 2);
}

#[test]
fn step_markers_are_numbered() {
    let mut e: Editor<Pt> = Editor::new();
    e.select_tool(Tool::Step);
    drag(&mut e, (0.0, 0.0), (0.0, 0.0));
    drag(&mut e, (9.0, 9.0), (9.0, 9.0));
    assert_eq!(e.shapes()[0].step_number, Some(1));
    assert_eq!(e.shapes()[1].step_number, Some(2));
    assert_eq!(e.current_step(), 3);
    e.clear_all();
    assert_eq!(e.current_step(), 1);
    assert!(e.shapes().is_empty());
    drag(&mut e, (1.0, 1.0), (1.0, 1.0));
    assert_eq!(e.shapes()[0].step_number, Some(1));
}

#[test]
fn clear_all_empties_history_and_selection() {
    let mut e: Editor<Pt> = Editor::new();
    drag(&mut e, (0.0, 0.0), (1.0, 1.0));
    drag(&mut e, (0.0, 0.0), (1.0, 1.0));
    e.undo();
    e.select_tool(Tool::Move);
    e.set_hover(Some(0));
    e.start_drag((0.0, 0.0));
    assert_eq!(e.selected_index(), Some(0));
    e.clear_all();
    assert!(e.shapes().is_empty());
    assert!(e.redo_stack().is_empty());
    assert_eq!(e.selected_index(), None);
    assert_eq!(e.current_tool(), Tool::Move);
}

#[test]
fn text_waits_for_enter() {
    let mut e: Editor<Pt> = Editor::new();
    e.select_tool(Tool::Text);
    drag(&mut e, (3.0, 4.0), (3.0, 4.0));
    assert!(e.shapes().is_empty());
    assert!(e.pending_shape().is_some());
    e.type_text(&vec![TextEvent::Insert("Olá".to_string()), TextEvent::Insert("x".to_string())]);
    assert_eq!(e.pending_shape().unwrap().text, "Oláx");
    e.type_text(&vec![TextEvent::Backspace]);
    assert_eq!(e.pending_shape().unwrap().text, "Olá");
    e.type_text(&vec![TextEvent::Insert("!".to_string()), TextEvent::Enter]);
    assert!(e.pending_shape().is_none());
    assert_eq!(e.shapes().len(), 1);
    assert_eq!(e.shapes()[0].text, "Olá!");
    assert_eq!(e.shapes()[0].tool, Tool::Text);
}

#[test]
fn text_events_ignored_without_text_tool() {
    let mut e: Editor<Pt> = Editor::new();
    e.select_tool(Tool::Text);
    drag(&mut e, (3.0, 4.0), (3.0, 4.0));
    e.select_tool(Tool::Pen);
    e.type_text(&vec![TextEvent::Insert("a".to_string()), TextEvent::Enter]);
    assert_eq!(e.pending_shape().unwrap().text, "");
    assert!(e.shapes().is_empty());
}

#[test]
fn move_tool_grabs_hovered_shape_and_moves_it() {
    let mut e: Editor<Pt> = Editor::new();
    e.select_tool(Tool::Rectangle);
    drag(&mut e, (0.0, 0.0), (10.0, 10.0));
    e.select_tool(Tool::Move);
    e.set_hover(Some(0));
    e.start_drag((5.0, 5.0));
    assert_eq!(e.selected_index(), Some(0));
    assert!(e.pending_shape().is_none());
    let moving = e.drag_to((6.0, 7.0));
    assert_eq!(moving, Some(0));
    e.move_shape(0, vec![(1.0, 2.0), (11.0, 12.0)]);
    assert_eq!(e.shapes()[0].points, vec![(1.0, 2.0), (11.0, 12.0)]);
    e.stop_drag();
    assert_eq!(e.shapes().len(), 1);
}

#[test]
fn move_tool_without_grab_moves_nothing() {
    let mut e: Editor<Pt> = Editor::new();
    drag(&mut e, (0.0, 0.0), (1.0, 1.0));
    e.select_tool(Tool::Move);
    e.set_hover(None);
    e.start_drag((5.0, 5.0));
    assert_eq!(e.drag_to((6.0, 6.0)), None);
    e.set_hover(Some(7));
    e.start_drag((5.0, 5.0));
    assert_eq!(e.selected_index(), Some(7));
    assert_eq!(e.drag_to((6.0, 6.0)), None);
}

#[test]
fn choosing_a_drawing_tool_releases_the_grab() {
    let mut e: Editor<Pt> = Editor::new();
    drag(&mut e, (0.0, 0.0), (1.0, 1.0));
    e.select_tool(Tool::Move);
    e.set_hover(Some(0));
    e.start_drag((0.0, 0.0));
    e.select_tool(Tool::Move);
    assert_eq!(e.selected_index(), Some(0));
    e.select_tool(Tool::Circle);
    assert_eq!(e.selected_index(), None);
    assert_eq!(e.current_tool(), Tool::Circle);
}

#[test]
fn new_shapes_take_the_stroke_color() {
    let mut e: Editor<Pt> = Editor::new();
    let blue = Color::from_rgb(0, 0, 255);
    e.set_stroke_color(blue);
    drag(&mut e, (0.0, 0.0), (1.0, 1.0));
    assert_eq!(e.shapes()[0].color, blue);
}
