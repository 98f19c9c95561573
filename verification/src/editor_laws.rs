use vstd::prelude::*;

use crate::editor::EditorModel;
use crate::color::Color;
use crate::shape::ShapeModel;
use crate::text::{edit_text, has_enter, TextEventModel};
use crate::tool::Tool;

verus! {

/// Undoing and then redoing gives back the same state, whenever there was
/// something to undo.
pub proof fn law_undo_then_redo<P>(m: EditorModel<P>)
    requires
        m.shapes.len() > 0,
    ensures
        m.undo().redo() == m,
{
    let r = m.undo().redo();
    assert(r.shapes =~= m.shapes);
    assert(r.redo =~= m.redo);
}

/// Redoing and then undoing gives back the same state, whenever there was
/// something to redo.
pub proof fn law_redo_then_undo<P>(m: EditorModel<P>)
    requires
        m.redo.len() > 0,
    ensures
        m.redo().undo() == m,
{
    let r = m.redo().undo();
    assert(r.shapes =~= m.shapes);
    assert(r.redo =~= m.redo);
}

/// Undo and redo only move annotations between the canvas and the redo stack:
/// none is lost or duplicated, and nothing else changes.
pub proof fn law_history_conserves_annotations<P>(m: EditorModel<P>)
    ensures
        m.undo().shapes + m.undo().redo.reverse() == m.shapes + m.redo.reverse(),
        m.redo().shapes + m.redo().redo.reverse() == m.shapes + m.redo.reverse(),
        m.undo().pending == m.pending && m.undo().step == m.step && m.undo().tool == m.tool,
        m.redo().pending == m.pending && m.redo().step == m.step && m.redo().tool == m.tool,
{
    if m.shapes.len() > 0 {
        let u = m.undo();
        assert(u.redo.reverse() =~= seq![m.shapes.last()] + m.redo.reverse());
        assert(u.shapes + u.redo.reverse() =~= m.shapes + m.redo.reverse());
    }
    if m.redo.len() > 0 {
        let r = m.redo();
        assert(m.redo.reverse() =~= seq![m.redo.last()] + r.redo.reverse());
        assert(r.shapes + r.redo.reverse() =~= m.shapes + m.redo.reverse());
    }
}

/// After "clear all" there is nothing to undo or redo.
pub proof fn law_clear_all_leaves_no_history<P>(m: EditorModel<P>)
    ensures
        m.clear_all().shapes.len() == 0,
        m.clear_all().undo() == m.clear_all(),
        m.clear_all().redo() == m.clear_all(),
        m.clear_all().step == 1,
{
}

/// Committing a drawn annotation appends it to the canvas and forgets what was
/// undone: after it, redo does nothing.
pub proof fn law_commit_discards_redo<P>(m: EditorModel<P>)
    requires
        m.pending matches Some(s) && s.tool != Tool::Text,
    ensures
        m.stop_drag().shapes == m.shapes.push(m.pending.unwrap()),
        m.stop_drag().redo().redo.len() == 0,
        m.stop_drag().redo() == m.stop_drag(),
        m.stop_drag().pending is None,
{
}

/// A step marker drawn with one drag carries the current step number, and the
/// next marker gets the following number.
pub proof fn law_step_markers_are_numbered_in_order<P>(m: EditorModel<P>, p: P, q: P)
    requires
        m.tool == Tool::Step,
        m.step < usize::MAX,
    ensures
        m.start_drag(p).drag_to(q).stop_drag().shapes == m.shapes.push(
            ShapeModel {
                tool: Tool::Step,
                points: seq![p, q],
                color: m.color,
                text: Seq::empty(),
                step_number: Some(m.step),
            },
        ),
        m.start_drag(p).drag_to(q).stop_drag().step == m.step + 1,
{
    let s = m.start_drag(p).drag_to(q).pending.unwrap();
    assert(s.points =~= seq![p, q]);
}

/// Every operation of the editor keeps its invariant.
pub proof fn law_operations_keep_invariant<P>(
    m: EditorModel<P>,
    t: Tool,
    p: P,
    redo: bool,
    undo: bool,
    events: Seq<TextEventModel>,
)
    requires
        m.wf(),
    ensures
        m.undo().wf(),
        m.redo().wf(),
        m.clear_all().wf(),
        m.select_tool(t).wf(),
        m.history_shortcut(redo, undo).wf(),
        m.start_drag(p).wf(),
        m.drag_to(p).wf(),
        m.type_text(events).wf(),
        (m.pending matches Some(s) && s.tool == Tool::Step ==> m.step < usize::MAX) ==> m.stop_drag().wf(),
        EditorModel::<P>::initial().wf(),
{
}

/// Choosing any tool but the move tool lets go of the grabbed annotation;
/// choosing the move tool keeps it.
pub proof fn law_tool_change_releases_grab<P>(m: EditorModel<P>, t: Tool)
    ensures
        t != Tool::Move ==> m.select_tool(t).selected is None,
        t == Tool::Move ==> m.select_tool(t).selected == m.selected,
        m.select_tool(t).shapes == m.shapes,
{
}

/// With the move tool a drag never starts or changes an annotation under
/// construction: it only grabs and moves committed annotations.
pub proof fn law_move_tool_draws_nothing<P>(m: EditorModel<P>, p: P)
    requires
        m.tool == Tool::Move,
    ensures
        m.start_drag(p).pending == m.pending,
        m.start_drag(p).shapes == m.shapes,
        m.start_drag(p).selected == m.hover,
        m.drag_to(p) == m,
{
}

/// Committing an annotation advances the step number only for a step marker,
/// by exactly one (while the number is below the largest `usize`); any other committed annotation, a text annotation left
/// waiting for its text, or a drag with nothing drawn leaves it as it was.
pub proof fn law_only_step_markers_advance_the_number<P>(m: EditorModel<P>)
    ensures
        (m.pending matches Some(s) && s.tool == Tool::Step && m.step < usize::MAX) ==> m.stop_drag().step == m.step + 1,
        !(m.pending matches Some(s) && s.tool == Tool::Step) ==> m.stop_drag().step == m.step,
{
}

/// A drag that starts a step marker while the number is `n`, after any number
/// of committed annotations of other tools, numbers it `n`.
pub proof fn law_step_marker_gets_current_number<P>(m: EditorModel<P>, p: P)
    requires
        m.tool == Tool::Step,
    ensures
        m.start_drag(p).pending matches Some(s) && s.step_number == Some(m.step),
{
}

/// Committing a drawn annotation puts it at the end of the committed list, on
/// top of all earlier ones, and keeps the earlier ones in place.
pub proof fn law_commit_appends_on_top<P>(m: EditorModel<P>)
    requires
        m.pending matches Some(s) && s.tool != Tool::Text,
    ensures
        m.stop_drag().shapes.len() == m.shapes.len() + 1,
        forall|i: int| 0 <= i < m.shapes.len() ==> m.stop_drag().shapes[i] == m.shapes[i],
        m.stop_drag().shapes[m.shapes.len() as int] == m.pending.unwrap(),
{
}

/// With the text tool, Enter commits the text annotation under edit, with its
/// edited text, at the end of the committed list (on top), keeping the earlier
/// annotations in place; undo then takes exactly it away again.
pub proof fn law_enter_commits_text_on_top<P>(m: EditorModel<P>, events: Seq<TextEventModel>)
    requires
        m.tool == Tool::Text,
        m.pending is Some,
        has_enter(events),
    ensures
        m.type_text(events).pending is None,
        m.type_text(events).shapes.len() == m.shapes.len() + 1,
        forall|i: int| 0 <= i < m.shapes.len() ==> m.type_text(events).shapes[i] == m.shapes[i],
        m.type_text(events).shapes[m.shapes.len() as int] == (ShapeModel {
            text: edit_text(m.pending.unwrap().text, events),
            ..m.pending.unwrap()
        }),
        m.type_text(events).undo().shapes == m.shapes,
{
    assert(m.type_text(events).shapes.drop_last() =~= m.shapes);
}

/// Without Enter, typing edits the text of the annotation under edit and
/// commits nothing.
pub proof fn law_typing_without_enter_only_edits<P>(m: EditorModel<P>, events: Seq<TextEventModel>)
    requires
        m.tool == Tool::Text,
        m.pending is Some,
        !has_enter(events),
    ensures
        m.type_text(events).shapes == m.shapes,
        m.type_text(events).pending == Some(
            ShapeModel { text: edit_text(m.pending.unwrap().text, events), ..m.pending.unwrap() },
        ),
{
}

/// Moving annotation `i` changes only its control points, in place: the list
/// keeps its length and order, every other annotation is unchanged, and the
/// grab stays on the same annotation.
pub proof fn law_move_changes_only_that_annotation<P>(m: EditorModel<P>, i: int, points: Seq<P>)
    requires
        0 <= i < m.shapes.len(),
    ensures
        m.move_shape(i, points).shapes.len() == m.shapes.len(),
        m.move_shape(i, points).shapes[i].points == points,
        m.move_shape(i, points).shapes[i].tool == m.shapes[i].tool,
        m.move_shape(i, points).shapes[i].color == m.shapes[i].color,
        m.move_shape(i, points).shapes[i].text == m.shapes[i].text,
        m.move_shape(i, points).shapes[i].step_number == m.shapes[i].step_number,
        forall|j: int| 0 <= j < m.shapes.len() && j != i ==> m.move_shape(i, points).shapes[j] == m.shapes[j],
        m.move_shape(i, points).redo == m.redo,
        m.move_shape(i, points).pending == m.pending,
        m.move_shape(i, points).selected == m.selected,
        m.move_shape(i, points).moving_index() == m.moving_index(),
{
}

/// Undo takes away the newest committed annotation and puts it on top of the
/// redo stack; redo takes the top of the redo stack back onto the end of the
/// committed list. The rest of both lists stays in place.
pub proof fn law_undo_redo_work_on_the_ends<P>(m: EditorModel<P>)
    ensures
        m.shapes.len() > 0 ==> {
            &&& m.undo().shapes.len() == m.shapes.len() - 1
            &&& forall|i: int| 0 <= i < m.shapes.len() - 1 ==> m.undo().shapes[i] == m.shapes[i]
            &&& m.undo().redo.len() == m.redo.len() + 1
            &&& forall|i: int| 0 <= i < m.redo.len() ==> m.undo().redo[i] == m.redo[i]
            &&& m.undo().redo[m.redo.len() as int] == m.shapes[m.shapes.len() - 1]
        },
        m.redo.len() > 0 ==> {
            &&& m.redo().redo.len() == m.redo.len() - 1
            &&& forall|i: int| 0 <= i < m.redo.len() - 1 ==> m.redo().redo[i] == m.redo[i]
            &&& m.redo().shapes.len() == m.shapes.len() + 1
            &&& forall|i: int| 0 <= i < m.shapes.len() ==> m.redo().shapes[i] == m.shapes[i]
            &&& m.redo().shapes[m.shapes.len() as int] == m.redo[m.redo.len() - 1]
        },
        m.shapes.len() == 0 ==> m.undo() == m,
        m.redo.len() == 0 ==> m.redo() == m,
{
}

/// A drag with a drawing tool starts an annotation of that tool, in the
/// current colour, with both control points at the start and no text; a drag
/// to `q` then sets the second control point, or, for the pen, adds `q` at the end.
pub proof fn law_drag_draws_from_start_point<P>(m: EditorModel<P>, p: P, q: P)
    requires
        m.tool != Tool::Move,
    ensures
        m.start_drag(p).pending matches Some(s) && s.tool == m.tool && s.color == m.color && s.points.len() == 2
            && s.points[0] == p && s.points[1] == p && s.text.len() == 0,
        m.start_drag(p).shapes == m.shapes,
        m.tool != Tool::Pen ==> (m.start_drag(p).drag_to(q).pending matches Some(s) && s.points.len() == 2
            && s.points[0] == p && s.points[1] == q),
        m.tool == Tool::Pen ==> (m.start_drag(p).drag_to(q).pending matches Some(s) && s.points.len() == 3
            && s.points[0] == p && s.points[1] == p && s.points[2] == q),
{
}

/// A freshly opened editor has the pen, red ink, nothing drawn and step one.
pub proof fn law_initial_state<P>()
    ensures
        EditorModel::<P>::initial().tool == Tool::Pen,
        EditorModel::<P>::initial().color == (Color { r: 255, g: 0, b: 0, a: 255 }),
        EditorModel::<P>::initial().shapes.len() == 0,
        EditorModel::<P>::initial().redo.len() == 0,
        EditorModel::<P>::initial().pending is None,
        EditorModel::<P>::initial().step == 1,
        EditorModel::<P>::initial().selected is None,
        EditorModel::<P>::initial().hover is None,
{
}

/// The history shortcut of one frame: redo when it was pressed (even with
/// undo), else undo when that was pressed, else nothing.
pub proof fn law_history_shortcut_prefers_redo<P>(m: EditorModel<P>, undo: bool)
    ensures
        m.history_shortcut(true, undo) == m.redo(),
        m.history_shortcut(false, true) == m.undo(),
        m.history_shortcut(false, false) == m,
{
}

/// With the move tool a drag moves the grabbed annotation when it exists, and
/// nothing otherwise; with any other tool it moves nothing.
pub proof fn law_drag_moves_grabbed_annotation<P>(m: EditorModel<P>)
    ensures
        (m.tool == Tool::Move && (m.selected matches Some(i) && i < m.shapes.len())) ==> m.moving_index()
            == m.selected,
        !(m.tool == Tool::Move && (m.selected matches Some(i) && i < m.shapes.len())) ==> m.moving_index() is None,
{
}

/// "Clear all" removes every committed and undone annotation, restarts step
/// numbers at one and lets go of the grab, and keeps the tool, the colour and
/// the annotation under construction.
pub proof fn law_clear_all_resets_history<P>(m: EditorModel<P>)
    ensures
        m.clear_all().shapes.len() == 0,
        m.clear_all().redo.len() == 0,
        m.clear_all().step == 1,
        m.clear_all().selected is None,
        m.clear_all().tool == m.tool,
        m.clear_all().color == m.color,
        m.clear_all().pending == m.pending,
{
}

} // verus!
