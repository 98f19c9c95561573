use vstd::prelude::*;

use crate::color::Color;
use crate::shape::{started_shape, Shape, ShapeModel};
use crate::text::{apply_text_events, edit_text, has_enter, TextEvent, TextEventModel};
use crate::tool::Tool;

verus! {

/// The mathematical state of an [`Editor`].
pub struct EditorModel<P> {
    /// The tool selected in the toolbar.
    pub tool: Tool,
    /// The committed annotations, oldest first.
    pub shapes: Seq<ShapeModel<P>>,
    /// The undone annotations; the last one is redone first.
    pub redo: Seq<ShapeModel<P>>,
    /// The annotation being drawn or typed, if any.
    pub pending: Option<ShapeModel<P>>,
    /// The colour new annotations get.
    pub color: Color,
    /// The annotation grabbed by the move tool.
    pub selected: Option<usize>,
    /// The annotation under the pointer while the move tool is active.
    pub hover: Option<usize>,
    /// The number the next step marker gets.
    pub step: usize,
}

/// The colour that new annotations get when the editor opens.
pub open spec fn default_stroke_color() -> Color {
    Color { r: 255, g: 0, b: 0, a: 255 }
}

impl<P> EditorModel<P> {
    /// The state's own invariant: step numbers start at one, and the shape
    /// under construction always has its two control points.
    pub open spec fn wf(self) -> bool {
        &&& self.step >= 1
        &&& self.pending matches Some(s) ==> s.points.len() >= 2
    }

    /// The state of a freshly opened editor.
    pub open spec fn initial() -> Self {
        EditorModel {
            tool: Tool::Pen,
            shapes: Seq::empty(),
            redo: Seq::empty(),
            pending: None,
            color: default_stroke_color(),
            selected: None,
            hover: None,
            step: 1,
        }
    }

    /// Undo: the newest annotation moves onto the redo stack.
    pub open spec fn undo(self) -> Self {
        if self.shapes.len() > 0 {
            EditorModel { shapes: self.shapes.drop_last(), redo: self.redo.push(self.shapes.last()), ..self }
        } else {
            self
        }
    }

    /// Redo: the last undone annotation comes back.
    pub open spec fn redo(self) -> Self {
        if self.redo.len() > 0 {
            EditorModel { shapes: self.shapes.push(self.redo.last()), redo: self.redo.drop_last(), ..self }
        } else {
            self
        }
    }

    /// "Clear all": no annotations, nothing to redo, step numbers restart, nothing grabbed.
    pub open spec fn clear_all(self) -> Self {
        EditorModel { shapes: Seq::empty(), redo: Seq::empty(), step: 1, selected: None, ..self }
    }

    /// Choosing a tool; every tool but the move tool lets go of the grabbed annotation.
    pub open spec fn select_tool(self, t: Tool) -> Self {
        EditorModel { tool: t, selected: if t == Tool::Move { self.selected } else { None }, ..self }
    }

    /// The history shortcuts of one frame: redo wins over undo when both were pressed.
    pub open spec fn history_shortcut(self, redo: bool, undo: bool) -> Self {
        if redo {
            self.redo()
        } else if undo {
            self.undo()
        } else {
            self
        }
    }

    /// A drag starts at `p`: the move tool grabs the hovered annotation, every
    /// other tool starts a new annotation there.
    pub open spec fn start_drag(self, p: P) -> Self {
        if self.tool == Tool::Move {
            EditorModel { selected: self.hover, ..self }
        } else {
            let step_number = if self.tool == Tool::Step { Some(self.step) } else { None };
            EditorModel { pending: Some(started_shape(self.tool, p, self.color, step_number)), ..self }
        }
    }

    /// The annotation that a drag moves: the grabbed one, with the move tool.
    pub open spec fn moving_index(self) -> Option<usize> {
        if self.tool == Tool::Move && self.selected is Some && self.selected.unwrap() < self.shapes.len() {
            self.selected
        } else {
            None
        }
    }

    /// The pointer is dragged to `p`: a pen stroke gains the point, any other
    /// annotation under construction gets `p` as its second control point.
    pub open spec fn drag_to(self, p: P) -> Self {
        if self.tool != Tool::Move && self.pending is Some {
            let s = self.pending.unwrap();
            let points = if s.tool == Tool::Pen { s.points.push(p) } else { s.points.update(1, p) };
            EditorModel { pending: Some(ShapeModel { points, ..s }), ..self }
        } else {
            self
        }
    }

    /// The grabbed annotation `i` gets new control points.
    pub open spec fn move_shape(self, i: int, points: Seq<P>) -> Self {
        EditorModel { shapes: self.shapes.update(i, ShapeModel { points, ..self.shapes[i] }), ..self }
    }

    /// The drag ends: the annotation under construction is committed (and the
    /// redo stack emptied), except a text annotation, which waits for its text.
    /// Committing a step marker advances the step number.
    pub open spec fn stop_drag(self) -> Self {
        match self.pending {
            Some(s) => if s.tool != Tool::Text {
                EditorModel {
                    shapes: self.shapes.push(s),
                    redo: Seq::empty(),
                    pending: None,
                    step: if s.tool == Tool::Step { (self.step + 1) as usize } else { self.step },
                    ..self
                }
            } else {
                self
            },
            None => self,
        }
    }

    /// The keyboard events of one frame reach a text annotation under edit
    /// (only while the text tool is selected); enter commits it.
    pub open spec fn type_text(self, events: Seq<TextEventModel>) -> Self {
        if self.tool == Tool::Text && self.pending is Some {
            let s = self.pending.unwrap();
            let edited = ShapeModel { text: edit_text(s.text, events), ..s };
            if has_enter(events) {
                EditorModel { shapes: self.shapes.push(edited), pending: None, ..self }
            } else {
                EditorModel { pending: Some(edited), ..self }
            }
        } else {
            self
        }
    }
}

/// The editing state of the annotation canvas: the selected tool, the committed
/// annotations with their undo history, the annotation being drawn, and what the
/// move tool has grabbed. `P` is the type of a point on the canvas.
pub struct Editor<P> {
    current_tool: Tool,
    shapes: Vec<Shape<P>>,
    redo_stack: Vec<Shape<P>>,
    current_shape: Option<Shape<P>>,
    stroke_color: Color,
    selected_shape_index: Option<usize>,
    hover_shape_index: Option<usize>,
    current_step: usize,
}

/// The values of a sequence of shapes.
pub open spec fn shape_models<P>(s: Seq<Shape<P>>) -> Seq<ShapeModel<P>> {
    s.map_values(|x: Shape<P>| x@)
}

impl<P> View for Editor<P> {
    type V = EditorModel<P>;

    closed spec fn view(&self) -> EditorModel<P> {
        EditorModel {
            tool: self.current_tool,
            shapes: shape_models(self.shapes@),
            redo: shape_models(self.redo_stack@),
            pending: match self.current_shape {
                Some(s) => Some(s@),
                None => None,
            },
            color: self.stroke_color,
            selected: self.selected_shape_index,
            hover: self.hover_shape_index,
            step: self.current_step,
        }
    }
}

proof fn lemma_models_push<P>(s: Seq<Shape<P>>, x: Shape<P>)
    ensures
        shape_models(s.push(x)) == shape_models(s).push(x@),
{
    assert(shape_models(s.push(x)) =~= shape_models(s).push(x@));
}

proof fn lemma_models_drop_last<P>(s: Seq<Shape<P>>)
    requires
        s.len() > 0,
    ensures
        shape_models(s.drop_last()) == shape_models(s).drop_last(),
        shape_models(s).last() == s.last()@,
{
    assert(shape_models(s.drop_last()) =~= shape_models(s).drop_last());
}

impl<P: Copy> Editor<P> {
    /// A freshly opened editor: the pen tool, red ink, no annotations, step one.
    pub fn new() -> (e: Self)
        ensures
            e@ == EditorModel::<P>::initial(),
            e@.wf(),
    {
        let e = Editor {
            current_tool: Tool::Pen,
            shapes: Vec::new(),
            redo_stack: Vec::new(),
            current_shape: None,
            stroke_color: Color::from_rgb(255, 0, 0),
            selected_shape_index: None,
            hover_shape_index: None,
            current_step: 1,
        };
        assert(shape_models(e.shapes@) =~= Seq::<ShapeModel<P>>::empty());
        assert(shape_models(e.redo_stack@) =~= Seq::<ShapeModel<P>>::empty());
        e
    }

    /// The selected tool.
    pub fn current_tool(&self) -> (t: Tool)
        ensures
            t == self@.tool,
    {
        self.current_tool
    }

    /// The colour that new annotations get.
    pub fn stroke_color(&self) -> (c: Color)
        ensures
            c == self@.color,
    {
        self.stroke_color
    }

    /// Changes the colour that new annotations get.
    pub fn set_stroke_color(&mut self, c: Color)
        requires
            old(self)@.wf(),
        ensures
            final(self)@ == (EditorModel { color: c, ..old(self)@ }),
            final(self)@.wf(),
    {
        self.stroke_color = c;
    }

    /// The committed annotations, oldest first.
    pub fn shapes(&self) -> (s: &Vec<Shape<P>>)
        ensures
            shape_models(s@) == self@.shapes,
    {
        &self.shapes
    }

    /// The undone annotations; the last one is redone first.
    pub fn redo_stack(&self) -> (s: &Vec<Shape<P>>)
        ensures
            shape_models(s@) == self@.redo,
    {
        &self.redo_stack
    }

    /// The annotation being drawn or typed, if any.
    pub fn pending_shape(&self) -> (s: Option<&Shape<P>>)
        ensures
            match s {
                Some(x) => self@.pending == Some(x@),
                None => self@.pending is None,
            },
    {
        match &self.current_shape {
            Some(x) => Some(x),
            None => None,
        }
    }

    /// The annotation grabbed by the move tool.
    pub fn selected_index(&self) -> (i: Option<usize>)
        ensures
            i == self@.selected,
    {
        self.selected_shape_index
    }

    /// The annotation under the pointer while the move tool is active.
    pub fn hover_index(&self) -> (i: Option<usize>)
        ensures
            i == self@.hover,
    {
        self.hover_shape_index
    }

    /// Records which annotation is under the pointer.
    pub fn set_hover(&mut self, i: Option<usize>)
        requires
            old(self)@.wf(),
        ensures
            final(self)@ == (EditorModel { hover: i, ..old(self)@ }),
            final(self)@.wf(),
    {
        self.hover_shape_index = i;
    }

    /// The number the next step marker gets.
    pub fn current_step(&self) -> (n: usize)
        ensures
            n == self@.step,
    {
        self.current_step
    }

    /// Chooses a tool; every tool but the move tool lets go of the grabbed annotation.
    pub fn select_tool(&mut self, t: Tool)
        requires
            old(self)@.wf(),
        ensures
            final(self)@ == old(self)@.select_tool(t),
            final(self)@.wf(),
    {
        self.current_tool = t;
        if t != Tool::Move {
            self.selected_shape_index = None;
        }
    }

    /// Moves the newest annotation onto the redo stack, if there is one.
    pub fn undo(&mut self)
        requires
            old(self)@.wf(),
        ensures
            final(self)@ == old(self)@.undo(),
            final(self)@.wf(),
    {
        proof {
            if self.shapes@.len() > 0 {
                lemma_models_drop_last(self.shapes@);
                lemma_models_push(self.redo_stack@, self.shapes@.last());
            }
        }
        if let Some(s) = self.shapes.pop() {
            self.redo_stack.push(s);
        }
    }

    /// Brings back the last undone annotation, if there is one.
    pub fn redo(&mut self)
        requires
            old(self)@.wf(),
        ensures
            final(self)@ == old(self)@.redo(),
            final(self)@.wf(),
    {
        proof {
            if self.redo_stack@.len() > 0 {
                lemma_models_drop_last(self.redo_stack@);
                lemma_models_push(self.shapes@, self.redo_stack@.last());
            }
        }
        if let Some(s) = self.redo_stack.pop() {
            self.shapes.push(s);
        }
    }

    /// Removes every annotation and the redo history, restarts step numbers and
    /// lets go of the grabbed annotation.
    pub fn clear_all(&mut self)
        requires
            old(self)@.wf(),
        ensures
            final(self)@ == old(self)@.clear_all(),
            final(self)@.wf(),
    {
        self.shapes.clear();
        self.redo_stack.clear();
        self.current_step = 1;
        self.selected_shape_index = None;
        assert(shape_models(self.shapes@) =~= Seq::<ShapeModel<P>>::empty());
        assert(shape_models(self.redo_stack@) =~= Seq::<ShapeModel<P>>::empty());
    }

    /// Applies the history shortcuts pressed in one frame; redo wins over undo.
    pub fn apply_history_shortcut(&mut self, redo: bool, undo: bool)
        requires
            old(self)@.wf(),
        ensures
            final(self)@ == old(self)@.history_shortcut(redo, undo),
            final(self)@.wf(),
    {
        if redo {
            self.redo();
        } else if undo {
            self.undo();
        }
    }

    /// A drag starts at `p`: the move tool grabs the hovered annotation, every
    /// other tool starts a new annotation there (numbered, for step markers).
    pub fn start_drag(&mut self, p: P)
        requires
            old(self)@.wf(),
        ensures
            final(self)@ == old(self)@.start_drag(p),
            final(self)@.wf(),
    {
        if self.current_tool == Tool::Move {
            self.selected_shape_index = self.hover_shape_index;
        } else {
            let step_number = if self.current_tool == Tool::Step {
                Some(self.current_step)
            } else {
                None
            };
            let s = Shape::start(self.current_tool, p, self.stroke_color, step_number);
            self.current_shape = Some(s);
        }
    }

    /// The pointer is dragged to `p`. With the move tool, returns the grabbed
    /// annotation, whose points the caller then moves with [`Editor::move_shape`];
    /// otherwise a pen stroke gains the point, and any other annotation under
    /// construction gets `p` as its second control point.
    pub fn drag_to(&mut self, p: P) -> (moving: Option<usize>)
        requires
            old(self)@.wf(),
        ensures
            moving == old(self)@.moving_index(),
            final(self)@ == old(self)@.drag_to(p),
            final(self)@.wf(),
    {
        if self.current_tool == Tool::Move {
            match self.selected_shape_index {
                Some(i) => if i < self.shapes.len() {
                    Some(i)
                } else {
                    None
                },
                None => None,
            }
        } else {
            match self.current_shape.take() {
                Some(mut s) => {
                    if s.tool == Tool::Pen {
                        s.points.push(p);
                    } else {
                        s.points.set(1, p);
                    }
                    self.current_shape = Some(s);
                },
                None => {},
            }
            None
        }
    }

    /// Gives the committed annotation `i` new control points (the move tool
    /// translates the grabbed annotation this way).
    pub fn move_shape(&mut self, i: usize, points: Vec<P>)
        requires
            old(self)@.wf(),
            i < old(self)@.shapes.len(),
        ensures
            final(self)@ == old(self)@.move_shape(i as int, points@),
            final(self)@.wf(),
    {
        let mut s = self.shapes.remove(i);
        s.points = points;
        self.shapes.insert(i, s);
        proof {
            let olds = old(self)@.shapes;
            assert(shape_models(self.shapes@) =~= olds.update(
                i as int,
                ShapeModel { points: points@, ..olds[i as int] },
            ));
        }
    }

    /// The drag ends: the annotation under construction is committed and the
    /// redo stack emptied, except a text annotation, which waits for its text.
    /// Committing a step marker advances the step number.
    pub fn stop_drag(&mut self)
        requires
            old(self)@.wf(),
            old(self)@.pending matches Some(s) && s.tool == Tool::Step ==> old(self)@.step < usize::MAX,
        ensures
            final(self)@ == old(self)@.stop_drag(),
            final(self)@.wf(),
    {
        match self.current_shape.take() {
            Some(s) => {
                if s.tool != Tool::Text {
                    if s.tool == Tool::Step {
                        self.current_step = self.current_step + 1;
                    }
                    proof {
                        lemma_models_push(self.shapes@, s);
                    }
                    self.shapes.push(s);
                    self.redo_stack.clear();
                    assert(shape_models(self.redo_stack@) =~= Seq::<ShapeModel<P>>::empty());
                } else {
                    self.current_shape = Some(s);
                }
            },
            None => {},
        }
    }

    /// Delivers the keyboard events of one frame to the text annotation under
    /// edit (only while the text tool is selected); enter commits it.
    pub fn type_text(&mut self, events: &Vec<TextEvent>)
        requires
            old(self)@.wf(),
        ensures
            final(self)@ == old(self)@.type_text(events@.map_values(|e: TextEvent| e@)),
            final(self)@.wf(),
    {
        if self.current_tool == Tool::Text {
            match self.current_shape.take() {
                Some(mut s) => {
                    let finished = apply_text_events(&mut s.text, events);
                    if finished {
                        proof {
                            lemma_models_push(self.shapes@, s);
                        }
                        self.shapes.push(s);
                    } else {
                        self.current_shape = Some(s);
                    }
                },
                None => {},
            }
        }
    }
}

} // verus!
