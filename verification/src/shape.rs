use vstd::prelude::*;

use crate::color::Color;
use crate::tool::Tool;

verus! {

/// One annotation: the tool that made it, its control points (in whatever
/// coordinate space the caller works in), its colour, the text it carries
/// (for text annotations) and its number (for step markers).
#[derive(Debug)]
pub struct Shape<P> {
    pub tool: Tool,
    pub points: Vec<P>,
    pub color: Color,
    pub text: String,
    pub step_number: Option<usize>,
}

/// The mathematical value of a [`Shape`].
pub struct ShapeModel<P> {
    pub tool: Tool,
    pub points: Seq<P>,
    pub color: Color,
    pub text: Seq<char>,
    pub step_number: Option<usize>,
}

impl<P> View for Shape<P> {
    type V = ShapeModel<P>;

    open spec fn view(&self) -> ShapeModel<P> {
        ShapeModel {
            tool: self.tool,
            points: self.points@,
            color: self.color,
            text: self.text@,
            step_number: self.step_number,
        }
    }
}

/// The shape that a drag started at `p` begins with: both control points at `p`
/// and no text.
pub open spec fn started_shape<P>(tool: Tool, p: P, color: Color, step_number: Option<usize>) -> ShapeModel<P> {
    ShapeModel { tool, points: seq![p, p], color, text: Seq::empty(), step_number }
}

/// Whether the shape is painted on screen: rectangles, circles, arrows and blur
/// areas need two points, pens two points, step markers one point, and text
/// either some text or being the shape still under edit.
pub open spec fn painted_on_screen<P>(s: ShapeModel<P>, is_preview: bool) -> bool {
    match s.tool {
        Tool::Rectangle | Tool::Circle | Tool::Pen | Tool::Arrow | Tool::Blur => s.points.len() >= 2,
        Tool::Step => s.points.len() >= 1,
        Tool::Text => s.text.len() > 0 || is_preview,
        Tool::Move => false,
    }
}

impl<P: Copy> Shape<P> {
    /// Starts a shape at `p` with the given tool, colour and step number.
    pub fn start(tool: Tool, p: P, color: Color, step_number: Option<usize>) -> (s: Shape<P>)
        ensures
            s@ == started_shape(tool, p, color, step_number),
    {
        let mut points: Vec<P> = Vec::new();
        points.push(p);
        points.push(p);
        let s = Shape { tool, points, color, text: String::new(), step_number };
        assert(s@.points =~= seq![p, p]);
        s
    }

    /// Tells whether the shape is painted on screen (see [`painted_on_screen`]).
    pub fn is_painted(&self, is_preview: bool) -> (res: bool)
        ensures
            res == painted_on_screen(self@, is_preview),
    {
        match self.tool {
            Tool::Rectangle | Tool::Circle | Tool::Pen | Tool::Arrow | Tool::Blur => self.points.len() >= 2,
            Tool::Step => self.points.len() >= 1,
            Tool::Text => self.text.as_str().unicode_len() > 0 || is_preview,
            Tool::Move => false,
        }
    }
}

} // verus!
