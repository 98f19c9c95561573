use vstd::prelude::*;

verus! {

/// The annotation tools offered by the editor toolbar.
#[derive(Clone, Copy, Debug, PartialEq, Eq, Structural)]
pub enum Tool {
    Rectangle,
    Circle,
    Step,
    Pen,
    Arrow,
    Blur,
    Text,
    Move,
}

/// The tools in the order in which the toolbar shows them.
pub open spec fn toolbar_order() -> Seq<Tool> {
    seq![
        Tool::Rectangle,
        Tool::Circle,
        Tool::Step,
        Tool::Pen,
        Tool::Arrow,
        Tool::Blur,
        Tool::Text,
        Tool::Move,
    ]
}

/// The tools in the order in which the toolbar shows them.
pub fn toolbar_tools() -> (tools: Vec<Tool>)
    ensures
        tools@ == toolbar_order(),
{
    let mut tools: Vec<Tool> = Vec::new();
    tools.push(Tool::Rectangle);
    tools.push(Tool::Circle);
    tools.push(Tool::Step);
    tools.push(Tool::Pen);
    tools.push(Tool::Arrow);
    tools.push(Tool::Blur);
    tools.push(Tool::Text);
    tools.push(Tool::Move);
    assert(tools@ =~= toolbar_order());
    tools
}

impl Tool {
    /// The name the toolbar shows when the pointer rests on the tool's button.
    pub fn hover_name(self) -> (name: &'static str)
        ensures
            name@ == hover_name_spec(self),
    {
        match self {
            Tool::Rectangle => "Retângulo",
            Tool::Circle => "Círculo",
            Tool::Step => "Etapas",
            Tool::Pen => "Caneta",
            Tool::Arrow => "Seta",
            Tool::Blur => "Desfoque",
            Tool::Text => "Texto",
            Tool::Move => "Mover",
        }
    }
}

/// The name the toolbar shows for a tool.
pub open spec fn hover_name_spec(t: Tool) -> Seq<char> {
    match t {
        Tool::Rectangle => "Retângulo"@,
        Tool::Circle => "Círculo"@,
        Tool::Step => "Etapas"@,
        Tool::Pen => "Caneta"@,
        Tool::Arrow => "Seta"@,
        Tool::Blur => "Desfoque"@,
        Tool::Text => "Texto"@,
        Tool::Move => "Mover"@,
    }
}

} // verus!
