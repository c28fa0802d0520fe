use vstd::prelude::*;

use crate::tools::{EditTool, ShapeTool};
use crate::view::ViewState;

verus! {

/// The annotation layers that a drag draws into.
#[derive(Clone, Copy, PartialEq, Eq, Structural, Debug)]
pub enum Layer {
    Highlight,
    Arrow,
    Circle,
    Square,
}

/// What the editor's drawing surface receives.
#[derive(Clone, Copy, PartialEq, Eq, Structural, Debug)]
pub enum DrawInput {
    /// A mouse button went down.
    Down,
    /// The mouse moved; `active` tells whether the surface holds the pointer
    /// and `inside` whether the pointer is over the image.
    Move { active: bool, inside: bool },
    /// A mouse button went up.
    Up,
    /// Anything else.
    Other,
}

/// What the drawing surface does, in order, in answer to an input.
#[derive(Clone, Copy, PartialEq, Eq, Structural, Debug)]
pub enum DrawAction {
    /// Take or release the pointer.
    SetActive(bool),
    /// Show the pencil, highlighter or eraser cursor.
    PencilCursor,
    HighlighterCursor,
    EraserCursor,
    /// Show the arrow or the pointing-hand cursor.
    CursorArrow,
    CursorPointer,
    /// Give the current stroke the chosen colour and thickness (at most 4 points).
    StartStroke,
    /// Add the pointer's position to the current stroke.
    ExtendStroke,
    /// Close the current stroke and open the next one.
    CommitStroke,
    /// Start the current shape of a layer at the pointer, in the chosen colour and thickness.
    StartShape(Layer),
    /// Move the end of the current shape of a layer to the pointer.
    MoveShapeEnd(Layer),
    /// Close the current shape of a layer and open the next one.
    CommitShape(Layer),
    /// Put the pending text at the pointer and select the text annotation under it.
    PlaceText,
    /// Move the selected text annotation along with the pointer.
    DragText,
    /// Remove the annotations under the pointer.
    EraseAt,
}

/// The editor's drawing surface.
#[derive(Clone, Copy, PartialEq, Eq, Debug)]
pub struct Drawer {
    /// A pencil stroke is being drawn.
    pub flag_drawing: bool,
    /// A text was placed.
    pub flag_writing: bool,
}

/// The layer that the shape tool draws into.
pub open spec fn shape_layer(s: ShapeTool) -> Layer {
    match s {
        ShapeTool::Arrow => Layer::Arrow,
        ShapeTool::Circle => Layer::Circle,
        ShapeTool::Square => Layer::Square,
    }
}

/// The answer of the drawing surface: the new pencil and text indicators
/// and the actions.
pub open spec fn draw_reaction(
    d: Drawer,
    tool: EditTool,
    shape: ShapeTool,
    input: DrawInput,
) -> (Drawer, Seq<DrawAction>) {
    match tool {
        EditTool::Pencil => match input {
            DrawInput::Down => (
                Drawer { flag_drawing: true, ..d },
                seq![DrawAction::SetActive(true), DrawAction::PencilCursor, DrawAction::StartStroke],
            ),
            DrawInput::Move { active, inside } => if d.flag_drawing && inside && active {
                (d, seq![DrawAction::ExtendStroke])
            } else {
                (d, Seq::empty())
            },
            DrawInput::Up => (
                Drawer { flag_drawing: false, ..d },
                seq![DrawAction::SetActive(false), DrawAction::CommitStroke, DrawAction::CursorArrow],
            ),
            DrawInput::Other => (d, Seq::empty()),
        },
        EditTool::Highlighter => match input {
            DrawInput::Down => (
                d,
                seq![
                    DrawAction::SetActive(true),
                    DrawAction::HighlighterCursor,
                    DrawAction::StartShape(Layer::Highlight),
                ],
            ),
            DrawInput::Move { active, inside } => if active && inside {
                (d, seq![DrawAction::MoveShapeEnd(Layer::Highlight)])
            } else {
                (d, Seq::empty())
            },
            DrawInput::Up => (
                d,
                seq![DrawAction::SetActive(false), DrawAction::CommitShape(Layer::Highlight)],
            ),
            DrawInput::Other => (d, Seq::empty()),
        },
        EditTool::Text => match input {
            DrawInput::Down => (Drawer { flag_writing: true, ..d }, seq![DrawAction::PlaceText]),
            DrawInput::Move { active, inside } => if active {
                (d, seq![DrawAction::DragText])
            } else {
                (d, Seq::empty())
            },
            DrawInput::Up => (d, seq![DrawAction::CursorArrow, DrawAction::SetActive(false)]),
            DrawInput::Other => (d, Seq::empty()),
        },
        EditTool::Shape => match input {
            DrawInput::Down => (
                d,
                seq![DrawAction::SetActive(true), DrawAction::StartShape(shape_layer(shape))],
            ),
            DrawInput::Move { active, inside } => if active && inside {
                (d, seq![DrawAction::MoveShapeEnd(shape_layer(shape))])
            } else {
                (d, Seq::empty())
            },
            DrawInput::Up => (
                d,
                seq![DrawAction::SetActive(false), DrawAction::CommitShape(shape_layer(shape))],
            ),
            DrawInput::Other => (d, Seq::empty()),
        },
        EditTool::Eraser => match input {
            DrawInput::Down => (d, seq![DrawAction::SetActive(true), DrawAction::EraserCursor]),
            DrawInput::Move { active, inside } => if active {
                (d, seq![DrawAction::EraseAt])
            } else {
                (d, Seq::empty())
            },
            DrawInput::Up => (d, seq![DrawAction::SetActive(false), DrawAction::CursorArrow]),
            DrawInput::Other => (d, Seq::empty()),
        },
    }
}

/// The annotation lists of the editor.
#[derive(Clone, Copy, PartialEq, Eq, Structural, Debug)]
pub enum AnnotationList {
    Strokes,
    Highlights,
    Arrows,
    Circles,
    Squares,
    Texts,
}

/// The list that a layer of drawn shapes is kept in.
pub open spec fn layer_list(l: Layer) -> AnnotationList {
    match l {
        Layer::Highlight => AnnotationList::Highlights,
        Layer::Arrow => AnnotationList::Arrows,
        Layer::Circle => AnnotationList::Circles,
        Layer::Square => AnnotationList::Squares,
    }
}

/// The lists that carrying out an action changes: a stroke action changes
/// the strokes, a shape action its layer's list, a text action the texts,
/// and the eraser every list but the texts. Pointer and cursor actions
/// change none.
pub open spec fn action_lists(a: DrawAction) -> Set<AnnotationList> {
    match a {
        DrawAction::StartStroke => set![AnnotationList::Strokes],
        DrawAction::ExtendStroke => set![AnnotationList::Strokes],
        DrawAction::CommitStroke => set![AnnotationList::Strokes],
        DrawAction::StartShape(l) => set![layer_list(l)],
        DrawAction::MoveShapeEnd(l) => set![layer_list(l)],
        DrawAction::CommitShape(l) => set![layer_list(l)],
        DrawAction::PlaceText => set![AnnotationList::Texts],
        DrawAction::DragText => set![AnnotationList::Texts],
        DrawAction::EraseAt => set![
            AnnotationList::Strokes,
            AnnotationList::Highlights,
            AnnotationList::Arrows,
            AnnotationList::Squares,
            AnnotationList::Circles,
        ],
        _ => Set::empty(),
    }
}

/// The lists that a tool works on.
pub open spec fn tool_lists(tool: EditTool, shape: ShapeTool) -> Set<AnnotationList> {
    match tool {
        EditTool::Pencil => set![AnnotationList::Strokes],
        EditTool::Highlighter => set![AnnotationList::Highlights],
        EditTool::Text => set![AnnotationList::Texts],
        EditTool::Shape => set![layer_list(shape_layer(shape))],
        EditTool::Eraser => set![
            AnnotationList::Strokes,
            AnnotationList::Highlights,
            AnnotationList::Arrows,
            AnnotationList::Squares,
            AnnotationList::Circles,
        ],
    }
}

/// A drawing event changes only the lists of the chosen tool: every action
/// that the drawing surface decides on touches no other list. (Each list
/// is an `AnnotationLayer`, whose operations keep the item being drawn at
/// its end.) A stroke or shape is only begun by a press and only finished
/// by a release.
pub proof fn lemma_event_changes_only_tool_lists(
    d: Drawer,
    tool: EditTool,
    shape: ShapeTool,
    input: DrawInput,
)
    ensures
        ({
            let actions = draw_reaction(d, tool, shape, input).1;
            &&& forall|i: int|
                0 <= i < actions.len() ==> action_lists(#[trigger] actions[i]).subset_of(
                    tool_lists(tool, shape),
                )
            &&& forall|i: int|
                0 <= i < actions.len() && (actions[i] == DrawAction::StartStroke
                    || actions[i] is StartShape) ==> input == DrawInput::Down
            &&& forall|i: int|
                0 <= i < actions.len() && (actions[i] == DrawAction::CommitStroke
                    || actions[i] is CommitShape) ==> input == DrawInput::Up
        }),
{
    let actions = draw_reaction(d, tool, shape, input).1;
    assert forall|i: int| 0 <= i < actions.len() implies action_lists(
        #[trigger] actions[i],
    ).subset_of(tool_lists(tool, shape)) by {
        assert(action_lists(actions[i]) =~= Set::empty() || action_lists(actions[i]) =~= tool_lists(
            tool,
            shape,
        ));
    }
}

impl Drawer {
    /// A surface on which nothing is being drawn.
    pub fn new() -> (d: Drawer)
        ensures
            !d.flag_drawing,
            !d.flag_writing,
    {
        Drawer { flag_drawing: false, flag_writing: false }
    }

    /// Decides the answer of the drawing surface to an input, by the chosen
    /// tool: the pencil draws a stroke while the pointer is held and over
    /// the image; the highlighter and the shapes stretch from where the
    /// button went down to where the pointer is; the text tool places text
    /// and drags the selected text; the eraser removes what the pointer
    /// passes over while it is held.
    pub fn event(&mut self, view: &ViewState, input: DrawInput) -> (actions: Vec<DrawAction>)
        ensures
            (*final(self), actions@) == draw_reaction(
                *old(self),
                view.edit_tool,
                view.shape_tool,
                input,
            ),
    {
        let layer = match view.shape_tool {
            ShapeTool::Arrow => Layer::Arrow,
            ShapeTool::Circle => Layer::Circle,
            ShapeTool::Square => Layer::Square,
        };
        let mut actions: Vec<DrawAction> = Vec::new();
        match view.edit_tool {
            EditTool::Pencil => match input {
                DrawInput::Down => {
                    actions.push(DrawAction::SetActive(true));
                    actions.push(DrawAction::PencilCursor);
                    actions.push(DrawAction::StartStroke);
                    self.flag_drawing = true;
                },
                DrawInput::Move { active, inside } => {
                    if self.flag_drawing && inside && active {
                        actions.push(DrawAction::ExtendStroke);
                    }
                },
                DrawInput::Up => {
                    actions.push(DrawAction::SetActive(false));
                    actions.push(DrawAction::CommitStroke);
                    self.flag_drawing = false;
                    actions.push(DrawAction::CursorArrow);
                },
                DrawInput::Other => {},
            },
            EditTool::Highlighter => match input {
                DrawInput::Down => {
                    actions.push(DrawAction::SetActive(true));
                    actions.push(DrawAction::HighlighterCursor);
                    actions.push(DrawAction::StartShape(Layer::Highlight));
                },
                DrawInput::Move { active, inside } => {
                    if active && inside {
                        actions.push(DrawAction::MoveShapeEnd(Layer::Highlight));
                    }
                },
                DrawInput::Up => {
                    actions.push(DrawAction::SetActive(false));
                    actions.push(DrawAction::CommitShape(Layer::Highlight));
                },
                DrawInput::Other => {},
            },
            EditTool::Text => match input {
                DrawInput::Down => {
                    self.flag_writing = true;
                    actions.push(DrawAction::PlaceText);
                },
                DrawInput::Move { active, inside } => {
                    if active {
                        actions.push(DrawAction::DragText);
                    }
                },
                DrawInput::Up => {
                    actions.push(DrawAction::CursorArrow);
                    actions.push(DrawAction::SetActive(false));
                },
                DrawInput::Other => {},
            },
            EditTool::Shape => match input {
                DrawInput::Down => {
                    actions.push(DrawAction::SetActive(true));
                    actions.push(DrawAction::StartShape(layer));
                },
                DrawInput::Move { active, inside } => {
                    if active && inside {
                        actions.push(DrawAction::MoveShapeEnd(layer));
                    }
                },
                DrawInput::Up => {
                    actions.push(DrawAction::SetActive(false));
                    actions.push(DrawAction::CommitShape(layer));
                },
                DrawInput::Other => {},
            },
            EditTool::Eraser => match input {
                DrawInput::Down => {
                    actions.push(DrawAction::SetActive(true));
                    actions.push(DrawAction::EraserCursor);
                },
                DrawInput::Move { active, inside } => {
                    if active {
                        actions.push(DrawAction::EraseAt);
                    }
                },
                DrawInput::Up => {
                    actions.push(DrawAction::SetActive(false));
                    actions.push(DrawAction::CursorArrow);
                },
                DrawInput::Other => {},
            },
        }
        let ghost expected = draw_reaction(*old(self), view.edit_tool, view.shape_tool, input).1;
        assert(actions@ =~= expected);
        actions
    }
}

impl ViewState {
    /// The text tool clicked on the image: `hit` is the first text
    /// annotation under the pointer, if any, and `hit_text` its text. The
    /// hit annotation becomes the one being edited and its text is loaded
    /// for editing; with no hit, no annotation is edited and the typed text
    /// is cleared.
    pub fn select_text(&mut self, hit: Option<usize>, hit_text: &str)
        ensures
            match hit {
                Some(i) => final(self).editing_text == i as i32 && final(self).text@ == hit_text@,
                None => final(self).editing_text == -1 && final(self).text@.len() == 0,
            },
            *final(self) == (ViewState {
                editing_text: final(self).editing_text,
                text: final(self).text,
                ..*old(self)
            }),
    {
        match hit {
            Some(i) => {
                self.editing_text = #[verifier::truncate] (i as i32);
                self.text = String::from_str(hit_text);
            },
            None => {
                self.text = String::new();
                self.editing_text = -1;
            },
        }
    }
}

/// How the drawing surface answers the gestures of each tool. A press takes
/// the pointer with every tool but the text tool; the pencil begins a
/// stroke, the highlighter a highlight, the shape tool a shape of the chosen
/// kind, the text tool places the text. While the pointer is held and over
/// the image, the highlighter and the shape tool move the end of the current
/// highlight or shape to the pointer (and do nothing else), the pencil adds
/// to the stroke it is drawing, the eraser erases and the text tool drags
/// the selected text. A move without the held pointer does nothing with any
/// tool; a move off the image neither stretches nor draws. A release lets
/// the pointer go with every tool, and finishes the current stroke,
/// highlight or shape. Moves and other events never change what the
/// surface records.
pub proof fn lemma_tool_gestures(d: Drawer, tool: EditTool, shape: ShapeTool)
    ensures
        ({
            let down = draw_reaction(d, tool, shape, DrawInput::Down);
            let up = draw_reaction(d, tool, shape, DrawInput::Up);
            let drag = draw_reaction(d, tool, shape, DrawInput::Move { active: true, inside: true });
            let shape_kind = if shape == ShapeTool::Arrow {
                Layer::Arrow
            } else if shape == ShapeTool::Circle {
                Layer::Circle
            } else {
                Layer::Square
            };
            &&& tool != EditTool::Text ==> down.1.contains(DrawAction::SetActive(true))
            &&& tool == EditTool::Pencil ==> down.1.contains(DrawAction::StartStroke)
                && down.0.flag_drawing
            &&& tool == EditTool::Highlighter ==> down.1.contains(
                DrawAction::StartShape(Layer::Highlight),
            )
            &&& tool == EditTool::Shape ==> down.1.contains(DrawAction::StartShape(shape_kind))
            &&& tool == EditTool::Text ==> down.1.contains(DrawAction::PlaceText)
                && down.0.flag_writing
            &&& tool == EditTool::Eraser ==> down.1.contains(DrawAction::EraserCursor)
            &&& up.1.contains(DrawAction::SetActive(false))
            &&& tool == EditTool::Pencil ==> up.1.contains(DrawAction::CommitStroke)
                && !up.0.flag_drawing
            &&& tool == EditTool::Highlighter ==> up.1.contains(
                DrawAction::CommitShape(Layer::Highlight),
            )
            &&& tool == EditTool::Shape ==> up.1.contains(DrawAction::CommitShape(shape_kind))
            &&& tool == EditTool::Highlighter ==> drag.1 == seq![
                DrawAction::MoveShapeEnd(Layer::Highlight),
            ]
            &&& tool == EditTool::Shape ==> drag.1 == seq![DrawAction::MoveShapeEnd(shape_kind)]
            &&& tool == EditTool::Pencil ==> (drag.1.contains(DrawAction::ExtendStroke)
                <==> d.flag_drawing)
            &&& tool == EditTool::Eraser ==> drag.1.contains(DrawAction::EraseAt)
            &&& tool == EditTool::Text ==> drag.1.contains(DrawAction::DragText)
            &&& forall|inside: bool|
                #![trigger draw_reaction(d, tool, shape, DrawInput::Move { active: false, inside })]
                draw_reaction(d, tool, shape, DrawInput::Move { active: false, inside }).1.len()
                    == 0
            &&& forall|active: bool, inside: bool|
                #![trigger draw_reaction(d, tool, shape, DrawInput::Move { active, inside })]
                draw_reaction(d, tool, shape, DrawInput::Move { active, inside }).0 == d
            &&& forall|l: Layer|
                !(#[trigger] draw_reaction(
                    d,
                    tool,
                    shape,
                    DrawInput::Move { active: true, inside: false },
                ).1.contains(DrawAction::MoveShapeEnd(l)))
            &&& !draw_reaction(d, tool, shape, DrawInput::Move { active: true, inside: false }).1.contains(
                DrawAction::ExtendStroke,
            )
            &&& draw_reaction(d, tool, shape, DrawInput::Other) == (d, Seq::<DrawAction>::empty())
        }),
{
    let down = draw_reaction(d, tool, shape, DrawInput::Down);
    let up = draw_reaction(d, tool, shape, DrawInput::Up);
    let drag = draw_reaction(d, tool, shape, DrawInput::Move { active: true, inside: true });
    let off = draw_reaction(d, tool, shape, DrawInput::Move { active: true, inside: false });
    match tool {
        EditTool::Pencil => {
            assert(down.1[0] == DrawAction::SetActive(true));
            assert(down.1[2] == DrawAction::StartStroke);
            assert(up.1[0] == DrawAction::SetActive(false));
            assert(up.1[1] == DrawAction::CommitStroke);
            if d.flag_drawing {
                assert(drag.1[0] == DrawAction::ExtendStroke);
            }
        },
        EditTool::Highlighter => {
            assert(down.1[0] == DrawAction::SetActive(true));
            assert(down.1[2] == DrawAction::StartShape(Layer::Highlight));
            assert(up.1[0] == DrawAction::SetActive(false));
            assert(up.1[1] == DrawAction::CommitShape(Layer::Highlight));
        },
        EditTool::Text => {
            assert(down.1[0] == DrawAction::PlaceText);
            assert(up.1[1] == DrawAction::SetActive(false));
            assert(drag.1[0] == DrawAction::DragText);
            assert forall|l: Layer| !(#[trigger] off.1.contains(DrawAction::MoveShapeEnd(l))) by {
                if off.1.contains(DrawAction::MoveShapeEnd(l)) {
                    let i = choose|i: int| 0 <= i < off.1.len() && off.1[i] == DrawAction::MoveShapeEnd(l);
                    assert(off.1[0] == DrawAction::DragText);
                }
            }
            if off.1.contains(DrawAction::ExtendStroke) {
                let i = choose|i: int| 0 <= i < off.1.len() && off.1[i] == DrawAction::ExtendStroke;
                assert(off.1[0] == DrawAction::DragText);
            }
        },
        EditTool::Shape => {
            assert(down.1[0] == DrawAction::SetActive(true));
            assert(down.1[1] == DrawAction::StartShape(shape_layer(shape)));
            assert(up.1[0] == DrawAction::SetActive(false));
            assert(up.1[1] == DrawAction::CommitShape(shape_layer(shape)));
        },
        EditTool::Eraser => {
            assert(down.1[0] == DrawAction::SetActive(true));
            assert(down.1[1] == DrawAction::EraserCursor);
            assert(up.1[0] == DrawAction::SetActive(false));
            assert(drag.1[0] == DrawAction::EraseAt);
            assert forall|l: Layer| !(#[trigger] off.1.contains(DrawAction::MoveShapeEnd(l))) by {
                if off.1.contains(DrawAction::MoveShapeEnd(l)) {
                    let i = choose|i: int| 0 <= i < off.1.len() && off.1[i] == DrawAction::MoveShapeEnd(l);
                    assert(off.1[0] == DrawAction::EraseAt);
                }
            }
            if off.1.contains(DrawAction::ExtendStroke) {
                let i = choose|i: int| 0 <= i < off.1.len() && off.1[i] == DrawAction::ExtendStroke;
                assert(off.1[0] == DrawAction::EraseAt);
            }
        },
    }
}

} // verus!
