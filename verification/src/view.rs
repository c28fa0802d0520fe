use vstd::prelude::*;

use crate::tools::{ColorTool, EditTool, ShapeTool};

verus! {

/// The state of the window that shows a capture.
#[derive(Clone, Debug, PartialEq)]
pub struct ViewState {
    /// The crop rectangle is shown.
    pub flag_resize: bool,
    /// The editor is open.
    pub flag_edit: bool,
    /// The capture was copied to the clipboard.
    pub flag_copy: bool,
    /// The annotation tool in use.
    pub edit_tool: EditTool,
    /// The annotation colour in use.
    pub color_tool: ColorTool,
    /// The shape the shape tool draws.
    pub shape_tool: ShapeTool,
    /// The text typed for a text annotation.
    pub text: String,
    /// The text annotation being edited, or -1.
    pub editing_text: i32,
}

/// The buttons of the window that shows a capture.
#[derive(Clone, Copy, PartialEq, Eq, Structural, Debug)]
pub enum ViewControl {
    /// Keep every change and close the window.
    SaveAll,
    /// Return to the capture as it was taken.
    DiscardAll,
    /// Copy the capture to the clipboard.
    Copy,
    /// Show the crop rectangle.
    Crop,
    /// Hide the crop rectangle.
    CancelCrop,
    /// Cut the capture to the crop rectangle.
    ApplyCrop,
    /// Open the editor.
    Edit,
    /// Draw the annotations into the capture and close the editor.
    SaveEdits,
    /// Drop the annotations and close the editor.
    CancelEdits,
    /// Choose an annotation tool.
    Tool(EditTool),
    /// Choose an annotation colour.
    Color(ColorTool),
    /// Choose the shape the shape tool draws.
    Shape(ShapeTool),
    /// Place the typed text as a new annotation.
    TextConfirm,
    /// Store the typed text into the selected text annotation.
    TextUpdate,
    /// Remove the selected text annotation.
    TextDelete,
}

/// Whether a button of the capture window is on screen.
pub open spec fn is_shown(s: ViewState, c: ViewControl) -> bool {
    match c {
        ViewControl::SaveAll => !s.flag_edit && !s.flag_resize,
        ViewControl::DiscardAll => !s.flag_edit && !s.flag_resize,
        ViewControl::Copy => !s.flag_edit && !s.flag_resize,
        ViewControl::Crop => !s.flag_edit && !s.flag_resize,
        ViewControl::Edit => !s.flag_edit && !s.flag_resize,
        ViewControl::CancelCrop => !s.flag_edit && s.flag_resize,
        ViewControl::ApplyCrop => !s.flag_edit && s.flag_resize,
        ViewControl::SaveEdits => s.flag_edit,
        ViewControl::CancelEdits => s.flag_edit,
        ViewControl::Tool(_) => s.flag_edit,
        ViewControl::Color(_) => s.flag_edit,
        ViewControl::Shape(_) => s.flag_edit && s.edit_tool == EditTool::Shape,
        ViewControl::TextConfirm => s.flag_edit && s.edit_tool == EditTool::Text && s.editing_text
            == -1,
        ViewControl::TextUpdate => s.flag_edit && s.edit_tool == EditTool::Text && s.editing_text
            != -1,
        ViewControl::TextDelete => s.flag_edit && s.edit_tool == EditTool::Text && s.editing_text
            != -1,
    }
}

/// The line thickness (in points) that each tool starts with; the eraser
/// keeps the current one.
pub open spec fn tool_thickness(t: EditTool) -> Option<u32> {
    match t {
        EditTool::Pencil => Some(3),
        EditTool::Highlighter => Some(10),
        EditTool::Shape => Some(3),
        EditTool::Text => Some(20),
        EditTool::Eraser => None,
    }
}

/// The line thickness a button sets, if it sets one.
pub open spec fn press_thickness(c: ViewControl) -> Option<u32> {
    match c {
        ViewControl::Tool(t) => tool_thickness(t),
        ViewControl::SaveEdits => Some(3),
        ViewControl::CancelEdits => Some(3),
        _ => None,
    }
}

/// The state the capture window starts from: nothing copied, no editor,
/// no crop rectangle.
pub open spec fn freshly_shown(a: ViewState) -> ViewState {
    ViewState { flag_copy: false, flag_edit: false, flag_resize: false, ..a }
}

/// What pressing a button does to the state (`b` is the state after `a`).
/// Buttons that close the window and open it again on the new capture end
/// in a freshly shown window.
pub open spec fn press_effect(a: ViewState, b: ViewState, c: ViewControl) -> bool {
    match c {
        ViewControl::SaveAll => b == a,
        ViewControl::DiscardAll => b == freshly_shown(a),
        ViewControl::ApplyCrop => b == freshly_shown(a),
        ViewControl::Copy => b == (ViewState { flag_copy: true, ..a }),
        ViewControl::Crop => b == (ViewState { flag_resize: true, flag_copy: false, ..a }),
        ViewControl::CancelCrop => b == (ViewState { flag_resize: false, ..a }),
        ViewControl::Edit => b == (ViewState { flag_edit: true, flag_copy: false, ..a }),
        ViewControl::SaveEdits => {
            &&& b.text@.len() == 0
            &&& b == freshly_shown(
                ViewState {
                    editing_text: -1i32,
                    text: b.text,
                    edit_tool: EditTool::Pencil,
                    ..a
                },
            )
        },
        ViewControl::CancelEdits => {
            &&& b.text@.len() == 0
            &&& b == (ViewState {
                flag_edit: false,
                editing_text: -1i32,
                text: b.text,
                edit_tool: EditTool::Pencil,
                ..a
            })
        },
        ViewControl::Tool(t) => b == (ViewState { edit_tool: t, ..a }),
        ViewControl::Color(k) => b == (ViewState { color_tool: k, ..a }),
        ViewControl::Shape(k) => b == (ViewState { shape_tool: k, ..a }),
        ViewControl::TextConfirm => {
            &&& b.text@.len() == 0
            &&& b == (ViewState { text: b.text, ..a })
        },
        ViewControl::TextUpdate => {
            &&& b.text@.len() == 0
            &&& b == (ViewState { text: b.text, editing_text: -1i32, ..a })
        },
        ViewControl::TextDelete => {
            &&& b.text@.len() == 0
            &&& b == (ViewState { text: b.text, editing_text: -1i32, ..a })
        },
    }
}

impl ViewState {
    /// The window that shows a capture opens: nothing is copied yet, and
    /// neither the editor nor the crop rectangle is open.
    pub fn open_capture_view(&mut self)
        ensures
            *final(self) == freshly_shown(*old(self)),
    {
        self.flag_copy = false;
        self.flag_edit = false;
        self.flag_resize = false;
    }

    /// Whether a button of the capture window is on screen.
    pub fn shown(&self, c: ViewControl) -> (r: bool)
        ensures
            r == is_shown(*self, c),
    {
        match c {
            ViewControl::SaveAll => !self.flag_edit && !self.flag_resize,
            ViewControl::DiscardAll => !self.flag_edit && !self.flag_resize,
            ViewControl::Copy => !self.flag_edit && !self.flag_resize,
            ViewControl::Crop => !self.flag_edit && !self.flag_resize,
            ViewControl::Edit => !self.flag_edit && !self.flag_resize,
            ViewControl::CancelCrop => !self.flag_edit && self.flag_resize,
            ViewControl::ApplyCrop => !self.flag_edit && self.flag_resize,
            ViewControl::SaveEdits => self.flag_edit,
            ViewControl::CancelEdits => self.flag_edit,
            ViewControl::Tool(_) => self.flag_edit,
            ViewControl::Color(_) => self.flag_edit,
            ViewControl::Shape(_) => self.flag_edit && self.edit_tool == EditTool::Shape,
            ViewControl::TextConfirm => self.flag_edit && self.edit_tool == EditTool::Text
                && self.editing_text == -1,
            ViewControl::TextUpdate => self.flag_edit && self.edit_tool == EditTool::Text
                && self.editing_text != -1,
            ViewControl::TextDelete => self.flag_edit && self.edit_tool == EditTool::Text
                && self.editing_text != -1,
        }
    }

    /// Carries out what a button does to the state; the result is the line
    /// thickness (in points) that the button sets, if any.
    pub fn press(&mut self, c: ViewControl) -> (thickness: Option<u32>)
        ensures
            press_effect(*old(self), *final(self), c),
            thickness == press_thickness(c),
    {
        match c {
            ViewControl::SaveAll => None,
            ViewControl::DiscardAll => {
                self.open_capture_view();
                None
            },
            ViewControl::ApplyCrop => {
                self.open_capture_view();
                None
            },
            ViewControl::Copy => {
                self.flag_copy = true;
                None
            },
            ViewControl::Crop => {
                self.flag_resize = true;
                self.flag_copy = false;
                None
            },
            ViewControl::CancelCrop => {
                self.flag_resize = false;
                None
            },
            ViewControl::Edit => {
                self.flag_edit = true;
                self.flag_copy = false;
                None
            },
            ViewControl::SaveEdits => {
                self.flag_edit = false;
                self.editing_text = -1;
                self.text = String::new();
                self.edit_tool = EditTool::Pencil;
                self.open_capture_view();
                Some(3)
            },
            ViewControl::CancelEdits => {
                self.flag_edit = false;
                self.editing_text = -1;
                self.text = String::new();
                self.edit_tool = EditTool::Pencil;
                Some(3)
            },
            ViewControl::Tool(t) => {
                self.edit_tool = t;
                match t {
                    EditTool::Pencil => Some(3),
                    EditTool::Highlighter => Some(10),
                    EditTool::Shape => Some(3),
                    EditTool::Text => Some(20),
                    EditTool::Eraser => None,
                }
            },
            ViewControl::Color(k) => {
                self.color_tool = k;
                None
            },
            ViewControl::Shape(k) => {
                self.shape_tool = k;
                None
            },
            ViewControl::TextConfirm => {
                self.text = String::new();
                None
            },
            ViewControl::TextUpdate => {
                self.editing_text = -1;
                self.text = String::new();
                None
            },
            ViewControl::TextDelete => {
                self.editing_text = -1;
                self.text = String::new();
                None
            },
        }
    }
}

/// The editor and the crop rectangle are never open together.
pub open spec fn modes_exclusive(s: ViewState) -> bool {
    !(s.flag_edit && s.flag_resize)
}

/// A freshly shown capture window has neither the editor nor the crop open,
/// and pressing any button on screen keeps the editor and the crop
/// rectangle from being open together.
pub proof fn lemma_modes_stay_exclusive(a: ViewState, b: ViewState, c: ViewControl)
    requires
        modes_exclusive(a),
        is_shown(a, c),
        press_effect(a, b, c),
    ensures
        modes_exclusive(b),
        modes_exclusive(freshly_shown(a)),
{
}

/// Which buttons the capture window shows in each of its modes. Outside
/// the editor and the crop rectangle, the window shows SAVE ALL, DISCARD
/// ALL, copy, crop and edit, all together; with the crop rectangle shown
/// (and the editor closed) it shows the buttons that cancel or apply the
/// crop; in the editor it shows the save and cancel buttons, the tools and
/// the colours, the shape choice with the shape tool, and with the text
/// tool either the button that places a new text (nothing selected) or the
/// two that update and delete the selected one.
pub proof fn lemma_buttons_by_mode(s: ViewState)
    ensures
        ({
            let plain = !s.flag_edit && !s.flag_resize;
            let cropping = !s.flag_edit && s.flag_resize;
            let text = s.flag_edit && s.edit_tool == EditTool::Text;
            &&& is_shown(s, ViewControl::SaveAll) == plain
            &&& is_shown(s, ViewControl::DiscardAll) == plain
            &&& is_shown(s, ViewControl::Copy) == plain
            &&& is_shown(s, ViewControl::Crop) == plain
            &&& is_shown(s, ViewControl::Edit) == plain
            &&& is_shown(s, ViewControl::CancelCrop) == cropping
            &&& is_shown(s, ViewControl::ApplyCrop) == cropping
            &&& is_shown(s, ViewControl::SaveEdits) == s.flag_edit
            &&& is_shown(s, ViewControl::CancelEdits) == s.flag_edit
            &&& is_shown(s, ViewControl::TextConfirm) == (text && s.editing_text == -1)
            &&& is_shown(s, ViewControl::TextUpdate) == (text && s.editing_text != -1)
            &&& is_shown(s, ViewControl::TextDelete) == (text && s.editing_text != -1)
        }),
        forall|t: EditTool| #[trigger] is_shown(s, ViewControl::Tool(t)) == s.flag_edit,
        forall|k: ColorTool| #[trigger] is_shown(s, ViewControl::Color(k)) == s.flag_edit,
        forall|k: ShapeTool|
            #[trigger] is_shown(s, ViewControl::Shape(k)) == (s.flag_edit && s.edit_tool
                == EditTool::Shape),
{
}

/// What each button does to the modes of the capture window: copying marks
/// the capture copied; crop shows the crop rectangle and cancel hides it;
/// applying the crop or discarding everything returns to a freshly shown
/// window; edit opens the editor; saving or cancelling the edits closes it,
/// with the pencil chosen again, no text selected and no text typed; a tool,
/// colour or shape button chooses it; the text buttons clear the typed text,
/// and updating or deleting a text leaves none selected; saving everything
/// changes nothing in the window's state. Each tool starts with its own line
/// thickness (pencil 3, highlighter 10, shapes 3, text 20; the eraser keeps
/// the current one), and closing the editor returns to 3.
pub proof fn lemma_button_effects(a: ViewState, b: ViewState, c: ViewControl)
    requires
        press_effect(a, b, c),
    ensures
        c == ViewControl::SaveAll ==> b == a,
        c == ViewControl::Copy ==> b.flag_copy && b.flag_edit == a.flag_edit && b.flag_resize
            == a.flag_resize,
        c == ViewControl::Crop ==> b.flag_resize && !b.flag_copy && b.flag_edit == a.flag_edit,
        c == ViewControl::CancelCrop ==> !b.flag_resize && b.flag_edit == a.flag_edit,
        (c == ViewControl::ApplyCrop || c == ViewControl::DiscardAll) ==> !b.flag_edit
            && !b.flag_resize && !b.flag_copy,
        c == ViewControl::Edit ==> b.flag_edit && !b.flag_copy && b.flag_resize == a.flag_resize,
        (c == ViewControl::SaveEdits || c == ViewControl::CancelEdits) ==> {
            &&& !b.flag_edit
            &&& b.edit_tool == EditTool::Pencil
            &&& b.editing_text == -1
            &&& b.text@.len() == 0
        },
        c == ViewControl::SaveEdits ==> !b.flag_resize && !b.flag_copy,
        c matches ViewControl::Tool(t) ==> b.edit_tool == t && b.flag_edit == a.flag_edit,
        c matches ViewControl::Color(k) ==> b.color_tool == k && b.edit_tool == a.edit_tool,
        c matches ViewControl::Shape(k) ==> b.shape_tool == k && b.edit_tool == a.edit_tool,
        c == ViewControl::TextConfirm ==> b.text@.len() == 0 && b.editing_text == a.editing_text,
        (c == ViewControl::TextUpdate || c == ViewControl::TextDelete) ==> b.text@.len() == 0
            && b.editing_text == -1,
        press_thickness(ViewControl::Tool(EditTool::Pencil)) == Some(3u32),
        press_thickness(ViewControl::Tool(EditTool::Highlighter)) == Some(10u32),
        press_thickness(ViewControl::Tool(EditTool::Shape)) == Some(3u32),
        press_thickness(ViewControl::Tool(EditTool::Text)) == Some(20u32),
        press_thickness(ViewControl::Tool(EditTool::Eraser)) == None::<u32>,
        press_thickness(ViewControl::SaveEdits) == Some(3u32),
        press_thickness(ViewControl::CancelEdits) == Some(3u32),
{
}

} // verus!
