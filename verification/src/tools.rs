use vstd::prelude::*;

verus! {

/// The shape that the shape tool draws.
#[derive(Clone, Copy, PartialEq, Eq, Structural, Debug)]
pub enum ShapeTool {
    Arrow,
    Circle,
    Square,
}

/// The annotation tool in use while an image is edited.
#[derive(Clone, Copy, PartialEq, Eq, Structural, Debug)]
pub enum EditTool {
    Pencil,
    Highlighter,
    Shape,
    Text,
    Eraser,
}

/// The colours offered for annotations.
#[derive(Clone, Copy, PartialEq, Eq, Structural, Debug)]
pub enum ColorTool {
    Black,
    Red,
    Blue,
    Yellow,
    Green,
    White,
}

/// The 8-bit red, green, blue and alpha samples of a palette colour: the
/// named colours black, red, blue, yellow, green (CSS green, half intensity)
/// and white, all opaque.
pub open spec fn palette_rgba(c: ColorTool) -> (u8, u8, u8, u8) {
    match c {
        ColorTool::Black => (0, 0, 0, 255),
        ColorTool::Red => (255, 0, 0, 255),
        ColorTool::Blue => (0, 0, 255, 255),
        ColorTool::Yellow => (255, 255, 0, 255),
        ColorTool::Green => (0, 128, 0, 255),
        ColorTool::White => (255, 255, 255, 255),
    }
}

impl ColorTool {
    /// The RGBA samples of this colour.
    pub fn rgba8(&self) -> (r: (u8, u8, u8, u8))
        ensures
            r == palette_rgba(*self),
    {
        match self {
            ColorTool::Black => (0, 0, 0, 255),
            ColorTool::Red => (255, 0, 0, 255),
            ColorTool::Blue => (0, 0, 255, 255),
            ColorTool::Yellow => (255, 255, 0, 255),
            ColorTool::Green => (0, 128, 0, 255),
            ColorTool::White => (255, 255, 255, 255),
        }
    }
}

} // verus!
