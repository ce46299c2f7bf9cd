//! Tools and colours, and the keys that pick them.
use crate::text::{ascii_lower, to_ascii_lower};
use vstd::prelude::*;

verus! {

/// What a press on the canvas draws.
#[derive(Debug, Clone, Copy, PartialEq, Eq, Structural)]
pub enum EditorTool {
    Pen,
    Arrow,
    Line,
    Rectangle,
    Redact,
    Step,
}

/// The tool that a key picks.
pub open spec fn tool_of_shortcut(shortcut: char) -> Option<EditorTool> {
    if shortcut == '1' {
        Some(EditorTool::Pen)
    } else if shortcut == '2' {
        Some(EditorTool::Arrow)
    } else if shortcut == '3' {
        Some(EditorTool::Line)
    } else if shortcut == '4' {
        Some(EditorTool::Rectangle)
    } else if shortcut == '5' {
        Some(EditorTool::Redact)
    } else if shortcut == '6' {
        Some(EditorTool::Step)
    } else {
        None
    }
}

impl EditorTool {
    /// The tool that a key picks.
    pub fn from_shortcut(shortcut: char) -> (r: Option<Self>)
        ensures
            r == tool_of_shortcut(shortcut),
    {
        match shortcut {
            '1' => Some(EditorTool::Pen),
            '2' => Some(EditorTool::Arrow),
            '3' => Some(EditorTool::Line),
            '4' => Some(EditorTool::Rectangle),
            '5' => Some(EditorTool::Redact),
            '6' => Some(EditorTool::Step),
            _ => None,
        }
    }
}

impl Default for EditorTool {
    fn default() -> (r: Self)
        ensures
            r == EditorTool::Pen,
    {
        EditorTool::Pen
    }
}

/// What a tool draws with.
#[derive(Debug, Clone, Copy, PartialEq, Eq, Structural)]
pub enum EditorColor {
    Red,
    Blue,
    Green,
    Yellow,
}

/// The colour that a key picks, in either case.
pub open spec fn color_of_shortcut(shortcut: char) -> Option<EditorColor> {
    let key = ascii_lower(shortcut);
    if key == 'q' {
        Some(EditorColor::Red)
    } else if key == 'w' {
        Some(EditorColor::Blue)
    } else if key == 'e' {
        Some(EditorColor::Green)
    } else if key == 'r' {
        Some(EditorColor::Yellow)
    } else {
        None
    }
}

/// The red, green, blue and alpha parts of a colour.
pub open spec fn color_bytes(color: EditorColor) -> [u8; 4] {
    match color {
        EditorColor::Red => [0xff, 0x33, 0x33, 0xff],
        EditorColor::Blue => [0x33, 0x88, 0xff, 0xff],
        EditorColor::Green => [0x33, 0xcc, 0x33, 0xff],
        EditorColor::Yellow => [0xff, 0xcc, 0x00, 0xff],
    }
}

/// The colours are opaque and told apart: in red, green and blue the part of that name is the
/// strongest, and yellow is made of red and green without blue.
pub proof fn law_colors_are_what_they_are_called(a: EditorColor, b: EditorColor)
    ensures
        color_bytes(a)@[3] == 255,
        a != b ==> color_bytes(a) != color_bytes(b),
        ({
            let red = color_bytes(EditorColor::Red)@;
            let green = color_bytes(EditorColor::Green)@;
            let blue = color_bytes(EditorColor::Blue)@;
            let yellow = color_bytes(EditorColor::Yellow)@;
            &&& red[0] > red[1] && red[0] > red[2]
            &&& green[1] > green[0] && green[1] > green[2]
            &&& blue[2] > blue[0] && blue[2] > blue[1]
            &&& yellow[0] > yellow[2] && yellow[1] > yellow[2] && yellow[2] == 0
        }),
{
    assert(color_bytes(a)@[0] + color_bytes(a)@[1] + color_bytes(a)@[2] >= 0);
    assert(color_bytes(b)@[0] + color_bytes(b)@[1] + color_bytes(b)@[2] >= 0);
}

impl EditorColor {
    /// The colour that a key picks, in either case.
    pub fn from_shortcut(shortcut: char) -> (r: Option<Self>)
        ensures
            r == color_of_shortcut(shortcut),
    {
        match to_ascii_lower(shortcut) {
            'q' => Some(EditorColor::Red),
            'w' => Some(EditorColor::Blue),
            'e' => Some(EditorColor::Green),
            'r' => Some(EditorColor::Yellow),
            _ => None,
        }
    }

    /// The red, green, blue and alpha parts of the colour.
    pub fn rgba(self) -> (r: [u8; 4])
        ensures
            r@ == color_bytes(self)@,
            r == color_bytes(self),
    {
        match self {
            EditorColor::Red => [0xff, 0x33, 0x33, 0xff],
            EditorColor::Blue => [0x33, 0x88, 0xff, 0xff],
            EditorColor::Green => [0x33, 0xcc, 0x33, 0xff],
            EditorColor::Yellow => [0xff, 0xcc, 0x00, 0xff],
        }
    }
}

impl Default for EditorColor {
    fn default() -> (r: Self)
        ensures
            r == EditorColor::Red,
    {
        EditorColor::Red
    }
}

} // verus!
