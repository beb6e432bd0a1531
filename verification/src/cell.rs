//! Value types of the character grid: colours, attributes, cells and positions.

use vstd::prelude::*;

verus! {

/// A colour of a cell: the renderer's default, one of the 256 palette entries,
/// or a direct 24-bit colour.
#[derive(Clone, Copy, Debug, PartialEq, Eq, Structural)]
pub enum Color {
    Default,
    Indexed(u8),
    Rgb(u8, u8, u8),
}

/// The graphic rendition of a cell.
#[derive(Clone, Copy, Debug, PartialEq, Eq, Structural)]
pub struct Attribute {
    pub foreground: Color,
    pub background: Color,
    pub bold: bool,
    pub underline: bool,
    pub inverse: bool,
}

/// One character position of the grid.
#[derive(Clone, Copy, Debug, PartialEq, Eq, Structural)]
pub struct Cell {
    pub code_point: u32,
    pub attribute: Attribute,
}

/// A position in the grid, counted from the top-left corner.
#[derive(Clone, Copy, Debug, PartialEq, Eq, Structural)]
pub struct CursorPos {
    pub row: u16,
    pub column: u16,
}

/// The attribute of text that no rendition sequence has touched.
pub open spec fn default_attribute() -> Attribute {
    Attribute {
        foreground: Color::Default,
        background: Color::Default,
        bold: false,
        underline: false,
        inverse: false,
    }
}

/// The content of a cell that holds no character.
pub open spec fn blank_cell() -> Cell {
    Cell { code_point: 0, attribute: default_attribute() }
}

impl Default for Attribute {
    fn default() -> (attribute: Attribute)
        ensures
            attribute == default_attribute(),
    {
        Attribute {
            foreground: Color::Default,
            background: Color::Default,
            bold: false,
            underline: false,
            inverse: false,
        }
    }
}

impl Cell {
    pub fn new(code_point: u32, attribute: Attribute) -> (cell: Cell)
        ensures
            cell == (Cell { code_point, attribute }),
    {
        Cell { code_point, attribute }
    }

    /// The empty cell: no character, default attribute.
    pub fn blank() -> (cell: Cell)
        ensures
            cell == blank_cell(),
    {
        Cell { code_point: 0, attribute: Attribute::default() }
    }
}

impl CursorPos {
    pub fn new(row: u16, column: u16) -> (pos: CursorPos)
        ensures
            pos == (CursorPos { row, column }),
    {
        CursorPos { row, column }
    }
}

} // verus!
