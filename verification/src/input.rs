use vstd::prelude::*;

verus! {

/// A key press as the dispatcher interprets it. Every key it does not
/// distinguish arrives as `Other` and is ignored, so unmapped keys stay
/// forward-compatible no-ops.
#[derive(Clone, Copy, PartialEq, Eq, Structural, Debug)]
pub enum Key {
    Enter,
    Esc,
    Backspace,
    Char(char),
    Down,
    Up,
    PageDown,
    PageUp,
    Right,
    Left,
    Other,
}

/// A navigation or expansion operation delegated to the tree-widget
/// collaborator. The dispatcher reports which operation a key asked for;
/// the surrounding application performs it on the widget, whose internals
/// (expand set, viewport, visible order) this core never reads.
#[derive(Clone, Copy, PartialEq, Eq, Structural, Debug)]
pub enum TreeCommand {
    SelectNext,
    SelectPrevious,
    SelectParent,
    SelectNextSibling,
    SelectPreviousSibling,
    PageDown,
    PageUp,
    Expand,
    Collapse,
}

} // verus!
