use vstd::prelude::*;

verus! {

/// A message type with no values: a sink of it can never receive one.
pub type Never = core::convert::Infallible;

/// The mutable per-node record that persists across passes.
#[derive(Clone, Copy, Debug, PartialEq, Eq, Structural)]
pub struct WidgetState {
    pub mouse_focus: bool,
    pub keyboard_focus: bool,
    pub request_update: bool,
}

impl WidgetState {
    /// A fresh node: no focus, no pending update.
    pub fn new() -> (r: WidgetState)
        ensures
            !r.mouse_focus,
            !r.keyboard_focus,
            !r.request_update,
    {
        WidgetState { mouse_focus: false, keyboard_focus: false, request_update: false }
    }
}

/// A width and a height in layout units.
#[derive(Clone, Copy, Debug, PartialEq, Eq, Structural)]
pub struct Size {
    pub width: u64,
    pub height: u64,
}

/// An axis-aligned rectangle given by its two corners.
#[derive(Clone, Copy, Debug, PartialEq, Eq, Structural)]
pub struct Rect {
    pub x0: u64,
    pub y0: u64,
    pub x1: u64,
    pub y1: u64,
}

impl Size {
    /// The rectangle of this size whose top-left corner is the origin.
    pub fn to_rect(&self) -> (r: Rect)
        ensures
            r == (Rect { x0: 0, y0: 0, x1: self.width, y1: self.height }),
    {
        Rect { x0: 0, y0: 0, x1: self.width, y1: self.height }
    }
}

/// The result of the last layout pass over a node.
#[derive(Clone, Copy, Debug, PartialEq, Eq, Structural)]
pub struct LayoutState {
    pub hovered: bool,
    pub size: Size,
}

} // verus!
