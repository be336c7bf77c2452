//! Per-pass contexts of a widget tree: the handles that event handling,
//! layout and painting hand to one node, each with the access its pass allows.
pub mod contexts;
pub mod lemmas;
pub mod state;

pub use contexts::{EventCtx, LayoutCtx, PaintCtx};
pub use state::{LayoutState, Never, Rect, Size, WidgetState};
