use vstd::prelude::*;

use crate::state::{LayoutState, Never, Rect, WidgetState};

verus! {

/// The context of one node during event handling: it reads the node's
/// layout, reads and writes the node's state, and appends messages of type
/// `M` to the sink of the traversal. `W` is the window capability.
pub struct EventCtx<'a, W, M> {
    window: &'a W,
    state: &'a mut WidgetState,
    layout_state: &'a LayoutState,
    messages: &'a mut Vec<M>,
    // scratch sink that a narrowed context writes to in place of `messages`
    never_messages: Vec<Never>,
}

/// The context of one node during layout: it reads, and never writes.
pub struct LayoutCtx<'a, W> {
    window: &'a W,
    state: &'a WidgetState,
    layout_state: &'a LayoutState,
}

/// The context of one node during painting, over the render capability `R`.
pub struct PaintCtx<'a, R> {
    state: &'a WidgetState,
    layout_state: &'a LayoutState,
    render_ctx: &'a mut R,
}

impl<'a, W, M> EventCtx<'a, W, M> {
    /// The window capability that this context hands out.
    pub closed spec fn window_ref(&self) -> &'a W {
        self.window
    }

    /// The node's state as this context sees it now.
    pub closed spec fn node(&self) -> WidgetState {
        *self.state
    }

    /// The borrow of the node's state that this context holds.
    pub closed spec fn state_borrow(&self) -> &'a mut WidgetState {
        self.state
    }

    /// The node's layout result.
    pub closed spec fn layout(&self) -> LayoutState {
        *self.layout_state
    }

    /// The messages in the sink as this context sees it now.
    pub closed spec fn sink(&self) -> Seq<M> {
        self.messages@
    }

    /// The borrow of the message sink that this context holds.
    pub closed spec fn sink_borrow(&self) -> &'a mut Vec<M> {
        self.messages
    }

    /// A context over one node's state and layout, appending to `messages`.
    pub fn new(
        window: &'a W,
        state: &'a mut WidgetState,
        layout_state: &'a LayoutState,
        messages: &'a mut Vec<M>,
    ) -> (r: Self)
        ensures
            r.window_ref() == window,
            r.node() == *old(state),
            *final(r.state_borrow()) == *final(state),
            r.layout() == *layout_state,
            r.sink() == old(messages)@,
            *final(r.sink_borrow()) == *final(messages),
    {
        EventCtx { window, state, layout_state, messages, never_messages: Vec::new() }
    }

    /// The window capability, for text services and redraw requests.
    pub fn window(&self) -> (r: &'a W)
        ensures
            r == self.window_ref(),
    {
        self.window
    }

    pub fn hovered(&self) -> (r: bool)
        ensures
            r == self.layout().hovered,
    {
        self.layout_state.hovered
    }

    pub fn set_mouse_focus(&mut self, focus: bool)
        ensures
            final(self).node() == with_mouse_focus(old(self).node(), focus),
            *final(final(self).state_borrow()) == *final(old(self).state_borrow()),
            final(self).window_ref() == old(self).window_ref(),
            final(self).layout() == old(self).layout(),
            final(self).sink() == old(self).sink(),
            *final(final(self).sink_borrow()) == *final(old(self).sink_borrow()),
    {
        self.state.mouse_focus = focus;
    }

    pub fn mouse_focused(&self) -> (r: bool)
        ensures
            r == self.node().mouse_focus,
    {
        self.state.mouse_focus
    }

    pub fn keyboard_focused(&self) -> (r: bool)
        ensures
            r == self.node().keyboard_focus,
    {
        self.state.keyboard_focus
    }

    /// Asks for this node to be refreshed by a later pass.
    pub fn request_update(&mut self)
        ensures
            final(self).node() == with_update_requested(old(self).node()),
            *final(final(self).state_borrow()) == *final(old(self).state_borrow()),
            final(self).window_ref() == old(self).window_ref(),
            final(self).layout() == old(self).layout(),
            final(self).sink() == old(self).sink(),
            *final(final(self).sink_borrow()) == *final(old(self).sink_borrow()),
    {
        self.state.request_update = true;
    }

    /// Appends `action` to the end of the sink.
    pub fn submit_action(&mut self, action: M)
        ensures
            final(self).sink() == old(self).sink().push(action),
            *final(final(self).sink_borrow()) == *final(old(self).sink_borrow()),
            final(self).window_ref() == old(self).window_ref(),
            final(self).node() == old(self).node(),
            *final(final(self).state_borrow()) == *final(old(self).state_borrow()),
            final(self).layout() == old(self).layout(),
    {
        self.messages.push(action);
    }

    /// A context over the same window, node state and layout whose sink is
    /// a scratch sink of `Never`: nothing done through it reaches the sink of
    /// this context, and what it does to the node state is seen here after.
    pub fn as_never_ctx<'b>(&'b mut self) -> (r: EventCtx<'b, W, Never>)
        where
            'a: 'b,
        ensures
            r.window_ref() == old(self).window_ref(),
            r.node() == old(self).node(),
            r.layout() == old(self).layout(),
            r.sink().len() == 0,
            final(self).node() == *final(r.state_borrow()),
            *final(final(self).state_borrow()) == *final(old(self).state_borrow()),
            final(self).window_ref() == old(self).window_ref(),
            final(self).layout() == old(self).layout(),
            final(self).sink() == old(self).sink(),
            *final(final(self).sink_borrow()) == *final(old(self).sink_borrow()),
    {
        // the scratch sink starts empty for every narrowed context
        self.never_messages.clear();
        EventCtx {
            state: self.state,
            messages: &mut self.never_messages,
            never_messages: Vec::new(),
            layout_state: self.layout_state,
            window: self.window,
        }
    }
}

/// Once an event context is no longer used, the node state and the sink that
/// it borrowed hold what the context last saw.
pub proof fn lemma_event_ctx_resolved<'a, W, M>(c: EventCtx<'a, W, M>)
    requires
        has_resolved(c),
    ensures
        c.node() == *final(c.state_borrow()),
        c.sink() == (*final(c.sink_borrow()))@,
{
}

/// Once a paint context is no longer used, the render capability that it
/// borrowed holds what the context last saw.
pub proof fn lemma_paint_ctx_resolved<'a, R>(c: PaintCtx<'a, R>)
    requires
        has_resolved(c),
    ensures
        c.renderer() == *final(c.render_borrow()),
{
}

/// The node state after `set_mouse_focus(focus)`.
pub open spec fn with_mouse_focus(s: WidgetState, focus: bool) -> WidgetState {
    WidgetState { mouse_focus: focus, ..s }
}

/// The node state after `request_update()`.
pub open spec fn with_update_requested(s: WidgetState) -> WidgetState {
    WidgetState { request_update: true, ..s }
}

impl<'a, W> LayoutCtx<'a, W> {
    /// The window capability that this context hands out.
    pub closed spec fn window_ref(&self) -> &'a W {
        self.window
    }

    pub closed spec fn node(&self) -> WidgetState {
        *self.state
    }

    /// The node's layout result.
    pub closed spec fn layout(&self) -> LayoutState {
        *self.layout_state
    }

    pub fn new(window: &'a W, state: &'a WidgetState, layout_state: &'a LayoutState) -> (r: Self)
        ensures
            r.window_ref() == window,
            r.node() == *state,
            r.layout() == *layout_state,
    {
        LayoutCtx { window, state, layout_state }
    }

    /// The window capability, for text services.
    pub fn window(&self) -> (r: &'a W)
        ensures
            r == self.window_ref(),
    {
        self.window
    }
}

impl<'a, R> PaintCtx<'a, R> {
    pub closed spec fn node(&self) -> WidgetState {
        *self.state
    }

    /// The node's layout result.
    pub closed spec fn layout(&self) -> LayoutState {
        *self.layout_state
    }

    /// The render capability as this context sees it now.
    pub closed spec fn renderer(&self) -> R {
        *self.render_ctx
    }

    /// The borrow of the render capability that this context holds.
    pub closed spec fn render_borrow(&self) -> &'a mut R {
        self.render_ctx
    }

    pub fn new(state: &'a WidgetState, layout_state: &'a LayoutState, render_ctx: &'a mut R) -> (r: Self)
        ensures
            r.node() == *state,
            r.layout() == *layout_state,
            r.renderer() == *old(render_ctx),
            *final(r.render_borrow()) == *final(render_ctx),
    {
        PaintCtx { state, layout_state, render_ctx }
    }

    pub fn hovered(&self) -> (r: bool)
        ensures
            r == self.layout().hovered,
    {
        self.layout_state.hovered
    }

    pub fn mouse_focused(&self) -> (r: bool)
        ensures
            r == self.node().mouse_focus,
    {
        self.state.mouse_focus
    }

    pub fn keyboard_focused(&self) -> (r: bool)
        ensures
            r == self.node().keyboard_focus,
    {
        self.state.keyboard_focus
    }

    /// The node's area: its size, anchored at the origin.
    pub fn frame(&self) -> (r: Rect)
        ensures
            r == (Rect { x0: 0, y0: 0, x1: self.layout().size.width, y1: self.layout().size.height }),
    {
        self.layout_state.size.to_rect()
    }

    /// The render capability, to draw through.
    pub fn render(&mut self) -> (r: &mut R)
        ensures
            *r == old(self).renderer(),
            final(self).renderer() == *final(r),
            *final(final(self).render_borrow()) == *final(old(self).render_borrow()),
            final(self).node() == old(self).node(),
            final(self).layout() == old(self).layout(),
    {
        self.render_ctx
    }

    /// The part of a scoped save of the renderer's state that follows the
    /// save: where `saved` holds, runs `draw` once on this context and owes a
    /// restore; where it does not, runs nothing, changes nothing and owes no
    /// restore.
    pub fn draw_if_saved<F: FnOnce(&mut PaintCtx<'a, R>)>(&mut self, saved: bool, draw: F) -> (restore: bool)
        requires
            saved ==> forall|c: &mut PaintCtx<'a, R>| draw.requires((c,)),
        ensures
            restore == saved,
            !saved ==> *final(self) == *old(self),
            saved ==> exists|c: &mut PaintCtx<'a, R>|
                *c == *old(self) && *final(c) == *final(self) && #[trigger] draw.ensures((c,), ()),
    {
        if saved {
            draw(self);
        }
        saved
    }
}

} // verus!
