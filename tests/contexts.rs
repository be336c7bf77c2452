use druidinho::{EventCtx, LayoutCtx, LayoutState, PaintCtx, Rect, Size, WidgetState};

fn layout(hovered: bool, width: u64, height: u64) -> LayoutState {
    LayoutState { hovered, size: Size { width, height } }
}

#[test]
fn handler_scenario_sets_flags_and_sink() {
    let mut state = WidgetState::new();
    assert_eq!(
        state,
        WidgetState { mouse_focus: false, keyboard_focus: false, request_update: false }
    );
    let lay = layout(false, 10, 20);
    let mut sink: Vec<&str> = Vec::new();
    {
        let mut ctx = EventCtx::new(&(), &mut state, &lay, &mut sink);
        ctx.set_mouse_focus(true);
        ctx.request_update();
        ctx.submit_action("X");
    }
    assert_eq!(
        state,
        WidgetState { mouse_focus: true, keyboard_focus: false, request_update: true }
    );
    assert_eq!(sink, vec!["X"]);
}

#[test]
fn hovered_agrees_between_event_and_paint() {
    for hovered in [false, true] {
        let mut state = WidgetState::new();
        let lay = layout(hovered, 1, 1);
        let mut sink: Vec<u32> = Vec::new();
        let ctx = EventCtx::new(&(), &mut state, &lay, &mut sink);
        let from_event = ctx.hovered();
        drop(ctx);
        let mut renderer: Vec<u32> = Vec::new();
        let paint = PaintCtx::new(&state, &lay, &mut renderer);
        assert_eq!(from_event, hovered);
        assert_eq!(paint.hovered(), hovered);
    }
}

#[test]
fn mouse_focus_reads_back_last_set() {
    let mut state = WidgetState::new();
    state.keyboard_focus = true;
    let lay = layout(false, 0, 0);
    let mut sink: Vec<u8> = Vec::new();
    let mut ctx = EventCtx::new(&(), &mut state, &lay, &mut sink);
    for v in [true, false, false, true, false] {
        ctx.set_mouse_focus(v);
        assert_eq!(ctx.mouse_focused(), v);
        assert!(ctx.keyboard_focused());
    }
}

#[test]
fn submitted_actions_keep_their_order() {
    let mut state = WidgetState::new();
    let lay = layout(false, 0, 0);
    let mut sink: Vec<u32> = vec![7];
    {
        let mut ctx = EventCtx::new(&(), &mut state, &lay, &mut sink);
        for a in [3, 1, 2, 3] {
            ctx.submit_action(a);
        }
    }
    assert_eq!(sink, vec![7, 3, 1, 2, 3]);
}

#[test]
fn never_ctx_keeps_caller_sink_and_shares_state() {
    let mut state = WidgetState::new();
    let lay = layout(true, 0, 0);
    let mut sink: Vec<u32> = Vec::new();
    {
        let mut ctx = EventCtx::new(&(), &mut state, &lay, &mut sink);
        ctx.submit_action(1);
        {
            let mut narrow = ctx.as_never_ctx();
            assert!(narrow.hovered());
            narrow.set_mouse_focus(true);
            narrow.request_update();
            assert!(narrow.mouse_focused());
        }
        assert!(ctx.mouse_focused());
        {
            let mut narrow = ctx.as_never_ctx();
            narrow.set_mouse_focus(false);
        }
        assert!(!ctx.mouse_focused());
        ctx.submit_action(2);
    }
    assert_eq!(sink, vec![1, 2]);
    assert_eq!(
        state,
        WidgetState { mouse_focus: false, keyboard_focus: false, request_update: true }
    );
}

#[test]
fn request_update_once_or_many_times() {
    let lay = layout(false, 0, 0);
    let mut once = WidgetState::new();
    let mut many = WidgetState::new();
    let mut sink: Vec<u8> = Vec::new();
    {
        let mut ctx = EventCtx::new(&(), &mut once, &lay, &mut sink);
        ctx.request_update();
    }
    {
        let mut ctx = EventCtx::new(&(), &mut many, &lay, &mut sink);
        for _ in 0..5 {
            ctx.request_update();
        }
    }
    assert!(once.request_update);
    assert_eq!(once, many);
    assert!(sink.is_empty());
}

#[test]
fn paint_reads_focus_flags() {
    let state = WidgetState { mouse_focus: true, keyboard_focus: false, request_update: false };
    let lay = layout(false, 4, 5);
    let mut renderer: Vec<u8> = Vec::new();
    let paint = PaintCtx::new(&state, &lay, &mut renderer);
    assert!(paint.mouse_focused());
    assert!(!paint.keyboard_focused());
}

#[test]
fn frame_is_size_at_origin() {
    let state = WidgetState::new();
    let lay = layout(false, 120, 35);
    let mut renderer: Vec<u8> = Vec::new();
    let paint = PaintCtx::new(&state, &lay, &mut renderer);
    assert_eq!(paint.frame(), Rect { x0: 0, y0: 0, x1: 120, y1: 35 });
    assert_eq!(Size { width: 0, height: 0 }.to_rect(), Rect { x0: 0, y0: 0, x1: 0, y1: 0 });
    let big = Size { width: u64::MAX, height: u64::MAX }.to_rect();
    assert_eq!(big, Rect { x0: 0, y0: 0, x1: u64::MAX, y1: u64::MAX });
}

#[test]
fn draw_runs_once_after_a_successful_save() {
    let state = WidgetState::new();
    let lay = layout(false, 2, 3);
    let mut renderer: Vec<&str> = Vec::new();
    let mut calls: u32 = 0;
    {
        let mut paint = PaintCtx::new(&state, &lay, &mut renderer);
        let restore = paint.draw_if_saved(true, |c: &mut PaintCtx<Vec<&str>>| {
            calls += 1;
            c.render().push("draw");
        });
        assert!(restore);
    }
    assert_eq!(calls, 1);
    assert_eq!(renderer, vec!["draw"]);
}

#[test]
fn draw_skipped_after_a_failed_save() {
    let state = WidgetState::new();
    let lay = layout(false, 2, 3);
    let mut renderer: Vec<&str> = vec!["before"];
    let mut calls: u32 = 0;
    {
        let mut paint = PaintCtx::new(&state, &lay, &mut renderer);
        let restore = paint.draw_if_saved(false, |c: &mut PaintCtx<Vec<&str>>| {
            calls += 1;
            c.render().push("draw");
        });
        assert!(!restore);
    }
    assert_eq!(calls, 0);
    assert_eq!(renderer, vec!["before"]);
}

#[test]
fn window_is_handed_through() {
    let window: u32 = 42;
    let mut state = WidgetState::new();
    let lay = layout(false, 0, 0);
    let mut sink: Vec<u8> = Vec::new();
    let mut ctx = EventCtx::new(&window, &mut state, &lay, &mut sink);
    assert_eq!(*ctx.window(), 42);
    assert_eq!(*ctx.as_never_ctx().window(), 42);
    let state2 = WidgetState::new();
    let lctx = LayoutCtx::new(&window, &state2, &lay);
    assert_eq!(*lctx.window(), 42);
}
