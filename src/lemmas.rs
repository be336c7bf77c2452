use vstd::prelude::*;

use crate::contexts::{with_mouse_focus, with_update_requested};
use crate::state::WidgetState;

verus! {

/// The node state after `set_mouse_focus(vs[0])`, ..., `set_mouse_focus(vs[n - 1])`.
pub open spec fn after_focus_sets(s: WidgetState, vs: Seq<bool>) -> WidgetState
    decreases vs.len(),
{
    if vs.len() == 0 {
        s
    } else {
        with_mouse_focus(after_focus_sets(s, vs.drop_last()), vs.last())
    }
}

/// After any nonempty run of `set_mouse_focus` calls, `mouse_focused` reads
/// the value of the last one, and the other flags are as they were.
pub proof fn lemma_mouse_focus_reads_back(s: WidgetState, vs: Seq<bool>)
    requires
        vs.len() > 0,
    ensures
        after_focus_sets(s, vs).mouse_focus == vs.last(),
        after_focus_sets(s, vs).keyboard_focus == s.keyboard_focus,
        after_focus_sets(s, vs).request_update == s.request_update,
    decreases vs.len(),
{
    if vs.len() > 1 {
        lemma_mouse_focus_reads_back(s, vs.drop_last());
    } else {
        assert(after_focus_sets(s, vs.drop_last()) == s);
    }
}

/// The sink after `submit_action(xs[0])`, ..., `submit_action(xs[n - 1])`.
pub open spec fn after_submits<M>(sink: Seq<M>, xs: Seq<M>) -> Seq<M>
    decreases xs.len(),
{
    if xs.len() == 0 {
        sink
    } else {
        after_submits(sink, xs.drop_last()).push(xs.last())
    }
}

/// Submitted actions land in the sink after what was there, in the order of
/// submission.
pub proof fn lemma_submits_keep_order<M>(sink: Seq<M>, xs: Seq<M>)
    ensures
        after_submits(sink, xs) == sink + xs,
    decreases xs.len(),
{
    if xs.len() > 0 {
        lemma_submits_keep_order(sink, xs.drop_last());
        assert(sink + xs == (sink + xs.drop_last()).push(xs.last()));
    } else {
        assert(sink + xs == sink);
    }
}

/// The node state after `n` calls of `request_update`.
pub open spec fn after_update_requests(s: WidgetState, n: nat) -> WidgetState
    decreases n,
{
    if n == 0 {
        s
    } else {
        with_update_requested(after_update_requests(s, (n - 1) as nat))
    }
}

/// Requesting an update once or any larger number of times leaves the same
/// state, with the request set.
pub proof fn lemma_request_update_idempotent(s: WidgetState, n: nat)
    requires
        n >= 1,
    ensures
        after_update_requests(s, n) == with_update_requested(s),
        after_update_requests(s, n).request_update,
    decreases n,
{
    if n > 1 {
        lemma_request_update_idempotent(s, (n - 1) as nat);
    } else {
        assert(after_update_requests(s, 0) == s);
    }
}

} // verus!
