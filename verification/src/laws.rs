//! Laws of the state machine, proved once and for all states: what browse
//! mode ignores, what cancel and commit restore and clear, how the
//! suggestion cursor moves, and what a failed search cannot do.

use vstd::prelude::*;

use crate::state::{AppStateV, EditSessionV, EffectV, InputEvent, ModeV, PaneV, SearchError};
use crate::transition::{
    spec_apply_search, spec_cursor_down, spec_cursor_up, spec_step,
};

verus! {

/// In browse mode, every input other than `q`, `H` and `L` leaves the
/// state exactly as it was and requests nothing: an idempotent no-op.
pub proof fn lemma_browse_ignores_other_input(s: AppStateV, ev: InputEvent)
    requires
        s.mode is Browse,
        !(ev matches InputEvent::Char(c) && (c == 'q' || c == 'H' || c == 'L')),
    ensures
        spec_step(s, ev).0 == s,
        spec_step(s, ev).1 == EffectV::Idle,
{
}

/// Opening an edit session with `H` or `L` and cancelling it with `Esc`
/// returns to browsing with the whole state — in particular the target
/// pane's path and entries — exactly as it was before the edit began.
pub proof fn lemma_open_then_cancel(s: AppStateV, c: char)
    requires
        s.mode is Browse,
        c == 'H' || c == 'L',
    ensures
        spec_step(spec_step(s, InputEvent::Char(c)).0, InputEvent::Esc).0 == s,
{
    assert(spec_step(spec_step(s, InputEvent::Char(c)).0, InputEvent::Esc).0 =~= s);
}

/// Committing with `Enter` always destroys the edit session — and with it
/// the input buffer — and returns to browsing, whatever the buffer holds
/// and whether or not it names a directory that can be listed. The buffer
/// becomes the target pane's path, a listing of it is requested, and the
/// other pane, like both panes' entries, is untouched.
pub proof fn lemma_commit_clears_and_returns(s: AppStateV, es: EditSessionV)
    requires
        s.mode == ModeV::Edit(es),
    ensures
        spec_step(s, InputEvent::Enter).0.mode is Browse,
        spec_step(s, InputEvent::Enter).1 == EffectV::ListDir(es.target, es.buffer),
        es.target is Left ==> spec_step(s, InputEvent::Enter).0.left == (PaneV {
            path: es.buffer,
            ..s.left
        }) && spec_step(s, InputEvent::Enter).0.right == s.right,
        es.target is Right ==> spec_step(s, InputEvent::Enter).0.right == (PaneV {
            path: es.buffer,
            ..s.right
        }) && spec_step(s, InputEvent::Enter).0.left == s.left,
{
}

/// No keyboard input ever touches a pane's listing: entries change only
/// when a requested listing is written back through `apply_listing`, on an
/// `Enter`-confirmed path edit. Until then a stale listing simply stays.
pub proof fn lemma_input_keeps_entries(s: AppStateV, ev: InputEvent)
    ensures
        spec_step(s, ev).0.left.entries == s.left.entries,
        spec_step(s, ev).0.right.entries == s.right.entries,
{
}

/// The suggestion cursor after `Down` has been pressed n times in a row.
pub open spec fn spec_cursor_down_n(c: Option<usize>, n: nat) -> Option<usize>
    decreases n,
{
    if n == 0 {
        c
    } else {
        spec_cursor_down(spec_cursor_down_n(c, (n - 1) as nat))
    }
}

/// Starting with no cursor, pressing `Down` n times puts the cursor on
/// index n - 1. This holds up to the machine bound: the cursor saturates
/// at `usize::MAX`, so from the press after `usize::MAX + 1` on it no
/// longer advances.
pub proof fn lemma_down_n_times(n: nat)
    requires
        1 <= n <= usize::MAX + 1,
    ensures
        spec_cursor_down_n(None::<usize>, n) == Some((n - 1) as usize),
    decreases n,
{
    if n == 1 {
        assert(spec_cursor_down_n(None::<usize>, 1) == spec_cursor_down(None::<usize>));
    } else {
        lemma_down_n_times((n - 1) as nat);
        let prev = (n - 2) as usize;
        assert(spec_cursor_down_n(None::<usize>, n) == spec_cursor_down(Some(prev)));
        assert(prev < usize::MAX);
        assert((prev + 1) as usize == (n - 1) as usize);
    }
}

/// Pressing `Up` with the cursor on the first suggestion clears it, and
/// pressing `Up` with no cursor leaves it absent: neither underflows.
pub proof fn lemma_up_at_top()
    ensures
        spec_cursor_up(Some(0usize)) == None::<usize>,
        spec_cursor_up(None::<usize>) == None::<usize>,
{
}

/// A failed search never clears or changes the suggestions already held:
/// merging a failure returns the state unchanged, field for field.
pub proof fn lemma_search_failure_changes_nothing(s: AppStateV, e: SearchError)
    ensures
        spec_apply_search(s, Result::Err(e)) == s,
{
}

} // verus!
