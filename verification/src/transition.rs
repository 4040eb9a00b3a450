//! The interaction state machine: the pure transition from (state, input)
//! to (state, requested effect), and the two write-back steps through which
//! the surrounding loop merges search replies and directory listings.

use vstd::prelude::*;

use crate::state::{
    AppState, AppStateV, EditSession, EditSessionV, Effect, EffectV, InputEvent, Mode, ModeV,
    Pane, PaneV, PaneSide, SearchError,
};
use crate::text::{pop_char, push_char};

verus! {

/// Where the suggestion cursor stands after `Up`: one step towards the
/// top, cleared from the first entry, and still absent when it was absent.
pub open spec fn spec_cursor_up(c: Option<usize>) -> Option<usize> {
    match c {
        Option::None => None,
        Option::Some(v) => if v > 0 {
            Some((v - 1) as usize)
        } else {
            None
        },
    }
}

/// Where the suggestion cursor stands after `Down`: onto the first entry
/// when it was absent, else one step further. The step is deliberately not
/// checked against the suggestion count — the cursor may point past the end
/// of the list, and consumers clamp on use — so the only cap is the machine
/// bound `usize::MAX`, where the cursor stays put.
pub open spec fn spec_cursor_down(c: Option<usize>) -> Option<usize> {
    match c {
        Option::None => Some(0usize),
        Option::Some(v) => if v < usize::MAX {
            Some((v + 1) as usize)
        } else {
            Some(v)
        },
    }
}

/// Move the suggestion cursor one step up.
pub fn cursor_up(c: Option<usize>) -> (r: Option<usize>)
    ensures
        r == spec_cursor_up(c),
{
    match c {
        None => None,
        Some(v) => if v > 0 {
            Some(v - 1)
        } else {
            None
        },
    }
}

/// Move the suggestion cursor one step down.
pub fn cursor_down(c: Option<usize>) -> (r: Option<usize>)
    ensures
        r == spec_cursor_down(c),
{
    match c {
        None => Some(0),
        Some(v) => if v < usize::MAX {
            Some(v + 1)
        } else {
            Some(v)
        },
    }
}

/// The edit session as it starts: empty buffer, no suggestions yet, no
/// suggestion selected.
pub open spec fn spec_fresh_session(target: PaneSide) -> EditSessionV {
    EditSessionV { target, buffer: Seq::empty(), suggestions: None, cursor: None }
}

/// The transition relation of the browser, one input event at a time.
///
/// In browse mode, `q` asks to quit, `H` and `L` open an edit session for
/// the left or right pane, and every other input changes nothing. In edit
/// mode, `Esc` cancels, `Up`/`Down` move the suggestion cursor, typing and
/// `Backspace` edit the buffer and request a search with the new buffer,
/// `Enter` commits the buffer as the target pane's path and requests a
/// listing of it, and `Tab` is reserved and does nothing.
pub open spec fn spec_step(s: AppStateV, ev: InputEvent) -> (AppStateV, EffectV) {
    match s.mode {
        ModeV::Browse => match ev {
            InputEvent::Char(c) => if c == 'q' {
                (s, EffectV::Quit)
            } else if c == 'H' {
                (
                    AppStateV { mode: ModeV::Edit(spec_fresh_session(PaneSide::Left)), ..s },
                    EffectV::Idle,
                )
            } else if c == 'L' {
                (
                    AppStateV { mode: ModeV::Edit(spec_fresh_session(PaneSide::Right)), ..s },
                    EffectV::Idle,
                )
            } else {
                (s, EffectV::Idle)
            },
            _ => (s, EffectV::Idle),
        },
        ModeV::Edit(es) => match ev {
            InputEvent::Esc => (AppStateV { mode: ModeV::Browse, ..s }, EffectV::Idle),
            InputEvent::Up => (
                AppStateV {
                    mode: ModeV::Edit(EditSessionV { cursor: spec_cursor_up(es.cursor), ..es }),
                    ..s
                },
                EffectV::Idle,
            ),
            InputEvent::Down => (
                AppStateV {
                    mode: ModeV::Edit(EditSessionV { cursor: spec_cursor_down(es.cursor), ..es }),
                    ..s
                },
                EffectV::Idle,
            ),
            InputEvent::Char(c) => {
                let buffer = es.buffer.push(c);
                (
                    AppStateV { mode: ModeV::Edit(EditSessionV { buffer, ..es }), ..s },
                    EffectV::Search(buffer),
                )
            },
            InputEvent::Backspace => {
                let buffer = if es.buffer.len() == 0 {
                    es.buffer
                } else {
                    es.buffer.drop_last()
                };
                (
                    AppStateV { mode: ModeV::Edit(EditSessionV { buffer, ..es }), ..s },
                    EffectV::Search(buffer),
                )
            },
            InputEvent::Enter => match es.target {
                PaneSide::Left => (
                    AppStateV {
                        mode: ModeV::Browse,
                        left: PaneV { path: es.buffer, ..s.left },
                        ..s
                    },
                    EffectV::ListDir(PaneSide::Left, es.buffer),
                ),
                PaneSide::Right => (
                    AppStateV {
                        mode: ModeV::Browse,
                        right: PaneV { path: es.buffer, ..s.right },
                        ..s
                    },
                    EffectV::ListDir(PaneSide::Right, es.buffer),
                ),
            },
            _ => (s, EffectV::Idle),
        },
    }
}

/// Feed one input event to the state machine. The returned state and the
/// requested effect are exactly what the transition relation `spec_step`
/// gives for the old state and this event.
pub fn step(state: AppState, ev: InputEvent) -> (r: (AppState, Effect))
    ensures
        r.0@ == spec_step(state@, ev).0,
        r.1@ == spec_step(state@, ev).1,
{
    let AppState { mode, left, right } = state;
    match mode {
        Mode::Browse => match ev {
            InputEvent::Char(c) => {
                if c == 'q' {
                    (AppState { mode: Mode::Browse, left, right }, Effect::Quit)
                } else if c == 'H' {
                    (
                        AppState {
                            mode: Mode::Edit(fresh_session(PaneSide::Left)),
                            left,
                            right,
                        },
                        Effect::Idle,
                    )
                } else if c == 'L' {
                    (
                        AppState {
                            mode: Mode::Edit(fresh_session(PaneSide::Right)),
                            left,
                            right,
                        },
                        Effect::Idle,
                    )
                } else {
                    (AppState { mode: Mode::Browse, left, right }, Effect::Idle)
                }
            },
            _ => (AppState { mode: Mode::Browse, left, right }, Effect::Idle),
        },
        Mode::Edit(session) => match ev {
            InputEvent::Esc => (AppState { mode: Mode::Browse, left, right }, Effect::Idle),
            InputEvent::Up => {
                let EditSession { target, buffer, suggestions, cursor } = session;
                let moved = cursor_up(cursor);
                (
                    AppState {
                        mode: Mode::Edit(
                            EditSession { target, buffer, suggestions, cursor: moved },
                        ),
                        left,
                        right,
                    },
                    Effect::Idle,
                )
            },
            InputEvent::Down => {
                let EditSession { target, buffer, suggestions, cursor } = session;
                let moved = cursor_down(cursor);
                (
                    AppState {
                        mode: Mode::Edit(
                            EditSession { target, buffer, suggestions, cursor: moved },
                        ),
                        left,
                        right,
                    },
                    Effect::Idle,
                )
            },
            InputEvent::Char(c) => {
                let EditSession { target, mut buffer, suggestions, cursor } = session;
                push_char(&mut buffer, c);
                let query = buffer.clone();
                (
                    AppState {
                        mode: Mode::Edit(EditSession { target, buffer, suggestions, cursor }),
                        left,
                        right,
                    },
                    Effect::Search(query),
                )
            },
            InputEvent::Backspace => {
                let EditSession { target, mut buffer, suggestions, cursor } = session;
                let _dropped = pop_char(&mut buffer);
                let query = buffer.clone();
                (
                    AppState {
                        mode: Mode::Edit(EditSession { target, buffer, suggestions, cursor }),
                        left,
                        right,
                    },
                    Effect::Search(query),
                )
            },
            InputEvent::Enter => {
                let EditSession { target, buffer, suggestions: _, cursor: _ } = session;
                let listed = buffer.clone();
                match target {
                    PaneSide::Left => (
                        AppState {
                            mode: Mode::Browse,
                            left: Pane { path: buffer, entries: left.entries, cursor: left.cursor },
                            right,
                        },
                        Effect::ListDir(PaneSide::Left, listed),
                    ),
                    PaneSide::Right => (
                        AppState {
                            mode: Mode::Browse,
                            left,
                            right: Pane {
                                path: buffer,
                                entries: right.entries,
                                cursor: right.cursor,
                            },
                        },
                        Effect::ListDir(PaneSide::Right, listed),
                    ),
                }
            },
            _ => (AppState { mode: Mode::Edit(session), left, right }, Effect::Idle),
        },
    }
}

/// Build the edit session an `H` or `L` opens.
fn fresh_session(target: PaneSide) -> (r: EditSession)
    ensures
        r@ == spec_fresh_session(target),
{
    let r = EditSession { target, buffer: String::new(), suggestions: None, cursor: None };
    proof {
        assert(r@ =~~= spec_fresh_session(target));
    }
    r
}

/// The spec-level value of a search outcome: the found paths as sequences,
/// or the error unchanged.
pub open spec fn search_outcome_view(
    outcome: Result<Vec<String>, SearchError>,
) -> Result<Seq<Seq<char>>, SearchError> {
    match outcome {
        Result::Ok(found) => Result::Ok(found.deep_view()),
        Result::Err(e) => Result::Err(e),
    }
}

/// How a finished search changes the state: a successful reply replaces the
/// suggestions of the open edit session, and everything else — a failed
/// search, or a reply arriving outside edit mode — changes nothing at all.
pub open spec fn spec_apply_search(
    s: AppStateV,
    outcome: Result<Seq<Seq<char>>, SearchError>,
) -> AppStateV {
    match outcome {
        Result::Ok(found) => match s.mode {
            ModeV::Edit(es) => AppStateV {
                mode: ModeV::Edit(EditSessionV { suggestions: Some(found), ..es }),
                ..s
            },
            ModeV::Browse => s,
        },
        Result::Err(_) => s,
    }
}

/// Merge a finished search into the state. A failure leaves the state — in
/// particular the suggestions already on screen — exactly as it was.
pub fn apply_search(state: AppState, outcome: Result<Vec<String>, SearchError>) -> (r: AppState)
    ensures
        r@ == spec_apply_search(state@, search_outcome_view(outcome)),
{
    match outcome {
        Result::Err(_) => state,
        Result::Ok(found) => {
            let AppState { mode, left, right } = state;
            match mode {
                Mode::Browse => AppState { mode: Mode::Browse, left, right },
                Mode::Edit(session) => {
                    let EditSession { target, buffer, suggestions: _, cursor } = session;
                    (AppState {
                        mode: Mode::Edit(
                            EditSession { target, buffer, suggestions: Some(found), cursor },
                        ),
                        left,
                        right,
                    })
                },
            }
        },
    }
}

/// How a finished listing changes the state: the listed files become the
/// named pane's entries; nothing else moves.
pub open spec fn spec_apply_listing(
    s: AppStateV,
    side: PaneSide,
    files: Seq<Seq<char>>,
) -> AppStateV {
    match side {
        PaneSide::Left => AppStateV { left: PaneV { entries: Some(files), ..s.left }, ..s },
        PaneSide::Right => AppStateV { right: PaneV { entries: Some(files), ..s.right }, ..s },
    }
}

/// Store a finished directory listing in the pane it was requested for.
pub fn apply_listing(state: AppState, side: PaneSide, files: Vec<String>) -> (r: AppState)
    ensures
        r@ == spec_apply_listing(state@, side, files.deep_view()),
{
    let AppState { mode, left, right } = state;
    match side {
        PaneSide::Left => AppState {
            mode,
            left: Pane { path: left.path, entries: Some(files), cursor: left.cursor },
            right,
        },
        PaneSide::Right => AppState {
            mode,
            left,
            right: Pane { path: right.path, entries: Some(files), cursor: right.cursor },
        },
    }
}

/// What one turn of the run loop decided: the state to carry on with, the
/// effect to perform, and whether to redraw — which is every turn.
pub struct TickResult {
    pub next: AppState,
    pub effect: Effect,
    pub redraw: bool,
}

/// One turn of the run loop, given at most one input event. A turn without
/// input changes nothing and requests nothing — but still redraws: the
/// `redraw` flag is true on every turn, input or not, which is what keeps
/// the display live.
pub fn tick(state: AppState, input: Option<InputEvent>) -> (r: TickResult)
    ensures
        r.redraw,
        input is None ==> r.next@ == state@ && r.effect@ == EffectV::Idle,
        input matches Some(ev) ==> r.next@ == spec_step(state@, ev).0 && r.effect@ == spec_step(
            state@,
            ev,
        ).1,
{
    match input {
        None => TickResult { next: state, effect: Effect::Idle, redraw: true },
        Some(ev) => {
            let (next, effect) = step(state, ev);
            TickResult { next, effect, redraw: true }
        },
    }
}

} // verus!
