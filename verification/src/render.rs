//! The compute half of the renderer: a pure projection from the state to a
//! description of one frame, re-derived on every call with no layout state
//! of its own. The drawing edge turns the description into widgets.

use vstd::prelude::*;

use crate::state::{AppState, AppStateV, Mode, ModeV};

verus! {

/// Everything one frame shows, as plain values.
///
/// In browse mode the frame carries both path headers but only the left
/// pane's file listing: the right pane is deliberately just a path header
/// without a populated listing. The asymmetry is a documented choice, not
/// an accident of the projection.
#[derive(Clone, Debug, PartialEq)]
pub enum FrameDesc {
    Browse { left_path: String, right_path: String, left_entries: Vec<String> },
    Edit { buffer: String, suggestions: Vec<String>, highlight: Option<usize> },
}

/// Ghost view of a [`FrameDesc`].
#[verifier::ext_equal]
pub ghost enum FrameDescV {
    Browse { left_path: Seq<char>, right_path: Seq<char>, left_entries: Seq<Seq<char>> },
    Edit { buffer: Seq<char>, suggestions: Seq<Seq<char>>, highlight: Option<usize> },
}

impl View for FrameDesc {
    type V = FrameDescV;

    open spec fn view(&self) -> FrameDescV {
        match self {
            FrameDesc::Browse { left_path, right_path, left_entries } => FrameDescV::Browse {
                left_path: left_path@,
                right_path: right_path@,
                left_entries: left_entries.deep_view(),
            },
            FrameDesc::Edit { buffer, suggestions, highlight } => FrameDescV::Edit {
                buffer: buffer@,
                suggestions: suggestions.deep_view(),
                highlight: *highlight,
            },
        }
    }
}

/// The suggestion the cursor actually highlights: the cursor's index when
/// it lies inside the list, and none when the cursor is absent or has run
/// past the end — which it is allowed to do, since `Down` never checks the
/// list length. Out-of-range indices mean "no highlighted suggestion",
/// never an out-of-bounds access.
pub open spec fn spec_highlight(cursor: Option<usize>, len: nat) -> Option<usize> {
    match cursor {
        Option::Some(i) => if i < len {
            Some(i)
        } else {
            None
        },
        Option::None => None,
    }
}

/// Clamp the suggestion cursor against the suggestion count at the point
/// of use.
pub fn highlight_index(cursor: Option<usize>, len: usize) -> (r: Option<usize>)
    ensures
        r == spec_highlight(cursor, len as nat),
{
    match cursor {
        Some(i) => if i < len {
            Some(i)
        } else {
            None
        },
        None => None,
    }
}

/// What the frame for a given state shows. In browse mode: both path
/// headers and the left pane's files, an unloaded listing shown as empty.
/// In edit mode: the input buffer, the suggestions received so far, and
/// the clamped highlight.
pub open spec fn spec_frame(s: AppStateV) -> FrameDescV {
    match s.mode {
        ModeV::Browse => FrameDescV::Browse {
            left_path: s.left.path,
            right_path: s.right.path,
            left_entries: match s.left.entries {
                Option::Some(entries) => entries,
                Option::None => Seq::empty(),
            },
        },
        ModeV::Edit(es) => {
            let suggestions = match es.suggestions {
                Option::Some(found) => found,
                Option::None => Seq::empty(),
            };
            FrameDescV::Edit {
                buffer: es.buffer,
                suggestions,
                highlight: spec_highlight(es.cursor, suggestions.len()),
            }
        },
    }
}

/// Copy a listing so the frame can own it.
fn clone_strings(v: &Vec<String>) -> (r: Vec<String>)
    ensures
        r.deep_view() == v.deep_view(),
{
    let mut out: Vec<String> = Vec::new();
    let mut i: usize = 0;
    proof {
        assert(out.deep_view() =~= v.deep_view().take(0));
    }
    while i < v.len()
        invariant
            i <= v.len(),
            out.deep_view() == v.deep_view().take(i as int),
        decreases v.len() - i,
    {
        let ghost before = out.deep_view();
        out.push(v[i].clone());
        proof {
            assert(out.deep_view() =~= before.push(v@[i as int]@));
            assert(v.deep_view().take(i + 1) =~= v.deep_view().take(i as int).push(
                v@[i as int]@,
            ));
        }
        i = i + 1;
    }
    proof {
        assert(v.deep_view().take(i as int) =~= v.deep_view());
    }
    out
}

/// Project the state onto one frame. Pure: the result is a function of the
/// state alone, and the state is left untouched.
pub fn render_snapshot(state: &AppState) -> (r: FrameDesc)
    ensures
        r@ == spec_frame(state@),
{
    match &state.mode {
        Mode::Browse => {
            let left_entries = match &state.left.entries {
                Some(entries) => clone_strings(entries),
                None => {
                    let empty: Vec<String> = Vec::new();
                    proof {
                        assert(empty.deep_view() =~= Seq::<Seq<char>>::empty());
                    }
                    empty
                },
            };
            FrameDesc::Browse {
                left_path: state.left.path.clone(),
                right_path: state.right.path.clone(),
                left_entries,
            }
        },
        Mode::Edit(session) => {
            let suggestions = match &session.suggestions {
                Some(found) => clone_strings(found),
                None => {
                    let empty: Vec<String> = Vec::new();
                    proof {
                        assert(empty.deep_view() =~= Seq::<Seq<char>>::empty());
                    }
                    empty
                },
            };
            let highlight = highlight_index(session.cursor, suggestions.len());
            FrameDesc::Edit { buffer: session.buffer.clone(), suggestions, highlight }
        },
    }
}

} // verus!
