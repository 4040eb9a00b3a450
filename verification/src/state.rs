//! The data model of the browser: panes, the modal edit session, the whole
//! application state, input events and the effects a transition may request.
//!
//! Every exec type here has a ghost view built from `Seq<char>` and plain
//! values, so that contracts and lemmas can speak about states as
//! mathematical values.

use vstd::prelude::*;

verus! {

/// Which of the two directory panes is meant.
#[derive(Clone, Copy, Debug, PartialEq, Eq, Structural)]
pub enum PaneSide {
    Left,
    Right,
}

/// One keyboard input, already decoded from the terminal event stream.
/// `Other` stands for every key the browser does not react to.
#[derive(Clone, Copy, Debug, PartialEq)]
pub enum InputEvent {
    Char(char),
    Esc,
    Up,
    Down,
    Tab,
    Enter,
    Backspace,
    Other,
}

/// One directory view: its last confirmed path, the files listed for that
/// path (`None` until a first listing is stored), and a selection cursor.
#[derive(Clone, Debug, PartialEq)]
pub struct Pane {
    pub path: String,
    pub entries: Option<Vec<String>>,
    pub cursor: Option<usize>,
}

/// Ghost view of a [`Pane`].
#[verifier::ext_equal]
pub ghost struct PaneV {
    pub path: Seq<char>,
    pub entries: Option<Seq<Seq<char>>>,
    pub cursor: Option<usize>,
}

impl View for Pane {
    type V = PaneV;

    open spec fn view(&self) -> PaneV {
        PaneV { path: self.path@, entries: self.entries.deep_view(), cursor: self.cursor }
    }
}

/// The modal editing state: which pane's path is being retyped, the text
/// typed so far (always starting from empty, never pre-seeded with the old
/// path), the fuzzy suggestions received so far (`None` until a first
/// successful search reply), and the suggestion cursor.
///
/// The suggestion cursor is deliberately not kept below the suggestion
/// count: suggestions may shrink after the cursor was set, so consumers
/// clamp on use instead (see `render`).
#[derive(Clone, Debug, PartialEq)]
pub struct EditSession {
    pub target: PaneSide,
    pub buffer: String,
    pub suggestions: Option<Vec<String>>,
    pub cursor: Option<usize>,
}

/// Ghost view of an [`EditSession`].
#[verifier::ext_equal]
pub ghost struct EditSessionV {
    pub target: PaneSide,
    pub buffer: Seq<char>,
    pub suggestions: Option<Seq<Seq<char>>>,
    pub cursor: Option<usize>,
}

impl View for EditSession {
    type V = EditSessionV;

    open spec fn view(&self) -> EditSessionV {
        EditSessionV {
            target: self.target,
            buffer: self.buffer@,
            suggestions: self.suggestions.deep_view(),
            cursor: self.cursor,
        }
    }
}

/// The browser is either browsing or editing one pane's path. The edit
/// session exists exactly while the mode is `Edit`; leaving edit mode
/// (commit or cancel) destroys it, which is what clears the input buffer.
#[derive(Clone, Debug, PartialEq)]
pub enum Mode {
    Browse,
    Edit(EditSession),
}

/// Ghost view of a [`Mode`].
#[verifier::ext_equal]
pub ghost enum ModeV {
    Browse,
    Edit(EditSessionV),
}

impl View for Mode {
    type V = ModeV;

    open spec fn view(&self) -> ModeV {
        match self {
            Mode::Browse => ModeV::Browse,
            Mode::Edit(session) => ModeV::Edit(session@),
        }
    }
}

/// The whole application state: the current mode and the two panes.
#[derive(Clone, Debug, PartialEq)]
pub struct AppState {
    pub mode: Mode,
    pub left: Pane,
    pub right: Pane,
}

/// Ghost view of an [`AppState`].
#[verifier::ext_equal]
pub ghost struct AppStateV {
    pub mode: ModeV,
    pub left: PaneV,
    pub right: PaneV,
}

impl View for AppState {
    type V = AppStateV;

    open spec fn view(&self) -> AppStateV {
        AppStateV { mode: self.mode@, left: self.left@, right: self.right@ }
    }
}

/// An effect the transition function asks the surrounding loop to perform.
/// The transition only requests; the loop executes and writes results back
/// through `apply_search` and `apply_listing`.
#[derive(Clone, Debug, PartialEq)]
pub enum Effect {
    /// Nothing to do beyond the state change.
    Idle,
    /// Leave the run loop.
    Quit,
    /// Run an asynchronous directory search with this query.
    Search(String),
    /// List the directory at this path and store the result in this pane.
    ListDir(PaneSide, String),
}

/// Ghost view of an [`Effect`].
#[verifier::ext_equal]
pub ghost enum EffectV {
    Idle,
    Quit,
    Search(Seq<char>),
    ListDir(PaneSide, Seq<char>),
}

impl View for Effect {
    type V = EffectV;

    open spec fn view(&self) -> EffectV {
        match self {
            Effect::Idle => EffectV::Idle,
            Effect::Quit => EffectV::Quit,
            Effect::Search(query) => EffectV::Search(query@),
            Effect::ListDir(side, path) => EffectV::ListDir(*side, path@),
        }
    }
}

/// Why a directory search failed: the search process could not be started,
/// or it ran and exited without success. Failures are absorbed: they never
/// disturb the suggestions already on screen.
#[derive(Clone, Copy, Debug, PartialEq, Eq, Structural)]
pub enum SearchError {
    Invocation,
    NonSuccessExit,
}

/// A freshly started pane: a path, no listing yet, no selection.
pub open spec fn spec_initial_pane(path: Seq<char>) -> PaneV {
    PaneV { path, entries: None, cursor: None }
}

/// The state the browser starts in: browsing, both panes at `home`,
/// nothing listed yet.
pub open spec fn spec_initial(home: Seq<char>) -> AppStateV {
    AppStateV {
        mode: ModeV::Browse,
        left: spec_initial_pane(home),
        right: spec_initial_pane(home),
    }
}

impl AppState {
    /// Build the startup state: both panes point at `home`, no entries are
    /// loaded, and the browser is in browse mode.
    pub fn new(home: String) -> (s: AppState)
        ensures
            s@ == spec_initial(home@),
    {
        let other = home.clone();
        let s = AppState {
            mode: Mode::Browse,
            left: Pane { path: home, entries: None, cursor: None },
            right: Pane { path: other, entries: None, cursor: None },
        };
        proof {
            assert(s@ =~~= spec_initial(s.left.path@));
        }
        s
    }
}

} // verus!
