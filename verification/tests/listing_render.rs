use twinpane::listing::{listed_files, select_files, ChildKind, DirChild};
use twinpane::render::{highlight_index, render_snapshot, FrameDesc};
use twinpane::state::{AppState, InputEvent};
use twinpane::transition::{apply_listing, apply_search, step};

fn child(path: &str, kind: ChildKind) -> DirChild {
    DirChild { path: String::from(path), kind }
}

#[test]
fn unreadable_directory_lists_as_empty() {
    // The lister never fails: a directory that cannot be opened yields the
    // empty listing.
    assert_eq!(listed_files(None), Vec::<String>::new());
}

#[test]
fn only_regular_files_are_kept_in_order() {
    let children = vec![
        child("b.txt", ChildKind::RegularFile),
        child("subdir", ChildKind::Other),
        child("a.txt", ChildKind::RegularFile),
        child("broken", ChildKind::Unknown),
    ];
    assert_eq!(
        select_files(children),
        vec![String::from("b.txt"), String::from("a.txt")]
    );
}

#[test]
fn readable_directory_lists_its_files() {
    let children = vec![child("only", ChildKind::RegularFile)];
    assert_eq!(listed_files(Some(children)), vec![String::from("only")]);
}

#[test]
fn empty_directory_lists_as_empty() {
    assert_eq!(listed_files(Some(Vec::new())), Vec::<String>::new());
}

#[test]
fn highlight_clamps_out_of_range_cursor() {
    assert_eq!(highlight_index(None, 3), None);
    assert_eq!(highlight_index(Some(0), 3), Some(0));
    assert_eq!(highlight_index(Some(2), 3), Some(2));
    assert_eq!(highlight_index(Some(3), 3), None);
    assert_eq!(highlight_index(Some(7), 3), None);
    assert_eq!(highlight_index(Some(0), 0), None);
}

#[test]
fn browse_frame_shows_headers_and_left_files() {
    let state = apply_listing(
        AppState::new(String::from("~/")),
        twinpane::state::PaneSide::Left,
        vec![String::from("a.txt")],
    );
    match render_snapshot(&state) {
        FrameDesc::Browse { left_path, right_path, left_entries } => {
            assert_eq!(left_path, "~/");
            assert_eq!(right_path, "~/");
            assert_eq!(left_entries, vec![String::from("a.txt")]);
        }
        FrameDesc::Edit { .. } => panic!("browse mode must render a browse frame"),
    }
}

#[test]
fn browse_frame_shows_unloaded_listing_as_empty() {
    match render_snapshot(&AppState::new(String::from("~/"))) {
        FrameDesc::Browse { left_entries, .. } => {
            assert_eq!(left_entries, Vec::<String>::new())
        }
        FrameDesc::Edit { .. } => panic!("browse mode must render a browse frame"),
    }
}

#[test]
fn edit_frame_shows_buffer_suggestions_and_clamped_highlight() {
    let (opened, _) = step(AppState::new(String::from("~/")), InputEvent::Char('H'));
    let (typed, _) = step(opened, InputEvent::Char('t'));
    let replied = apply_search(typed, Ok(vec![String::from("/tmp"), String::from("/top")]));
    // Run the cursor past the end of the two suggestions.
    let mut state = replied;
    for _ in 0..5 {
        let (next, _) = step(state, InputEvent::Down);
        state = next;
    }
    match render_snapshot(&state) {
        FrameDesc::Edit { buffer, suggestions, highlight } => {
            assert_eq!(buffer, "t");
            assert_eq!(suggestions, vec![String::from("/tmp"), String::from("/top")]);
            assert_eq!(highlight, None);
        }
        FrameDesc::Browse { .. } => panic!("edit mode must render an edit frame"),
    }
}

#[test]
fn edit_frame_highlights_cursor_in_range() {
    let (opened, _) = step(AppState::new(String::from("~/")), InputEvent::Char('H'));
    let replied = apply_search(opened, Ok(vec![String::from("/a"), String::from("/b")]));
    let (down, _) = step(replied, InputEvent::Down);
    match render_snapshot(&down) {
        FrameDesc::Edit { highlight, .. } => assert_eq!(highlight, Some(0)),
        FrameDesc::Browse { .. } => panic!("edit mode must render an edit frame"),
    }
}

#[test]
fn edit_frame_before_first_reply_shows_no_suggestions() {
    let (opened, _) = step(AppState::new(String::from("~/")), InputEvent::Char('H'));
    match render_snapshot(&opened) {
        FrameDesc::Edit { buffer, suggestions, highlight } => {
            assert_eq!(buffer, "");
            assert_eq!(suggestions, Vec::<String>::new());
            assert_eq!(highlight, None);
        }
        FrameDesc::Browse { .. } => panic!("edit mode must render an edit frame"),
    }
}
