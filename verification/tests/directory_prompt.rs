use std::path::PathBuf;

use codex_rs::directory_prompt::{
    cursor_text_area, input_height_for_text, input_text_width, prompt_desired_height,
    prompt_layout, select_directory_suggestions, suggestion_candidate, suggestion_root,
    DirectoryPromptView, DirectorySuggestionState, KeyAction, PromptKey, PromptKeyCode, Rect,
    RefreshCheck, SuggestionCandidate, SuggestionRoot, DIRECTORY_SUGGESTION_DEBOUNCE_MS,
};

fn paths(names: &[&str]) -> Vec<PathBuf> {
    names.iter().map(PathBuf::from).collect()
}

fn view(items: &[&str], context: Option<&str>) -> DirectoryPromptView {
    DirectoryPromptView::new(
        "Add a working directory".to_string(),
        "Type a path".to_string(),
        context.map(str::to_string),
        PathBuf::from("/home/me"),
        paths(items),
    )
}

fn key(code: PromptKeyCode, no_modifiers: bool) -> PromptKey {
    PromptKey { code, no_modifiers }
}

#[test]
fn new_state_selects_first_item() {
    let s = DirectorySuggestionState::new(paths(&["a", "b"]));
    assert_eq!(s.selected(), Some(0));
    assert_eq!(s.pending_refresh_at(), None);
    let empty = DirectorySuggestionState::new(Vec::new());
    assert_eq!(empty.selected(), None);
}

#[test]
fn selection_wraps_both_ways() {
    let mut v = view(&["a", "b", "c"], None);
    assert!(v.move_selection(-1));
    assert_eq!(v.suggestions().selected(), Some(2));
    assert!(v.move_selection(1));
    assert_eq!(v.suggestions().selected(), Some(0));
    assert!(v.move_selection(1));
    assert!(v.move_selection(1));
    assert_eq!(v.suggestions().selected(), Some(2));
    assert!(v.move_selection(1));
    assert_eq!(v.suggestions().selected(), Some(0));
    assert!(v.move_selection(7));
    assert_eq!(v.suggestions().selected(), Some(1));
}

#[test]
fn selection_does_not_move_without_suggestions() {
    let mut v = view(&[], None);
    assert!(!v.move_selection(1));
    assert_eq!(v.suggestions().selected(), None);
}

#[test]
fn refresh_is_debounced() {
    let mut v = view(&["a"], None);
    assert_eq!(v.refresh_suggestions_if_due(1_000), RefreshCheck::Idle);
    assert_eq!(v.queue_suggestion_refresh(1_000), DIRECTORY_SUGGESTION_DEBOUNCE_MS);
    assert_eq!(v.suggestions().pending_refresh_at(), Some(1_120));
    assert_eq!(v.refresh_suggestions_if_due(1_050), RefreshCheck::NotYetDue(70));
    assert_eq!(v.refresh_suggestions_if_due(1_120), RefreshCheck::Due);
    v.apply_refreshed_suggestions(paths(&["x", "y"]));
    assert_eq!(v.suggestions().pending_refresh_at(), None);
    assert_eq!(v.suggestions().selected(), Some(0));
    assert_eq!(v.suggestions().items(), &paths(&["x", "y"]));
    assert_eq!(v.refresh_suggestions_if_due(5_000), RefreshCheck::Idle);
}

#[test]
fn enter_submits_trimmed_text() {
    let mut v = view(&[], None);
    assert_eq!(v.handle_key_event(key(PromptKeyCode::Enter, true), "  ../shared  "), KeyAction::Submit("../shared".to_string()));
    assert!(v.is_complete());
}

#[test]
fn enter_on_blank_input_does_nothing() {
    let mut v = view(&[], None);
    assert_eq!(v.handle_key_event(key(PromptKeyCode::Enter, true), " \t "), KeyAction::Ignore);
    assert!(!v.is_complete());
}

#[test]
fn keys_map_to_actions() {
    let mut v = view(&["a"], None);
    assert_eq!(v.handle_key_event(key(PromptKeyCode::Enter, false), "x"), KeyAction::ForwardToInput);
    assert_eq!(v.handle_key_event(key(PromptKeyCode::Tab, false), "x"), KeyAction::ApplySuggestion);
    assert_eq!(v.handle_key_event(key(PromptKeyCode::Tab, true), "x"), KeyAction::ApplySuggestion);
    assert_eq!(v.handle_key_event(key(PromptKeyCode::Up, true), "x"), KeyAction::MoveSelection(-1));
    assert_eq!(v.handle_key_event(key(PromptKeyCode::Down, true), "x"), KeyAction::MoveSelection(1));
    assert_eq!(v.handle_key_event(key(PromptKeyCode::Up, false), "x"), KeyAction::ForwardToInput);
    assert_eq!(v.handle_key_event(key(PromptKeyCode::Other, true), "x"), KeyAction::ForwardToInput);
    assert!(!v.is_complete());
}

#[test]
fn ctrl_c_completes() {
    let mut v = view(&[], None);
    v.on_ctrl_c();
    assert!(v.is_complete());
}

#[test]
fn paste_queues_refresh_unless_empty() {
    let mut v = view(&[], None);
    assert!(!v.handle_paste("", 10));
    assert_eq!(v.suggestions().pending_refresh_at(), None);
    assert!(v.handle_paste("/tmp", 10));
    assert_eq!(v.suggestions().pending_refresh_at(), Some(130));
}

#[test]
fn selected_suggestion_text_is_display_of_path() {
    let mut v = view(&["/home/me/a", "/home/me/b"], None);
    v.move_selection(1);
    assert_eq!(v.selected_suggestion_text().as_deref(), Some("/home/me/b"));
    assert_eq!(view(&[], None).selected_suggestion_text(), None);
    assert_eq!(v.suggestion_selection_marks(), vec![false, true]);
}

#[test]
fn accessors_return_what_was_given() {
    let v = view(&[], Some("Current: /home/me"));
    assert_eq!(v.title(), "Add a working directory");
    assert_eq!(v.placeholder(), "Type a path");
    assert_eq!(v.context_label().as_deref(), Some("Current: /home/me"));
    assert_eq!(v.cwd(), &PathBuf::from("/home/me"));
}

#[test]
fn input_height_clamps() {
    assert_eq!(input_height_for_text(0), 2);
    assert_eq!(input_height_for_text(1), 2);
    assert_eq!(input_height_for_text(3), 4);
    assert_eq!(input_height_for_text(4), 5);
    assert_eq!(input_height_for_text(9), 5);
    assert_eq!(input_text_width(1), 0);
    assert_eq!(input_text_width(80), 78);
}

#[test]
fn desired_height_counts_every_part() {
    assert_eq!(prompt_desired_height(false, 2, 0), 6);
    assert_eq!(prompt_desired_height(true, 5, 6), 16);
    let v = view(&["a", "b", "c"], Some("ctx"));
    assert_eq!(v.desired_height(2), 10);
}

#[test]
fn layout_of_a_roomy_area() {
    let area = Rect { x: 0, y: 10, width: 40, height: 20 };
    let l = prompt_layout(area, true, 2, 3).unwrap();
    assert_eq!(l.title, Rect { x: 0, y: 10, width: 40, height: 1 });
    assert_eq!(l.context, Some(Rect { x: 0, y: 11, width: 40, height: 1 }));
    assert_eq!(l.input, Rect { x: 0, y: 12, width: 40, height: 2 });
    assert_eq!(l.gutter_rows, vec![Rect { x: 0, y: 12, width: 2, height: 1 }, Rect { x: 0, y: 13, width: 2, height: 1 }]);
    assert_eq!(l.clear, Some(Rect { x: 2, y: 12, width: 38, height: 1 }));
    assert_eq!(l.text_area, Some(Rect { x: 2, y: 13, width: 38, height: 1 }));
    assert_eq!(l.suggestion_rows.iter().map(|r| r.y).collect::<Vec<_>>(), vec![14, 15, 16]);
    assert_eq!(l.hint_rows.iter().map(|r| r.y).collect::<Vec<_>>(), vec![17, 18]);
    assert_eq!(cursor_text_area(area, true, 2), l.text_area);
}

#[test]
fn layout_cuts_rows_at_the_bottom() {
    let area = Rect { x: 3, y: 0, width: 30, height: 6 };
    let l = prompt_layout(area, false, 2, 4).unwrap();
    assert_eq!(l.suggestion_rows.iter().map(|r| r.y).collect::<Vec<_>>(), vec![3, 4, 5]);
    assert!(l.hint_rows.is_empty());
    let small = Rect { x: 0, y: 0, width: 40, height: 4 };
    let l = prompt_layout(small, false, 2, 2).unwrap();
    assert_eq!(l.suggestion_rows.len(), 1);
    assert!(l.hint_rows.is_empty());
}

#[test]
fn layout_of_empty_or_narrow_areas() {
    assert!(prompt_layout(Rect { x: 0, y: 0, width: 0, height: 5 }, false, 2, 1).is_none());
    assert!(prompt_layout(Rect { x: 0, y: 0, width: 5, height: 0 }, false, 2, 1).is_none());
    let narrow = prompt_layout(Rect { x: 0, y: 0, width: 1, height: 9 }, false, 2, 0).unwrap();
    assert!(narrow.gutter_rows.is_empty());
    assert_eq!(narrow.text_area, None);
    let two = prompt_layout(Rect { x: 0, y: 0, width: 2, height: 9 }, false, 2, 0).unwrap();
    assert_eq!(two.clear, None);
    assert_eq!(two.text_area, Some(Rect { x: 2, y: 2, width: 0, height: 1 }));
    assert_eq!(cursor_text_area(Rect { x: 0, y: 0, width: 2, height: 9 }, false, 2), None);
    assert_eq!(cursor_text_area(Rect { x: 0, y: 0, width: 10, height: 1 }, false, 2), None);
}

#[test]
fn layout_saturates_near_the_last_row() {
    let area = Rect { x: 0, y: u16::MAX - 1, width: 10, height: 5 };
    let l = prompt_layout(area, true, 3, 2).unwrap();
    assert_eq!(l.input.y, u16::MAX);
    assert!(l.suggestion_rows.is_empty());
    assert!(l.hint_rows.is_empty());
}

fn candidate(path: &str) -> SuggestionCandidate {
    suggestion_candidate(PathBuf::from(path))
}

#[test]
fn suggestions_are_filtered_sorted_and_capped() {
    let candidates: Vec<SuggestionCandidate> = ["/r/docs", "/r/Downloads", "/r/desk", "/r/src", "/r/Dev", "/r/dist", "/r/data", "/r/dl"]
        .iter()
        .map(|p| candidate(p))
        .collect();
    let selected = select_directory_suggestions(candidates, "D");
    assert_eq!(selected, paths(&["/r/data", "/r/desk", "/r/Dev", "/r/dist", "/r/dl", "/r/docs"]));
}

#[test]
fn empty_prefix_keeps_everything_and_sort_is_stable() {
    let candidates = vec![
        SuggestionCandidate { path: PathBuf::from("/b"), file_name: Some("B".to_string()), display: "/b".to_string() },
        SuggestionCandidate { path: PathBuf::from("/a1"), file_name: Some("a".to_string()), display: "/a1".to_string() },
        SuggestionCandidate { path: PathBuf::from("/a2"), file_name: Some("A".to_string()), display: "/a2".to_string() },
        SuggestionCandidate { path: PathBuf::from("/"), file_name: None, display: "/".to_string() },
    ];
    assert_eq!(select_directory_suggestions(candidates, ""), paths(&["/", "/a1", "/a2", "/b"]));
}

#[test]
fn nameless_candidates_do_not_match_a_prefix() {
    let candidates = vec![SuggestionCandidate { path: PathBuf::from("/"), file_name: None, display: "/".to_string() }];
    assert!(select_directory_suggestions(candidates, "x").is_empty());
}

#[test]
fn candidate_reads_name_and_display() {
    let c = candidate("/home/me/Projects");
    assert_eq!(c.file_name.as_deref(), Some("Projects"));
    assert_eq!(c.display, "/home/me/Projects");
    assert_eq!(candidate("/").file_name, None);
}

#[test]
fn suggestion_root_by_input_shape() {
    assert_eq!(suggestion_root(""), SuggestionRoot::CurrentDir);
    assert_eq!(suggestion_root("~"), SuggestionRoot::ResolvedInput);
    assert_eq!(suggestion_root("."), SuggestionRoot::ResolvedInput);
    assert_eq!(suggestion_root(".."), SuggestionRoot::ResolvedInput);
    assert_eq!(suggestion_root("src/"), SuggestionRoot::ResolvedInput);
    assert_eq!(suggestion_root("C:\\work\\"), SuggestionRoot::ResolvedInput);
    assert_eq!(suggestion_root("src/li"), SuggestionRoot::ParentOfResolvedInput);
    assert_eq!(suggestion_root("..."), SuggestionRoot::ParentOfResolvedInput);
    assert_eq!(suggestion_root("~user"), SuggestionRoot::ParentOfResolvedInput);
}
