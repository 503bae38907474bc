use tree_tui::DependencyTree;
use tree_tui::Key;
use tree_tui::Node;
use tree_tui::NodeId;
use tree_tui::TreeCommand;
use tree_tui::TuiState;

fn tree_of(names: &[&str]) -> DependencyTree {
    let mut nodes = Vec::new();
    for n in names {
        nodes.push(Node { name: (*n).to_string() });
    }
    DependencyTree { nodes }
}

fn state_of(names: &[&str]) -> TuiState {
    TuiState::new(tree_of(names))
}

fn searched(names: &[&str], query: &str) -> TuiState {
    let mut s = state_of(names);
    s.handle_key_event(Key::Char('/'));
    for c in query.chars() {
        s.handle_key_event(Key::Char(c));
    }
    s
}

#[test]
fn new_starts_running_with_everything_cleared() {
    let s = state_of(&["serde", "tokio"]);
    assert!(s.running);
    assert!(!s.show_help);
    assert!(!s.search_active);
    assert_eq!(s.search_query, "");
    assert!(s.search_results.is_empty());
    assert_eq!(s.search_result_index, None);
    assert_eq!(s.tree_widget_state.selected, None);
    assert_eq!(s.dependency_tree.nodes.len(), 2);
}

#[test]
fn quit_only_works_in_normal_mode() {
    let mut s = state_of(&["serde"]);
    s.handle_key_event(Key::Char('q'));
    assert!(!s.running);

    let mut t = searched(&["serde"], "");
    t.handle_key_event(Key::Char('q'));
    assert!(t.running);
    assert_eq!(t.search_query, "q");
}

#[test]
fn clear_key_resets_all_four_search_fields_at_once() {
    let mut s = searched(&["serde", "serde_json"], "se");
    s.handle_key_event(Key::Enter);
    assert!(!s.search_results.is_empty());
    s.handle_key_event(Key::Char('c'));
    assert!(!s.search_active);
    assert_eq!(s.search_query, "");
    assert!(s.search_results.is_empty());
    assert_eq!(s.search_result_index, None);
    // the widget selection is deliberately kept
    assert_eq!(s.tree_widget_state.selected, Some(NodeId(0)));
}

#[test]
fn escape_while_searching_resets_all_four_search_fields() {
    let mut s = searched(&["serde", "serde_json"], "se");
    s.handle_key_event(Key::Esc);
    assert!(!s.search_active);
    assert_eq!(s.search_query, "");
    assert!(s.search_results.is_empty());
    assert_eq!(s.search_result_index, None);
    assert_eq!(s.tree_widget_state.selected, Some(NodeId(0)));
}

#[test]
fn enter_leaves_search_mode_but_keeps_highlights() {
    let mut s = searched(&["serde", "serde_json"], "se");
    s.handle_key_event(Key::Enter);
    assert!(!s.search_active);
    assert_eq!(s.search_results, vec![NodeId(0), NodeId(1)]);
    assert_eq!(s.search_result_index, Some(0));
}

#[test]
fn entering_search_mode_preserves_matches_but_resets_query_and_cursor() {
    let mut s = searched(&["serde", "serde_json"], "se");
    s.handle_key_event(Key::Enter);
    s.handle_key_event(Key::Char('/'));
    assert!(s.search_active);
    assert_eq!(s.search_query, "");
    assert_eq!(s.search_result_index, None);
    assert_eq!(s.search_results, vec![NodeId(0), NodeId(1)]);
}

#[test]
fn help_toggle_while_open_nets_no_change() {
    let mut s = state_of(&["serde"]);
    s.handle_key_event(Key::Char('?'));
    assert!(s.show_help);
    // dismiss-then-dispatch: the toggle key closes and re-opens the overlay
    s.handle_key_event(Key::Char('?'));
    assert!(s.show_help);
}

#[test]
fn any_other_key_dismisses_help() {
    let mut s = state_of(&["serde"]);
    s.handle_key_event(Key::Char('?'));
    assert!(s.show_help);
    s.handle_key_event(Key::Down);
    assert!(!s.show_help);
}

#[test]
fn normal_mode_navigation_keys_delegate_to_the_widget() {
    let mut s = state_of(&["serde"]);
    assert_eq!(s.handle_key_event(Key::Down), Some(TreeCommand::SelectNext));
    assert_eq!(s.handle_key_event(Key::Up), Some(TreeCommand::SelectPrevious));
    assert_eq!(s.handle_key_event(Key::Char('p')), Some(TreeCommand::SelectParent));
    assert_eq!(s.handle_key_event(Key::Char(']')), Some(TreeCommand::SelectNextSibling));
    assert_eq!(s.handle_key_event(Key::Char('[')), Some(TreeCommand::SelectPreviousSibling));
    assert_eq!(s.handle_key_event(Key::PageDown), Some(TreeCommand::PageDown));
    assert_eq!(s.handle_key_event(Key::PageUp), Some(TreeCommand::PageUp));
    assert_eq!(s.handle_key_event(Key::Right), Some(TreeCommand::Expand));
    assert_eq!(s.handle_key_event(Key::Left), Some(TreeCommand::Collapse));
    assert!(s.running);
}

#[test]
fn searching_mode_never_delegates_to_the_widget() {
    let mut s = searched(&["serde"], "s");
    assert_eq!(s.handle_key_event(Key::Down), None);
    assert_eq!(s.handle_key_event(Key::Up), None);
    assert_eq!(s.handle_key_event(Key::Char('x')), None);
}

#[test]
fn unrecognized_keys_are_ignored() {
    let mut s = state_of(&["serde"]);
    let cmd = s.handle_key_event(Key::Other);
    assert_eq!(cmd, None);
    assert!(s.running);
    assert!(!s.show_help);
    assert!(!s.search_active);
    assert_eq!(s.search_query, "");
    assert!(s.search_results.is_empty());
    assert_eq!(s.search_result_index, None);
}

#[test]
fn slash_while_searching_is_not_appended() {
    let mut s = searched(&["serde"], "s");
    s.handle_key_event(Key::Char('/'));
    assert!(s.search_active);
    assert_eq!(s.search_query, "s");
}

#[test]
fn backspace_recomputes_the_matches() {
    let mut s = searched(&["serde", "serde_json", "tokio"], "sej");
    assert_eq!(s.search_results, vec![NodeId(1)]);
    s.handle_key_event(Key::Backspace);
    assert_eq!(s.search_query, "se");
    assert_eq!(s.search_results, vec![NodeId(0), NodeId(1)]);
    assert_eq!(s.search_result_index, Some(0));
}

#[test]
fn backspace_on_an_empty_query_stays_empty() {
    let mut s = searched(&["serde"], "");
    s.handle_key_event(Key::Backspace);
    assert!(s.search_active);
    assert_eq!(s.search_query, "");
    assert!(s.search_results.is_empty());
    assert_eq!(s.search_result_index, None);
}
