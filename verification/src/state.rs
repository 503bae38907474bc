use vstd::arithmetic::div_mod::lemma_mod_self_0;
use vstd::arithmetic::div_mod::lemma_small_mod;
use vstd::prelude::*;
use vstd::string::StrSliceExecFns;

use crate::input::Key;
use crate::input::TreeCommand;
use crate::model::advanced_next;
use crate::model::advanced_prev;
use crate::model::cleared;
use crate::model::command_of;
use crate::model::initial;
use crate::model::next_index;
use crate::model::recomputed;
use crate::model::step;
use crate::model::Model;
use crate::search::is_subsequence_of;
use crate::search::lemma_match_ids_bounded;
use crate::search::lemma_subseq_match_first;
use crate::search::match_ids_up_to;
use crate::text::lower_of;
use crate::text::pop_char;
use crate::text::push_char;
use crate::text::to_lower;
use crate::tree::DependencyTree;
use crate::tree::NodeId;

verus! {

/// The slice of the tree-widget collaborator's state this core reads and
/// writes: the current selection. The expand set, viewport and visible
/// order stay with the widget and never appear here.
#[derive(Debug)]
pub struct TreeWidgetState {
    pub selected: Option<NodeId>,
}

impl Default for TreeWidgetState {
    /// A fresh widget state with nothing selected.
    fn default() -> (s: Self)
        ensures
            s.selected is None,
    {
        TreeWidgetState { selected: None }
    }
}

/// The interactive state of the terminal tree viewer: the running flag,
/// the loaded tree, the widget selection, the help overlay, and the
/// search engine's mode, query, match list and match cursor.
#[derive(Debug)]
pub struct TuiState {
    pub running: bool,
    pub dependency_tree: DependencyTree,
    pub tree_widget_state: TreeWidgetState,
    pub show_help: bool,
    pub search_active: bool,
    pub search_query: String,
    pub search_results: Vec<NodeId>,
    pub search_result_index: Option<usize>,
}

impl View for TuiState {
    type V = Model;

    open spec fn view(&self) -> Model {
        Model {
            running: self.running,
            show_help: self.show_help,
            search_active: self.search_active,
            search_query: self.search_query@,
            search_results: self.search_results@,
            search_result_index: match self.search_result_index {
                Some(i) => Some(i as int),
                None => None,
            },
            selected: self.tree_widget_state.selected,
            names: self.dependency_tree@,
        }
    }
}

impl TuiState {
    /// The state invariant: the match cursor is in range
    /// when present and every recorded match names an existing node.
    pub open spec fn wf(self) -> bool {
        self@.inv()
    }

    /// Builds the state over an already-loaded dependency tree: running,
    /// no overlay, search fully cleared, nothing selected yet.
    pub fn new(dependency_tree: DependencyTree) -> (s: Self)
        ensures
            s.wf(),
            s@ == initial(dependency_tree@),
            s.dependency_tree == dependency_tree,
    {
        let s = TuiState {
            running: true,
            dependency_tree,
            tree_widget_state: TreeWidgetState::default(),
            show_help: false,
            search_active: false,
            search_query: String::new(),
            search_results: Vec::new(),
            search_result_index: None,
        };
        proof {
            assert(s@ =~= initial(s.dependency_tree@));
        }
        s
    }

    /// Case-insensitive ordered-subsequence test: every character of
    /// `needle`, in order, appears somewhere in `haystack`, not
    /// necessarily adjacent, after both are lowercased.
    pub fn is_subsequence_match(needle: &str, haystack: &str) -> (r: bool)
        ensures
            r == is_subsequence_of(lower_of(needle@), lower_of(haystack@)),
    {
        let needle_lower = to_lower(needle);
        let haystack_lower = to_lower(haystack);
        let nlen = needle_lower.as_str().unicode_len();
        let hlen = haystack_lower.as_str().unicode_len();
        let mut qi: usize = 0;
        let mut hi: usize = 0;
        proof {
            assert(needle_lower@.skip(0) =~= needle_lower@);
            assert(haystack_lower@.skip(0) =~= haystack_lower@);
        }
        while hi < hlen
            invariant
                qi <= nlen,
                hi <= hlen,
                nlen == needle_lower@.len(),
                hlen == haystack_lower@.len(),
                needle_lower@ == lower_of(needle@),
                haystack_lower@ == lower_of(haystack@),
                is_subsequence_of(
                    needle_lower@.skip(qi as int),
                    haystack_lower@.skip(hi as int),
                ) == is_subsequence_of(needle_lower@, haystack_lower@),
            decreases hlen - hi,
        {
            let ghost nq = needle_lower@.skip(qi as int);
            let ghost nh = haystack_lower@.skip(hi as int);
            proof {
                assert(nh.drop_first() =~= haystack_lower@.skip(hi as int + 1));
            }
            if qi < nlen {
                let nc = needle_lower.as_str().get_char(qi);
                let hc = haystack_lower.as_str().get_char(hi);
                if nc == hc {
                    proof {
                        lemma_subseq_match_first(nq, nh);
                        assert(nq.drop_first() =~= needle_lower@.skip(qi as int + 1));
                    }
                    qi = qi + 1;
                }
            } else {
                proof {
                    assert(nq.len() == 0);
                }
            }
            hi = hi + 1;
        }
        proof {
            assert(haystack_lower@.skip(hlen as int) =~= Seq::<char>::empty());
            if qi < nlen {
                assert(needle_lower@.skip(qi as int).len() > 0);
            }
        }
        qi == nlen
    }

    /// Recomputes the match list for the current query over every node in
    /// storage order, resets the match cursor to the first hit, and moves
    /// the widget selection to it; an empty query empties both instead.
    pub fn perform_search(&mut self)
        requires
            old(self).wf(),
        ensures
            final(self).wf(),
            final(self)@ == recomputed(old(self)@),
            final(self).dependency_tree == old(self).dependency_tree,
    {
        let ghost m0 = self@;
        if self.search_query.as_str().is_empty() {
            self.search_results = Vec::new();
            self.search_result_index = None;
            proof {
                assert(self@ =~= recomputed(m0));
            }
            return;
        }
        let mut results: Vec<NodeId> = Vec::new();
        let n = self.dependency_tree.nodes.len();
        let mut i: usize = 0;
        while i < n
            invariant
                n == self.dependency_tree.nodes.len(),
                i <= n,
                *self == *old(self),
                results@ == match_ids_up_to(
                    self.search_query@,
                    self.dependency_tree@,
                    i as int,
                ),
            decreases n - i,
        {
            proof {
                assert(self.dependency_tree@[i as int]
                    == self.dependency_tree.nodes@[i as int].name@);
            }
            if Self::is_subsequence_match(
                self.search_query.as_str(),
                self.dependency_tree.nodes[i].name.as_str(),
            ) {
                results.push(NodeId(i));
            }
            i = i + 1;
        }
        proof {
            lemma_match_ids_bounded(self.search_query@, self.dependency_tree@, n as int);
            assert(self.dependency_tree@.len() == self.dependency_tree.nodes@.len());
        }
        self.search_results = results;
        if self.search_results.len() == 0 {
            self.search_result_index = None;
            proof {
                assert(self@ =~= recomputed(m0));
            }
        } else {
            self.search_result_index = Some(0);
            let first_match = self.search_results[0];
            self.tree_widget_state.selected = Some(first_match);
            proof {
                assert(self@ =~= recomputed(m0));
            }
        }
    }

    /// Moves the highlight to the next match, wrapping past the end, and
    /// selects that node; does nothing without matches or without a
    /// cursor.
    pub fn next_search_result(&mut self)
        requires
            old(self).wf(),
        ensures
            final(self).wf(),
            final(self)@ == advanced_next(old(self)@),
            final(self).dependency_tree == old(self).dependency_tree,
    {
        let ghost m0 = self@;
        if self.search_results.len() == 0 {
            return;
        }
        if let Some(current_index) = self.search_result_index {
            let len = self.search_results.len();
            let next_idx = (current_index + 1) % len;
            proof {
                if current_index + 1 == len {
                    lemma_mod_self_0(len as int);
                } else {
                    lemma_small_mod((current_index + 1) as nat, len as nat);
                }
                assert(next_idx as int == next_index(current_index as int, len as int));
            }
            self.search_result_index = Some(next_idx);
            let node_id = self.search_results[next_idx];
            self.tree_widget_state.selected = Some(node_id);
            proof {
                assert(self@ =~= advanced_next(m0));
            }
        }
    }

    /// Moves the highlight to the previous match, wrapping past the
    /// start, and selects that node; does nothing without matches or
    /// without a cursor.
    pub fn prev_search_result(&mut self)
        requires
            old(self).wf(),
        ensures
            final(self).wf(),
            final(self)@ == advanced_prev(old(self)@),
            final(self).dependency_tree == old(self).dependency_tree,
    {
        let ghost m0 = self@;
        if self.search_results.len() == 0 {
            return;
        }
        if let Some(current_index) = self.search_result_index {
            let prev_idx = if current_index == 0 {
                self.search_results.len() - 1
            } else {
                current_index - 1
            };
            self.search_result_index = Some(prev_idx);
            let node_id = self.search_results[prev_idx];
            self.tree_widget_state.selected = Some(node_id);
            proof {
                assert(self@ =~= advanced_prev(m0));
            }
        }
    }

    /// Resets all four search fields — mode, query, matches, cursor — to
    /// their defaults in one step; the widget selection stays where it
    /// is.
    pub fn clear_search(&mut self)
        ensures
            final(self).wf(),
            final(self)@ == cleared(old(self)@),
            final(self).dependency_tree == old(self).dependency_tree,
    {
        let ghost m0 = self@;
        self.search_active = false;
        self.search_query = String::new();
        self.search_results = Vec::new();
        self.search_result_index = None;
        proof {
            assert(self@ =~= cleared(m0));
        }
    }

    /// The single mutating entry point: interprets one key event, first
    /// dismissing the help overlay, then routing by the active mode, and
    /// returns the operation delegated to the tree widget, if any.
    /// Unrecognized keys are no-ops.
    pub fn handle_key_event(&mut self, key: Key) -> (cmd: Option<TreeCommand>)
        requires
            old(self).wf(),
        ensures
            final(self).wf(),
            final(self)@ == step(old(self)@, key),
            cmd == command_of(old(self)@, key),
            final(self).dependency_tree == old(self).dependency_tree,
    {
        let ghost m0 = self@;
        let ghost p = Model { show_help: false, ..m0 };
        if self.show_help {
            // Close the help popup on any key press
            self.show_help = false;
        }
        proof {
            assert(self@ =~= p);
        }
        // Handle search mode separately
        if self.search_active {
            match key {
                Key::Enter => {
                    // Exit search mode but keep the highlights
                    self.search_active = false;
                    proof {
                        assert(self@ =~= step(m0, key));
                    }
                    None
                },
                Key::Esc => {
                    // Cancel the search and clear everything
                    self.clear_search();
                    None
                },
                Key::Backspace => {
                    // Remove the last character from the search query
                    pop_char(&mut self.search_query);
                    proof {
                        assert(self@ =~= Model {
                            search_query: if p.search_query.len() == 0 {
                                p.search_query
                            } else {
                                p.search_query.drop_last()
                            },
                            ..p
                        });
                    }
                    self.perform_search();
                    None
                },
                Key::Char(c) => {
                    if c != '/' {
                        // Add the character to the search query
                        push_char(&mut self.search_query, c);
                        proof {
                            assert(self@ =~= Model {
                                search_query: p.search_query.push(c),
                                ..p
                            });
                        }
                        self.perform_search();
                    }
                    None
                },
                Key::Down => {
                    // Navigate to the next search result
                    self.next_search_result();
                    None
                },
                Key::Up => {
                    // Navigate to the previous search result
                    self.prev_search_result();
                    None
                },
                _ => None,
            }
        } else {
            match key {
                Key::Char(c) => {
                    if c == '/' {
                        // Start search mode; earlier matches stay visible
                        self.search_active = true;
                        self.search_query = String::new();
                        self.search_result_index = None;
                        proof {
                            assert(self@ =~= step(m0, key));
                        }
                        None
                    } else if c == 'n' {
                        // Go to the next search result
                        self.next_search_result();
                        None
                    } else if c == 'N' {
                        // Go to the previous search result
                        self.prev_search_result();
                        None
                    } else if c == 'c' {
                        // Clear the search highlights
                        self.clear_search();
                        None
                    } else if c == 'q' {
                        self.running = false;
                        proof {
                            assert(self@ =~= step(m0, key));
                        }
                        None
                    } else if c == '?' {
                        self.show_help = !self.show_help;
                        proof {
                            assert(self@ =~= step(m0, key));
                        }
                        None
                    } else if c == 'p' {
                        Some(TreeCommand::SelectParent)
                    } else if c == ']' {
                        Some(TreeCommand::SelectNextSibling)
                    } else if c == '[' {
                        Some(TreeCommand::SelectPreviousSibling)
                    } else {
                        None
                    }
                },
                Key::Down => Some(TreeCommand::SelectNext),
                Key::Up => Some(TreeCommand::SelectPrevious),
                Key::PageDown => Some(TreeCommand::PageDown),
                Key::PageUp => Some(TreeCommand::PageUp),
                Key::Right => Some(TreeCommand::Expand),
                Key::Left => Some(TreeCommand::Collapse),
                _ => None,
            }
        }
    }
}

} // verus!
