use vstd::prelude::*;

use crate::input::Key;
use crate::input::TreeCommand;
use crate::search::match_ids;
use crate::tree::NodeId;

verus! {

/// The abstract value of the interactive state: everything the control
/// logic owns, over mathematical types, together with the node names of
/// the tree and the widget's current selection — the one widget field
/// this core reads and writes.
#[verifier::ext_equal]
pub struct Model {
    pub running: bool,
    pub show_help: bool,
    pub search_active: bool,
    pub search_query: Seq<char>,
    pub search_results: Seq<NodeId>,
    pub search_result_index: Option<int>,
    pub selected: Option<NodeId>,
    pub names: Seq<Seq<char>>,
}

impl Model {
    /// The state invariant: the match cursor is in range whenever it is
    /// present, and every recorded match identifies an existing node.
    pub open spec fn inv(self) -> bool {
        &&& (self.search_result_index matches Some(i) ==> 0 <= i
            < self.search_results.len())
        &&& (forall|j: int|
            0 <= j < self.search_results.len()
                ==> (#[trigger] self.search_results[j]).0 < self.names.len())
    }
}

/// The state right after construction: running, nothing visible or
/// active, no query, no matches, no selection.
pub open spec fn initial(names: Seq<Seq<char>>) -> Model {
    Model {
        running: true,
        show_help: false,
        search_active: false,
        search_query: Seq::empty(),
        search_results: Seq::empty(),
        search_result_index: None,
        selected: None,
        names,
    }
}

/// The search-cleared state: all four search fields at their defaults at
/// once; the selection and everything else stay as they were.
pub open spec fn cleared(m: Model) -> Model {
    Model {
        search_active: false,
        search_query: Seq::empty(),
        search_results: Seq::empty(),
        search_result_index: None,
        ..m
    }
}

/// Matches recomputed for the current query: an empty query empties the
/// match list and cursor; otherwise every node whose lowered name holds
/// the lowered query as a subsequence is kept in storage order, the
/// cursor moves to the first match, and the selection follows it (or
/// stays put when nothing matches).
pub open spec fn recomputed(m: Model) -> Model {
    if m.search_query.len() == 0 {
        Model { search_results: Seq::empty(), search_result_index: None, ..m }
    } else {
        let ids = match_ids(m.search_query, m.names);
        Model {
            search_results: ids,
            search_result_index: if ids.len() == 0 {
                None
            } else {
                Some(0int)
            },
            selected: if ids.len() == 0 {
                m.selected
            } else {
                Some(ids[0])
            },
            ..m
        }
    }
}

/// One cyclic step of the match cursor, wrapping at the end.
pub open spec fn next_index(i: int, len: int) -> int {
    if i + 1 == len {
        0
    } else {
        i + 1
    }
}

/// One cyclic step backwards, wrapping at the start.
pub open spec fn prev_index(i: int, len: int) -> int {
    if i == 0 {
        len - 1
    } else {
        i - 1
    }
}

/// The match cursor advanced one step forward, the selection following
/// it; a no-op when there are no matches or no cursor.
pub open spec fn advanced_next(m: Model) -> Model {
    if m.search_results.len() == 0 {
        m
    } else {
        match m.search_result_index {
            Some(i) => {
                let j = next_index(i, m.search_results.len() as int);
                Model {
                    search_result_index: Some(j),
                    selected: Some(m.search_results[j]),
                    ..m
                }
            },
            None => m,
        }
    }
}

/// The match cursor moved one step back, the selection following it; a
/// no-op when there are no matches or no cursor.
pub open spec fn advanced_prev(m: Model) -> Model {
    if m.search_results.len() == 0 {
        m
    } else {
        match m.search_result_index {
            Some(i) => {
                let j = prev_index(i, m.search_results.len() as int);
                Model {
                    search_result_index: Some(j),
                    selected: Some(m.search_results[j]),
                    ..m
                }
            },
            None => m,
        }
    }
}

/// Key interpretation while text entry is engaged: Enter keeps the
/// highlights and leaves the mode, Escape clears everything, editing
/// keys rewrite the query and recompute, arrows cycle the matches, and
/// `/` or any unmapped key does nothing.
pub open spec fn step_searching(p: Model, key: Key) -> Model {
    match key {
        Key::Enter => Model { search_active: false, ..p },
        Key::Esc => cleared(p),
        Key::Backspace => recomputed(
            Model {
                search_query: if p.search_query.len() == 0 {
                    p.search_query
                } else {
                    p.search_query.drop_last()
                },
                ..p
            },
        ),
        Key::Char(c) => if c != '/' {
            recomputed(Model { search_query: p.search_query.push(c), ..p })
        } else {
            p
        },
        Key::Down => advanced_next(p),
        Key::Up => advanced_prev(p),
        _ => p,
    }
}

/// Key interpretation in normal mode for the keys that change this
/// core's own state; navigation keys leave it unchanged and only emit a
/// widget command (see `command_of`). Entering search resets the query
/// and the cursor but deliberately keeps the previous matches.
pub open spec fn step_normal(p: Model, key: Key) -> Model {
    match key {
        Key::Char(c) => {
            if c == '/' {
                Model {
                    search_active: true,
                    search_query: Seq::empty(),
                    search_result_index: None,
                    ..p
                }
            } else if c == 'n' {
                advanced_next(p)
            } else if c == 'N' {
                advanced_prev(p)
            } else if c == 'c' {
                cleared(p)
            } else if c == 'q' {
                Model { running: false, ..p }
            } else if c == '?' {
                Model { show_help: !p.show_help, ..p }
            } else {
                p
            }
        },
        _ => p,
    }
}

/// The full transition of one key event: any key first dismisses the
/// help overlay, then is interpreted by the mode that was active. The
/// help-toggle key therefore re-opens the overlay it just dismissed,
/// netting no visible change while help is open.
pub open spec fn step(m: Model, key: Key) -> Model {
    let p = Model { show_help: false, ..m };
    if m.search_active {
        step_searching(p, key)
    } else {
        step_normal(p, key)
    }
}

/// The widget operation a key delegates, if any: only normal-mode
/// navigation keys reach the tree-widget collaborator.
pub open spec fn command_of(m: Model, key: Key) -> Option<TreeCommand> {
    if m.search_active {
        None
    } else {
        match key {
            Key::Char(c) => {
                if c == 'p' {
                    Some(TreeCommand::SelectParent)
                } else if c == ']' {
                    Some(TreeCommand::SelectNextSibling)
                } else if c == '[' {
                    Some(TreeCommand::SelectPreviousSibling)
                } else {
                    None
                }
            },
            Key::Down => Some(TreeCommand::SelectNext),
            Key::Up => Some(TreeCommand::SelectPrevious),
            Key::PageDown => Some(TreeCommand::PageDown),
            Key::PageUp => Some(TreeCommand::PageUp),
            Key::Right => Some(TreeCommand::Expand),
            Key::Left => Some(TreeCommand::Collapse),
            _ => None,
        }
    }
}

} // verus!
