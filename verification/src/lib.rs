mod input;
mod laws;
mod model;
mod search;
mod state;
mod text;
mod tree;

pub use input::Key;
pub use input::TreeCommand;
pub use laws::advanced_next_times;
pub use laws::lemma_advance_full_cycle;
pub use laws::lemma_clearing_resets_all_fields;
pub use laws::lemma_enter_search_preserves_matches;
pub use laws::lemma_recompute_empty_query;
pub use model::advanced_next;
pub use model::advanced_prev;
pub use model::cleared;
pub use model::command_of;
pub use model::initial;
pub use model::next_index;
pub use model::prev_index;
pub use model::recomputed;
pub use model::step;
pub use model::step_normal;
pub use model::step_searching;
pub use model::Model;
pub use search::is_subsequence_of;
pub use search::match_ids;
pub use search::match_ids_up_to;
pub use state::TreeWidgetState;
pub use state::TuiState;
pub use text::lower_of;
pub use tree::DependencyTree;
pub use tree::Node;
pub use tree::NodeId;
