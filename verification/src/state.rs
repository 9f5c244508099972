//! The renderer's mutable state: accumulators, style flags and list nesting,
//! created fresh for each rendering pass.

use vstd::prelude::*;

verus! {

/// All state one rendering pass owns and mutates.
///
/// The two accumulators are never written by the same event: text routes to
/// `code_accumulator` exactly while a code block is open.
#[derive(Debug, Clone, PartialEq, Eq)]
pub struct RenderState {
    /// Plain text of the innermost open text-bearing block.
    pub text_accumulator: String,
    /// Text collected while inside a code block.
    pub code_accumulator: String,
    pub emphasis_active: bool,
    pub strong_active: bool,
    pub strikethrough_active: bool,
    /// Whether a code block is currently open.
    pub code_block_open: bool,
    /// List nesting depth: one per open `List` block.
    pub list_depth: usize,
    /// Whether any list is open; suppresses extra paragraph spacing.
    pub inside_list: bool,
    /// Language tag captured at code-block start.
    pub current_code_language: Option<String>,
}

/// Model of a `RenderState`.
pub struct StateModel {
    pub text_accumulator: Seq<char>,
    pub code_accumulator: Seq<char>,
    pub emphasis_active: bool,
    pub strong_active: bool,
    pub strikethrough_active: bool,
    pub code_block_open: bool,
    pub list_depth: int,
    pub inside_list: bool,
    pub current_code_language: Option<Seq<char>>,
}

impl View for RenderState {
    type V = StateModel;

    open spec fn view(&self) -> StateModel {
        StateModel {
            text_accumulator: self.text_accumulator.view(),
            code_accumulator: self.code_accumulator.view(),
            emphasis_active: self.emphasis_active,
            strong_active: self.strong_active,
            strikethrough_active: self.strikethrough_active,
            code_block_open: self.code_block_open,
            list_depth: self.list_depth as int,
            inside_list: self.inside_list,
            current_code_language: self.current_code_language.deep_view(),
        }
    }
}

/// The state every pass starts from: empty accumulators, no flags set,
/// no open list or code block.
pub open spec fn initial_state() -> StateModel {
    StateModel {
        text_accumulator: Seq::empty(),
        code_accumulator: Seq::empty(),
        emphasis_active: false,
        strong_active: false,
        strikethrough_active: false,
        code_block_open: false,
        list_depth: 0,
        inside_list: false,
        current_code_language: None,
    }
}

impl RenderState {
    /// Fresh state for a new rendering pass.
    pub fn new() -> (state: Self)
        ensures
            state.view() == initial_state(),
    {
        RenderState {
            text_accumulator: String::new(),
            code_accumulator: String::new(),
            emphasis_active: false,
            strong_active: false,
            strikethrough_active: false,
            code_block_open: false,
            list_depth: 0,
            inside_list: false,
            current_code_language: None,
        }
    }
}

} // verus!
