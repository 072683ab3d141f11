//! The state a question form keeps between redraws.

use crate::models::{history_view, ExchangeView, QuestionResponse};
use vstd::prelude::*;

verus! {

/// The question being typed, whether an answer is awaited, and the
/// exchanges so far.
#[derive(Debug, PartialEq, Eq)]
pub struct GuiState {
    pub waiting: bool,
    pub current_question: String,
    pub past_question_answers: Vec<QuestionResponse>,
}

/// What the form state is.
pub struct GuiStateView {
    pub waiting: bool,
    pub current_question: Seq<char>,
    pub past_question_answers: Seq<ExchangeView>,
}

impl View for GuiState {
    type V = GuiStateView;

    open spec fn view(&self) -> GuiStateView {
        GuiStateView {
            waiting: self.waiting,
            current_question: self.current_question@,
            past_question_answers: history_view(self.past_question_answers@),
        }
    }
}

} // verus!
