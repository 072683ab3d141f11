//! Plain data shared by the worker, the reducer and the user interface.

use vstd::prelude::*;

verus! {

/// A question together with the answer it received.
#[derive(Debug, PartialEq, Eq)]
pub struct QuestionResponse {
    pub question: String,
    pub answer: String,
}

/// What an exchange is: the text of the question and of its answer.
pub struct ExchangeView {
    pub question: Seq<char>,
    pub answer: Seq<char>,
}

impl View for QuestionResponse {
    type V = ExchangeView;

    open spec fn view(&self) -> ExchangeView {
        ExchangeView { question: self.question@, answer: self.answer@ }
    }
}

impl Clone for QuestionResponse {
    fn clone(&self) -> (copy: Self)
        ensures
            copy@ == self@,
    {
        QuestionResponse { question: self.question.clone(), answer: self.answer.clone() }
    }
}

/// The exchanges of a history, each by its view.
pub open spec fn history_view(history: Seq<QuestionResponse>) -> Seq<ExchangeView> {
    history.map_values(|exchange: QuestionResponse| exchange@)
}

/// Copies a history exchange by exchange.
pub fn clone_history(history: &Vec<QuestionResponse>) -> (copy: Vec<QuestionResponse>)
    ensures
        history_view(copy@) == history_view(history@),
{
    let mut copy: Vec<QuestionResponse> = Vec::new();
    let mut i: usize = 0;
    while i < history.len()
        invariant
            i <= history.len(),
            copy.len() == i,
            forall|j: int| 0 <= j < i ==> (#[trigger] copy[j])@ == history[j]@,
        decreases history.len() - i,
    {
        copy.push(history[i].clone());
        i += 1;
    }
    assert(history_view(copy@) =~= history_view(history@));
    copy
}

/// The credentials of the hosted assistant.
#[derive(Debug, PartialEq, Eq)]
pub struct AppConfig {
    pub open_ai_api_key: String,
    pub assistant_id: String,
}

/// What the credentials are: the text of the key and of the identifier.
pub struct AppConfigView {
    pub open_ai_api_key: Seq<char>,
    pub assistant_id: Seq<char>,
}

impl View for AppConfig {
    type V = AppConfigView;

    open spec fn view(&self) -> AppConfigView {
        AppConfigView { open_ai_api_key: self.open_ai_api_key@, assistant_id: self.assistant_id@ }
    }
}

impl Clone for AppConfig {
    fn clone(&self) -> (copy: Self)
        ensures
            copy@ == self@,
    {
        AppConfig {
            open_ai_api_key: self.open_ai_api_key.clone(),
            assistant_id: self.assistant_id.clone(),
        }
    }
}

impl Default for AppConfig {
    fn default() -> (config: Self)
        ensures
            config@.open_ai_api_key.len() == 0,
            config@.assistant_id.len() == 0,
    {
        AppConfig { open_ai_api_key: String::new(), assistant_id: String::new() }
    }
}

} // verus!
