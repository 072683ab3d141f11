//! The events that travel over the dispatch bus.

use crate::animation::models::AnimationServiceMode;
use crate::models::{ExchangeView, QuestionResponse};
use vstd::prelude::*;

verus! {

/// An event on the dispatch bus.
#[derive(Debug, PartialEq, Eq)]
pub enum DispatchActions {
    /// The user submitted a question.
    AskQuestion(String),
    /// The worker answered a question.
    RespondToQuestion(QuestionResponse),
    /// The user edited the question field.
    QuestionTextChanged(String),
    /// The scheduler began the clip of this name.
    NewAnimationStarted(String),
    /// The scheduler made a new frame current.
    NewFrameToRender,
}

/// What an event is.
pub enum EventView {
    AskQuestion(Seq<char>),
    RespondToQuestion(ExchangeView),
    QuestionTextChanged(Seq<char>),
    NewAnimationStarted(Seq<char>),
    NewFrameToRender,
}

impl EventView {
    /// The mode that the event forces: a question makes the character
    /// active, an answer sends it back to idle, and nothing else has a say.
    pub open spec fn forced_mode(self) -> Option<AnimationServiceMode> {
        match self {
            EventView::AskQuestion(_) => Some(AnimationServiceMode::Active),
            EventView::RespondToQuestion(_) => Some(AnimationServiceMode::Idle),
            _ => None,
        }
    }
}

impl View for DispatchActions {
    type V = EventView;

    open spec fn view(&self) -> EventView {
        match self {
            DispatchActions::AskQuestion(text) => EventView::AskQuestion(text@),
            DispatchActions::RespondToQuestion(exchange) => EventView::RespondToQuestion(
                exchange@,
            ),
            DispatchActions::QuestionTextChanged(text) => EventView::QuestionTextChanged(text@),
            DispatchActions::NewAnimationStarted(name) => EventView::NewAnimationStarted(name@),
            DispatchActions::NewFrameToRender => EventView::NewFrameToRender,
        }
    }
}

impl Clone for DispatchActions {
    fn clone(&self) -> (copy: Self)
        ensures
            copy@ == self@,
    {
        match self {
            DispatchActions::AskQuestion(text) => DispatchActions::AskQuestion(text.clone()),
            DispatchActions::RespondToQuestion(exchange) => DispatchActions::RespondToQuestion(
                exchange.clone(),
            ),
            DispatchActions::QuestionTextChanged(text) => DispatchActions::QuestionTextChanged(
                text.clone(),
            ),
            DispatchActions::NewAnimationStarted(name) => DispatchActions::NewAnimationStarted(
                name.clone(),
            ),
            DispatchActions::NewFrameToRender => DispatchActions::NewFrameToRender,
        }
    }
}

impl DispatchActions {
    /// The mode that this event forces on the scheduler and the reducer.
    pub fn forced_mode(&self) -> (mode: Option<AnimationServiceMode>)
        ensures
            mode == self@.forced_mode(),
    {
        match self {
            DispatchActions::AskQuestion(_) => Some(AnimationServiceMode::Active),
            DispatchActions::RespondToQuestion(_) => Some(AnimationServiceMode::Idle),
            _ => None,
        }
    }
}

} // verus!
