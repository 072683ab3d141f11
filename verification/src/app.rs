//! The snapshot that the user interface reads, and how events change it.

use crate::actions::{DispatchActions, EventView};
use crate::animation::models::AnimationServiceMode;
use crate::models::{clone_history, history_view, ExchangeView, QuestionResponse};
use vstd::prelude::*;

verus! {

/// What the user interface shows: the question being typed, the mode of the
/// character, the exchanges so far and the name of the clip that plays.
#[derive(Debug, PartialEq, Eq)]
pub struct ClippitGptAppShared {
    pub question_field: String,
    pub mode: AnimationServiceMode,
    pub answers: Vec<QuestionResponse>,
    pub current_animation: String,
}

/// What a snapshot is.
pub struct SnapshotView {
    pub question_field: Seq<char>,
    pub mode: AnimationServiceMode,
    pub answers: Seq<ExchangeView>,
    pub current_animation: Seq<char>,
}

impl SnapshotView {
    /// The snapshot at startup: nothing typed, nothing asked, nothing played.
    pub open spec fn initial() -> SnapshotView {
        SnapshotView {
            question_field: Seq::empty(),
            mode: AnimationServiceMode::Idle,
            answers: Seq::empty(),
            current_animation: Seq::empty(),
        }
    }

    /// The snapshot after one event.
    ///
    /// A question clears the question field and makes the character active.
    /// An answer sends it back to idle and joins the history. An edit
    /// replaces the question field, a clip start replaces the clip name, and
    /// a new frame changes nothing.
    pub open spec fn reduce(self, event: EventView) -> SnapshotView {
        match event {
            EventView::AskQuestion(_) => SnapshotView {
                question_field: Seq::empty(),
                mode: AnimationServiceMode::Active,
                ..self
            },
            EventView::RespondToQuestion(exchange) => SnapshotView {
                mode: AnimationServiceMode::Idle,
                answers: self.answers.push(exchange),
                ..self
            },
            EventView::QuestionTextChanged(text) => SnapshotView { question_field: text, ..self },
            EventView::NewAnimationStarted(name) => SnapshotView {
                current_animation: name,
                ..self
            },
            EventView::NewFrameToRender => self,
        }
    }

    /// The snapshot after a run of events, taken one at a time in order.
    pub open spec fn reduce_all(self, events: Seq<EventView>) -> SnapshotView
        decreases events.len(),
    {
        if events.len() == 0 {
            self
        } else {
            self.reduce_all(events.drop_last()).reduce(events.last())
        }
    }

    /// Whether the question form takes input: only while the character idles.
    pub open spec fn accepts_input(self) -> bool {
        self.mode == AnimationServiceMode::Idle
    }

    /// The line that tells the user what the character does.
    pub open spec fn status_label(self) -> Seq<char> {
        match self.mode {
            AnimationServiceMode::Idle => "Clippy Idle"@,
            AnimationServiceMode::Active => "Clippy Active"@,
        }
    }

    /// The events that the question form publishes after one redraw, in
    /// order: the question if it was submitted with the enter key, the edit
    /// if the text changed, and the question if it was submitted with the
    /// button. All of them carry the text of the question field.
    pub open spec fn form_events(self, entered: bool, changed: bool, clicked: bool) -> Seq<
        EventView,
    > {
        let on_enter = if entered {
            seq![EventView::AskQuestion(self.question_field)]
        } else {
            Seq::empty()
        };
        let on_change = if changed {
            seq![EventView::QuestionTextChanged(self.question_field)]
        } else {
            Seq::empty()
        };
        let on_click = if clicked {
            seq![EventView::AskQuestion(self.question_field)]
        } else {
            Seq::empty()
        };
        on_enter + on_change + on_click
    }
}

/// The exchanges that a run of events adds to the history: those of its
/// answers, in order.
pub open spec fn answers_of(events: Seq<EventView>) -> Seq<ExchangeView>
    decreases events.len(),
{
    if events.len() == 0 {
        Seq::empty()
    } else {
        match events.last() {
            EventView::RespondToQuestion(exchange) => answers_of(events.drop_last()).push(
                exchange,
            ),
            _ => answers_of(events.drop_last()),
        }
    }
}

/// The events of a list, each by its view.
pub open spec fn events_view(events: Seq<DispatchActions>) -> Seq<EventView> {
    events.map_values(|event: DispatchActions| event@)
}

impl View for ClippitGptAppShared {
    type V = SnapshotView;

    open spec fn view(&self) -> SnapshotView {
        SnapshotView {
            question_field: self.question_field@,
            mode: self.mode,
            answers: history_view(self.answers@),
            current_animation: self.current_animation@,
        }
    }
}

impl Clone for ClippitGptAppShared {
    fn clone(&self) -> (copy: Self)
        ensures
            copy@ == self@,
    {
        ClippitGptAppShared {
            question_field: self.question_field.clone(),
            mode: self.mode,
            answers: clone_history(&self.answers),
            current_animation: self.current_animation.clone(),
        }
    }
}

impl ClippitGptAppShared {
    /// The snapshot at startup.
    pub fn new() -> (snapshot: Self)
        ensures
            snapshot@ == SnapshotView::initial(),
    {
        let snapshot = ClippitGptAppShared {
            question_field: String::new(),
            mode: AnimationServiceMode::Idle,
            answers: Vec::new(),
            current_animation: String::new(),
        };
        assert(snapshot@.answers =~= Seq::empty());
        snapshot
    }

    /// Folds one event into the snapshot.
    pub fn apply(&mut self, event: DispatchActions)
        ensures
            final(self)@ == old(self)@.reduce(event@),
    {
        match event {
            DispatchActions::AskQuestion(_) => {
                self.question_field = String::new();
                self.mode = AnimationServiceMode::Active;
            },
            DispatchActions::RespondToQuestion(exchange) => {
                self.mode = AnimationServiceMode::Idle;
                self.answers.push(exchange);
                assert(history_view(self.answers@) =~= history_view(old(self).answers@).push(
                    exchange@,
                ));
            },
            DispatchActions::QuestionTextChanged(text) => {
                self.question_field = text;
            },
            DispatchActions::NewAnimationStarted(name) => {
                self.current_animation = name;
            },
            DispatchActions::NewFrameToRender => {},
        }
    }

    /// Whether the question form takes input.
    pub fn accepts_input(&self) -> (open: bool)
        ensures
            open == self@.accepts_input(),
    {
        match self.mode {
            AnimationServiceMode::Idle => true,
            AnimationServiceMode::Active => false,
        }
    }

    /// The line that tells the user what the character does.
    pub fn status_label(&self) -> (label: &'static str)
        ensures
            label@ == self@.status_label(),
    {
        match self.mode {
            AnimationServiceMode::Idle => "Clippy Idle",
            AnimationServiceMode::Active => "Clippy Active",
        }
    }

    /// The events that the question form publishes after one redraw.
    pub fn form_events(&self, entered: bool, changed: bool, clicked: bool) -> (events: Vec<
        DispatchActions,
    >)
        ensures
            events_view(events@) == self@.form_events(entered, changed, clicked),
    {
        let mut events: Vec<DispatchActions> = Vec::new();
        if entered {
            events.push(DispatchActions::AskQuestion(self.question_field.clone()));
        }
        if changed {
            events.push(DispatchActions::QuestionTextChanged(self.question_field.clone()));
        }
        if clicked {
            events.push(DispatchActions::AskQuestion(self.question_field.clone()));
        }
        assert(events_view(events@) =~= self@.form_events(entered, changed, clicked));
        events
    }

    /// The exchanges so far, the newest first, as the history is shown.
    pub fn newest_first(&self) -> (history: Vec<QuestionResponse>)
        ensures
            history_view(history@) == self@.answers.reverse(),
    {
        let mut history: Vec<QuestionResponse> = Vec::new();
        let mut left: usize = self.answers.len();
        while left > 0
            invariant
                left <= self.answers.len(),
                history.len() == self.answers.len() - left,
                forall|j: int|
                    0 <= j < history.len() ==> (#[trigger] history[j])@ == self.answers[
                        self.answers.len() - 1 - j
                    ]@,
            decreases left,
        {
            left -= 1;
            history.push(self.answers[left].clone());
        }
        assert(history_view(history@) =~= self@.answers.reverse());
        history
    }
}

/// The mode after a run of events is the one forced by the last question or
/// answer among them, whatever else was seen before, between or after, and
/// whichever events were lost on the way.
pub proof fn lemma_mode_follows_last_forcing_event(
    start: SnapshotView,
    events: Seq<EventView>,
    last: int,
)
    requires
        0 <= last < events.len(),
        events[last].forced_mode() is Some,
        forall|later: int| last < later < events.len() ==> events[later].forced_mode() is None,
    ensures
        start.reduce_all(events).mode == events[last].forced_mode().unwrap(),
        start.reduce_all(events).mode == AnimationServiceMode::Active
            <==> events[last] is AskQuestion,
    decreases events.len(),
{
    if last < events.len() - 1 {
        let before = events.drop_last();
        assert(events.last().forced_mode() is None);
        assert(before[last] == events[last]);
        lemma_mode_follows_last_forcing_event(start, before, last);
    }
}

/// A run of events without a question or an answer leaves the mode as it was.
pub proof fn lemma_mode_kept_without_forcing_event(start: SnapshotView, events: Seq<EventView>)
    requires
        forall|at: int| 0 <= at < events.len() ==> events[at].forced_mode() is None,
    ensures
        start.reduce_all(events).mode == start.mode,
    decreases events.len(),
{
    if events.len() > 0 {
        let before = events.drop_last();
        assert(events.last().forced_mode() is None);
        assert forall|at: int| 0 <= at < before.len() implies before[at].forced_mode() is None by {
            assert(before[at] == events[at]);
        }
        lemma_mode_kept_without_forcing_event(start, before);
    }
}

/// The history only grows: after a run of events it is what it was,
/// followed by the exchanges of the answers among them, in order.
pub proof fn lemma_history_collects_answers(start: SnapshotView, events: Seq<EventView>)
    ensures
        start.reduce_all(events).answers == start.answers + answers_of(events),
    decreases events.len(),
{
    if events.len() > 0 {
        lemma_history_collects_answers(start, events.drop_last());
    }
    assert(start.reduce_all(events).answers =~= start.answers + answers_of(events));
}

/// After a run of questions and answers the character is active exactly
/// when the last of them was a question.
pub proof fn lemma_active_iff_last_was_question(start: SnapshotView, events: Seq<EventView>)
    requires
        events.len() > 0,
        forall|at: int|
            0 <= at < events.len() ==> events[at] is AskQuestion
                || events[at] is RespondToQuestion,
    ensures
        start.reduce_all(events).mode == AnimationServiceMode::Active
            <==> events.last() is AskQuestion,
{
    lemma_mode_follows_last_forcing_event(start, events, events.len() - 1);
}

} // verus!
