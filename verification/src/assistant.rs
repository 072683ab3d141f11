//! The worker that answers questions through a hosted assistant.
//!
//! The worker talks to the assistant in requests that may fail and that it
//! repeats until they succeed: it looks the assistant up, opens a thread,
//! and then, for every question on the bus, posts the question, starts a
//! run, polls the run until it is completed, fetches the newest message and
//! publishes its text as the answer.
//!
//! The requests themselves are made by the program that embeds the library.
//! This module decides: [`AssistantService::request`] says which request is
//! due, and [`AssistantService::advance`] takes its outcome, publishes the
//! answer when there is one, and says how long to pause before the next
//! request.

use crate::actions::{DispatchActions, EventView};
use crate::bus::{publish, subscribe, Received, ReceivedView};
use crate::models::{ExchangeView, QuestionResponse};
use vstd::prelude::*;

verus! {

/// The pause, in seconds, before a failed request is repeated.
pub const RETRY_PAUSE_SECS: u64 = 3;

/// The pause, in seconds, between two looks at a run.
pub const POLL_PAUSE_SECS: u64 = 1;

/// Why the worker gave up.
#[derive(Clone, Copy, Debug, PartialEq, Eq, Structural)]
pub enum Fault {
    /// The bus is closed: no question can arrive any more.
    BusClosed,
    /// The thread held no message after a completed run.
    NoMessage,
    /// The newest message had no content.
    NoContent,
    /// The newest message began with an image, not with text.
    ImageAnswer,
}

/// Where the worker stands.
#[derive(Debug, PartialEq, Eq)]
pub enum Phase {
    /// Looking the assistant up.
    FindingAssistant,
    /// Opening the thread that the conversation runs in.
    OpeningThread { assistant: String },
    /// Waiting for a question on the bus.
    Listening { assistant: String, thread: String },
    /// Posting the question to the thread.
    PostingQuestion { assistant: String, thread: String, question: String },
    /// Starting a run of the assistant on the thread.
    StartingRun { assistant: String, thread: String, question: String },
    /// Polling the run until it is completed.
    AwaitingRun { assistant: String, thread: String, question: String, run: String },
    /// Fetching the newest message of the thread.
    FetchingAnswer { assistant: String, thread: String, question: String },
    /// The worker gave up.
    Stopped(Fault),
}

/// What a phase is.
pub enum PhaseView {
    FindingAssistant,
    OpeningThread { assistant: Seq<char> },
    Listening { assistant: Seq<char>, thread: Seq<char> },
    PostingQuestion { assistant: Seq<char>, thread: Seq<char>, question: Seq<char> },
    StartingRun { assistant: Seq<char>, thread: Seq<char>, question: Seq<char> },
    AwaitingRun { assistant: Seq<char>, thread: Seq<char>, question: Seq<char>, run: Seq<char> },
    FetchingAnswer { assistant: Seq<char>, thread: Seq<char>, question: Seq<char> },
    Stopped(Fault),
}

impl View for Phase {
    type V = PhaseView;

    open spec fn view(&self) -> PhaseView {
        match self {
            Phase::FindingAssistant => PhaseView::FindingAssistant,
            Phase::OpeningThread { assistant } => PhaseView::OpeningThread {
                assistant: assistant@,
            },
            Phase::Listening { assistant, thread } => PhaseView::Listening {
                assistant: assistant@,
                thread: thread@,
            },
            Phase::PostingQuestion { assistant, thread, question } => PhaseView::PostingQuestion {
                assistant: assistant@,
                thread: thread@,
                question: question@,
            },
            Phase::StartingRun { assistant, thread, question } => PhaseView::StartingRun {
                assistant: assistant@,
                thread: thread@,
                question: question@,
            },
            Phase::AwaitingRun { assistant, thread, question, run } => PhaseView::AwaitingRun {
                assistant: assistant@,
                thread: thread@,
                question: question@,
                run: run@,
            },
            Phase::FetchingAnswer { assistant, thread, question } => PhaseView::FetchingAnswer {
                assistant: assistant@,
                thread: thread@,
                question: question@,
            },
            Phase::Stopped(fault) => PhaseView::Stopped(*fault),
        }
    }
}

/// The outside work that is due.
#[derive(Debug, PartialEq, Eq)]
pub enum Request {
    /// Look up the assistant of this identifier.
    RetrieveAssistant { assistant_id: String },
    /// Open a thread without messages.
    CreateThread,
    /// Wait for the next delivery of the bus.
    Receive,
    /// Post `question` to the thread as a message of the user.
    CreateMessage { thread: String, question: String },
    /// Start a run of the assistant on the thread.
    CreateRun { thread: String, assistant: String },
    /// Look at the run.
    RetrieveRun { thread: String, run: String },
    /// List the newest message of the thread.
    ListMessages { thread: String },
    /// Nothing: the worker gave up.
    Halt(Fault),
}

/// What a request is.
pub enum RequestView {
    RetrieveAssistant { assistant_id: Seq<char> },
    CreateThread,
    Receive,
    CreateMessage { thread: Seq<char>, question: Seq<char> },
    CreateRun { thread: Seq<char>, assistant: Seq<char> },
    RetrieveRun { thread: Seq<char>, run: Seq<char> },
    ListMessages { thread: Seq<char> },
    Halt(Fault),
}

impl View for Request {
    type V = RequestView;

    open spec fn view(&self) -> RequestView {
        match self {
            Request::RetrieveAssistant { assistant_id } => RequestView::RetrieveAssistant {
                assistant_id: assistant_id@,
            },
            Request::CreateThread => RequestView::CreateThread,
            Request::Receive => RequestView::Receive,
            Request::CreateMessage { thread, question } => RequestView::CreateMessage {
                thread: thread@,
                question: question@,
            },
            Request::CreateRun { thread, assistant } => RequestView::CreateRun {
                thread: thread@,
                assistant: assistant@,
            },
            Request::RetrieveRun { thread, run } => RequestView::RetrieveRun {
                thread: thread@,
                run: run@,
            },
            Request::ListMessages { thread } => RequestView::ListMessages { thread: thread@ },
            Request::Halt(fault) => RequestView::Halt(*fault),
        }
    }
}

/// The newest message of the thread, as far as the worker reads it.
#[derive(Debug, PartialEq, Eq)]
pub enum Listing {
    /// The first content of the message is this text.
    Text(String),
    /// The first content of the message is an image.
    Image,
    /// The message has no content.
    NoContent,
    /// The thread has no message.
    NoMessage,
}

/// What a listing is.
pub enum ListingView {
    Text(Seq<char>),
    Image,
    NoContent,
    NoMessage,
}

impl View for Listing {
    type V = ListingView;

    open spec fn view(&self) -> ListingView {
        match self {
            Listing::Text(text) => ListingView::Text(text@),
            Listing::Image => ListingView::Image,
            Listing::NoContent => ListingView::NoContent,
            Listing::NoMessage => ListingView::NoMessage,
        }
    }
}

/// What came of a request. `None` stands for a request that failed.
#[derive(Debug, PartialEq, Eq)]
pub enum Outcome {
    /// The identifier of the assistant that was looked up.
    Assistant(Option<String>),
    /// The identifier of the thread that was opened.
    Thread(Option<String>),
    /// What the bus delivered.
    Delivery(Received),
    /// Whether the question was posted.
    Message(bool),
    /// The identifier of the run that was started.
    Run(Option<String>),
    /// The identifier of the run that was looked at, and whether it is
    /// completed.
    RunStatus(Option<(String, bool)>),
    /// The newest message of the thread.
    Messages(Option<Listing>),
}

/// What an outcome is.
pub enum OutcomeView {
    Assistant(Option<Seq<char>>),
    Thread(Option<Seq<char>>),
    Delivery(ReceivedView),
    Message(bool),
    Run(Option<Seq<char>>),
    RunStatus(Option<(Seq<char>, bool)>),
    Messages(Option<ListingView>),
}

/// The view of a text that may be missing.
pub open spec fn text_view(text: Option<String>) -> Option<Seq<char>> {
    match text {
        Some(text) => Some(text@),
        None => None,
    }
}

impl View for Outcome {
    type V = OutcomeView;

    open spec fn view(&self) -> OutcomeView {
        match self {
            Outcome::Assistant(id) => OutcomeView::Assistant(text_view(*id)),
            Outcome::Thread(id) => OutcomeView::Thread(text_view(*id)),
            Outcome::Delivery(received) => OutcomeView::Delivery(received@),
            Outcome::Message(posted) => OutcomeView::Message(*posted),
            Outcome::Run(id) => OutcomeView::Run(text_view(*id)),
            Outcome::RunStatus(status) => OutcomeView::RunStatus(
                match status {
                    Some((run, completed)) => Some((run@, *completed)),
                    None => None,
                },
            ),
            Outcome::Messages(listing) => OutcomeView::Messages(
                match listing {
                    Some(listing) => Some(listing@),
                    None => None,
                },
            ),
        }
    }
}

/// What the worker does after an outcome.
pub struct ProgressView {
    /// Where it stands afterwards.
    pub phase: PhaseView,
    /// The exchange that it publishes, if the outcome completed one.
    pub answer: Option<ExchangeView>,
    /// How many seconds it pauses before the next request.
    pub pause_secs: u64,
}

impl ProgressView {
    /// The event that the worker hands to the bus after the outcome: the
    /// response that carries the exchange, if the outcome completed one.
    pub open spec fn response(self) -> Option<EventView> {
        match self.answer {
            Some(exchange) => Some(EventView::RespondToQuestion(exchange)),
            None => None,
        }
    }
}

impl PhaseView {
    /// The request that is due in this phase.
    pub open spec fn request(self, assistant_id: Seq<char>) -> RequestView {
        match self {
            PhaseView::FindingAssistant => RequestView::RetrieveAssistant { assistant_id },
            PhaseView::OpeningThread { .. } => RequestView::CreateThread,
            PhaseView::Listening { .. } => RequestView::Receive,
            PhaseView::PostingQuestion { thread, question, .. } => RequestView::CreateMessage {
                thread,
                question,
            },
            PhaseView::StartingRun { assistant, thread, .. } => RequestView::CreateRun {
                thread,
                assistant,
            },
            PhaseView::AwaitingRun { thread, run, .. } => RequestView::RetrieveRun { thread, run },
            PhaseView::FetchingAnswer { thread, .. } => RequestView::ListMessages { thread },
            PhaseView::Stopped(fault) => RequestView::Halt(fault),
        }
    }

    /// The question that the worker has accepted and not yet answered.
    pub open spec fn pending(self) -> Option<Seq<char>> {
        match self {
            PhaseView::PostingQuestion { question, .. } => Some(question),
            PhaseView::StartingRun { question, .. } => Some(question),
            PhaseView::AwaitingRun { question, .. } => Some(question),
            PhaseView::FetchingAnswer { question, .. } => Some(question),
            _ => None,
        }
    }

    /// The worker stays where it is and pauses for `pause_secs` seconds.
    pub open spec fn stay(self, pause_secs: u64) -> ProgressView {
        ProgressView { phase: self, answer: None, pause_secs }
    }

    /// The worker moves on to `phase` without a pause.
    pub open spec fn proceed(phase: PhaseView) -> ProgressView {
        ProgressView { phase, answer: None, pause_secs: 0 }
    }

    /// What the worker does after `outcome`.
    ///
    /// A request that failed is repeated after a pause. A run that is not
    /// completed is looked at again after a shorter pause. While listening,
    /// only a question moves the worker on, and a closed bus stops it. An
    /// outcome that does not belong to the request of the phase changes
    /// nothing.
    pub open spec fn next(self, outcome: OutcomeView) -> ProgressView {
        match (self, outcome) {
            (PhaseView::FindingAssistant, OutcomeView::Assistant(Some(assistant))) => {
                Self::proceed(PhaseView::OpeningThread { assistant })
            },
            (PhaseView::FindingAssistant, OutcomeView::Assistant(None)) => self.stay(
                RETRY_PAUSE_SECS,
            ),
            (PhaseView::OpeningThread { assistant }, OutcomeView::Thread(Some(thread))) => {
                Self::proceed(PhaseView::Listening { assistant, thread })
            },
            (PhaseView::OpeningThread { .. }, OutcomeView::Thread(None)) => self.stay(
                RETRY_PAUSE_SECS,
            ),
            (
                PhaseView::Listening { assistant, thread },
                OutcomeView::Delivery(ReceivedView::Event(EventView::AskQuestion(question))),
            ) => Self::proceed(PhaseView::PostingQuestion { assistant, thread, question }),
            (PhaseView::Listening { .. }, OutcomeView::Delivery(ReceivedView::Closed)) => {
                Self::proceed(PhaseView::Stopped(Fault::BusClosed))
            },
            (
                PhaseView::PostingQuestion { assistant, thread, question },
                OutcomeView::Message(true),
            ) => Self::proceed(PhaseView::StartingRun { assistant, thread, question }),
            (PhaseView::PostingQuestion { .. }, OutcomeView::Message(false)) => self.stay(
                RETRY_PAUSE_SECS,
            ),
            (
                PhaseView::StartingRun { assistant, thread, question },
                OutcomeView::Run(Some(run)),
            ) => Self::proceed(PhaseView::AwaitingRun { assistant, thread, question, run }),
            (PhaseView::StartingRun { .. }, OutcomeView::Run(None)) => self.stay(RETRY_PAUSE_SECS),
            (
                PhaseView::AwaitingRun { assistant, thread, question, .. },
                OutcomeView::RunStatus(Some((run, completed))),
            ) => if completed {
                Self::proceed(PhaseView::FetchingAnswer { assistant, thread, question })
            } else {
                PhaseView::AwaitingRun { assistant, thread, question, run }.stay(POLL_PAUSE_SECS)
            },
            (PhaseView::AwaitingRun { .. }, OutcomeView::RunStatus(None)) => self.stay(
                POLL_PAUSE_SECS,
            ),
            (
                PhaseView::FetchingAnswer { assistant, thread, question },
                OutcomeView::Messages(Some(listing)),
            ) => match listing {
                ListingView::Text(answer) => ProgressView {
                    phase: PhaseView::Listening { assistant, thread },
                    answer: Some(ExchangeView { question, answer }),
                    pause_secs: 0,
                },
                ListingView::Image => Self::proceed(PhaseView::Stopped(Fault::ImageAnswer)),
                ListingView::NoContent => Self::proceed(PhaseView::Stopped(Fault::NoContent)),
                ListingView::NoMessage => Self::proceed(PhaseView::Stopped(Fault::NoMessage)),
            },
            (PhaseView::FetchingAnswer { .. }, OutcomeView::Messages(None)) => self.stay(
                RETRY_PAUSE_SECS,
            ),
            _ => self.stay(0),
        }
    }
}

/// What the worker does after an outcome.
#[derive(Debug, PartialEq, Eq)]
pub struct Progress {
    /// Where it stands afterwards.
    pub phase: Phase,
    /// The exchange to publish, if the outcome completed one.
    pub answer: Option<QuestionResponse>,
    /// How many seconds to pause before the next request.
    pub pause_secs: u64,
}

impl View for Progress {
    type V = ProgressView;

    open spec fn view(&self) -> ProgressView {
        ProgressView {
            phase: self.phase@,
            answer: match self.answer {
                Some(exchange) => Some(exchange@),
                None => None,
            },
            pause_secs: self.pause_secs,
        }
    }
}

impl Progress {
    /// The event that the worker hands to the bus after the outcome.
    pub fn response(&self) -> (event: Option<DispatchActions>)
        ensures
            match event {
                Some(event) => self@.response() == Some(event@),
                None => self@.response() is None,
            },
    {
        match &self.answer {
            Some(exchange) => Some(DispatchActions::RespondToQuestion(exchange.clone())),
            None => None,
        }
    }
}

impl Phase {
    /// The request that is due in this phase.
    pub fn request(&self, assistant_id: &String) -> (request: Request)
        ensures
            request@ == self@.request(assistant_id@),
    {
        match self {
            Phase::FindingAssistant => Request::RetrieveAssistant {
                assistant_id: assistant_id.clone(),
            },
            Phase::OpeningThread { .. } => Request::CreateThread,
            Phase::Listening { .. } => Request::Receive,
            Phase::PostingQuestion { thread, question, .. } => Request::CreateMessage {
                thread: thread.clone(),
                question: question.clone(),
            },
            Phase::StartingRun { assistant, thread, .. } => Request::CreateRun {
                thread: thread.clone(),
                assistant: assistant.clone(),
            },
            Phase::AwaitingRun { thread, run, .. } => Request::RetrieveRun {
                thread: thread.clone(),
                run: run.clone(),
            },
            Phase::FetchingAnswer { thread, .. } => Request::ListMessages {
                thread: thread.clone(),
            },
            Phase::Stopped(fault) => Request::Halt(*fault),
        }
    }

    /// The worker stays where it is and pauses.
    fn stay(self, pause_secs: u64) -> (progress: Progress)
        ensures
            progress@ == self@.stay(pause_secs),
    {
        Progress { phase: self, answer: None, pause_secs }
    }

    /// The worker moves on without a pause.
    fn proceed(phase: Phase) -> (progress: Progress)
        ensures
            progress@ == PhaseView::proceed(phase@),
    {
        Progress { phase, answer: None, pause_secs: 0 }
    }

    /// What the worker does after `outcome`.
    pub fn next(self, outcome: Outcome) -> (progress: Progress)
        ensures
            progress@ == self@.next(outcome@),
    {
        match self {
            Phase::FindingAssistant => match outcome {
                Outcome::Assistant(Some(assistant)) => Self::proceed(
                    Phase::OpeningThread { assistant },
                ),
                Outcome::Assistant(None) => Phase::FindingAssistant.stay(RETRY_PAUSE_SECS),
                _ => Phase::FindingAssistant.stay(0),
            },
            Phase::OpeningThread { assistant } => match outcome {
                Outcome::Thread(Some(thread)) => Self::proceed(
                    Phase::Listening { assistant, thread },
                ),
                Outcome::Thread(None) => Phase::OpeningThread { assistant }.stay(RETRY_PAUSE_SECS),
                _ => Phase::OpeningThread { assistant }.stay(0),
            },
            Phase::Listening { assistant, thread } => match outcome {
                Outcome::Delivery(Received::Event(DispatchActions::AskQuestion(question))) => {
                    Self::proceed(Phase::PostingQuestion { assistant, thread, question })
                },
                Outcome::Delivery(Received::Closed) => Self::proceed(
                    Phase::Stopped(Fault::BusClosed),
                ),
                _ => Phase::Listening { assistant, thread }.stay(0),
            },
            Phase::PostingQuestion { assistant, thread, question } => match outcome {
                Outcome::Message(true) => Self::proceed(
                    Phase::StartingRun { assistant, thread, question },
                ),
                Outcome::Message(false) => Phase::PostingQuestion {
                    assistant,
                    thread,
                    question,
                }.stay(RETRY_PAUSE_SECS),
                _ => Phase::PostingQuestion { assistant, thread, question }.stay(0),
            },
            Phase::StartingRun { assistant, thread, question } => match outcome {
                Outcome::Run(Some(run)) => Self::proceed(
                    Phase::AwaitingRun { assistant, thread, question, run },
                ),
                Outcome::Run(None) => Phase::StartingRun { assistant, thread, question }.stay(
                    RETRY_PAUSE_SECS,
                ),
                _ => Phase::StartingRun { assistant, thread, question }.stay(0),
            },
            Phase::AwaitingRun { assistant, thread, question, run } => match outcome {
                Outcome::RunStatus(Some((polled, completed))) => {
                    if completed {
                        Self::proceed(Phase::FetchingAnswer { assistant, thread, question })
                    } else {
                        Phase::AwaitingRun { assistant, thread, question, run: polled }.stay(
                            POLL_PAUSE_SECS,
                        )
                    }
                },
                Outcome::RunStatus(None) => Phase::AwaitingRun {
                    assistant,
                    thread,
                    question,
                    run,
                }.stay(POLL_PAUSE_SECS),
                _ => Phase::AwaitingRun { assistant, thread, question, run }.stay(0),
            },
            Phase::FetchingAnswer { assistant, thread, question } => match outcome {
                Outcome::Messages(Some(Listing::Text(answer))) => Progress {
                    phase: Phase::Listening { assistant, thread },
                    answer: Some(QuestionResponse { question, answer }),
                    pause_secs: 0,
                },
                Outcome::Messages(Some(Listing::Image)) => Self::proceed(
                    Phase::Stopped(Fault::ImageAnswer),
                ),
                Outcome::Messages(Some(Listing::NoContent)) => Self::proceed(
                    Phase::Stopped(Fault::NoContent),
                ),
                Outcome::Messages(Some(Listing::NoMessage)) => Self::proceed(
                    Phase::Stopped(Fault::NoMessage),
                ),
                Outcome::Messages(None) => Phase::FetchingAnswer {
                    assistant,
                    thread,
                    question,
                }.stay(RETRY_PAUSE_SECS),
                _ => Phase::FetchingAnswer { assistant, thread, question }.stay(0),
            },
            Phase::Stopped(fault) => Phase::Stopped(fault).stay(0),
        }
    }
}

/// The worker.
pub struct AssistantService {
    api_key: String,
    sender: tokio::sync::broadcast::Sender<DispatchActions>,
    running: bool,
    assistant_id: String,
    phase: Phase,
}

/// What a worker is, apart from its end of the bus.
pub struct WorkerView {
    /// The key that its requests are signed with.
    pub api_key: Seq<char>,
    /// The identifier of the assistant that it asks.
    pub assistant_id: Seq<char>,
    /// Whether its loop has been started.
    pub running: bool,
    /// Where it stands.
    pub phase: PhaseView,
}

impl WorkerView {
    /// The worker after a call of `start`, and whether the call asks for a
    /// loop to be spawned: only the first one does.
    pub open spec fn start(self) -> (WorkerView, bool) {
        (WorkerView { running: true, ..self }, !self.running)
    }
}

/// What a call of `advance` did.
#[derive(Debug, PartialEq, Eq)]
pub struct Advance {
    /// The exchange that was published on the bus, if any.
    pub published: Option<QuestionResponse>,
    /// How many seconds to pause before the next request.
    pub pause_secs: u64,
}

impl AssistantService {
    /// The worker as a plain value.
    pub closed spec fn view(&self) -> WorkerView {
        WorkerView {
            api_key: self.api_key@,
            assistant_id: self.assistant_id@,
            running: self.running,
            phase: self.phase@,
        }
    }

    /// The end of the bus that the worker was given, subscribes through
    /// and publishes on.
    pub closed spec fn bus(&self) -> tokio::sync::broadcast::Sender<DispatchActions> {
        self.sender
    }

    /// Makes a worker that asks the assistant of `assistant_id` and
    /// publishes on the bus of `sndr`.
    pub fn new(
        api_key: String,
        assistant_id: String,
        sndr: tokio::sync::broadcast::Sender<DispatchActions>,
    ) -> (worker: Self)
        ensures
            worker@ == (WorkerView {
                api_key: api_key@,
                assistant_id: assistant_id@,
                running: false,
                phase: PhaseView::FindingAssistant,
            }),
            worker.bus() == sndr,
    {
        AssistantService {
            api_key,
            sender: sndr,
            running: false,
            assistant_id,
            phase: Phase::FindingAssistant,
        }
    }

    /// Marks the loop as started. The first call subscribes to the bus and
    /// hands the subscription to the caller, who spawns the loop with it.
    /// Every later call does nothing and hands out nothing.
    pub fn start(
        &mut self,
    ) -> (subscription: Option<tokio::sync::broadcast::Receiver<DispatchActions>>)
        ensures
            final(self)@ == old(self)@.start().0,
            final(self).bus() == old(self).bus(),
            subscription is Some == old(self)@.start().1,
    {
        if self.running {
            return None;
        }
        self.running = true;
        Some(subscribe(&self.sender))
    }

    /// Whether the loop has been started.
    pub fn is_running(&self) -> (running: bool)
        ensures
            running == self@.running,
    {
        self.running
    }

    /// The key that the requests are signed with.
    pub fn api_key(&self) -> (key: &String)
        ensures
            key@ == self@.api_key,
    {
        &self.api_key
    }

    /// Where the worker stands.
    pub fn phase(&self) -> (phase: &Phase)
        ensures
            phase@ == self@.phase,
    {
        &self.phase
    }

    /// The request that is due.
    pub fn request(&self) -> (request: Request)
        ensures
            request@ == self@.phase.request(self@.assistant_id),
    {
        self.phase.request(&self.assistant_id)
    }

    /// Takes the outcome of the request that was due. An answer that the
    /// outcome completed is published on the bus as a response to its
    /// question.
    pub fn advance(&mut self, outcome: Outcome) -> (done: Advance)
        ensures
            final(self)@ == (WorkerView {
                phase: old(self)@.phase.next(outcome@).phase,
                ..old(self)@
            }),
            final(self).bus() == old(self).bus(),
            done.pause_secs == old(self)@.phase.next(outcome@).pause_secs,
            match done.published {
                Some(exchange) => old(self)@.phase.next(outcome@).answer == Some(exchange@),
                None => old(self)@.phase.next(outcome@).answer is None,
            },
    {
        let mut phase = Phase::FindingAssistant;
        core::mem::swap(&mut self.phase, &mut phase);
        let progress = phase.next(outcome);
        match progress.response() {
            Some(event) => {
                let _ = publish(&self.sender, event);
            },
            None => {},
        }
        self.phase = progress.phase;
        Advance { published: progress.answer, pause_secs: progress.pause_secs }
    }
}

/// How many questions a run of outcomes makes the worker accept.
pub open spec fn accepted(phase: PhaseView, outcomes: Seq<OutcomeView>) -> nat
    decreases outcomes.len(),
{
    if outcomes.len() == 0 {
        0
    } else {
        let before = run_phase(phase, outcomes.drop_last());
        let after = before.next(outcomes.last()).phase;
        accepted(phase, outcomes.drop_last()) + if before.pending() is None && after.pending()
            is Some {
            1nat
        } else {
            0nat
        }
    }
}

/// How many answers a run of outcomes makes the worker publish.
pub open spec fn answered(phase: PhaseView, outcomes: Seq<OutcomeView>) -> nat
    decreases outcomes.len(),
{
    if outcomes.len() == 0 {
        0
    } else {
        let before = run_phase(phase, outcomes.drop_last());
        answered(phase, outcomes.drop_last()) + if before.next(outcomes.last()).answer is Some {
            1nat
        } else {
            0nat
        }
    }
}

/// Where a run of outcomes takes the worker.
pub open spec fn run_phase(phase: PhaseView, outcomes: Seq<OutcomeView>) -> PhaseView
    decreases outcomes.len(),
{
    if outcomes.len() == 0 {
        phase
    } else {
        run_phase(phase, outcomes.drop_last()).next(outcomes.last()).phase
    }
}

/// The worker accepts a question only from the bus and only while it
/// listens; it keeps the question until it publishes the answer to exactly
/// that question and listens again, or gives up; and it publishes nothing
/// else.
pub proof fn lemma_answer_follows_question(phase: PhaseView, outcome: OutcomeView)
    ensures
        match phase.pending() {
            Some(question) => {
                let after = phase.next(outcome);
                ||| after.phase.pending() == Some(question) && after.answer is None
                ||| after.phase is Listening && after.answer is Some
                    && after.answer.unwrap().question == question
                ||| after.phase is Stopped && after.answer is None
            },
            None => {
                let after = phase.next(outcome);
                &&& after.answer is None
                &&& after.phase.pending() matches Some(question) ==> phase is Listening
                    && outcome == OutcomeView::Delivery(
                    ReceivedView::Event(EventView::AskQuestion(question)),
                )
            },
        },
{
}

/// While it listens, the worker reacts to nothing but a question and a
/// closed bus.
pub proof fn lemma_listening_ignores_other_events(phase: PhaseView, outcome: OutcomeView)
    requires
        phase is Listening,
        !(outcome matches OutcomeView::Delivery(ReceivedView::Event(EventView::AskQuestion(_)))),
        outcome != OutcomeView::Delivery(ReceivedView::Closed),
    ensures
        phase.next(outcome) == phase.stay(0),
{
}

/// Over any run of outcomes, the worker publishes one answer for each
/// question that it accepted, apart from the one that it may still be
/// working on or have given up on.
pub proof fn lemma_one_answer_per_question(phase: PhaseView, outcomes: Seq<OutcomeView>)
    requires
        phase.pending() is None,
    ensures
        answered(phase, outcomes) <= accepted(phase, outcomes) <= answered(phase, outcomes) + 1,
        run_phase(phase, outcomes).pending() is Some ==> accepted(phase, outcomes) == answered(
            phase,
            outcomes,
        ) + 1,
        run_phase(phase, outcomes).pending() is None && !(run_phase(phase, outcomes) is Stopped)
            ==> accepted(phase, outcomes) == answered(phase, outcomes),
    decreases outcomes.len(),
{
    if outcomes.len() > 0 {
        lemma_one_answer_per_question(phase, outcomes.drop_last());
        let before = run_phase(phase, outcomes.drop_last());
        lemma_answer_follows_question(before, outcomes.last());
    }
}

} // verus!
