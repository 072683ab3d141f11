use clippit_gpt::actions::DispatchActions;
use clippit_gpt::assistant::{
    Advance, AssistantService, Fault, Listing, Outcome, Phase, Progress, Request,
    POLL_PAUSE_SECS, RETRY_PAUSE_SECS,
};
use clippit_gpt::bus::Received;
use clippit_gpt::models::QuestionResponse;
use tokio::sync::broadcast::{channel, Receiver};

fn text(value: &str) -> String {
    value.to_string()
}

fn listening() -> Phase {
    Phase::Listening { assistant: text("asst"), thread: text("thread") }
}

fn posting(question: &str) -> Phase {
    Phase::PostingQuestion { assistant: text("asst"), thread: text("thread"), question: text(question) }
}

fn starting(question: &str) -> Phase {
    Phase::StartingRun { assistant: text("asst"), thread: text("thread"), question: text(question) }
}

fn awaiting(question: &str, run: &str) -> Phase {
    Phase::AwaitingRun {
        assistant: text("asst"),
        thread: text("thread"),
        question: text(question),
        run: text(run),
    }
}

fn fetching(question: &str) -> Phase {
    Phase::FetchingAnswer { assistant: text("asst"), thread: text("thread"), question: text(question) }
}

fn stays(phase: Phase, pause_secs: u64) -> Progress {
    Progress { phase, answer: None, pause_secs }
}

fn question(value: &str) -> Outcome {
    Outcome::Delivery(Received::Event(DispatchActions::AskQuestion(text(value))))
}

fn worker() -> (AssistantService, Receiver<DispatchActions>) {
    let (sender, watcher) = channel::<DispatchActions>(50);
    (AssistantService::new(text("key"), text("configured"), sender), watcher)
}

#[test]
fn pauses_are_three_seconds_and_one() {
    assert_eq!(RETRY_PAUSE_SECS, 3);
    assert_eq!(POLL_PAUSE_SECS, 1);
}

#[test]
fn worker_is_made_looking_for_its_assistant() {
    let (worker, _watcher) = worker();
    assert_eq!(worker.api_key(), "key");
    assert!(!worker.is_running());
    assert_eq!(worker.phase(), &Phase::FindingAssistant);
    assert_eq!(worker.request(), Request::RetrieveAssistant { assistant_id: text("configured") });
}

#[test]
fn worker_start_twice_spawns_one_loop() {
    let (sender, _watcher) = channel::<DispatchActions>(50);
    let mut worker = AssistantService::new(text("key"), text("configured"), sender.clone());
    let first = worker.start();
    assert!(first.is_some());
    assert!(worker.is_running());
    assert_eq!(sender.receiver_count(), 2);
    let second = worker.start();
    assert!(second.is_none());
    assert!(worker.is_running());
    assert_eq!(sender.receiver_count(), 2);
}

#[test]
fn each_phase_has_its_request() {
    let id = text("configured");
    assert_eq!(
        Phase::FindingAssistant.request(&id),
        Request::RetrieveAssistant { assistant_id: text("configured") }
    );
    assert_eq!(Phase::OpeningThread { assistant: text("asst") }.request(&id), Request::CreateThread);
    assert_eq!(listening().request(&id), Request::Receive);
    assert_eq!(
        posting("why").request(&id),
        Request::CreateMessage { thread: text("thread"), question: text("why") }
    );
    assert_eq!(
        starting("why").request(&id),
        Request::CreateRun { thread: text("thread"), assistant: text("asst") }
    );
    assert_eq!(
        awaiting("why", "run1").request(&id),
        Request::RetrieveRun { thread: text("thread"), run: text("run1") }
    );
    assert_eq!(fetching("why").request(&id), Request::ListMessages { thread: text("thread") });
    assert_eq!(Phase::Stopped(Fault::NoContent).request(&id), Request::Halt(Fault::NoContent));
}

#[test]
fn failed_requests_are_repeated_after_three_seconds() {
    assert_eq!(
        Phase::FindingAssistant.next(Outcome::Assistant(None)),
        stays(Phase::FindingAssistant, 3)
    );
    assert_eq!(
        Phase::OpeningThread { assistant: text("asst") }.next(Outcome::Thread(None)),
        stays(Phase::OpeningThread { assistant: text("asst") }, 3)
    );
    assert_eq!(posting("why").next(Outcome::Message(false)), stays(posting("why"), 3));
    assert_eq!(starting("why").next(Outcome::Run(None)), stays(starting("why"), 3));
    assert_eq!(fetching("why").next(Outcome::Messages(None)), stays(fetching("why"), 3));
}

#[test]
fn run_is_polled_every_second_until_completed() {
    assert_eq!(awaiting("why", "run1").next(Outcome::RunStatus(None)), stays(awaiting("why", "run1"), 1));
    assert_eq!(
        awaiting("why", "run1").next(Outcome::RunStatus(Some((text("run2"), false)))),
        stays(awaiting("why", "run2"), 1)
    );
    assert_eq!(
        awaiting("why", "run1").next(Outcome::RunStatus(Some((text("run1"), true)))),
        stays(fetching("why"), 0)
    );
}

#[test]
fn successful_requests_move_on_without_a_pause() {
    assert_eq!(
        Phase::FindingAssistant.next(Outcome::Assistant(Some(text("asst")))),
        stays(Phase::OpeningThread { assistant: text("asst") }, 0)
    );
    assert_eq!(
        Phase::OpeningThread { assistant: text("asst") }.next(Outcome::Thread(Some(text("thread")))),
        stays(listening(), 0)
    );
    assert_eq!(listening().next(question("why")), stays(posting("why"), 0));
    assert_eq!(posting("why").next(Outcome::Message(true)), stays(starting("why"), 0));
    assert_eq!(starting("why").next(Outcome::Run(Some(text("run1")))), stays(awaiting("why", "run1"), 0));
    assert_eq!(
        fetching("why").next(Outcome::Messages(Some(Listing::Text(text("because"))))),
        Progress {
            phase: listening(),
            answer: Some(QuestionResponse { question: text("why"), answer: text("because") }),
            pause_secs: 0,
        }
    );
}

#[test]
fn listening_worker_reacts_to_questions_only() {
    let others = vec![
        Received::Event(DispatchActions::QuestionTextChanged(text("wh"))),
        Received::Event(DispatchActions::NewAnimationStarted(text("A"))),
        Received::Event(DispatchActions::NewFrameToRender),
        Received::Event(DispatchActions::RespondToQuestion(QuestionResponse {
            question: text("old"),
            answer: text("news"),
        })),
        Received::Lagged(12),
        Received::Empty,
    ];
    for received in others {
        assert_eq!(listening().next(Outcome::Delivery(received)), stays(listening(), 0));
    }
}

#[test]
fn busy_worker_does_not_take_another_question() {
    assert_eq!(posting("first").next(question("second")), stays(posting("first"), 0));
    assert_eq!(starting("first").next(question("second")), stays(starting("first"), 0));
    assert_eq!(
        awaiting("first", "run1").next(question("second")),
        stays(awaiting("first", "run1"), 0)
    );
    assert_eq!(fetching("first").next(question("second")), stays(fetching("first"), 0));
}

#[test]
fn outcome_of_another_request_changes_nothing() {
    assert_eq!(
        Phase::FindingAssistant.next(Outcome::Thread(Some(text("thread")))),
        stays(Phase::FindingAssistant, 0)
    );
    assert_eq!(listening().next(Outcome::Message(true)), stays(listening(), 0));
    assert_eq!(
        posting("why").next(Outcome::Messages(Some(Listing::Text(text("because"))))),
        stays(posting("why"), 0)
    );
    assert_eq!(fetching("why").next(Outcome::Run(None)), stays(fetching("why"), 0));
}

#[test]
fn worker_gives_up_on_a_closed_bus_and_on_unreadable_answers() {
    assert_eq!(
        listening().next(Outcome::Delivery(Received::Closed)),
        stays(Phase::Stopped(Fault::BusClosed), 0)
    );
    assert_eq!(
        fetching("why").next(Outcome::Messages(Some(Listing::NoMessage))),
        stays(Phase::Stopped(Fault::NoMessage), 0)
    );
    assert_eq!(
        fetching("why").next(Outcome::Messages(Some(Listing::NoContent))),
        stays(Phase::Stopped(Fault::NoContent), 0)
    );
    assert_eq!(
        fetching("why").next(Outcome::Messages(Some(Listing::Image))),
        stays(Phase::Stopped(Fault::ImageAnswer), 0)
    );
    assert_eq!(
        Phase::Stopped(Fault::ImageAnswer).next(question("again")),
        stays(Phase::Stopped(Fault::ImageAnswer), 0)
    );
}

#[test]
fn worker_publishes_one_answer_for_each_question() {
    let (mut worker, mut watcher) = worker();
    let quiet = |pause_secs: u64| Advance { published: None, pause_secs };

    assert_eq!(worker.advance(Outcome::Assistant(None)), quiet(3));
    assert_eq!(worker.request(), Request::RetrieveAssistant { assistant_id: text("configured") });
    assert_eq!(worker.advance(Outcome::Assistant(Some(text("asst")))), quiet(0));
    assert_eq!(worker.request(), Request::CreateThread);
    assert_eq!(worker.advance(Outcome::Thread(Some(text("thread")))), quiet(0));

    for (asked, answer) in [("one", "first"), ("two", "second")] {
        assert_eq!(worker.request(), Request::Receive);
        assert_eq!(
            worker.advance(Outcome::Delivery(Received::Event(DispatchActions::NewFrameToRender))),
            quiet(0)
        );
        assert_eq!(worker.request(), Request::Receive);
        assert_eq!(worker.advance(question(asked)), quiet(0));
        assert_eq!(
            worker.request(),
            Request::CreateMessage { thread: text("thread"), question: text(asked) }
        );
        assert_eq!(worker.advance(Outcome::Message(false)), quiet(3));
        assert_eq!(worker.advance(Outcome::Message(true)), quiet(0));
        assert_eq!(
            worker.request(),
            Request::CreateRun { thread: text("thread"), assistant: text("asst") }
        );
        assert_eq!(worker.advance(Outcome::Run(Some(text("run")))), quiet(0));
        assert_eq!(
            worker.request(),
            Request::RetrieveRun { thread: text("thread"), run: text("run") }
        );
        assert_eq!(worker.advance(Outcome::RunStatus(Some((text("run"), false)))), quiet(1));
        assert_eq!(worker.advance(Outcome::RunStatus(None)), quiet(1));
        assert_eq!(worker.advance(Outcome::RunStatus(Some((text("run"), true)))), quiet(0));
        assert_eq!(worker.request(), Request::ListMessages { thread: text("thread") });
        assert!(watcher.try_recv().is_err());
        let exchange = QuestionResponse { question: text(asked), answer: text(answer) };
        assert_eq!(
            worker.advance(Outcome::Messages(Some(Listing::Text(text(answer))))),
            Advance {
                published: Some(QuestionResponse { question: text(asked), answer: text(answer) }),
                pause_secs: 0,
            }
        );
        assert_eq!(watcher.try_recv().ok(), Some(DispatchActions::RespondToQuestion(exchange)));
        assert!(watcher.try_recv().is_err());
        assert_eq!(worker.phase(), &listening());
    }
}

#[test]
fn worker_that_gave_up_asks_for_nothing_more() {
    let (mut worker, mut watcher) = worker();
    worker.advance(Outcome::Assistant(Some(text("asst"))));
    worker.advance(Outcome::Thread(Some(text("thread"))));
    worker.advance(question("why"));
    worker.advance(Outcome::Message(true));
    worker.advance(Outcome::Run(Some(text("run"))));
    worker.advance(Outcome::RunStatus(Some((text("run"), true))));
    assert_eq!(
        worker.advance(Outcome::Messages(Some(Listing::Image))),
        Advance { published: None, pause_secs: 0 }
    );
    assert_eq!(worker.request(), Request::Halt(Fault::ImageAnswer));
    assert!(watcher.try_recv().is_err());
}

#[test]
fn worker_hands_the_response_to_a_completed_exchange_to_the_bus() {
    let answered = Progress {
        phase: listening(),
        answer: Some(QuestionResponse { question: text("why"), answer: text("because") }),
        pause_secs: 0,
    };
    assert_eq!(
        answered.response(),
        Some(DispatchActions::RespondToQuestion(QuestionResponse {
            question: text("why"),
            answer: text("because"),
        }))
    );
    assert_eq!(stays(posting("why"), 3).response(), None);
}

#[test]
fn worker_keeps_the_bus_it_was_given() {
    let (sender, mut watcher) = channel::<DispatchActions>(50);
    let (_other, mut stranger) = channel::<DispatchActions>(50);
    let mut worker = AssistantService::new(text("key"), text("configured"), sender);
    let subscription = worker.start().unwrap();
    assert!(subscription.same_channel(&watcher));
    assert!(!subscription.same_channel(&stranger));
    worker.advance(Outcome::Assistant(Some(text("asst"))));
    worker.advance(Outcome::Thread(Some(text("thread"))));
    worker.advance(question("why"));
    worker.advance(Outcome::Message(true));
    worker.advance(Outcome::Run(Some(text("run"))));
    worker.advance(Outcome::RunStatus(Some((text("run"), true))));
    worker.advance(Outcome::Messages(Some(Listing::Text(text("because")))));
    assert!(watcher.try_recv().is_ok());
    assert!(stranger.try_recv().is_err());
}
