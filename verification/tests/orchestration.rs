use assistant_bridge::coordinator::{Coordinator, Directive, Outcome, Phase};
use assistant_bridge::message::{reply_text, Segment};
use assistant_bridge::status::{classify, failure_text, RunStatus, StatusClass};

fn respond_text(d: Directive) -> String {
    match d {
        Directive::Respond(r) => r,
        other => panic!("expected a Respond directive, got {:?}", other),
    }
}

#[test]
fn status_classification_table() {
    assert_eq!(classify(&RunStatus::Queued), StatusClass::NonTerminal);
    assert_eq!(classify(&RunStatus::InProgress), StatusClass::NonTerminal);
    assert_eq!(classify(&RunStatus::Cancelling), StatusClass::NonTerminal);
    assert_eq!(classify(&RunStatus::RequiresAction), StatusClass::Failure);
    assert_eq!(classify(&RunStatus::Cancelled), StatusClass::Failure);
    assert_eq!(classify(&RunStatus::Failed), StatusClass::Failure);
    assert_eq!(classify(&RunStatus::Expired), StatusClass::Failure);
    assert_eq!(classify(&RunStatus::Completed), StatusClass::Success);
}

#[test]
fn failure_sentences() {
    assert_eq!(
        failure_text(&RunStatus::RequiresAction),
        "Action required for OpenAI assistant"
    );
    assert_eq!(failure_text(&RunStatus::Cancelled), "Run is cancelled");
    assert_eq!(failure_text(&RunStatus::Failed), "Run is failed");
    assert_eq!(failure_text(&RunStatus::Expired), "Run is expired");
}

#[test]
fn guard_always_active_times_out_without_submitting() {
    let mut c = Coordinator::new();
    for attempt in 0..5u64 {
        let d = c.on_runs_listed(Ok(true));
        if attempt < 4 {
            assert!(matches!(d, Directive::PauseThenListRuns));
            assert_eq!(c.phase, Phase::CheckingActive { checks_left: 4 - attempt });
        } else {
            assert_eq!(respond_text(d), "Failed to wait for active run.");
            assert_eq!(c.phase, Phase::Done { outcome: Outcome::TimedOut });
        }
    }
}

#[test]
fn guard_clears_when_listing_empties() {
    let mut c = Coordinator::new();
    let d0 = c.on_runs_listed(Ok(true));
    assert!(matches!(d0, Directive::PauseThenListRuns));
    let d1 = c.on_runs_listed(Ok(false));
    assert!(matches!(d1, Directive::AppendMessage));
    assert_eq!(c.phase, Phase::Submitting);
}

#[test]
fn guard_listing_error_fails_the_pass() {
    let mut c = Coordinator::new();
    let d = c.on_runs_listed(Err(()));
    assert_eq!(respond_text(d), "Failed to wait for active run.");
    assert_eq!(c.phase, Phase::Done { outcome: Outcome::Failed });
}

#[test]
fn append_failure_reports_fixed_sentence() {
    let mut c = Coordinator::new();
    c.on_runs_listed(Ok(false));
    let d = c.on_message_appended(false);
    assert_eq!(respond_text(d), "Failed to create message.");
    assert_eq!(c.phase, Phase::Done { outcome: Outcome::Failed });
}

#[test]
fn run_creation_failure_reports_fixed_sentence() {
    let mut c = Coordinator::new();
    c.on_runs_listed(Ok(false));
    c.on_message_appended(true);
    let d = c.on_run_created(false);
    assert_eq!(respond_text(d), "Failed to create run.");
    assert_eq!(c.phase, Phase::Done { outcome: Outcome::Failed });
}

#[test]
fn retrieval_error_reports_fixed_sentence() {
    let mut c = Coordinator::new();
    c.on_runs_listed(Ok(false));
    c.on_message_appended(true);
    c.on_run_created(true);
    let d = c.on_status(Err(()));
    assert_eq!(respond_text(d), "Failed to retrieve run.");
    assert_eq!(c.phase, Phase::Done { outcome: Outcome::Failed });
}

#[test]
fn run_completing_within_three_polls_returns_joined_text() {
    let mut c = Coordinator::new();
    assert!(matches!(c.on_runs_listed(Ok(false)), Directive::AppendMessage));
    assert!(matches!(c.on_message_appended(true), Directive::CreateRun));
    assert!(matches!(c.on_run_created(true), Directive::PauseThenPollRun));
    assert!(matches!(c.on_status(Ok(RunStatus::Queued)), Directive::PauseThenPollRun));
    assert!(matches!(c.on_status(Ok(RunStatus::InProgress)), Directive::PauseThenPollRun));
    let d = c.on_status(Ok(RunStatus::Completed));
    assert!(matches!(d, Directive::FetchNewestMessage));
    assert_eq!(c.phase, Phase::Fetching);
    let parts = vec![
        Segment::Text(String::from("The answer")),
        Segment::Other,
        Segment::Text(String::from("is 42.")),
    ];
    let reply = respond_text(c.on_messages_fetched(Ok(Some(parts))));
    assert_eq!(reply, "The answer\nis 42.");
    assert_eq!(c.phase, Phase::Done { outcome: Outcome::Completed });
}

#[test]
fn expired_run_returns_fixed_sentence_without_fetch() {
    let mut c = Coordinator::new();
    c.on_runs_listed(Ok(false));
    c.on_message_appended(true);
    c.on_run_created(true);
    let d = c.on_status(Ok(RunStatus::Expired));
    assert!(!matches!(d, Directive::FetchNewestMessage));
    assert_eq!(respond_text(d), "Run is expired");
    assert_eq!(c.phase, Phase::Done { outcome: Outcome::Failed });
}

#[test]
fn cancelled_and_failed_and_requires_action_replies() {
    for (status, sentence) in [
        (RunStatus::Cancelled, "Run is cancelled"),
        (RunStatus::Failed, "Run is failed"),
        (RunStatus::RequiresAction, "Action required for OpenAI assistant"),
    ] {
        let mut c = Coordinator::new();
        c.on_runs_listed(Ok(false));
        c.on_message_appended(true);
        c.on_run_created(true);
        let d = c.on_status(Ok(status));
        assert_eq!(respond_text(d), sentence);
        assert_eq!(c.phase, Phase::Done { outcome: Outcome::Failed });
    }
}

#[test]
fn five_nonterminal_polls_time_out() {
    let mut c = Coordinator::new();
    c.on_runs_listed(Ok(false));
    c.on_message_appended(true);
    c.on_run_created(true);
    for status in [
        RunStatus::Queued,
        RunStatus::Queued,
        RunStatus::InProgress,
        RunStatus::Cancelling,
    ] {
        assert!(matches!(c.on_status(Ok(status)), Directive::PauseThenPollRun));
    }
    let d = c.on_status(Ok(RunStatus::InProgress));
    assert_eq!(respond_text(d), "Timeout");
    assert_eq!(c.phase, Phase::Done { outcome: Outcome::TimedOut });
}

#[test]
fn empty_thread_reports_no_messages() {
    let mut c = Coordinator::new();
    c.on_runs_listed(Ok(false));
    c.on_message_appended(true);
    c.on_run_created(true);
    c.on_status(Ok(RunStatus::Completed));
    let d = c.on_messages_fetched(Ok(None));
    assert_eq!(respond_text(d), "No messages found.");
    assert_eq!(c.phase, Phase::Done { outcome: Outcome::Completed });
}

#[test]
fn fetch_error_reports_fixed_sentence() {
    let mut c = Coordinator::new();
    c.on_runs_listed(Ok(false));
    c.on_message_appended(true);
    c.on_run_created(true);
    c.on_status(Ok(RunStatus::Completed));
    let d = c.on_messages_fetched(Err(()));
    assert_eq!(respond_text(d), "Failed to list messages.");
    assert_eq!(c.phase, Phase::Done { outcome: Outcome::Failed });
}

#[test]
fn reply_text_joins_text_segments_with_newlines() {
    let parts = vec![
        Segment::Text(String::from("a")),
        Segment::Text(String::from("b")),
        Segment::Text(String::from("c")),
    ];
    assert_eq!(reply_text(&parts), "a\nb\nc");
}

#[test]
fn reply_text_ignores_non_text_segments() {
    let parts = vec![Segment::Other, Segment::Text(String::from("only")), Segment::Other];
    assert_eq!(reply_text(&parts), "only");
}

#[test]
fn reply_text_of_nothing_is_empty() {
    assert_eq!(reply_text(&Vec::new()), "");
    assert_eq!(reply_text(&vec![Segment::Other, Segment::Other]), "");
}
