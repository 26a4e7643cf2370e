use quiz_session::connection::{on_inbound, on_received, on_written, Inbound, Received, ReaderAction, RelayAction};
use quiz_session::messages::{AnswerValue, ClientMessage, ServerEvent};
use quiz_session::processor::{handle_client_message, snapshot_results};
use quiz_session::quiz_state::QuizState;
use quiz_session::tally::Tally;

fn text(s: &str) -> String {
    s.to_string()
}

fn answer(question_id: &str, value: AnswerValue) -> ClientMessage {
    ClientMessage::Answer { question_id: text(question_id), value }
}

fn join() -> ClientMessage {
    ClientMessage::Join { role: text("viewer"), session_id: text("s1") }
}

fn sorted_pairs(t: &Tally) -> Vec<(String, u32)> {
    let mut p = t.pairs();
    p.sort();
    p
}

fn expect_slide(e: &ServerEvent) -> u32 {
    match e {
        ServerEvent::Slide { slide } => *slide,
        ServerEvent::Results { .. } => panic!("expected a slide event"),
    }
}

type Results = (bool, Vec<(String, u32)>, Vec<(String, u32)>, Vec<(String, u32)>);

fn expect_results(e: &ServerEvent) -> Results {
    match e {
        ServerEvent::Results { show, language, formality, exercises } => (
            *show,
            sorted_pairs(language),
            sorted_pairs(formality),
            sorted_pairs(exercises),
        ),
        ServerEvent::Slide { .. } => panic!("expected a results event"),
    }
}

#[test]
fn new_state_is_empty() {
    let q = QuizState::new();
    assert_eq!(q.current_slide, 0);
    assert!(!q.show_results);
    assert_eq!(q.language.len(), 0);
    assert_eq!(q.formality.len(), 0);
    assert_eq!(q.exercises.len(), 0);
}

#[test]
fn set_slide_updates_and_publishes_slide() {
    let mut q = QuizState::new();
    let ev = handle_client_message(ClientMessage::SetSlide { slide: 7 }, &mut q);
    assert_eq!(q.current_slide, 7);
    assert_eq!(ev.len(), 1);
    assert_eq!(expect_slide(&ev[0]), 7);
}

#[test]
fn join_reports_last_slide() {
    let mut q = QuizState::new();
    for s in [3u32, 9, 4] {
        handle_client_message(ClientMessage::SetSlide { slide: s }, &mut q);
    }
    let ev = handle_client_message(join(), &mut q);
    assert_eq!(ev.len(), 2);
    assert_eq!(expect_slide(&ev[0]), 4);
}

#[test]
fn repeated_language_answers_all_counted() {
    let mut q = QuizState::new();
    for _ in 0..50 {
        handle_client_message(answer("language", AnswerValue::Text(text("A"))), &mut q);
    }
    assert_eq!(q.language.count_of(&text("A")), 50);
}

#[test]
fn exercises_counts_each_item() {
    let mut q = QuizState::new();
    let items = vec![Some(text("x")), Some(text("y")), Some(text("x"))];
    handle_client_message(answer("exercises", AnswerValue::List(items)), &mut q);
    assert_eq!(q.exercises.count_of(&text("x")), 2);
    assert_eq!(q.exercises.count_of(&text("y")), 1);
    assert_eq!(q.exercises.count_of(&text("z")), 0);
    assert_eq!(q.exercises.len(), 2);
}

#[test]
fn exercises_skip_non_text_items() {
    let mut q = QuizState::new();
    let items = vec![Some(text("x")), None, Some(text("y")), None];
    handle_client_message(answer("exercises", AnswerValue::List(items)), &mut q);
    assert_eq!(sorted_pairs(&q.exercises), vec![(text("x"), 1), (text("y"), 1)]);
}

#[test]
fn reveal_false_then_true_republishes() {
    let mut q = QuizState::new();
    handle_client_message(answer("formality", AnswerValue::Text(text("du"))), &mut q);
    let first = handle_client_message(ClientMessage::RevealResults { show: false }, &mut q);
    let second = handle_client_message(ClientMessage::RevealResults { show: true }, &mut q);
    assert_eq!(first.len(), 1);
    assert_eq!(second.len(), 1);
    let (show1, l1, f1, e1) = expect_results(&first[0]);
    let (show2, l2, f2, e2) = expect_results(&second[0]);
    assert!(!show1);
    assert!(show2);
    assert_eq!(l1, l2);
    assert_eq!(f1, f2);
    assert_eq!(e1, e2);
    assert_eq!(f1, vec![(text("du"), 1)]);
}

#[test]
fn unknown_question_changes_nothing() {
    let mut q = QuizState::new();
    handle_client_message(ClientMessage::RevealResults { show: true }, &mut q);
    let ev = handle_client_message(answer("color", AnswerValue::Text(text("red"))), &mut q);
    assert!(ev.is_empty());
    assert_eq!(q.language.len(), 0);
    assert_eq!(q.formality.len(), 0);
    assert_eq!(q.exercises.len(), 0);
}

#[test]
fn mismatched_shape_is_ignored() {
    let mut q = QuizState::new();
    handle_client_message(ClientMessage::RevealResults { show: true }, &mut q);
    let a = handle_client_message(answer("language", AnswerValue::List(vec![Some(text("en"))])), &mut q);
    let b = handle_client_message(answer("exercises", AnswerValue::Text(text("x"))), &mut q);
    let c = handle_client_message(answer("formality", AnswerValue::Other), &mut q);
    assert!(a.is_empty() && b.is_empty() && c.is_empty());
    assert_eq!(q.language.len(), 0);
    assert_eq!(q.exercises.len(), 0);
    assert_eq!(q.formality.len(), 0);
}

#[test]
fn answer_before_reveal_publishes_nothing() {
    let mut q = QuizState::new();
    let ev = handle_client_message(answer("language", AnswerValue::Text(text("de"))), &mut q);
    assert!(ev.is_empty());
    assert_eq!(q.language.count_of(&text("de")), 1);
}

#[test]
fn answer_after_reveal_publishes_results() {
    let mut q = QuizState::new();
    handle_client_message(ClientMessage::RevealResults { show: true }, &mut q);
    let ev = handle_client_message(answer("language", AnswerValue::Text(text("de"))), &mut q);
    assert_eq!(ev.len(), 1);
    let (show, l, f, e) = expect_results(&ev[0]);
    assert!(show);
    assert_eq!(l, vec![(text("de"), 1)]);
    assert!(f.is_empty() && e.is_empty());
}

#[test]
fn join_scenario_sends_slide_then_results() {
    let mut q = QuizState::new();
    handle_client_message(ClientMessage::SetSlide { slide: 1 }, &mut q);
    handle_client_message(ClientMessage::SetSlide { slide: 2 }, &mut q);
    handle_client_message(ClientMessage::RevealResults { show: true }, &mut q);
    handle_client_message(answer("language", AnswerValue::Text(text("en"))), &mut q);
    let ev = handle_client_message(join(), &mut q);
    assert_eq!(ev.len(), 2);
    assert_eq!(expect_slide(&ev[0]), 2);
    let (show, l, f, e) = expect_results(&ev[1]);
    assert!(show);
    assert_eq!(l, vec![(text("en"), 1)]);
    assert!(f.is_empty());
    assert!(e.is_empty());
}

#[test]
fn join_changes_nothing() {
    let mut q = QuizState::new();
    handle_client_message(ClientMessage::SetSlide { slide: 5 }, &mut q);
    handle_client_message(join(), &mut q);
    assert_eq!(q.current_slide, 5);
    assert!(!q.show_results);
}

#[test]
fn snapshot_copies_session() {
    let mut q = QuizState::new();
    handle_client_message(ClientMessage::SetSlide { slide: 3 }, &mut q);
    handle_client_message(answer("language", AnswerValue::Text(text("en"))), &mut q);
    let snap = snapshot_results(&q);
    handle_client_message(answer("language", AnswerValue::Text(text("en"))), &mut q);
    assert_eq!(snap.current_slide, 3);
    assert!(!snap.show_results);
    assert_eq!(snap.language.count_of(&text("en")), 1);
    assert_eq!(q.language.count_of(&text("en")), 2);
}

#[test]
fn malformed_frame_keeps_connection_and_state() {
    let mut q = QuizState::new();
    handle_client_message(ClientMessage::SetSlide { slide: 2 }, &mut q);
    let (action, ev) = on_inbound(Inbound::Malformed, &mut q);
    assert_eq!(action, ReaderAction::Continue);
    assert!(ev.is_empty());
    assert_eq!(q.current_slide, 2);
    let (action, ev) = on_inbound(Inbound::NonText, &mut q);
    assert_eq!(action, ReaderAction::Continue);
    assert!(ev.is_empty());
}

#[test]
fn parsed_frame_is_applied() {
    let mut q = QuizState::new();
    let (action, ev) = on_inbound(Inbound::Message(ClientMessage::SetSlide { slide: 8 }), &mut q);
    assert_eq!(action, ReaderAction::Continue);
    assert_eq!(ev.len(), 1);
    assert_eq!(q.current_slide, 8);
}

#[test]
fn ended_transport_stops_reader() {
    let mut q = QuizState::new();
    let (action, ev) = on_inbound(Inbound::Ended, &mut q);
    assert_eq!(action, ReaderAction::Stop);
    assert!(ev.is_empty());
}

#[test]
fn relay_skips_lag_and_stops_on_close() {
    assert_eq!(on_received(Received::Lagged(3)), RelayAction::Skip);
    assert_eq!(on_received(Received::Closed), RelayAction::Stop);
    assert_eq!(on_received(Received::Event), RelayAction::Send);
    assert_eq!(on_written(true), RelayAction::Skip);
    assert_eq!(on_written(false), RelayAction::Stop);
}

#[test]
fn tally_increment_and_copy() {
    let mut t = Tally::new();
    t.increment(text("a"));
    t.increment(text("b"));
    t.increment(text("a"));
    let c = t.duplicate();
    t.increment(text("b"));
    assert_eq!(sorted_pairs(&c), vec![(text("a"), 2), (text("b"), 1)]);
    assert_eq!(sorted_pairs(&t), vec![(text("a"), 2), (text("b"), 2)]);
}
