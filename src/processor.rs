use vstd::prelude::*;
use crate::messages::{AnswerValue, ClientMessage, EventModel, ServerEvent};
use crate::quiz_state::{QuizModel, QuizState};
use crate::tally::{incremented, incremented_all, Tally};

verus! {

/// Whether an answer names a known question and has the shape that question
/// takes: one text for `language` and `formality`, an array for `exercises`.
pub open spec fn answer_accepted(question_id: Seq<char>, value: AnswerValue) -> bool {
    match value {
        AnswerValue::Text(_) => question_id == "language"@ || question_id == "formality"@,
        AnswerValue::List(_) => question_id == "exercises"@,
        AnswerValue::Other => false,
    }
}

/// The session after an answer: the matching tally counts it; an answer that
/// is not accepted changes nothing.
pub open spec fn answered(s: QuizModel, question_id: Seq<char>, value: AnswerValue) -> QuizModel {
    match value {
        AnswerValue::Text(t) => if question_id == "language"@ {
            QuizModel { language: incremented(s.language, t@), ..s }
        } else if question_id == "formality"@ {
            QuizModel { formality: incremented(s.formality, t@), ..s }
        } else {
            s
        },
        AnswerValue::List(items) => if question_id == "exercises"@ {
            QuizModel { exercises: incremented_all(s.exercises, items@), ..s }
        } else {
            s
        },
        AnswerValue::Other => s,
    }
}

/// The session after one message.
pub open spec fn next_state(s: QuizModel, msg: ClientMessage) -> QuizModel {
    match msg {
        ClientMessage::Join { .. } => s,
        ClientMessage::SetSlide { slide } => QuizModel { current_slide: slide, ..s },
        ClientMessage::Answer { question_id, value } => answered(s, question_id@, value),
        ClientMessage::RevealResults { show } => QuizModel { show_results: show, ..s },
    }
}

/// The `results` event that shows the session `s`.
pub open spec fn results_of(s: QuizModel) -> EventModel {
    EventModel::Results {
        show: s.show_results,
        language: s.language,
        formality: s.formality,
        exercises: s.exercises,
    }
}

/// The events that one message publishes, in order, from the session `s`.
pub open spec fn published(s: QuizModel, msg: ClientMessage) -> Seq<EventModel> {
    match msg {
        ClientMessage::Join { .. } => seq![EventModel::Slide { slide: s.current_slide }, results_of(s)],
        ClientMessage::SetSlide { slide } => seq![EventModel::Slide { slide }],
        ClientMessage::Answer { question_id, value } => if answer_accepted(question_id@, value)
            && s.show_results {
            seq![results_of(next_state(s, msg))]
        } else {
            seq![]
        },
        ClientMessage::RevealResults { .. } => seq![results_of(next_state(s, msg))],
    }
}

/// A copy of the session taken at one moment.
pub struct ResultsSnapshot {
    pub current_slide: u32,
    pub show_results: bool,
    pub language: Tally,
    pub formality: Tally,
    pub exercises: Tally,
}

impl View for ResultsSnapshot {
    type V = QuizModel;

    open spec fn view(&self) -> QuizModel {
        QuizModel {
            current_slide: self.current_slide,
            show_results: self.show_results,
            language: self.language@,
            formality: self.formality@,
            exercises: self.exercises@,
        }
    }
}

impl ResultsSnapshot {
    /// All three tallies are well formed.
    pub open spec fn wf(&self) -> bool {
        self.language.wf() && self.formality.wf() && self.exercises.wf()
    }

    /// The `results` event that shows this snapshot.
    pub fn into_results(self) -> (r: ServerEvent)
        requires
            self.wf(),
        ensures
            r.wf(),
            r@ == results_of(self@),
    {
        ServerEvent::Results {
            show: self.show_results,
            language: self.language,
            formality: self.formality,
            exercises: self.exercises,
        }
    }
}

/// Copies out the whole session.
pub fn snapshot_results(q: &QuizState) -> (r: ResultsSnapshot)
    requires
        q.wf(),
    ensures
        r.wf(),
        r@ == q@,
{
    ResultsSnapshot {
        current_slide: q.current_slide,
        show_results: q.show_results,
        language: q.language.duplicate(),
        formality: q.formality.duplicate(),
        exercises: q.exercises.duplicate(),
    }
}

/// Counts an answer in the matching tally; returns whether it was accepted.
fn record_answer(state: &mut QuizState, question_id: &String, value: AnswerValue) -> (accepted: bool)
    requires
        old(state).wf(),
    ensures
        final(state).wf(),
        final(state)@ == answered(old(state)@, question_id@, value),
        accepted == answer_accepted(question_id@, value),
{
    let language = "language".to_owned();
    let formality = "formality".to_owned();
    let exercises = "exercises".to_owned();
    match value {
        AnswerValue::Text(t) => {
            if *question_id == language {
                state.language.increment(t);
                true
            } else if *question_id == formality {
                state.formality.increment(t);
                true
            } else {
                false
            }
        },
        AnswerValue::List(items) => {
            if *question_id == exercises {
                state.exercises.increment_all(&items);
                true
            } else {
                false
            }
        },
        AnswerValue::Other => false,
    }
}

/// Applies one client message to the session and returns the events to
/// publish, in order.
pub fn handle_client_message(msg: ClientMessage, state: &mut QuizState) -> (events: Vec<ServerEvent>)
    requires
        old(state).wf(),
    ensures
        final(state).wf(),
        final(state)@ == next_state(old(state)@, msg),
        events@.map_values(|e: ServerEvent| e@) == published(old(state)@, msg),
        forall|i: int| 0 <= i < events@.len() ==> (#[trigger] events@[i]).wf(),
{
    let ghost msg0 = msg;
    let mut events: Vec<ServerEvent> = Vec::new();
    match msg {
        ClientMessage::Join { .. } => {
            let snap = snapshot_results(state);
            events.push(ServerEvent::Slide { slide: snap.current_slide });
            events.push(snap.into_results());
        },
        ClientMessage::SetSlide { slide } => {
            state.current_slide = slide;
            events.push(ServerEvent::Slide { slide });
        },
        ClientMessage::Answer { question_id, value } => {
            let accepted = record_answer(state, &question_id, value);
            if accepted && state.show_results {
                events.push(snapshot_results(state).into_results());
            }
        },
        ClientMessage::RevealResults { show } => {
            state.show_results = show;
            events.push(snapshot_results(state).into_results());
        },
    }
    assert(events@.map_values(|e: ServerEvent| e@) =~= published(old(state)@, msg0));
    events
}

} // verus!
