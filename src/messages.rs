use vstd::prelude::*;
use crate::tally::Tally;

verus! {

/// The value of an answer, resolved by shape when the frame was read.
pub enum AnswerValue {
    /// A single text value (single-choice questions).
    Text(String),
    /// An array; each element is `Some` text or `None` for a non-text element.
    List(Vec<Option<String>>),
    /// Any other shape, including a missing value.
    Other,
}

/// A message from a client.
pub enum ClientMessage {
    /// Announces presence; asks for the current slide and results.
    Join { role: String, session_id: String },
    /// Sets the slide that viewers display.
    SetSlide { slide: u32 },
    /// Submits an answer to one of the known questions.
    Answer { question_id: String, value: AnswerValue },
    /// Shows or hides the aggregated results.
    RevealResults { show: bool },
}

/// An event published to every connected client.
pub enum ServerEvent {
    /// The slide to display.
    Slide { slide: u32 },
    /// The reveal flag and the three tallies.
    Results { show: bool, language: Tally, formality: Tally, exercises: Tally },
}

/// What an event says, with the tallies as maps.
pub enum EventModel {
    Slide { slide: u32 },
    Results {
        show: bool,
        language: Map<Seq<char>, u32>,
        formality: Map<Seq<char>, u32>,
        exercises: Map<Seq<char>, u32>,
    },
}

impl View for ServerEvent {
    type V = EventModel;

    open spec fn view(&self) -> EventModel {
        match self {
            ServerEvent::Slide { slide } => EventModel::Slide { slide: *slide },
            ServerEvent::Results { show, language, formality, exercises } => EventModel::Results {
                show: *show,
                language: language@,
                formality: formality@,
                exercises: exercises@,
            },
        }
    }
}

impl ServerEvent {
    /// The tallies an event carries are well formed.
    pub open spec fn wf(&self) -> bool {
        match self {
            ServerEvent::Slide { .. } => true,
            ServerEvent::Results { language, formality, exercises, .. } => language.wf()
                && formality.wf() && exercises.wf(),
        }
    }
}

} // verus!
