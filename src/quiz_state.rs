use vstd::prelude::*;
use crate::tally::Tally;

verus! {

/// The session as a value: slide, reveal flag and the three tallies.
pub struct QuizModel {
    pub current_slide: u32,
    pub show_results: bool,
    pub language: Map<Seq<char>, u32>,
    pub formality: Map<Seq<char>, u32>,
    pub exercises: Map<Seq<char>, u32>,
}

/// The session at its start: slide 0, results hidden, no answers.
pub open spec fn initial_model() -> QuizModel {
    QuizModel {
        current_slide: 0,
        show_results: false,
        language: Map::empty(),
        formality: Map::empty(),
        exercises: Map::empty(),
    }
}

/// The mutable state of the quiz session.
pub struct QuizState {
    pub current_slide: u32,
    pub show_results: bool,
    pub language: Tally,
    pub formality: Tally,
    pub exercises: Tally,
}

impl View for QuizState {
    type V = QuizModel;

    open spec fn view(&self) -> QuizModel {
        QuizModel {
            current_slide: self.current_slide,
            show_results: self.show_results,
            language: self.language@,
            formality: self.formality@,
            exercises: self.exercises@,
        }
    }
}

impl QuizState {
    /// All three tallies are well formed.
    pub open spec fn wf(&self) -> bool {
        self.language.wf() && self.formality.wf() && self.exercises.wf()
    }

    /// A fresh session.
    pub fn new() -> (r: QuizState)
        ensures
            r.wf(),
            r@ == initial_model(),
    {
        QuizState {
            current_slide: 0,
            show_results: false,
            language: Tally::new(),
            formality: Tally::new(),
            exercises: Tally::new(),
        }
    }
}

} // verus!
