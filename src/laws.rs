use vstd::prelude::*;
use crate::messages::{AnswerValue, ClientMessage, EventModel};
use crate::processor::{next_state, published};
use crate::quiz_state::QuizModel;
use crate::tally::{count_in, incremented, incremented_all};

verus! {

/// The session after the messages `msgs`, applied in order from `s`.
pub open spec fn run(s: QuizModel, msgs: Seq<ClientMessage>) -> QuizModel
    decreases msgs.len(),
{
    if msgs.len() == 0 {
        s
    } else {
        next_state(run(s, msgs.drop_last()), msgs.last())
    }
}

/// After any non-empty series of `set_slide` messages, a client that joins is
/// first sent the slide of the last one.
pub proof fn lemma_join_reports_last_slide(
    s: QuizModel,
    slides: Seq<u32>,
    role: String,
    session_id: String,
)
    requires
        slides.len() > 0,
    ensures
        published(
            run(s, slides.map_values(|x: u32| ClientMessage::SetSlide { slide: x })),
            ClientMessage::Join { role, session_id },
        )[0] == (EventModel::Slide { slide: slides.last() }),
{
}

/// The messages that answer `label` to the question `question_id`, `n` times.
pub open spec fn repeated_answers(question_id: String, label: String, n: nat) -> Seq<ClientMessage> {
    Seq::new(
        n,
        |i: int|
            ClientMessage::Answer { question_id: question_id, value: AnswerValue::Text(label) },
    )
}

/// `n` answers of `label` to the `language` question raise its count by
/// exactly `n`: none is lost.
pub proof fn lemma_no_lost_answers(s: QuizModel, question_id: String, label: String, n: nat)
    requires
        question_id@ == "language"@,
        count_in(s.language, label@) + n <= u32::MAX,
    ensures
        count_in(run(s, repeated_answers(question_id, label, n)).language, label@) == count_in(
            s.language,
            label@,
        ) + n,
    decreases n,
{
    if n > 0 {
        let msgs = repeated_answers(question_id, label, n);
        assert(msgs.drop_last() =~= repeated_answers(question_id, label, (n - 1) as nat));
        lemma_no_lost_answers(s, question_id, label, (n - 1) as nat);
    } else {
        assert(repeated_answers(question_id, label, n) =~= Seq::<ClientMessage>::empty());
    }
}

/// One `exercises` answer `[x, y, x]` counts `x` twice and `y` once, and
/// leaves every other label as it was.
pub proof fn lemma_exercises_count_each_item(
    s: QuizModel,
    question_id: String,
    x: String,
    y: String,
    items: Vec<Option<String>>,
)
    requires
        question_id@ == "exercises"@,
        items@ == seq![Some(x), Some(y), Some(x)],
        x@ != y@,
        count_in(s.exercises, x@) + 2 <= u32::MAX,
        count_in(s.exercises, y@) + 1 <= u32::MAX,
    ensures
        ({
            let t = next_state(
                s,
                ClientMessage::Answer { question_id, value: AnswerValue::List(items) },
            ).exercises;
            &&& count_in(t, x@) == count_in(s.exercises, x@) + 2
            &&& count_in(t, y@) == count_in(s.exercises, y@) + 1
            &&& forall|k: Seq<char>| k != x@ && k != y@ ==> count_in(t, k) == count_in(s.exercises, k)
        }),
{
    let e = s.exercises;
    let one = items@.drop_last().drop_last();
    assert(one =~= seq![Some(x)]);
    assert(one.drop_last() =~= Seq::<Option<String>>::empty());
    assert(incremented_all(e, one.drop_last()) == e);
    assert(one.last() == Some(x));
    assert(items@.drop_last().last() == Some(y));
    assert(items@.last() == Some(x));
    assert(incremented_all(e, one) == incremented(e, x@));
    assert(incremented_all(e, items@.drop_last()) == incremented(incremented(e, x@), y@));
    assert(incremented_all(e, items@) == incremented(incremented(incremented(e, x@), y@), x@));
}

/// Hiding and then showing the results publishes one `results` event each, and
/// both carry the same tallies.
pub proof fn lemma_reveal_republishes(s: QuizModel)
    ensures
        published(s, ClientMessage::RevealResults { show: false }) == seq![
            EventModel::Results {
                show: false,
                language: s.language,
                formality: s.formality,
                exercises: s.exercises,
            },
        ],
        published(
            next_state(s, ClientMessage::RevealResults { show: false }),
            ClientMessage::RevealResults { show: true },
        ) == seq![
            EventModel::Results {
                show: true,
                language: s.language,
                formality: s.formality,
                exercises: s.exercises,
            },
        ],
{
}

/// An answer to a question that is not known changes nothing and publishes
/// nothing.
pub proof fn lemma_unknown_question_ignored(s: QuizModel, question_id: String, value: AnswerValue)
    requires
        question_id@ != "language"@,
        question_id@ != "formality"@,
        question_id@ != "exercises"@,
    ensures
        next_state(s, ClientMessage::Answer { question_id, value }) == s,
        published(s, ClientMessage::Answer { question_id, value }).len() == 0,
{
}

/// Counting a series of items never lowers the count of any label.
pub proof fn lemma_incremented_all_monotone(
    m: Map<Seq<char>, u32>,
    items: Seq<Option<String>>,
    k: Seq<char>,
)
    ensures
        count_in(incremented_all(m, items), k) >= count_in(m, k),
    decreases items.len(),
{
    if items.len() > 0 {
        lemma_incremented_all_monotone(m, items.drop_last(), k);
    }
}

/// No message lowers any count in any of the three tallies.
pub proof fn lemma_counts_never_decrease(s: QuizModel, msg: ClientMessage, k: Seq<char>)
    ensures
        count_in(next_state(s, msg).language, k) >= count_in(s.language, k),
        count_in(next_state(s, msg).formality, k) >= count_in(s.formality, k),
        count_in(next_state(s, msg).exercises, k) >= count_in(s.exercises, k),
{
    if let ClientMessage::Answer { value: AnswerValue::List(items), .. } = msg {
        lemma_incremented_all_monotone(s.exercises, items@, k);
    }
}

} // verus!
