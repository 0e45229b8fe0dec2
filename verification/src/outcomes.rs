//! What became of a run of orders: which were carried out, and why the others were not.
use vstd::prelude::*;

use crate::text;

verus! {

/// What became of one order: done, or the reason why not.
pub type Outcome = Result<(), String>;

/// The contents of an [`Outcome`].
pub type OutcomeView = Result<(), Seq<char>>;

/// The contents of an [`Outcome`].
pub open spec fn outcome_view(outcome: Outcome) -> OutcomeView {
    match outcome {
        Ok(_) => Ok(()),
        Err(error) => Err(error@),
    }
}

/// The contents of some outcomes.
pub open spec fn outcome_views(outcomes: Seq<Outcome>) -> Seq<OutcomeView> {
    Seq::new(outcomes.len(), |i: int| outcome_view(outcomes[i]))
}

/// The answer to an order that gives a text, or the reason why it failed.
pub type Answer = Result<String, String>;

/// The contents of an [`Answer`].
pub type AnswerView = Result<Seq<char>, Seq<char>>;

/// The contents of an [`Answer`].
pub open spec fn answer_view(answer: Answer) -> AnswerView {
    match answer {
        Ok(output) => Ok(output@),
        Err(error) => Err(error@),
    }
}

/// What became of an order whose text does not matter.
pub open spec fn outcome_of(answer: AnswerView) -> OutcomeView {
    match answer {
        Ok(_) => Ok(()),
        Err(error) => Err(error),
    }
}

/// What became of an order whose text does not matter.
pub fn outcome_from(answer: Answer) -> (r: Outcome)
    ensures
        outcome_view(r) == outcome_of(answer_view(answer)),
{
    match answer {
        Ok(_) => Ok(()),
        Err(error) => Err(error),
    }
}

/// The number of orders that were carried out.
pub open spec fn successes(outcomes: Seq<OutcomeView>) -> nat
    decreases outcomes.len(),
{
    if outcomes.len() == 0 {
        0
    } else if outcomes.last() is Ok {
        successes(outcomes.drop_last()) + 1
    } else {
        successes(outcomes.drop_last())
    }
}

/// The labels of the orders that were carried out.
pub open spec fn success_labels(
    labels: Seq<Seq<char>>,
    outcomes: Seq<OutcomeView>,
) -> Seq<Seq<char>>
    decreases outcomes.len(),
{
    if outcomes.len() == 0 {
        Seq::empty()
    } else if outcomes.last() is Ok {
        success_labels(labels, outcomes.drop_last()).push(labels[outcomes.len() - 1])
    } else {
        success_labels(labels, outcomes.drop_last())
    }
}

/// Each failed order by its label and the reason.
pub open spec fn failures(labels: Seq<Seq<char>>, outcomes: Seq<OutcomeView>) -> Seq<Seq<char>>
    decreases outcomes.len(),
{
    if outcomes.len() == 0 {
        Seq::empty()
    } else {
        match outcomes.last() {
            Ok(_) => failures(labels, outcomes.drop_last()),
            Err(error) => failures(labels, outcomes.drop_last()).push(
                labels[outcomes.len() - 1] + ": "@ + error,
            ),
        }
    }
}

/// Every order was carried out.
pub open spec fn all_done(outcomes: Seq<OutcomeView>) -> bool {
    forall|i: int| 0 <= i < outcomes.len() ==> (#[trigger] outcomes[i]) is Ok
}

/// Each order counts once, as a success or as a failure; there is no failure exactly where every
/// order was carried out.
pub proof fn law_successes_and_failures(labels: Seq<Seq<char>>, outcomes: Seq<OutcomeView>)
    ensures
        successes(outcomes) + failures(labels, outcomes).len() == outcomes.len(),
        success_labels(labels, outcomes).len() == successes(outcomes),
        failures(labels, outcomes).len() == 0 <==> all_done(outcomes),
    decreases outcomes.len(),
{
    if outcomes.len() > 0 {
        let before = outcomes.drop_last();
        law_successes_and_failures(labels, before);
        if all_done(before) && outcomes.last() is Ok {
            assert forall|i: int| 0 <= i < outcomes.len() implies (
            #[trigger] outcomes[i]) is Ok by {
                if i < before.len() {
                    assert(before[i] is Ok);
                }
            }
        }
        if all_done(outcomes) {
            assert forall|i: int| 0 <= i < before.len() implies (#[trigger] before[i]) is Ok by {
                assert(outcomes[i] is Ok);
            }
        }
    }
}

/// The number of orders that were carried out.
pub fn count_successes(outcomes: &Vec<Outcome>) -> (r: usize)
    ensures
        r == successes(outcome_views(outcomes@)),
        r <= outcomes.len(),
{
    let mut r: usize = 0;
    let mut i: usize = 0;
    let ghost views = outcome_views(outcomes@);
    while i < outcomes.len()
        invariant
            i <= outcomes.len(),
            r <= i,
            views == outcome_views(outcomes@),
            r == successes(views.take(i as int)),
        decreases outcomes.len() - i,
    {
        if outcomes[i].is_ok() {
            r = r + 1;
        }
        i = i + 1;
        assert(views.take(i as int).drop_last() == views.take(i - 1));
    }
    assert(views.take(i as int) == views);
    r
}

/// The labels of the orders that were carried out.
pub fn labels_of_successes(labels: &Vec<String>, outcomes: &Vec<Outcome>) -> (r: Vec<String>)
    requires
        outcomes.len() <= labels.len(),
    ensures
        text::views(r@) == success_labels(text::views(labels@), outcome_views(outcomes@)),
{
    let mut r: Vec<String> = Vec::new();
    let mut i: usize = 0;
    let ghost views = outcome_views(outcomes@);
    let ghost names = text::views(labels@);
    assert(text::views(r@) =~= success_labels(names, views.take(0)));
    while i < outcomes.len()
        invariant
            i <= outcomes.len() <= labels.len(),
            views == outcome_views(outcomes@),
            names == text::views(labels@),
            text::views(r@) == success_labels(names, views.take(i as int)),
        decreases outcomes.len() - i,
    {
        let ghost before = r@;
        if outcomes[i].is_ok() {
            r.push(labels[i].clone());
            assert(text::views(r@) =~= text::views(before).push(names[i as int]));
        }
        i = i + 1;
        assert(views.take(i as int).drop_last() == views.take(i - 1));
    }
    assert(views.take(i as int) == views);
    r
}

/// Each failed order by its label and the reason.
pub fn failure_texts(labels: &Vec<String>, outcomes: &Vec<Outcome>) -> (r: Vec<String>)
    requires
        outcomes.len() <= labels.len(),
    ensures
        text::views(r@) == failures(text::views(labels@), outcome_views(outcomes@)),
{
    let mut r: Vec<String> = Vec::new();
    let mut i: usize = 0;
    let ghost views = outcome_views(outcomes@);
    let ghost names = text::views(labels@);
    assert(text::views(r@) =~= failures(names, views.take(0)));
    while i < outcomes.len()
        invariant
            i <= outcomes.len() <= labels.len(),
            views == outcome_views(outcomes@),
            names == text::views(labels@),
            text::views(r@) == failures(names, views.take(i as int)),
        decreases outcomes.len() - i,
    {
        let ghost before = r@;
        if let Err(error) = &outcomes[i] {
            r.push(labels[i].clone().concat(": ").concat(error.as_str()));
            assert(text::views(r@) =~= text::views(before).push(
                names[i as int] + ": "@ + error@,
            ));
        }
        i = i + 1;
        assert(views.take(i as int).drop_last() == views.take(i - 1));
    }
    assert(views.take(i as int) == views);
    r
}

/// What became of some orders whose texts do not matter.
pub open spec fn outcomes_of(answers: Seq<AnswerView>) -> Seq<OutcomeView> {
    Seq::new(answers.len(), |i: int| outcome_of(answers[i]))
}

} // verus!
