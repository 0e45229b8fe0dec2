//! Bringing back missing default plans from the templates that Windows keeps.
//!
//! Each missing plan is duplicated under its well-known GUID, and the duplicate is given the plan's
//! name and description.
use vstd::prelude::*;

use crate::commands;
use crate::commands::{duplicate_power_plan, update_power_plan_metadata, CommandLine};
use crate::guid;
use crate::guid::parse_guid;
use crate::outcomes;
use crate::outcomes::{
    count_successes, failure_texts, labels_of_successes, outcome_from, Answer, Outcome,
};
use crate::plans;
use crate::plans::DefaultPowerPlan;
use crate::regexes;
use crate::text;

verus! {

/// How far the duplication of some default plans has come: the plan behind the known outcomes is
/// being duplicated or, once its duplicate is there, renamed.
#[derive(Debug)]
pub struct DuplicateTask {
    /// The plans to bring back.
    pub defaults: Vec<DefaultPowerPlan>,
    /// What became of the first of them.
    pub outcomes: Vec<Outcome>,
    /// Whether the next of them is being renamed.
    pub renaming: bool,
}

/// The contents of a [`DuplicateTask`].
pub struct DuplicateView {
    /// The plans to bring back.
    pub defaults: Seq<plans::DefaultView>,
    /// What became of the first of them.
    pub outcomes: Seq<outcomes::OutcomeView>,
    /// Whether the next of them is being renamed.
    pub renaming: bool,
}

impl View for DuplicateTask {
    type V = DuplicateView;

    open spec fn view(&self) -> DuplicateView {
        DuplicateView {
            defaults: plans::default_views(self.defaults@),
            outcomes: outcomes::outcome_views(self.outcomes@),
            renaming: self.renaming,
        }
    }
}

impl DuplicateView {
    /// There is a plan left to bring back.
    pub open spec fn wf(self) -> bool {
        self.outcomes.len() < self.defaults.len()
    }
}

/// What comes next in the duplication.
#[derive(Debug)]
pub enum DuplicateStep {
    /// An order to give, with which the duplication goes on.
    Ask(CommandLine, DuplicateTask),
    /// The plans and what became of each.
    Done(Vec<DefaultPowerPlan>, Vec<Outcome>),
}

/// The contents of a [`DuplicateStep`].
pub enum DuplicateStepView {
    /// An order to give.
    Ask(commands::CommandView, DuplicateView),
    /// The plans and what became of each.
    Done(Seq<plans::DefaultView>, Seq<outcomes::OutcomeView>),
}

impl View for DuplicateStep {
    type V = DuplicateStepView;

    open spec fn view(&self) -> DuplicateStepView {
        match self {
            DuplicateStep::Ask(command, task) => DuplicateStepView::Ask(command@, task@),
            DuplicateStep::Done(defaults, results) => DuplicateStepView::Done(
                plans::default_views(defaults@),
                outcomes::outcome_views(results@),
            ),
        }
    }
}

impl DuplicateStepView {
    /// The duplication can go on, or it tells of each plan.
    pub open spec fn wf(self) -> bool {
        match self {
            DuplicateStepView::Ask(_, task) => task.wf(),
            DuplicateStepView::Done(defaults, results) => results.len() == defaults.len(),
        }
    }
}

/// What comes next once it is known what became of the first plans.
pub open spec fn duplicate_on(
    defaults: Seq<plans::DefaultView>,
    results: Seq<outcomes::OutcomeView>,
) -> DuplicateStepView {
    if results.len() < defaults.len() {
        DuplicateStepView::Ask(
            commands::duplicate_command(defaults[results.len() as int].guid),
            DuplicateView { defaults, outcomes: results, renaming: false },
        )
    } else {
        DuplicateStepView::Done(defaults, results)
    }
}

/// The order that follows the duplication of one plan: to give the duplicate, where its GUID was
/// printed, the plan's name and description.
pub open spec fn rename_after(
    default_plan: plans::DefaultView,
    answer: outcomes::AnswerView,
) -> Result<Option<commands::CommandView>, Seq<char>> {
    match answer {
        Ok(output) => match guid::guid_in(output) {
            Some(new_guid) => Ok(
                Some(
                    commands::rename_command(
                        new_guid,
                        default_plan.name,
                        Some(default_plan.description),
                    ),
                ),
            ),
            None => Ok(None),
        },
        Err(error) => Err(error),
    }
}

/// What comes next in the duplication, by the answer to the last order.
pub open spec fn duplicate_next(
    task: DuplicateView,
    answer: outcomes::AnswerView,
) -> DuplicateStepView {
    if task.renaming {
        duplicate_on(task.defaults, task.outcomes.push(outcomes::outcome_of(answer)))
    } else {
        match rename_after(task.defaults[task.outcomes.len() as int], answer) {
            Ok(Some(command)) => DuplicateStepView::Ask(
                command,
                DuplicateView { renaming: true, ..task },
            ),
            Ok(None) => duplicate_on(task.defaults, task.outcomes.push(Ok(()))),
            Err(error) => duplicate_on(task.defaults, task.outcomes.push(Err(error))),
        }
    }
}

/// What is known of the search in the answer to the last order.
pub open spec fn answer_known(task: DuplicateView, answer: outcomes::AnswerView) -> bool {
    answer matches Ok(output) ==> !task.renaming ==> regexes::guid_known(output)
}

/// The order that follows the duplication of one plan, by the answer to it.
pub fn duplicate_default_power_plan(default_plan: &DefaultPowerPlan, answer: Answer) -> (r: Result<
    Option<CommandLine>,
    String,
>)
    ensures
        match (r, rename_after(default_plan@, outcomes::answer_view(answer))) {
            (Ok(Some(command)), Ok(Some(wanted))) => command@ == wanted,
            (Ok(None), Ok(None)) => true,
            (Err(error), Err(reason)) => error@ == reason,
            _ => false,
        },
        answer matches Ok(output) ==> regexes::guid_known(output@),
{
    match answer {
        Ok(output) => match parse_guid(output.as_str()) {
            Some(new_guid) => Ok(
                Some(
                    update_power_plan_metadata(
                        new_guid.as_str(),
                        default_plan.name,
                        Some(default_plan.description),
                    ),
                ),
            ),
            None => Ok(None),
        },
        Err(error) => Err(error),
    }
}

/// What comes next once it is known what became of the first plans.
pub fn duplicate_further(defaults: Vec<DefaultPowerPlan>, results: Vec<Outcome>) -> (r:
    DuplicateStep)
    requires
        results.len() <= defaults.len(),
    ensures
        r@ == duplicate_on(plans::default_views(defaults@), outcomes::outcome_views(results@)),
        r@.wf(),
{
    if results.len() < defaults.len() {
        let order = duplicate_power_plan(defaults[results.len()].guid);
        DuplicateStep::Ask(order, DuplicateTask { defaults, outcomes: results, renaming: false })
    } else {
        DuplicateStep::Done(defaults, results)
    }
}

/// The start of the duplication of some default plans.
pub fn duplicate_defaults(defaults: Vec<DefaultPowerPlan>) -> (r: DuplicateStep)
    ensures
        r@ == duplicate_on(plans::default_views(defaults@), Seq::empty()),
        r@.wf(),
{
    let results: Vec<Outcome> = Vec::new();
    assert(outcomes::outcome_views(results@) =~= Seq::empty());
    duplicate_further(defaults, results)
}

impl DuplicateTask {
    /// Goes on with the duplication.
    pub fn resume(self, answer: Answer) -> (r: DuplicateStep)
        requires
            self@.wf(),
        ensures
            r@ == duplicate_next(self@, outcomes::answer_view(answer)),
            r@.wf(),
            answer_known(self@, outcomes::answer_view(answer)),
    {
        let DuplicateTask { defaults, outcomes: results, renaming } = self;
        let mut results = results;
        let ghost before = results@;
        if renaming {
            results.push(outcome_from(answer));
        } else {
            match duplicate_default_power_plan(&defaults[results.len()], answer) {
                Ok(Some(command)) => {
                    return DuplicateStep::Ask(
                        command,
                        DuplicateTask { defaults, outcomes: results, renaming: true },
                    );
                },
                Ok(None) => results.push(Ok(())),
                Err(error) => results.push(Err(error)),
            }
        }
        assert(outcomes::outcome_views(results@) =~= outcomes::outcome_views(before).push(
            outcomes::outcome_view(results@.last()),
        ));
        duplicate_further(defaults, results)
    }
}

/// The names of some default plans.
pub open spec fn default_names(defaults: Seq<plans::DefaultView>) -> Seq<Seq<char>> {
    Seq::new(defaults.len(), |i: int| defaults[i].name)
}

/// The names of some default plans.
pub fn names_of_defaults(defaults: &Vec<DefaultPowerPlan>) -> (r: Vec<String>)
    ensures
        text::views(r@) == default_names(plans::default_views(defaults@)),
        r.len() == defaults.len(),
{
    let mut r: Vec<String> = Vec::new();
    let mut i: usize = 0;
    while i < defaults.len()
        invariant
            i <= defaults.len(),
            r.len() == i,
            forall|k: int| 0 <= k < i ==> (#[trigger] r[k])@ == defaults[k]@.name,
        decreases defaults.len() - i,
    {
        r.push(defaults[i].name.to_owned());
        i = i + 1;
    }
    assert(text::views(r@) =~= default_names(plans::default_views(defaults@)));
    r
}

/// The report on the duplication of some default plans: an error as soon as one of them failed.
pub open spec fn enable_report(
    defaults: Seq<plans::DefaultView>,
    results: Seq<outcomes::OutcomeView>,
) -> outcomes::AnswerView {
    let names = default_names(defaults);
    let failed = outcomes::failures(names, results);
    let enabled = "Enabled "@ + text::decimal(outcomes::successes(results));
    if failed.len() == 0 {
        Ok(
            enabled + " default Windows power plan(s): "@ + text::joined(
                outcomes::success_labels(names, results),
                ", "@,
            ),
        )
    } else {
        Err(
            enabled + " default plan(s); "@ + text::decimal(failed.len()) + " failed\n"@
                + text::joined(failed, "\n"@),
        )
    }
}

/// The report on the duplication of some default plans.
pub fn enable_missing_duplicate_templates(
    defaults: &Vec<DefaultPowerPlan>,
    results: &Vec<Outcome>,
) -> (r: Answer)
    requires
        results.len() == defaults.len(),
    ensures
        outcomes::answer_view(r) == enable_report(
            plans::default_views(defaults@),
            outcomes::outcome_views(results@),
        ),
{
    let names = names_of_defaults(defaults);
    let failed = failure_texts(&names, results);
    let count = count_successes(results);
    let enabled = "Enabled ".to_owned().concat(text::decimal_of(count).as_str());
    assert(text::views(failed@).len() == failed.len());
    if failed.len() == 0 {
        let done = labels_of_successes(&names, results);
        Ok(
            enabled.concat(" default Windows power plan(s): ").concat(
                text::join(&done, ", ").as_str(),
            ),
        )
    } else {
        Err(
            enabled.concat(" default plan(s); ").concat(
                text::decimal_of(failed.len()).as_str(),
            ).concat(" failed\n").concat(text::join(&failed, "\n").as_str()),
        )
    }
}

/// The duplication succeeds as a whole exactly where it succeeded for each plan.
pub proof fn law_enable_report(
    defaults: Seq<plans::DefaultView>,
    results: Seq<outcomes::OutcomeView>,
)
    ensures
        enable_report(defaults, results) is Ok <==> outcomes::all_done(results),
{
    outcomes::law_successes_and_failures(default_names(defaults), results);
}

/// What the duplication of some default plans has come to after some answers.
pub open spec fn duplicate_after(
    defaults: Seq<plans::DefaultView>,
    answers: Seq<outcomes::AnswerView>,
) -> DuplicateStepView
    decreases answers.len(),
{
    if answers.len() == 0 {
        duplicate_on(defaults, Seq::empty())
    } else {
        match duplicate_after(defaults, answers.drop_last()) {
            DuplicateStepView::Ask(_, task) => duplicate_next(task, answers.last()),
            DuplicateStepView::Done(all, results) => DuplicateStepView::Done(all, results),
        }
    }
}

/// The outcomes that are known at a step.
pub open spec fn known_outcomes(step: DuplicateStepView) -> Seq<outcomes::OutcomeView> {
    match step {
        DuplicateStepView::Ask(_, task) => task.outcomes,
        DuplicateStepView::Done(_, results) => results,
    }
}

/// After `at` of the answers the duplicate of the `k`th plan is asked for, with an outcome known for
/// each plan before it and for no other.
pub open spec fn asks_duplicate(
    defaults: Seq<plans::DefaultView>,
    answers: Seq<outcomes::AnswerView>,
    at: int,
    k: int,
) -> bool {
    duplicate_after(defaults, answers.take(at)) matches DuplicateStepView::Ask(command, task)
        && command == duplicate_command_of(defaults, k) && task.outcomes.len() == k
        && !task.renaming
}

/// The order to duplicate the `k`th plan.
pub open spec fn duplicate_command_of(
    defaults: Seq<plans::DefaultView>,
    k: int,
) -> commands::CommandView {
    commands::duplicate_command(defaults[k].guid)
}

/// What becomes of a plan whose duplicate is asked for after `at` of the answers: it fails where the
/// duplication fails; where a GUID was printed the order to rename the duplicate follows, and its
/// outcome counts; else all is done.
pub open spec fn outcome_at(
    default_plan: plans::DefaultView,
    answers: Seq<outcomes::AnswerView>,
    at: int,
) -> outcomes::OutcomeView {
    match rename_after(default_plan, answers[at]) {
        Ok(Some(_)) => outcomes::outcome_of(answers[at + 1]),
        Ok(None) => Ok(()),
        Err(error) => Err(error),
    }
}

/// What holds at each step of a duplication.
proof fn lemma_duplication(
    defaults: Seq<plans::DefaultView>,
    answers: Seq<outcomes::AnswerView>,
)
    ensures
        match duplicate_after(defaults, answers) {
            DuplicateStepView::Ask(command, task) => {
                &&& task.defaults == defaults
                &&& task.wf()
                &&& !task.renaming ==> command == duplicate_command_of(
                    defaults,
                    task.outcomes.len() as int,
                )
            },
            DuplicateStepView::Done(all, results) => all == defaults && results.len()
                == defaults.len(),
        },
    decreases answers.len(),
{
    if answers.len() > 0 {
        lemma_duplication(defaults, answers.drop_last());
    }
}

/// How far a duplication that goes on has come.
spec fn progress(step: DuplicateStepView) -> int {
    match step {
        DuplicateStepView::Ask(_, task) => 2 * task.outcomes.len() + if task.renaming {
            1int
        } else {
            0int
        },
        DuplicateStepView::Done(_, _) => 0,
    }
}

proof fn lemma_progress(
    defaults: Seq<plans::DefaultView>,
    answers: Seq<outcomes::AnswerView>,
    at: int,
)
    requires
        0 <= at < answers.len(),
        duplicate_after(defaults, answers) is Ask,
    ensures
        duplicate_after(defaults, answers.take(at)) is Ask,
        progress(duplicate_after(defaults, answers.take(at))) < progress(
            duplicate_after(defaults, answers),
        ),
    decreases answers.len(),
{
    let shorter = answers.drop_last();
    lemma_duplication(defaults, shorter);
    if at == shorter.len() {
        assert(answers.take(at) == shorter);
    } else {
        assert(answers.take(at) == shorter.take(at));
        lemma_progress(defaults, shorter, at);
    }
}

/// The place of the order to duplicate the `k`th plan, once the outcome for that plan is known.
proof fn lemma_duplicated(
    defaults: Seq<plans::DefaultView>,
    answers: Seq<outcomes::AnswerView>,
    k: int,
) -> (at: int)
    requires
        0 <= k < known_outcomes(duplicate_after(defaults, answers)).len(),
    ensures
        0 <= at < answers.len(),
        asks_duplicate(defaults, answers, at, k),
        rename_after(defaults[k], answers[at]) matches Ok(Some(command)) ==> {
            &&& at + 1 < answers.len()
            &&& duplicate_after(defaults, answers.take(at + 1)) matches DuplicateStepView::Ask(
                asked,
                _,
            ) && asked == command
        },
        known_outcomes(duplicate_after(defaults, answers))[k] == outcome_at(
            defaults[k],
            answers,
            at,
        ),
    decreases answers.len(),
{
    let shorter = answers.drop_last();
    let before = duplicate_after(defaults, shorter);
    lemma_duplication(defaults, shorter);
    let n = shorter.len() as int;
    assert(answers.take(n) == shorter);
    if k < known_outcomes(before).len() {
        let at = lemma_duplicated(defaults, shorter, k);
        assert(answers.take(at) == shorter.take(at));
        if at + 1 < n {
            assert(answers.take(at + 1) == shorter.take(at + 1));
        }
        at
    } else if before->Ask_1.renaming {
        let at = n - 1;
        lemma_renaming(defaults, shorter);
        assert(answers.take(at) == shorter.drop_last());
        assert(answers[at] == shorter.last());
        at
    } else {
        n
    }
}

/// A plan is renamed right after its duplicate was asked for and a GUID was printed.
proof fn lemma_renaming(defaults: Seq<plans::DefaultView>, answers: Seq<outcomes::AnswerView>)
    requires
        duplicate_after(defaults, answers) matches DuplicateStepView::Ask(_, task)
            && task.renaming,
    ensures
        answers.len() > 0,
        duplicate_after(defaults, answers) matches DuplicateStepView::Ask(asked, task) && {
            let k = task.outcomes.len() as int;
            &&& duplicate_after(defaults, answers.drop_last()) matches DuplicateStepView::Ask(
                command,
                before,
            ) && command == duplicate_command_of(defaults, k) && before.outcomes == task.outcomes
                && !before.renaming
            &&& rename_after(defaults[k], answers.last()) == Ok::<_, Seq<char>>(Some(asked))
        },
{
    lemma_duplication(defaults, answers.drop_last());
}

/// Each plan is dealt with once, in order, whatever became of those before it. Once an outcome is
/// known for the `k`th plan there is exactly one place where its duplicate was asked for, with an
/// outcome known for each plan before it; the outcome is what the answers from there on say; and
/// where a GUID was printed the duplicate was asked to be renamed next.
pub proof fn law_each_default_is_duplicated_once(
    defaults: Seq<plans::DefaultView>,
    answers: Seq<outcomes::AnswerView>,
    k: int,
)
    requires
        0 <= k < known_outcomes(duplicate_after(defaults, answers)).len(),
    ensures
        exists|at: int|
            0 <= at < answers.len() && #[trigger] asks_duplicate(defaults, answers, at, k)
                && known_outcomes(duplicate_after(defaults, answers))[k] == outcome_at(
                defaults[k],
                answers,
                at,
            ) && (rename_after(defaults[k], answers[at]) matches Ok(Some(command)) ==> (
            duplicate_after(defaults, answers.take(at + 1)) matches DuplicateStepView::Ask(
                asked,
                _,
            ) && asked == command)),
        forall|a: int, b: int|
            0 <= a < b <= answers.len() && #[trigger] asks_duplicate(defaults, answers, a, k)
                ==> !#[trigger] asks_duplicate(defaults, answers, b, k),
{
    let at = lemma_duplicated(defaults, answers, k);
    assert(asks_duplicate(defaults, answers, at, k));
    assert forall|a: int, b: int|
        0 <= a < b <= answers.len() && #[trigger] asks_duplicate(
            defaults,
            answers,
            a,
            k,
        ) implies !#[trigger] asks_duplicate(defaults, answers, b, k) by {
        if asks_duplicate(defaults, answers, b, k) {
            lemma_progress(defaults, answers.take(b), a);
            assert(answers.take(b).take(a) == answers.take(a));
        }
    }
}

/// While some plans have no outcome the duplication goes on with the first of them: its duplicate or
/// the duplicate's name is asked for. It is over once there is an outcome for each plan.
pub proof fn law_duplication_goes_through_all(
    defaults: Seq<plans::DefaultView>,
    answers: Seq<outcomes::AnswerView>,
)
    ensures
        match duplicate_after(defaults, answers) {
            DuplicateStepView::Ask(command, task) => {
                let k = task.outcomes.len() as int;
                &&& k < defaults.len()
                &&& !task.renaming ==> command == duplicate_command_of(defaults, k)
                &&& task.renaming ==> rename_after(defaults[k], answers.last()) == Ok::<
                    _,
                    Seq<char>,
                >(Some(command))
            },
            DuplicateStepView::Done(all, results) => all == defaults && results.len()
                == defaults.len(),
        },
{
    lemma_duplication(defaults, answers);
    if let DuplicateStepView::Ask(_, task) = duplicate_after(defaults, answers) {
        if task.renaming {
            lemma_renaming(defaults, answers);
        }
    }
}

} // verus!
