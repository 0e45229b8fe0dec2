//! Reading the list of plans.
//!
//! The list takes several questions to Windows: which plan is in force, which plans there are, and
//! the description of each. [`load_power_plans`] gives the first question; each answer goes to
//! [`LoadTask::resume`], which gives the next question or the list.
use vstd::prelude::*;

use crate::commands;
use crate::commands::{active_plan_query, description_query, plan_list_query, CommandLine};
use crate::descriptions;
use crate::descriptions::{parse_plan_name, read_power_plan_description};
use crate::guid;
use crate::guid::{find_guid, parse_guid};
use crate::outcomes;
use crate::outcomes::Answer;
use crate::plans;
use crate::plans::PowerPlan;
use crate::regexes;
use crate::regexes::GUID_PATTERN;
use crate::text;
use crate::text::CharClass;

verus! {

/// A plan as the list shows it: without its description.
#[derive(Debug)]
pub struct ListedPlan {
    /// The plan's GUID.
    pub guid: String,
    /// The plan's name.
    pub name: String,
    /// Whether the plan is the one in force.
    pub active: bool,
}

/// The contents of a [`ListedPlan`].
pub struct ListedView {
    /// The plan's GUID.
    pub guid: Seq<char>,
    /// The plan's name.
    pub name: Seq<char>,
    /// Whether the plan is the one in force.
    pub active: bool,
}

impl View for ListedPlan {
    type V = ListedView;

    open spec fn view(&self) -> ListedView {
        ListedView { guid: self.guid@, name: self.name@, active: self.active }
    }
}

/// The contents of some listed plans.
pub open spec fn listed_views(listed: Seq<ListedPlan>) -> Seq<ListedView> {
    Seq::new(listed.len(), |i: int| listed[i]@)
}

/// The last character of `line` that is not white space is an asterisk, the list's mark of the plan
/// in force.
pub open spec fn is_marked(line: Seq<char>) -> bool {
    let kept = text::cut_end(line, CharClass::White);
    kept.len() > 0 && kept.last() == '*'
}

/// The plan on one line of the list, where the line holds a GUID. It is in force if it is the plan
/// `active` or if the line is marked.
pub open spec fn plan_on_line(line: Seq<char>, active: Option<Seq<char>>) -> Option<ListedView> {
    match regexes::regex_find(GUID_PATTERN@, line) {
        Some((_, guid, after)) => Some(
            ListedView {
                guid: text::lower(guid),
                name: descriptions::plan_name(after),
                active: active == Some(text::lower(guid)) || is_marked(line),
            },
        ),
        None => None,
    }
}

/// The plans in a list that was printed.
pub open spec fn listed_plans(output: Seq<char>, active: Option<Seq<char>>) -> Seq<ListedView> {
    text::lines_of(output).filter_map(|line: Seq<char>| plan_on_line(line, active))
}

/// Each listed plan has a canonical GUID.
pub open spec fn canonical_listed(listed: Seq<ListedView>) -> bool {
    forall|i: int| 0 <= i < listed.len() ==> guid::is_canonical_guid((#[trigger] listed[i]).guid)
}

/// What is known of the searches for a GUID in some lines.
pub open spec fn guids_known(lines: Seq<Seq<char>>) -> bool {
    forall|i: int| 0 <= i < lines.len() ==> regexes::guid_known(#[trigger] lines[i])
}

/// Each plan has a canonical GUID.
pub open spec fn canonical_plans(views: Seq<plans::PlanView>) -> bool {
    forall|i: int| 0 <= i < views.len() ==> guid::is_canonical_guid((#[trigger] views[i]).guid)
}

/// Whether a line of the list is marked as the plan in force.
fn marked(line: &str) -> (r: bool)
    ensures
        r == is_marked(line@),
{
    let kept = text::chars_of(text::cut_end_of(line, CharClass::White).as_str());
    kept.len() > 0 && kept[kept.len() - 1] == '*'
}

/// The plan on one line of the list.
fn plan_of_line(line: &str, active: &Option<String>) -> (r: Option<ListedPlan>)
    ensures
        match (r, plan_on_line(line@, plans::option_view(*active))) {
            (Some(plan), Some(listed)) => plan@ == listed && guid::is_canonical_guid(plan.guid@),
            (None, None) => true,
            _ => false,
        },
        regexes::guid_known(line@),
{
    match find_guid(line) {
        Some(found) => {
            let name = parse_plan_name(line, found.end);
            let named = match active {
                Some(guid) => *guid == found.guid,
                None => false,
            };
            let in_force = named || marked(line);
            Some(ListedPlan { guid: found.guid, name, active: in_force })
        },
        None => None,
    }
}

/// The plans in a list that was printed.
pub fn parse_plan_list(output: &str, active: &Option<String>) -> (r: Vec<ListedPlan>)
    ensures
        listed_views(r@) == listed_plans(output@, plans::option_view(*active)),
        canonical_listed(listed_views(r@)),
        guids_known(text::lines_of(output@)),
{
    let lines = text::lines(output);
    let mut r: Vec<ListedPlan> = Vec::new();
    let mut i: usize = 0;
    let ghost all = text::lines_of(output@);
    let ghost f = |line: Seq<char>| plan_on_line(line, plans::option_view(*active));
    proof {
        reveal(Seq::filter_map);
        assert(listed_views(r@) =~= all.take(0).filter_map(f));
    }
    while i < lines.len()
        invariant
            i <= lines.len(),
            text::views(lines@) == all,
            all == text::lines_of(output@),
            f == (|line: Seq<char>| plan_on_line(line, plans::option_view(*active))),
            listed_views(r@) == all.take(i as int).filter_map(f),
            canonical_listed(listed_views(r@)),
            forall|k: int| 0 <= k < i ==> regexes::guid_known(#[trigger] all[k]),
        decreases lines.len() - i,
    {
        let ghost before = r@;
        assert(all[i as int] == lines[i as int]@);
        if let Some(plan) = plan_of_line(lines[i].as_str(), active) {
            r.push(plan);
            assert(listed_views(r@) =~= listed_views(before) + seq![plan@]);
        }
        i = i + 1;
        proof {
            reveal(Seq::filter_map);
            assert(all.take(i as int).drop_last() == all.take(i - 1));
            assert(all.take(i as int).last() == all[i - 1]);
        }
    }
    assert(all.take(i as int) == all);
    r
}

/// How far the reading of the list has come.
#[derive(Debug)]
pub enum LoadTask {
    /// The plan in force was asked for.
    AskedActive,
    /// The list was asked for; `active` is the plan in force, where it is known.
    AskedList {
        /// The plan in force.
        active: Option<String>,
    },
    /// The description of the listed plan behind the known descriptions was asked for.
    AskedDescription {
        /// The plans of the list.
        listed: Vec<ListedPlan>,
        /// The descriptions that are known.
        known: Vec<String>,
    },
}

/// The contents of a [`LoadTask`].
pub enum LoadView {
    /// The plan in force was asked for.
    AskedActive,
    /// The list was asked for.
    AskedList(Option<Seq<char>>),
    /// A description was asked for.
    AskedDescription(Seq<ListedView>, Seq<Seq<char>>),
}

impl View for LoadTask {
    type V = LoadView;

    open spec fn view(&self) -> LoadView {
        match self {
            LoadTask::AskedActive => LoadView::AskedActive,
            LoadTask::AskedList { active } => LoadView::AskedList(plans::option_view(*active)),
            LoadTask::AskedDescription { listed, known } => LoadView::AskedDescription(
                listed_views(listed@),
                text::views(known@),
            ),
        }
    }
}

impl LoadView {
    /// A description is asked for while one is missing.
    pub open spec fn wf(self) -> bool {
        self matches LoadView::AskedDescription(listed, known) ==> known.len() < listed.len()
            && canonical_listed(listed)
    }
}

/// What comes next in the reading of the list.
#[derive(Debug)]
pub enum LoadStep {
    /// A question to ask, with which the reading goes on.
    Ask(CommandLine, LoadTask),
    /// The list, or why there is none.
    Done(Result<Vec<PowerPlan>, String>),
}

/// The contents of a [`LoadStep`].
pub enum LoadStepView {
    /// A question to ask.
    Ask(commands::CommandView, LoadView),
    /// The list, or why there is none.
    Done(Result<Seq<plans::PlanView>, Seq<char>>),
}

/// The contents of a loaded list.
pub open spec fn loaded_view(loaded: Result<Vec<PowerPlan>, String>) -> Result<
    Seq<plans::PlanView>,
    Seq<char>,
> {
    match loaded {
        Ok(list) => Ok(plans::plan_views(list@)),
        Err(error) => Err(error@),
    }
}

impl View for LoadStep {
    type V = LoadStepView;

    open spec fn view(&self) -> LoadStepView {
        match self {
            LoadStep::Ask(command, task) => LoadStepView::Ask(command@, task@),
            LoadStep::Done(loaded) => LoadStepView::Done(loaded_view(*loaded)),
        }
    }
}

impl LoadStepView {
    /// The reading can go on, or it gave a list with a plan in it, or an error.
    pub open spec fn wf(self) -> bool {
        match self {
            LoadStepView::Ask(_, task) => task.wf(),
            LoadStepView::Done(Ok(list)) => list.len() > 0 && canonical_plans(list),
            LoadStepView::Done(Err(_)) => true,
        }
    }
}

/// The plans of the list with their descriptions.
pub open spec fn with_descriptions(
    listed: Seq<ListedView>,
    known: Seq<Seq<char>>,
) -> Seq<plans::PlanView> {
    Seq::new(
        listed.len(),
        |i: int|
            plans::PlanView {
                guid: listed[i].guid,
                name: listed[i].name,
                description: known[i],
                active: listed[i].active,
            },
    )
}

/// The description of a listed plan, by the answer to the question for it; empty where it could not
/// be read.
pub open spec fn described_by(listed: ListedView, answer: outcomes::AnswerView) -> Seq<char> {
    match answer {
        Ok(output) => descriptions::described(listed.guid, listed.name, output),
        Err(_) => Seq::empty(),
    }
}

/// The plan in force, by the answer to the question for it.
pub open spec fn active_by(answer: outcomes::AnswerView) -> Option<Seq<char>> {
    match answer {
        Ok(output) => guid::guid_in(output),
        Err(_) => None,
    }
}

/// What comes next once the descriptions of `listed` are known as far as `known` goes.
pub open spec fn describe_next(listed: Seq<ListedView>, known: Seq<Seq<char>>) -> LoadStepView {
    if known.len() < listed.len() {
        LoadStepView::Ask(
            commands::description_command(listed[known.len() as int].guid),
            LoadView::AskedDescription(listed, known),
        )
    } else {
        LoadStepView::Done(Ok(with_descriptions(listed, known)))
    }
}

/// What comes next in the reading of the list, by the answer to the last question.
pub open spec fn load_next(task: LoadView, answer: outcomes::AnswerView) -> LoadStepView {
    match task {
        LoadView::AskedActive => LoadStepView::Ask(
            commands::list_command(),
            LoadView::AskedList(active_by(answer)),
        ),
        LoadView::AskedList(active) => match answer {
            Ok(output) => {
                let listed = listed_plans(output, active);
                if listed.len() == 0 {
                    LoadStepView::Done(Err("powercfg did not return any power plans"@))
                } else {
                    describe_next(listed, Seq::empty())
                }
            },
            Err(error) => LoadStepView::Done(Err(error)),
        },
        LoadView::AskedDescription(listed, known) => describe_next(
            listed,
            known.push(described_by(listed[known.len() as int], answer)),
        ),
    }
}

/// What is known of the searches in the answer to the last question.
pub open spec fn answer_known(task: LoadView, answer: outcomes::AnswerView) -> bool {
    answer matches Ok(output) ==> match task {
        LoadView::AskedActive => regexes::guid_known(output),
        LoadView::AskedList(_) => guids_known(text::lines_of(output)),
        LoadView::AskedDescription(listed, known) => {
            let plan = listed[known.len() as int];
            descriptions::is_description(
                plan.guid,
                plan.name,
                output,
                descriptions::described(plan.guid, plan.name, output),
            )
        },
    }
}

/// The reading of the list starts with the question which plan is in force.
pub fn load_power_plans() -> (r: (CommandLine, LoadTask))
    ensures
        r.0@ == commands::active_command(),
        r.1@ == LoadView::AskedActive,
{
    (active_plan_query(), LoadTask::AskedActive)
}

/// The plan in force, taken from the answer to the question for it.
pub fn active_plan_guid(answer: Answer) -> (r: Option<String>)
    ensures
        plans::option_view(r) == active_by(outcomes::answer_view(answer)),
        answer matches Ok(output) ==> regexes::guid_known(output@),
{
    match answer {
        Ok(output) => parse_guid(output.as_str()),
        Err(_) => None,
    }
}

/// The plans of the list with their descriptions.
fn attach_descriptions(listed: Vec<ListedPlan>, known: Vec<String>) -> (r: Vec<PowerPlan>)
    requires
        listed.len() == known.len(),
    ensures
        plans::plan_views(r@) == with_descriptions(listed_views(listed@), text::views(known@)),
{
    let mut r: Vec<PowerPlan> = Vec::new();
    let mut i: usize = 0;
    while i < listed.len()
        invariant
            i <= listed.len() == known.len(),
            r.len() == i,
            forall|k: int|
                0 <= k < i ==> (#[trigger] r[k])@ == with_descriptions(
                    listed_views(listed@),
                    text::views(known@),
                )[k],
        decreases listed.len() - i,
    {
        r.push(
            PowerPlan {
                guid: listed[i].guid.clone(),
                name: listed[i].name.clone(),
                description: known[i].clone(),
                active: listed[i].active,
            },
        );
        i = i + 1;
    }
    assert(plans::plan_views(r@) =~= with_descriptions(
        listed_views(listed@),
        text::views(known@),
    ));
    r
}

/// What comes next once the descriptions of `listed` are known as far as `known` goes.
fn describe_further(listed: Vec<ListedPlan>, known: Vec<String>) -> (r: LoadStep)
    requires
        known.len() <= listed.len(),
        listed.len() > 0,
        canonical_listed(listed_views(listed@)),
    ensures
        r@ == describe_next(listed_views(listed@), text::views(known@)),
        r@.wf(),
{
    if known.len() < listed.len() {
        let question = description_query(listed[known.len()].guid.as_str());
        LoadStep::Ask(question, LoadTask::AskedDescription { listed, known })
    } else {
        let ghost views = listed_views(listed@);
        let list = attach_descriptions(listed, known);
        proof {
            assert(plans::plan_views(list@).len() == views.len());
            assert forall|i: int| 0 <= i < list.len() implies guid::is_canonical_guid(
                (#[trigger] plans::plan_views(list@)[i]).guid,
            ) by {
                assert(guid::is_canonical_guid(views[i].guid));
            }
        }
        LoadStep::Done(Ok(list))
    }
}

impl LoadTask {
    /// Goes on with the reading of the list.
    pub fn resume(self, answer: Answer) -> (r: LoadStep)
        requires
            self@.wf(),
        ensures
            r@ == load_next(self@, outcomes::answer_view(answer)),
            r@.wf(),
            answer_known(self@, outcomes::answer_view(answer)),
    {
        match self {
            LoadTask::AskedActive => LoadStep::Ask(
                plan_list_query(),
                LoadTask::AskedList { active: active_plan_guid(answer) },
            ),
            LoadTask::AskedList { active } => match answer {
                Ok(output) => {
                    let listed = parse_plan_list(output.as_str(), &active);
                    if listed.len() == 0 {
                        LoadStep::Done(Err("powercfg did not return any power plans".to_owned()))
                    } else {
                        let known: Vec<String> = Vec::new();
                        assert(text::views(known@) =~= Seq::empty());
                        describe_further(listed, known)
                    }
                },
                Err(error) => LoadStep::Done(Err(error)),
            },
            LoadTask::AskedDescription { listed, known } => {
                let mut known = known;
                let ghost before = known@;
                let at: usize = known.len();
                let description = match answer {
                    Ok(output) => read_power_plan_description(
                        listed[at].guid.as_str(),
                        listed[at].name.as_str(),
                        output.as_str(),
                    ),
                    Err(_) => String::new(),
                };
                known.push(description);
                assert(text::views(known@) =~= text::views(before).push(description@));
                describe_further(listed, known)
            },
        }
    }
}

/// The list as a whole, by the answers to all of the questions: the plan in force, the list, and
/// the description of each listed plan.
pub open spec fn loaded_list(
    active: outcomes::AnswerView,
    list: outcomes::AnswerView,
    asked: Seq<outcomes::AnswerView>,
) -> Result<Seq<plans::PlanView>, Seq<char>> {
    match list {
        Ok(output) => {
            let listed = listed_plans(output, active_by(active));
            if listed.len() == 0 {
                Err("powercfg did not return any power plans"@)
            } else {
                Ok(
                    with_descriptions(
                        listed,
                        Seq::new(listed.len(), |i: int| described_by(listed[i], asked[i])),
                    ),
                )
            }
        },
        Err(error) => Err(error),
    }
}

/// What the reading has come to after some answers.
pub open spec fn load_run(step: LoadStepView, answers: Seq<outcomes::AnswerView>) -> LoadStepView
    decreases answers.len(),
{
    if answers.len() == 0 {
        step
    } else {
        match step {
            LoadStepView::Ask(_, task) => load_run(
                load_next(task, answers.first()),
                answers.drop_first(),
            ),
            LoadStepView::Done(_) => step,
        }
    }
}

/// The first step of every reading.
pub open spec fn load_start() -> LoadStepView {
    LoadStepView::Ask(commands::active_command(), LoadView::AskedActive)
}

proof fn lemma_describing(
    listed: Seq<ListedView>,
    known: Seq<Seq<char>>,
    answers: Seq<outcomes::AnswerView>,
)
    requires
        known.len() + answers.len() == listed.len(),
    ensures
        load_run(describe_next(listed, known), answers) == LoadStepView::Done(
            Ok(
                with_descriptions(
                    listed,
                    known + Seq::new(
                        answers.len(),
                        |i: int| described_by(listed[known.len() + i], answers[i]),
                    ),
                ),
            ),
        ),
    decreases answers.len(),
{
    let told = Seq::new(
        answers.len(),
        |i: int| described_by(listed[known.len() + i], answers[i]),
    );
    if answers.len() == 0 {
        assert(known + told == known);
    } else {
        let more = known.push(described_by(listed[known.len() as int], answers[0]));
        lemma_describing(listed, more, answers.drop_first());
        assert(known + told =~= more + Seq::new(
            answers.drop_first().len(),
            |i: int| described_by(listed[more.len() + i], answers.drop_first()[i]),
        ));
    }
}

/// The questions and answers one by one give the list that all of the answers together give: one
/// plan for each line with a GUID, in the order of the lines, with the description that was read
/// for it.
pub proof fn law_load_gives_the_list(
    active: outcomes::AnswerView,
    list: outcomes::AnswerView,
    asked: Seq<outcomes::AnswerView>,
)
    requires
        list matches Ok(output) ==> asked.len() == listed_plans(output, active_by(active)).len(),
        list is Err ==> asked.len() == 0,
    ensures
        load_run(load_start(), seq![active, list] + asked) == LoadStepView::Done(
            loaded_list(active, list, asked),
        ),
{
    let answers = seq![active, list] + asked;
    let rest = answers.drop_first();
    assert(rest.drop_first() == asked);
    let second = LoadStepView::Ask(
        commands::list_command(),
        LoadView::AskedList(active_by(active)),
    );
    assert(load_run(load_start(), answers) == load_run(second, rest));
    let third = load_next(LoadView::AskedList(active_by(active)), list);
    assert(load_run(second, rest) == load_run(third, asked));
    if let Ok(output) = list {
        let listed = listed_plans(output, active_by(active));
        if listed.len() > 0 {
            lemma_describing(listed, Seq::empty(), asked);
            let told = Seq::new(listed.len(), |i: int| described_by(listed[i], asked[i]));
            assert(Seq::<Seq<char>>::empty() + Seq::new(
                asked.len(),
                |i: int| described_by(listed[Seq::<Seq<char>>::empty().len() + i], asked[i]),
            ) =~= told);
        }
    }
}

/// Each listed plan has a name without white space at its ends.
spec fn trimmed_names(listed: Seq<ListedView>) -> bool {
    forall|i: int|
        0 <= i < listed.len() ==> (#[trigger] listed[i]).name.len() > 0 && text::trimmed(
            listed[i].name,
        ) == listed[i].name
}

proof fn lemma_listed_names(lines: Seq<Seq<char>>, active: Option<Seq<char>>)
    ensures
        trimmed_names(lines.filter_map(|line: Seq<char>| plan_on_line(line, active))),
    decreases lines.len(),
{
    reveal(Seq::filter_map);
    if lines.len() > 0 {
        lemma_listed_names(lines.drop_last(), active);
        if let Some((_, _, after)) = regexes::regex_find(GUID_PATTERN@, lines.last()) {
            descriptions::law_plan_name_is_trimmed(after);
        }
    }
}

/// The names and the descriptions in the list have no white space at their ends, and no name is
/// empty.
pub proof fn law_listed_texts_are_trimmed(
    active: outcomes::AnswerView,
    list: outcomes::AnswerView,
    asked: Seq<outcomes::AnswerView>,
)
    ensures
        loaded_list(active, list, asked) matches Ok(all) ==> all.len() > 0 && forall|i: int|
            0 <= i < all.len() ==> (#[trigger] all[i]).name.len() > 0 && text::trimmed(all[i].name)
                == all[i].name && text::trimmed(all[i].description) == all[i].description,
{
    if let Ok(all) = loaded_list(active, list, asked) {
        let listed = listed_plans(list->Ok_0, active_by(active));
        lemma_listed_names(text::lines_of(list->Ok_0), active_by(active));
        assert forall|i: int| 0 <= i < all.len() implies (#[trigger] all[i]).name.len() > 0
            && text::trimmed(all[i].name) == all[i].name && text::trimmed(all[i].description)
            == all[i].description by {
            assert(listed[i].name == all[i].name);
            if let Ok(output) = asked[i] {
                descriptions::law_description_is_trimmed(listed[i].guid, listed[i].name, output);
            }
        }
    }
}

} // verus!
