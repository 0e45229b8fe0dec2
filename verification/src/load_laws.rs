//! How the list of plans comes from what Windows answered.
use vstd::prelude::*;

use crate::command_laws;
use crate::commands;
use crate::commands::ArgView;
use crate::descriptions;
use crate::guid;
use crate::load;
use crate::outcomes;
use crate::plans;
use crate::regexes;
use crate::text;
use crate::text::CharClass;
use crate::text_laws;

verus! {

/// A line ends with an asterisk, but for white space.
pub open spec fn ends_with_mark(line: Seq<char>) -> bool {
    exists|front: Seq<char>, back: Seq<char>|
        line == #[trigger] (front + seq!['*'] + back) && text_laws::all_in(back, CharClass::White)
}

proof fn lemma_mark(line: Seq<char>)
    ensures
        load::is_marked(line) <==> ends_with_mark(line),
{
    let kept = text::cut_end(line, CharClass::White);
    text_laws::law_cut_end(line, CharClass::White);
    let back = choose|back: Seq<char>|
        line == #[trigger] (kept + back) && text_laws::all_in(back, CharClass::White);
    if load::is_marked(line) {
        let front = kept.drop_last();
        assert(line =~= front + seq!['*'] + back);
    }
    if ends_with_mark(line) {
        let (front, white) = choose|front: Seq<char>, white: Seq<char>|
            line == #[trigger] (front + seq!['*'] + white) && text_laws::all_in(
                white,
                CharClass::White,
            );
        let at = front.len() as int;
        assert(line[at] == '*');
        if kept.len() <= at {
            assert(line[at] == back[at - kept.len()]);
        } else if kept.len() > at + 1 {
            assert(line[kept.len() - 1] == white[kept.len() - 1 - (at + 1)]);
            assert(line[kept.len() - 1] == kept[kept.len() - 1]);
        }
    }
}

/// The answer to the question for the plan in force names this GUID: it is the first in it.
pub open spec fn answered(answer: outcomes::AnswerView, guid: Seq<char>) -> bool {
    answer matches Ok(output) && exists|at: int|
        #[trigger] text_laws::stands_first(output, at) && text::lower(output.subrange(at, at + 36))
            == guid
}

/// The plan in force is the one that Windows answered, and no other.
pub proof fn law_plan_in_force_is_the_one_answered(answer: outcomes::AnswerView, guid: Seq<char>)
    requires
        answer matches Ok(output) ==> regexes::guid_known(output),
    ensures
        load::active_by(answer) == Some(guid) <==> answered(answer, guid),
{
    if let Ok(output) = answer {
        text_laws::law_guid_in(output);
    }
}

/// A plan is listed from a line: its GUID is the first in the line, in lower case; its name is taken
/// from what follows; and it is in force if it is the plan `answer` names or if the line is marked,
/// and not otherwise.
pub open spec fn is_from_line(
    line: Seq<char>,
    answer: outcomes::AnswerView,
    guid: Seq<char>,
    name: Seq<char>,
    active: bool,
) -> bool {
    &&& exists|at: int|
        #[trigger] text_laws::stands_first(line, at) && guid == text::lower(
            line.subrange(at, at + 36),
        ) && name == descriptions::plan_name(line.skip(at + 36))
    &&& active <==> answered(answer, guid) || ends_with_mark(line)
}

proof fn lemma_line(line: Seq<char>, answer: outcomes::AnswerView)
    requires
        regexes::guid_known(line),
        answer matches Ok(output) ==> regexes::guid_known(output),
    ensures
        match load::plan_on_line(line, load::active_by(answer)) {
            Some(plan) => is_from_line(line, answer, plan.guid, plan.name, plan.active),
            None => forall|at: int| !#[trigger] regexes::guid_stands_at(line, at),
        },
{
    if let Some((before, found, after)) = regexes::regex_find(regexes::GUID_PATTERN@, line) {
        let at = before.len() as int;
        assert(line.subrange(at, at + 36) =~= found);
        assert(line.skip(at + 36) =~= after);
        assert(text_laws::stands_first(line, at));
        lemma_mark(line);
        law_plan_in_force_is_the_one_answered(answer, text::lower(found));
    }
}

/// The plans were listed from the lines at `places`, one from each, in the order of the lines, and no
/// other line holds a GUID.
pub open spec fn are_from_lines(
    lines: Seq<Seq<char>>,
    answer: outcomes::AnswerView,
    places: Seq<int>,
    listed: Seq<load::ListedView>,
) -> bool {
    &&& places.len() == listed.len()
    &&& forall|i: int| 0 <= i < places.len() ==> 0 <= #[trigger] places[i] < lines.len()
    &&& forall|i: int, j: int|
        0 <= i < j < places.len() ==> #[trigger] places[i] < #[trigger] places[j]
    &&& forall|i: int|
        0 <= i < places.len() ==> is_from_line(
            lines[#[trigger] places[i]],
            answer,
            listed[i].guid,
            listed[i].name,
            listed[i].active,
        )
    &&& forall|l: int, at: int|
        0 <= l < lines.len() && #[trigger] regexes::guid_stands_at(lines[l], at)
            ==> places.contains(l)
}

proof fn lemma_places(lines: Seq<Seq<char>>, answer: outcomes::AnswerView) -> (places: Seq<int>)
    requires
        load::guids_known(lines),
        answer matches Ok(output) ==> regexes::guid_known(output),
    ensures
        are_from_lines(
            lines,
            answer,
            places,
            lines.filter_map(
                |line: Seq<char>| load::plan_on_line(line, load::active_by(answer)),
            ),
        ),
    decreases lines.len(),
{
    reveal(Seq::filter_map);
    let f = |line: Seq<char>| load::plan_on_line(line, load::active_by(answer));
    if lines.len() == 0 {
        assert(lines.filter_map(f) =~= Seq::empty());
        Seq::empty()
    } else {
        let front = lines.drop_last();
        let n = front.len() as int;
        assert forall|i: int| 0 <= i < front.len() implies regexes::guid_known(
            #[trigger] front[i],
        ) by {
            assert(regexes::guid_known(lines[i]));
        }
        let before = lemma_places(front, answer);
        assert(regexes::guid_known(lines[n]));
        lemma_line(lines[n], answer);
        let shorter = front.filter_map(f);
        let listed = lines.filter_map(f);
        match f(lines[n]) {
            Some(plan) => {
                let places = before.push(n);
                assert(listed =~= shorter.push(plan));
                assert forall|i: int| 0 <= i < places.len() implies is_from_line(
                    lines[#[trigger] places[i]],
                    answer,
                    listed[i].guid,
                    listed[i].name,
                    listed[i].active,
                ) by {
                    if i < before.len() {
                        assert(front[before[i]] == lines[places[i]]);
                    }
                }
                assert forall|l: int, at: int|
                    0 <= l < lines.len() && #[trigger] regexes::guid_stands_at(
                        lines[l],
                        at,
                    ) implies places.contains(l) by {
                    if l < n {
                        assert(regexes::guid_stands_at(front[l], at));
                        let i = choose|i: int| 0 <= i < before.len() && before[i] == l;
                        assert(places[i] == l);
                    } else {
                        assert(places[before.len() as int] == l);
                    }
                }
                places
            },
            None => {
                assert(listed =~= shorter);
                assert forall|i: int| 0 <= i < before.len() implies is_from_line(
                    lines[#[trigger] before[i]],
                    answer,
                    listed[i].guid,
                    listed[i].name,
                    listed[i].active,
                ) by {
                    assert(front[before[i]] == lines[before[i]]);
                }
                assert forall|l: int, at: int|
                    0 <= l < lines.len() && #[trigger] regexes::guid_stands_at(
                        lines[l],
                        at,
                    ) implies before.contains(l) by {
                    if l < n {
                        assert(regexes::guid_stands_at(front[l], at));
                    }
                }
                before
            },
        }
    }
}

/// The description of a plan is read from the answer to the question for it, and empty without one.
pub open spec fn is_described(
    plan: plans::PlanView,
    answer: outcomes::AnswerView,
) -> bool {
    match answer {
        Ok(output) => plan.description == descriptions::described(plan.guid, plan.name, output),
        Err(_) => plan.description == Seq::<char>::empty(),
    }
}

/// Some plans by their GUIDs, names and whether they are in force.
pub open spec fn without_descriptions(all: Seq<plans::PlanView>) -> Seq<load::ListedView> {
    Seq::new(
        all.len(),
        |i: int|
            load::ListedView { guid: all[i].guid, name: all[i].name, active: all[i].active },
    )
}

/// The loaded list has one plan for each line that holds a GUID, in the order of the lines. A plan is
/// in force if its GUID is the one that Windows answered, whatever its line looks like; and if its
/// line ends with an asterisk, whatever Windows answered; and not otherwise. Its description is
/// the one that was read for it.
pub proof fn law_loaded_plans(
    active: outcomes::AnswerView,
    output: Seq<char>,
    asked: Seq<outcomes::AnswerView>,
    all: Seq<plans::PlanView>,
)
    requires
        load::guids_known(text::lines_of(output)),
        active matches Ok(told) ==> regexes::guid_known(told),
        load::loaded_list(active, Ok(output), asked) == Ok::<_, Seq<char>>(all),
    ensures
        exists|places: Seq<int>|
            #[trigger] are_from_lines(
                text::lines_of(output),
                active,
                places,
                without_descriptions(all),
            ),
        forall|i: int| 0 <= i < all.len() ==> is_described(#[trigger] all[i], asked[i]),
        all.len() > 0,
{
    let places = lemma_places(text::lines_of(output), active);
    let listed = load::listed_plans(output, load::active_by(active));
    assert(listed =~= without_descriptions(all));
}

/// Two readings of the same list differ in which plans are in force only by the plan that Windows
/// answered: all else in the list is the same.
pub proof fn law_answer_decides_only_who_is_in_force(
    one: Seq<char>,
    other: Seq<char>,
    output: Seq<char>,
)
    ensures
        ({
            let a = load::listed_plans(output, Some(one));
            let b = load::listed_plans(output, Some(other));
            &&& a.len() == b.len()
            &&& forall|i: int|
                0 <= i < a.len() ==> (#[trigger] a[i]).guid == b[i].guid && a[i].name == b[i].name
            &&& forall|i: int| 0 <= i < a.len() && (#[trigger] a[i]).guid == one ==> a[i].active
        }),
{
    lemma_same_but_active(text::lines_of(output), one, other);
}

proof fn lemma_same_but_active(lines: Seq<Seq<char>>, one: Seq<char>, other: Seq<char>)
    ensures
        ({
            let a = lines.filter_map(|line: Seq<char>| load::plan_on_line(line, Some(one)));
            let b = lines.filter_map(|line: Seq<char>| load::plan_on_line(line, Some(other)));
            &&& a.len() == b.len()
            &&& forall|i: int|
                0 <= i < a.len() ==> (#[trigger] a[i]).guid == b[i].guid && a[i].name == b[i].name
            &&& forall|i: int| 0 <= i < a.len() && (#[trigger] a[i]).guid == one ==> a[i].active
        }),
    decreases lines.len(),
{
    reveal(Seq::filter_map);
    if lines.len() > 0 {
        lemma_same_but_active(lines.drop_last(), one, other);
    }
}

/// There is no list exactly where Windows gave none or no line of it holds a GUID.
pub proof fn law_no_list(
    active: outcomes::AnswerView,
    list: outcomes::AnswerView,
    asked: Seq<outcomes::AnswerView>,
)
    requires
        list matches Ok(output) ==> load::guids_known(text::lines_of(output)),
        active matches Ok(told) ==> regexes::guid_known(told),
    ensures
        list matches Err(error) ==> load::loaded_list(active, list, asked) == Err::<
            Seq<plans::PlanView>,
            _,
        >(error),
        list matches Ok(output) ==> {
            let empty = forall|l: int, at: int|
                0 <= l < text::lines_of(output).len() ==> !#[trigger] regexes::guid_stands_at(
                    text::lines_of(output)[l],
                    at,
                );
            &&& empty ==> load::loaded_list(active, list, asked) == Err::<Seq<plans::PlanView>, _>(
                "powercfg did not return any power plans"@,
            )
            &&& !empty ==> load::loaded_list(active, list, asked) is Ok
        },
{
    if let Ok(output) = list {
        let lines = text::lines_of(output);
        let places = lemma_places(lines, active);
        let listed = load::listed_plans(output, load::active_by(active));
        if listed.len() > 0 {
            let l = places[0];
            assert(is_from_line(
                lines[l],
                active,
                listed[0].guid,
                listed[0].name,
                listed[0].active,
            ));
            let at = choose|at: int| #[trigger] text_laws::stands_first(lines[l], at);
            assert(regexes::guid_stands_at(lines[l], at));
        } else {
            assert forall|l: int, at: int|
                0 <= l < lines.len() implies !#[trigger] regexes::guid_stands_at(lines[l], at) by {
                if regexes::guid_stands_at(lines[l], at) {
                    assert(places.contains(l));
                }
            }
        }
    }
}

proof fn lemma_describing_so_far(
    listed: Seq<load::ListedView>,
    known: Seq<Seq<char>>,
    answers: Seq<outcomes::AnswerView>,
)
    requires
        known.len() + answers.len() < listed.len(),
    ensures
        load::load_run(load::describe_next(listed, known), answers) matches load::LoadStepView::Ask(
            command,
            _,
        ) && command == commands::description_command(
            listed[known.len() + answers.len() as int].guid,
        ),
    decreases answers.len(),
{
    if answers.len() > 0 {
        let more = known.push(load::described_by(listed[known.len() as int], answers[0]));
        lemma_describing_so_far(listed, more, answers.drop_first());
    }
}

/// The questions of a reading: for the plan in force, for the list, and then for the description of
/// each listed plan in turn, by its GUID.
pub proof fn law_questions_of_a_reading(
    active: outcomes::AnswerView,
    output: Seq<char>,
    asked: Seq<outcomes::AnswerView>,
)
    ensures
        load::load_start() matches load::LoadStepView::Ask(command, _) && command
            == command_laws::powercfg_line(seq![ArgView::Text("/getactivescheme"@)]),
        load::load_run(load::load_start(), seq![active]) matches load::LoadStepView::Ask(command, _)
            && command == command_laws::powercfg_line(seq![ArgView::Text("/list"@)]),
        asked.len() < load::listed_plans(output, load::active_by(active)).len() ==> (
        load::load_run(
            load::load_start(),
            seq![active, Ok(output)] + asked,
        ) matches load::LoadStepView::Ask(command, _) && command == (commands::CommandView {
            program: commands::Program::Reg,
            needs_windows: true,
            args: seq![
                ArgView::Text("query"@),
                ArgView::Text(
                    "HKLM\\SYSTEM\\CurrentControlSet\\Control\\Power\\User\\PowerSchemes\\"@
                        + load::listed_plans(
                        output,
                        load::active_by(active),
                    )[asked.len() as int].guid,
                ),
                ArgView::Text("/v"@),
                ArgView::Text("Description"@),
            ],
        })),
{
    let second = load::LoadStepView::Ask(
        commands::list_command(),
        load::LoadView::AskedList(load::active_by(active)),
    );
    assert(seq![active].drop_first() =~= Seq::<outcomes::AnswerView>::empty());
    assert(load::load_run(second, seq![active].drop_first()) == second);
    assert(load::load_run(load::load_start(), seq![active]) == second);
    let list = Ok::<Seq<char>, Seq<char>>(output);
    let answers = seq![active, list] + asked;
    assert(answers.drop_first().drop_first() =~= asked);
    assert(load::load_run(load::load_start(), answers) == load::load_run(
        second,
        answers.drop_first(),
    ));
    let third = load::load_next(load::LoadView::AskedList(load::active_by(active)), list);
    assert(load::load_run(second, answers.drop_first()) == load::load_run(third, asked));
    let listed = load::listed_plans(output, load::active_by(active));
    if asked.len() < listed.len() {
        lemma_describing_so_far(listed, Seq::empty(), asked);
    }
}

} // verus!
