//! What holds of the window, whatever is done in it.
use vstd::prelude::*;

use crate::actions;
use crate::commands;
use crate::duplicates;
use crate::file_names;
use crate::fpsheaven;
use crate::load;
use crate::model;
use crate::outcomes;
use crate::plans;
use crate::plans::FpsheavenPowerPlanKind;
use crate::restore_laws;
use crate::status;
use crate::steps;
use crate::text;

verus! {

/// A search for a GUID finds the first plan that has it, if any.
proof fn lemma_find_plan(all: Seq<plans::PlanView>, guid: Seq<char>)
    ensures
        match model::find_plan(all, guid) {
            Some(at) => 0 <= at < all.len() && all[at].guid == guid,
            None => forall|i: int| 0 <= i < all.len() ==> (#[trigger] all[i]).guid != guid,
        },
{
    let hit = |plan: plans::PlanView| plan.guid == guid;
    plans::lemma_first_where(all, hit);
    if model::find_plan(all, guid) is None {
        assert forall|i: int| 0 <= i < all.len() implies (#[trigger] all[i]).guid != guid by {
            assert(!hit(all[i]));
        }
    }
}

/// After a list with a plan in it was read, a plan of that list is selected: the one that was
/// selected, where it is still there; else the first plan in force; else the first plan. The fields
/// hold its name and its description, and nothing else has changed.
pub proof fn law_reload_selects_a_listed_plan(app: model::AppView, all: Seq<plans::PlanView>)
    requires
        all.len() > 0,
    ensures
        ({
            let now = app.reloaded(Ok(all));
            let listed = app.selected_guid matches Some(guid) && exists|i: int|
                0 <= i < all.len() && (#[trigger] all[i]).guid == guid;
            &&& now.selected() matches Some(plan) && {
                &&& all.contains(plan)
                &&& now.selected_guid == Some(plan.guid)
                &&& now.rename_text == plan.name
                &&& now.description_text == plan.description
            }
            &&& listed ==> now.selected_guid == app.selected_guid
            &&& !listed ==> match model::find_active(all) {
                Some(at) => 0 <= at < all.len() && all[at].active && now.selected_guid == Some(
                    all[at].guid,
                ),
                None => now.selected_guid == Some(all[0].guid) && forall|i: int|
                    0 <= i < all.len() ==> !(#[trigger] all[i]).active,
            }
            &&& now == model::AppView {
                plans: all,
                selected_guid: now.selected_guid,
                rename_text: now.rename_text,
                description_text: now.description_text,
                ..app
            }
        }),
{
    let now = app.reloaded(Ok(all));
    let in_force = |plan: plans::PlanView| plan.active;
    plans::lemma_first_where(all, in_force);
    if model::find_active(all) is None {
        assert forall|i: int| 0 <= i < all.len() implies !(#[trigger] all[i]).active by {
            assert(!in_force(all[i]));
        }
    }
    if let Some(guid) = app.selected_guid {
        lemma_find_plan(all, guid);
    }
    let guid = now.selected_guid->0;
    lemma_find_plan(all, guid);
    let at = model::find_plan(all, guid)->0;
    assert(all[at] == now.selected()->0);
}

/// Without a list nothing changes.
pub proof fn law_failed_reload_changes_nothing(app: model::AppView, error: Seq<char>)
    ensures
        app.reloaded(Err(error)) == app,
{
}

/// While an import runs nothing is done to the plans: every operation on them only says so.
pub proof fn law_import_blocks_the_other_operations(
    app: model::AppView,
    guid: Seq<char>,
    message: Seq<char>,
)
    requires
        app.importing(),
    ensures
        app.busy() == (
            app.saying(
                status::news("FPSHEAVEN power plan import is running; wait for it to finish"@),
            ),
            steps::StepView::Done,
        ),
        app.refresh(message) == app.busy(),
        app.import() == app.busy(),
        app.export() == app.busy(),
        app.export_all() == app.busy(),
        app.activate() == app.busy(),
        app.duplicate() == app.busy(),
        app.save() == app.busy(),
        app.edit() == app.busy(),
        app.delete(guid) == app.busy(),
        app.ask_delete() == app.busy().0,
        app.enable_defaults() == app.busy(),
        app.reset_anyway() == app.busy(),
{
}

/// A second import is not started while one runs, and the running one goes on.
pub proof fn law_one_import_at_a_time(app: model::AppView, kind: FpsheavenPowerPlanKind)
    ensures
        app.importing() ==> app.start_import(kind).1 is Done && app.start_import(
            kind,
        ).0.fpsheaven_import_job == app.fpsheaven_import_job,
        !app.importing() ==> app.start_import(kind).1 == steps::StepView::StartImport(kind)
            && app.start_import(kind).0.fpsheaven_import_job == Some(kind),
{
}

/// The plan in force is not deleted: what is deleted is a listed plan with the given GUID that is
/// not in force, and the question for it is put of such a plan alone.
pub proof fn law_plan_in_force_is_not_deleted(app: model::AppView, guid: Seq<char>)
    ensures
        app.delete(guid).1 matches steps::StepView::Ask(action, _) ==> action
            == actions::ActionView::Run(commands::delete_command(guid)) && exists|i: int|
            0 <= i < app.plans.len() && (#[trigger] app.plans[i]).guid == guid
                && !app.plans[i].active,
        app.ask_delete().pending_delete_guid != app.pending_delete_guid ==> (
        app.ask_delete().pending_delete_guid matches Some(pending) && exists|i: int|
            0 <= i < app.plans.len() && (#[trigger] app.plans[i]).guid == pending
                && !app.plans[i].active),
{
    lemma_find_plan(app.plans, guid);
    if let Some(at) = model::find_plan(app.plans, guid) {
        assert(app.plans[at].guid == guid);
    }
    if let Some(selected) = app.selected_guid {
        lemma_find_plan(app.plans, selected);
        if let Some(at) = model::find_plan(app.plans, selected) {
            assert(app.plans[at].guid == selected);
        }
    }
}

/// A plan is deleted only where that was asked for and confirmed.
pub proof fn law_deletion_needs_consent(app: model::AppView, confirmed: bool, cancel: bool)
    ensures
        app.delete_dialog(confirmed, cancel).1 is Ask ==> confirmed && (
        app.pending_delete_guid matches Some(guid) && app.delete_dialog(confirmed, cancel).1
            == app.delete(guid).1),
        confirmed || cancel ==> app.delete_dialog(confirmed, cancel).0.pending_delete_guid is None,
{
}

/// A button that can be pressed is not refused: the operation behind it goes on.
pub proof fn law_enabled_buttons_work(app: model::AppView, message: Seq<char>)
    ensures
        app.toolbar().refresh ==> app.refresh(message).1 is Ask,
        app.toolbar().import ==> app.import().1 is Choose,
        app.toolbar().export_all ==> app.export_all().1 is Choose,
        app.toolbar().export ==> app.export().1 is Choose,
        app.toolbar().delete ==> app.ask_delete().pending_delete_guid == app.selected_guid
            && app.ask_delete().status == app.status,
        app.toolbar().restore_defaults && plans::missing_defaults(app.plans).len() > 0
            ==> app.enable_defaults().1 is Ask,
        app.details() matches Some(details) ==> {
            &&& details.save ==> app.save().1 is Ask
            &&& details.activate ==> app.activate().1 is Ask
            &&& details.duplicate ==> app.duplicate().1 is Ask
            &&& details.edit ==> app.edit().1 is Ask
            &&& details.export ==> app.export().1 is Choose
            &&& details.delete ==> app.ask_delete().pending_delete_guid == app.selected_guid
                && app.ask_delete().status == app.status
        },
        app.details() is Some <==> app.selected() is Some,
        app.importing() ==> app.toolbar() == (model::ToolbarControls {
            refresh: false,
            restore_defaults: false,
            import: false,
            export_all: false,
            download: false,
            export: false,
            delete: false,
        }),
{
    if let Some(selected) = app.selected_guid {
        lemma_find_plan(app.plans, selected);
    }
}

/// An operation of a single command whose command fails only shows the reason.
pub proof fn law_failed_command_only_shows_why(
    app: model::AppView,
    task: steps::TaskView,
    error: Seq<char>,
)
    requires
        match task {
            steps::TaskView::Export(_, _) => true,
            steps::TaskView::Activate(_) => true,
            steps::TaskView::ActivateToEdit(_) => true,
            steps::TaskView::Duplicate(_) => true,
            steps::TaskView::Rename(_) => true,
            steps::TaskView::Delete(_) => true,
            _ => false,
        },
    ensures
        app.next(task, Err(error)) == (app.saying(status::failed(error)), steps::StepView::Done),
{
}

/// With a plan of the user in the list, bringing back default plans does not lead to a restoration
/// by itself: where it fails the question for one is put.
pub proof fn law_restoration_needs_consent(
    app: model::AppView,
    duplication: duplicates::DuplicateView,
    answer: outcomes::AnswerView,
)
    requires
        model::has_custom(app.plans),
    ensures
        app.enable_defaults().1 matches steps::StepView::Ask(_, task) ==> task is Enable,
        app.next(steps::TaskView::Enable(duplication), answer).1 matches steps::StepView::Ask(
            _,
            task,
        ) ==> task is Enable || task is Load && task->Load_1 is Show,
        app.reset_dialog(false, true).1 is Done,
{
}

/// Where bringing back default plans fails although there are plans of the user, the reason is
/// shown with the question for a restoration; a restoration that is wanted starts with a fresh list.
pub proof fn law_failed_default_plans_lead_to_the_question(
    app: model::AppView,
    defaults: Seq<plans::DefaultView>,
    results: Seq<outcomes::OutcomeView>,
)
    requires
        model::has_custom(app.plans),
        !outcomes::all_done(results),
    ensures
        ({
            let (now, step) = app.enable_on(
                duplicates::DuplicateStepView::Done(defaults, results),
            );
            &&& step is Done
            &&& duplicates::enable_report(defaults, results) is Err
            &&& now.pending_default_reset_error == Some(
                duplicates::enable_report(defaults, results)->Err_0,
            )
            &&& !app.importing() ==> now.reset_dialog(true, false).1 == app.reloading(
                steps::AfterView::Reset,
            ).1
        }),
{
    duplicates::law_enable_report(defaults, results);
}

/// A duplicate whose GUID was printed is selected once it is in the list.
pub proof fn law_duplicate_is_selected(
    app: model::AppView,
    new_guid: Seq<char>,
    line: status::StatusView,
    all: Seq<plans::PlanView>,
    at: int,
)
    requires
        0 <= at < all.len(),
        all[at].guid == new_guid,
    ensures
        ({
            let now = app.after_load(Ok(all), steps::AfterView::Select(new_guid, line)).0;
            now.selected() matches Some(plan) && plan.guid == new_guid && now.rename_text
                == plan.name && now.description_text == plan.description
        }),
{
    lemma_find_plan(all, new_guid);
}

/// Once an import has given a plan and that plan is in the list, it is selected; the import is over
/// either way, and another one can start.
pub proof fn law_imported_plan_is_selected(
    app: model::AppView,
    kind: FpsheavenPowerPlanKind,
    imported: fpsheaven::ImportedView,
    all: Seq<plans::PlanView>,
    at: int,
)
    requires
        app.fpsheaven_import_job == Some(kind),
        0 <= at < all.len(),
        all[at].guid == imported.guid,
    ensures
        ({
            let (after, step) = app.poll(model::PollView::Finished(Ok(imported)));
            let line = status::done(model::import_message(kind, imported));
            let then_do = steps::AfterView::SelectListed(imported.guid, line);
            let now = after.after_load(Ok(all), then_do).0;
            &&& (after, step) == after.reloading(then_do)
            &&& !after.importing()
            &&& now.selected() matches Some(plan) && plan.guid == imported.guid
            &&& now.status == line
        }),
{
    lemma_find_plan(all, imported.guid);
}

/// When a list has just been read there is nothing to save.
pub proof fn law_nothing_to_save_after_reload(
    app: model::AppView,
    active: outcomes::AnswerView,
    list: outcomes::AnswerView,
    asked: Seq<outcomes::AnswerView>,
)
    ensures
        load::loaded_list(active, list, asked) matches Ok(all) ==> (app.reloaded(
            Ok(all),
        ).details() matches Some(details) && !details.save),
{
    if let Ok(all) = load::loaded_list(active, list, asked) {
        load::law_listed_texts_are_trimmed(active, list, asked);
        law_reload_selects_a_listed_plan(app, all);
        let plan = app.reloaded(Ok(all)).selected()->0;
        let at = choose|at: int| 0 <= at < all.len() && all[at] == plan;
        assert(text::trimmed(all[at].name) == all[at].name);
    }
}

/// What an operation has come to after some answers.
pub open spec fn run_after(start: model::Turn, answers: Seq<outcomes::AnswerView>) -> model::Turn
    decreases answers.len(),
{
    if answers.len() == 0 {
        start
    } else {
        let before = run_after(start, answers.drop_last());
        match before.1 {
            steps::StepView::Ask(_, task) => before.0.next(task, answers.last()),
            _ => before,
        }
    }
}

/// An operation asks for a command in the given state of the window.
pub open spec fn asks(turn: model::Turn, app: model::AppView, command: commands::CommandView) -> bool {
    turn.0 == app && (turn.1 matches steps::StepView::Ask(action, _) && action
        == actions::ActionView::Run(command))
}

proof fn lemma_exporting(
    app: model::AppView,
    all: Seq<plans::PlanView>,
    folder: Seq<char>,
    answers: Seq<outcomes::AnswerView>,
)
    requires
        answers.len() <= all.len(),
    ensures
        run_after(app.export_on(all, folder, Seq::empty()), answers) == app.export_on(
            all,
            folder,
            outcomes::outcomes_of(answers),
        ),
    decreases answers.len(),
{
    if answers.len() == 0 {
        assert(outcomes::outcomes_of(answers) == Seq::<outcomes::OutcomeView>::empty());
    } else {
        let shorter = answers.drop_last();
        lemma_exporting(app, all, folder, shorter);
        assert(outcomes::outcomes_of(answers) == outcomes::outcomes_of(shorter).push(
            outcomes::outcome_of(answers.last()),
        ));
    }
}

/// Every plan is exported once, in the order of the list, each to a file of its own name in the
/// chosen folder, whatever became of those before it: after `k` answers the `k`th plan is asked to be
/// exported. After an answer for each plan the report tells of each, and nothing else has changed.
pub proof fn law_all_plans_are_exported(
    app: model::AppView,
    all: Seq<plans::PlanView>,
    folder: Seq<char>,
    answers: Seq<outcomes::AnswerView>,
)
    requires
        0 < all.len(),
        answers.len() <= all.len(),
    ensures
        ({
            let start = app.chosen(steps::ChoiceView::ExportAll(all), seq![folder]);
            let k = answers.len() as int;
            &&& k < all.len() ==> asks(
                run_after(start, answers),
                app,
                commands::export_command(
                    all[k].guid,
                    commands::ArgView::InChosenFolder(file_names::export_name(all[k])),
                ),
            )
            &&& k == all.len() ==> run_after(start, answers) == (
                app.saying(model::exported_status(all, folder, outcomes::outcomes_of(answers))),
                steps::StepView::Done,
            )
        }),
{
    lemma_exporting(app, all, folder, answers);
}

proof fn lemma_importing(
    app: model::AppView,
    files: Seq<Seq<char>>,
    answers: Seq<outcomes::AnswerView>,
)
    requires
        answers.len() <= files.len(),
    ensures
        run_after(app.import_on(files, Seq::empty()), answers) == app.import_on(
            files,
            outcomes::outcomes_of(answers),
        ),
    decreases answers.len(),
{
    if answers.len() == 0 {
        assert(outcomes::outcomes_of(answers) == Seq::<outcomes::OutcomeView>::empty());
    } else {
        let shorter = answers.drop_last();
        lemma_importing(app, files, shorter);
        assert(outcomes::outcomes_of(answers) == outcomes::outcomes_of(shorter).push(
            outcomes::outcome_of(answers.last()),
        ));
    }
}

/// Every chosen file is imported once, in the order of the dialog, whatever became of those before
/// it: after `k` answers the `k`th file is asked to be imported. After an answer for each file the
/// list is read anew, and then the report tells of each.
pub proof fn law_all_files_are_imported(
    app: model::AppView,
    files: Seq<Seq<char>>,
    answers: Seq<outcomes::AnswerView>,
)
    requires
        0 < files.len() <= usize::MAX,
        answers.len() <= files.len(),
    ensures
        ({
            let start = app.chosen(steps::ChoiceView::Import, files);
            let k = answers.len();
            &&& k < files.len() ==> exists|place: usize|
                place == k && #[trigger] asks(
                    run_after(start, answers),
                    app,
                    commands::import_command(commands::ArgView::Chosen(place), None),
                )
            &&& k == files.len() ==> run_after(start, answers) == app.reloading(
                steps::AfterView::Show(
                    model::imported_status(files, outcomes::outcomes_of(answers)),
                ),
            )
        }),
{
    lemma_importing(app, files, answers);
    let start = app.chosen(steps::ChoiceView::Import, files);
    let place = answers.len() as usize;
    if answers.len() < files.len() {
        assert(asks(
            run_after(start, answers),
            app,
            commands::import_command(commands::ArgView::Chosen(place), None),
        ));
    }
}

/// Bringing back missing default plans from the window is their duplication, step by step, up to the
/// answer that ends it.
pub proof fn law_missing_defaults_are_duplicated(
    app: model::AppView,
    answers: Seq<outcomes::AnswerView>,
)
    requires
        !app.importing(),
        plans::missing_defaults(app.plans).len() > 0,
        answers.len() > 0 ==> duplicates::duplicate_after(
            plans::missing_defaults(app.plans),
            answers.drop_last(),
        ) is Ask,
    ensures
        run_after(app.enable_defaults(), answers) == app.enable_on(
            duplicates::duplicate_after(plans::missing_defaults(app.plans), answers),
        ),
    decreases answers.len(),
{
    if answers.len() > 0 {
        let shorter = answers.drop_last();
        if shorter.len() > 0 {
            assert(duplicates::duplicate_after(
                plans::missing_defaults(app.plans),
                shorter.drop_last(),
            ) is Ask);
        }
        law_missing_defaults_are_duplicated(app, shorter);
    }
}

/// A restoration from the window is a restoration of its plans, step by step, up to the answer that
/// ends it. The window stays as it is meanwhile.
pub proof fn law_window_restores_its_plans(
    app: model::AppView,
    answers: Seq<outcomes::AnswerView>,
)
    requires
        answers.len() > 0 ==> restore_laws::restore_after(
            app.plans,
            model::active_guid(app.plans),
            answers.drop_last(),
        ) is Ask,
    ensures
        run_after(app.restoring(), answers) == app.restore_on(
            restore_laws::restore_after(app.plans, model::active_guid(app.plans), answers),
        ),
    decreases answers.len(),
{
    if answers.len() > 0 {
        let shorter = answers.drop_last();
        if shorter.len() > 0 {
            assert(restore_laws::restore_after(
                app.plans,
                model::active_guid(app.plans),
                shorter.drop_last(),
            ) is Ask);
        }
        law_window_restores_its_plans(app, shorter);
    }
}

} // verus!
