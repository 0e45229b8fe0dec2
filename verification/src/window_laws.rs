//! What each operation of the window does to the plan that it is about, in the words of the orders
//! and of the status line.
use vstd::prelude::*;

use crate::actions::ActionView;
use crate::command_laws;
use crate::commands::ArgView;
use crate::duplicates;
use crate::file_names;
use crate::fpsheaven;
use crate::load;
use crate::manager_laws;
use crate::model;
use crate::model::{AppView, PollView, Turn};
use crate::outcomes;
use crate::plan_laws;
use crate::plans;
use crate::plans::{FpsheavenPowerPlanKind, PlanView};
use crate::regexes;
use crate::restore;
use crate::status::{StatusKind, StatusView};
use crate::steps::{AfterView, ChoiceView, DialogView, StepView, TaskView};
use crate::text;
use crate::text_laws;

verus! {

/// The plan at `i` is the selected one: the first that has the selected GUID.
pub open spec fn is_chosen(app: AppView, i: int) -> bool {
    &&& 0 <= i < app.plans.len()
    &&& app.selected_guid == Some(app.plans[i].guid)
    &&& forall|k: int| 0 <= k < i ==> (#[trigger] app.plans[k]).guid != app.plans[i].guid
}

/// No plan of the list is selected.
pub open spec fn none_chosen(app: AppView) -> bool {
    app.selected_guid matches Some(guid) ==> forall|k: int|
        0 <= k < app.plans.len() ==> (#[trigger] app.plans[k]).guid != guid
}

/// The window with another status line and nothing else changed.
pub open spec fn says(app: AppView, kind: StatusKind, line: Seq<char>) -> AppView {
    AppView { status: StatusView { kind, text: line }, ..app }
}

/// An error is shown, and nothing is asked for.
pub open spec fn complains(app: AppView, line: Seq<char>) -> Turn {
    (says(app, StatusKind::Error, line), StepView::Done)
}

/// An order to `powercfg`, with which the operation goes on.
pub open spec fn orders(app: AppView, args: Seq<ArgView>, task: TaskView) -> Turn {
    (app, StepView::Ask(ActionView::Run(command_laws::powercfg_line(args)), task))
}

/// The list is read anew, and then something follows.
pub open spec fn reads_list(app: AppView, after: AfterView) -> Turn {
    orders(
        app,
        seq![ArgView::Text("/getactivescheme"@)],
        TaskView::Load(load::LoadView::AskedActive, after),
    )
}

/// The list is read anew, and then a success is shown.
pub open spec fn reads_list_and_says(app: AppView, line: Seq<char>) -> Turn {
    reads_list(app, AfterView::Show(StatusView { kind: StatusKind::Success, text: line }))
}

proof fn lemma_found(all: Seq<PlanView>, i: int)
    requires
        0 <= i < all.len(),
        forall|k: int| 0 <= k < i ==> (#[trigger] all[k]).guid != all[i].guid,
    ensures
        model::find_plan(all, all[i].guid) == Some(i),
{
    let guid = all[i].guid;
    let hit = |plan: PlanView| plan.guid == guid;
    plans::lemma_first_where(all, hit);
    assert(hit(all[i]));
}

proof fn lemma_not_found(all: Seq<PlanView>, guid: Seq<char>)
    requires
        forall|k: int| 0 <= k < all.len() ==> (#[trigger] all[k]).guid != guid,
    ensures
        model::find_plan(all, guid) is None,
{
    plans::lemma_first_where(all, |plan: PlanView| plan.guid == guid);
}

/// The selected plan is the first of the list with the selected GUID.
pub proof fn law_selected_plan(app: AppView, i: int)
    ensures
        is_chosen(app, i) ==> app.selected() == Some(app.plans[i]),
        none_chosen(app) <==> app.selected() is None,
{
    if is_chosen(app, i) {
        lemma_found(app.plans, i);
    }
    if let Some(guid) = app.selected_guid {
        let hit = |plan: PlanView| plan.guid == guid;
        plans::lemma_first_where(app.plans, hit);
        if none_chosen(app) {
            lemma_not_found(app.plans, guid);
        } else if app.selected() is None {
            assert forall|k: int| 0 <= k < app.plans.len() implies (
            #[trigger] app.plans[k]).guid != guid by {
                assert(!hit(app.plans[k]));
            }
        }
    }
}

/// A new status line changes nothing else. A new selection changes only itself and the fields, which
/// then hold the name and the description of the plan, or nothing where it is not in the list.
pub proof fn law_small_changes(app: AppView, line: StatusView, guid: Seq<char>, i: int)
    ensures
        app.saying(line) == (AppView { status: line, ..app }),
        0 <= i < app.plans.len() && app.plans[i].guid == guid && (forall|k: int|
            0 <= k < i ==> (#[trigger] app.plans[k]).guid != guid) ==> app.selecting(guid) == (AppView {
            selected_guid: Some(guid),
            rename_text: app.plans[i].name,
            description_text: app.plans[i].description,
            ..app
        }),
        (forall|k: int| 0 <= k < app.plans.len() ==> (#[trigger] app.plans[k]).guid != guid)
            ==> app.selecting(guid) == (AppView {
            selected_guid: Some(guid),
            rename_text: Seq::empty(),
            description_text: Seq::empty(),
            ..app
        }),
{
    let now = AppView { selected_guid: Some(guid), ..app };
    law_selected_plan(now, i);
}

/// The operations on the selected plan only complain where none is selected.
pub proof fn law_operations_need_a_selection(app: AppView)
    requires
        app.fpsheaven_import_job is None,
        none_chosen(app),
    ensures
        app.export() == complains(app, "Select a power plan first"@),
        app.activate() == complains(app, "Select a power plan first"@),
        app.edit() == complains(app, "Select a power plan first"@),
        app.duplicate() == complains(app, "Select a power plan first"@),
        app.save() == complains(app, "Select a power plan first"@),
        app.ask_delete() == complains(app, "Select a power plan first"@).0,
{
    law_selected_plan(app, 0);
}

/// While an import runs every operation on the plans only says so.
pub proof fn law_nothing_else_while_importing(app: AppView, guid: Seq<char>, message: Seq<char>)
    requires
        app.fpsheaven_import_job is Some,
    ensures
        ({
            let line = "FPSHEAVEN power plan import is running; wait for it to finish"@;
            let busy = (says(app, StatusKind::Info, line), StepView::Done);
            &&& app.refresh(message) == busy
            &&& app.import() == busy
            &&& app.export() == busy
            &&& app.export_all() == busy
            &&& app.activate() == busy
            &&& app.edit() == busy
            &&& app.duplicate() == busy
            &&& app.save() == busy
            &&& app.delete(guid) == busy
            &&& app.ask_delete() == busy.0
            &&& app.enable_defaults() == busy
            &&& app.reset_anyway() == busy
        }),
{
}

/// The selected plan is the one that is exported, to the chosen file, whichever plan is in force: the
/// dialog proposes its name, the order names its GUID, and the report its name and the file.
pub proof fn law_selected_plan_is_exported(
    app: AppView,
    i: int,
    paths: Seq<Seq<char>>,
    output: Seq<char>,
    error: Seq<char>,
)
    requires
        app.fpsheaven_import_job is None,
        is_chosen(app, i),
        paths.len() > 0,
    ensures
        ({
            let plan = app.plans[i];
            let task = TaskView::Export(plan.name, paths[0]);
            &&& app.export().0 == app
            &&& app.export().1 matches StepView::Choose(dialog, choice) && {
                &&& dialog == DialogView::SaveFile(
                    "Export power plan"@,
                    file_names::file_stem(plan.name) + ".pow"@,
                )
                &&& app.chosen(choice, paths) == orders(
                    app,
                    seq![ArgView::Text("/export"@), ArgView::Chosen(0), ArgView::Text(plan.guid)],
                    task,
                )
                &&& app.chosen(choice, Seq::empty()) == (app, StepView::Done)
            }
            &&& app.next(task, Ok(output)) == (
                says(
                    app,
                    StatusKind::Success,
                    "Exported \""@ + plan.name + "\" to "@ + paths[0],
                ),
                StepView::Done,
            )
            &&& app.next(task, Err(error)) == complains(app, error)
        }),
{
    law_selected_plan(app, i);
}

/// The selected plan is the one that is put in force.
pub proof fn law_selected_plan_is_activated(
    app: AppView,
    i: int,
    output: Seq<char>,
    error: Seq<char>,
)
    requires
        app.fpsheaven_import_job is None,
        is_chosen(app, i),
    ensures
        ({
            let plan = app.plans[i];
            let task = TaskView::Activate(plan.name);
            &&& app.activate() == orders(
                app,
                seq![ArgView::Text("/setactive"@), ArgView::Text(plan.guid)],
                task,
            )
            &&& app.next(task, Ok(output)) == reads_list_and_says(
                app,
                "Activated \""@ + plan.name + "\""@,
            )
            &&& app.next(task, Err(error)) == complains(app, error)
        }),
{
    law_selected_plan(app, i);
}

/// The selected plan is put in force, and only then its settings are opened.
pub proof fn law_selected_plan_is_edited(app: AppView, i: int, output: Seq<char>, error: Seq<char>)
    requires
        app.fpsheaven_import_job is None,
        is_chosen(app, i),
    ensures
        ({
            let plan = app.plans[i];
            let first = TaskView::ActivateToEdit(plan.name);
            let second = TaskView::Edit(plan.name);
            &&& app.edit() == orders(
                app,
                seq![ArgView::Text("/setactive"@), ArgView::Text(plan.guid)],
                first,
            )
            &&& app.next(first, Ok(output)) == (
                app,
                StepView::Ask(ActionView::OpenPowerOptions, second),
            )
            &&& app.next(first, Err(error)) == complains(app, error)
            &&& app.next(second, Ok(output)) == reads_list_and_says(
                app,
                "Opened Windows editor for \""@ + plan.name + "\""@,
            )
            &&& app.next(second, Err(error)) == complains(
                app,
                "Failed to open Windows power options: "@ + error,
            )
        }),
{
    law_selected_plan(app, i);
}

/// The selected plan is the one that is duplicated, and the duplicate, by the GUID that stands first
/// in what was printed, is the one that is selected afterwards.
pub proof fn law_selected_plan_is_duplicated(
    app: AppView,
    i: int,
    output: Seq<char>,
    error: Seq<char>,
)
    requires
        app.fpsheaven_import_job is None,
        is_chosen(app, i),
        regexes::guid_known(output),
    ensures
        ({
            let plan = app.plans[i];
            let task = TaskView::Duplicate(plan.name);
            let line = StatusView {
                kind: StatusKind::Success,
                text: "Duplicated \""@ + plan.name + "\""@,
            };
            &&& app.duplicate() == orders(
                app,
                seq![ArgView::Text("/duplicatescheme"@), ArgView::Text(plan.guid)],
                task,
            )
            &&& forall|at: int|
                #[trigger] text_laws::stands_first(output, at) ==> app.next(task, Ok(output))
                    == reads_list(
                    app,
                    AfterView::Select(text::lower(output.subrange(at, at + 36)), line),
                )
            &&& (forall|at: int| !#[trigger] regexes::guid_stands_at(output, at)) ==> app.next(
                task,
                Ok(output),
            ) == reads_list(app, AfterView::Show(line))
            &&& app.next(task, Err(error)) == complains(app, error)
        }),
{
    law_selected_plan(app, i);
    text_laws::law_guid_in(output);
    if forall|at: int| !#[trigger] regexes::guid_stands_at(output, at) {
        if crate::guid::guid_in(output) is Some {
            let at = choose|at: int| #[trigger] text_laws::stands_first(output, at);
            assert(regexes::guid_stands_at(output, at));
        }
    }
}

/// The selected plan is given the name in its field, trimmed; the description goes with it only where
/// the field holds another one than the plan has. An empty name is refused.
pub proof fn law_selected_plan_is_renamed(app: AppView, i: int, output: Seq<char>, error: Seq<char>)
    requires
        app.fpsheaven_import_job is None,
        is_chosen(app, i),
    ensures
        ({
            let plan = app.plans[i];
            let name = text::trimmed(app.rename_text);
            let description = text::trimmed(app.description_text);
            let task = TaskView::Rename(plan.name);
            &&& name.len() == 0 ==> app.save() == complains(app, "Plan name cannot be empty"@)
            &&& name.len() > 0 && description == plan.description ==> app.save() == orders(
                app,
                seq![ArgView::Text("/changename"@), ArgView::Text(plan.guid), ArgView::Text(name)],
                task,
            )
            &&& name.len() > 0 && description != plan.description ==> app.save() == orders(
                app,
                seq![
                    ArgView::Text("/changename"@),
                    ArgView::Text(plan.guid),
                    ArgView::Text(name),
                    ArgView::Text(description),
                ],
                task,
            )
            &&& app.next(task, Ok(output)) == reads_list_and_says(
                app,
                "Updated \""@ + plan.name + "\""@,
            )
            &&& app.next(task, Err(error)) == complains(app, error)
        }),
{
    law_selected_plan(app, i);
}

/// The deletion of the selected plan is asked about where it is not in force; nothing else changes.
pub proof fn law_deletion_is_asked_about(app: AppView, i: int)
    requires
        app.fpsheaven_import_job is None,
        is_chosen(app, i),
    ensures
        app.plans[i].active ==> app.ask_delete() == says(
            app,
            StatusKind::Error,
            "Activate another plan before deleting this one"@,
        ),
        !app.plans[i].active ==> app.ask_delete() == (AppView {
            pending_delete_guid: Some(app.plans[i].guid),
            ..app
        }),
{
    law_selected_plan(app, i);
}

/// The plan with the given GUID is the one that is deleted, where it is not in force.
pub proof fn law_given_plan_is_deleted(app: AppView, i: int, output: Seq<char>, error: Seq<char>)
    requires
        app.fpsheaven_import_job is None,
        0 <= i < app.plans.len(),
        forall|k: int| 0 <= k < i ==> (#[trigger] app.plans[k]).guid != app.plans[i].guid,
    ensures
        ({
            let plan = app.plans[i];
            let task = TaskView::Delete(plan.name);
            &&& plan.active ==> app.delete(plan.guid) == complains(
                app,
                "Activate another plan before deleting this one"@,
            )
            &&& !plan.active ==> app.delete(plan.guid) == orders(
                app,
                seq![ArgView::Text("/delete"@), ArgView::Text(plan.guid)],
                task,
            )
            &&& app.next(task, Ok(output)) == reads_list_and_says(
                app,
                "Deleted \""@ + plan.name + "\""@,
            )
            &&& app.next(task, Err(error)) == complains(app, error)
        }),
{
    lemma_found(app.plans, i);
}

/// A plan that is not in the list is not deleted.
pub proof fn law_lost_plan_is_not_deleted(app: AppView, guid: Seq<char>)
    requires
        app.fpsheaven_import_job is None,
        forall|k: int| 0 <= k < app.plans.len() ==> (#[trigger] app.plans[k]).guid != guid,
    ensures
        app.delete(guid) == complains(app, "Power plan no longer exists"@),
{
    lemma_not_found(app.plans, guid);
}

/// The dialog for a deletion deletes the plan it is about once that is confirmed; it closes on either
/// button, and stays as it is without one.
pub proof fn law_dialog_for_a_deletion(app: AppView, guid: Seq<char>, i: int, confirmed: bool)
    ensures
        ({
            let open = AppView { pending_delete_guid: Some(guid), ..app };
            let closed = AppView { pending_delete_guid: None, ..app };
            &&& open.delete_dialog(true, confirmed) == closed.delete(guid)
            &&& open.delete_dialog(false, true) == (closed, StepView::Done)
            &&& open.delete_dialog(false, false) == (open, StepView::Done)
            &&& closed.delete_dialog(confirmed, true) == (closed, StepView::Done)
            &&& closed.delete_name() is None
            &&& 0 <= i < app.plans.len() && app.plans[i].guid == guid && (forall|k: int|
                0 <= k < i ==> (#[trigger] app.plans[k]).guid != guid) ==> open.delete_name() == Some(
                app.plans[i].name,
            )
            &&& (forall|k: int| 0 <= k < app.plans.len() ==> (#[trigger] app.plans[k]).guid != guid)
                ==> open.delete_name() == Some("Selected plan"@)
        }),
{
    if 0 <= i < app.plans.len() && app.plans[i].guid == guid && (forall|k: int|
        0 <= k < i ==> (#[trigger] app.plans[k]).guid != guid) {
        lemma_found(app.plans, i);
    }
    if forall|k: int| 0 <= k < app.plans.len() ==> (#[trigger] app.plans[k]).guid != guid {
        lemma_not_found(app.plans, guid);
    }
}

/// A refresh reads the list and then says so.
pub proof fn law_refresh(app: AppView, message: Seq<char>)
    requires
        app.fpsheaven_import_job is None,
    ensures
        app.refresh(message) == reads_list(app, AfterView::Report(message)),
{
}

/// The dialogs for an import and for an export of all plans, and what they lead to.
pub proof fn law_dialogs_for_files(app: AppView, paths: Seq<Seq<char>>)
    requires
        app.fpsheaven_import_job is None,
    ensures
        app.import() == (
            app,
            StepView::Choose(DialogView::OpenFiles("Import power plan"@), ChoiceView::Import),
        ),
        app.chosen(ChoiceView::Import, Seq::empty()) == (app, StepView::Done),
        paths.len() > 0 ==> app.chosen(ChoiceView::Import, paths) == orders(
            app,
            seq![ArgView::Text("/import"@), ArgView::Chosen(0)],
            TaskView::Import(paths, Seq::empty()),
        ),
        app.plans.len() == 0 ==> app.export_all() == complains(app, "No power plans to export"@),
        app.plans.len() > 0 ==> app.export_all() == (
            app,
            StepView::Choose(
                DialogView::Folder("Choose export folder"@),
                ChoiceView::ExportAll(app.plans),
            ),
        ),
        app.chosen(ChoiceView::ExportAll(app.plans), Seq::empty()) == (app, StepView::Done),
        app.plans.len() > 0 && paths.len() > 0 ==> app.chosen(
            ChoiceView::ExportAll(app.plans),
            paths,
        ) == orders(
            app,
            seq![
                ArgView::Text("/export"@),
                ArgView::InChosenFolder(file_names::export_name(app.plans[0])),
                ArgView::Text(app.plans[0].guid),
            ],
            TaskView::ExportAll(app.plans, paths[0], Seq::empty()),
        ),
{
}

/// One more answer: the next file or plan follows, or the report.
pub proof fn law_next_file(
    app: AppView,
    files: Seq<Seq<char>>,
    all: Seq<PlanView>,
    folder: Seq<char>,
    known: Seq<outcomes::OutcomeView>,
    answer: outcomes::AnswerView,
)
    ensures
        ({
            let more = known.push(outcomes::outcome_of(answer));
            let k = more.len() as int;
            let imported = app.next(TaskView::Import(files, known), answer);
            let exported = app.next(TaskView::ExportAll(all, folder, known), answer);
            &&& k < files.len() ==> imported == orders(
                app,
                seq![ArgView::Text("/import"@), ArgView::Chosen(k as usize)],
                TaskView::Import(files, more),
            )
            &&& k == files.len() ==> imported == reads_list(
                app,
                AfterView::Show(model::imported_status(files, more)),
            )
            &&& k < all.len() ==> exported == orders(
                app,
                seq![
                    ArgView::Text("/export"@),
                    ArgView::InChosenFolder(file_names::export_name(all[k])),
                    ArgView::Text(all[k].guid),
                ],
                TaskView::ExportAll(all, folder, more),
            )
            &&& k == all.len() ==> exported == (
                AppView { status: model::exported_status(all, folder, more), ..app },
                StepView::Done,
            )
        }),
{
}

/// The reports on files count what was done, and where something failed they tell of each failure.
pub proof fn law_reports_on_files(
    files: Seq<Seq<char>>,
    all: Seq<PlanView>,
    folder: Seq<char>,
    results: Seq<outcomes::OutcomeView>,
)
    ensures
        ({
            let names = Seq::new(all.len(), |i: int| all[i].name);
            let failed_files = outcomes::failures(files, results);
            let failed_plans = outcomes::failures(names, results);
            &&& outcomes::all_done(results) ==> model::imported_status(files, results) == (StatusView {
                kind: StatusKind::Success,
                text: "Imported "@ + text::decimal(results.len()) + " power plan(s) successfully"@,
            })
            &&& !outcomes::all_done(results) ==> model::imported_status(files, results) == (
            StatusView {
                kind: StatusKind::Error,
                text: "Imported "@ + text::decimal((results.len() - failed_files.len()) as nat)
                    + " power plan(s); "@ + text::decimal(failed_files.len()) + " failed\n"@
                    + text::joined(failed_files, "\n"@),
            })
            &&& outcomes::all_done(results) ==> model::exported_status(all, folder, results) == (
            StatusView {
                kind: StatusKind::Success,
                text: "Exported "@ + text::decimal(results.len()) + " power plan(s) to "@ + folder,
            })
            &&& !outcomes::all_done(results) ==> model::exported_status(all, folder, results) == (
            StatusView {
                kind: StatusKind::Error,
                text: "Exported "@ + text::decimal((results.len() - failed_plans.len()) as nat)
                    + " power plan(s); "@ + text::decimal(failed_plans.len()) + " failed\n"@
                    + text::joined(failed_plans, "\n"@),
            })
        }),
{
    let names = Seq::new(all.len(), |i: int| all[i].name);
    assert(restore::plan_names(all) =~= names);
    outcomes::law_successes_and_failures(files, results);
    outcomes::law_successes_and_failures(names, results);
}

/// The page of the channel is opened, and the status line tells what became of it. An import that
/// runs does not matter.
pub proof fn law_channel(app: AppView, output: Seq<char>, error: Seq<char>)
    ensures
        app.open_channel() == (
            app,
            StepView::Ask(
                ActionView::OpenPage("https://www.youtube.com/@fpsheaven"@),
                TaskView::OpenPage,
            ),
        ),
        app.next(TaskView::OpenPage, Ok(output)) == (
            says(app, StatusKind::Success, "Opened @fpsheaven on YouTube"@),
            StepView::Done,
        ),
        app.next(TaskView::OpenPage, Err(error)) == complains(
            app,
            "Could not open YouTube: "@ + error,
        ),
{
}

/// The GUID of the plan in force is that of the first plan that is in force.
pub proof fn law_guid_in_force(all: Seq<PlanView>)
    ensures
        match model::active_guid(all) {
            Some(guid) => exists|i: int|
                0 <= i < all.len() && (#[trigger] all[i]).active && all[i].guid == guid
                    && forall|k: int| 0 <= k < i ==> !(#[trigger] all[k]).active,
            None => forall|k: int| 0 <= k < all.len() ==> !(#[trigger] all[k]).active,
        },
{
    let hit = |plan: PlanView| plan.active;
    plans::lemma_first_where(all, hit);
    if let Some(i) = model::find_active(all) {
        assert(hit(all[i]));
        assert forall|k: int| 0 <= k < i implies !(#[trigger] all[k]).active by {
            assert(!hit(all[k]));
        }
    } else {
        assert forall|k: int| 0 <= k < all.len() implies !(#[trigger] all[k]).active by {
            assert(!hit(all[k]));
        }
    }
}

/// The restoration that the window starts is of the user's own plans in the list and of the plan in
/// force there.
pub proof fn law_restoration_of_the_window(app: AppView)
    ensures
        app.restoring().0 == app,
        app.restoring().1 matches StepView::Ask(action, task) && action
            == ActionView::CreateBackupFolder && (task matches TaskView::Restore(restoration)
            && restoration.custom == plans::custom_plans(app.plans) && restoration.active
            == model::active_guid(app.plans) && restoration.stage is CreatingFolder),
{
}

/// Missing default plans are duplicated. Where all are there it is said so; where all duplicates
/// succeed the report is shown; where one fails, the reason is kept for the question where the user
/// has plans of their own, and else a restoration starts.
pub proof fn law_missing_plans_are_brought_back(
    app: AppView,
    defaults: Seq<plans::DefaultView>,
    results: Seq<outcomes::OutcomeView>,
    duplication: duplicates::DuplicateView,
    answer: outcomes::AnswerView,
)
    requires
        app.fpsheaven_import_job is None,
    ensures
        ({
            let missing = plans::missing_defaults(app.plans);
            let none = Seq::<outcomes::OutcomeView>::empty();
            let over = duplicates::DuplicateStepView::Done(defaults, results);
            &&& missing.len() == 0 ==> app.enable_defaults() == (
                says(
                    app,
                    StatusKind::Info,
                    "Default Windows power plans are already available"@,
                ),
                StepView::Done,
            )
            &&& missing.len() > 0 ==> app.enable_defaults() == orders(
                app,
                seq![ArgView::Text("/duplicatescheme"@), ArgView::Text(missing[0].guid)],
                TaskView::Enable(
                    duplicates::DuplicateView { defaults: missing, outcomes: none, renaming: false },
                ),
            )
            &&& app.next(TaskView::Enable(duplication), answer) == app.enable_on(
                duplicates::duplicate_next(duplication, answer),
            )
            &&& forall|command: crate::commands::CommandView, further: duplicates::DuplicateView|
                #[trigger] app.enable_on(duplicates::DuplicateStepView::Ask(command, further)) == (
                    app,
                    StepView::Ask(ActionView::Run(command), TaskView::Enable(further)),
                )
            &&& match duplicates::enable_report(defaults, results) {
                Ok(message) => app.enable_on(over) == reads_list_and_says(app, message),
                Err(error) => if exists|i: int|
                    0 <= i < app.plans.len() && plan_laws::is_own(#[trigger] app.plans[i]) {
                    app.enable_on(over) == (
                        AppView {
                            pending_default_reset_error: Some(error),
                            status: StatusView {
                                kind: StatusKind::Info,
                                text:
                                    "A full Windows power plan reset is required to restore those defaults"@,
                            },
                            ..app
                        },
                        StepView::Done,
                    )
                } else {
                    app.enable_on(over) == app.restoring()
                },
            }
        }),
{
    assert forall|i: int| 0 <= i < app.plans.len() implies plan_laws::is_own(#[trigger] app.plans[i])
        == !plans::is_default(app.plans[i]) by {
        plan_laws::law_default_or_own(app.plans[i]);
    }
}

/// A restoration goes on step by step, and at its end the list is read and the report shown.
pub proof fn law_end_of_a_restoration(
    app: AppView,
    restoration: restore::RestoreView,
    answer: outcomes::AnswerView,
)
    ensures
        ({
            let turn = app.next(TaskView::Restore(restoration), answer);
            match restore::restore_next(restoration, answer) {
                restore::RestoreStepView::Ask(action, further) => turn == (
                    app,
                    StepView::Ask(action, TaskView::Restore(further)),
                ),
                restore::RestoreStepView::Done(Ok(message)) => turn == reads_list_and_says(
                    app,
                    message,
                ),
                restore::RestoreStepView::Done(Err(error)) => turn == reads_list(
                    app,
                    AfterView::Show(StatusView { kind: StatusKind::Error, text: error }),
                ),
            }
        }),
{
}

/// The dialog for a restoration restores once that is wanted, after the list was read; it closes on
/// either button, and stays as it is without one.
pub proof fn law_dialog_for_a_restoration(app: AppView, error: Seq<char>, pressed: bool)
    requires
        app.fpsheaven_import_job is None,
    ensures
        ({
            let open = AppView { pending_default_reset_error: Some(error), ..app };
            let closed = AppView { pending_default_reset_error: None, ..app };
            &&& open.reset_dialog(true, pressed) == reads_list(closed, AfterView::Reset)
            &&& open.reset_dialog(false, true) == (
                says(closed, StatusKind::Info, "Windows default reset canceled"@),
                StepView::Done,
            )
            &&& open.reset_dialog(false, false) == (open, StepView::Done)
            &&& closed.reset_dialog(pressed, true) == (closed, StepView::Done)
            &&& app.reset_anyway() == reads_list(app, AfterView::Reset)
        }),
{
}

/// The dialog for an import starts one of the kind that was pressed; it closes on each button, and
/// stays as it is without one.
pub proof fn law_dialog_for_an_import(
    app: AppView,
    kind: FpsheavenPowerPlanKind,
    pressed: bool,
)
    requires
        app.fpsheaven_import_job is None,
    ensures
        ({
            let open = AppView { pending_fpsheaven_import: true, ..app };
            let closed = AppView { pending_fpsheaven_import: false, ..app };
            let started = (
                AppView {
                    fpsheaven_import_job: Some(kind),
                    status: StatusView {
                        kind: StatusKind::Info,
                        text: "Downloading FPSHEAVEN "@ + match kind {
                            FpsheavenPowerPlanKind::Intel => "INTEL"@,
                            FpsheavenPowerPlanKind::Amd => "AMD"@,
                        } + " power plan..."@,
                    },
                    ..closed
                },
                StepView::StartImport(kind),
            );
            &&& open.import_dialog(Some(kind), pressed) == started
            &&& open.import_dialog(None, true) == (closed, StepView::Done)
            &&& open.import_dialog(None, false) == (open, StepView::Done)
            &&& closed.import_dialog(Some(kind), pressed) == (closed, StepView::Done)
            &&& closed.import_dialog(None, pressed) == (closed, StepView::Done)
            &&& closed.start_import(kind) == started
        }),
{
}

/// A second import is refused.
pub proof fn law_second_import(app: AppView, kind: FpsheavenPowerPlanKind)
    requires
        app.fpsheaven_import_job is Some,
    ensures
        app.start_import(kind) == (
            says(app, StatusKind::Info, "FPSHEAVEN power plan import is already running"@),
            StepView::Done,
        ),
{
}

/// The end of an import is taken note of: the import is over; a plan that came out of it is selected
/// once the list was read and the plan is in it, and told of with the file that it came from and
/// the plan that it replaced; a failure is told of.
pub proof fn law_end_of_an_import(
    app: AppView,
    kind: FpsheavenPowerPlanKind,
    imported: fpsheaven::ImportedView,
    error: Seq<char>,
)
    requires
        app.fpsheaven_import_job == Some(kind),
    ensures
        ({
            let over = AppView { fpsheaven_import_job: None, ..app };
            let told = "Imported and activated FPSHEAVEN "@ + match kind {
                FpsheavenPowerPlanKind::Intel => "INTEL"@,
                FpsheavenPowerPlanKind::Amd => "AMD"@,
            } + " power plan from "@ + imported.plan_path;
            let line = match imported.replaced_active_plan_name {
                Some(name) => told + "; replaced \""@ + name + "\""@,
                None => told,
            };
            &&& app.poll(PollView::Finished(Ok(imported))) == reads_list(
                over,
                AfterView::SelectListed(
                    imported.guid,
                    StatusView { kind: StatusKind::Success, text: line },
                ),
            )
            &&& app.poll(PollView::Finished(Err(error))) == complains(over, error)
            &&& app.poll(PollView::Stopped) == complains(
                over,
                "FPSHEAVEN power plan import stopped unexpectedly"@,
            )
            &&& app.poll(PollView::Pending) == (app, StepView::Wait(200))
        }),
{
}

/// Without an import there is nothing to take note of.
pub proof fn law_no_import_no_end(app: AppView, event: PollView)
    requires
        app.fpsheaven_import_job is None,
    ensures
        app.poll(event) == (app, StepView::Done),
{
}

/// A new list is taken over. The selection stays where its plan is in the new list; else it goes to
/// the first plan in force, or else to the first plan. The fields hold the name and the description of
/// the selected plan. Nothing else changes.
pub proof fn law_new_list(app: AppView, all: Seq<PlanView>, i: int)
    requires
        0 <= i < all.len(),
        forall|k: int| 0 <= k < i ==> (#[trigger] all[k]).guid != all[i].guid,
        app.selected_guid == Some(all[i].guid) || {
            &&& app.selected_guid matches Some(guid) ==> forall|k: int|
                0 <= k < all.len() ==> (#[trigger] all[k]).guid != guid
            &&& all[i].active && (forall|k: int| 0 <= k < i ==> !(#[trigger] all[k]).active) || (i
                == 0 && forall|k: int| 0 <= k < all.len() ==> !(#[trigger] all[k]).active)
        },
    ensures
        app.reloaded(Ok(all)) == (AppView {
            plans: all,
            selected_guid: Some(all[i].guid),
            rename_text: all[i].name,
            description_text: all[i].description,
            ..app
        }),
{
    lemma_found(all, i);
    law_guid_in_force(all);
    if let Some(guid) = app.selected_guid {
        if guid != all[i].guid {
            lemma_not_found(all, guid);
        }
    }
    let hit = |plan: PlanView| plan.active;
    plans::lemma_first_where(all, hit);
    if all[i].active {
        assert(hit(all[i]));
    }
    if app.selected_guid != Some(all[i].guid) {
        if let Some(at) = model::find_active(all) {
            assert(hit(all[at]));
        }
    }
}

/// An empty list leaves nothing selected, and no list leaves all as it is.
pub proof fn law_empty_list(app: AppView, error: Seq<char>)
    ensures
        app.reloaded(Ok(Seq::empty())) == (AppView {
            plans: Seq::empty(),
            selected_guid: None,
            rename_text: Seq::empty(),
            description_text: Seq::empty(),
            ..app
        }),
        app.reloaded(Err(error)) == app,
{
    let none = Seq::<PlanView>::empty();
    if let Some(guid) = app.selected_guid {
        lemma_not_found(none, guid);
    }
    plans::lemma_first_where(none, |plan: PlanView| plan.active);
}

/// What follows a reading of the list: the list is taken over where there is one; then the status
/// line is shown, a plan selected or a restoration started, as it was wanted.
pub proof fn law_after_a_reading(
    app: AppView,
    all: Seq<PlanView>,
    error: Seq<char>,
    message: Seq<char>,
    line: StatusView,
    guid: Seq<char>,
)
    ensures
        ({
            let now = app.reloaded(Ok(all));
            let listed = exists|k: int| 0 <= k < now.plans.len() && (#[trigger] now.plans[k]).guid
                == guid;
            let still = exists|k: int| 0 <= k < app.plans.len() && (#[trigger] app.plans[k]).guid
                == guid;
            &&& app.after_load(Ok(all), AfterView::Report(message)) == (
                says(now, StatusKind::Success, message),
                StepView::Done,
            )
            &&& app.after_load(Err(error), AfterView::Report(message)) == complains(app, error)
            &&& app.after_load(Ok(all), AfterView::Show(line)) == (
                AppView { status: line, ..now },
                StepView::Done,
            )
            &&& app.after_load(Err(error), AfterView::Show(line)) == (
                AppView { status: line, ..app },
                StepView::Done,
            )
            &&& app.after_load(Ok(all), AfterView::Select(guid, line)) == (
                AppView { status: line, ..now.selecting(guid) },
                StepView::Done,
            )
            &&& app.after_load(Err(error), AfterView::Select(guid, line)) == (
                AppView { status: line, ..app.selecting(guid) },
                StepView::Done,
            )
            &&& listed ==> app.after_load(Ok(all), AfterView::SelectListed(guid, line)) == (
                AppView { status: line, ..now.selecting(guid) },
                StepView::Done,
            )
            &&& !listed ==> app.after_load(Ok(all), AfterView::SelectListed(guid, line)) == (
                AppView { status: line, ..now },
                StepView::Done,
            )
            &&& still ==> app.after_load(Err(error), AfterView::SelectListed(guid, line)) == (
                AppView { status: line, ..app.selecting(guid) },
                StepView::Done,
            )
            &&& !still ==> app.after_load(Err(error), AfterView::SelectListed(guid, line)) == (
                AppView { status: line, ..app },
                StepView::Done,
            )
            &&& app.after_load(Ok(all), AfterView::Reset) == now.restoring()
            &&& app.after_load(Err(error), AfterView::Reset) == complains(app, error)
        }),
{
    let now = app.reloaded(Ok(all));
    lemma_listed(now.plans, guid);
    lemma_listed(app.plans, guid);
}

proof fn lemma_listed(all: Seq<PlanView>, guid: Seq<char>)
    ensures
        model::find_plan(all, guid) is Some <==> exists|k: int|
            0 <= k < all.len() && (#[trigger] all[k]).guid == guid,
{
    let hit = |plan: PlanView| plan.guid == guid;
    plans::lemma_first_where(all, hit);
    if let Some(at) = model::find_plan(all, guid) {
        assert(hit(all[at]));
        assert(all[at].guid == guid);
    } else {
        assert forall|k: int| 0 <= k < all.len() implies (#[trigger] all[k]).guid != guid by {
            assert(!hit(all[k]));
        }
    }
}

/// The reading of the list from the window: question by question, as a reading by itself, and then
/// what was wanted follows.
pub proof fn law_reading_of_the_window(
    app: AppView,
    reading: load::LoadView,
    after: AfterView,
    answer: outcomes::AnswerView,
)
    ensures
        match load::load_next(reading, answer) {
            load::LoadStepView::Ask(command, further) => app.next(
                TaskView::Load(reading, after),
                answer,
            ) == (app, StepView::Ask(ActionView::Run(command), TaskView::Load(further, after))),
            load::LoadStepView::Done(loaded) => app.next(TaskView::Load(reading, after), answer)
                == app.after_load(loaded, after),
        },
{
}

proof fn lemma_reading(
    app: AppView,
    step: load::LoadStepView,
    after: AfterView,
    answers: Seq<outcomes::AnswerView>,
    loaded: Result<Seq<PlanView>, Seq<char>>,
)
    requires
        step is Ask,
        load::load_run(step, answers) == load::LoadStepView::Done(loaded),
        answers.len() > 0 ==> load::load_run(step, answers.drop_last()) is Ask,
    ensures
        manager_laws::run_after(app.load_on(step, after), answers) == app.after_load(loaded, after),
    decreases answers.len(),
{
    lemma_window_follows(app, step, after, answers.drop_last());
    lemma_run_last(step, answers);
}

proof fn lemma_run_last(step: load::LoadStepView, answers: Seq<outcomes::AnswerView>)
    requires
        answers.len() > 0,
    ensures
        load::load_run(step, answers) == match load::load_run(step, answers.drop_last()) {
            load::LoadStepView::Ask(_, task) => load::load_next(task, answers.last()),
            load::LoadStepView::Done(loaded) => load::LoadStepView::Done(loaded),
        },
    decreases answers.len(),
{
    if let load::LoadStepView::Ask(_, task) = step {
        let next = load::load_next(task, answers.first());
        if answers.len() > 1 {
            lemma_run_last(next, answers.drop_first());
            assert(answers.drop_first().drop_last() =~= answers.drop_last().drop_first());
            assert(answers.drop_last().first() == answers.first());
        } else {
            assert(answers.drop_first() =~= Seq::<outcomes::AnswerView>::empty());
            assert(answers.drop_last() =~= Seq::<outcomes::AnswerView>::empty());
            assert(load::load_run(next, answers.drop_first()) == next);
        }
    }
}

proof fn lemma_window_follows(
    app: AppView,
    step: load::LoadStepView,
    after: AfterView,
    answers: Seq<outcomes::AnswerView>,
)
    requires
        load::load_run(step, answers) is Ask,
    ensures
        manager_laws::run_after(app.load_on(step, after), answers) == app.load_on(
            load::load_run(step, answers),
            after,
        ),
    decreases answers.len(),
{
    if answers.len() > 0 {
        lemma_run_last(step, answers);
        lemma_window_follows(app, step, after, answers.drop_last());
    }
}

/// A reading of the list that ends with the last of some answers leaves the window as what follows
/// the list that these answers give.
pub proof fn law_whole_reading(
    app: AppView,
    after: AfterView,
    active: outcomes::AnswerView,
    list: outcomes::AnswerView,
    asked: Seq<outcomes::AnswerView>,
)
    requires
        list matches Ok(output) ==> asked.len() == load::listed_plans(
            output,
            load::active_by(active),
        ).len(),
        list is Err ==> asked.len() == 0,
    ensures
        manager_laws::run_after(reads_list(app, after), seq![active, list] + asked)
            == app.after_load(load::loaded_list(active, list, asked), after),
{
    let answers = seq![active, list] + asked;
    load::law_load_gives_the_list(active, list, asked);
    let start = load::load_start();
    let second = load::LoadStepView::Ask(
        crate::commands::list_command(),
        load::LoadView::AskedList(load::active_by(active)),
    );
    assert(answers.drop_first().drop_first() =~= asked);
    if asked.len() == 0 {
        assert(answers.drop_last() =~= seq![active]);
        assert(seq![active].drop_first() =~= Seq::<outcomes::AnswerView>::empty());
        assert(load::load_run(second, seq![active].drop_first()) == second);
    } else {
        let fewer = asked.drop_last();
        assert(answers.drop_last() =~= seq![active, list] + fewer);
        crate::load_laws::law_questions_of_a_reading(active, list->Ok_0, fewer);
    }
    lemma_reading(app, start, after, answers, load::loaded_list(active, list, asked));
}

/// Which buttons can be pressed: none but that for the channel while an import runs; Export All where
/// there are plans; those on the selected plan where there is one, and to put it in force or delete
/// it only where it is not in force.
pub proof fn law_buttons(app: AppView, i: int)
    ensures
        ({
            let free = app.fpsheaven_import_job is None;
            let bar = app.toolbar();
            &&& bar.refresh == free
            &&& bar.restore_defaults == free
            &&& bar.import == free
            &&& bar.download == free
            &&& bar.export_all == (free && app.plans.len() > 0)
            &&& none_chosen(app) ==> !bar.export && !bar.delete && app.details() is None
            &&& is_chosen(app, i) ==> {
                let plan = app.plans[i];
                &&& bar.export == free
                &&& bar.delete == (free && !plan.active)
                &&& app.details() matches Some(details) && {
                    &&& details.activate == (free && !plan.active)
                    &&& details.delete == (free && !plan.active)
                    &&& details.duplicate == free
                    &&& details.edit == free
                    &&& details.export == free
                    &&& details.save == (free && text::trimmed(app.rename_text).len() > 0 && !(
                    text::trimmed(app.rename_text) == plan.name && text::trimmed(
                        app.description_text,
                    ) == plan.description))
                }
            }
        }),
{
    law_selected_plan(app, i);
}

} // verus!
