//! What holds of every import of a FPSHEAVEN plan, whatever is handed back to it.
use vstd::prelude::*;

use crate::actions;
use crate::command_laws;
use crate::commands;
use crate::file_names;
use crate::fpsheaven;
use crate::guid;
use crate::load;
use crate::outcomes;
use crate::plans;
use crate::text;

verus! {

/// What is handed back to an import: an answer, or the unpacked plan files.
pub enum ImportEvent {
    /// The answer to something that was asked for.
    Answer(outcomes::AnswerView),
    /// The unpacked plan files.
    Files(Result<Seq<file_names::PlanFileView>, Seq<char>>),
}

/// What an import comes to by what is handed back to it. An import that is over stays as it is.
pub open spec fn import_on(step: fpsheaven::ImportStepView, event: ImportEvent) -> fpsheaven::ImportStepView {
    match (step, event) {
        (fpsheaven::ImportStepView::Ask(_, task), ImportEvent::Answer(answer)) => fpsheaven::import_next(task, answer),
        (fpsheaven::ImportStepView::List(job), ImportEvent::Files(files)) => fpsheaven::files_next(job, files),
        _ => step,
    }
}

/// What an import has come to after some events.
pub open spec fn import_after(
    job: fpsheaven::ImportJobView,
    on_windows: bool,
    events: Seq<ImportEvent>,
) -> fpsheaven::ImportStepView
    decreases events.len(),
{
    if events.len() == 0 {
        fpsheaven::import_start(job, on_windows)
    } else {
        import_on(import_after(job, on_windows, events.drop_last()), events.last())
    }
}

/// After some events an order was given, and the next event says that it was carried out.
pub open spec fn carried_out(
    job: fpsheaven::ImportJobView,
    on_windows: bool,
    events: Seq<ImportEvent>,
    at: int,
    command: commands::CommandView,
) -> bool {
    &&& 0 <= at < events.len()
    &&& import_after(job, on_windows, events.take(at)) matches fpsheaven::ImportStepView::Ask(action, _)
        && action == actions::ActionView::Run(command)
    &&& events[at] matches ImportEvent::Answer(answer) && answer is Ok
}

/// Where a plan is to be replaced, another plan is put in force first.
proof fn lemma_replacing(
    job: fpsheaven::ImportJobView,
    on_windows: bool,
    events: Seq<ImportEvent>,
    file: fpsheaven::ChosenView,
    old: plans::PlanView,
    other: Seq<char>,
)
    requires
        import_after(job, on_windows, events) matches fpsheaven::ImportStepView::Ask(_, task) && task.stage
            == fpsheaven::ImportStageView::Replacing(file, old, other),
    ensures
        events.len() > 0,
        import_after(job, on_windows, events) matches fpsheaven::ImportStepView::Ask(action, task) && action
            == actions::ActionView::Run(commands::set_active_command(other)),
        other != old.guid,
        old.active,
        plans::is_fpsheaven(old),
    decreases events.len(),
{
    let before = import_after(job, on_windows, events.drop_last());
    let step = import_after(job, on_windows, events);
    if step == before {
        lemma_replacing(job, on_windows, events.drop_last(), file, old, other);
    } else {
        let reading = match (before, events.last()) {
            (fpsheaven::ImportStepView::Ask(_, task), ImportEvent::Answer(answer)) => load::load_next(
                task.stage->Loading_1,
                answer,
            ),
            _ => load::load_start(),
        };
        assert(reading matches load::LoadStepView::Done(Ok(_)));
        let current = reading->Done_0->Ok_0;
        let hit = |plan: plans::PlanView| plan.active && plans::is_fpsheaven(plan);
        plans::lemma_first_where(current, hit);
        let at = plans::first_where(current, hit)->0;
        assert(hit(current[at]));
        plans::law_replacement_is_another_plan(current, current[at].guid);
    }
}

/// The old FPSHEAVEN plan is deleted only once another plan was put in force in its place, and only
/// where the old plan was the one in force.
pub proof fn law_old_plan_goes_after_another_is_in_force(
    job: fpsheaven::ImportJobView,
    on_windows: bool,
    events: Seq<ImportEvent>,
    old: plans::PlanView,
)
    requires
        import_after(job, on_windows, events) matches fpsheaven::ImportStepView::Ask(_, task) && (
        task.stage matches fpsheaven::ImportStageView::Deleting(_, deleted) && deleted == old),
    ensures
        import_after(job, on_windows, events) matches fpsheaven::ImportStepView::Ask(action, _) && action
            == actions::ActionView::Run(commands::delete_command(old.guid)),
        old.active && plans::is_fpsheaven(old),
        exists|at: int, other: Seq<char>|
            other != old.guid && #[trigger] carried_out(
                job,
                on_windows,
                events,
                at,
                commands::set_active_command(other),
            ),
    decreases events.len(),
{
    let shorter = events.drop_last();
    let before = import_after(job, on_windows, shorter);
    if import_after(job, on_windows, events) == before {
        law_old_plan_goes_after_another_is_in_force(job, on_windows, shorter, old);
        let (at, other) = choose|at: int, other: Seq<char>|
            other != old.guid && #[trigger] carried_out(
                job,
                on_windows,
                shorter,
                at,
                commands::set_active_command(other),
            );
        assert(events.take(at) == shorter.take(at));
        assert(carried_out(job, on_windows, events, at, commands::set_active_command(other)));
    } else {
        let stage = before->Ask_1.stage;
        assert(stage is Replacing);
        let other = stage->Replacing_2;
        lemma_replacing(job, on_windows, shorter, stage->Replacing_0, old, other);
        assert(events.take(events.len() - 1) == shorter);
        assert(carried_out(
            job,
            on_windows,
            events,
            events.len() - 1,
            commands::set_active_command(other),
        ));
    }
}

/// An import that gives a plan has imported it under its GUID and then put it in force.
pub proof fn law_imported_plan_is_in_force(
    job: fpsheaven::ImportJobView,
    on_windows: bool,
    events: Seq<ImportEvent>,
    imported: fpsheaven::ImportedView,
)
    requires
        import_after(job, on_windows, events) == fpsheaven::ImportStepView::Done(Ok(imported)),
    ensures
        exists|before: int, at: int, file: usize|
            before < at && #[trigger] carried_out(
                job,
                on_windows,
                events,
                before,
                commands::import_command(commands::ArgView::Unpacked(file), Some(imported.guid)),
            ) && #[trigger] carried_out(
                job,
                on_windows,
                events,
                at,
                commands::set_active_command(imported.guid),
            ),
{
    let at = lemma_activated(job, on_windows, events, imported.guid);
    let before = lemma_imported(job, on_windows, events.take(at), imported.guid);
    let file = choose|file: usize|
        #[trigger] carried_out(
            job,
            on_windows,
            events.take(at),
            before,
            commands::import_command(commands::ArgView::Unpacked(file), Some(imported.guid)),
        );
    assert(events.take(at).take(before) == events.take(before));
    assert(carried_out(
        job,
        on_windows,
        events,
        before,
        commands::import_command(commands::ArgView::Unpacked(file), Some(imported.guid)),
    ));
}

/// An import that has put its plan in force did so by an order that was carried out.
proof fn lemma_activated(
    job: fpsheaven::ImportJobView,
    on_windows: bool,
    events: Seq<ImportEvent>,
    new_guid: Seq<char>,
) -> (at: int)
    requires
        match import_after(job, on_windows, events) {
            fpsheaven::ImportStepView::Done(Ok(imported)) => imported.guid == new_guid,
            fpsheaven::ImportStepView::Ask(_, task) => task.stage matches fpsheaven::ImportStageView::RemovingArchive(
                _,
                _,
                known,
            ) && known == new_guid,
            _ => false,
        },
    ensures
        carried_out(job, on_windows, events, at, commands::set_active_command(new_guid)),
        import_after(job, on_windows, events.take(at)) matches fpsheaven::ImportStepView::Ask(_, task) && (
        task.stage matches fpsheaven::ImportStageView::Activating(_, _, known) && known == new_guid),
    decreases events.len(),
{
    let shorter = events.drop_last();
    let before = import_after(job, on_windows, shorter);
    if before matches fpsheaven::ImportStepView::Ask(_, task) && task.stage is Activating {
        lemma_activating(job, on_windows, shorter);
        assert(events.take(events.len() - 1) == shorter);
        events.len() - 1
    } else {
        let at = lemma_activated(job, on_windows, shorter, new_guid);
        assert(events.take(at) == shorter.take(at));
        at
    }
}

/// While a plan is being put in force the order for it is given.
proof fn lemma_activating(job: fpsheaven::ImportJobView, on_windows: bool, events: Seq<ImportEvent>)
    requires
        import_after(job, on_windows, events) matches fpsheaven::ImportStepView::Ask(_, task)
            && task.stage is Activating,
    ensures
        import_after(job, on_windows, events) matches fpsheaven::ImportStepView::Ask(action, task) && action
            == actions::ActionView::Run(
            commands::set_active_command(task.stage->Activating_2),
        ),
    decreases events.len(),
{
    let before = import_after(job, on_windows, events.drop_last());
    if import_after(job, on_windows, events) == before {
        lemma_activating(job, on_windows, events.drop_last());
    }
}

/// While a plan is being imported the order for it is given.
proof fn lemma_importing(job: fpsheaven::ImportJobView, on_windows: bool, events: Seq<ImportEvent>)
    requires
        import_after(job, on_windows, events) matches fpsheaven::ImportStepView::Ask(_, task)
            && task.stage is Importing,
    ensures
        import_after(job, on_windows, events) matches fpsheaven::ImportStepView::Ask(action, task) && action
            == actions::ActionView::Run(
            commands::import_command(
                commands::ArgView::Unpacked(task.stage->Importing_0.at as usize),
                Some(task.stage->Importing_2),
            ),
        ),
    decreases events.len(),
{
    let before = import_after(job, on_windows, events.drop_last());
    if import_after(job, on_windows, events) == before {
        lemma_importing(job, on_windows, events.drop_last());
    }
}

/// An import that is putting its plan in force has imported it by an order that was carried out.
proof fn lemma_imported(
    job: fpsheaven::ImportJobView,
    on_windows: bool,
    events: Seq<ImportEvent>,
    new_guid: Seq<char>,
) -> (at: int)
    requires
        import_after(job, on_windows, events) matches fpsheaven::ImportStepView::Ask(_, task) && (
        task.stage matches fpsheaven::ImportStageView::Activating(_, _, known) && known == new_guid),
    ensures
        exists|file: usize|
            #[trigger] carried_out(
                job,
                on_windows,
                events,
                at,
                commands::import_command(commands::ArgView::Unpacked(file), Some(new_guid)),
            ),
    decreases events.len(),
{
    let shorter = events.drop_last();
    let before = import_after(job, on_windows, shorter);
    if import_after(job, on_windows, events) == before {
        let at = lemma_imported(job, on_windows, shorter, new_guid);
        let file = choose|file: usize|
            #[trigger] carried_out(
                job,
                on_windows,
                shorter,
                at,
                commands::import_command(commands::ArgView::Unpacked(file), Some(new_guid)),
            );
        assert(events.take(at) == shorter.take(at));
        assert(carried_out(
            job,
            on_windows,
            events,
            at,
            commands::import_command(commands::ArgView::Unpacked(file), Some(new_guid)),
        ));
        at
    } else {
        lemma_importing(job, on_windows, shorter);
        assert(events.take(events.len() - 1) == shorter);
        let file = before->Ask_1.stage->Importing_0.at as usize;
        assert(carried_out(
            job,
            on_windows,
            events,
            events.len() - 1,
            commands::import_command(commands::ArgView::Unpacked(file), Some(new_guid)),
        ));
        events.len() - 1
    }
}

/// The name of the plan that an import has deleted.
pub open spec fn replaced_name(step: fpsheaven::ImportStepView) -> Option<Seq<char>> {
    match step {
        fpsheaven::ImportStepView::Ask(_, task) => match task.stage {
            fpsheaven::ImportStageView::MakingGuid(_, replaced) => replaced,
            fpsheaven::ImportStageView::Importing(_, replaced, _) => replaced,
            fpsheaven::ImportStageView::Activating(_, replaced, _) => replaced,
            fpsheaven::ImportStageView::RemovingArchive(_, replaced, _) => replaced,
            _ => None,
        },
        fpsheaven::ImportStepView::Done(Ok(imported)) => imported.replaced_active_plan_name,
        _ => None,
    }
}

/// An import was deleting the plan `old` after some events, and the next event says that the plan was
/// deleted.
pub open spec fn deleted(
    job: fpsheaven::ImportJobView,
    on_windows: bool,
    events: Seq<ImportEvent>,
    at: int,
    old: plans::PlanView,
) -> bool {
    &&& carried_out(job, on_windows, events, at, commands::delete_command(old.guid))
    &&& import_after(
        job,
        on_windows,
        events.take(at),
    ) matches fpsheaven::ImportStepView::Ask(_, task) && (
    task.stage matches fpsheaven::ImportStageView::Deleting(_, plan) && plan == old)
}

/// A plan is named as replaced only where it is the plan that the import deleted: a FPSHEAVEN plan
/// of that name that was in force.
pub proof fn law_replaced_plan_was_deleted(
    job: fpsheaven::ImportJobView,
    on_windows: bool,
    events: Seq<ImportEvent>,
    name: Seq<char>,
)
    requires
        replaced_name(import_after(job, on_windows, events)) == Some(name),
    ensures
        exists|at: int, old: plans::PlanView|
            old.name == name && old.active && plans::is_fpsheaven(old) && #[trigger] deleted(
                job,
                on_windows,
                events,
                at,
                old,
            ),
    decreases events.len(),
{
    let shorter = events.drop_last();
    let before = import_after(job, on_windows, shorter);
    if replaced_name(before) == Some(name) {
        law_replaced_plan_was_deleted(job, on_windows, shorter, name);
        let (at, old) = choose|at: int, old: plans::PlanView|
            old.name == name && old.active && plans::is_fpsheaven(old) && #[trigger] deleted(
                job,
                on_windows,
                shorter,
                at,
                old,
            );
        assert(events.take(at) == shorter.take(at));
        assert(deleted(job, on_windows, events, at, old));
    } else {
        let old = before->Ask_1.stage->Deleting_1;
        law_old_plan_goes_after_another_is_in_force(job, on_windows, shorter, old);
        assert(events.take(events.len() - 1) == shorter);
        assert(deleted(job, on_windows, events, events.len() - 1, old));
    }
}

/// The file that an import has chosen.
pub open spec fn chosen_file(step: fpsheaven::ImportStepView) -> Option<fpsheaven::ChosenView> {
    match step {
        fpsheaven::ImportStepView::Ask(_, task) => match task.stage {
            fpsheaven::ImportStageView::Loading(file, _) => Some(file),
            fpsheaven::ImportStageView::Replacing(file, _, _) => Some(file),
            fpsheaven::ImportStageView::Deleting(file, _) => Some(file),
            fpsheaven::ImportStageView::MakingGuid(file, _) => Some(file),
            fpsheaven::ImportStageView::Importing(file, _, _) => Some(file),
            fpsheaven::ImportStageView::Activating(file, _, _) => Some(file),
            fpsheaven::ImportStageView::RemovingArchive(file, _, _) => Some(file),
            _ => None,
        },
        _ => None,
    }
}

/// After `at` of the events the unpacked plan files were asked for, `files` were handed over, and the
/// file for the kind of the job is the one at `place`.
pub open spec fn handed_over(
    job: fpsheaven::ImportJobView,
    on_windows: bool,
    events: Seq<ImportEvent>,
    at: int,
    files: Seq<file_names::PlanFileView>,
    place: int,
) -> bool {
    &&& 0 <= at < events.len()
    &&& import_after(job, on_windows, events.take(at)) is List
    &&& events[at] == ImportEvent::Files(Ok(files))
    &&& file_names::fpsheaven_file(files, job.kind) == Some(place)
}

proof fn lemma_job_stays(
    job: fpsheaven::ImportJobView,
    on_windows: bool,
    events: Seq<ImportEvent>,
)
    ensures
        match import_after(job, on_windows, events) {
            fpsheaven::ImportStepView::Ask(_, task) => task.job == job,
            fpsheaven::ImportStepView::List(known) => known == job,
            fpsheaven::ImportStepView::Done(_) => true,
        },
    decreases events.len(),
{
    if events.len() > 0 {
        lemma_job_stays(job, on_windows, events.drop_last());
    }
}

proof fn lemma_origin_of_file(
    job: fpsheaven::ImportJobView,
    on_windows: bool,
    events: Seq<ImportEvent>,
    file: fpsheaven::ChosenView,
) -> (r: (int, Seq<file_names::PlanFileView>, int))
    requires
        chosen_file(import_after(job, on_windows, events)) == Some(file),
    ensures
        handed_over(job, on_windows, events, r.0, r.1, r.2),
        file == (fpsheaven::ChosenView { at: r.2, path: r.1[r.2].path }),
    decreases events.len(),
{
    let shorter = events.drop_last();
    let before = import_after(job, on_windows, shorter);
    lemma_job_stays(job, on_windows, shorter);
    if chosen_file(before) == Some(file) {
        let r = lemma_origin_of_file(job, on_windows, shorter, file);
        assert(events.take(r.0) == shorter.take(r.0));
        r
    } else {
        assert(before is List);
        let files = events.last()->Files_0->Ok_0;
        assert(events.take(events.len() - 1) == shorter);
        (events.len() - 1, files, file_names::fpsheaven_file(files, job.kind)->0)
    }
}

proof fn lemma_import_of_file(
    job: fpsheaven::ImportJobView,
    on_windows: bool,
    events: Seq<ImportEvent>,
    file: fpsheaven::ChosenView,
    new_guid: Seq<char>,
) -> (at: int)
    requires
        import_after(job, on_windows, events) matches fpsheaven::ImportStepView::Ask(_, task) && match task.stage {
            fpsheaven::ImportStageView::Activating(chosen, _, known) => chosen == file && known
                == new_guid,
            fpsheaven::ImportStageView::RemovingArchive(chosen, _, known) => chosen == file && known
                == new_guid,
            _ => false,
        },
    ensures
        carried_out(
            job,
            on_windows,
            events,
            at,
            commands::import_command(
                commands::ArgView::Unpacked(file.at as usize),
                Some(new_guid),
            ),
        ),
        chosen_file(import_after(job, on_windows, events.take(at))) == Some(file),
    decreases events.len(),
{
    let shorter = events.drop_last();
    let before = import_after(job, on_windows, shorter);
    if before matches fpsheaven::ImportStepView::Ask(_, task) && task.stage is Importing {
        lemma_importing(job, on_windows, shorter);
        assert(events.take(events.len() - 1) == shorter);
        events.len() - 1
    } else {
        let at = lemma_import_of_file(job, on_windows, shorter, file, new_guid);
        assert(events.take(at) == shorter.take(at));
        at
    }
}

proof fn lemma_file_of_result(
    job: fpsheaven::ImportJobView,
    on_windows: bool,
    events: Seq<ImportEvent>,
    imported: fpsheaven::ImportedView,
) -> (r: (int, fpsheaven::ChosenView))
    requires
        import_after(job, on_windows, events) == fpsheaven::ImportStepView::Done(
            Ok::<_, Seq<char>>(imported),
        ),
    ensures
        0 <= r.0 <= events.len(),
        r.1.path == imported.plan_path,
        import_after(
            job,
            on_windows,
            events.take(r.0),
        ) matches fpsheaven::ImportStepView::Ask(_, task) && (
        task.stage matches fpsheaven::ImportStageView::RemovingArchive(file, _, known) && file == r.1
            && known == imported.guid),
    decreases events.len(),
{
    let shorter = events.drop_last();
    let before = import_after(job, on_windows, shorter);
    if before is Done {
        let r = lemma_file_of_result(job, on_windows, shorter, imported);
        assert(events.take(r.0) == shorter.take(r.0));
        r
    } else {
        assert(events.take(events.len() - 1) == shorter);
        (events.len() - 1, before->Ask_1.stage->RemovingArchive_0)
    }
}

/// The order to import the unpacked file at a place under a GUID.
pub open spec fn import_line(place: int, guid: Seq<char>) -> commands::CommandView {
    command_laws::powercfg_line(
        seq![
            commands::ArgView::Text("/import"@),
            commands::ArgView::Unpacked(place as usize),
            commands::ArgView::Text(guid),
        ],
    )
}

/// An import that gives a plan imported the file for the kind that it was started with: of the plan
/// files that were handed over, the one that is for that kind. It was imported under the GUID of the
/// plan, and its path is the one that is told.
pub proof fn law_file_of_the_kind_is_imported(
    job: fpsheaven::ImportJobView,
    on_windows: bool,
    events: Seq<ImportEvent>,
    imported: fpsheaven::ImportedView,
)
    requires
        import_after(job, on_windows, events) == fpsheaven::ImportStepView::Done(
            Ok::<_, Seq<char>>(imported),
        ),
    ensures
        exists|listed: int, files: Seq<file_names::PlanFileView>, place: int, at: int|
            listed < at && #[trigger] handed_over(job, on_windows, events, listed, files, place)
                && #[trigger] carried_out(
                job,
                on_windows,
                events,
                at,
                import_line(place, imported.guid),
            ) && imported.plan_path == files[place].path,
{
    let (end, file) = lemma_file_of_result(job, on_windows, events, imported);
    let so_far = events.take(end);
    let at = lemma_import_of_file(job, on_windows, so_far, file, imported.guid);
    assert(so_far.take(at) == events.take(at));
    let (listed, files, place) = lemma_origin_of_file(job, on_windows, events.take(at), file);
    assert(events.take(at).take(listed) == events.take(listed));
    assert(handed_over(job, on_windows, events, listed, files, place));
    assert(carried_out(
        job,
        on_windows,
        events,
        at,
        import_line(place, imported.guid),
    ));
}

/// An import at a stage.
pub open spec fn at_stage(
    job: fpsheaven::ImportJobView,
    stage: fpsheaven::ImportStageView,
) -> fpsheaven::ImportTaskView {
    fpsheaven::ImportTaskView { job, stage }
}

/// A script is run and the import stands at a stage.
pub open spec fn runs_script(
    step: fpsheaven::ImportStepView,
    job: fpsheaven::ImportJobView,
    script: Seq<char>,
    stage: fpsheaven::ImportStageView,
) -> bool {
    step == fpsheaven::ImportStepView::Ask(
        actions::ActionView::Run(
            commands::CommandView {
                program: commands::Program::Powershell,
                needs_windows: false,
                args: seq![
                    commands::ArgView::Text("-NoProfile"@),
                    commands::ArgView::Text("-NonInteractive"@),
                    commands::ArgView::Text("-ExecutionPolicy"@),
                    commands::ArgView::Text("Bypass"@),
                    commands::ArgView::Text("-Command"@),
                    commands::ArgView::Text(script),
                ],
            },
        ),
        at_stage(job, stage),
    )
}

/// A plan is put in force, and the import stands at a stage.
pub open spec fn puts_in_force(
    step: fpsheaven::ImportStepView,
    job: fpsheaven::ImportJobView,
    guid: Seq<char>,
    stage: fpsheaven::ImportStageView,
) -> bool {
    step == fpsheaven::ImportStepView::Ask(
        actions::ActionView::Run(
            command_laws::powercfg_line(
                seq![commands::ArgView::Text("/setactive"@), commands::ArgView::Text(guid)],
            ),
        ),
        at_stage(job, stage),
    )
}

/// On Windows the archive is downloaded and unpacked into folders that are made for it, step by step,
/// and then the plan files are listed. Elsewhere nothing is done.
pub proof fn law_steps_of_a_download(job: fpsheaven::ImportJobView, output: Seq<char>)
    ensures
        fpsheaven::import_start(job, false) == fpsheaven::ImportStepView::Done(
            Err("This app manages Windows power plans and must be run on Windows"@),
        ),
        fpsheaven::import_start(job, true) == fpsheaven::ImportStepView::Ask(
            actions::ActionView::CreateDownloadFolder,
            at_stage(job, fpsheaven::ImportStageView::CreatingDownloads),
        ),
        fpsheaven::import_next(
            at_stage(job, fpsheaven::ImportStageView::CreatingDownloads),
            Ok(output),
        ) == fpsheaven::ImportStepView::Ask(
            actions::ActionView::CreateArchiveFolder,
            at_stage(job, fpsheaven::ImportStageView::CreatingArchiveFolder),
        ),
        runs_script(
            fpsheaven::import_next(
                at_stage(job, fpsheaven::ImportStageView::CreatingArchiveFolder),
                Ok(output),
            ),
            job,
            "$ErrorActionPreference = 'Stop'; [Net.ServicePointManager]::SecurityProtocol = [Net.SecurityProtocolType]::Tls12; Invoke-WebRequest -Uri "@
                + commands::quoted(
                "https://fpsheaven.com/wp-content/uploads/2026/06/fpsheaven_powerplans.zip"@,
            ) + " -OutFile "@ + commands::quoted(job.archive) + " -UseBasicParsing"@,
            fpsheaven::ImportStageView::Downloading,
        ),
        fpsheaven::import_next(
            at_stage(job, fpsheaven::ImportStageView::Downloading),
            Ok(output),
        ) == fpsheaven::ImportStepView::Ask(
            actions::ActionView::ClearUnpackFolder,
            at_stage(job, fpsheaven::ImportStageView::ClearingFolder),
        ),
        fpsheaven::import_next(
            at_stage(job, fpsheaven::ImportStageView::ClearingFolder),
            Ok(output),
        ) == fpsheaven::ImportStepView::Ask(
            actions::ActionView::CreateUnpackFolder,
            at_stage(job, fpsheaven::ImportStageView::CreatingFolder),
        ),
        runs_script(
            fpsheaven::import_next(
                at_stage(job, fpsheaven::ImportStageView::CreatingFolder),
                Ok(output),
            ),
            job,
            "$ErrorActionPreference = 'Stop'; Expand-Archive -LiteralPath "@ + commands::quoted(
                job.archive,
            ) + " -DestinationPath "@ + commands::quoted(job.folder) + " -Force"@,
            fpsheaven::ImportStageView::Unpacking,
        ),
        fpsheaven::import_next(
            at_stage(job, fpsheaven::ImportStageView::Unpacking),
            Ok(output),
        ) == fpsheaven::ImportStepView::List(job),
{
}

/// A failed step before the plan file is chosen ends the import, and the report says which.
pub proof fn law_failures_of_a_download(job: fpsheaven::ImportJobView, error: Seq<char>)
    ensures
        fpsheaven::import_next(
            at_stage(job, fpsheaven::ImportStageView::CreatingDownloads),
            Err(error),
        ) == fpsheaven::ImportStepView::Done(
            Err("Could not create FPSHEAVEN download folder: "@ + error),
        ),
        fpsheaven::import_next(
            at_stage(job, fpsheaven::ImportStageView::CreatingArchiveFolder),
            Err(error),
        ) == fpsheaven::ImportStepView::Done(
            Err("Could not create download folder: "@ + error),
        ),
        fpsheaven::import_next(
            at_stage(job, fpsheaven::ImportStageView::Downloading),
            Err(error),
        ) == fpsheaven::ImportStepView::Done(Err(error)),
        fpsheaven::import_next(
            at_stage(job, fpsheaven::ImportStageView::ClearingFolder),
            Err(error),
        ) == fpsheaven::ImportStepView::Done(
            Err("Could not clear old extract folder: "@ + error),
        ),
        fpsheaven::import_next(
            at_stage(job, fpsheaven::ImportStageView::CreatingFolder),
            Err(error),
        ) == fpsheaven::ImportStepView::Done(
            Err("Could not create extract folder: "@ + error),
        ),
        fpsheaven::import_next(
            at_stage(job, fpsheaven::ImportStageView::Unpacking),
            Err(error),
        ) == fpsheaven::ImportStepView::Done(Err(error)),
        fpsheaven::files_next(job, Err(error)) == fpsheaven::ImportStepView::Done(Err(error)),
{
}

/// Of the plan files the one for the kind of the job is chosen and the list of plans is read; without
/// such a file the import ends.
pub proof fn law_choice_of_the_file(
    job: fpsheaven::ImportJobView,
    files: Seq<file_names::PlanFileView>,
)
    ensures
        match file_names::fpsheaven_file(files, job.kind) {
            Some(place) => fpsheaven::files_next(job, Ok(files)) == fpsheaven::ImportStepView::Ask(
                actions::ActionView::Run(
                    command_laws::powercfg_line(
                        seq![commands::ArgView::Text("/getactivescheme"@)],
                    ),
                ),
                at_stage(
                    job,
                    fpsheaven::ImportStageView::Loading(
                        fpsheaven::ChosenView { at: place, path: files[place].path },
                        load::LoadView::AskedActive,
                    ),
                ),
            ),
            None => fpsheaven::files_next(job, Ok(files)) == fpsheaven::ImportStepView::Done(
                Err(
                    "Could not find a FPSHEAVEN "@ + match job.kind {
                        plans::FpsheavenPowerPlanKind::Intel => "INTEL"@,
                        plans::FpsheavenPowerPlanKind::Amd => "AMD"@,
                    } + " .pow file in "@ + job.folder,
                ),
            ),
        },
{
}

/// What the list of plans leads to: where the plan in force comes from FPSHEAVEN another plan is put
/// in force, else a GUID is made at once; an error ends the import.
pub proof fn law_what_the_list_leads_to(
    job: fpsheaven::ImportJobView,
    file: fpsheaven::ChosenView,
    reading: load::LoadView,
    answer: outcomes::AnswerView,
)
    ensures
        ({
            let step = fpsheaven::import_next(
                at_stage(job, fpsheaven::ImportStageView::Loading(file, reading)),
                answer,
            );
            match load::load_next(reading, answer) {
                load::LoadStepView::Ask(command, further) => step == fpsheaven::ImportStepView::Ask(
                    actions::ActionView::Run(command),
                    at_stage(job, fpsheaven::ImportStageView::Loading(file, further)),
                ),
                load::LoadStepView::Done(Err(error)) => step == fpsheaven::ImportStepView::Done(
                    Err(error),
                ),
                load::LoadStepView::Done(Ok(current)) => match fpsheaven::plan_to_replace(current) {
                    Ok(Some((old, other))) => puts_in_force(
                        step,
                        job,
                        other,
                        fpsheaven::ImportStageView::Replacing(file, old, other),
                    ),
                    Ok(None) => runs_script(
                        step,
                        job,
                        "[guid]::NewGuid().ToString()"@,
                        fpsheaven::ImportStageView::MakingGuid(file, None),
                    ),
                    Err(error) => step == fpsheaven::ImportStepView::Done(Err(error)),
                },
            }
        }),
{
}

/// The old plan is deleted once another is in force, and then a GUID is made; the new plan is imported
/// under the GUID that was printed, put in force, and told of. A failure ends the import, but for
/// that of removing the archive.
pub proof fn law_steps_of_an_import(
    job: fpsheaven::ImportJobView,
    file: fpsheaven::ChosenView,
    old: plans::PlanView,
    other: Seq<char>,
    replaced: Option<Seq<char>>,
    new_guid: Seq<char>,
    output: Seq<char>,
    error: Seq<char>,
    answer: outcomes::AnswerView,
)
    ensures
        fpsheaven::import_next(
            at_stage(job, fpsheaven::ImportStageView::Replacing(file, old, other)),
            Ok(output),
        ) == fpsheaven::ImportStepView::Ask(
            actions::ActionView::Run(
                command_laws::powercfg_line(
                    seq![commands::ArgView::Text("/delete"@), commands::ArgView::Text(old.guid)],
                ),
            ),
            at_stage(job, fpsheaven::ImportStageView::Deleting(file, old)),
        ),
        runs_script(
            fpsheaven::import_next(
                at_stage(job, fpsheaven::ImportStageView::Deleting(file, old)),
                Ok(output),
            ),
            job,
            "[guid]::NewGuid().ToString()"@,
            fpsheaven::ImportStageView::MakingGuid(file, Some(old.name)),
        ),
        ({
            let made = text::lower(text::trimmed(output));
            let step = fpsheaven::import_next(
                at_stage(job, fpsheaven::ImportStageView::MakingGuid(file, replaced)),
                Ok(output),
            );
            &&& guid::is_canonical_guid(made) ==> step == fpsheaven::ImportStepView::Ask(
                actions::ActionView::Run(
                    command_laws::powercfg_line(
                        seq![
                            commands::ArgView::Text("/import"@),
                            commands::ArgView::Unpacked(file.at as usize),
                            commands::ArgView::Text(made),
                        ],
                    ),
                ),
                at_stage(job, fpsheaven::ImportStageView::Importing(file, replaced, made)),
            )
            &&& !guid::is_canonical_guid(made) ==> step == fpsheaven::ImportStepView::Done(
                Err("Windows returned an invalid GUID: "@ + output),
            )
        }),
        puts_in_force(
            fpsheaven::import_next(
                at_stage(job, fpsheaven::ImportStageView::Importing(file, replaced, new_guid)),
                Ok(output),
            ),
            job,
            new_guid,
            fpsheaven::ImportStageView::Activating(file, replaced, new_guid),
        ),
        fpsheaven::import_next(
            at_stage(job, fpsheaven::ImportStageView::Activating(file, replaced, new_guid)),
            Ok(output),
        ) == fpsheaven::ImportStepView::Ask(
            actions::ActionView::RemoveArchive,
            at_stage(job, fpsheaven::ImportStageView::RemovingArchive(file, replaced, new_guid)),
        ),
        fpsheaven::import_next(
            at_stage(job, fpsheaven::ImportStageView::RemovingArchive(file, replaced, new_guid)),
            answer,
        ) == fpsheaven::ImportStepView::Done(
            Ok(
                fpsheaven::ImportedView {
                    guid: new_guid,
                    plan_path: file.path,
                    replaced_active_plan_name: replaced,
                },
            ),
        ),
        forall|stage: fpsheaven::ImportStageView|
            stage is Replacing || stage is Deleting || stage is MakingGuid || stage is Importing
                || stage is Activating ==> #[trigger] fpsheaven::import_next(
                at_stage(job, stage),
                Err(error),
            ) == fpsheaven::ImportStepView::Done(Err(error)),
{
}

} // verus!
