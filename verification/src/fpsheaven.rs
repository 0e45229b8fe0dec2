//! Downloading a FPSHEAVEN plan, importing it and putting it in force.
//!
//! A FPSHEAVEN plan that is in force is replaced: another plan is put in force, the old plan is
//! deleted, and the new plan takes its place.
use vstd::prelude::*;

use crate::actions;
use crate::actions::Action;
use crate::commands;
use crate::commands::{
    delete_power_plan, download_file, ensure_windows, extract_zip, import_power_plan_with_guid,
    run_powershell_script, set_active_plan, Arg, FPSHEAVEN_POWER_PLANS_URL,
};
use crate::file_names;
use crate::file_names::{find_fpsheaven_power_plan, PlanFile};
use crate::guid;
use crate::guid::new_power_plan_guid;
use crate::load;
use crate::load::{load_power_plans, LoadStep, LoadTask};
use crate::outcomes;
use crate::outcomes::Answer;
use crate::plans;
use crate::plans::{
    is_fpsheaven_power_plan, replacement_plan_for_deleting_active, FpsheavenPowerPlanKind,
    PowerPlan,
};
use crate::text;

verus! {

/// A plan that was imported.
#[derive(Debug)]
pub struct FpsheavenImportResult {
    /// The new plan's GUID.
    pub guid: String,
    /// The file that it was imported from, as it is shown.
    pub plan_path: String,
    /// The name of the plan that it took the place of.
    pub replaced_active_plan_name: Option<String>,
}

/// The contents of a [`FpsheavenImportResult`].
pub struct ImportedView {
    /// The new plan's GUID.
    pub guid: Seq<char>,
    /// The file that it was imported from.
    pub plan_path: Seq<char>,
    /// The name of the plan that it took the place of.
    pub replaced_active_plan_name: Option<Seq<char>>,
}

impl View for FpsheavenImportResult {
    type V = ImportedView;

    open spec fn view(&self) -> ImportedView {
        ImportedView {
            guid: self.guid@,
            plan_path: self.plan_path@,
            replaced_active_plan_name: plans::option_view(self.replaced_active_plan_name),
        }
    }
}

/// The unpacked plan files, or why they could not be listed.
pub type Files = Result<Vec<PlanFile>, String>;

/// The contents of [`Files`].
pub open spec fn files_view(files: Files) -> Result<Seq<file_names::PlanFileView>, Seq<char>> {
    match files {
        Ok(files) => Ok(file_names::file_views(files@)),
        Err(error) => Err(error@),
    }
}

/// The plan file that is imported: its place among the unpacked files, and its path as it is shown.
#[derive(Debug)]
pub struct ChosenFile {
    /// The place among the unpacked files.
    pub at: usize,
    /// The path as it is shown.
    pub path: String,
}

/// The contents of a [`ChosenFile`].
pub struct ChosenView {
    /// The place among the unpacked files.
    pub at: int,
    /// The path as it is shown.
    pub path: Seq<char>,
}

impl View for ChosenFile {
    type V = ChosenView;

    open spec fn view(&self) -> ChosenView {
        ChosenView { at: self.at as int, path: self.path@ }
    }
}

/// The step at which an import stands.
#[derive(Debug)]
pub enum ImportStage {
    /// The folder for downloads is being created.
    CreatingDownloads,
    /// The archive's folder is being created.
    CreatingArchiveFolder,
    /// The archive is being downloaded.
    Downloading,
    /// Old unpacked plans are being removed.
    ClearingFolder,
    /// The folder for unpacked plans is being created.
    CreatingFolder,
    /// The archive is being unpacked.
    Unpacking,
    /// The list of plans is being read.
    Loading {
        /// The file to import.
        file: ChosenFile,
        /// How far the reading has come.
        reading: LoadTask,
    },
    /// Another plan is being put in force in place of an old FPSHEAVEN plan.
    Replacing {
        /// The file to import.
        file: ChosenFile,
        /// The old plan.
        old: PowerPlan,
        /// The other plan's GUID.
        other: String,
    },
    /// The old FPSHEAVEN plan is being deleted.
    Deleting {
        /// The file to import.
        file: ChosenFile,
        /// The old plan.
        old: PowerPlan,
    },
    /// A GUID for the new plan is being made.
    MakingGuid {
        /// The file to import.
        file: ChosenFile,
        /// The name of the plan that was deleted.
        replaced: Option<String>,
    },
    /// The new plan is being imported.
    Importing {
        /// The file to import.
        file: ChosenFile,
        /// The name of the plan that was deleted.
        replaced: Option<String>,
        /// The new plan's GUID.
        guid: String,
    },
    /// The new plan is being put in force.
    Activating {
        /// The file that was imported.
        file: ChosenFile,
        /// The name of the plan that was deleted.
        replaced: Option<String>,
        /// The new plan's GUID.
        guid: String,
    },
    /// The archive is being removed.
    RemovingArchive {
        /// The file that was imported.
        file: ChosenFile,
        /// The name of the plan that was deleted.
        replaced: Option<String>,
        /// The new plan's GUID.
        guid: String,
    },
}

/// The contents of an [`ImportStage`].
pub enum ImportStageView {
    /// The folder for downloads is being created.
    CreatingDownloads,
    /// The archive's folder is being created.
    CreatingArchiveFolder,
    /// The archive is being downloaded.
    Downloading,
    /// Old unpacked plans are being removed.
    ClearingFolder,
    /// The folder for unpacked plans is being created.
    CreatingFolder,
    /// The archive is being unpacked.
    Unpacking,
    /// The list of plans is being read.
    Loading(ChosenView, load::LoadView),
    /// Another plan is being put in force in place of an old FPSHEAVEN plan.
    Replacing(ChosenView, plans::PlanView, Seq<char>),
    /// The old FPSHEAVEN plan is being deleted.
    Deleting(ChosenView, plans::PlanView),
    /// A GUID for the new plan is being made.
    MakingGuid(ChosenView, Option<Seq<char>>),
    /// The new plan is being imported.
    Importing(ChosenView, Option<Seq<char>>, Seq<char>),
    /// The new plan is being put in force.
    Activating(ChosenView, Option<Seq<char>>, Seq<char>),
    /// The archive is being removed.
    RemovingArchive(ChosenView, Option<Seq<char>>, Seq<char>),
}

impl View for ImportStage {
    type V = ImportStageView;

    open spec fn view(&self) -> ImportStageView {
        match self {
            ImportStage::CreatingDownloads => ImportStageView::CreatingDownloads,
            ImportStage::CreatingArchiveFolder => ImportStageView::CreatingArchiveFolder,
            ImportStage::Downloading => ImportStageView::Downloading,
            ImportStage::ClearingFolder => ImportStageView::ClearingFolder,
            ImportStage::CreatingFolder => ImportStageView::CreatingFolder,
            ImportStage::Unpacking => ImportStageView::Unpacking,
            ImportStage::Loading { file, reading } => ImportStageView::Loading(file@, reading@),
            ImportStage::Replacing { file, old, other } => ImportStageView::Replacing(
                file@,
                old@,
                other@,
            ),
            ImportStage::Deleting { file, old } => ImportStageView::Deleting(file@, old@),
            ImportStage::MakingGuid { file, replaced } => ImportStageView::MakingGuid(
                file@,
                plans::option_view(*replaced),
            ),
            ImportStage::Importing { file, replaced, guid } => ImportStageView::Importing(
                file@,
                plans::option_view(*replaced),
                guid@,
            ),
            ImportStage::Activating { file, replaced, guid } => ImportStageView::Activating(
                file@,
                plans::option_view(*replaced),
                guid@,
            ),
            ImportStage::RemovingArchive { file, replaced, guid } =>
                ImportStageView::RemovingArchive(file@, plans::option_view(*replaced), guid@),
        }
    }
}

/// What an import is about.
#[derive(Debug)]
pub struct ImportJob {
    /// The kind of plan.
    pub kind: FpsheavenPowerPlanKind,
    /// The archive's path, as text.
    pub archive: String,
    /// The path of the folder for unpacked plans, as text.
    pub folder: String,
}

/// The contents of an [`ImportJob`].
pub struct ImportJobView {
    /// The kind of plan.
    pub kind: FpsheavenPowerPlanKind,
    /// The archive's path.
    pub archive: Seq<char>,
    /// The path of the folder for unpacked plans.
    pub folder: Seq<char>,
}

impl View for ImportJob {
    type V = ImportJobView;

    open spec fn view(&self) -> ImportJobView {
        ImportJobView { kind: self.kind, archive: self.archive@, folder: self.folder@ }
    }
}

/// How far an import has come.
#[derive(Debug)]
pub struct ImportTask {
    /// What the import is about.
    pub job: ImportJob,
    /// The step at which it stands.
    pub stage: ImportStage,
}

/// The contents of an [`ImportTask`].
pub struct ImportTaskView {
    /// What the import is about.
    pub job: ImportJobView,
    /// The step at which it stands.
    pub stage: ImportStageView,
}

impl View for ImportTask {
    type V = ImportTaskView;

    open spec fn view(&self) -> ImportTaskView {
        ImportTaskView { job: self.job@, stage: self.stage@ }
    }
}

impl ImportTaskView {
    /// The reading of the list can go on; the plan that replaces another is another plan; the GUID
    /// of a new plan is canonical.
    pub open spec fn wf(self) -> bool {
        match self.stage {
            ImportStageView::Loading(_, reading) => reading.wf(),
            ImportStageView::Replacing(_, old, other) => other != old.guid,
            ImportStageView::Importing(_, _, new_guid) => guid::is_canonical_guid(new_guid),
            ImportStageView::Activating(_, _, new_guid) => guid::is_canonical_guid(new_guid),
            ImportStageView::RemovingArchive(_, _, new_guid) => guid::is_canonical_guid(new_guid),
            _ => true,
        }
    }
}

/// What comes next in an import.
#[derive(Debug)]
pub enum ImportStep {
    /// Something to do, with which the import goes on by [`ImportTask::resume`].
    Ask(Action, ImportTask),
    /// The unpacked plan files are to be listed; the import goes on by [`ImportJob::resume`].
    List(ImportJob),
    /// The imported plan, or why there is none.
    Done(Result<FpsheavenImportResult, String>),
}

/// The contents of an [`ImportStep`].
pub enum ImportStepView {
    /// Something to do.
    Ask(actions::ActionView, ImportTaskView),
    /// The unpacked plan files are to be listed.
    List(ImportJobView),
    /// The imported plan, or why there is none.
    Done(Result<ImportedView, Seq<char>>),
}

/// The contents of the result of an import.
pub open spec fn imported_view(result: Result<FpsheavenImportResult, String>) -> Result<
    ImportedView,
    Seq<char>,
> {
    match result {
        Ok(imported) => Ok(imported@),
        Err(error) => Err(error@),
    }
}

impl View for ImportStep {
    type V = ImportStepView;

    open spec fn view(&self) -> ImportStepView {
        match self {
            ImportStep::Ask(action, task) => ImportStepView::Ask(action@, task@),
            ImportStep::List(job) => ImportStepView::List(job@),
            ImportStep::Done(result) => ImportStepView::Done(imported_view(*result)),
        }
    }
}

impl ImportStepView {
    /// The import can go on, or it gave a plan with a canonical GUID, or an error.
    pub open spec fn wf(self) -> bool {
        match self {
            ImportStepView::Ask(_, task) => task.wf(),
            ImportStepView::List(_) => true,
            ImportStepView::Done(Ok(imported)) => guid::is_canonical_guid(imported.guid),
            ImportStepView::Done(Err(_)) => true,
        }
    }
}

/// The script that makes a GUID.
pub open spec fn guid_script() -> Seq<char> {
    "[guid]::NewGuid().ToString()"@
}

/// The plan in force, where it comes from FPSHEAVEN, with the plan that is to be in force in its
/// place; an error where there is no other plan.
pub open spec fn plan_to_replace(current: Seq<plans::PlanView>) -> Result<
    Option<(plans::PlanView, Seq<char>)>,
    Seq<char>,
> {
    match plans::first_where(
        current,
        |plan: plans::PlanView| plan.active && plans::is_fpsheaven(plan),
    ) {
        Some(at) => match plans::replacement(current, current[at].guid) {
            Some(other) => Ok(Some((current[at], current[other].guid))),
            None => Err(
                "The active FPSHEAVEN plan is the only available power plan, so it cannot be deleted"@,
            ),
        },
        None => Ok(None),
    }
}

/// A step of an import that is an order to Windows.
pub open spec fn order_step(
    job: ImportJobView,
    command: commands::CommandView,
    stage: ImportStageView,
) -> ImportStepView {
    ImportStepView::Ask(actions::ActionView::Run(command), ImportTaskView { job, stage })
}

/// What comes next once a file was chosen and the list of plans is being read.
pub open spec fn replace_on(
    job: ImportJobView,
    file: ChosenView,
    step: load::LoadStepView,
) -> ImportStepView {
    match step {
        load::LoadStepView::Ask(command, reading) => order_step(
            job,
            command,
            ImportStageView::Loading(file, reading),
        ),
        load::LoadStepView::Done(Ok(current)) => match plan_to_replace(current) {
            Ok(Some((old, other))) => order_step(
                job,
                commands::set_active_command(other),
                ImportStageView::Replacing(file, old, other),
            ),
            Ok(None) => order_step(
                job,
                commands::script_command(guid_script()),
                ImportStageView::MakingGuid(file, None),
            ),
            Err(error) => ImportStepView::Done(Err(error)),
        },
        load::LoadStepView::Done(Err(error)) => ImportStepView::Done(Err(error)),
    }
}

/// What comes next once the unpacked plan files are listed.
pub open spec fn files_next(
    job: ImportJobView,
    files: Result<Seq<file_names::PlanFileView>, Seq<char>>,
) -> ImportStepView {
    match files {
        Ok(files) => match file_names::fpsheaven_file(files, job.kind) {
            Some(at) => replace_on(
                job,
                ChosenView { at, path: files[at].path },
                load::load_start(),
            ),
            None => ImportStepView::Done(
                Err(
                    "Could not find a FPSHEAVEN "@ + job.kind.label_text() + " .pow file in "@
                        + job.folder,
                ),
            ),
        },
        Err(error) => ImportStepView::Done(Err(error)),
    }
}

/// What comes next in an import, by the answer to the last thing that was asked.
pub open spec fn import_next(
    task: ImportTaskView,
    answer: outcomes::AnswerView,
) -> ImportStepView {
    let job = task.job;
    match (task.stage, answer) {
        (ImportStageView::CreatingDownloads, Ok(_)) => ImportStepView::Ask(
            actions::ActionView::CreateArchiveFolder,
            ImportTaskView { job, stage: ImportStageView::CreatingArchiveFolder },
        ),
        (ImportStageView::CreatingDownloads, Err(error)) => ImportStepView::Done(
            Err("Could not create FPSHEAVEN download folder: "@ + error),
        ),
        (ImportStageView::CreatingArchiveFolder, Ok(_)) => order_step(
            job,
            commands::script_command(
                commands::download_script(FPSHEAVEN_POWER_PLANS_URL@, job.archive),
            ),
            ImportStageView::Downloading,
        ),
        (ImportStageView::CreatingArchiveFolder, Err(error)) => ImportStepView::Done(
            Err("Could not create download folder: "@ + error),
        ),
        (ImportStageView::Downloading, Ok(_)) => ImportStepView::Ask(
            actions::ActionView::ClearUnpackFolder,
            ImportTaskView { job, stage: ImportStageView::ClearingFolder },
        ),
        (ImportStageView::ClearingFolder, Ok(_)) => ImportStepView::Ask(
            actions::ActionView::CreateUnpackFolder,
            ImportTaskView { job, stage: ImportStageView::CreatingFolder },
        ),
        (ImportStageView::ClearingFolder, Err(error)) => ImportStepView::Done(
            Err("Could not clear old extract folder: "@ + error),
        ),
        (ImportStageView::CreatingFolder, Ok(_)) => order_step(
            job,
            commands::script_command(commands::extract_script(job.archive, job.folder)),
            ImportStageView::Unpacking,
        ),
        (ImportStageView::CreatingFolder, Err(error)) => ImportStepView::Done(
            Err("Could not create extract folder: "@ + error),
        ),
        (ImportStageView::Unpacking, Ok(_)) => ImportStepView::List(job),
        (ImportStageView::Loading(file, reading), _) => replace_on(
            job,
            file,
            load::load_next(reading, answer),
        ),
        (ImportStageView::Replacing(file, old, _), Ok(_)) => order_step(
            job,
            commands::delete_command(old.guid),
            ImportStageView::Deleting(file, old),
        ),
        (ImportStageView::Deleting(file, old), Ok(_)) => order_step(
            job,
            commands::script_command(guid_script()),
            ImportStageView::MakingGuid(file, Some(old.name)),
        ),
        (ImportStageView::MakingGuid(file, replaced), Ok(output)) => {
            let new_guid = text::lower(text::trimmed(output));
            if guid::is_canonical_guid(new_guid) {
                order_step(
                    job,
                    commands::import_command(
                        commands::ArgView::Unpacked(file.at as usize),
                        Some(new_guid),
                    ),
                    ImportStageView::Importing(file, replaced, new_guid),
                )
            } else {
                ImportStepView::Done(Err("Windows returned an invalid GUID: "@ + output))
            }
        },
        (ImportStageView::Importing(file, replaced, new_guid), Ok(_)) => order_step(
            job,
            commands::set_active_command(new_guid),
            ImportStageView::Activating(file, replaced, new_guid),
        ),
        (ImportStageView::Activating(file, replaced, new_guid), Ok(_)) => ImportStepView::Ask(
            actions::ActionView::RemoveArchive,
            ImportTaskView {
                job,
                stage: ImportStageView::RemovingArchive(file, replaced, new_guid),
            },
        ),
        (ImportStageView::RemovingArchive(file, replaced, new_guid), _) => ImportStepView::Done(
            Ok(
                ImportedView {
                    guid: new_guid,
                    plan_path: file.path,
                    replaced_active_plan_name: replaced,
                },
            ),
        ),
        (_, Err(error)) => ImportStepView::Done(Err(error)),
    }
}

/// What is known of the searches in the answer to the last thing that was asked.
pub open spec fn answer_known(task: ImportTaskView, answer: outcomes::AnswerView) -> bool {
    task.stage matches ImportStageView::Loading(_, reading) ==> load::answer_known(reading, answer)
}

/// The start of an import: the folder for downloads is created. Elsewhere than on Windows the
/// import fails at once.
pub open spec fn import_start(job: ImportJobView, on_windows: bool) -> ImportStepView {
    if on_windows {
        ImportStepView::Ask(
            actions::ActionView::CreateDownloadFolder,
            ImportTaskView { job, stage: ImportStageView::CreatingDownloads },
        )
    } else {
        ImportStepView::Done(Err(commands::windows_only()))
    }
}

/// The start of an import.
pub fn download_extract_and_import_fpsheaven_power_plan(job: ImportJob, on_windows: bool) -> (r:
    ImportStep)
    ensures
        r@ == import_start(job@, on_windows),
        r@.wf(),
{
    match ensure_windows(on_windows) {
        Ok(_) => ImportStep::Ask(
            Action::CreateDownloadFolder,
            ImportTask { job, stage: ImportStage::CreatingDownloads },
        ),
        Err(error) => ImportStep::Done(Err(error)),
    }
}

/// The plan in force, where it comes from FPSHEAVEN, with the GUID of the plan that is to be in
/// force in its place.
pub fn replace_active_fpsheaven_plan_if_needed(current: &Vec<PowerPlan>) -> (r: Result<
    Option<(PowerPlan, String)>,
    String,
>)
    ensures
        match (r, plan_to_replace(plans::plan_views(current@))) {
            (Ok(Some((old, other))), Ok(Some((plan, other_guid)))) => old@ == plan && other@
                == other_guid && other@ != old@.guid,
            (Ok(None), Ok(None)) => true,
            (Err(error), Err(reason)) => error@ == reason,
            _ => false,
        },
{
    let ghost views = plans::plan_views(current@);
    let ghost hit = |plan: plans::PlanView| plan.active && plans::is_fpsheaven(plan);
    proof {
        plans::lemma_first_where(views, hit);
    }
    let mut i: usize = 0;
    while i < current.len()
        invariant
            i <= current.len(),
            views == plans::plan_views(current@),
            hit == (|plan: plans::PlanView| plan.active && plans::is_fpsheaven(plan)),
            forall|k: int| 0 <= k < i ==> !hit(#[trigger] views[k]),
        decreases current.len() - i,
    {
        assert(views[i as int] == current[i as int]@);
        if current[i].active && is_fpsheaven_power_plan(&current[i]) {
            proof {
                plans::lemma_first_where(views, hit);
                assert(hit(views[i as int]));
                assert(plans::first_where(views, hit) == Some(i as int));
                plans::law_replacement_is_another_plan(views, views[i as int].guid);
            }
            return match replacement_plan_for_deleting_active(
                current.as_slice(),
                current[i].guid.as_str(),
            ) {
                Some(other) => Ok(Some((current[i].clone(), other.guid.clone()))),
                None => Err(
                    "The active FPSHEAVEN plan is the only available power plan, so it cannot be deleted".to_owned(),
                ),
            };
        }
        i = i + 1;
    }
    Ok(None)
}

impl ImportJob {
    /// A step that is an order to Windows.
    fn order(self, command: commands::CommandLine, stage: ImportStage) -> (r: ImportStep)
        requires
            (ImportTaskView { job: self@, stage: stage@ }).wf(),
        ensures
            r@ == order_step(self@, command@, stage@),
            r@.wf(),
    {
        ImportStep::Ask(Action::Run(command), ImportTask { job: self, stage })
    }

    /// What comes next once a file was chosen and the list of plans is being read.
    fn replace_further(self, file: ChosenFile, step: LoadStep) -> (r: ImportStep)
        requires
            step@.wf(),
        ensures
            r@ == replace_on(self@, file@, step@),
            r@.wf(),
    {
        match step {
            LoadStep::Ask(command, reading) => self.order(
                command,
                ImportStage::Loading { file, reading },
            ),
            LoadStep::Done(Ok(current)) => {
                match replace_active_fpsheaven_plan_if_needed(&current) {
                    Ok(Some((old, other))) => {
                        let command = set_active_plan(other.as_str());
                        self.order(command, ImportStage::Replacing { file, old, other })
                    },
                    Ok(None) => self.order(
                        run_powershell_script("[guid]::NewGuid().ToString()"),
                        ImportStage::MakingGuid { file, replaced: None },
                    ),
                    Err(error) => ImportStep::Done(Err(error)),
                }
            },
            LoadStep::Done(Err(error)) => ImportStep::Done(Err(error)),
        }
    }

    /// Goes on with the import once the unpacked plan files are listed.
    pub fn resume(self, files: Files) -> (r: ImportStep)
        ensures
            r@ == files_next(self@, files_view(files)),
            r@.wf(),
    {
        match files {
            Ok(files) => {
                match find_fpsheaven_power_plan(&files, self.kind, self.folder.as_str()) {
                    Ok(at) => {
                        let path = files[at].path.clone();
                        let (question, reading) = load_power_plans();
                        self.replace_further(
                            ChosenFile { at, path },
                            LoadStep::Ask(question, reading),
                        )
                    },
                    Err(error) => ImportStep::Done(Err(error)),
                }
            },
            Err(error) => ImportStep::Done(Err(error)),
        }
    }
}

impl ImportTask {
    /// Goes on with the import.
    pub fn resume(self, answer: Answer) -> (r: ImportStep)
        requires
            self@.wf(),
        ensures
            r@ == import_next(self@, outcomes::answer_view(answer)),
            r@.wf(),
            answer_known(self@, outcomes::answer_view(answer)),
    {
        let ImportTask { job, stage } = self;
        match stage {
            ImportStage::CreatingDownloads => match answer {
                Ok(_) => ImportStep::Ask(
                    Action::CreateArchiveFolder,
                    ImportTask { job, stage: ImportStage::CreatingArchiveFolder },
                ),
                Err(error) => ImportStep::Done(
                    Err(
                        "Could not create FPSHEAVEN download folder: ".to_owned().concat(
                            error.as_str(),
                        ),
                    ),
                ),
            },
            ImportStage::CreatingArchiveFolder => match answer {
                Ok(_) => {
                    let command = download_file(FPSHEAVEN_POWER_PLANS_URL, job.archive.as_str());
                    job.order(command, ImportStage::Downloading)
                },
                Err(error) => ImportStep::Done(
                    Err("Could not create download folder: ".to_owned().concat(error.as_str())),
                ),
            },
            ImportStage::Downloading => match answer {
                Ok(_) => ImportStep::Ask(
                    Action::ClearUnpackFolder,
                    ImportTask { job, stage: ImportStage::ClearingFolder },
                ),
                Err(error) => ImportStep::Done(Err(error)),
            },
            ImportStage::ClearingFolder => match answer {
                Ok(_) => ImportStep::Ask(
                    Action::CreateUnpackFolder,
                    ImportTask { job, stage: ImportStage::CreatingFolder },
                ),
                Err(error) => ImportStep::Done(
                    Err("Could not clear old extract folder: ".to_owned().concat(error.as_str())),
                ),
            },
            ImportStage::CreatingFolder => match answer {
                Ok(_) => {
                    let command = extract_zip(job.archive.as_str(), job.folder.as_str());
                    job.order(command, ImportStage::Unpacking)
                },
                Err(error) => ImportStep::Done(
                    Err("Could not create extract folder: ".to_owned().concat(error.as_str())),
                ),
            },
            ImportStage::Unpacking => match answer {
                Ok(_) => ImportStep::List(job),
                Err(error) => ImportStep::Done(Err(error)),
            },
            ImportStage::Loading { file, reading } => {
                let step = reading.resume(answer);
                job.replace_further(file, step)
            },
            ImportStage::Replacing { file, old, other: _ } => match answer {
                Ok(_) => {
                    let command = delete_power_plan(old.guid.as_str());
                    job.order(command, ImportStage::Deleting { file, old })
                },
                Err(error) => ImportStep::Done(Err(error)),
            },
            ImportStage::Deleting { file, old } => match answer {
                Ok(_) => job.order(
                    run_powershell_script("[guid]::NewGuid().ToString()"),
                    ImportStage::MakingGuid { file, replaced: Some(old.name) },
                ),
                Err(error) => ImportStep::Done(Err(error)),
            },
            ImportStage::MakingGuid { file, replaced } => match answer {
                Ok(output) => match new_power_plan_guid(output.as_str()) {
                    Ok(guid) => {
                        let command = import_power_plan_with_guid(
                            Arg::Unpacked(file.at),
                            guid.as_str(),
                        );
                        job.order(command, ImportStage::Importing { file, replaced, guid })
                    },
                    Err(error) => ImportStep::Done(Err(error)),
                },
                Err(error) => ImportStep::Done(Err(error)),
            },
            ImportStage::Importing { file, replaced, guid } => match answer {
                Ok(_) => {
                    let command = set_active_plan(guid.as_str());
                    job.order(command, ImportStage::Activating { file, replaced, guid })
                },
                Err(error) => ImportStep::Done(Err(error)),
            },
            ImportStage::Activating { file, replaced, guid } => match answer {
                Ok(_) => ImportStep::Ask(
                    Action::RemoveArchive,
                    ImportTask {
                        job,
                        stage: ImportStage::RemovingArchive { file, replaced, guid },
                    },
                ),
                Err(error) => ImportStep::Done(Err(error)),
            },
            ImportStage::RemovingArchive { file, replaced, guid } => ImportStep::Done(
                Ok(
                    FpsheavenImportResult {
                        guid,
                        plan_path: file.path,
                        replaced_active_plan_name: replaced,
                    },
                ),
            ),
        }
    }
}

} // verus!
