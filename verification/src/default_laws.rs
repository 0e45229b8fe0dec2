//! Bringing back the plans of Windows: what each answer leads to, in the words of the orders and of
//! the reports.
use vstd::prelude::*;

use crate::actions::ActionView;
use crate::command_laws;
use crate::commands::{ArgView, CommandView, Program};
use crate::duplicates;
use crate::duplicates::{DuplicateStepView, DuplicateView};
use crate::load;
use crate::outcomes;
use crate::plan_laws;
use crate::plans;
use crate::plans::{DefaultView, PlanView};
use crate::regexes;
use crate::restore;
use crate::restore::{RestoreStepView, RestoreView, StageView};
use crate::restore_laws;
use crate::text;
use crate::text_laws;

verus! {

/// A duplicate whose GUID was printed is given the name and the description of the plan that it was
/// made of, under the GUID that stands first in what was printed.
pub proof fn law_duplicate_gets_the_name_of_its_plan(
    default_plan: DefaultView,
    output: Seq<char>,
    at: int,
)
    requires
        regexes::guid_known(output),
        text_laws::stands_first(output, at),
    ensures
        duplicates::rename_after(default_plan, Ok(output)) == Ok::<_, Seq<char>>(
            Some(
                command_laws::powercfg_line(
                    seq![
                        ArgView::Text("/changename"@),
                        ArgView::Text(text::lower(output.subrange(at, at + 36))),
                        ArgView::Text(default_plan.name),
                        ArgView::Text(default_plan.description),
                    ],
                ),
            ),
        ),
{
    text_laws::law_guid_in(output);
}

/// Where no GUID was printed nothing is renamed, and a failed duplication fails for its own reason.
pub proof fn law_nothing_to_rename(
    default_plan: DefaultView,
    output: Seq<char>,
    error: Seq<char>,
)
    requires
        regexes::guid_known(output),
    ensures
        (forall|at: int| !#[trigger] regexes::guid_stands_at(output, at))
            ==> duplicates::rename_after(default_plan, Ok(output)) == Ok::<
            Option<CommandView>,
            Seq<char>,
        >(None),
        duplicates::rename_after(default_plan, Err(error)) == Err::<Option<CommandView>, _>(error),
{
    text_laws::law_guid_in(output);
    if forall|at: int| !#[trigger] regexes::guid_stands_at(output, at) {
        if duplicates::rename_after(default_plan, Ok(output)) != Ok::<
            Option<CommandView>,
            Seq<char>,
        >(None) {
            let at = choose|at: int| #[trigger] text_laws::stands_first(output, at);
            assert(regexes::guid_stands_at(output, at));
        }
    }
}

/// The duplication of `defaults` goes on with the plan behind the known outcomes, or is over.
pub open spec fn next_duplicate(
    defaults: Seq<DefaultView>,
    known: Seq<outcomes::OutcomeView>,
    step: DuplicateStepView,
) -> bool {
    if known.len() < defaults.len() {
        step == DuplicateStepView::Ask(
            command_laws::powercfg_line(
                seq![
                    ArgView::Text("/duplicatescheme"@),
                    ArgView::Text(defaults[known.len() as int].guid),
                ],
            ),
            DuplicateView { defaults, outcomes: known, renaming: false },
        )
    } else {
        step == DuplicateStepView::Done(defaults, known)
    }
}

/// What the answer to a duplication leads to: the renaming of the duplicate under the GUID that was
/// printed, or the next plan.
pub proof fn law_after_a_duplicate(
    defaults: Seq<DefaultView>,
    known: Seq<outcomes::OutcomeView>,
    output: Seq<char>,
    error: Seq<char>,
)
    requires
        known.len() < defaults.len(),
        regexes::guid_known(output),
    ensures
        next_duplicate(defaults, Seq::empty(), duplicates::duplicate_on(defaults, Seq::empty())),
        ({
            let task = DuplicateView { defaults, outcomes: known, renaming: false };
            let plan = defaults[known.len() as int];
            &&& forall|at: int|
                #[trigger] text_laws::stands_first(output, at) ==> duplicates::duplicate_next(
                    task,
                    Ok(output),
                ) == DuplicateStepView::Ask(
                    command_laws::powercfg_line(
                        seq![
                            ArgView::Text("/changename"@),
                            ArgView::Text(text::lower(output.subrange(at, at + 36))),
                            ArgView::Text(plan.name),
                            ArgView::Text(plan.description),
                        ],
                    ),
                    DuplicateView { defaults, outcomes: known, renaming: true },
                )
            &&& (forall|at: int| !#[trigger] regexes::guid_stands_at(output, at)) ==> next_duplicate(
                defaults,
                known.push(Ok(())),
                duplicates::duplicate_next(task, Ok(output)),
            )
            &&& next_duplicate(
                defaults,
                known.push(Err(error)),
                duplicates::duplicate_next(task, Err(error)),
            )
        }),
{
    law_nothing_to_rename(defaults[known.len() as int], output, error);
    assert forall|at: int| #[trigger] text_laws::stands_first(
        output,
        at,
    ) implies duplicates::rename_after(defaults[known.len() as int], Ok(output)) == Ok::<
        _,
        Seq<char>,
    >(
        Some(
            command_laws::powercfg_line(
                seq![
                    ArgView::Text("/changename"@),
                    ArgView::Text(text::lower(output.subrange(at, at + 36))),
                    ArgView::Text(defaults[known.len() as int].name),
                    ArgView::Text(defaults[known.len() as int].description),
                ],
            ),
        ),
    ) by {
        law_duplicate_gets_the_name_of_its_plan(defaults[known.len() as int], output, at);
    }
}

/// What the answer to a renaming leads to: the plan is done or has failed, and the next one follows.
pub proof fn law_after_a_renaming(
    defaults: Seq<DefaultView>,
    known: Seq<outcomes::OutcomeView>,
    output: Seq<char>,
    error: Seq<char>,
)
    requires
        known.len() < defaults.len(),
    ensures
        ({
            let task = DuplicateView { defaults, outcomes: known, renaming: true };
            &&& next_duplicate(
                defaults,
                known.push(Ok(())),
                duplicates::duplicate_next(task, Ok(output)),
            )
            &&& next_duplicate(
                defaults,
                known.push(Err(error)),
                duplicates::duplicate_next(task, Err(error)),
            )
        }),
{
}

/// The report on the duplication counts and names the plans that are there, and where one failed it
/// tells of each that did.
pub proof fn law_report_on_duplicates(
    defaults: Seq<DefaultView>,
    results: Seq<outcomes::OutcomeView>,
)
    requires
        results.len() == defaults.len(),
    ensures
        ({
            let names = Seq::new(defaults.len(), |i: int| defaults[i].name);
            let failed = outcomes::failures(names, results);
            &&& outcomes::all_done(results) ==> duplicates::enable_report(defaults, results) == Ok::<
                _,
                Seq<char>,
            >(
                "Enabled "@ + text::decimal(defaults.len())
                    + " default Windows power plan(s): "@ + text::joined(names, ", "@),
            )
            &&& !outcomes::all_done(results) ==> duplicates::enable_report(defaults, results)
                == Err::<Seq<char>, _>(
                "Enabled "@ + text::decimal((results.len() - failed.len()) as nat)
                    + " default plan(s); "@ + text::decimal(failed.len()) + " failed\n"@
                    + text::joined(failed, "\n"@),
            )
        }),
{
    let names = Seq::new(defaults.len(), |i: int| defaults[i].name);
    assert(duplicates::default_names(defaults) =~= names);
    outcomes::law_successes_and_failures(names, results);
    if outcomes::all_done(results) {
        lemma_all_labels(names, results);
    }
}

proof fn lemma_all_labels(labels: Seq<Seq<char>>, results: Seq<outcomes::OutcomeView>)
    requires
        outcomes::all_done(results),
        results.len() <= labels.len(),
    ensures
        outcomes::success_labels(labels, results) == labels.take(results.len() as int),
        labels.take(labels.len() as int) == labels,
    decreases results.len(),
{
    assert(labels.take(labels.len() as int) =~= labels);
    if results.len() == 0 {
        assert(labels.take(0) =~= Seq::empty());
    } else {
        let front = results.drop_last();
        assert forall|i: int| 0 <= i < front.len() implies (#[trigger] front[i]) is Ok by {
            assert(results[i] is Ok);
        }
        lemma_all_labels(labels, front);
        assert(results[results.len() - 1] is Ok);
        assert(labels.take(front.len() as int).push(labels[front.len() as int]) =~= labels.take(
            results.len() as int,
        ));
    }
}

/// The order to export a plan into the backup folder, to a file that is named by its GUID.
pub open spec fn backup_line(guid: Seq<char>) -> ActionView {
    ActionView::Run(
        command_laws::powercfg_line(
            seq![
                ArgView::Text("/export"@),
                ArgView::InBackupFolder(guid + ".pow"@),
                ArgView::Text(guid),
            ],
        ),
    )
}

/// The order to import that file under that GUID.
pub open spec fn reimport_line(guid: Seq<char>) -> ActionView {
    ActionView::Run(
        command_laws::powercfg_line(
            seq![
                ArgView::Text("/import"@),
                ArgView::InBackupFolder(guid + ".pow"@),
                ArgView::Text(guid),
            ],
        ),
    )
}

/// The order to restore the plans of Windows, with the given spelling of the switch.
pub open spec fn reset_line(switch: Seq<char>) -> ActionView {
    ActionView::Run(
        CommandView {
            program: Program::Powercfg,
            needs_windows: false,
            args: seq![ArgView::Text(switch)],
        },
    )
}

/// The orders of a restoration.
pub proof fn law_orders_of_a_restoration(plan: PlanView)
    ensures
        restore::backup_order(plan) == backup_line(plan.guid),
        restore::reimport_order(plan) == reimport_line(plan.guid),
        restore::reset_order() == reset_line("-restoredefaultschemes"@),
        restore::second_reset_order() == reset_line("/restoredefaultschemes"@),
{
}

/// A plan of the user's own is in the backup folder before the plans of Windows are reset, whatever
/// its description is: its export was asked for and carried out.
pub proof fn law_own_plan_is_backed_up(
    all: Seq<PlanView>,
    active: Option<Seq<char>>,
    answers: Seq<outcomes::AnswerView>,
    i: int,
)
    requires
        0 <= i < all.len(),
        plan_laws::is_own(all[i]),
        restore_laws::asks_after(all, active, answers, reset_line("-restoredefaultschemes"@))
            || restore_laws::asks_after(all, active, answers, reset_line("/restoredefaultschemes"@)),
    ensures
        exists|at: int|
            0 <= at < answers.len() && answers[at] is Ok && #[trigger] restore_laws::asks_after(
                all,
                active,
                answers.take(at),
                backup_line(all[i].guid),
            ),
{
    let custom = plans::custom_plans(all);
    plan_laws::law_own_plans(all, all[i]);
    assert(custom.contains(all[i]));
    let k = choose|k: int| 0 <= k < custom.len() && custom[k] == all[i];
    restore_laws::law_reset_only_after_backup(all, active, answers);
    assert(custom[k] == all[i]);
    assert(restore_laws::asks_after(
        all,
        active,
        answers.take(1 + k),
        backup_line(all[i].guid),
    ));
}

/// A restoration that is reported as done has imported each of the user's own plans again, under its
/// own GUID.
pub proof fn law_own_plan_comes_back(
    all: Seq<PlanView>,
    active: Option<Seq<char>>,
    answers: Seq<outcomes::AnswerView>,
    i: int,
)
    requires
        0 <= i < all.len(),
        plan_laws::is_own(all[i]),
        restore_laws::restore_after(all, active, answers) matches RestoreStepView::Done(Ok(_)),
    ensures
        exists|at: int|
            0 <= at < answers.len() && answers[at] is Ok && #[trigger] restore_laws::asks_after(
                all,
                active,
                answers.take(at),
                reimport_line(all[i].guid),
            ),
{
    let custom = plans::custom_plans(all);
    plan_laws::law_own_plans(all, all[i]);
    assert(custom.contains(all[i]));
    let k = choose|k: int| 0 <= k < custom.len() && custom[k] == all[i];
    restore_laws::law_successful_restoration_preserves_plans(all, active, answers);
    assert(custom[k] == all[i]);
    assert(restore_laws::asks_after(
        all,
        active,
        answers.take(restore_laws::first_import(answers, custom.len()) + k),
        reimport_line(all[i].guid),
    ));
}

/// A restoration starts with a folder for the backup, the user's own plans and the plan in force.
pub proof fn law_start_of_a_restoration(all: Seq<PlanView>, active: Option<Seq<char>>)
    ensures
        restore::restore_start(all, active) matches RestoreStepView::Ask(action, task) && action
            == ActionView::CreateBackupFolder && task.active == active && task.custom
            == plans::custom_plans(all) && task.stage is CreatingFolder,
{
}

/// What follows the first exports: the next one; or the reset, where all were carried out; or else
/// the folder is dropped, and the report names each plan that could not be exported.
pub open spec fn follows_exports(
    task: RestoreView,
    exports: Seq<outcomes::OutcomeView>,
    step: RestoreStepView,
) -> bool {
    let names = Seq::new(task.custom.len(), |i: int| task.custom[i].name);
    if exports.len() < task.custom.len() {
        step == RestoreStepView::Ask(
            backup_line(task.custom[exports.len() as int].guid),
            RestoreView { stage: StageView::Exporting(exports), ..task },
        )
    } else if outcomes::all_done(exports) {
        step == RestoreStepView::Ask(
            reset_line("-restoredefaultschemes"@),
            RestoreView { stage: StageView::Restoring, ..task },
        )
    } else {
        step == RestoreStepView::Ask(
            ActionView::RemoveBackupFolder,
            RestoreView {
                stage: StageView::DroppingFolder(
                    "Could not back up custom power plans, so Windows defaults were not restored\n"@
                        + text::joined(outcomes::failures(names, exports), "\n"@),
                ),
                ..task
            },
        )
    }
}

/// What follows the first imports: the next one, or the list is read.
pub open spec fn follows_imports(
    task: RestoreView,
    imports: Seq<outcomes::OutcomeView>,
    step: RestoreStepView,
) -> bool {
    if imports.len() < task.custom.len() {
        step == RestoreStepView::Ask(
            reimport_line(task.custom[imports.len() as int].guid),
            RestoreView { stage: StageView::Importing(imports), ..task },
        )
    } else {
        step == RestoreStepView::Ask(
            ActionView::Run(
                command_laws::powercfg_line(seq![ArgView::Text("/getactivescheme"@)]),
            ),
            RestoreView {
                stage: StageView::Loading(imports, load::LoadView::AskedActive),
                ..task
            },
        )
    }
}

proof fn lemma_exports_step(task: RestoreView, exports: Seq<outcomes::OutcomeView>)
    ensures
        follows_exports(task, exports, restore::export_on(task, exports)),
{
    let names = Seq::new(task.custom.len(), |i: int| task.custom[i].name);
    assert(restore::plan_names(task.custom) =~= names);
    outcomes::law_successes_and_failures(names, exports);
}

/// What the answers lead to while a restoration backs up the plans.
pub proof fn law_steps_of_a_backup(
    task: RestoreView,
    folder: Seq<char>,
    error: Seq<char>,
    exports: Seq<outcomes::OutcomeView>,
    answer: outcomes::AnswerView,
)
    ensures
        ({
            let creating = RestoreView { stage: StageView::CreatingFolder, ..task };
            let exporting = RestoreView { stage: StageView::Exporting(exports), ..task };
            let dropping = RestoreView { stage: StageView::DroppingFolder(error), ..task };
            &&& follows_exports(
                RestoreView { folder, ..creating },
                Seq::empty(),
                restore::restore_next(creating, Ok(folder)),
            )
            &&& restore::restore_next(creating, Err(error)) == RestoreStepView::Done(
                Err("Could not create temporary backup folder: "@ + error),
            )
            &&& follows_exports(
                exporting,
                exports.push(outcomes::outcome_of(answer)),
                restore::restore_next(exporting, answer),
            )
            &&& restore::restore_next(dropping, answer) == RestoreStepView::Done(Err(error))
        }),
{
    let creating = RestoreView { stage: StageView::CreatingFolder, ..task };
    let exporting = RestoreView { stage: StageView::Exporting(exports), ..task };
    lemma_exports_step(RestoreView { folder, ..creating }, Seq::empty());
    lemma_exports_step(exporting, exports.push(outcomes::outcome_of(answer)));
}

/// What the answers lead to while the plans of Windows are reset and those of the user imported.
pub proof fn law_steps_of_a_reset(
    task: RestoreView,
    output: Seq<char>,
    first: Seq<char>,
    second: Seq<char>,
    imports: Seq<outcomes::OutcomeView>,
    answer: outcomes::AnswerView,
)
    ensures
        ({
            let restoring = RestoreView { stage: StageView::Restoring, ..task };
            let again = RestoreView { stage: StageView::RestoringAgain(first), ..task };
            let importing = RestoreView { stage: StageView::Importing(imports), ..task };
            &&& follows_imports(
                restoring,
                Seq::empty(),
                restore::restore_next(restoring, Ok(output)),
            )
            &&& restore::restore_next(restoring, Err(first)) == RestoreStepView::Ask(
                reset_line("/restoredefaultschemes"@),
                again,
            )
            &&& follows_imports(again, Seq::empty(), restore::restore_next(again, Ok(output)))
            &&& restore::restore_next(again, Err(second)) == RestoreStepView::Done(
                Err(
                    "Could not restore Windows default power plans\n"@ + first + "\n"@ + second
                        + "\nCustom-plan backups were kept in "@ + task.folder,
                ),
            )
            &&& follows_imports(
                importing,
                imports.push(outcomes::outcome_of(answer)),
                restore::restore_next(importing, answer),
            )
        }),
{
}

/// What follows once the default plans are back: the plan that was in force is put in force again,
/// or, without one, the restoration ends.
pub open spec fn follows_defaults(
    task: RestoreView,
    imports: Seq<outcomes::OutcomeView>,
    later: Seq<Seq<char>>,
    enabled: Seq<Seq<char>>,
    step: RestoreStepView,
) -> bool {
    match task.active {
        Some(guid) => step == RestoreStepView::Ask(
            ActionView::Run(
                command_laws::powercfg_line(
                    seq![ArgView::Text("/setactive"@), ArgView::Text(guid)],
                ),
            ),
            RestoreView { stage: StageView::Activating(imports, later, enabled), ..task },
        ),
        None => ends_restoration(task, imports, later, enabled, step),
    }
}

/// The end of a restoration: where an import or a later step failed, the report tells of each and of
/// the folder that was kept; else the folder is removed.
pub open spec fn ends_restoration(
    task: RestoreView,
    imports: Seq<outcomes::OutcomeView>,
    later: Seq<Seq<char>>,
    enabled: Seq<Seq<char>>,
    step: RestoreStepView,
) -> bool {
    let labels = Seq::new(
        task.custom.len(),
        |i: int| "Could not re-import custom plan "@ + task.custom[i].guid,
    );
    let failed = outcomes::failures(labels, imports) + later;
    if outcomes::all_done(imports) && later.len() == 0 {
        step == RestoreStepView::Ask(
            ActionView::RemoveBackupFolder,
            RestoreView {
                stage: StageView::Finishing(
                    if enabled.len() == 0 {
                        "Restored default Windows power plans and preserved "@ + text::decimal(
                            imports.len(),
                        ) + " custom plan(s)"@
                    } else {
                        "Restored default Windows power plans and preserved "@ + text::decimal(
                            imports.len(),
                        ) + " custom plan(s)"@ + "; enabled "@ + text::joined(enabled, ", "@)
                    },
                ),
                ..task
            },
        )
    } else {
        step == RestoreStepView::Done(
            Err(
                "Restored Windows defaults and re-imported "@ + text::decimal(
                    (imports.len() - outcomes::failures(labels, imports).len()) as nat,
                ) + " custom plan(s), but "@ + text::decimal(failed.len()) + " step(s) failed\n"@
                    + text::joined(failed, "\n"@) + "\nCustom-plan backups were kept in "@
                    + task.folder,
            ),
        )
    }
}

proof fn lemma_end_step(
    task: RestoreView,
    imports: Seq<outcomes::OutcomeView>,
    later: Seq<Seq<char>>,
    enabled: Seq<Seq<char>>,
)
    ensures
        ends_restoration(
            task,
            imports,
            later,
            enabled,
            restore::conclude(task, imports, later, enabled),
        ),
        follows_defaults(
            task,
            imports,
            later,
            enabled,
            restore::activate_on(task, imports, later, enabled),
        ),
{
    let labels = Seq::new(
        task.custom.len(),
        |i: int| "Could not re-import custom plan "@ + task.custom[i].guid,
    );
    assert(restore::import_labels(task.custom) =~= labels);
    outcomes::law_successes_and_failures(labels, imports);
}

/// What a step of the duplication of missing default plans leads to in a restoration.
pub open spec fn follows_duplication(
    task: RestoreView,
    imports: Seq<outcomes::OutcomeView>,
    inner: DuplicateStepView,
    step: RestoreStepView,
) -> bool {
    match inner {
        DuplicateStepView::Ask(command, duplication) => step == RestoreStepView::Ask(
            ActionView::Run(command),
            RestoreView { stage: StageView::Enabling(imports, duplication), ..task },
        ),
        DuplicateStepView::Done(defaults, results) => {
            let names = Seq::new(defaults.len(), |i: int| defaults[i].name);
            follows_defaults(
                task,
                imports,
                outcomes::failures(names, results),
                outcomes::success_labels(names, results),
                step,
            )
        },
    }
}

proof fn lemma_duplication_step(
    task: RestoreView,
    imports: Seq<outcomes::OutcomeView>,
    inner: DuplicateStepView,
)
    ensures
        follows_duplication(task, imports, inner, restore::enable_on(task, imports, inner)),
{
    if let DuplicateStepView::Done(defaults, results) = inner {
        let names = Seq::new(defaults.len(), |i: int| defaults[i].name);
        assert(duplicates::default_names(defaults) =~= names);
        lemma_end_step(
            task,
            imports,
            outcomes::failures(names, results),
            outcomes::success_labels(names, results),
        );
    }
}

/// What the answers lead to after the imports: the list is read; the default plans that are missing
/// from it are duplicated, and each that fails is told of; a list that cannot be read is told of; and
/// so is a plan that cannot be put in force again.
pub proof fn law_steps_after_the_imports(
    task: RestoreView,
    imports: Seq<outcomes::OutcomeView>,
    reading: load::LoadView,
    duplication: DuplicateView,
    later: Seq<Seq<char>>,
    enabled: Seq<Seq<char>>,
    message: Seq<char>,
    answer: outcomes::AnswerView,
)
    ensures
        ({
            let loading = RestoreView { stage: StageView::Loading(imports, reading), ..task };
            let enabling = RestoreView { stage: StageView::Enabling(imports, duplication), ..task };
            let activating = RestoreView {
                stage: StageView::Activating(imports, later, enabled),
                ..task
            };
            let finishing = RestoreView { stage: StageView::Finishing(message), ..task };
            &&& match load::load_next(reading, answer) {
                load::LoadStepView::Ask(command, further) => restore::restore_next(loading, answer)
                    == RestoreStepView::Ask(
                    ActionView::Run(command),
                    RestoreView { stage: StageView::Loading(imports, further), ..task },
                ),
                load::LoadStepView::Done(Ok(current)) => follows_duplication(
                    loading,
                    imports,
                    duplicates::duplicate_on(plans::missing_defaults(current), Seq::empty()),
                    restore::restore_next(loading, answer),
                ),
                load::LoadStepView::Done(Err(error)) => follows_defaults(
                    loading,
                    imports,
                    seq![
                        "Windows defaults were restored, but the refreshed plan list could not be read: "@
                            + error,
                    ],
                    Seq::empty(),
                    restore::restore_next(loading, answer),
                ),
            }
            &&& follows_duplication(
                enabling,
                imports,
                duplicates::duplicate_next(duplication, answer),
                restore::restore_next(enabling, answer),
            )
            &&& ends_restoration(
                activating,
                imports,
                match answer {
                    Ok(_) => later,
                    Err(error) => later.push(
                        "Could not reactivate previous active plan: "@ + error,
                    ),
                },
                enabled,
                restore::restore_next(activating, answer),
            )
            &&& restore::restore_next(finishing, answer) == RestoreStepView::Done(Ok(message))
        }),
{
    let loading = RestoreView { stage: StageView::Loading(imports, reading), ..task };
    let enabling = RestoreView { stage: StageView::Enabling(imports, duplication), ..task };
    let activating = RestoreView { stage: StageView::Activating(imports, later, enabled), ..task };
    match load::load_next(reading, answer) {
        load::LoadStepView::Ask(_, _) => {},
        load::LoadStepView::Done(Ok(current)) => {
            lemma_duplication_step(
                loading,
                imports,
                duplicates::duplicate_on(plans::missing_defaults(current), Seq::empty()),
            );
        },
        load::LoadStepView::Done(Err(error)) => {
            lemma_end_step(
                loading,
                imports,
                seq![
                    "Windows defaults were restored, but the refreshed plan list could not be read: "@
                        + error,
                ],
                Seq::empty(),
            );
        },
    }
    lemma_duplication_step(enabling, imports, duplicates::duplicate_next(duplication, answer));
    lemma_end_step(
        activating,
        imports,
        match answer {
            Ok(_) => later,
            Err(error) => later.push("Could not reactivate previous active plan: "@ + error),
        },
        enabled,
    );
}

} // verus!
