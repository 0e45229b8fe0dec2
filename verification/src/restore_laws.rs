//! What holds of every restoration, whatever the answers are.
use vstd::prelude::*;

use crate::actions;
use crate::commands;
use crate::duplicates;
use crate::file_names;
use crate::load;
use crate::outcomes;
use crate::plans;
use crate::restore;
use crate::text;

verus! {

/// What a restoration has come to after some answers.
pub open spec fn restore_after(
    all: Seq<plans::PlanView>,
    active: Option<Seq<char>>,
    answers: Seq<outcomes::AnswerView>,
) -> restore::RestoreStepView
    decreases answers.len(),
{
    if answers.len() == 0 {
        restore::restore_start(all, active)
    } else {
        match restore_after(all, active, answers.drop_last()) {
            restore::RestoreStepView::Ask(_, task) => restore::restore_next(task, answers.last()),
            restore::RestoreStepView::Done(report) => restore::RestoreStepView::Done(report),
        }
    }
}

/// What is asked for after some answers.
pub open spec fn asks_after(
    all: Seq<plans::PlanView>,
    active: Option<Seq<char>>,
    answers: Seq<outcomes::AnswerView>,
    action: actions::ActionView,
) -> bool {
    restore_after(all, active, answers) matches restore::RestoreStepView::Ask(asked, _) && asked
        == action
}

/// The reset of the plans is asked for after some answers, in either spelling.
pub open spec fn asks_reset_after(
    all: Seq<plans::PlanView>,
    active: Option<Seq<char>>,
    answers: Seq<outcomes::AnswerView>,
) -> bool {
    asks_after(all, active, answers, restore::reset_order()) || asks_after(
        all,
        active,
        answers,
        restore::second_reset_order(),
    )
}

/// The answers say that the backup folder was created and that each of `n` plans was exported.
spec fn exported(answers: Seq<outcomes::AnswerView>, n: nat) -> bool {
    &&& answers.len() >= 1 + n
    &&& forall|i: int| 0 <= i < 1 + n ==> (#[trigger] answers[i]) is Ok
}

/// The answers say that Windows restored its plans.
spec fn was_reset(answers: Seq<outcomes::AnswerView>, n: nat) -> bool {
    &&& exported(answers, n)
    &&& answers.len() > 1 + n
    &&& answers[1 + n as int] is Err ==> answers.len() > 2 + n && answers[2 + n as int] is Ok
}

/// The answers say that Windows restored nothing, in neither spelling.
spec fn reset_refused(answers: Seq<outcomes::AnswerView>, n: nat) -> bool {
    &&& answers.len() > 2 + n
    &&& answers[1 + n as int] is Err
    &&& answers[2 + n as int] is Err
}

/// The number of answers before the first import.
pub open spec fn first_import(answers: Seq<outcomes::AnswerView>, n: nat) -> int {
    if answers[1 + n as int] is Ok {
        2 + n as int
    } else {
        3 + n as int
    }
}

/// Some outcomes are those of the answers from a place on.
spec fn outcomes_from(
    answers: Seq<outcomes::AnswerView>,
    start: int,
    results: Seq<outcomes::OutcomeView>,
) -> bool {
    &&& start + results.len() <= answers.len()
    &&& forall|i: int|
        0 <= i < results.len() ==> #[trigger] results[i] == outcomes::outcome_of(
            answers[start + i],
        )
}

/// One of the exports failed, and nothing came after the exports.
spec fn an_export_failed(answers: Seq<outcomes::AnswerView>, n: nat) -> bool {
    &&& answers.len() >= 1 + n
    &&& exists|i: int| 1 <= i < 1 + n && (#[trigger] answers[i]) is Err
}

/// The report names the folder that was kept.
pub open spec fn names_kept_folder(report: Seq<char>, folder: Seq<char>) -> bool {
    ("\nCustom-plan backups were kept in "@ + folder).is_suffix_of(report)
}

/// The imports were answered as `imports` has it.
spec fn imported(
    answers: Seq<outcomes::AnswerView>,
    n: nat,
    imports: Seq<outcomes::OutcomeView>,
) -> bool {
    &&& was_reset(answers, n)
    &&& imports.len() == n
    &&& outcomes_from(answers, first_import(answers, n), imports)
}

/// A command that is none of the two orders to reset the plans.
spec fn is_no_reset(action: actions::ActionView) -> bool {
    action matches actions::ActionView::Run(command) && command.needs_windows
}

/// How a step fits the answers that led to it.
spec fn fits(
    custom: Seq<plans::PlanView>,
    answers: Seq<outcomes::AnswerView>,
    step: restore::RestoreStepView,
) -> bool {
    let n = custom.len();
    match step {
        restore::RestoreStepView::Ask(action, task) => {
            &&& task.custom == custom
            &&& answers.len() > 0 ==> answers[0] is Ok && task.folder == answers[0]->Ok_0
            &&& match task.stage {
                restore::StageView::CreatingFolder => answers.len() == 0 && action
                    == actions::ActionView::CreateBackupFolder,
                restore::StageView::Exporting(exports) => exports.len() < n && answers.len() == 1
                    + exports.len() && outcomes_from(answers, 1, exports) && action == restore::backup_order(
                    custom[exports.len() as int],
                ),
                restore::StageView::DroppingFolder(_) => answers.len() == 1 + n
                    && an_export_failed(answers, n) && action
                    == actions::ActionView::RemoveBackupFolder,
                restore::StageView::Restoring => answers.len() == 1 + n && exported(answers, n)
                    && action == restore::reset_order(),
                restore::StageView::RestoringAgain(_) => answers.len() == 2 + n && exported(
                    answers,
                    n,
                ) && answers[1 + n as int] is Err && action == restore::second_reset_order(),
                restore::StageView::Importing(imports) => imports.len() < n && was_reset(
                    answers,
                    n,
                ) && answers.len() == first_import(answers, n) + imports.len() && outcomes_from(
                    answers,
                    first_import(answers, n),
                    imports,
                ) && action == restore::reimport_order(custom[imports.len() as int]),
                restore::StageView::Loading(imports, _) => imported(answers, n, imports)
                    && is_no_reset(action),
                restore::StageView::Enabling(imports, _) => imported(answers, n, imports)
                    && is_no_reset(action),
                restore::StageView::Activating(imports, _, _) => imported(answers, n, imports)
                    && is_no_reset(action),
                restore::StageView::Finishing(_) => (exists|imports: Seq<outcomes::OutcomeView>|
                    imported(answers, n, imports) && outcomes::all_done(imports)) && action
                    == actions::ActionView::RemoveBackupFolder,
            }
        },
        restore::RestoreStepView::Done(Ok(_)) => exists|imports: Seq<outcomes::OutcomeView>|
            imported(answers, n, imports) && outcomes::all_done(imports),
        restore::RestoreStepView::Done(Err(report)) => answers.len() > 0 && (answers[0] is Err
            || an_export_failed(answers, n) || (exported(answers, n) && names_kept_folder(
            report,
            answers[0]->Ok_0,
        ) && (reset_refused(answers, n) || exists|imports: Seq<outcomes::OutcomeView>|
            imported(answers, n, imports)))),
    }
}

proof fn lemma_load_commands(task: load::LoadView, answer: outcomes::AnswerView)
    ensures
        load::load_next(task, answer) matches load::LoadStepView::Ask(command, _)
            ==> command.needs_windows,
{
}

proof fn lemma_conclude(
    custom: Seq<plans::PlanView>,
    answers: Seq<outcomes::AnswerView>,
    task: restore::RestoreView,
    imports: Seq<outcomes::OutcomeView>,
    later: Seq<Seq<char>>,
    enabled: Seq<Seq<char>>,
)
    requires
        task.custom == custom,
        answers.len() > 0,
        answers[0] is Ok,
        task.folder == answers[0]->Ok_0,
        imported(answers, custom.len(), imports),
    ensures
        fits(custom, answers, restore::conclude(task, imports, later, enabled)),
        fits(custom, answers, restore::activate_on(task, imports, later, enabled)),
{
    let labels = restore::import_labels(custom);
    outcomes::law_successes_and_failures(labels, imports);
    let failed = outcomes::failures(labels, imports) + later;
    if failed.len() > 0 {
        let report = restore::restore_failure(imports, failed, task.folder);
        let front = "Restored Windows defaults and re-imported "@ + text::decimal(
            outcomes::successes(imports),
        ) + " custom plan(s), but "@ + text::decimal(failed.len()) + " step(s) failed\n"@
            + text::joined(failed, "\n"@);
        lemma_kept_suffix(front, task.folder);
        assert(names_kept_folder(report, task.folder));
    }
}

proof fn lemma_kept_suffix(front: Seq<char>, folder: Seq<char>)
    ensures
        names_kept_folder(front + "\nCustom-plan backups were kept in "@ + folder, folder),
{
    let tail = "\nCustom-plan backups were kept in "@ + folder;
    let report = front + "\nCustom-plan backups were kept in "@ + folder;
    assert(report == front + tail);
    assert(report.subrange(report.len() - tail.len(), report.len() as int) =~= tail);
}

proof fn lemma_enable(
    custom: Seq<plans::PlanView>,
    answers: Seq<outcomes::AnswerView>,
    task: restore::RestoreView,
    imports: Seq<outcomes::OutcomeView>,
    step: duplicates::DuplicateStepView,
)
    requires
        task.custom == custom,
        answers.len() > 0,
        answers[0] is Ok,
        task.folder == answers[0]->Ok_0,
        imported(answers, custom.len(), imports),
        step matches duplicates::DuplicateStepView::Ask(command, _) ==> command.needs_windows,
    ensures
        fits(custom, answers, restore::enable_on(task, imports, step)),
{
    if let duplicates::DuplicateStepView::Done(defaults, results) = step {
        lemma_conclude(
            custom,
            answers,
            task,
            imports,
            outcomes::failures(duplicates::default_names(defaults), results),
            outcomes::success_labels(duplicates::default_names(defaults), results),
        );
    }
}

proof fn lemma_kept(answers: Seq<outcomes::AnswerView>, more: Seq<outcomes::AnswerView>, n: nat)
    requires
        answers.len() <= more.len(),
        more.take(answers.len() as int) == answers,
    ensures
        exported(answers, n) ==> exported(more, n),
        was_reset(answers, n) ==> was_reset(more, n) && first_import(answers, n) == first_import(
            more,
            n,
        ),
        an_export_failed(answers, n) ==> an_export_failed(more, n),
        reset_refused(answers, n) ==> reset_refused(more, n),
        forall|imports: Seq<outcomes::OutcomeView>|
            #[trigger] imported(answers, n, imports) ==> imported(more, n, imports),
{
    assert forall|i: int| 0 <= i < answers.len() implies #[trigger] more[i] == answers[i] by {
        assert(more.take(answers.len() as int)[i] == more[i]);
    }
    if an_export_failed(answers, n) {
        let i = choose|i: int| 1 <= i < 1 + n && (#[trigger] answers[i]) is Err;
        assert(more[i] is Err);
    }
}

proof fn lemma_fits(
    all: Seq<plans::PlanView>,
    active: Option<Seq<char>>,
    answers: Seq<outcomes::AnswerView>,
)
    ensures
        fits(plans::custom_plans(all), answers, restore_after(all, active, answers)),
    decreases answers.len(),
{
    let custom = plans::custom_plans(all);
    let n = custom.len();
    if answers.len() > 0 {
        let before = answers.drop_last();
        let answer = answers.last();
        lemma_fits(all, active, before);
        assert(answers.take(before.len() as int) == before);
        lemma_kept(before, answers, n);
        match restore_after(all, active, before) {
            restore::RestoreStepView::Ask(_, task) => {
                assert(answers == before.push(answer));
                lemma_fits_next(custom, before, task, answer, answers);
            },
            restore::RestoreStepView::Done(Ok(_)) => {
                let imports = choose|imports: Seq<outcomes::OutcomeView>|
                    imported(before, n, imports) && outcomes::all_done(imports);
                assert(imported(answers, n, imports));
            },
            restore::RestoreStepView::Done(Err(_)) => {
                if exists|imports: Seq<outcomes::OutcomeView>| imported(before, n, imports) {
                    let imports = choose|imports: Seq<outcomes::OutcomeView>|
                        imported(before, n, imports);
                    assert(imported(answers, n, imports));
                }
            },
        }
    }
}

proof fn lemma_fits_next(
    custom: Seq<plans::PlanView>,
    before: Seq<outcomes::AnswerView>,
    task: restore::RestoreView,
    answer: outcomes::AnswerView,
    answers: Seq<outcomes::AnswerView>,
)
    requires
        answers == before.push(answer),
        exists|action: actions::ActionView|
            fits(custom, before, restore::RestoreStepView::Ask(action, task)),
    ensures
        fits(custom, answers, restore::restore_next(task, answer)),
{
    let n = custom.len();
    let action = choose|action: actions::ActionView|
        fits(custom, before, restore::RestoreStepView::Ask(action, task));
    assert(answers.take(before.len() as int) == before);
    lemma_kept(before, answers, n);
    assert(answers.last() == answer);
    assert(before.len() > 0 ==> answers[0] == before[0]);
    match task.stage {
        restore::StageView::CreatingFolder => {
            if let Ok(folder) = answer {
                lemma_exports(
                    custom,
                    answers,
                    restore::RestoreView { folder, ..task },
                    Seq::empty(),
                );
            }
        },
        restore::StageView::Exporting(exports) => {
            let more = exports.push(outcomes::outcome_of(answer));
            assert forall|i: int| 0 <= i < more.len() implies #[trigger] more[i]
                == outcomes::outcome_of(answers[1 + i]) by {
                if i < exports.len() {
                    assert(exports[i] == outcomes::outcome_of(before[1 + i]));
                }
            }
            lemma_exports(custom, answers, task, more);
        },
        restore::StageView::DroppingFolder(_) => {},
        restore::StageView::Restoring => {
            if answer is Ok {
                assert(was_reset(answers, n));
                lemma_imports(custom, answers, task, Seq::empty());
            }
        },
        restore::StageView::RestoringAgain(first_error) => {
            match answer {
                Ok(_) => {
                    assert(answers[1 + n as int] == before[1 + n as int]);
                    assert(was_reset(answers, n));
                    lemma_imports(custom, answers, task, Seq::empty());
                },
                Err(second_error) => {
                    lemma_kept_suffix(
                        "Could not restore Windows default power plans\n"@ + first_error + "\n"@
                            + second_error,
                        task.folder,
                    );
                },
            }
        },
        restore::StageView::Importing(imports) => {
            let start = first_import(answers, n);
            let more = imports.push(outcomes::outcome_of(answer));
            assert forall|i: int| 0 <= i < more.len() implies #[trigger] more[i]
                == outcomes::outcome_of(answers[start + i]) by {
                if i < imports.len() {
                    assert(imports[i] == outcomes::outcome_of(before[start + i]));
                }
            }
            lemma_imports(custom, answers, task, more);
        },
        restore::StageView::Loading(imports, inner) => {
            lemma_load_commands(inner, answer);
            match load::load_next(inner, answer) {
                load::LoadStepView::Ask(_, _) => {},
                load::LoadStepView::Done(Ok(current)) => {
                    lemma_enable(
                        custom,
                        answers,
                        task,
                        imports,
                        duplicates::duplicate_on(plans::missing_defaults(current), Seq::empty()),
                    );
                },
                load::LoadStepView::Done(Err(error)) => {
                    lemma_conclude(
                        custom,
                        answers,
                        task,
                        imports,
                        seq![
                            "Windows defaults were restored, but the refreshed plan list could not be read: "@
                                + error,
                        ],
                        Seq::empty(),
                    );
                },
            }
        },
        restore::StageView::Enabling(imports, inner) => {
            lemma_enable(
                custom,
                answers,
                task,
                imports,
                duplicates::duplicate_next(inner, answer),
            );
        },
        restore::StageView::Activating(imports, later, enabled) => {
            lemma_conclude(
                custom,
                answers,
                task,
                imports,
                match answer {
                    Ok(_) => later,
                    Err(error) => later.push(
                        "Could not reactivate previous active plan: "@ + error,
                    ),
                },
                enabled,
            );
        },
        restore::StageView::Finishing(_) => {
            let imports = choose|imports: Seq<outcomes::OutcomeView>|
                imported(before, n, imports) && outcomes::all_done(imports);
            assert(imported(answers, n, imports));
        },
    }
}

proof fn lemma_exports(
    custom: Seq<plans::PlanView>,
    answers: Seq<outcomes::AnswerView>,
    task: restore::RestoreView,
    exports: Seq<outcomes::OutcomeView>,
)
    requires
        task.custom == custom,
        answers.len() == 1 + exports.len(),
        exports.len() <= custom.len(),
        answers[0] is Ok,
        task.folder == answers[0]->Ok_0,
        outcomes_from(answers, 1, exports),
    ensures
        fits(custom, answers, restore::export_on(task, exports)),
{
    let n = custom.len();
    let names = restore::plan_names(custom);
    outcomes::law_successes_and_failures(names, exports);
    if exports.len() == n {
        if outcomes::failures(names, exports).len() == 0 {
            assert forall|i: int| 0 <= i < 1 + n implies (#[trigger] answers[i]) is Ok by {
                if i > 0 {
                    assert(exports[i - 1] is Ok);
                }
            }
        } else {
            let i = choose|i: int| 0 <= i < exports.len() && !((#[trigger] exports[i]) is Ok);
            assert(answers[1 + i] is Err);
        }
    }
}

proof fn lemma_imports(
    custom: Seq<plans::PlanView>,
    answers: Seq<outcomes::AnswerView>,
    task: restore::RestoreView,
    imports: Seq<outcomes::OutcomeView>,
)
    requires
        task.custom == custom,
        answers.len() > 0,
        answers[0] is Ok,
        task.folder == answers[0]->Ok_0,
        imports.len() <= custom.len(),
        was_reset(answers, custom.len()),
        answers.len() == first_import(answers, custom.len()) + imports.len(),
        outcomes_from(answers, first_import(answers, custom.len()), imports),
    ensures
        fits(custom, answers, restore::import_on(task, imports)),
{
}

proof fn lemma_done_stays(
    all: Seq<plans::PlanView>,
    active: Option<Seq<char>>,
    answers: Seq<outcomes::AnswerView>,
    at: int,
)
    requires
        0 <= at <= answers.len(),
        restore_after(all, active, answers.take(at)) is Done,
    ensures
        restore_after(all, active, answers) == restore_after(all, active, answers.take(at)),
    decreases answers.len(),
{
    if at == answers.len() {
        assert(answers.take(at) == answers);
    } else {
        assert(answers.drop_last().take(at) == answers.take(at));
        lemma_done_stays(all, active, answers.drop_last(), at);
    }
}

/// The plans of Windows are reset only once every plan of the user is in the backup folder: each
/// was asked to be exported there, and each of these orders was carried out.
pub proof fn law_reset_only_after_backup(
    all: Seq<plans::PlanView>,
    active: Option<Seq<char>>,
    answers: Seq<outcomes::AnswerView>,
)
    requires
        asks_reset_after(all, active, answers),
    ensures
        answers.len() > plans::custom_plans(all).len(),
        forall|i: int|
            #![trigger plans::custom_plans(all)[i]]
            0 <= i < plans::custom_plans(all).len() ==> asks_after(
                all,
                active,
                answers.take(1 + i),
                restore::backup_order(plans::custom_plans(all)[i]),
            ) && answers[1 + i] is Ok,
{
    let custom = plans::custom_plans(all);
    let n = custom.len();
    lemma_fits(all, active, answers);
    assert(exported(answers, n));
    assert forall|i: int| #![trigger custom[i]] 0 <= i < n implies asks_after(
        all,
        active,
        answers.take(1 + i),
        restore::backup_order(custom[i]),
    ) && answers[1 + i] is Ok by {
        lemma_exporting(all, active, answers, i);
    }
}

proof fn lemma_exporting(
    all: Seq<plans::PlanView>,
    active: Option<Seq<char>>,
    answers: Seq<outcomes::AnswerView>,
    i: int,
)
    requires
        exported(answers, plans::custom_plans(all).len()),
        0 <= i < plans::custom_plans(all).len(),
    ensures
        asks_after(
            all,
            active,
            answers.take(1 + i),
            restore::backup_order(plans::custom_plans(all)[i]),
        ),
{
    let so_far = answers.take(1 + i);
    lemma_fits(all, active, so_far);
    assert(so_far[0] == answers[0]);
}

/// Once Windows restored its plans, each plan of the user is asked to be imported from its own
/// file in the backup folder under its own GUID, one after another, whatever becomes of the
/// imports. (`answers` has one answer for the folder, one for each export, one or two for the
/// reset, and one for each import.)
pub proof fn law_custom_plans_are_reimported(
    all: Seq<plans::PlanView>,
    active: Option<Seq<char>>,
    answers: Seq<outcomes::AnswerView>,
)
    requires
        answers.len() > 1 + plans::custom_plans(all).len(),
        forall|i: int|
            0 <= i < 1 + plans::custom_plans(all).len() ==> (#[trigger] answers[i]) is Ok,
        answers[1 + plans::custom_plans(all).len() as int] is Ok || (answers.len() > 2
            + plans::custom_plans(all).len() && answers[2 + plans::custom_plans(
            all,
        ).len() as int] is Ok),
        answers.len() >= first_import(answers, plans::custom_plans(all).len())
            + plans::custom_plans(all).len(),
    ensures
        forall|i: int|
            #![trigger plans::custom_plans(all)[i]]
            0 <= i < plans::custom_plans(all).len() ==> asks_after(
                all,
                active,
                answers.take(first_import(answers, plans::custom_plans(all).len()) + i),
                restore::reimport_order(plans::custom_plans(all)[i]),
            ),
{
    let custom = plans::custom_plans(all);
    let n = custom.len();
    let start = first_import(answers, n);
    assert forall|i: int| #![trigger custom[i]] 0 <= i < n implies asks_after(
        all,
        active,
        answers.take(start + i),
        restore::reimport_order(custom[i]),
    ) by {
        lemma_importing(all, active, answers, i);
    }
}

proof fn lemma_importing(
    all: Seq<plans::PlanView>,
    active: Option<Seq<char>>,
    answers: Seq<outcomes::AnswerView>,
    i: int,
)
    requires
        was_reset(answers, plans::custom_plans(all).len()),
        0 <= i < plans::custom_plans(all).len(),
        first_import(answers, plans::custom_plans(all).len()) + i <= answers.len(),
    ensures
        asks_after(
            all,
            active,
            answers.take(first_import(answers, plans::custom_plans(all).len()) + i),
            restore::reimport_order(plans::custom_plans(all)[i]),
        ),
{
    let n = plans::custom_plans(all).len();
    let so_far = answers.take(first_import(answers, n) + i);
    lemma_fits(all, active, so_far);
    assert forall|k: int| 0 <= k < so_far.len() implies #[trigger] so_far[k] == answers[k] by {}
    assert(so_far[0] is Ok);
    if an_export_failed(so_far, n) {
        let bad = choose|k: int| 1 <= k < 1 + n && (#[trigger] so_far[k]) is Err;
        assert(answers[bad] is Ok);
    }
}

/// The backup folder is removed only where it is of no use: either nothing was reset, because a plan
/// of the user could not be exported; or every plan of the user was imported again.
pub proof fn law_backup_is_removed_only_when_useless(
    all: Seq<plans::PlanView>,
    active: Option<Seq<char>>,
    answers: Seq<outcomes::AnswerView>,
)
    requires
        asks_after(all, active, answers, actions::ActionView::RemoveBackupFolder),
    ensures
        (forall|at: int|
            0 <= at <= answers.len() ==> !asks_reset_after(all, active, #[trigger] answers.take(at)))
            || (forall|i: int|
            #![trigger plans::custom_plans(all)[i]]
            0 <= i < plans::custom_plans(all).len() ==> asks_after(
                all,
                active,
                answers.take(first_import(answers, plans::custom_plans(all).len()) + i),
                restore::reimport_order(plans::custom_plans(all)[i]),
            ) && answers[first_import(answers, plans::custom_plans(all).len()) + i] is Ok),
{
    let custom = plans::custom_plans(all);
    let n = custom.len();
    lemma_fits(all, active, answers);
    if an_export_failed(answers, n) {
        let bad = choose|i: int| 1 <= i < 1 + n && (#[trigger] answers[i]) is Err;
        assert forall|at: int| 0 <= at <= answers.len() implies !asks_reset_after(
            all,
            active,
            #[trigger] answers.take(at),
        ) by {
            lemma_fits(all, active, answers.take(at));
            if asks_reset_after(all, active, answers.take(at)) {
                assert(exported(answers.take(at), n));
                assert(answers.take(at)[bad] == answers[bad]);
            }
        }
    } else {
        let imports = choose|imports: Seq<outcomes::OutcomeView>|
            imported(answers, n, imports) && outcomes::all_done(imports);
        assert forall|i: int| #![trigger custom[i]] 0 <= i < n implies asks_after(
            all,
            active,
            answers.take(first_import(answers, n) + i),
            restore::reimport_order(custom[i]),
        ) && answers[first_import(answers, n) + i] is Ok by {
            lemma_importing(all, active, answers, i);
            assert(imports[i] is Ok);
        }
    }
}

/// A restoration that fails after the reset was asked for keeps the backup folder, and its report
/// names the folder.
pub proof fn law_failed_restoration_keeps_backup(
    all: Seq<plans::PlanView>,
    active: Option<Seq<char>>,
    answers: Seq<outcomes::AnswerView>,
    reset_at: int,
    report: Seq<char>,
)
    requires
        0 <= reset_at <= answers.len(),
        asks_reset_after(all, active, answers.take(reset_at)),
        restore_after(all, active, answers) == restore::RestoreStepView::Done(Err(report)),
    ensures
        answers[0] is Ok && names_kept_folder(report, answers[0]->Ok_0),
        forall|at: int|
            0 <= at <= answers.len() ==> !asks_after(
                all,
                active,
                #[trigger] answers.take(at),
                actions::ActionView::RemoveBackupFolder,
            ),
{
    let n = plans::custom_plans(all).len();
    lemma_fits(all, active, answers);
    lemma_fits(all, active, answers.take(reset_at));
    lemma_kept(answers.take(reset_at), answers, n);
    assert(exported(answers, n));
    assert forall|at: int| 0 <= at <= answers.len() implies !asks_after(
        all,
        active,
        #[trigger] answers.take(at),
        actions::ActionView::RemoveBackupFolder,
    ) by {
        let so_far = answers.take(at);
        lemma_fits(all, active, so_far);
        if asks_after(all, active, so_far, actions::ActionView::RemoveBackupFolder) {
            if an_export_failed(so_far, n) {
                let bad = choose|i: int| 1 <= i < 1 + n && (#[trigger] so_far[i]) is Err;
                assert(answers[bad] is Ok);
            } else if at < answers.len() {
                let next = answers.take(at + 1);
                assert(next.drop_last() == so_far);
                assert(next.last() == answers[at]);
                lemma_done_stays(all, active, answers, at + 1);
            } else {
                assert(so_far == answers);
            }
        }
    }
}

/// A restoration is reported as done only where every plan of the user was imported again.
pub proof fn law_successful_restoration_preserves_plans(
    all: Seq<plans::PlanView>,
    active: Option<Seq<char>>,
    answers: Seq<outcomes::AnswerView>,
)
    requires
        restore_after(all, active, answers) matches restore::RestoreStepView::Done(Ok(_)),
    ensures
        answers.len() >= first_import(answers, plans::custom_plans(all).len())
            + plans::custom_plans(all).len(),
        forall|i: int|
            #![trigger plans::custom_plans(all)[i]]
            0 <= i < plans::custom_plans(all).len() ==> asks_after(
                all,
                active,
                answers.take(first_import(answers, plans::custom_plans(all).len()) + i),
                restore::reimport_order(plans::custom_plans(all)[i]),
            ) && answers[first_import(answers, plans::custom_plans(all).len()) + i] is Ok,
{
    let custom = plans::custom_plans(all);
    let n = custom.len();
    lemma_fits(all, active, answers);
    let imports = choose|imports: Seq<outcomes::OutcomeView>|
        imported(answers, n, imports) && outcomes::all_done(imports);
    assert forall|i: int| #![trigger custom[i]] 0 <= i < n implies asks_after(
        all,
        active,
        answers.take(first_import(answers, n) + i),
        restore::reimport_order(custom[i]),
    ) && answers[first_import(answers, n) + i] is Ok by {
        lemma_importing(all, active, answers, i);
        assert(imports[i] is Ok);
    }
}

/// The plan that was in force is remembered, and where a plan is being put in force it is that one.
spec fn remembers(active: Option<Seq<char>>, step: restore::RestoreStepView) -> bool {
    step matches restore::RestoreStepView::Ask(action, task) ==> {
        &&& task.active == active
        &&& task.stage is Activating ==> active is Some && action == actions::ActionView::Run(
            commands::set_active_command(active->0),
        )
    }
}

proof fn lemma_remembers(
    all: Seq<plans::PlanView>,
    active: Option<Seq<char>>,
    answers: Seq<outcomes::AnswerView>,
)
    ensures
        remembers(active, restore_after(all, active, answers)),
    decreases answers.len(),
{
    if answers.len() > 0 {
        lemma_remembers(all, active, answers.drop_last());
    }
}

/// A restoration is reported as done, and about to be, only where the plan that was in force was put
/// in force again.
pub proof fn law_plan_in_force_is_put_back(
    all: Seq<plans::PlanView>,
    active: Seq<char>,
    answers: Seq<outcomes::AnswerView>,
)
    requires
        match restore_after(all, Some(active), answers) {
            restore::RestoreStepView::Ask(_, task) => task.stage is Finishing,
            restore::RestoreStepView::Done(report) => report is Ok,
        },
    ensures
        exists|at: int|
            0 <= at < answers.len() && answers[at] is Ok && #[trigger] asks_after(
                all,
                Some(active),
                answers.take(at),
                actions::ActionView::Run(commands::set_active_command(active)),
            ),
    decreases answers.len(),
{
    let order = actions::ActionView::Run(commands::set_active_command(active));
    let shorter = answers.drop_last();
    let before = restore_after(all, Some(active), shorter);
    lemma_remembers(all, Some(active), shorter);
    if before matches restore::RestoreStepView::Ask(_, task) && task.stage is Activating {
        assert(answers.take(answers.len() - 1) == shorter);
        assert(asks_after(all, Some(active), answers.take(answers.len() - 1), order));
    } else {
        law_plan_in_force_is_put_back(all, active, shorter);
        let at = choose|at: int|
            0 <= at < shorter.len() && shorter[at] is Ok && #[trigger] asks_after(
                all,
                Some(active),
                shorter.take(at),
                order,
            );
        assert(answers.take(at) == shorter.take(at));
    }
}

/// Plans with different GUIDs are kept in different files.
pub proof fn law_backups_do_not_collide(a: Seq<char>, b: Seq<char>)
    requires
        file_names::backup_name(a) == file_names::backup_name(b),
    ensures
        a == b,
{
    let file = file_names::backup_name(a);
    assert(a == file.take(file.len() - ".pow"@.len()));
    assert(b == file.take(file.len() - ".pow"@.len()));
}

} // verus!
