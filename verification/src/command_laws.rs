//! The command lines and fixed texts, word by word.
use vstd::prelude::*;
use vstd::utf8::*;

use crate::commands;
use crate::commands::{
    ArgView, CommandView, Program, APP_DATA_FOLDER, CONTROL_PANEL, FPSHEAVEN_DOWNLOADS_FOLDER,
    FPSHEAVEN_POWER_PLANS_FOLDER, FPSHEAVEN_POWER_PLANS_URL, FPSHEAVEN_POWER_PLANS_ZIP_FILE,
    POWER_OPTIONS_PAGE, YOUTUBE_CHANNEL_URL,
};
use crate::model::{ACTIVATE_ANOTHER_FIRST, FPSHEAVEN_IMPORT_BUSY_MESSAGE, SELECT_FIRST};
use crate::outcomes;
use crate::status;
use crate::status::StatusKind;
use crate::text;

verus! {

/// `powercfg` on Windows with the given arguments.
pub open spec fn powercfg_line(args: Seq<ArgView>) -> CommandView {
    CommandView { program: Program::Powercfg, needs_windows: true, args }
}

/// The orders on one plan name the plan and nothing else.
pub proof fn law_orders_on_a_plan(guid: Seq<char>)
    ensures
        commands::set_active_command(guid) == powercfg_line(
            seq![ArgView::Text("/setactive"@), ArgView::Text(guid)],
        ),
        commands::delete_command(guid) == powercfg_line(
            seq![ArgView::Text("/delete"@), ArgView::Text(guid)],
        ),
        commands::duplicate_command(guid) == powercfg_line(
            seq![ArgView::Text("/duplicatescheme"@), ArgView::Text(guid)],
        ),
{
}

/// A plan is exported to a file by the file and the plan, and imported by the file and, where one is
/// given, the GUID.
pub proof fn law_orders_on_a_file(guid: Seq<char>, path: ArgView)
    ensures
        commands::export_command(guid, path) == powercfg_line(
            seq![ArgView::Text("/export"@), path, ArgView::Text(guid)],
        ),
        commands::import_command(path, None) == powercfg_line(
            seq![ArgView::Text("/import"@), path],
        ),
        commands::import_command(path, Some(guid)) == powercfg_line(
            seq![ArgView::Text("/import"@), path, ArgView::Text(guid)],
        ),
{
}

/// A plan is renamed by its GUID, the name and, where one is given, the description.
pub proof fn law_order_to_rename(guid: Seq<char>, name: Seq<char>, description: Seq<char>)
    ensures
        commands::rename_command(guid, name, Some(description)) == powercfg_line(
            seq![
                ArgView::Text("/changename"@),
                ArgView::Text(guid),
                ArgView::Text(name),
                ArgView::Text(description),
            ],
        ),
        commands::rename_command(guid, name, None) == powercfg_line(
            seq![ArgView::Text("/changename"@), ArgView::Text(guid), ArgView::Text(name)],
        ),
{
}

/// The questions for the plans, and the order to restore those of Windows.
pub proof fn law_questions(guid: Seq<char>, switch: Seq<char>)
    ensures
        commands::active_command() == powercfg_line(seq![ArgView::Text("/getactivescheme"@)]),
        commands::list_command() == powercfg_line(seq![ArgView::Text("/list"@)]),
        commands::description_command(guid) == (CommandView {
            program: Program::Reg,
            needs_windows: true,
            args: seq![
                ArgView::Text("query"@),
                ArgView::Text(
                    "HKLM\\SYSTEM\\CurrentControlSet\\Control\\Power\\User\\PowerSchemes\\"@ + guid,
                ),
                ArgView::Text("/v"@),
                ArgView::Text("Description"@),
            ],
        }),
        commands::restore_command(switch) == (CommandView {
            program: Program::Powercfg,
            needs_windows: false,
            args: seq![ArgView::Text(switch)],
        }),
{
}

/// A script is handed to the interpreter as the last argument, with no profile and no questions.
pub proof fn law_script_line(script: Seq<char>)
    ensures
        commands::script_command(script) == (CommandView {
            program: Program::Powershell,
            needs_windows: false,
            args: seq![
                ArgView::Text("-NoProfile"@),
                ArgView::Text("-NonInteractive"@),
                ArgView::Text("-ExecutionPolicy"@),
                ArgView::Text("Bypass"@),
                ArgView::Text("-Command"@),
                ArgView::Text(script),
            ],
        }),
{
}

/// The programs by their names.
pub proof fn law_program_names()
    ensures
        Program::Powercfg.name_text() == "powercfg"@,
        Program::Reg.name_text() == "reg"@,
        Program::Powershell.name_text() == "powershell.exe"@,
{
}

proof fn lemma_doubled_parts(a: Seq<char>, b: Seq<char>)
    ensures
        commands::doubled(a + b) == commands::doubled(a) + commands::doubled(b),
    decreases a.len(),
{
    if a.len() == 0 {
        assert(a + b =~= b);
        assert(commands::doubled(a) + commands::doubled(b) =~= commands::doubled(b));
    } else {
        lemma_doubled_parts(a.drop_first(), b);
        assert((a + b).drop_first() =~= a.drop_first() + b);
        assert(commands::doubled(a + b) =~= commands::doubled(a) + commands::doubled(b));
    }
}

/// Quoting puts apostrophes round a value, writes each apostrophe in it twice and leaves the rest as
/// it is, piece by piece.
pub proof fn law_quoting(a: Seq<char>, c: char, b: Seq<char>)
    ensures
        commands::quoted(a) == "'"@ + commands::doubled(a) + "'"@,
        commands::doubled(Seq::empty()) == Seq::<char>::empty(),
        commands::doubled(a + b) == commands::doubled(a) + commands::doubled(b),
        c != '\'' ==> commands::doubled(seq![c]) == seq![c],
        commands::doubled(seq!['\'']) == seq!['\'', '\''],
{
    lemma_doubled_parts(a, b);
    assert(seq![c].drop_first() =~= Seq::empty());
    assert(seq!['\''].drop_first() =~= Seq::empty());
    assert(commands::doubled(seq![c].drop_first()) == Seq::<char>::empty());
    if c != '\'' {
        assert(commands::doubled(seq![c]) =~= seq![c]);
    }
    assert(commands::doubled(seq!['\'']) =~= seq!['\'', '\'']);
}

/// The scripts name what is downloaded and where to, and what is unpacked and where to, each quoted.
pub proof fn law_scripts(source: Seq<char>, destination: Seq<char>)
    ensures
        commands::download_script(source, destination)
            == "$ErrorActionPreference = 'Stop'; [Net.ServicePointManager]::SecurityProtocol = [Net.SecurityProtocolType]::Tls12; Invoke-WebRequest -Uri "@
            + commands::quoted(source) + " -OutFile "@ + commands::quoted(destination)
            + " -UseBasicParsing"@,
        commands::extract_script(source, destination)
            == "$ErrorActionPreference = 'Stop'; Expand-Archive -LiteralPath "@ + commands::quoted(
            source,
        ) + " -DestinationPath "@ + commands::quoted(destination) + " -Force"@,
{
}

/// The details of a failure are what was printed as errors, or else what was printed, or else a
/// remark; white space does not count.
pub proof fn law_failure_details(stdout: Seq<u8>, stderr: Seq<u8>)
    ensures
        ({
            let out = text::trimmed(commands::utf8_lossy(stdout));
            let err = text::trimmed(commands::utf8_lossy(stderr));
            &&& commands::printed(stdout) == out
            &&& err.len() > 0 ==> commands::failure_details(stdout, stderr) == err
            &&& err.len() == 0 && out.len() > 0 ==> commands::failure_details(stdout, stderr) == out
            &&& err.len() == 0 && out.len() == 0 ==> commands::failure_details(stdout, stderr)
                == "no error details returned"@
        }),
{
}

/// The fixed names and texts.
pub proof fn law_fixed_texts()
    ensures
        YOUTUBE_CHANNEL_URL@ == "https://www.youtube.com/@fpsheaven"@,
        FPSHEAVEN_POWER_PLANS_URL@
            == "https://fpsheaven.com/wp-content/uploads/2026/06/fpsheaven_powerplans.zip"@,
        FPSHEAVEN_POWER_PLANS_ZIP_FILE@ == "fpsheaven_powerplans.zip"@,
        FPSHEAVEN_POWER_PLANS_FOLDER@ == "FPSHEAVEN Power Plans"@,
        APP_DATA_FOLDER@ == "Simple Power Plan Manager"@,
        FPSHEAVEN_DOWNLOADS_FOLDER@ == "FPSHEAVEN Downloads"@,
        CONTROL_PANEL@ == "control.exe"@,
        POWER_OPTIONS_PAGE@ == "powercfg.cpl,,3"@,
        FPSHEAVEN_IMPORT_BUSY_MESSAGE@
            == "FPSHEAVEN power plan import is running; wait for it to finish"@,
        SELECT_FIRST@ == "Select a power plan first"@,
        ACTIVATE_ANOTHER_FIRST@ == "Activate another plan before deleting this one"@,
        commands::windows_only()
            == "This app manages Windows power plans and must be run on Windows"@,
{
}

/// News, success and failure keep their text and differ in how they are meant.
pub proof fn law_status_lines(said: Seq<char>)
    ensures
        status::news(said) == (status::StatusView { kind: StatusKind::Info, text: said }),
        status::done(said) == (status::StatusView { kind: StatusKind::Success, text: said }),
        status::failed(said) == (status::StatusView { kind: StatusKind::Error, text: said }),
{
}

/// One more outcome: a success is counted and named, a failure is told by its label and reason, and
/// what was told before stays.
pub proof fn law_one_more_outcome(
    labels: Seq<Seq<char>>,
    before: Seq<outcomes::OutcomeView>,
    error: Seq<char>,
)
    ensures
        outcomes::successes(Seq::empty()) == 0,
        outcomes::success_labels(labels, Seq::empty()) == Seq::<Seq<char>>::empty(),
        outcomes::failures(labels, Seq::empty()) == Seq::<Seq<char>>::empty(),
        outcomes::successes(before.push(Ok(()))) == outcomes::successes(before) + 1,
        outcomes::success_labels(labels, before.push(Ok(()))) == outcomes::success_labels(
            labels,
            before,
        ).push(labels[before.len() as int]),
        outcomes::failures(labels, before.push(Ok(()))) == outcomes::failures(labels, before),
        outcomes::successes(before.push(Err(error))) == outcomes::successes(before),
        outcomes::success_labels(labels, before.push(Err(error))) == outcomes::success_labels(
            labels,
            before,
        ),
        outcomes::failures(labels, before.push(Err(error))) == outcomes::failures(
            labels,
            before,
        ).push(labels[before.len() as int] + ": "@ + error),
{
    assert(before.push(Ok(())).drop_last() =~= before);
    assert(before.push(Err(error)).drop_last() =~= before);
}

/// The outcome of an order is that of its answer.
pub proof fn law_outcome_of_an_answer(output: Seq<char>, error: Seq<char>)
    ensures
        outcomes::outcome_of(Ok(output)) == Ok::<(), Seq<char>>(()),
        outcomes::outcome_of(Err(error)) == Err::<(), Seq<char>>(error),
{
}

} // verus!
