//! The commands of each platform that list the printers and print a file, and
//! the reading of what they report.
//!
//! A print command that cannot be started is an error. One that runs and
//! exits with a failure is not: it gives a [`PrintResult`] that says so, for
//! the caller to show.

use vstd::prelude::*;
use crate::models::{PrintResult, PrintResultView, PrinterInfo, PrinterInfoView};
use crate::printers::{
    default_count, parse_lpstat, parse_powershell, printers_from_lpstat, printers_from_powershell,
};
use crate::text::{chars_of, split_tokens, string_of, tokens};

verus! {

/// The operating systems whose print commands are known.
#[derive(Clone, Copy, Debug, PartialEq, Eq, Structural)]
pub enum Platform {
    Linux,
    Windows,
    MacOs,
}

/// A program to run, with its arguments.
#[derive(Clone, Debug, PartialEq, Eq)]
pub struct Command {
    pub program: String,
    pub args: Vec<String>,
}

/// What a [`Command`] holds, as mathematical values.
pub struct CommandView {
    pub program: Seq<char>,
    pub args: Seq<Seq<char>>,
}

impl View for Command {
    type V = CommandView;

    open spec fn view(&self) -> CommandView {
        CommandView { program: self.program@, args: self.args.deep_view() }
    }
}

impl DeepView for Command {
    type V = CommandView;

    open spec fn deep_view(&self) -> CommandView {
        self@
    }
}

/// The program of CUPS that reports on printers.
pub const LPSTAT: &'static str = "lpstat";

/// Asks `lpstat` for the printers and their state.
pub const LPSTAT_PRINTERS: &'static str = "-p";

/// Asks `lpstat` for the default destination.
pub const LPSTAT_DEFAULT: &'static str = "-d";

/// The shell of Windows.
pub const POWERSHELL: &'static str = "powershell";

/// Hands PowerShell the script that follows.
pub const POWERSHELL_COMMAND: &'static str = "-Command";

/// The script that prints name and default flag of every printer as JSON.
pub const GET_PRINTERS_QUERY: &'static str =
    "Get-Printer | Select-Object Name, Default | ConvertTo-Json";

/// The program of CUPS that prints files on Linux.
pub const LP: &'static str = "lp";

/// Names the printer to `lp`.
pub const LP_DESTINATION: &'static str = "-d";

/// Hands `lp` the job option that follows.
pub const LP_OPTION: &'static str = "-o";

/// The job option that scales the document to the sheet.
pub const LP_FIT_TO_PAGE: &'static str = "fit-to-page";

/// The program that prints files on macOS.
pub const LPR: &'static str = "lpr";

/// Names the printer to `lpr`.
pub const LPR_PRINTER: &'static str = "-P";

/// Opening of the script that prints a file on Windows, up to the path of the file.
pub const START_PROCESS_FILE: &'static str = "Start-Process -FilePath '";

/// From the path of the file to the name of the printer.
pub const START_PROCESS_PRINTER: &'static str = "' -Verb Print -ArgumentList '/d:\"";

/// Closing of the script, after the name of the printer.
pub const START_PROCESS_END: &'static str = "\"'";

/// The command that lists the printers of `platform`.
pub open spec fn list_command_for(platform: Platform) -> CommandView {
    match platform {
        Platform::Linux | Platform::MacOs => CommandView {
            program: LPSTAT@,
            args: seq![LPSTAT_PRINTERS@, LPSTAT_DEFAULT@],
        },
        Platform::Windows => CommandView {
            program: POWERSHELL@,
            args: seq![POWERSHELL_COMMAND@, GET_PRINTERS_QUERY@],
        },
    }
}

/// The PowerShell script that prints the file at `pdf_path` on `printer`.
pub open spec fn start_process_script(printer: Seq<char>, pdf_path: Seq<char>) -> Seq<char> {
    START_PROCESS_FILE@ + pdf_path + START_PROCESS_PRINTER@ + printer + START_PROCESS_END@
}

/// The command that prints the file at `pdf_path` on `printer`: `lp` with the
/// page fitted on Linux, `lpr` on macOS, the `Print` verb on Windows.
pub open spec fn print_command_for(
    platform: Platform,
    printer: Seq<char>,
    pdf_path: Seq<char>,
) -> CommandView {
    match platform {
        Platform::Linux => CommandView {
            program: LP@,
            args: seq![LP_DESTINATION@, printer, LP_OPTION@, LP_FIT_TO_PAGE@, pdf_path],
        },
        Platform::MacOs => CommandView { program: LPR@, args: seq![LPR_PRINTER@, printer, pdf_path] },
        Platform::Windows => CommandView {
            program: POWERSHELL@,
            args: seq![POWERSHELL_COMMAND@, start_process_script(printer, pdf_path)],
        },
    }
}

/// The command that lists the printers of `platform`.
pub fn list_command(platform: Platform) -> (command: Command)
    ensures
        command@ == list_command_for(platform),
{
    let mut args: Vec<String> = Vec::new();
    match platform {
        Platform::Linux | Platform::MacOs => {
            args.push(String::from_str(LPSTAT_PRINTERS));
            args.push(String::from_str(LPSTAT_DEFAULT));
            assert(args.deep_view() =~= seq![LPSTAT_PRINTERS@, LPSTAT_DEFAULT@]);
            Command { program: String::from_str(LPSTAT), args }
        },
        Platform::Windows => {
            args.push(String::from_str(POWERSHELL_COMMAND));
            args.push(String::from_str(GET_PRINTERS_QUERY));
            assert(args.deep_view() =~= seq![POWERSHELL_COMMAND@, GET_PRINTERS_QUERY@]);
            Command { program: String::from_str(POWERSHELL), args }
        },
    }
}

/// The command that prints the file at `pdf_path` on `printer`.
pub fn print_command(platform: Platform, printer: &str, pdf_path: &str) -> (command: Command)
    ensures
        command@ == print_command_for(platform, printer@, pdf_path@),
{
    let mut args: Vec<String> = Vec::new();
    match platform {
        Platform::Linux => {
            args.push(String::from_str(LP_DESTINATION));
            args.push(String::from_str(printer));
            args.push(String::from_str(LP_OPTION));
            args.push(String::from_str(LP_FIT_TO_PAGE));
            args.push(String::from_str(pdf_path));
            assert(args.deep_view() =~= seq![
                LP_DESTINATION@,
                printer@,
                LP_OPTION@,
                LP_FIT_TO_PAGE@,
                pdf_path@,
            ]);
            Command { program: String::from_str(LP), args }
        },
        Platform::MacOs => {
            args.push(String::from_str(LPR_PRINTER));
            args.push(String::from_str(printer));
            args.push(String::from_str(pdf_path));
            assert(args.deep_view() =~= seq![LPR_PRINTER@, printer@, pdf_path@]);
            Command { program: String::from_str(LPR), args }
        },
        Platform::Windows => {
            let mut script = String::from_str(START_PROCESS_FILE);
            script.append(pdf_path);
            script.append(START_PROCESS_PRINTER);
            script.append(printer);
            script.append(START_PROCESS_END);
            args.push(String::from_str(POWERSHELL_COMMAND));
            args.push(script);
            assert(args.deep_view() =~= seq![
                POWERSHELL_COMMAND@,
                start_process_script(printer@, pdf_path@),
            ]);
            Command { program: String::from_str(POWERSHELL), args }
        },
    }
}

/// Opens the error for an `lpstat` that could not be started.
pub const LPSTAT_NOT_STARTED: &'static str = "Error executing lpstat: ";

/// Closes that error on Linux.
pub const CUPS_HINT: &'static str = ". Check if CUPS is installed.";

/// Opens the error for a PowerShell that could not be started.
pub const POWERSHELL_NOT_STARTED: &'static str = "Error executing PowerShell: ";

/// Opens the error for an `lpstat` that exited with a failure.
pub const LPSTAT_FAILED: &'static str = "lpstat failed: ";

/// Opens the error for a PowerShell listing that exited with a failure.
pub const POWERSHELL_FAILED: &'static str = "PowerShell failed: ";

/// Opens the error for an `lp` that could not be started.
pub const LP_NOT_STARTED: &'static str = "Error executing lp: ";

/// Opens the error for an `lpr` that could not be started.
pub const LPR_NOT_STARTED: &'static str = "Error executing lpr: ";

/// Opens the message for a print command that exited with a failure.
pub const PRINT_FAILED: &'static str = "Failed to send to printer: ";

/// Opens the message for a print command that succeeded.
pub const PRINT_SENT: &'static str = "Document sent to printer: ";

/// Stands for the job identifier on Windows, where the print command gives none.
pub const WINDOWS_JOB_ID: &'static str = "windows-print-job";

/// The error for a print request without printer on a system without default printer.
pub const NO_DEFAULT_PRINTER: &'static str = "No default printer found";

/// The error for a listing command that could not be started, for the cause
/// `detail`.
pub open spec fn list_not_started_text(platform: Platform, detail: Seq<char>) -> Seq<char> {
    match platform {
        Platform::Linux => LPSTAT_NOT_STARTED@ + detail + CUPS_HINT@,
        Platform::MacOs => LPSTAT_NOT_STARTED@ + detail,
        Platform::Windows => POWERSHELL_NOT_STARTED@ + detail,
    }
}

/// The error for a listing command that exited with a failure and printed
/// `stderr` to its error stream.
pub open spec fn list_failed_text(platform: Platform, stderr: Seq<char>) -> Seq<char> {
    match platform {
        Platform::Linux | Platform::MacOs => LPSTAT_FAILED@ + stderr,
        Platform::Windows => POWERSHELL_FAILED@ + stderr,
    }
}

/// The error for a print command that could not be started, for the cause
/// `detail`.
pub open spec fn print_not_started_text(platform: Platform, detail: Seq<char>) -> Seq<char> {
    match platform {
        Platform::Linux => LP_NOT_STARTED@ + detail,
        Platform::MacOs => LPR_NOT_STARTED@ + detail,
        Platform::Windows => POWERSHELL_NOT_STARTED@ + detail,
    }
}

/// The error for a listing command that could not be started.
pub fn list_not_started(platform: Platform, detail: &str) -> (message: String)
    ensures
        message@ == list_not_started_text(platform, detail@),
{
    match platform {
        Platform::Linux => {
            let mut message = String::from_str(LPSTAT_NOT_STARTED);
            message.append(detail);
            message.append(CUPS_HINT);
            message
        },
        Platform::MacOs => {
            let mut message = String::from_str(LPSTAT_NOT_STARTED);
            message.append(detail);
            message
        },
        Platform::Windows => {
            let mut message = String::from_str(POWERSHELL_NOT_STARTED);
            message.append(detail);
            message
        },
    }
}

/// The error for a listing command that exited with a failure.
pub fn list_failed(platform: Platform, stderr: &str) -> (message: String)
    ensures
        message@ == list_failed_text(platform, stderr@),
{
    let mut message = match platform {
        Platform::Linux | Platform::MacOs => String::from_str(LPSTAT_FAILED),
        Platform::Windows => String::from_str(POWERSHELL_FAILED),
    };
    message.append(stderr);
    message
}

/// The error for a print command that could not be started.
pub fn print_not_started(platform: Platform, detail: &str) -> (message: String)
    ensures
        message@ == print_not_started_text(platform, detail@),
{
    let mut message = match platform {
        Platform::Linux => String::from_str(LP_NOT_STARTED),
        Platform::MacOs => String::from_str(LPR_NOT_STARTED),
        Platform::Windows => String::from_str(POWERSHELL_NOT_STARTED),
    };
    message.append(detail);
    message
}

/// The printer list that the output of the listing command of `platform`
/// stands for.
pub open spec fn printers_from_output(platform: Platform, stdout: Seq<char>) -> Seq<
    PrinterInfoView,
> {
    match platform {
        Platform::Linux | Platform::MacOs => printers_from_lpstat(stdout),
        Platform::Windows => printers_from_powershell(stdout),
    }
}

/// Reads the printer list from what the listing command of `platform` printed.
pub fn parse_printers(platform: Platform, stdout: &str) -> (printers: Vec<PrinterInfo>)
    ensures
        printers.deep_view() == printers_from_output(platform, stdout@),
        default_count(printers.deep_view()) == if printers.len() == 0 {
            0nat
        } else {
            1nat
        },
{
    match platform {
        Platform::Linux | Platform::MacOs => parse_lpstat(stdout),
        Platform::Windows => parse_powershell(stdout),
    }
}

/// The last word of `s`, if it has a word.
pub open spec fn last_token(s: Seq<char>) -> Option<Seq<char>> {
    if tokens(s).len() > 0 {
        Some(tokens(s).last())
    } else {
        None
    }
}

/// The last word of `s`, if it has a word.
pub fn last_word(s: &str) -> (word: Option<String>)
    ensures
        word.deep_view() == last_token(s@),
{
    let chars = chars_of(s);
    let words = split_tokens(&chars);
    if words.len() > 0 {
        let last = &words[words.len() - 1];
        Some(string_of(last))
    } else {
        None
    }
}

/// The job identifier that a print command that succeeded gives: on Linux the
/// last word that `lp` printed, on Windows a fixed text in its place, on macOS none.
pub open spec fn job_id_for(platform: Platform, stdout: Seq<char>) -> Option<Seq<char>> {
    match platform {
        Platform::Linux => last_token(stdout),
        Platform::Windows => Some(WINDOWS_JOB_ID@),
        Platform::MacOs => None,
    }
}

/// What a print command on `printer` that has exited comes to. After a
/// failure: no success, a message that ends with what the command printed to
/// its error stream, no job identifier. After a success: the message names the
/// printer, and the job identifier is that of [`job_id_for`].
pub open spec fn print_result_for(
    platform: Platform,
    printer: Seq<char>,
    success: bool,
    stdout: Seq<char>,
    stderr: Seq<char>,
) -> PrintResultView {
    if success {
        PrintResultView {
            success: true,
            message: PRINT_SENT@ + printer,
            job_id: job_id_for(platform, stdout),
        }
    } else {
        PrintResultView { success: false, message: PRINT_FAILED@ + stderr, job_id: None }
    }
}

/// Reads the outcome of a print command on `printer` that has exited, with
/// `success` or not, having printed `stdout` and `stderr`.
pub fn print_outcome(
    platform: Platform,
    printer: &str,
    success: bool,
    stdout: &str,
    stderr: &str,
) -> (result: PrintResult)
    ensures
        result@ == print_result_for(platform, printer@, success, stdout@, stderr@),
{
    if !success {
        let mut message = String::from_str(PRINT_FAILED);
        message.append(stderr);
        return PrintResult { success: false, message, job_id: None };
    }
    let job_id = match platform {
        Platform::Linux => last_word(stdout),
        Platform::Windows => Some(String::from_str(WINDOWS_JOB_ID)),
        Platform::MacOs => None,
    };
    let mut message = String::from_str(PRINT_SENT);
    message.append(printer);
    PrintResult { success: true, message, job_id }
}

/// A print command that exits with a failure gives a result, not an error: one
/// without success and without job identifier, whose message is not empty and
/// ends with what the command printed to its error stream.
pub proof fn lemma_failed_print_is_reported(
    platform: Platform,
    printer: Seq<char>,
    stdout: Seq<char>,
    stderr: Seq<char>,
)
    ensures
        !print_result_for(platform, printer, false, stdout, stderr).success,
        print_result_for(platform, printer, false, stdout, stderr).job_id is None,
        print_result_for(platform, printer, false, stdout, stderr).message.len() > 0,
        print_result_for(platform, printer, false, stdout, stderr).message == PRINT_FAILED@
            + stderr,
        print_result_for(platform, printer, true, stdout, stderr).success,
{
    reveal_strlit("Failed to send to printer: ");
}

/// What a command that ran to its end reports.
#[derive(Clone, Debug, PartialEq, Eq)]
pub struct Exit {
    /// True if the command exited with success.
    pub success: bool,
    /// What it printed to its output stream.
    pub stdout: String,
    /// What it printed to its error stream.
    pub stderr: String,
}

/// What an [`Exit`] holds, as mathematical values.
pub struct ExitView {
    pub success: bool,
    pub stdout: Seq<char>,
    pub stderr: Seq<char>,
}

impl View for Exit {
    type V = ExitView;

    open spec fn view(&self) -> ExitView {
        ExitView { success: self.success, stdout: self.stdout@, stderr: self.stderr@ }
    }
}

impl DeepView for Exit {
    type V = ExitView;

    open spec fn deep_view(&self) -> ExitView {
        self@
    }
}

/// The printer list, or the error, that a run of the listing command comes
/// to: an error where it could not be started, for the cause given, or where
/// it exited with a failure; otherwise the list read from its output.
pub open spec fn printers_result(
    platform: Platform,
    run: Result<ExitView, Seq<char>>,
) -> Result<Seq<PrinterInfoView>, Seq<char>> {
    match run {
        Err(detail) => Err(list_not_started_text(platform, detail)),
        Ok(exit) => if exit.success {
            Ok(printers_from_output(platform, exit.stdout))
        } else {
            Err(list_failed_text(platform, exit.stderr))
        },
    }
}

/// What a run of a command holds, as mathematical values.
pub open spec fn run_view(run: Result<Exit, String>) -> Result<ExitView, Seq<char>> {
    match run {
        Ok(exit) => Ok(exit@),
        Err(detail) => Err(detail@),
    }
}

/// What a listing holds, as mathematical values.
pub open spec fn listing_view(listing: Result<Vec<PrinterInfo>, String>) -> Result<
    Seq<PrinterInfoView>,
    Seq<char>,
> {
    match listing {
        Ok(printers) => Ok(printers.deep_view()),
        Err(message) => Err(message@),
    }
}

/// Lists the printers of the system from a run of [`list_command`]: `run` is
/// what the command reported at its end, or the cause for which it could not
/// be started.
pub fn get_printers(platform: Platform, run: &Result<Exit, String>) -> (listing: Result<
    Vec<PrinterInfo>,
    String,
>)
    ensures
        listing_view(listing) == printers_result(platform, run_view(*run)),
        listing matches Ok(printers) ==> default_count(printers.deep_view()) == if printers.len()
            == 0 {
            0nat
        } else {
            1nat
        },
{
    match run {
        Err(detail) => Err(list_not_started(platform, detail.as_str())),
        Ok(exit) => {
            if exit.success {
                Ok(parse_printers(platform, exit.stdout.as_str()))
            } else {
                Err(list_failed(platform, exit.stderr.as_str()))
            }
        },
    }
}

} // verus!
