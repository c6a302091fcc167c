//! The course of a print or save job, as a machine that is stepped from
//! outside.
//!
//! A job renders its document to a temporary PDF and then either sends that
//! file to a printer or copies it to a destination. The machine does nothing
//! by itself: [`Job::step`] takes what the last action came to and says what
//! to do next. Whoever drives it starts the browser, runs the commands and
//! touches the files, and reports back.
//!
//! Nothing is tried twice. A rendering that fails ends the job before
//! anything is printed. Once the file has been handed to the print command or
//! to the copy, it is removed afterwards whatever came of that, and a failure
//! to remove it changes nothing.

use vstd::prelude::*;
use vstd::utf8::encode_utf8;
use crate::dispatch::{
    list_command, list_command_for, list_failed, list_failed_text, list_not_started,
    list_not_started_text, parse_printers, print_command, print_command_for, print_not_started,
    print_not_started_text, print_outcome, print_result_for, printers_from_output, Command,
    CommandView, Exit, ExitView, Platform, NO_DEFAULT_PRINTER,
};
use crate::html::{multi_page_document, prepare_full_html, prepare_pages_html, single_page_document};
use crate::models::{
    page_thousandths, PrintConfig, PrintRequest, PrintRequestPages, PrintResult, PrintResultView,
};
use crate::printers::{default_printer, first_default};
use crate::render::{
    base64_fits, base64_standard, data_uri_text, html_data_uri, pdf_options, pdf_options_for,
    render_error, render_error_text, PdfOptions, RenderStep, SETTLE_DELAY_MS,
};

verus! {

/// What a job is to do with the PDF.
#[derive(Clone, Debug, PartialEq, Eq)]
pub enum Goal {
    /// Print it, on the printer named or, for `None`, on the default printer.
    Print { printer_id: Option<String> },
    /// Copy it to `destination`.
    Save { destination: String },
}

/// What a [`Goal`] holds, as mathematical values.
pub enum GoalView {
    Print { printer_id: Option<Seq<char>> },
    Save { destination: Seq<char> },
}

impl View for Goal {
    type V = GoalView;

    open spec fn view(&self) -> GoalView {
        match self {
            Goal::Print { printer_id } => GoalView::Print { printer_id: printer_id.deep_view() },
            Goal::Save { destination } => GoalView::Save { destination: destination@ },
        }
    }
}

/// How a job has ended.
#[derive(Clone, Debug, PartialEq, Eq)]
pub enum Outcome {
    /// The print command ran; the result says whether it succeeded.
    Printed(PrintResult),
    /// The PDF lies at the path given.
    Saved(String),
    /// The job was given up, with the message given.
    Failed(String),
}

/// What an [`Outcome`] holds, as mathematical values.
pub enum OutcomeView {
    Printed(PrintResultView),
    Saved(Seq<char>),
    Failed(Seq<char>),
}

impl View for Outcome {
    type V = OutcomeView;

    open spec fn view(&self) -> OutcomeView {
        match self {
            Outcome::Printed(result) => OutcomeView::Printed(result@),
            Outcome::Saved(path) => OutcomeView::Saved(path@),
            Outcome::Failed(message) => OutcomeView::Failed(message@),
        }
    }
}

/// Where a job stands: which report it is waiting for.
#[derive(Clone, Debug, PartialEq, Eq)]
pub enum Stage {
    StartingBrowser,
    OpeningTab,
    Navigating,
    AwaitingNavigation,
    Settling,
    Capturing,
    Writing,
    /// The printers are being listed, to find the default one.
    FindingDefault,
    /// The print command for `printer` is running.
    Sending { printer: String },
    /// The PDF is being copied to `destination`.
    Copying { destination: String },
    /// The temporary file is being removed; the job then ends with `outcome`.
    Cleaning { outcome: Outcome },
    Finished,
}

/// What a [`Stage`] holds, as mathematical values.
pub enum StageView {
    StartingBrowser,
    OpeningTab,
    Navigating,
    AwaitingNavigation,
    Settling,
    Capturing,
    Writing,
    FindingDefault,
    Sending { printer: Seq<char> },
    Copying { destination: Seq<char> },
    Cleaning { outcome: OutcomeView },
    Finished,
}

impl View for Stage {
    type V = StageView;

    open spec fn view(&self) -> StageView {
        match self {
            Stage::StartingBrowser => StageView::StartingBrowser,
            Stage::OpeningTab => StageView::OpeningTab,
            Stage::Navigating => StageView::Navigating,
            Stage::AwaitingNavigation => StageView::AwaitingNavigation,
            Stage::Settling => StageView::Settling,
            Stage::Capturing => StageView::Capturing,
            Stage::Writing => StageView::Writing,
            Stage::FindingDefault => StageView::FindingDefault,
            Stage::Sending { printer } => StageView::Sending { printer: printer@ },
            Stage::Copying { destination } => StageView::Copying { destination: destination@ },
            Stage::Cleaning { outcome } => StageView::Cleaning { outcome: outcome@ },
            Stage::Finished => StageView::Finished,
        }
    }
}

/// What the last action came to.
#[derive(Clone, Debug, PartialEq, Eq)]
pub enum Event {
    /// It was done.
    Done,
    /// It could not be done, for the cause given. For a command: it could not
    /// be started.
    Failed { detail: String },
    /// The command ran to its end.
    Exited(Exit),
}

/// What an [`Event`] holds, as mathematical values.
pub enum EventView {
    Done,
    Failed { detail: Seq<char> },
    Exited(ExitView),
}

impl View for Event {
    type V = EventView;

    open spec fn view(&self) -> EventView {
        match self {
            Event::Done => EventView::Done,
            Event::Failed { detail } => EventView::Failed { detail: detail@ },
            Event::Exited(exit) => EventView::Exited(exit@),
        }
    }
}

/// What is to be done next.
#[derive(Clone, Debug, PartialEq, Eq)]
pub enum Action {
    /// Start a browser without a window.
    StartBrowser,
    /// Open a new tab in it.
    OpenTab,
    /// Load `uri` in the tab.
    Navigate { uri: String },
    /// Wait until the tab has finished loading.
    AwaitNavigation,
    /// Wait `millis` milliseconds.
    Sleep { millis: u64 },
    /// Print the tab to a PDF with `options`.
    Capture { options: PdfOptions },
    /// Write the PDF to the file at `path`.
    WriteFile { path: String },
    /// Run `command` to its end.
    Run { command: Command },
    /// Copy the file at `from` to `to`.
    CopyFile { from: String, to: String },
    /// Remove the file at `path`.
    RemoveFile { path: String },
    /// Nothing more: the job has ended with `outcome`.
    Finish { outcome: Outcome },
}

/// What an [`Action`] holds, as mathematical values.
pub enum ActionView {
    StartBrowser,
    OpenTab,
    Navigate { uri: Seq<char> },
    AwaitNavigation,
    Sleep { millis: u64 },
    Capture { options: PdfOptions },
    WriteFile { path: Seq<char> },
    Run { command: CommandView },
    CopyFile { from: Seq<char>, to: Seq<char> },
    RemoveFile { path: Seq<char> },
    Finish { outcome: OutcomeView },
}

impl View for Action {
    type V = ActionView;

    open spec fn view(&self) -> ActionView {
        match self {
            Action::StartBrowser => ActionView::StartBrowser,
            Action::OpenTab => ActionView::OpenTab,
            Action::Navigate { uri } => ActionView::Navigate { uri: uri@ },
            Action::AwaitNavigation => ActionView::AwaitNavigation,
            Action::Sleep { millis } => ActionView::Sleep { millis: *millis },
            Action::Capture { options } => ActionView::Capture { options: *options },
            Action::WriteFile { path } => ActionView::WriteFile { path: path@ },
            Action::Run { command } => ActionView::Run { command: command@ },
            Action::CopyFile { from, to } => ActionView::CopyFile { from: from@, to: to@ },
            Action::RemoveFile { path } => ActionView::RemoveFile { path: path@ },
            Action::Finish { outcome } => ActionView::Finish { outcome: outcome@ },
        }
    }
}

/// A print or save job under way.
#[derive(Clone, Debug, PartialEq, Eq)]
pub struct Job {
    pub platform: Platform,
    pub goal: Goal,
    /// The address that carries the document to the renderer.
    pub data_uri: String,
    /// The options of the PDF capture.
    pub options: PdfOptions,
    /// Where the temporary PDF is written.
    pub pdf_path: String,
    pub stage: Stage,
}

/// What a [`Job`] holds, as mathematical values.
pub struct JobView {
    pub platform: Platform,
    pub goal: GoalView,
    pub data_uri: Seq<char>,
    pub options: PdfOptions,
    pub pdf_path: Seq<char>,
    pub stage: StageView,
}

impl View for Job {
    type V = JobView;

    open spec fn view(&self) -> JobView {
        JobView {
            platform: self.platform,
            goal: self.goal@,
            data_uri: self.data_uri@,
            options: self.options,
            pdf_path: self.pdf_path@,
            stage: self.stage@,
        }
    }
}

impl JobView {
    /// The job at another stage.
    pub open spec fn at(self, stage: StageView) -> JobView {
        JobView { stage, ..self }
    }

    /// The job ends with `outcome`, with nothing left to do.
    pub open spec fn finish(self, outcome: OutcomeView) -> (JobView, ActionView) {
        (self.at(StageView::Finished), ActionView::Finish { outcome })
    }

    /// The temporary file is removed, and the job then ends with `outcome`.
    pub open spec fn clean_up(self, outcome: OutcomeView) -> (JobView, ActionView) {
        (self.at(StageView::Cleaning { outcome }), ActionView::RemoveFile { path: self.pdf_path })
    }

    /// The temporary file is sent to `printer`.
    pub open spec fn send_to(self, printer: Seq<char>) -> (JobView, ActionView) {
        (
            self.at(StageView::Sending { printer }),
            ActionView::Run { command: print_command_for(self.platform, printer, self.pdf_path) },
        )
    }

    /// What follows a step of the rendering: after success the next stage and
    /// its action, after a failure the end of the job with the error of `step`.
    pub open spec fn after_render_step(
        self,
        event: EventView,
        step: RenderStep,
        stage: StageView,
        action: ActionView,
    ) -> Option<(JobView, ActionView)> {
        match event {
            EventView::Done => Some((self.at(stage), action)),
            EventView::Failed { detail } => Some(
                self.finish(OutcomeView::Failed(render_error_text(step, detail))),
            ),
            EventView::Exited(_) => None,
        }
    }

    /// What follows the writing of the temporary file: with a printer named,
    /// the print command for it; with none named, the listing of the printers;
    /// for a save, the copy to the destination.
    pub open spec fn after_rendering(self) -> (JobView, ActionView) {
        match self.goal {
            GoalView::Print { printer_id: Some(printer) } => self.send_to(printer),
            GoalView::Print { printer_id: None } => (
                self.at(StageView::FindingDefault),
                ActionView::Run { command: list_command_for(self.platform) },
            ),
            GoalView::Save { destination } => (
                self.at(StageView::Copying { destination }),
                ActionView::CopyFile { from: self.pdf_path, to: destination },
            ),
        }
    }

    /// What follows the listing of the printers: the print command for the
    /// default printer, or the end of the job with an error where the listing
    /// failed or the list has no default.
    pub open spec fn after_listing(self, run: Result<ExitView, Seq<char>>) -> (JobView, ActionView) {
        match run {
            Err(detail) => self.finish(
                OutcomeView::Failed(list_not_started_text(self.platform, detail)),
            ),
            Ok(exit) => if !exit.success {
                self.finish(OutcomeView::Failed(list_failed_text(self.platform, exit.stderr)))
            } else {
                match first_default(printers_from_output(self.platform, exit.stdout)) {
                    Some(printer) => self.send_to(printer),
                    None => self.finish(OutcomeView::Failed(NO_DEFAULT_PRINTER@)),
                }
            },
        }
    }

    /// The job after `event`, and what to do next; `None` where the stage the
    /// job is at does not wait for such an event.
    pub open spec fn next(self, event: EventView) -> Option<(JobView, ActionView)> {
        match self.stage {
            StageView::StartingBrowser => self.after_render_step(
                event,
                RenderStep::StartBrowser,
                StageView::OpeningTab,
                ActionView::OpenTab,
            ),
            StageView::OpeningTab => self.after_render_step(
                event,
                RenderStep::OpenTab,
                StageView::Navigating,
                ActionView::Navigate { uri: self.data_uri },
            ),
            StageView::Navigating => self.after_render_step(
                event,
                RenderStep::LoadHtml,
                StageView::AwaitingNavigation,
                ActionView::AwaitNavigation,
            ),
            StageView::AwaitingNavigation => self.after_render_step(
                event,
                RenderStep::AwaitNavigation,
                StageView::Settling,
                ActionView::Sleep { millis: SETTLE_DELAY_MS },
            ),
            StageView::Settling => match event {
                EventView::Done => Some(
                    (self.at(StageView::Capturing), ActionView::Capture { options: self.options }),
                ),
                _ => None,
            },
            StageView::Capturing => self.after_render_step(
                event,
                RenderStep::GeneratePdf,
                StageView::Writing,
                ActionView::WriteFile { path: self.pdf_path },
            ),
            StageView::Writing => match event {
                EventView::Done => Some(self.after_rendering()),
                EventView::Failed { detail } => Some(
                    self.finish(OutcomeView::Failed(render_error_text(RenderStep::SavePdf, detail))),
                ),
                EventView::Exited(_) => None,
            },
            StageView::FindingDefault => match event {
                EventView::Done => None,
                EventView::Failed { detail } => Some(self.after_listing(Err(detail))),
                EventView::Exited(exit) => Some(self.after_listing(Ok(exit))),
            },
            StageView::Sending { printer } => match event {
                EventView::Done => None,
                EventView::Failed { detail } => Some(
                    self.clean_up(OutcomeView::Failed(print_not_started_text(self.platform, detail))),
                ),
                EventView::Exited(exit) => Some(
                    self.clean_up(
                        OutcomeView::Printed(
                            print_result_for(
                                self.platform,
                                printer,
                                exit.success,
                                exit.stdout,
                                exit.stderr,
                            ),
                        ),
                    ),
                ),
            },
            StageView::Copying { destination } => match event {
                EventView::Done => Some(self.clean_up(OutcomeView::Saved(destination))),
                EventView::Failed { detail } => Some(
                    self.clean_up(OutcomeView::Failed(render_error_text(RenderStep::SavePdf, detail))),
                ),
                EventView::Exited(_) => None,
            },
            StageView::Cleaning { outcome } => match event {
                EventView::Done | EventView::Failed { .. } => Some(self.finish(outcome)),
                EventView::Exited(_) => None,
            },
            StageView::Finished => None,
        }
    }
}

/// The job that renders the document `html` for `config` and then pursues
/// `goal`, before its first step.
pub open spec fn new_job(
    platform: Platform,
    goal: GoalView,
    html: Seq<char>,
    config: PrintConfig,
    pdf_path: Seq<char>,
) -> JobView {
    JobView {
        platform,
        goal,
        data_uri: data_uri_text(base64_standard(encode_utf8(html))),
        options: pdf_options_for(config),
        pdf_path,
        stage: StageView::StartingBrowser,
    }
}

/// The document of a request for one block of HTML.
pub open spec fn request_document(request: PrintRequest) -> Seq<char> {
    single_page_document(
        page_thousandths(request.config.format, request.config.orientation).0,
        page_thousandths(request.config.format, request.config.orientation).1,
        request.config.margins_mm.thousandths as nat,
        request.html_content@,
    )
}

/// The document of a request for several pages.
pub open spec fn pages_document(request: PrintRequestPages) -> Seq<char> {
    multi_page_document(
        page_thousandths(request.config.format, request.config.orientation).0,
        page_thousandths(request.config.format, request.config.orientation).1,
        request.config.margins_mm.thousandths as nat,
        request.pages.deep_view(),
    )
}

impl Job {
    /// The job at another stage.
    fn at(self, stage: Stage) -> (job: Job)
        ensures
            job@ == self@.at(stage@),
    {
        Job {
            platform: self.platform,
            goal: self.goal,
            data_uri: self.data_uri,
            options: self.options,
            pdf_path: self.pdf_path,
            stage,
        }
    }

    /// Ends the job with `outcome`.
    fn finish(self, outcome: Outcome) -> (next: (Job, Action))
        ensures
            (next.0@, next.1@) == self@.finish(outcome@),
    {
        (self.at(Stage::Finished), Action::Finish { outcome })
    }

    /// Has the temporary file removed before the job ends with `outcome`.
    fn clean_up(self, outcome: Outcome) -> (next: (Job, Action))
        ensures
            (next.0@, next.1@) == self@.clean_up(outcome@),
    {
        let path = self.pdf_path.clone();
        (self.at(Stage::Cleaning { outcome }), Action::RemoveFile { path })
    }

    /// Has the temporary file sent to `printer`.
    fn send_to(self, printer: String) -> (next: (Job, Action))
        ensures
            (next.0@, next.1@) == self@.send_to(printer@),
    {
        let command = print_command(self.platform, printer.as_str(), self.pdf_path.as_str());
        (self.at(Stage::Sending { printer }), Action::Run { command })
    }

    /// Goes on to `stage` with `action` after a step of the rendering that
    /// was done, and ends the job after one that failed.
    fn after_render_step(self, event: Event, step: RenderStep, stage: Stage, action: Action) -> (next:
        Option<(Job, Action)>)
        ensures
            match next {
                Some((job, then)) => self@.after_render_step(event@, step, stage@, action@) == Some(
                    (job@, then@),
                ),
                None => self@.after_render_step(event@, step, stage@, action@) is None,
            },
    {
        match event {
            Event::Done => Some((self.at(stage), action)),
            Event::Failed { detail } => {
                let message = render_error(step, detail.as_str());
                Some(self.finish(Outcome::Failed(message)))
            },
            Event::Exited(_) => None,
        }
    }

    /// Goes on after the temporary file has been written.
    fn after_rendering(self) -> (next: (Job, Action))
        ensures
            (next.0@, next.1@) == self@.after_rendering(),
    {
        match &self.goal {
            Goal::Print { printer_id: Some(printer) } => {
                let printer = printer.clone();
                self.send_to(printer)
            },
            Goal::Print { printer_id: None } => {
                let command = list_command(self.platform);
                (self.at(Stage::FindingDefault), Action::Run { command })
            },
            Goal::Save { destination } => {
                let to = destination.clone();
                let destination = destination.clone();
                let from = self.pdf_path.clone();
                (self.at(Stage::Copying { destination }), Action::CopyFile { from, to })
            },
        }
    }

    /// Goes on after the listing command has exited.
    fn after_listing_exit(self, exit: Exit) -> (next: (Job, Action))
        ensures
            (next.0@, next.1@) == self@.after_listing(Ok(exit@)),
    {
        if !exit.success {
            let message = list_failed(self.platform, exit.stderr.as_str());
            self.finish(Outcome::Failed(message))
        } else {
            let printers = parse_printers(self.platform, exit.stdout.as_str());
            match default_printer(&printers) {
                Some(printer) => self.send_to(printer),
                None => self.finish(Outcome::Failed(String::from_str(NO_DEFAULT_PRINTER))),
            }
        }
    }

    /// Starts the job that renders the document `html` for `config` to the
    /// file at `pdf_path` and then pursues `goal`. The first action is to start
    /// the browser. `None` only for a document so long that its base64 text has
    /// no length in `usize`.
    pub fn start(
        platform: Platform,
        goal: Goal,
        html: &str,
        config: &PrintConfig,
        pdf_path: &str,
    ) -> (started: Option<(Job, Action)>)
        ensures
            started is Some <==> base64_fits(encode_utf8(html@).len()),
            started matches Some((job, action)) ==> job@ == new_job(
                platform,
                goal@,
                html@,
                *config,
                pdf_path@,
            ) && action@ == ActionView::StartBrowser,
    {
        match html_data_uri(html) {
            Some(data_uri) => {
                let job = Job {
                    platform,
                    goal,
                    data_uri,
                    options: pdf_options(config),
                    pdf_path: String::from_str(pdf_path),
                    stage: Stage::StartingBrowser,
                };
                Some((job, Action::StartBrowser))
            },
            None => None,
        }
    }

    /// True once the job has ended.
    pub fn is_finished(&self) -> (finished: bool)
        ensures
            finished == (self@.stage == StageView::Finished),
    {
        match &self.stage {
            Stage::Finished => true,
            _ => false,
        }
    }

    /// Takes what the last action came to and gives the job as it then stands
    /// together with the next action, as [`JobView::next`] defines them.
    /// `None` where the job does not wait for such an event.
    pub fn step(self, event: Event) -> (next: Option<(Job, Action)>)
        ensures
            match next {
                Some((job, action)) => self@.next(event@) == Some((job@, action@)),
                None => self@.next(event@) is None,
            },
    {
        match &self.stage {
            Stage::StartingBrowser => self.after_render_step(
                event,
                RenderStep::StartBrowser,
                Stage::OpeningTab,
                Action::OpenTab,
            ),
            Stage::OpeningTab => {
                let uri = self.data_uri.clone();
                self.after_render_step(
                    event,
                    RenderStep::OpenTab,
                    Stage::Navigating,
                    Action::Navigate { uri },
                )
            },
            Stage::Navigating => self.after_render_step(
                event,
                RenderStep::LoadHtml,
                Stage::AwaitingNavigation,
                Action::AwaitNavigation,
            ),
            Stage::AwaitingNavigation => self.after_render_step(
                event,
                RenderStep::AwaitNavigation,
                Stage::Settling,
                Action::Sleep { millis: SETTLE_DELAY_MS },
            ),
            Stage::Settling => match event {
                Event::Done => {
                    let options = self.options;
                    Some((self.at(Stage::Capturing), Action::Capture { options }))
                },
                _ => None,
            },
            Stage::Capturing => {
                let path = self.pdf_path.clone();
                self.after_render_step(
                    event,
                    RenderStep::GeneratePdf,
                    Stage::Writing,
                    Action::WriteFile { path },
                )
            },
            Stage::Writing => match event {
                Event::Done => Some(self.after_rendering()),
                Event::Failed { detail } => {
                    let message = render_error(RenderStep::SavePdf, detail.as_str());
                    Some(self.finish(Outcome::Failed(message)))
                },
                Event::Exited(_) => None,
            },
            Stage::FindingDefault => match event {
                Event::Done => None,
                Event::Failed { detail } => {
                    let message = list_not_started(self.platform, detail.as_str());
                    Some(self.finish(Outcome::Failed(message)))
                },
                Event::Exited(exit) => Some(self.after_listing_exit(exit)),
            },
            Stage::Sending { printer } => match event {
                Event::Done => None,
                Event::Failed { detail } => {
                    let message = print_not_started(self.platform, detail.as_str());
                    Some(self.clean_up(Outcome::Failed(message)))
                },
                Event::Exited(exit) => {
                    let result = print_outcome(
                        self.platform,
                        printer.as_str(),
                        exit.success,
                        exit.stdout.as_str(),
                        exit.stderr.as_str(),
                    );
                    Some(self.clean_up(Outcome::Printed(result)))
                },
            },
            Stage::Copying { destination } => match event {
                Event::Done => {
                    let saved = destination.clone();
                    Some(self.clean_up(Outcome::Saved(saved)))
                },
                Event::Failed { detail } => {
                    let message = render_error(RenderStep::SavePdf, detail.as_str());
                    Some(self.clean_up(Outcome::Failed(message)))
                },
                Event::Exited(_) => None,
            },
            Stage::Cleaning { .. } => match event {
                Event::Done | Event::Failed { .. } => {
                    let Job { platform, goal, data_uri, options, pdf_path, stage } = self;
                    match stage {
                        Stage::Cleaning { outcome } => {
                            let job = Job {
                                platform,
                                goal,
                                data_uri,
                                options,
                                pdf_path,
                                stage: Stage::Finished,
                            };
                            Some((job, Action::Finish { outcome }))
                        },
                        _ => None,
                    }
                },
                Event::Exited(_) => None,
            },
            Stage::Finished => None,
        }
    }
}

/// The printer of a request: a copy of the name it gives, if it gives one.
fn requested_printer(printer_id: &Option<String>) -> (copy: Option<String>)
    ensures
        copy.deep_view() == printer_id.deep_view(),
{
    match printer_id {
        Some(id) => Some(id.clone()),
        None => None,
    }
}

/// Starts the job that prints the HTML of `request`: its content is wrapped
/// in a document of the configured page size, rendered to the file at
/// `pdf_path` and sent to the printer that the request names or, where it
/// names none, to the default printer. `None` only for a document too long
/// to be encoded.
pub fn print_document(platform: Platform, request: &PrintRequest, pdf_path: &str) -> (started:
    Option<(Job, Action)>)
    ensures
        started is Some <==> base64_fits(encode_utf8(request_document(*request)).len()),
        started matches Some((job, action)) ==> job@ == new_job(
            platform,
            GoalView::Print { printer_id: request.printer_id.deep_view() },
            request_document(*request),
            request.config,
            pdf_path@,
        ) && action@ == ActionView::StartBrowser,
{
    let html = prepare_full_html(request.html_content.as_str(), request);
    let goal = Goal::Print { printer_id: requested_printer(&request.printer_id) };
    Job::start(platform, goal, html.as_str(), &request.config, pdf_path)
}

/// Starts the job that prints the pages of `request`, one per sheet, as
/// [`print_document`] prints a single block.
pub fn print_document_pages(
    platform: Platform,
    request: &PrintRequestPages,
    pdf_path: &str,
) -> (started: Option<(Job, Action)>)
    ensures
        started is Some <==> base64_fits(encode_utf8(pages_document(*request)).len()),
        started matches Some((job, action)) ==> job@ == new_job(
            platform,
            GoalView::Print { printer_id: request.printer_id.deep_view() },
            pages_document(*request),
            request.config,
            pdf_path@,
        ) && action@ == ActionView::StartBrowser,
{
    let html = prepare_pages_html(&request.pages, &request.config);
    let goal = Goal::Print { printer_id: requested_printer(&request.printer_id) };
    Job::start(platform, goal, html.as_str(), &request.config, pdf_path)
}

/// Starts the job that saves the HTML of `request` as a PDF at
/// `destination_path`: the document is rendered to the file at `pdf_path`,
/// which is then copied to the destination and removed. `None` only for a
/// document too long to be encoded.
pub fn save_pdf_to_path(
    platform: Platform,
    request: &PrintRequest,
    destination_path: String,
    pdf_path: &str,
) -> (started: Option<(Job, Action)>)
    ensures
        started is Some <==> base64_fits(encode_utf8(request_document(*request)).len()),
        started matches Some((job, action)) ==> job@ == new_job(
            platform,
            GoalView::Save { destination: destination_path@ },
            request_document(*request),
            request.config,
            pdf_path@,
        ) && action@ == ActionView::StartBrowser,
{
    let html = prepare_full_html(request.html_content.as_str(), request);
    let goal = Goal::Save { destination: destination_path };
    Job::start(platform, goal, html.as_str(), &request.config, pdf_path)
}

/// Starts the job that saves the pages of `request`, one per sheet, as
/// [`save_pdf_to_path`] saves a single block.
pub fn save_pdf_pages_to_path(
    platform: Platform,
    request: &PrintRequestPages,
    destination_path: String,
    pdf_path: &str,
) -> (started: Option<(Job, Action)>)
    ensures
        started is Some <==> base64_fits(encode_utf8(pages_document(*request)).len()),
        started matches Some((job, action)) ==> job@ == new_job(
            platform,
            GoalView::Save { destination: destination_path@ },
            pages_document(*request),
            request.config,
            pdf_path@,
        ) && action@ == ActionView::StartBrowser,
{
    let html = prepare_pages_html(&request.pages, &request.config);
    let goal = Goal::Save { destination: destination_path };
    Job::start(platform, goal, html.as_str(), &request.config, pdf_path)
}

/// The job after a sequence of events, with the actions handed out on the way,
/// one for each event; `None` where one of the events was not waited for.
pub open spec fn course(job: JobView, events: Seq<EventView>) -> Option<(JobView, Seq<ActionView>)>
    decreases events.len(),
{
    if events.len() == 0 {
        Some((job, Seq::<ActionView>::empty()))
    } else {
        match course(job, events.drop_last()) {
            Some((before, actions)) => match before.next(events.last()) {
                Some((after, action)) => Some((after, actions.push(action))),
                None => None,
            },
            None => None,
        }
    }
}

/// True at the stages of the rendering, up to the writing of the temporary
/// file.
pub open spec fn is_rendering(stage: StageView) -> bool {
    ||| stage is StartingBrowser
    ||| stage is OpeningTab
    ||| stage is Navigating
    ||| stage is AwaitingNavigation
    ||| stage is Settling
    ||| stage is Capturing
    ||| stage is Writing
}

/// A job whose request names a printer never lists the printers: whatever
/// the events, it never waits for the listing, and every command that it has
/// run is the print command for the printer named.
pub proof fn lemma_named_printer_is_used(job: JobView, printer: Seq<char>, events: Seq<EventView>)
    requires
        job.goal == (GoalView::Print { printer_id: Some(printer) }),
        is_rendering(job.stage),
    ensures
        course(job, events) matches Some((after, actions)) ==> {
            &&& !(after.stage is FindingDefault)
            &&& actions.len() == events.len()
            &&& forall|k: int|
                0 <= k < actions.len() && (#[trigger] actions[k]) is Run ==> actions[k]
                    == (ActionView::Run {
                    command: print_command_for(job.platform, printer, job.pdf_path),
                })
        },
{
    lemma_named_printer_course(job, printer, events);
}

/// The invariant behind [`lemma_named_printer_is_used`]: the job keeps its
/// goal and is at a stage of the rendering, sends to the printer named, or is
/// past the sending.
proof fn lemma_named_printer_course(job: JobView, printer: Seq<char>, events: Seq<EventView>)
    requires
        job.goal == (GoalView::Print { printer_id: Some(printer) }),
        is_rendering(job.stage),
    ensures
        course(job, events) matches Some((after, actions)) ==> {
            &&& after == job.at(after.stage)
            &&& is_rendering(after.stage) || after.stage == (StageView::Sending { printer })
                || after.stage is Cleaning || after.stage is Finished
            &&& actions.len() == events.len()
            &&& forall|k: int|
                0 <= k < actions.len() && (#[trigger] actions[k]) is Run ==> actions[k]
                    == (ActionView::Run {
                    command: print_command_for(job.platform, printer, job.pdf_path),
                })
        },
    decreases events.len(),
{
    if events.len() > 0 {
        lemma_named_printer_course(job, printer, events.drop_last());
    }
}

/// Where the request names no printer and the list of the system has no
/// default, above all where it is empty, the job ends with the error
/// `No default printer found`, and nothing is printed or removed.
pub proof fn lemma_no_default_is_an_error(job: JobView, exit: ExitView)
    requires
        job.stage is FindingDefault,
        exit.success,
        first_default(printers_from_output(job.platform, exit.stdout)) is None,
    ensures
        job.next(EventView::Exited(exit)) == Some(
            job.finish(OutcomeView::Failed(NO_DEFAULT_PRINTER@)),
        ),
        printers_from_output(job.platform, exit.stdout).len() == 0 ==> first_default(
            printers_from_output(job.platform, exit.stdout),
        ) is None,
        NO_DEFAULT_PRINTER@.len() > 0,
{
    reveal_strlit("No default printer found");
}

/// A print command that exits with a failure does not fail the job: after the
/// temporary file has been removed the job ends with a result, which reports
/// no success and carries a message that is not empty.
pub proof fn lemma_failed_print_is_an_outcome(
    job: JobView,
    printer: Seq<char>,
    exit: ExitView,
    removal: EventView,
)
    requires
        job.stage == (StageView::Sending { printer }),
        !exit.success,
        !(removal is Exited),
    ensures
        course(job, seq![EventView::Exited(exit), removal]) matches Some((after, actions)) && {
            &&& after.stage is Finished
            &&& actions.len() == 2
            &&& actions[0] == (ActionView::RemoveFile { path: job.pdf_path })
            &&& actions[1] matches ActionView::Finish { outcome: OutcomeView::Printed(result) }
            &&& result == print_result_for(
                job.platform,
                printer,
                false,
                exit.stdout,
                exit.stderr,
            )
            &&& !result.success
            &&& result.message.len() > 0
            &&& result.job_id is None
        },
{
    let events = seq![EventView::Exited(exit), removal];
    let first = events.drop_last();
    assert(course(job, first.drop_last()) == Some((job, Seq::<ActionView>::empty())));
    let result = print_result_for(job.platform, printer, false, exit.stdout, exit.stderr);
    let cleaning = job.clean_up(OutcomeView::Printed(result));
    assert(course(job, first) == Some(
        (cleaning.0, Seq::<ActionView>::empty().push(cleaning.1)),
    ));
    crate::dispatch::lemma_failed_print_is_reported(job.platform, printer, exit.stdout, exit.stderr);
}

/// Once the temporary file has been handed to the print command or to the
/// copy, the next action is to remove it, whatever came of the command or the
/// copy, and the job ends right after the removal, whether that succeeded or
/// not: after a copy that was done, with the destination path.
pub proof fn lemma_file_is_removed_after_use(job: JobView, event: EventView, removal: EventView)
    requires
        job.stage is Sending || job.stage is Copying,
        job.next(event) is Some,
        !(removal is Exited),
    ensures
        job.next(event) matches Some((cleaning, action)) && {
            &&& action == (ActionView::RemoveFile { path: job.pdf_path })
            &&& cleaning.stage matches StageView::Cleaning { outcome }
            &&& cleaning.next(removal) == Some(cleaning.finish(outcome))
            &&& job.stage matches StageView::Copying { destination } ==> (event is Done ==> outcome
                == OutcomeView::Saved(destination)) && (event matches EventView::Failed {
                detail,
            } ==> outcome == OutcomeView::Failed(
                render_error_text(RenderStep::SavePdf, detail),
            ))
        },
{
}

/// A rendering that fails ends the job at once with the error of the step
/// that failed: no command is run and no file is copied or removed, and a job
/// that has ended takes no further event.
pub proof fn lemma_failed_rendering_ends_the_job(job: JobView, detail: Seq<char>, later: EventView)
    requires
        is_rendering(job.stage),
        !(job.stage is Settling),
    ensures
        job.next(EventView::Failed { detail }) matches Some((after, action)) && {
            &&& after.stage is Finished
            &&& action matches ActionView::Finish { outcome: OutcomeView::Failed(message) }
            &&& exists|step: RenderStep| message == render_error_text(step, detail)
            &&& after.next(later) is None
        },
{
}

/// The PDF is captured only after the pause: a capture is handed out only by
/// a job that was waiting for the end of the pause, and a job comes to wait
/// for that only by handing out a pause of [`SETTLE_DELAY_MS`] milliseconds.
pub proof fn lemma_capture_follows_the_pause(job: JobView, event: EventView)
    ensures
        job.next(event) matches Some((after, action)) ==> {
            &&& action is Capture ==> job.stage is Settling && action == (ActionView::Capture {
                options: job.options,
            })
            &&& after.stage is Settling ==> action == (ActionView::Sleep { millis: 500 })
            &&& action is Sleep ==> after.stage is Settling
        },
{
}

/// The number of steps of the rendering that lie before `stage`.
pub open spec fn render_progress(stage: StageView) -> int {
    match stage {
        StageView::StartingBrowser => 0,
        StageView::OpeningTab => 1,
        StageView::Navigating => 2,
        StageView::AwaitingNavigation => 3,
        StageView::Settling => 4,
        StageView::Capturing => 5,
        StageView::Writing => 6,
        _ => 7,
    }
}

/// True for the actions that reach beyond the renderer: running a command,
/// copying the PDF and removing it.
pub open spec fn touches_the_system(action: ActionView) -> bool {
    action is Run || action is CopyFile || action is RemoveFile
}

/// Nothing is printed, copied or removed before the rendering is through: a
/// job that starts with the browser hands out such an action only after all
/// seven steps of the rendering were done, and if one of them fails, never.
pub proof fn lemma_rendering_comes_first(job: JobView, events: Seq<EventView>)
    requires
        job.stage is StartingBrowser,
    ensures
        course(job, events) matches Some((after, actions)) ==> {
            &&& actions.len() == events.len()
            &&& forall|k: int|
                0 <= k < actions.len() && touches_the_system(#[trigger] actions[k]) ==> k >= 6
                    && forall|i: int| 0 <= i <= 6 ==> (#[trigger] events[i]) is Done
        },
{
    lemma_rendering_course(job, events);
}

/// The invariant behind [`lemma_rendering_comes_first`]: while the job is
/// rendering, as many events have come as steps are done, all of them `Done`,
/// and nothing has reached beyond the renderer; afterwards the first seven
/// events were `Done`, unless the job ended before its rendering was through.
proof fn lemma_rendering_course(job: JobView, events: Seq<EventView>)
    requires
        job.stage is StartingBrowser,
    ensures
        course(job, events) matches Some((after, actions)) ==> {
            &&& actions.len() == events.len()
            &&& is_rendering(after.stage) ==> events.len() == render_progress(after.stage)
                && forall|i: int| 0 <= i < events.len() ==> (#[trigger] events[i]) is Done
            &&& !is_rendering(after.stage) && !(after.stage is Finished) ==> events.len() >= 7
                && forall|i: int| 0 <= i <= 6 ==> (#[trigger] events[i]) is Done
            &&& (exists|k: int| 0 <= k < actions.len() && touches_the_system(#[trigger] actions[k]))
                ==> events.len() >= 7 && forall|i: int|
                0 <= i <= 6 ==> (#[trigger] events[i]) is Done
            &&& forall|k: int|
                0 <= k < actions.len() && touches_the_system(#[trigger] actions[k]) ==> k >= 6
        },
    decreases events.len(),
{
    if events.len() > 0 {
        let earlier = events.drop_last();
        lemma_rendering_course(job, earlier);
        assert forall|i: int| 0 <= i < earlier.len() implies earlier[i] == events[i] by {}
    }
}

/// A job that ends with a saved PDF or with a print result has removed its
/// temporary file just before: its last three actions were the copy to the
/// destination, or the print command, then the removal of the temporary file,
/// then the end. The copy was reported as done, and the print result is what
/// the exit of the print command comes to.
pub proof fn lemma_file_is_removed_before_the_end(job: JobView, events: Seq<EventView>)
    requires
        is_rendering(job.stage),
    ensures
        course(job, events) matches Some((after, actions)) ==> {
            let n = actions.len() as int;
            &&& n == events.len()
            &&& n > 0 ==> (actions[n - 1] matches ActionView::Finish {
                outcome: OutcomeView::Saved(destination),
            } ==> {
                &&& n >= 3
                &&& job.goal == GoalView::Save { destination }
                &&& actions[n - 3] == (ActionView::CopyFile { from: job.pdf_path, to: destination })
                &&& events[n - 2] is Done
                &&& actions[n - 2] == (ActionView::RemoveFile { path: job.pdf_path })
            })
            &&& n > 0 ==> (actions[n - 1] matches ActionView::Finish {
                outcome: OutcomeView::Printed(result),
            } ==> {
                &&& n >= 3
                &&& job.goal is Print
                &&& actions[n - 3] matches ActionView::Run { command }
                &&& events[n - 2] matches EventView::Exited(exit)
                &&& exists|printer: Seq<char>|
                    command == print_command_for(job.platform, printer, job.pdf_path) && result
                        == #[trigger] print_result_for(
                        job.platform,
                        printer,
                        exit.success,
                        exit.stdout,
                        exit.stderr,
                    )
                &&& actions[n - 2] == (ActionView::RemoveFile { path: job.pdf_path })
            })
        },
{
    lemma_use_and_removal_course(job, events);
}

/// The invariant behind [`lemma_file_is_removed_before_the_end`].
proof fn lemma_use_and_removal_course(job: JobView, events: Seq<EventView>)
    requires
        is_rendering(job.stage),
    ensures
        course(job, events) matches Some((after, actions)) ==> {
            let n = actions.len() as int;
            &&& n == events.len()
            &&& after == job.at(after.stage)
            &&& after.stage matches StageView::Copying { destination } ==> {
                &&& n >= 1
                &&& job.goal == GoalView::Save { destination }
                &&& actions[n - 1] == (ActionView::CopyFile { from: job.pdf_path, to: destination })
            }
            &&& after.stage matches StageView::Sending { printer } ==> {
                &&& n >= 1
                &&& job.goal is Print
                &&& actions[n - 1] == (ActionView::Run {
                    command: print_command_for(job.platform, printer, job.pdf_path),
                })
            }
            &&& after.stage matches StageView::Cleaning { outcome } ==> {
                &&& n >= 2
                &&& actions[n - 1] == (ActionView::RemoveFile { path: job.pdf_path })
                &&& outcome matches OutcomeView::Saved(destination) ==> {
                    &&& job.goal == GoalView::Save { destination }
                    &&& actions[n - 2] == (ActionView::CopyFile {
                        from: job.pdf_path,
                        to: destination,
                    })
                    &&& events[n - 1] is Done
                }
                &&& outcome matches OutcomeView::Printed(result) ==> {
                    &&& job.goal is Print
                    &&& actions[n - 2] matches ActionView::Run { command }
                    &&& events[n - 1] matches EventView::Exited(exit)
                    &&& exists|printer: Seq<char>|
                        command == print_command_for(job.platform, printer, job.pdf_path) && result
                            == #[trigger] print_result_for(
                            job.platform,
                            printer,
                            exit.success,
                            exit.stdout,
                            exit.stderr,
                        )
                }
            }
            &&& after.stage is Finished && n > 0 ==> {
                &&& actions[n - 1] matches ActionView::Finish { outcome: OutcomeView::Saved(destination) }
                    ==> {
                    &&& n >= 3
                    &&& job.goal == GoalView::Save { destination }
                    &&& actions[n - 3] == (ActionView::CopyFile {
                        from: job.pdf_path,
                        to: destination,
                    })
                    &&& events[n - 2] is Done
                    &&& actions[n - 2] == (ActionView::RemoveFile { path: job.pdf_path })
                }
                &&& actions[n - 1] matches ActionView::Finish { outcome: OutcomeView::Printed(result) }
                    ==> {
                    &&& n >= 3
                    &&& job.goal is Print
                    &&& actions[n - 3] matches ActionView::Run { command }
                    &&& events[n - 2] matches EventView::Exited(exit)
                    &&& exists|printer: Seq<char>|
                        command == print_command_for(job.platform, printer, job.pdf_path) && result
                            == #[trigger] print_result_for(
                            job.platform,
                            printer,
                            exit.success,
                            exit.stdout,
                            exit.stderr,
                        )
                    &&& actions[n - 2] == (ActionView::RemoveFile { path: job.pdf_path })
                }
            }
            &&& !(after.stage is Finished) && n > 0 ==> !(actions[n - 1] is Finish)
        },
    decreases events.len(),
{
    if events.len() > 0 {
        let earlier = events.drop_last();
        lemma_use_and_removal_course(job, earlier);
    }
}

} // verus!
