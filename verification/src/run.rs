//! A run of the generator, as a machine that is driven from outside.
//!
//! A run never touches the disk or the engine itself. It says what is to be
//! done next (an `Action`), the caller does it and reports what came of it
//! (an `Event`), and the run decides how to go on. Requests are carried out
//! one after another, in order; the first thing that goes wrong ends the run.

use vstd::prelude::*;
use vstd::string::*;
use bindgen::Builder;
use crate::configure::{bindgen_global_options, configure, global_settings, with_request};
use crate::engine::{settings, with_header, Settings};
use crate::layout::{
    header_location, header_path, in_project_directory, joined, output_path, BINDING_DIR,
    C_LIBRARIES_DIR, PROJECT_DIRECTORY_NAME,
};
use crate::request::{request_views, GenerationRequest, RequestView};
use crate::search_path::{
    entry_views, search_path_arguments, LibraryEntry, LibraryEntryView, ScanError, ScanErrorView,
};

verus! {

/// How the writing of one generated file ended.
#[derive(Clone, Copy, Debug)]
pub enum Outcome {
    /// The file holds the prefix and the generated declarations.
    Written,
    /// The file could not be created or written.
    OutputFailed,
    /// The engine could not generate the declarations.
    EngineFailed,
}

/// What the caller reports back.
#[derive(Debug)]
pub enum Event {
    /// The name of the working directory, if it has one.
    WorkingDirectory(Option<String>),
    /// What was found below the libraries root, if it could be read.
    Libraries(Option<Vec<LibraryEntry>>),
    /// The absolute form of a header's path, if the header exists.
    Header(Option<String>),
    /// How the writing of a generated file ended.
    Output(Outcome),
}

/// An `Event` as a mathematical value.
pub enum EventView {
    WorkingDirectory(Option<Seq<char>>),
    Libraries(Option<Seq<LibraryEntryView>>),
    Header(Option<Seq<char>>),
    Output(Outcome),
}

impl View for Event {
    type V = EventView;

    open spec fn view(&self) -> EventView {
        match self {
            Event::WorkingDirectory(Some(name)) => EventView::WorkingDirectory(Some(name@)),
            Event::WorkingDirectory(None) => EventView::WorkingDirectory(None),
            Event::Libraries(Some(entries)) => EventView::Libraries(Some(entry_views(entries@))),
            Event::Libraries(None) => EventView::Libraries(None),
            Event::Header(Some(path)) => EventView::Header(Some(path@)),
            Event::Header(None) => EventView::Header(None),
            Event::Output(outcome) => EventView::Output(*outcome),
        }
    }
}

/// Why a run ended early.
#[derive(Debug)]
pub enum RunError {
    /// The generator was not started from the project directory.
    WrongDirectory,
    /// The libraries root could not be read.
    UnreadableLibraries,
    /// The scan of the libraries root met a fault.
    Scan(ScanError),
    /// A header could not be resolved.
    MissingHeader { path: String },
    /// A generated file could not be created or written.
    OutputFailed { path: String },
    /// The engine failed on the request for this file.
    EngineFailed { path: String },
    /// An event arrived that answers no pending action.
    OutOfTurn,
}

/// A `RunError` as a mathematical value.
pub enum RunErrorView {
    WrongDirectory,
    UnreadableLibraries,
    Scan(ScanErrorView),
    MissingHeader { path: Seq<char> },
    OutputFailed { path: Seq<char> },
    EngineFailed { path: Seq<char> },
    OutOfTurn,
}

impl View for RunError {
    type V = RunErrorView;

    open spec fn view(&self) -> RunErrorView {
        match self {
            RunError::WrongDirectory => RunErrorView::WrongDirectory,
            RunError::UnreadableLibraries => RunErrorView::UnreadableLibraries,
            RunError::Scan(fault) => RunErrorView::Scan(fault@),
            RunError::MissingHeader { path } => RunErrorView::MissingHeader { path: path@ },
            RunError::OutputFailed { path } => RunErrorView::OutputFailed { path: path@ },
            RunError::EngineFailed { path } => RunErrorView::EngineFailed { path: path@ },
            RunError::OutOfTurn => RunErrorView::OutOfTurn,
        }
    }
}

/// What the caller is to do next.
#[derive(Debug)]
pub enum Action {
    /// Report the name of the working directory.
    QueryWorkingDirectory,
    /// Report what lies below the libraries root.
    ScanLibraries { root: String },
    /// Resolve the path of a header to its absolute form.
    ResolveHeader { path: String },
    /// Create the file `output` afresh, write `prefix` to it, then let the
    /// engine generate from `builder` and write what it generated after the
    /// prefix.
    Emit { output: String, prefix: String, builder: Builder },
    /// Nothing is left to do.
    Finish,
    /// End the run with this error.
    Abort(RunError),
}

/// An `Action` as a mathematical value; a builder counts by its settings.
pub enum ActionView {
    QueryWorkingDirectory,
    ScanLibraries { root: Seq<char> },
    ResolveHeader { path: Seq<char> },
    Emit { output: Seq<char>, prefix: Seq<char>, settings: Settings },
    Finish,
    Abort(RunErrorView),
}

impl View for Action {
    type V = ActionView;

    open spec fn view(&self) -> ActionView {
        match self {
            Action::QueryWorkingDirectory => ActionView::QueryWorkingDirectory,
            Action::ScanLibraries { root } => ActionView::ScanLibraries { root: root@ },
            Action::ResolveHeader { path } => ActionView::ResolveHeader { path: path@ },
            Action::Emit { output, prefix, builder } => ActionView::Emit {
                output: output@,
                prefix: prefix@,
                settings: settings(*builder),
            },
            Action::Finish => ActionView::Finish,
            Action::Abort(error) => ActionView::Abort(error@),
        }
    }
}

/// What a run is waiting for.
pub enum PhaseView {
    /// The name of the working directory.
    AwaitDirectory,
    /// The contents of the libraries root, for the current request.
    AwaitLibraries,
    /// The absolute path of the header at index `resolved` of the current
    /// request; `settings` is what has been configured for it so far.
    AwaitHeader { settings: Settings, resolved: nat },
    /// The outcome of writing the file of the current request.
    AwaitOutput,
    /// Nothing: every request has been carried out.
    Done,
    /// Nothing: the run has ended early.
    Failed,
}

/// A run as a mathematical value.
pub struct RunView {
    /// The requests of the run.
    pub requests: Seq<RequestView>,
    /// Index of the request in progress; as many files have been written.
    pub current: nat,
    /// What the run is waiting for.
    pub phase: PhaseView,
}

/// The settings of a request before its pass is applied: the global
/// settings with the given search path and headers.
pub open spec fn prepared_settings(search_arguments: Seq<Seq<char>>, headers: Seq<Seq<char>>)
    -> Settings {
    Settings { headers, ..global_settings(search_arguments) }
}

/// The settings with which the engine is run for `request`, given the
/// arguments for the header search path and the headers in absolute form.
pub open spec fn request_settings(
    request: RequestView,
    search_arguments: Seq<Seq<char>>,
    headers: Seq<Seq<char>>,
) -> Settings {
    with_request(prepared_settings(search_arguments, headers), request)
}

impl RunView {
    /// What holds of every run that was started with `Run::new` and moved on
    /// with `Run::step`.
    pub open spec fn consistent(self) -> bool {
        match self.phase {
            PhaseView::AwaitDirectory => self.current == 0,
            PhaseView::AwaitLibraries => self.current < self.requests.len(),
            PhaseView::AwaitHeader { settings, resolved } => {
                &&& self.current < self.requests.len()
                &&& resolved < self.requests[self.current as int].headers.len()
                &&& settings.headers.len() == resolved
                &&& settings == prepared_settings(settings.clang_args, settings.headers)
            },
            PhaseView::AwaitOutput => self.current < self.requests.len(),
            PhaseView::Done => self.current == self.requests.len(),
            PhaseView::Failed => true,
        }
    }

    /// The request in progress.
    pub open spec fn request(self) -> RequestView {
        self.requests[self.current as int]
    }

    /// Path of the header at index `index` of the request in progress.
    pub open spec fn header_at(self, index: nat) -> Seq<char> {
        header_location(
            self.request().headers[index as int].library,
            self.request().headers[index as int].fragment,
        )
    }

    /// Path of the file that the request in progress writes.
    pub open spec fn output(self) -> Seq<char> {
        joined(BINDING_DIR@, self.request().output_file)
    }

    /// The run ends early.
    pub open spec fn fail(self, error: RunErrorView) -> (RunView, ActionView) {
        (RunView { phase: PhaseView::Failed, ..self }, ActionView::Abort(error))
    }

    /// The run takes up the request at `index`, or ends if there is none.
    pub open spec fn begin(self, index: nat) -> (RunView, ActionView) {
        if index < self.requests.len() {
            (
                RunView { current: index, phase: PhaseView::AwaitLibraries, ..self },
                ActionView::ScanLibraries { root: C_LIBRARIES_DIR@ },
            )
        } else {
            (RunView { current: index, phase: PhaseView::Done, ..self }, ActionView::Finish)
        }
    }

    /// The run goes on with the request in progress, of which `resolved`
    /// headers are configured in `prepared`: it asks for the next header, or
    /// applies the pass and has the file written when no header is left.
    pub open spec fn proceed(self, prepared: Settings, resolved: nat) -> (RunView, ActionView) {
        if resolved < self.request().headers.len() {
            (
                RunView { phase: PhaseView::AwaitHeader { settings: prepared, resolved }, ..self },
                ActionView::ResolveHeader { path: self.header_at(resolved) },
            )
        } else {
            (
                RunView { phase: PhaseView::AwaitOutput, ..self },
                ActionView::Emit {
                    output: self.output(),
                    prefix: self.request().prefix,
                    settings: with_request(prepared, self.request()),
                },
            )
        }
    }

    /// The run after `event`, and what is to be done next.
    ///
    /// An event that does not answer the pending action ends the run, and so
    /// does every answer that reports a failure. A run that has ended stays
    /// as it is.
    pub open spec fn step(self, event: EventView) -> (RunView, ActionView) {
        match self.phase {
            PhaseView::AwaitDirectory => match event {
                EventView::WorkingDirectory(Some(name)) => if name == PROJECT_DIRECTORY_NAME@ {
                    self.begin(0)
                } else {
                    self.fail(RunErrorView::WrongDirectory)
                },
                EventView::WorkingDirectory(None) => self.fail(RunErrorView::WrongDirectory),
                _ => self.fail(RunErrorView::OutOfTurn),
            },
            PhaseView::AwaitLibraries => match event {
                EventView::Libraries(Some(entries)) => match search_path_arguments(entries) {
                    Ok(arguments) => self.proceed(prepared_settings(arguments, Seq::empty()), 0),
                    Err(fault) => self.fail(RunErrorView::Scan(fault)),
                },
                EventView::Libraries(None) => self.fail(RunErrorView::UnreadableLibraries),
                _ => self.fail(RunErrorView::OutOfTurn),
            },
            PhaseView::AwaitHeader { settings, resolved } => match event {
                EventView::Header(Some(absolute)) => self.proceed(
                    Settings { headers: settings.headers.push(absolute), ..settings },
                    resolved + 1,
                ),
                EventView::Header(None) => self.fail(
                    RunErrorView::MissingHeader { path: self.header_at(resolved) },
                ),
                _ => self.fail(RunErrorView::OutOfTurn),
            },
            PhaseView::AwaitOutput => match event {
                EventView::Output(Outcome::Written) => self.begin(self.current + 1),
                EventView::Output(Outcome::OutputFailed) => self.fail(
                    RunErrorView::OutputFailed { path: self.output() },
                ),
                EventView::Output(Outcome::EngineFailed) => self.fail(
                    RunErrorView::EngineFailed { path: self.output() },
                ),
                _ => self.fail(RunErrorView::OutOfTurn),
            },
            PhaseView::Done => (self, ActionView::Finish),
            PhaseView::Failed => (self, ActionView::Abort(RunErrorView::OutOfTurn)),
        }
    }
}

/// A run of these requests before anything has happened.
pub open spec fn initial(requests: Seq<RequestView>) -> RunView {
    RunView { requests, current: 0, phase: PhaseView::AwaitDirectory }
}

/// A step leads from a consistent run to a consistent run.
pub proof fn lemma_step_keeps_consistency(run: RunView, event: EventView)
    requires
        run.consistent(),
    ensures
        run.step(event).0.consistent(),
        run.step(event).0.requests == run.requests,
{
}

/// A scan that meets a fault ends the run, with that fault as the error.
pub proof fn lemma_scan_fault_ends_run(run: RunView, entries: Seq<LibraryEntryView>)
    requires
        run.phase is AwaitLibraries,
        search_path_arguments(entries) is Err,
    ensures
        run.step(EventView::Libraries(Some(entries))).0.phase is Failed,
        run.step(EventView::Libraries(Some(entries))).1 == ActionView::Abort(
            RunErrorView::Scan(search_path_arguments(entries)->Err_0),
        ),
{
}

/// A file is written for the request in progress and for no other: under
/// the request's file name in the output directory, with the request's
/// prefix unchanged, and from settings that hold the request's pass on top
/// of the global settings, with one header for each header of the request.
pub proof fn lemma_emit_is_for_request_in_progress(run: RunView, event: EventView)
    requires
        run.consistent(),
        run.step(event).1 is Emit,
    ensures
        run.step(event).0.phase is AwaitOutput,
        run.step(event).0.current == run.current,
        run.step(event).1->output == joined(BINDING_DIR@, run.request().output_file),
        run.step(event).1->prefix == run.request().prefix,
        run.step(event).1->settings == request_settings(
            run.request(),
            run.step(event).1->settings.clang_args,
            run.step(event).1->settings.headers,
        ),
        run.step(event).1->settings.headers.len() == run.request().headers.len(),
{
}

/// The index of the request in progress moves on by one when a file has
/// been written, and at no other time.
pub proof fn lemma_one_file_per_request(run: RunView, event: EventView)
    requires
        run.consistent(),
    ensures
        run.step(event).0.current == if run.phase is AwaitOutput && event == EventView::Output(
            Outcome::Written,
        ) {
            run.current + 1
        } else {
            run.current
        },
{
}

enum Phase {
    AwaitDirectory,
    AwaitLibraries,
    AwaitHeader { builder: Builder, resolved: usize },
    AwaitOutput,
    Done,
    Failed,
}

impl View for Phase {
    type V = PhaseView;

    closed spec fn view(&self) -> PhaseView {
        match self {
            Phase::AwaitDirectory => PhaseView::AwaitDirectory,
            Phase::AwaitLibraries => PhaseView::AwaitLibraries,
            Phase::AwaitHeader { builder, resolved } => PhaseView::AwaitHeader {
                settings: settings(*builder),
                resolved: *resolved as nat,
            },
            Phase::AwaitOutput => PhaseView::AwaitOutput,
            Phase::Done => PhaseView::Done,
            Phase::Failed => PhaseView::Failed,
        }
    }
}

/// A run of the generator.
pub struct Run {
    requests: Vec<GenerationRequest>,
    current: usize,
    phase: Phase,
}

impl View for Run {
    type V = RunView;

    closed spec fn view(&self) -> RunView {
        RunView {
            requests: request_views(self.requests@),
            current: self.current as nat,
            phase: self.phase@,
        }
    }
}

impl Run {
    #[verifier::type_invariant]
    spec fn well_formed(&self) -> bool {
        self@.consistent()
    }

    /// Starts a run of `requests`. The first thing to do is to report the
    /// name of the working directory.
    pub fn new(requests: Vec<GenerationRequest>) -> (start: (Run, Action))
        ensures
            start.0@ == initial(request_views(requests@)),
            start.1@ == ActionView::QueryWorkingDirectory,
    {
        (Run { requests, current: 0, phase: Phase::AwaitDirectory }, Action::QueryWorkingDirectory)
    }

    /// Takes in what came of the pending action and says what to do next.
    pub fn step(self, event: Event) -> (next: (Run, Action))
        ensures
            (next.0@, next.1@) == self@.step(event@),
    {
        proof {
            use_type_invariant(&self);
        }
        let ghost before = self@;
        let Run { requests, current, phase } = self;
        match phase {
            Phase::AwaitDirectory => match event {
                Event::WorkingDirectory(Some(name)) => {
                    if in_project_directory(name.as_str()) {
                        Run::begin(Ghost(before), requests, 0)
                    } else {
                        Run::fail(Ghost(before), requests, current, RunError::WrongDirectory)
                    }
                },
                Event::WorkingDirectory(None) => Run::fail(
                    Ghost(before),
                    requests,
                    current,
                    RunError::WrongDirectory,
                ),
                _ => Run::fail(Ghost(before), requests, current, RunError::OutOfTurn),
            },
            Phase::AwaitLibraries => match event {
                Event::Libraries(Some(entries)) => match bindgen_global_options(&entries) {
                    Ok(builder) => Run::proceed(Ghost(before), requests, current, builder, 0),
                    Err(fault) => Run::fail(
                        Ghost(before),
                        requests,
                        current,
                        RunError::Scan(fault),
                    ),
                },
                Event::Libraries(None) => Run::fail(
                    Ghost(before),
                    requests,
                    current,
                    RunError::UnreadableLibraries,
                ),
                _ => Run::fail(Ghost(before), requests, current, RunError::OutOfTurn),
            },
            Phase::AwaitHeader { builder, resolved } => match event {
                Event::Header(Some(absolute)) => {
                    assert(before.request() == requests[current as int]@);
                    assert(resolved < requests[current as int].headers.len());
                    let builder = with_header(builder, absolute);
                    Run::proceed(Ghost(before), requests, current, builder, resolved + 1)
                },
                Event::Header(None) => {
                    assert(before.request() == requests[current as int]@);
                    let header = &requests[current].headers[resolved];
                    assert(before.request().headers[resolved as int] == header@);
                    let path = header_path(header.library.as_str(), header.fragment.as_str());
                    Run::fail(Ghost(before), requests, current, RunError::MissingHeader { path })
                },
                _ => Run::fail(Ghost(before), requests, current, RunError::OutOfTurn),
            },
            Phase::AwaitOutput => match event {
                Event::Output(Outcome::Written) => {
                    assert(current < requests.len());
                    Run::begin(Ghost(before), requests, current + 1)
                },
                Event::Output(Outcome::OutputFailed) => {
                    assert(before.request() == requests[current as int]@);
                    let path = output_path(requests[current].output_file.as_str());
                    Run::fail(Ghost(before), requests, current, RunError::OutputFailed { path })
                },
                Event::Output(Outcome::EngineFailed) => {
                    assert(before.request() == requests[current as int]@);
                    let path = output_path(requests[current].output_file.as_str());
                    Run::fail(Ghost(before), requests, current, RunError::EngineFailed { path })
                },
                _ => Run::fail(Ghost(before), requests, current, RunError::OutOfTurn),
            },
            Phase::Done => (Run { requests, current, phase: Phase::Done }, Action::Finish),
            Phase::Failed => (
                Run { requests, current, phase: Phase::Failed },
                Action::Abort(RunError::OutOfTurn),
            ),
        }
    }

    fn fail(
        Ghost(before): Ghost<RunView>,
        requests: Vec<GenerationRequest>,
        current: usize,
        error: RunError,
    ) -> (next: (Run, Action))
        requires
            before.requests == request_views(requests@),
            before.current == current,
        ensures
            (next.0@, next.1@) == before.fail(error@),
    {
        (Run { requests, current, phase: Phase::Failed }, Action::Abort(error))
    }

    fn begin(Ghost(before): Ghost<RunView>, requests: Vec<GenerationRequest>, index: usize) -> (next:
        (Run, Action))
        requires
            before.requests == request_views(requests@),
            index <= requests.len(),
        ensures
            (next.0@, next.1@) == before.begin(index as nat),
    {
        if index < requests.len() {
            (
                Run { requests, current: index, phase: Phase::AwaitLibraries },
                Action::ScanLibraries { root: String::from_str(C_LIBRARIES_DIR) },
            )
        } else {
            (Run { requests, current: index, phase: Phase::Done }, Action::Finish)
        }
    }

    fn proceed(
        Ghost(before): Ghost<RunView>,
        requests: Vec<GenerationRequest>,
        current: usize,
        builder: Builder,
        resolved: usize,
    ) -> (next: (Run, Action))
        requires
            before.requests == request_views(requests@),
            before.current == current,
            current < requests.len(),
            resolved <= requests[current as int].headers.len(),
            settings(builder).headers.len() == resolved,
            settings(builder) == prepared_settings(
                settings(builder).clang_args,
                settings(builder).headers,
            ),
        ensures
            (next.0@, next.1@) == before.proceed(settings(builder), resolved as nat),
    {
        let request = &requests[current];
        assert(before.request() == request@);
        if resolved < request.headers.len() {
            let header = &request.headers[resolved];
            assert(request@.headers[resolved as int] == header@);
            let path = header_path(header.library.as_str(), header.fragment.as_str());
            (
                Run { requests, current, phase: Phase::AwaitHeader { builder, resolved } },
                Action::ResolveHeader { path },
            )
        } else {
            let output = output_path(request.output_file.as_str());
            let prefix = request.prefix.clone();
            let builder = configure(builder, request);
            (
                Run { requests, current, phase: Phase::AwaitOutput },
                Action::Emit { output, prefix, builder },
            )
        }
    }
}

} // verus!
