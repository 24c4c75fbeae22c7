//! The run as a whole: load the compiler front end, expand the response
//! files, run the generator, write what it emitted.
//!
//! Loading, reading, generating and writing happen outside the library. The
//! driver says which of them comes next, as an [`Action`], and is told how
//! it went; the program around the library does as it is told. The first
//! failure ends the run: nothing is tried again, and nothing is written
//! unless the generator succeeded.

use vstd::prelude::*;
use std::path::PathBuf;
use crate::error::{Error, ErrorView};
use crate::request::{
    calls_for, requested, Args, BuilderCall, BuilderCallView, Request, RequestView,
};
use crate::response::{
    advanced, expand_response_files, read_view, started, tokenize, tokenized, Expansion,
    ExpansionView, FileOutcome, FileOutcomeView, Pending, PendingView,
};

verus! {

/// A run that waits for the compiler front end to be loaded.
pub struct Loading {
    request: Request,
    clang_args: Vec<String>,
}

/// A run that waits for a response file.
pub struct Expanding {
    request: Request,
    pending: Pending,
}

/// A run that waits for the generator.
pub struct Generating {
    out: PathBuf,
}

/// A run that waits for its output to be written.
pub struct Writing {
    sealed: (),
}

/// What the program has to do next.
pub enum Action {
    /// Load the compiler front end, and report to `loading` how it went.
    LoadFrontEnd { loading: Loading },
    /// Read the file at `path`, and report to `expanding` what came of it.
    ReadResponseFile { path: String, expanding: Expanding },
    /// Make `calls` on a new builder of the generator, in order, let it
    /// generate, and report to `generating` how it went.
    Generate { calls: Vec<BuilderCall>, generating: Generating },
    /// Write what was generated to the file at `out`, and report to
    /// `writing` how it went.
    WriteOutput { out: PathBuf, writing: Writing },
    /// Stop: with success, or with the error to show.
    Exit(Result<(), Error>),
}

/// A [`Loading`] as plain values.
pub struct LoadingView {
    pub request: RequestView,
    pub clang_args: Seq<Seq<char>>,
}

/// An [`Expanding`] as plain values.
pub struct ExpandingView {
    pub request: RequestView,
    pub pending: PendingView,
}

/// A [`Generating`] as plain values.
pub struct GeneratingView {
    pub out: PathBuf,
}

/// An [`Action`] as plain values.
pub enum ActionView {
    LoadFrontEnd { loading: LoadingView },
    ReadResponseFile { path: Seq<char>, expanding: ExpandingView },
    Generate { calls: Seq<BuilderCallView>, generating: GeneratingView },
    WriteOutput { out: PathBuf },
    Exit(Result<(), ErrorView>),
}

impl View for Loading {
    type V = LoadingView;

    closed spec fn view(&self) -> LoadingView {
        LoadingView { request: self.request@, clang_args: self.clang_args.deep_view() }
    }
}

impl View for Expanding {
    type V = ExpandingView;

    closed spec fn view(&self) -> ExpandingView {
        ExpandingView { request: self.request@, pending: self.pending@ }
    }
}

impl View for Generating {
    type V = GeneratingView;

    closed spec fn view(&self) -> GeneratingView {
        GeneratingView { out: self.out }
    }
}

/// How a stage of the run went, as plain values: well, or else the reason
/// for its failure.
pub open spec fn report_view(report: Result<(), String>) -> Result<(), Seq<char>> {
    match report {
        Ok(()) => Ok(()),
        Err(cause) => Err(cause@),
    }
}

/// The end of a run, as plain values.
pub open spec fn exit_view(exit: Result<(), Error>) -> Result<(), ErrorView> {
    match exit {
        Ok(()) => Ok(()),
        Err(error) => Err(error@),
    }
}

impl View for Action {
    type V = ActionView;

    open spec fn view(&self) -> ActionView {
        match self {
            Action::LoadFrontEnd { loading } => ActionView::LoadFrontEnd { loading: loading@ },
            Action::ReadResponseFile { path, expanding } => ActionView::ReadResponseFile {
                path: path@,
                expanding: expanding@,
            },
            Action::Generate { calls, generating } => ActionView::Generate {
                calls: calls.deep_view(),
                generating: generating@,
            },
            Action::WriteOutput { out, writing } => ActionView::WriteOutput { out: *out },
            Action::Exit(exit) => ActionView::Exit(exit_view(*exit)),
        }
    }
}

/// The first action of a run: the request is made up, and the front end is
/// to be loaded before anything else.
pub open spec fn begun(args: Args) -> ActionView {
    ActionView::LoadFrontEnd {
        loading: LoadingView { request: requested(args), clang_args: args.clang_args.deep_view() },
    }
}

/// The action that follows a step of the expansion: the next file is to be
/// read; or the expansion failed, which ends the run; or the list is
/// expanded, and the generator is to run with it.
pub open spec fn after_expansion(request: RequestView, step: ExpansionView) -> ActionView {
    match step {
        ExpansionView::Read { path, pending } => ActionView::ReadResponseFile {
            path,
            expanding: ExpandingView { request, pending },
        },
        ExpansionView::Done(Err(error)) => ActionView::Exit(Err(error)),
        ExpansionView::Done(Ok(clang_args)) => ActionView::Generate {
            calls: calls_for(request, clang_args),
            generating: GeneratingView { out: request.out },
        },
    }
}

/// The action that follows the loading of the front end: without it the run
/// is over; with it the expansion of the response files starts.
pub open spec fn after_load(state: LoadingView, report: Result<(), Seq<char>>) -> ActionView {
    match report {
        Err(cause) => ActionView::Exit(Err(ErrorView::Load { cause })),
        Ok(()) => after_expansion(state.request, started(state.clang_args)),
    }
}

/// The action that follows the outcome for a response file.
pub open spec fn after_file(state: ExpandingView, outcome: FileOutcomeView) -> ActionView {
    after_expansion(state.request, advanced(state.pending, outcome))
}

/// The action that follows the generator: its failure ends the run, and
/// nothing is written; else its output is to be written.
pub open spec fn after_generation(
    state: GeneratingView,
    report: Result<(), Seq<char>>,
) -> ActionView {
    match report {
        Err(cause) => ActionView::Exit(Err(ErrorView::Generation { cause })),
        Ok(()) => ActionView::WriteOutput { out: state.out },
    }
}

/// The end of the run, once the output was written or could not be.
pub open spec fn after_write(report: Result<(), Seq<char>>) -> ActionView {
    match report {
        Err(cause) => ActionView::Exit(Err(ErrorView::Io { cause })),
        Ok(()) => ActionView::Exit(Ok(())),
    }
}

/// The action that follows a step of the expansion.
fn follow_expansion(request: Request, step: Expansion) -> (action: Action)
    ensures
        action@ == after_expansion(request@, step@),
{
    match step {
        Expansion::Read { path, pending } => Action::ReadResponseFile {
            path,
            expanding: Expanding { request, pending },
        },
        Expansion::Done(Err(error)) => Action::Exit(Err(error)),
        Expansion::Done(Ok(clang_args)) => {
            let plan = request.plan(clang_args);
            Action::Generate { calls: plan.calls, generating: Generating { out: plan.out } }
        },
    }
}

/// Starts a run for the given command line.
pub fn start(args: Args) -> (action: Action)
    ensures
        action@ == begun(args),
{
    let (request, clang_args) = Request::new(args);
    Action::LoadFrontEnd { loading: Loading { request, clang_args } }
}

impl Loading {
    /// Goes on after the attempt to load the front end.
    pub fn loaded(self, report: Result<(), String>) -> (action: Action)
        ensures
            action@ == after_load(self@, report_view(report)),
    {
        match report {
            Err(cause) => Action::Exit(Err(Error::Load { cause })),
            Ok(()) => {
                let step = expand_response_files(self.clang_args);
                follow_expansion(self.request, step)
            },
        }
    }
}

impl Expanding {
    /// Goes on with the outcome for the awaited file.
    pub fn file_outcome(self, outcome: FileOutcome) -> (action: Action)
        ensures
            action@ == after_file(self@, outcome@),
    {
        let step = self.pending.advance(outcome);
        follow_expansion(self.request, step)
    }

    /// Goes on with what reading the awaited file gave: its contents, or
    /// else the reason why it could not be read.
    pub fn file_read(self, read: Result<String, String>) -> (action: Action)
        ensures
            action@ == after_file(self@, tokenized(read_view(read))),
    {
        self.file_outcome(tokenize(read))
    }
}

impl Generating {
    /// Goes on after the generator has run.
    pub fn generated(self, report: Result<(), String>) -> (action: Action)
        ensures
            action@ == after_generation(self@, report_view(report)),
    {
        match report {
            Err(cause) => Action::Exit(Err(Error::Generation { cause })),
            Ok(()) => Action::WriteOutput { out: self.out, writing: Writing { sealed: () } },
        }
    }
}

impl Writing {
    /// Ends the run after the attempt to write the output.
    pub fn written(self, report: Result<(), String>) -> (action: Action)
        ensures
            action@ == after_write(report_view(report)),
    {
        match report {
            Err(cause) => Action::Exit(Err(Error::Io { cause })),
            Ok(()) => Action::Exit(Ok(())),
        }
    }
}

} // verus!
