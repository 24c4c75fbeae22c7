//! What a run comes to, said in one piece, and the proof that the driver of
//! [`crate::driver`] brings it about.
//!
//! All that lies outside the library is taken as a [`World`]: how loading the
//! front end goes, what reading each file gives, how the generator fares with
//! given calls, and how writing to a given file goes.

use vstd::prelude::*;
use std::path::PathBuf;
use crate::driver::{
    after_expansion, after_file, after_generation, after_load, after_write, begun, ActionView,
};
use crate::error::ErrorView;
use crate::expansion::{
    expansion, lemma_machine_computes_expansion, lemma_walk_goes_forward, outcome, steps_left,
};
use crate::request::{calls_for, requested, Args, BuilderCallView, RequestView};
use crate::response::{advanced, started, tokenized, ExpansionView};

verus! {

/// Everything that a run meets outside the library.
pub struct World {
    /// How loading the compiler front end goes.
    pub front_end: Result<(), Seq<char>>,
    /// What reading the file at a path gives.
    pub files: spec_fn(Seq<char>) -> Result<Seq<char>, Seq<char>>,
    /// How the generator fares when it is configured by the given calls.
    pub generator: spec_fn(Seq<BuilderCallView>) -> Result<(), Seq<char>>,
    /// How writing the output to a file goes.
    pub disk: spec_fn(PathBuf) -> Result<(), Seq<char>>,
}

/// The generator run and the writing of its output, for arguments that are
/// expanded already.
pub open spec fn generate_and_write(
    request: RequestView,
    clang_args: Seq<Seq<char>>,
    world: World,
) -> Result<(), ErrorView> {
    match (world.generator)(calls_for(request, clang_args)) {
        Err(cause) => Err(ErrorView::Generation { cause }),
        Ok(()) => match (world.disk)(request.out) {
            Err(cause) => Err(ErrorView::Io { cause }),
            Ok(()) => Ok(()),
        },
    }
}

/// The rest of a run once the expansion of the response files is known.
pub open spec fn continued(
    request: RequestView,
    expanded: Result<Seq<Seq<char>>, ErrorView>,
    world: World,
) -> Result<(), ErrorView> {
    match expanded {
        Err(error) => Err(error),
        Ok(clang_args) => generate_and_write(request, clang_args, world),
    }
}

/// How a run for the command line `args` ends in `world`: the stages come
/// in their order, and the first that fails gives the error.
pub open spec fn run(args: Args, world: World) -> Result<(), ErrorView> {
    match world.front_end {
        Err(cause) => Err(ErrorView::Load { cause }),
        Ok(()) => continued(
            requested(args),
            expansion(args.clang_args.deep_view(), world.files),
            world,
        ),
    }
}

/// Whether a run for `args` in `world` gets as far as writing its output:
/// it does when the front end loads, the response files expand and the
/// generator succeeds.
pub open spec fn run_writes(args: Args, world: World) -> bool {
    &&& world.front_end is Ok
    &&& expansion(args.clang_args.deep_view(), world.files) matches Ok(clang_args)
    &&& (world.generator)(calls_for(requested(args), clang_args)) is Ok
}

/// A bound on the actions that a run may still ask for.
pub open spec fn actions_left(action: ActionView) -> nat {
    match action {
        ActionView::Exit(_) => 0,
        ActionView::WriteOutput { out } => 1,
        ActionView::Generate { calls, generating } => 2,
        ActionView::ReadResponseFile { path, expanding } => 2 + steps_left(
            ExpansionView::Read { path, pending: expanding.pending },
        ),
        ActionView::LoadFrontEnd { loading } => 4 + loading.clang_args.len(),
    }
}

/// The action that the driver asks for after `action` was done in `world`.
pub open spec fn followed(action: ActionView, world: World) -> ActionView {
    match action {
        ActionView::LoadFrontEnd { loading } => after_load(loading, world.front_end),
        ActionView::ReadResponseFile { path, expanding } => after_file(
            expanding,
            tokenized((world.files)(path)),
        ),
        ActionView::Generate { calls, generating } => after_generation(
            generating,
            (world.generator)(calls),
        ),
        ActionView::WriteOutput { out } => after_write((world.disk)(out)),
        ActionView::Exit(exit) => action,
    }
}

/// Where the driver ends when each action it asks for is done in `world`.
pub open spec fn finished(action: ActionView, world: World) -> Result<(), ErrorView>
    decreases actions_left(action),
    via finished_terminates
{
    match action {
        ActionView::Exit(exit) => exit,
        _ => finished(followed(action, world), world),
    }
}

/// Whether the driver, from `action` on, ever asks for the output to be
/// written.
pub open spec fn writes(action: ActionView, world: World) -> bool
    decreases actions_left(action),
    via writes_terminates
{
    match action {
        ActionView::Exit(exit) => false,
        ActionView::WriteOutput { out } => true,
        _ => writes(followed(action, world), world),
    }
}

/// Each action leaves fewer to come.
pub proof fn lemma_actions_run_out(action: ActionView, world: World)
    requires
        !(action is Exit),
    ensures
        actions_left(followed(action, world)) < actions_left(action),
{
    match action {
        ActionView::LoadFrontEnd { loading } => {
            lemma_walk_goes_forward(loading.clang_args, 0);
        },
        ActionView::ReadResponseFile { path, expanding } => {
            lemma_walk_goes_forward(expanding.pending.args, expanding.pending.next + 1);
        },
        _ => {},
    }
}

#[via_fn]
proof fn finished_terminates(action: ActionView, world: World) {
    if !(action is Exit) {
        lemma_actions_run_out(action, world);
    }
}

#[via_fn]
proof fn writes_terminates(action: ActionView, world: World) {
    if !(action is Exit) {
        lemma_actions_run_out(action, world);
    }
}

/// From a step of the expansion on, the driver ends as the rest of the run
/// does, and writes just when the expansion and the generator succeed.
proof fn lemma_driver_continues(request: RequestView, step: ExpansionView, world: World)
    ensures
        finished(after_expansion(request, step), world) == continued(
            request,
            outcome(step, world.files),
            world,
        ),
        writes(after_expansion(request, step), world) <==> (outcome(step, world.files) matches Ok(
            clang_args,
        ) && (world.generator)(calls_for(request, clang_args)) is Ok),
    decreases steps_left(step),
{
    let action = after_expansion(request, step);
    match step {
        ExpansionView::Read { path, pending } => {
            let next = advanced(pending, tokenized((world.files)(path)));
            lemma_walk_goes_forward(pending.args, pending.next + 1);
            assert(followed(action, world) == after_expansion(request, next));
            lemma_driver_continues(request, next, world);
        },
        ExpansionView::Done(Err(error)) => {},
        ExpansionView::Done(Ok(clang_args)) => {
            let generated = followed(action, world);
            assert(finished(action, world) == finished(generated, world));
            assert(writes(action, world) == writes(generated, world));
            if generated is WriteOutput {
                let written = followed(generated, world);
                assert(finished(generated, world) == finished(written, world));
            }
        },
    }
}

/// The driver brings the run about: started on `args`, with each action it
/// asks for done in `world`, it ends as `run(args, world)` says.
pub proof fn lemma_driver_runs(args: Args, world: World)
    ensures
        finished(begun(args), world) == run(args, world),
{
    let action = begun(args);
    let loaded = followed(action, world);
    assert(finished(action, world) == finished(loaded, world));
    if world.front_end is Ok {
        let clang_args = args.clang_args.deep_view();
        lemma_machine_computes_expansion(clang_args, world.files);
        lemma_driver_continues(requested(args), started(clang_args), world);
    }
}

/// The driver asks for the output to be written just when the front end
/// loads, the response files expand and the generator succeeds: a run that
/// fails before that leaves the output file alone.
pub proof fn lemma_driver_writes_after_success(args: Args, world: World)
    ensures
        writes(begun(args), world) == run_writes(args, world),
{
    let action = begun(args);
    let loaded = followed(action, world);
    assert(writes(action, world) == writes(loaded, world));
    if world.front_end is Ok {
        let clang_args = args.clang_args.deep_view();
        lemma_machine_computes_expansion(clang_args, world.files);
        lemma_driver_continues(requested(args), started(clang_args), world);
    }
}

} // verus!
