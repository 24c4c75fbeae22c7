//! What expanding an argument list comes to, said in one piece, and the proof
//! that the step-by-step machine of [`crate::response`] computes just that.
//!
//! The file system is taken as a function from a path to what reading it
//! gives: the contents, or else the reason for the failure.

use vstd::prelude::*;
use crate::error::ErrorView;
use crate::response::{
    advanced, is_response_ref, next_response_ref, referenced_path, scanned, shell_words, started,
    tokenized, ExpansionView, FileOutcomeView, PendingView,
};

verus! {

/// The words that stand for one argument: the argument itself, or the words
/// of the file that it names.
pub open spec fn expand_argument(
    arg: Seq<char>,
    files: spec_fn(Seq<char>) -> Result<Seq<char>, Seq<char>>,
) -> Result<Seq<Seq<char>>, ErrorView> {
    if is_response_ref(arg) {
        let path = referenced_path(arg);
        match tokenized(files(path)) {
            FileOutcomeView::Unreadable(cause) => Err(ErrorView::Read { path, cause }),
            FileOutcomeView::Malformed => Err(ErrorView::Syntax { path }),
            FileOutcomeView::Words(words) => Ok(words),
        }
    } else {
        Ok(seq![arg])
    }
}

/// Two expansions one after the other: the first error stands, and without
/// one the words of both, in order.
pub open spec fn followed_by(
    first: Result<Seq<Seq<char>>, ErrorView>,
    second: Result<Seq<Seq<char>>, ErrorView>,
) -> Result<Seq<Seq<char>>, ErrorView> {
    match first {
        Err(error) => Err(error),
        Ok(before) => match second {
            Err(error) => Err(error),
            Ok(after) => Ok(before + after),
        },
    }
}

/// The expansion of a whole argument list: each argument gives its words at
/// its own place, and the first argument that fails, from the left, gives
/// the error.
pub open spec fn expansion(
    args: Seq<Seq<char>>,
    files: spec_fn(Seq<char>) -> Result<Seq<char>, Seq<char>>,
) -> Result<Seq<Seq<char>>, ErrorView>
    decreases args.len(),
{
    if args.len() == 0 {
        Ok(Seq::empty())
    } else {
        followed_by(expansion(args.drop_last(), files), expand_argument(args.last(), files))
    }
}

/// A bound on the files that an expansion may still ask for, plus one while
/// it is not over.
pub open spec fn steps_left(step: ExpansionView) -> nat {
    match step {
        ExpansionView::Done(_) => 0,
        ExpansionView::Read { path, pending } => if pending.next < pending.args.len() {
            (pending.args.len() - pending.next + 1) as nat
        } else {
            1
        },
    }
}

/// Where the machine ends when every file it asks for is read from `files`.
pub open spec fn outcome(
    step: ExpansionView,
    files: spec_fn(Seq<char>) -> Result<Seq<char>, Seq<char>>,
) -> Result<Seq<Seq<char>>, ErrorView>
    decreases steps_left(step),
    via outcome_terminates
{
    match step {
        ExpansionView::Done(result) => result,
        ExpansionView::Read { path, pending } => outcome(
            advanced(pending, tokenized(files(path))),
            files,
        ),
    }
}

#[via_fn]
proof fn outcome_terminates(
    step: ExpansionView,
    files: spec_fn(Seq<char>) -> Result<Seq<char>, Seq<char>>,
) {
    if let ExpansionView::Read { path, pending } = step {
        lemma_walk_goes_forward(pending.args, pending.next + 1);
    }
}

/// A walk stops at or behind the place where it starts, unless it starts
/// behind the end; up to where it stops there is no response file, and it
/// stops at one or at the end.
pub proof fn lemma_walk_goes_forward(args: Seq<Seq<char>>, from: int)
    ensures
        next_response_ref(args, from) <= args.len(),
        from <= args.len() ==> from <= next_response_ref(args, from),
        forall|j: int|
            from <= j < next_response_ref(args, from) ==> !is_response_ref(#[trigger] args[j]),
        next_response_ref(args, from) < args.len() ==> is_response_ref(
            args[next_response_ref(args, from)],
        ),
    decreases args.len() - from,
{
    if from < args.len() && !is_response_ref(args[from]) {
        lemma_walk_goes_forward(args, from + 1);
    }
}

/// Expanding one argument more: the expansion up to it, followed by its own.
pub proof fn lemma_expansion_step(
    args: Seq<Seq<char>>,
    at: int,
    files: spec_fn(Seq<char>) -> Result<Seq<char>, Seq<char>>,
)
    requires
        0 <= at < args.len(),
    ensures
        expansion(args.take(at + 1), files) == followed_by(
            expansion(args.take(at), files),
            expand_argument(args[at], files),
        ),
{
    assert(args.take(at + 1).drop_last() =~= args.take(at));
}

/// Arguments that name no file are expanded to themselves.
proof fn lemma_expansion_of_plain_run(
    args: Seq<Seq<char>>,
    from: int,
    stop: int,
    out: Seq<Seq<char>>,
    files: spec_fn(Seq<char>) -> Result<Seq<char>, Seq<char>>,
)
    requires
        0 <= from <= stop <= args.len(),
        forall|j: int| from <= j < stop ==> !is_response_ref(#[trigger] args[j]),
        expansion(args.take(from), files) == Ok::<Seq<Seq<char>>, ErrorView>(out),
    ensures
        expansion(args.take(stop), files) == Ok::<Seq<Seq<char>>, ErrorView>(
            out + args.subrange(from, stop),
        ),
    decreases stop - from,
{
    if from == stop {
        assert(out + args.subrange(from, stop) =~= out);
    } else {
        lemma_expansion_of_plain_run(args, from, stop - 1, out, files);
        lemma_expansion_step(args, stop - 1, files);
        assert(out + args.subrange(from, stop - 1) + seq![args[stop - 1]] =~= out
            + args.subrange(from, stop));
    }
}

/// An error in the expansion of a prefix is the error of the whole list.
proof fn lemma_error_stands(
    args: Seq<Seq<char>>,
    upto: int,
    files: spec_fn(Seq<char>) -> Result<Seq<char>, Seq<char>>,
)
    requires
        0 <= upto <= args.len(),
        expansion(args.take(upto), files) is Err,
    ensures
        expansion(args, files) == expansion(args.take(upto), files),
    decreases args.len() - upto,
{
    if upto == args.len() {
        assert(args.take(upto) =~= args);
    } else {
        lemma_expansion_step(args, upto, files);
        lemma_error_stands(args, upto + 1, files);
    }
}

/// From any point of the walk at which the arguments so far are expanded to
/// `out`, the machine ends in the expansion of the whole list.
proof fn lemma_walk_computes_expansion(
    args: Seq<Seq<char>>,
    from: int,
    out: Seq<Seq<char>>,
    files: spec_fn(Seq<char>) -> Result<Seq<char>, Seq<char>>,
)
    requires
        0 <= from <= args.len(),
        expansion(args.take(from), files) == Ok::<Seq<Seq<char>>, ErrorView>(out),
    ensures
        outcome(scanned(args, from, out), files) == expansion(args, files),
    decreases args.len() - from,
{
    lemma_walk_goes_forward(args, from);
    let stop = next_response_ref(args, from);
    let so_far = out + args.subrange(from, stop);
    lemma_expansion_of_plain_run(args, from, stop, out, files);
    if stop == args.len() {
        assert(args.take(stop) =~= args);
    } else {
        let path = referenced_path(args[stop]);
        let pending = PendingView { args, next: stop, out: so_far };
        let next = advanced(pending, tokenized(files(path)));
        assert(scanned(args, from, out) == (ExpansionView::Read { path, pending }));
        assert(outcome(scanned(args, from, out), files) == outcome(next, files));
        lemma_expansion_step(args, stop, files);
        match tokenized(files(path)) {
            FileOutcomeView::Words(words) => {
                lemma_walk_computes_expansion(args, stop + 1, so_far + words, files);
            },
            FileOutcomeView::Unreadable(cause) => {
                assert(next == ExpansionView::Done(Err(ErrorView::Read { path, cause })));
                lemma_error_stands(args, stop + 1, files);
            },
            FileOutcomeView::Malformed => {
                assert(next == ExpansionView::Done(Err(ErrorView::Syntax { path })));
                lemma_error_stands(args, stop + 1, files);
            },
        }
    }
}

/// The machine computes the expansion: started on `args`, and handed for
/// every file it asks for what `files` gives for that path, it ends in
/// `expansion(args, files)`, be that the expanded list or the first error.
pub proof fn lemma_machine_computes_expansion(
    args: Seq<Seq<char>>,
    files: spec_fn(Seq<char>) -> Result<Seq<char>, Seq<char>>,
)
    ensures
        outcome(started(args), files) == expansion(args, files),
{
    assert(args.take(0) =~= Seq::<Seq<char>>::empty());
    lemma_walk_computes_expansion(args, 0, Seq::empty(), files);
}

/// Expansion is the identity on a list without response files: the machine
/// is over at its first step, with the list as it was, whatever the files
/// hold.
pub proof fn lemma_plain_list_is_unchanged(
    args: Seq<Seq<char>>,
    files: spec_fn(Seq<char>) -> Result<Seq<char>, Seq<char>>,
)
    requires
        forall|i: int| 0 <= i < args.len() ==> !is_response_ref(#[trigger] args[i]),
    ensures
        started(args) == ExpansionView::Done(Ok(args)),
        expansion(args, files) == Ok::<Seq<Seq<char>>, ErrorView>(args),
{
    lemma_walk_goes_forward(args, 0);
    assert(Seq::<Seq<char>>::empty() + args.subrange(0, args.len() as int) =~= args);
    lemma_machine_computes_expansion(args, files);
}

/// A response file that cannot be read fails the expansion with the read
/// error that names it, and one whose contents are no shell words with the
/// syntax error that names it, unless an argument before it failed already.
pub proof fn lemma_failing_file_fails_expansion(
    args: Seq<Seq<char>>,
    at: int,
    files: spec_fn(Seq<char>) -> Result<Seq<char>, Seq<char>>,
)
    requires
        0 <= at < args.len(),
        is_response_ref(args[at]),
        expansion(args.take(at), files) is Ok,
    ensures
        files(referenced_path(args[at])) matches Err(cause) ==> (expansion(args, files) matches Err(
            error,
        ) && error == (ErrorView::Read { path: referenced_path(args[at]), cause })),
        (files(referenced_path(args[at])) matches Ok(contents) && shell_words(contents) is None)
            ==> (expansion(args, files) matches Err(error) && error == (ErrorView::Syntax {
            path: referenced_path(args[at]),
        })),
{
    lemma_expansion_step(args, at, files);
    if expansion(args.take(at + 1), files) is Err {
        lemma_error_stands(args, at + 1, files);
    }
}

/// Arguments expand independently of each other and keep their order: the
/// expansion of two lists joined is the expansion of the first followed by
/// that of the second.
pub proof fn lemma_expansion_of_joined_lists(
    first: Seq<Seq<char>>,
    second: Seq<Seq<char>>,
    files: spec_fn(Seq<char>) -> Result<Seq<char>, Seq<char>>,
)
    ensures
        expansion(first + second, files) == followed_by(
            expansion(first, files),
            expansion(second, files),
        ),
    decreases second.len(),
{
    if second.len() == 0 {
        assert(first + second =~= first);
        match expansion(first, files) {
            Ok(words) => {
                assert(words + Seq::<Seq<char>>::empty() =~= words);
            },
            Err(_) => {},
        }
    } else {
        lemma_expansion_of_joined_lists(first, second.drop_last(), files);
        assert((first + second).drop_last() =~= first + second.drop_last());
        assert((first + second).last() == second.last());
        match (
            expansion(first, files),
            expansion(second.drop_last(), files),
            expand_argument(second.last(), files),
        ) {
            (Ok(a), Ok(b), Ok(c)) => {
                assert((a + b) + c =~= a + (b + c));
            },
            _ => {},
        }
    }
}

/// A response file among ordinary arguments: its words take its place, and
/// the arguments before and behind it stay as they are, in their order.
pub proof fn lemma_words_take_the_place_of_the_file(
    before: Seq<Seq<char>>,
    arg: Seq<char>,
    after: Seq<Seq<char>>,
    words: Seq<Seq<char>>,
    files: spec_fn(Seq<char>) -> Result<Seq<char>, Seq<char>>,
)
    requires
        forall|i: int| 0 <= i < before.len() ==> !is_response_ref(#[trigger] before[i]),
        forall|i: int| 0 <= i < after.len() ==> !is_response_ref(#[trigger] after[i]),
        is_response_ref(arg),
        tokenized(files(referenced_path(arg))) == FileOutcomeView::Words(words),
    ensures
        expansion(before + seq![arg] + after, files) == Ok::<Seq<Seq<char>>, ErrorView>(
            before + words + after,
        ),
{
    let alone = seq![arg];
    lemma_plain_list_is_unchanged(before, files);
    lemma_plain_list_is_unchanged(after, files);
    assert(expansion(alone, files) == Ok::<Seq<Seq<char>>, ErrorView>(words)) by {
        let none = Seq::<Seq<char>>::empty();
        assert(alone.drop_last() =~= none);
        assert(expansion(none, files) == Ok::<Seq<Seq<char>>, ErrorView>(none));
        assert(none + words =~= words);
    }
    lemma_expansion_of_joined_lists(before, alone, files);
    lemma_expansion_of_joined_lists(before + alone, after, files);
}

} // verus!
