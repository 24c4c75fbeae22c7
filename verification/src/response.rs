//! Response files: an argument `@path` stands for the shell words of the file
//! at `path`.
//!
//! Expanding an argument list needs the file system, which this library does
//! not touch. So expansion is a machine: it walks the list up to the next
//! `@path`, asks for that file, and goes on when it is handed what came of
//! reading it. The words of a file are taken as they are: an `@` among them
//! names no further file.

use vstd::prelude::*;
use crate::error::{Error, ErrorView};

verus! {

/// Whether `arg` names a response file: it starts with `@`.
pub open spec fn is_response_ref(arg: Seq<char>) -> bool {
    arg.len() > 0 && arg[0] == '@'
}

/// The path that a response-file argument names: all of it after the `@`.
pub open spec fn referenced_path(arg: Seq<char>) -> Seq<char> {
    arg.skip(1)
}

/// The words that `shlex::split` makes of `contents`, or `None` where it
/// rejects them.
pub uninterp spec fn shell_words(contents: Seq<char>) -> Option<Seq<Seq<char>>>;

/// Calls `shlex::split`, which splits a text into words by the quoting rules
/// of the POSIX shell and gives `None` when the text ends inside a quotation
/// or after a lone backslash. The contract only names the result: the same
/// text always gives the same words.
#[verifier::external_body]
fn split_shell_words(contents: &str) -> (words: Option<Vec<String>>)
    ensures
        words.deep_view() == shell_words(contents@),
{
    shlex::split(contents)
}

/// The path behind the `@` of a response-file argument; `None` for any other
/// argument.
pub fn response_file_path(arg: &str) -> (path: Option<String>)
    ensures
        path.is_some() == is_response_ref(arg@),
        path matches Some(p) ==> p@ == referenced_path(arg@),
{
    if !arg.is_empty() && arg.get_char(0) == '@' {
        let len: usize = arg.unicode_len();
        Some(arg.substring_char(1, len).to_owned())
    } else {
        None
    }
}

/// What came of reading one response file and splitting it into words.
#[derive(Debug, PartialEq, Eq)]
pub enum FileOutcome {
    /// The file could not be read; the text says why.
    Unreadable(String),
    /// The file was read, and its contents are no list of shell words.
    Malformed,
    /// The words of the file, in order.
    Words(Vec<String>),
}

/// A [`FileOutcome`] with its texts as sequences of characters.
pub enum FileOutcomeView {
    Unreadable(Seq<char>),
    Malformed,
    Words(Seq<Seq<char>>),
}

impl View for FileOutcome {
    type V = FileOutcomeView;

    open spec fn view(&self) -> FileOutcomeView {
        match self {
            FileOutcome::Unreadable(cause) => FileOutcomeView::Unreadable(cause@),
            FileOutcome::Malformed => FileOutcomeView::Malformed,
            FileOutcome::Words(words) => FileOutcomeView::Words(words.deep_view()),
        }
    }
}

/// What reading a file gave: its contents, or else the reason for the failure.
pub open spec fn read_view(read: Result<String, String>) -> Result<Seq<char>, Seq<char>> {
    match read {
        Ok(contents) => Ok(contents@),
        Err(cause) => Err(cause@),
    }
}

/// The outcome for a file, given what reading it gave.
pub open spec fn tokenized(read: Result<Seq<char>, Seq<char>>) -> FileOutcomeView {
    match read {
        Err(cause) => FileOutcomeView::Unreadable(cause),
        Ok(contents) => match shell_words(contents) {
            None => FileOutcomeView::Malformed,
            Some(words) => FileOutcomeView::Words(words),
        },
    }
}

/// Splits what was read of a response file into words.
pub fn tokenize(read: Result<String, String>) -> (outcome: FileOutcome)
    ensures
        outcome@ == tokenized(read_view(read)),
{
    match read {
        Err(cause) => FileOutcome::Unreadable(cause),
        Ok(contents) => match split_shell_words(contents.as_str()) {
            None => FileOutcome::Malformed,
            Some(words) => FileOutcome::Words(words),
        },
    }
}

/// The index of the first response-file argument at or after `from`, or the
/// length of the list where none follows.
pub open spec fn next_response_ref(args: Seq<Seq<char>>, from: int) -> int
    recommends
        0 <= from,
    decreases args.len() - from,
{
    if from >= args.len() {
        args.len() as int
    } else if is_response_ref(args[from]) {
        from
    } else {
        next_response_ref(args, from + 1)
    }
}

/// An expansion that waits for a file, as plain values: the whole argument
/// list, the index of the argument whose file is awaited, and the expansion
/// of all arguments before it.
pub struct PendingView {
    pub args: Seq<Seq<char>>,
    pub next: int,
    pub out: Seq<Seq<char>>,
}

/// A step of an expansion, as plain values.
pub enum ExpansionView {
    Read { path: Seq<char>, pending: PendingView },
    Done(Result<Seq<Seq<char>>, ErrorView>),
}

/// Walks on from the argument at `from`, with `out` expanded so far: every
/// argument up to the next response file is taken as it is, and the walk
/// stops at that file, or else at the end of the list.
pub open spec fn scanned(args: Seq<Seq<char>>, from: int, out: Seq<Seq<char>>) -> ExpansionView {
    let stop = next_response_ref(args, from);
    let out = out + args.subrange(from, stop);
    if stop < args.len() {
        ExpansionView::Read {
            path: referenced_path(args[stop]),
            pending: PendingView { args, next: stop, out },
        }
    } else {
        ExpansionView::Done(Ok(out))
    }
}

/// The first step of expanding `args`.
pub open spec fn started(args: Seq<Seq<char>>) -> ExpansionView {
    scanned(args, 0, Seq::empty())
}

/// The step that follows when the awaited file had the given outcome: a file
/// that is unreadable or malformed ends the expansion with the error that
/// names it; the words of any other file take the place of its argument, and
/// the walk goes on behind it.
pub open spec fn advanced(pending: PendingView, outcome: FileOutcomeView) -> ExpansionView {
    let path = referenced_path(pending.args[pending.next]);
    match outcome {
        FileOutcomeView::Unreadable(cause) => {
            ExpansionView::Done(Err(ErrorView::Read { path, cause }))
        },
        FileOutcomeView::Malformed => ExpansionView::Done(Err(ErrorView::Syntax { path })),
        FileOutcomeView::Words(words) => {
            scanned(pending.args, pending.next + 1, pending.out + words)
        },
    }
}

/// An expansion that has stopped at a response file and waits for it.
pub struct Pending {
    args: Vec<String>,
    next: usize,
    out: Vec<String>,
}

/// A step of an expansion: either a file must be read before it can go on,
/// or it is over.
pub enum Expansion {
    /// Read the file at `path`, and hand what came of it to `pending`.
    Read { path: String, pending: Pending },
    /// The expanded list, or the error that ended the expansion.
    Done(Result<Vec<String>, Error>),
}

impl Pending {
    #[verifier::type_invariant]
    spec fn awaits_a_file(self) -> bool {
        &&& self.next < self.args.len()
        &&& is_response_ref(self.args@[self.next as int]@)
    }
}

impl View for Pending {
    type V = PendingView;

    closed spec fn view(&self) -> PendingView {
        PendingView {
            args: self.args.deep_view(),
            next: self.next as int,
            out: self.out.deep_view(),
        }
    }
}

/// A result of an expansion, as plain values.
pub open spec fn result_view(
    result: Result<Vec<String>, Error>,
) -> Result<Seq<Seq<char>>, ErrorView> {
    match result {
        Ok(args) => Ok(args.deep_view()),
        Err(error) => Err(error@),
    }
}

impl View for Expansion {
    type V = ExpansionView;

    open spec fn view(&self) -> ExpansionView {
        match self {
            Expansion::Read { path, pending } => ExpansionView::Read {
                path: path@,
                pending: pending@,
            },
            Expansion::Done(result) => ExpansionView::Done(result_view(*result)),
        }
    }
}

/// Where every argument from `from` up to `stop` is an ordinary one, and
/// `stop` is a response file or the end, the walk from `from` stops at `stop`.
proof fn lemma_walk_stops(args: Seq<Seq<char>>, from: int, stop: int)
    requires
        0 <= from <= stop <= args.len(),
        forall|j: int| from <= j < stop ==> !is_response_ref(#[trigger] args[j]),
        stop == args.len() || is_response_ref(args[stop]),
    ensures
        next_response_ref(args, from) == stop,
    decreases stop - from,
{
    if from < stop {
        lemma_walk_stops(args, from + 1, stop);
    }
}

/// Walks on from `args[from]`, with `out` expanded so far.
fn scan(args: Vec<String>, from: usize, out: Vec<String>) -> (step: Expansion)
    requires
        from <= args.len(),
    ensures
        step@ == scanned(args.deep_view(), from as int, out.deep_view()),
{
    let ghost words = args.deep_view();
    let ghost before = out.deep_view();
    let mut expanded = out;
    let mut at: usize = from;
    while at < args.len()
        invariant
            from <= at <= args.len(),
            words == args.deep_view(),
            before == out.deep_view(),
            expanded.deep_view() == before + words.subrange(from as int, at as int),
            forall|j: int| from <= j < at ==> !is_response_ref(#[trigger] words[j]),
        decreases args.len() - at,
    {
        match response_file_path(args[at].as_str()) {
            Some(path) => {
                proof {
                    lemma_walk_stops(words, from as int, at as int);
                }
                let pending = Pending { args, next: at, out: expanded };
                return Expansion::Read { path, pending };
            },
            None => {
                let ghost so_far = expanded.deep_view();
                expanded.push(args[at].clone());
                assert(expanded.deep_view() == so_far.push(words[at as int]));
                at = at + 1;
            },
        }
    }
    proof {
        lemma_walk_stops(words, from as int, at as int);
    }
    Expansion::Done(Ok(expanded))
}

/// Starts to expand `args`: the step up to the first response file. A list
/// that names no file is expanded at once, to itself.
pub fn expand_response_files(args: Vec<String>) -> (step: Expansion)
    ensures
        step@ == started(args.deep_view()),
        (forall|i: int| 0 <= i < args.len() ==> !is_response_ref(#[trigger] args[i]@))
            ==> step@ == ExpansionView::Done(Ok(args.deep_view())),
{
    proof {
        let words = args.deep_view();
        if forall|i: int| 0 <= i < args.len() ==> !is_response_ref(#[trigger] args[i]@) {
            assert forall|j: int| 0 <= j < words.len() implies
                !is_response_ref(#[trigger] words[j])
            by {
                assert(words[j] == args[j]@);
            }
            lemma_walk_stops(words, 0, words.len() as int);
            assert(Seq::<Seq<char>>::empty() + words.subrange(0, words.len() as int) =~= words);
        }
    }
    scan(args, 0, Vec::new())
}

impl Pending {
    /// Goes on with the outcome for the awaited file.
    pub fn advance(self, outcome: FileOutcome) -> (step: Expansion)
        ensures
            step@ == advanced(self@, outcome@),
    {
        proof {
            use_type_invariant(&self);
        }
        let Pending { args, next, out } = self;
        let path = response_file_path(args[next].as_str()).unwrap();
        match outcome {
            FileOutcome::Unreadable(cause) => Expansion::Done(Err(Error::Read { path, cause })),
            FileOutcome::Malformed => Expansion::Done(Err(Error::Syntax { path })),
            FileOutcome::Words(words) => {
                let ghost so_far = out.deep_view();
                let ghost added = words.deep_view();
                let mut out = out;
                let mut words = words;
                out.append(&mut words);
                assert(out.deep_view() == so_far + added);
                scan(args, next + 1, out)
            },
        }
    }

    /// Goes on with what reading the awaited file gave: its contents, or
    /// else the reason why it could not be read.
    pub fn resume(self, read: Result<String, String>) -> (step: Expansion)
        ensures
            step@ == advanced(self@, tokenized(read_view(read))),
    {
        self.advance(tokenize(read))
    }
}

} // verus!
