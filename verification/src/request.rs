//! What one run is asked to do, and the calls on the generator that say so.

use vstd::prelude::*;
use std::path::PathBuf;
use crate::codegen::{effective, Category, CodegenConfig};

verus! {

/// `std::path::PathBuf`, a path of the file system. Nothing is said of what
/// a path holds: the library only carries it from the command line to the
/// place where the output is written.
#[verifier::external_type_specification]
#[verifier::external_body]
pub struct ExPathBuf(PathBuf);

/// The command line, flag by flag, as it was parsed.
#[derive(Debug)]
pub struct Args {
    /// `--header`: the header to generate declarations for.
    pub header: String,
    /// `--out`: where the declarations are written.
    pub out: PathBuf,
    /// Every `--allowlist-function`, in order.
    pub allowlist_function: Vec<String>,
    /// Every `--allowlist-type`, in order.
    pub allowlist_type: Vec<String>,
    /// Every `--allowlist-var`, in order.
    pub allowlist_var: Vec<String>,
    /// Every `--opaque-type`, in order.
    pub opaque_type: Vec<String>,
    /// `--enable-cxx-namespaces`: nest modules as the namespaces are nested.
    pub enable_cxx_namespaces: bool,
    /// `--generate-types`.
    pub generate_types: bool,
    /// `--generate-functions`.
    pub generate_functions: bool,
    /// `--generate-methods`.
    pub generate_methods: bool,
    /// `--generate-vars`.
    pub generate_vars: bool,
    /// Everything after `--`: arguments for the compiler front end, among
    /// them, possibly, response files.
    pub clang_args: Vec<String>,
}

/// What a run is asked to do. It is built once, from the command line, and
/// not changed afterwards.
#[derive(Debug)]
pub struct Request {
    header: String,
    out: PathBuf,
    allowlist_functions: Vec<String>,
    allowlist_types: Vec<String>,
    allowlist_vars: Vec<String>,
    opaque_types: Vec<String>,
    enable_cxx_namespaces: bool,
    codegen: CodegenConfig,
}

/// A [`Request`] as plain values.
pub struct RequestView {
    pub header: Seq<char>,
    pub out: PathBuf,
    pub allowlist_functions: Seq<Seq<char>>,
    pub allowlist_types: Seq<Seq<char>>,
    pub allowlist_vars: Seq<Seq<char>>,
    pub opaque_types: Seq<Seq<char>>,
    pub enable_cxx_namespaces: bool,
    pub codegen: Set<Category>,
}

impl View for Request {
    type V = RequestView;

    closed spec fn view(&self) -> RequestView {
        RequestView {
            header: self.header@,
            out: self.out,
            allowlist_functions: self.allowlist_functions.deep_view(),
            allowlist_types: self.allowlist_types.deep_view(),
            allowlist_vars: self.allowlist_vars.deep_view(),
            opaque_types: self.opaque_types.deep_view(),
            enable_cxx_namespaces: self.enable_cxx_namespaces,
            codegen: self.codegen@,
        }
    }
}

/// The request that a command line makes: each flag as it was given, and for
/// the categories those that were selected, or all of them where none was.
pub open spec fn requested(args: Args) -> RequestView {
    RequestView {
        header: args.header@,
        out: args.out,
        allowlist_functions: args.allowlist_function.deep_view(),
        allowlist_types: args.allowlist_type.deep_view(),
        allowlist_vars: args.allowlist_var.deep_view(),
        opaque_types: args.opaque_type.deep_view(),
        enable_cxx_namespaces: args.enable_cxx_namespaces,
        codegen: effective(
            args.generate_types,
            args.generate_functions,
            args.generate_methods,
            args.generate_vars,
        ),
    }
}

/// One call on the generator's builder.
#[derive(Debug, PartialEq, Eq)]
pub enum BuilderCall {
    /// `header`: the header to parse.
    Header(String),
    /// `allowlist_function`: emit the functions of this name.
    AllowlistFunction(String),
    /// `allowlist_type`: emit the types of this name.
    AllowlistType(String),
    /// `allowlist_var`: emit the variables of this name.
    AllowlistVar(String),
    /// `opaque_type`: emit the types of this name without their fields.
    OpaqueType(String),
    /// `enable_cxx_namespaces`: nest modules as the namespaces are nested.
    EnableCxxNamespaces,
    /// `with_codegen_config`: emit these categories.
    WithCodegenConfig(CodegenConfig),
    /// `clang_args`: hand these arguments to the compiler front end.
    ClangArgs(Vec<String>),
}

/// A [`BuilderCall`] as plain values.
pub enum BuilderCallView {
    Header(Seq<char>),
    AllowlistFunction(Seq<char>),
    AllowlistType(Seq<char>),
    AllowlistVar(Seq<char>),
    OpaqueType(Seq<char>),
    EnableCxxNamespaces,
    WithCodegenConfig(Set<Category>),
    ClangArgs(Seq<Seq<char>>),
}

impl View for BuilderCall {
    type V = BuilderCallView;

    open spec fn view(&self) -> BuilderCallView {
        match self {
            BuilderCall::Header(path) => BuilderCallView::Header(path@),
            BuilderCall::AllowlistFunction(name) => BuilderCallView::AllowlistFunction(name@),
            BuilderCall::AllowlistType(name) => BuilderCallView::AllowlistType(name@),
            BuilderCall::AllowlistVar(name) => BuilderCallView::AllowlistVar(name@),
            BuilderCall::OpaqueType(name) => BuilderCallView::OpaqueType(name@),
            BuilderCall::EnableCxxNamespaces => BuilderCallView::EnableCxxNamespaces,
            BuilderCall::WithCodegenConfig(config) => BuilderCallView::WithCodegenConfig(config@),
            BuilderCall::ClangArgs(args) => BuilderCallView::ClangArgs(args.deep_view()),
        }
    }
}

impl DeepView for BuilderCall {
    type V = BuilderCallView;

    open spec fn deep_view(&self) -> BuilderCallView {
        self@
    }
}

/// The calls that take one name each.
#[derive(Clone, Copy, Debug, PartialEq, Eq, Structural)]
pub enum NameCall {
    AllowlistFunction,
    AllowlistType,
    AllowlistVar,
    OpaqueType,
}

impl NameCall {
    /// The call of this kind for `name`.
    pub open spec fn of(self, name: Seq<char>) -> BuilderCallView {
        match self {
            NameCall::AllowlistFunction => BuilderCallView::AllowlistFunction(name),
            NameCall::AllowlistType => BuilderCallView::AllowlistType(name),
            NameCall::AllowlistVar => BuilderCallView::AllowlistVar(name),
            NameCall::OpaqueType => BuilderCallView::OpaqueType(name),
        }
    }

    /// One call of this kind for each of `names`, in order.
    pub open spec fn for_each(self, names: Seq<Seq<char>>) -> Seq<BuilderCallView> {
        names.map_values(|name: Seq<char>| self.of(name))
    }
}

/// The call, if any, that switches namespaces on.
pub open spec fn namespace_calls(enabled: bool) -> Seq<BuilderCallView> {
    if enabled {
        seq![BuilderCallView::EnableCxxNamespaces]
    } else {
        Seq::empty()
    }
}

/// The call, if any, that hands the front end its arguments: none is made
/// for an empty list.
pub open spec fn clang_arg_calls(clang_args: Seq<Seq<char>>) -> Seq<BuilderCallView> {
    if clang_args.len() > 0 {
        seq![BuilderCallView::ClangArgs(clang_args)]
    } else {
        Seq::empty()
    }
}

/// The calls that configure the generator for `request`, in the order in
/// which they are made: the header; the allow-lists for functions, types and
/// variables; the opaque types; the namespaces; the categories; and last
/// the arguments for the front end, already expanded.
pub open spec fn calls_for(
    request: RequestView,
    clang_args: Seq<Seq<char>>,
) -> Seq<BuilderCallView> {
    seq![BuilderCallView::Header(request.header)]
        + NameCall::AllowlistFunction.for_each(request.allowlist_functions)
        + NameCall::AllowlistType.for_each(request.allowlist_types)
        + NameCall::AllowlistVar.for_each(request.allowlist_vars)
        + NameCall::OpaqueType.for_each(request.opaque_types)
        + namespace_calls(request.enable_cxx_namespaces)
        + seq![BuilderCallView::WithCodegenConfig(request.codegen)]
        + clang_arg_calls(clang_args)
}

/// A run of the generator: the calls that configure it, and the file that
/// takes what it emits.
#[derive(Debug)]
pub struct Plan {
    pub calls: Vec<BuilderCall>,
    pub out: PathBuf,
}

/// Adds to `calls` one call of the given kind for each of `names`.
fn push_name_calls(calls: &mut Vec<BuilderCall>, kind: NameCall, names: &Vec<String>)
    ensures
        final(calls).deep_view() == old(calls).deep_view() + kind.for_each(names.deep_view()),
{
    let ghost before = calls.deep_view();
    let ghost all = kind.for_each(names.deep_view());
    let mut at: usize = 0;
    while at < names.len()
        invariant
            at <= names.len(),
            all == kind.for_each(names.deep_view()),
            calls.deep_view() == before + all.take(at as int),
        decreases names.len() - at,
    {
        let ghost so_far = calls.deep_view();
        let name = names[at].clone();
        let call = match kind {
            NameCall::AllowlistFunction => BuilderCall::AllowlistFunction(name),
            NameCall::AllowlistType => BuilderCall::AllowlistType(name),
            NameCall::AllowlistVar => BuilderCall::AllowlistVar(name),
            NameCall::OpaqueType => BuilderCall::OpaqueType(name),
        };
        assert(call@ == all[at as int]);
        calls.push(call);
        assert(calls.deep_view() == so_far.push(all[at as int]));
        assert(all.take(at + 1) == all.take(at as int).push(all[at as int]));
        at = at + 1;
    }
    assert(all.take(at as int) == all);
}

impl Request {
    /// The request that the command line makes, beside the arguments for the
    /// front end, which are handed back as they were given.
    pub fn new(args: Args) -> (parts: (Request, Vec<String>))
        ensures
            parts.0@ == requested(args),
            parts.1 == args.clang_args,
    {
        let codegen = CodegenConfig::from_flags(
            args.generate_types,
            args.generate_functions,
            args.generate_methods,
            args.generate_vars,
        );
        let request = Request {
            header: args.header,
            out: args.out,
            allowlist_functions: args.allowlist_function,
            allowlist_types: args.allowlist_type,
            allowlist_vars: args.allowlist_var,
            opaque_types: args.opaque_type,
            enable_cxx_namespaces: args.enable_cxx_namespaces,
            codegen,
        };
        (request, args.clang_args)
    }

    /// The header to generate declarations for.
    pub fn header(&self) -> (header: &String)
        ensures
            header@ == self@.header,
    {
        &self.header
    }

    /// Where the declarations are written.
    pub fn out(&self) -> (out: &PathBuf)
        ensures
            *out == self@.out,
    {
        &self.out
    }

    /// The names of the functions to emit.
    pub fn allowlist_functions(&self) -> (names: &Vec<String>)
        ensures
            names.deep_view() == self@.allowlist_functions,
    {
        &self.allowlist_functions
    }

    /// The names of the types to emit.
    pub fn allowlist_types(&self) -> (names: &Vec<String>)
        ensures
            names.deep_view() == self@.allowlist_types,
    {
        &self.allowlist_types
    }

    /// The names of the variables to emit.
    pub fn allowlist_vars(&self) -> (names: &Vec<String>)
        ensures
            names.deep_view() == self@.allowlist_vars,
    {
        &self.allowlist_vars
    }

    /// The names of the types to emit without their fields.
    pub fn opaque_types(&self) -> (names: &Vec<String>)
        ensures
            names.deep_view() == self@.opaque_types,
    {
        &self.opaque_types
    }

    /// Whether modules are nested as the namespaces are.
    pub fn enable_cxx_namespaces(&self) -> (enabled: bool)
        ensures
            enabled == self@.enable_cxx_namespaces,
    {
        self.enable_cxx_namespaces
    }

    /// The categories to emit.
    pub fn codegen(&self) -> (config: CodegenConfig)
        ensures
            config@ == self@.codegen,
    {
        self.codegen
    }

    /// The generator run for this request, with the arguments for the front
    /// end as they stand after expansion.
    pub fn plan(self, clang_args: Vec<String>) -> (plan: Plan)
        ensures
            plan.calls.deep_view() == calls_for(self@, clang_args.deep_view()),
            plan.out == self@.out,
    {
        let ghost request = self@;
        let ghost extra = clang_args.deep_view();
        let mut calls: Vec<BuilderCall> = Vec::new();
        calls.push(BuilderCall::Header(self.header));
        assert(calls.deep_view() == seq![BuilderCallView::Header(request.header)]);
        push_name_calls(&mut calls, NameCall::AllowlistFunction, &self.allowlist_functions);
        push_name_calls(&mut calls, NameCall::AllowlistType, &self.allowlist_types);
        push_name_calls(&mut calls, NameCall::AllowlistVar, &self.allowlist_vars);
        push_name_calls(&mut calls, NameCall::OpaqueType, &self.opaque_types);
        let ghost named = calls.deep_view();
        if self.enable_cxx_namespaces {
            calls.push(BuilderCall::EnableCxxNamespaces);
        }
        assert(calls.deep_view() == named + namespace_calls(request.enable_cxx_namespaces));
        let ghost spaced = calls.deep_view();
        calls.push(BuilderCall::WithCodegenConfig(self.codegen));
        assert(calls.deep_view() == spaced + seq![
            BuilderCallView::WithCodegenConfig(request.codegen)
        ]);
        let ghost configured = calls.deep_view();
        if clang_args.len() > 0 {
            calls.push(BuilderCall::ClangArgs(clang_args));
        }
        assert(calls.deep_view() == configured + clang_arg_calls(extra));
        Plan { calls, out: self.out }
    }
}

} // verus!
