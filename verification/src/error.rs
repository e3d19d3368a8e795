//! The pipeline's error taxonomy: a structured error that carries its kind and
//! an ordered chain of context strings, outermost first.

use vstd::prelude::*;
use crate::text::joined_with;

verus! {

/// What went wrong, by stage.
#[derive(Clone, Copy, Debug, PartialEq, Eq, Structural)]
pub enum ErrorKind {
    /// A file could not be read or written; raised by the caller doing I/O.
    Io,
    /// The input text is not a well-formed serialized program envelope.
    Format,
    /// The envelope is well formed but declares a version this pipeline does
    /// not support.
    UnsupportedVersion,
    /// The program failed structural validation while building the registry.
    Registry,
    /// Ap-change metadata could not be derived for some statement.
    Metadata,
    /// The gas-usage check was requested and some code path has no statically
    /// known gas bound.
    GasCheck,
    /// The emitted instruction count went over the configured bound.
    InstructionLimit,
    /// The backend failed to lower the program for a reason outside the gas
    /// and size categories.
    Codegen,
}

/// The mathematical model of a `ToolError`: its kind and its context chain.
pub struct ErrorModel {
    pub kind: ErrorKind,
    pub contexts: Seq<Seq<char>>,
}

/// A pipeline error: a kind plus an ordered list of context strings, the
/// outermost description first and the root cause last.
#[derive(Debug)]
pub struct ToolError {
    kind: ErrorKind,
    contexts: Vec<String>,
}

impl View for ToolError {
    type V = ErrorModel;

    closed spec fn view(&self) -> ErrorModel {
        ErrorModel { kind: self.kind, contexts: self.contexts@.map_values(|s: String| s@) }
    }
}

/// The separator written between context strings when an error is rendered.
pub open spec fn context_sep() -> Seq<char> {
    ": "@
}

/// The one rendering of an error: its contexts joined with `": "`.
pub open spec fn spec_render(e: ErrorModel) -> Seq<char> {
    joined_with(e.contexts, context_sep())
}

impl ToolError {
    /// Builds an error of the given kind with one context string.
    pub fn new(kind: ErrorKind, msg: String) -> (r: Self)
        ensures
            r@.kind == kind,
            r@.contexts =~= seq![msg@],
    {
        let mut contexts: Vec<String> = Vec::new();
        contexts.push(msg);
        ToolError { kind, contexts }
    }

    /// Appends the root cause (or a finer context) to the end of the chain.
    pub fn with_cause(self, cause: String) -> (r: Self)
        ensures
            r@.kind == self@.kind,
            r@.contexts =~= self@.contexts.push(cause@),
    {
        let ToolError { kind, mut contexts } = self;
        contexts.push(cause);
        ToolError { kind, contexts }
    }

    /// The error's kind.
    pub fn kind(&self) -> (k: ErrorKind)
        ensures
            k == self@.kind,
    {
        self.kind
    }

    /// The context strings, outermost first.
    pub fn contexts(&self) -> (r: &Vec<String>)
        ensures
            r@.map_values(|s: String| s@) == self@.contexts,
    {
        &self.contexts
    }

    /// Renders the whole context chain as one line, outermost context first,
    /// the parts separated by `": "`.
    pub fn render(&self) -> (r: String)
        ensures
            r@ == spec_render(self@),
    {
        let ghost model: Seq<Seq<char>> = self@.contexts;
        let mut r = String::new();
        let n = self.contexts.len();
        let mut i: usize = 0;
        while i < n
            invariant
                i <= n,
                n == self.contexts.len(),
                model == self@.contexts,
                model.len() == n,
                r@ == joined_with(model.take(i as int), context_sep()),
            decreases n - i,
        {
            if i > 0 {
                r.append(": ");
            }
            r.append(self.contexts[i].as_str());
            proof {
                assert(model.take(i + 1 as int).drop_last() =~= model.take(i as int));
                assert(model.take(i + 1 as int).last() == model[i as int]);
                if i == 0 {
                    assert(r@ =~= joined_with(model.take(1), context_sep()));
                } else {
                    assert(r@ =~= joined_with(model.take(i + 1 as int), context_sep()));
                }
            }
            i = i + 1;
        }
        proof {
            assert(model.take(n as int) =~= model);
        }
        r
    }
}

} // verus!
