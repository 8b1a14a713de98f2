//! Options and results exchanged with the host.

use vstd::prelude::*;

use crate::diagnostic::Diagnostic;
use crate::shake::texts;
use crate::text::{push_all, push_str, text_of, chars_of};

verus! {

#[derive(Debug, Clone, Copy, PartialEq, Eq, Structural)]
pub enum SourceType {
    Script,
    Module,
    Jsx,
    Tsx,
    Typescript,
}

impl Default for SourceType {
    fn default() -> (r: Self)
        ensures
            r == SourceType::Script,
    {
        SourceType::Script
    }
}

#[derive(Debug, Clone)]
pub struct ParseOptions {
    pub source_type: Option<SourceType>,
    pub preserve_parens: Option<bool>,
}

impl Default for ParseOptions {
    fn default() -> (r: Self)
        ensures
            r.source_type is None,
            r.preserve_parens is None,
    {
        ParseOptions { source_type: None, preserve_parens: None }
    }
}

#[derive(Debug, Clone)]
pub struct ParseResult {
    pub program: String,
    pub errors: Vec<String>,
    pub diagnostics: Vec<Diagnostic>,
    pub panicked: bool,
}

#[derive(Debug, Clone, Copy, PartialEq, Eq, Structural)]
pub enum JsxRuntime {
    Automatic,
    Classic,
}

impl Default for JsxRuntime {
    fn default() -> (r: Self)
        ensures
            r == JsxRuntime::Automatic,
    {
        JsxRuntime::Automatic
    }
}

#[derive(Debug, Clone)]
pub struct TransformOptions {
    pub source_type: Option<SourceType>,
    pub jsx: Option<bool>,
    pub jsx_runtime: Option<JsxRuntime>,
    pub jsx_pragma: Option<String>,
    pub jsx_pragma_frag: Option<String>,
    pub jsx_import_source: Option<String>,
    pub typescript: Option<bool>,
    pub sourcemap: Option<bool>,
}

impl Default for TransformOptions {
    fn default() -> (r: Self)
        ensures
            r.source_type is None,
            r.jsx is None,
            r.jsx_runtime is None,
            r.jsx_pragma is None,
            r.jsx_pragma_frag is None,
            r.jsx_import_source is None,
            r.typescript is None,
            r.sourcemap is None,
    {
        TransformOptions {
            source_type: None,
            jsx: None,
            jsx_runtime: None,
            jsx_pragma: None,
            jsx_pragma_frag: None,
            jsx_import_source: None,
            typescript: None,
            sourcemap: None,
        }
    }
}

#[derive(Debug, Clone)]
pub struct TransformResult {
    pub code: String,
    pub map: Option<String>,
    pub errors: Vec<String>,
    pub diagnostics: Vec<Diagnostic>,
}

#[derive(Debug, Clone)]
pub struct MinifyOptions {
    pub compress: Option<bool>,
    pub mangle: Option<bool>,
    pub keep_fnames: Option<bool>,
    pub drop_console: Option<bool>,
    pub drop_debugger: Option<bool>,
    pub sourcemap: Option<bool>,
}

impl Default for MinifyOptions {
    fn default() -> (r: Self)
        ensures
            r.compress is None,
            r.mangle is None,
            r.keep_fnames is None,
            r.drop_console is None,
            r.drop_debugger is None,
            r.sourcemap is None,
    {
        MinifyOptions {
            compress: None,
            mangle: None,
            keep_fnames: None,
            drop_console: None,
            drop_debugger: None,
            sourcemap: None,
        }
    }
}

#[derive(Debug, Clone)]
pub struct MinifyResult {
    pub code: String,
    pub map: Option<String>,
}

#[derive(Debug, Clone)]
pub struct ExportInfo {
    pub name: String,
    pub is_default: bool,
    pub is_reexport: bool,
    pub source: Option<String>,
}

#[derive(Debug, Clone)]
pub struct ImportInfo {
    pub source: String,
    pub specifiers: Vec<String>,
    pub is_side_effect: bool,
}

#[derive(Debug, Clone)]
pub struct ModuleAnalysis {
    pub exports: Vec<ExportInfo>,
    pub imports: Vec<ImportInfo>,
    pub has_side_effects: bool,
}

#[derive(Debug, Clone)]
pub struct ModuleInput {
    pub path: String,
    pub code: String,
}

#[derive(Debug, Clone)]
pub struct ShakeResult {
    pub code: String,
    pub map: Option<String>,
    pub removed_exports: Vec<String>,
}

/// The failures the host surface reports.
#[derive(Debug, Clone)]
pub enum FacetpackError {
    ParseError(String),
    TransformError(String),
    InvalidSourceType(String),
    CodegenError(String),
}

/// The text that describes an error: its kind followed by its detail.
pub open spec fn error_text(e: FacetpackError) -> Seq<char> {
    match e {
        FacetpackError::ParseError(s) => "Parse error: "@ + s@,
        FacetpackError::TransformError(s) => "Transform error: "@ + s@,
        FacetpackError::InvalidSourceType(s) => "Invalid source type: "@ + s@,
        FacetpackError::CodegenError(s) => "Codegen error: "@ + s@,
    }
}

impl FacetpackError {
    /// The error's description, as shown to the host.
    pub fn to_message(&self) -> (r: String)
        ensures
            r@ == error_text(*self),
    {
        let mut out: Vec<char> = Vec::new();
        let detail: &String = match self {
            FacetpackError::ParseError(s) => {
                push_str(&mut out, "Parse error: ");
                s
            },
            FacetpackError::TransformError(s) => {
                push_str(&mut out, "Transform error: ");
                s
            },
            FacetpackError::InvalidSourceType(s) => {
                push_str(&mut out, "Invalid source type: ");
                s
            },
            FacetpackError::CodegenError(s) => {
                push_str(&mut out, "Codegen error: ");
                s
            },
        };
        push_str(&mut out, detail.as_str());
        text_of(out.as_slice())
    }
}


/// The messages joined by line feeds.
pub open spec fn joined(messages: Seq<Seq<char>>) -> Seq<char>
    decreases messages.len(),
{
    if messages.len() == 0 {
        Seq::empty()
    } else if messages.len() == 1 {
        messages[0]
    } else {
        joined(messages.drop_last()) + "\n"@ + messages.last()
    }
}

/// The messages, one per line.
pub fn join_lines(messages: &Vec<String>) -> (r: String)
    ensures
        r@ == joined(texts(messages@)),
{
    let mut out: Vec<char> = Vec::new();
    let mut i: usize = 0;
    while i < messages.len()
        invariant
            i <= messages@.len(),
            out@ == joined(texts(messages@.subrange(0, i as int))),
        decreases messages@.len() - i,
    {
        let ghost t = texts(messages@.subrange(0, i + 1));
        assert(t.drop_last() =~= texts(messages@.subrange(0, i as int)));
        if i > 0 {
            push_str(&mut out, "\n");
        }
        let cs = chars_of(messages[i].as_str());
        push_all(&mut out, cs.as_slice());
        assert(out@ =~= joined(t));
        i = i + 1;
    }
    assert(messages@.subrange(0, messages@.len() as int) =~= messages@);
    text_of(out.as_slice())
}

impl FacetpackError {
    /// The failure of a parse that could not recover: all its error
    /// messages, one per line.
    pub fn parse_failure(messages: &Vec<String>) -> (r: FacetpackError)
        ensures
            r matches FacetpackError::ParseError(s) && s@ == joined(texts(messages@)),
    {
        FacetpackError::ParseError(join_lines(messages))
    }

    /// The failure of a semantic check before a transform: all its error
    /// messages, one per line.
    pub fn transform_failure(messages: &Vec<String>) -> (r: FacetpackError)
        ensures
            r matches FacetpackError::TransformError(s) && s@ == joined(texts(messages@)),
    {
        FacetpackError::TransformError(join_lines(messages))
    }
}

impl ModuleAnalysis {
    /// The analysis recorded for a module that could not be analysed: no
    /// exports or imports, and side effects assumed.
    pub fn or_assume_effects(outcome: Result<ModuleAnalysis, FacetpackError>) -> (r: ModuleAnalysis)
        ensures
            match outcome {
                Ok(a) => r == a,
                Err(_) => r.exports@.len() == 0 && r.imports@.len() == 0 && r.has_side_effects,
            },
    {
        match outcome {
            Ok(a) => a,
            Err(_) => ModuleAnalysis { exports: Vec::new(), imports: Vec::new(), has_side_effects: true },
        }
    }
}

} // verus!
