//! Transform, minify and tree-shake requests, and the settings their
//! options stand for once defaults are applied.

use vstd::prelude::*;

use crate::front_end::oxc_source_type;
use crate::minify::{minifier_options, minify_source, MinifyOutput};
use crate::transform::{transform_options, transform_source, TransformOutput};
use crate::shake::texts;
use crate::traits::Command;
use crate::types::{
    joined, FacetpackError, JsxRuntime, MinifyOptions, MinifyResult, SourceType, TransformOptions,
    TransformResult,
};

verus! {

/// The value of an optional flag, or `default` where it is unset.
pub open spec fn flag(o: Option<bool>, default: bool) -> bool {
    match o {
        Some(b) => b,
        None => default,
    }
}

fn flag_or(o: Option<bool>, default: bool) -> (r: bool)
    ensures
        r == flag(o, default),
{
    match o {
        Some(b) => b,
        None => default,
    }
}

pub struct MinifyCommand {
    pub code: String,
    pub filename: String,
    pub options: MinifyOptions,
}

/// How compression treats `console` calls and `debugger` statements.
#[derive(Debug, Clone, Copy, PartialEq, Eq, Structural)]
pub struct CompressSettings {
    pub drop_console: bool,
    pub drop_debugger: bool,
}

/// Whether mangling keeps function and class names, and whether it renames
/// top-level bindings (exports keep their names).
#[derive(Debug, Clone, Copy, PartialEq, Eq, Structural)]
pub struct MangleSettings {
    pub keep_names: bool,
    pub top_level: bool,
}

/// What a minification does, every option decided: compression and
/// mangling where they are on, and whether a source map is made.
#[derive(Debug, Clone, Copy, PartialEq, Eq, Structural)]
pub struct MinifySettings {
    pub compress: Option<CompressSettings>,
    pub mangle: Option<MangleSettings>,
    pub sourcemap: bool,
}

impl MinifyCommand {
    pub fn new(code: String, filename: String, options: Option<MinifyOptions>) -> (r: Self)
        ensures
            r.code == code,
            r.filename == filename,
            match options {
                Some(o) => r.options == o,
                None => r.options.compress is None && r.options.mangle is None
                    && r.options.keep_fnames is None && r.options.drop_console is None
                    && r.options.drop_debugger is None && r.options.sourcemap is None,
            },
    {
        let options = match options {
            Some(o) => o,
            None => MinifyOptions::default(),
        };
        MinifyCommand { code, filename, options }
    }

    /// Compression and mangling are on unless switched off; consoles are
    /// kept and debugger statements dropped unless said otherwise; names
    /// are mangled unless kept, top-level ones too: the code is read as an
    /// ES module, whose top-level bindings other than its exports are
    /// private to it, and exported names are never renamed; no source map
    /// unless asked for.
    pub fn settings(&self) -> (r: MinifySettings)
        ensures
            r.compress == (if flag(self.options.compress, true) {
                Some(
                    CompressSettings {
                        drop_console: flag(self.options.drop_console, false),
                        drop_debugger: flag(self.options.drop_debugger, true),
                    },
                )
            } else {
                None
            }),
            r.mangle == (if flag(self.options.mangle, true) {
                Some(MangleSettings { keep_names: flag(self.options.keep_fnames, false), top_level: true })
            } else {
                None
            }),
            r.sourcemap == flag(self.options.sourcemap, false),
    {
        let compress = if flag_or(self.options.compress, true) {
            Some(
                CompressSettings {
                    drop_console: flag_or(self.options.drop_console, false),
                    drop_debugger: flag_or(self.options.drop_debugger, true),
                },
            )
        } else {
            None
        };
        let mangle = if flag_or(self.options.mangle, true) {
            Some(MangleSettings { keep_names: flag_or(self.options.keep_fnames, false), top_level: true })
        } else {
            None
        };
        MinifySettings { compress, mangle, sourcemap: flag_or(self.options.sourcemap, false) }
    }

    /// The outcome of a minification the front-end reported on: the
    /// joined parse errors where the parse could not recover, else the
    /// printed code and source map.
    pub fn finish(output: MinifyOutput) -> (r: Result<MinifyResult, FacetpackError>)
        ensures
            output.panicked ==> (r matches Err(FacetpackError::ParseError(m)) && m@ == joined(
                texts(output.errors@),
            )),
            !output.panicked ==> (r matches Ok(m) && m.code == output.code && m.map == output.map),
    {
        if output.panicked {
            Err(FacetpackError::parse_failure(&output.errors))
        } else {
            Ok(MinifyResult { code: output.code, map: output.map })
        }
    }

    /// Minifies the code: parse as an ES module, compress and mangle as
    /// the settings say, print minified, with a source map named after the
    /// file where one is asked for.
    pub fn run(&self) -> (r: Result<MinifyResult, FacetpackError>)
        ensures
            r matches Err(e) ==> e matches FacetpackError::ParseError(_),
    {
        let settings = self.settings();
        let map_path = if settings.sourcemap {
            Some(self.filename.clone())
        } else {
            None
        };
        let options = minifier_options(&settings);
        let output = minify_source(self.code.as_str(), options, map_path);
        Self::finish(output)
    }
}

impl Command for MinifyCommand {
    type Result = MinifyResult;

    fn execute(&self) -> (r: Result<MinifyResult, FacetpackError>)
        ensures
            r matches Err(e) ==> e matches FacetpackError::ParseError(_),
    {
        self.run()
    }
}

pub struct TransformCommand {
    pub filename: String,
    pub source_text: String,
    pub options: TransformOptions,
}

/// How JSX is compiled: the runtime, and the import source and pragmas
/// where they are given.
#[derive(Debug, Clone)]
pub struct JsxSettings {
    pub runtime: JsxRuntime,
    pub import_source: Option<String>,
    pub pragma: Option<String>,
    pub pragma_frag: Option<String>,
}

/// What a transform does, every option decided: the source kind where it
/// is given, JSX settings where JSX options apply, whether TypeScript is
/// stripped, and whether a source map is made.
#[derive(Debug, Clone)]
pub struct TransformSettings {
    pub source_type: Option<SourceType>,
    pub jsx: Option<JsxSettings>,
    pub typescript: bool,
    pub sourcemap: bool,
}

/// The language level transformed code is lowered to.
pub const TRANSFORM_TARGET: &'static str = "es2020";

/// The module transform helpers are imported from at run time.
pub const HELPER_MODULE: &'static str = "@babel/runtime";

impl TransformCommand {
    pub fn new(filename: String, source_text: String, options: Option<TransformOptions>) -> (r: Self)
        ensures
            r.filename == filename,
            r.source_text == source_text,
            match options {
                Some(o) => r.options == o,
                None => r.options.source_type is None && r.options.jsx is None
                    && r.options.jsx_runtime is None && r.options.jsx_pragma is None
                    && r.options.jsx_pragma_frag is None && r.options.jsx_import_source is None
                    && r.options.typescript is None && r.options.sourcemap is None,
            },
    {
        let options = match options {
            Some(o) => o,
            None => TransformOptions::default(),
        };
        TransformCommand { filename, source_text, options }
    }

    /// JSX options apply unless switched off, with the automatic runtime
    /// unless the classic one is asked for; TypeScript is stripped unless
    /// switched off; no source map unless asked for.
    pub fn settings(&self) -> (r: TransformSettings)
        ensures
            r.source_type == self.options.source_type,
            flag(self.options.jsx, true) ==> (r.jsx matches Some(j) && j.runtime == (match self.options.jsx_runtime {
                Some(JsxRuntime::Classic) => JsxRuntime::Classic,
                _ => JsxRuntime::Automatic,
            }) && j.import_source == self.options.jsx_import_source && j.pragma == self.options.jsx_pragma
                && j.pragma_frag == self.options.jsx_pragma_frag),
            !flag(self.options.jsx, true) ==> r.jsx is None,
            r.typescript == flag(self.options.typescript, true),
            r.sourcemap == flag(self.options.sourcemap, false),
    {
        let jsx = if flag_or(self.options.jsx, true) {
            let runtime = match self.options.jsx_runtime {
                Some(JsxRuntime::Classic) => JsxRuntime::Classic,
                _ => JsxRuntime::Automatic,
            };
            Some(
                JsxSettings {
                    runtime,
                    import_source: self.options.jsx_import_source.clone(),
                    pragma: self.options.jsx_pragma.clone(),
                    pragma_frag: self.options.jsx_pragma_frag.clone(),
                },
            )
        } else {
            None
        };
        TransformSettings {
            source_type: self.options.source_type,
            jsx,
            typescript: flag_or(self.options.typescript, true),
            sourcemap: flag_or(self.options.sourcemap, false),
        }
    }

    /// The outcome of a transform the front-end reported on: the joined
    /// parse errors where the parse could not recover, else the joined
    /// semantic errors where there are any, else the printed code, source
    /// map and the transformer's errors.
    pub fn finish(output: TransformOutput) -> (r: Result<TransformResult, FacetpackError>)
        ensures
            output.panicked ==> (r matches Err(FacetpackError::ParseError(m)) && m@ == joined(
                texts(output.parse_errors@),
            )),
            !output.panicked && output.semantic_errors@.len() > 0 ==> (r matches Err(
                FacetpackError::TransformError(m),
            ) && m@ == joined(texts(output.semantic_errors@))),
            !output.panicked && output.semantic_errors@.len() == 0 ==> (r matches Ok(t) && t.code
                == output.code && t.map == output.map && t.errors == output.errors && t.diagnostics@.len()
                == 0),
    {
        if output.panicked {
            return Err(FacetpackError::parse_failure(&output.parse_errors));
        }
        if output.semantic_errors.len() > 0 {
            return Err(FacetpackError::transform_failure(&output.semantic_errors));
        }
        Ok(TransformResult { code: output.code, map: output.map, errors: output.errors, diagnostics: Vec::new() })
    }

    /// Transforms the source: parse it as the settings' or the file name's
    /// kind, check it, lower it to the target with the JSX settings, and
    /// print it, with a source map named after the file where one is asked
    /// for.
    pub fn run(&self) -> (r: Result<TransformResult, FacetpackError>)
        ensures
            r matches Err(e) ==> (e matches FacetpackError::ParseError(_) || e matches FacetpackError::TransformError(_)),
    {
        let settings = self.settings();
        let map_path = if settings.sourcemap {
            Some(self.filename.clone())
        } else {
            None
        };
        let kind = oxc_source_type(self.filename.as_str(), settings.source_type);
        let options = transform_options(TRANSFORM_TARGET, HELPER_MODULE, settings.jsx);
        let output = transform_source(self.filename.as_str(), self.source_text.as_str(), kind, &options, map_path);
        Self::finish(output)
    }
}

impl Command for TransformCommand {
    type Result = TransformResult;

    fn execute(&self) -> (r: Result<TransformResult, FacetpackError>)
        ensures
            r matches Err(e) ==> (e matches FacetpackError::ParseError(_) || e matches FacetpackError::TransformError(_)),
    {
        self.run()
    }
}

pub struct ShakeCommand {
    pub filename: String,
    pub source_text: String,
    pub used_exports: Vec<String>,
}

impl ShakeCommand {
    pub fn new(filename: String, source_text: String, used_exports: Vec<String>) -> (r: Self)
        ensures
            r.filename == filename,
            r.source_text == source_text,
            r.used_exports == used_exports,
    {
        ShakeCommand { filename, source_text, used_exports }
    }
}

} // verus!
