//! The minifier: compression, mangling and minified printing.

use vstd::prelude::*;

use crate::commands::MinifySettings;
use crate::front_end::messages;

verus! {

#[verifier::external_type_specification]
#[verifier::external_body]
pub struct ExMinifierOptions(oxc_minifier::MinifierOptions);

/// What one minification reports: whether the parse could not recover,
/// its error messages, the printed code and the source map.
pub struct MinifyOutput {
    pub panicked: bool,
    pub errors: Vec<String>,
    pub code: String,
    pub map: Option<String>,
}

/// Relies on `oxc_minifier::CompressOptions` and `oxc_minifier::MangleOptions`:
/// the settings written as the minifier's options, the rest at their
/// defaults.
#[verifier::external_body]
pub(crate) fn minifier_options(s: &MinifySettings) -> oxc_minifier::MinifierOptions {
    let compress = s.compress.map(|c| oxc_minifier::CompressOptions {
        drop_console: c.drop_console,
        drop_debugger: c.drop_debugger,
        ..Default::default()
    });
    let mangle = s.mangle.map(|m| oxc_minifier::MangleOptions {
        top_level: m.top_level,
        keep_names: oxc_minifier::MangleOptionsKeepNames { function: m.keep_names, class: m.keep_names },
        ..Default::default()
    });
    oxc_minifier::MinifierOptions { compress, mangle }
}

/// Relies on `oxc_parser::Parser::parse`, `oxc_minifier::Minifier::build` and
/// `oxc_codegen::Codegen::build`: parses `code` as an ES module, minifies it
/// and prints it minified; the panic flag is documented to come with at
/// least one error.
#[verifier::external_body]
pub(crate) fn minify_source(code: &str, options: oxc_minifier::MinifierOptions, map_path: Option<String>) -> (r: MinifyOutput)
    ensures
        r.panicked ==> r.errors@.len() > 0,
{
    let allocator = oxc_allocator::Allocator::default();
    let ret = oxc_parser::Parser::new(&allocator, code, oxc_span::SourceType::mjs()).parse();
    let errors = messages(&ret.errors);
    let mut program = ret.program;
    let scoping = oxc_minifier::Minifier::new(options).build(&allocator, &mut program).scoping;
    let printing = oxc_codegen::CodegenOptions { minify: true, source_map_path: map_path.map(Into::into), ..Default::default() };
    let printed = oxc_codegen::Codegen::new().with_options(printing).with_scoping(scoping).build(&program);
    MinifyOutput { panicked: ret.panicked, errors, code: printed.code, map: printed.map.map(|m| m.to_json_string()) }
}

} // verus!
