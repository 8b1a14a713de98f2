//! The transformer: TypeScript and JSX lowering for a target, then printing.

use vstd::prelude::*;

use crate::commands::JsxSettings;
use crate::types::JsxRuntime;
use crate::front_end::messages;
use oxc_allocator::Allocator;
use oxc_codegen::{Codegen, CodegenOptions};
use oxc_parser::Parser;
use oxc_semantic::SemanticBuilder;
use oxc_span::SourceType as OxcSourceType;
use oxc_transformer::TransformOptions as OxcTransformOptions;
use oxc_transformer::{EnvOptions, HelperLoaderMode, HelperLoaderOptions, JsxOptions, Transformer};

verus! {

#[verifier::external_type_specification]
#[verifier::external_body]
pub struct ExTransformOptions(OxcTransformOptions);

/// What one transform reports: whether the parse could not recover, its
/// errors, the semantic errors, the transformer's errors, the printed code
/// and the source map.
pub struct TransformOutput {
    pub panicked: bool,
    pub parse_errors: Vec<String>,
    pub semantic_errors: Vec<String>,
    pub errors: Vec<String>,
    pub code: String,
    pub map: Option<String>,
}

/// Relies on `oxc_transformer::EnvOptions::from_target` and the
/// transformer's option types: the environment for `target` (the default
/// one where the target is not understood), helpers imported at run time
/// from `helper_module`, and JSX as `jsx` says where it is given.
#[verifier::external_body]
pub(crate) fn transform_options(target: &str, helper_module: &str, jsx: Option<JsxSettings>) -> OxcTransformOptions {
    let helper_loader = HelperLoaderOptions { module_name: helper_module.to_string().into(), mode: HelperLoaderMode::Runtime };
    let jsx = jsx.map(|j| JsxOptions {
        runtime: match j.runtime {
            JsxRuntime::Classic => oxc_transformer::JsxRuntime::Classic,
            JsxRuntime::Automatic => oxc_transformer::JsxRuntime::Automatic,
        },
        import_source: j.import_source,
        pragma: j.pragma,
        pragma_frag: j.pragma_frag,
        ..Default::default()
    });
    let env = EnvOptions::from_target(target).unwrap_or_default();
    OxcTransformOptions { env, helper_loader, jsx: jsx.unwrap_or_default(), ..Default::default() }
}

/// Relies on `oxc_parser::Parser::parse`, `oxc_semantic::SemanticBuilder::build`,
/// `oxc_transformer::Transformer::build_with_scoping` and
/// `oxc_codegen::Codegen::build`: the errors of each stage and the program
/// printed after the transform; the panic flag is documented to come with
/// at least one parse error.
#[verifier::external_body]
pub(crate) fn transform_source(
    filename: &str,
    source: &str,
    source_type: OxcSourceType,
    options: &OxcTransformOptions,
    map_path: Option<String>,
) -> (r: TransformOutput)
    ensures
        r.panicked ==> r.parse_errors@.len() > 0,
{
    let allocator = Allocator::default();
    let ret = Parser::new(&allocator, source, source_type).parse();
    let mut program = ret.program;
    let semantic = SemanticBuilder::new().build(&program);
    let semantic_errors = messages(&semantic.errors);
    let transformer = Transformer::new(&allocator, filename.as_ref(), options);
    let errors = messages(&transformer.build_with_scoping(semantic.semantic.into_scoping(), &mut program).errors);
    let printing = CodegenOptions { source_map_path: map_path.map(Into::into), ..Default::default() };
    let printed = Codegen::new().with_options(printing).build(&program);
    let map = printed.map.map(|m| m.to_json_string());
    TransformOutput { panicked: ret.panicked, parse_errors: messages(&ret.errors), semantic_errors, errors, code: printed.code, map }
}

} // verus!
