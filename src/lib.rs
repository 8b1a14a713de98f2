//! Enrichment of raw parser error reports into structured diagnostics:
//! heuristic analyzers and their registry, position and snippet lookup,
//! enclosing-component detection, diagnostic building and rendering; and
//! the requests of the host surface around them.

pub mod analysis;
pub mod analyzers;
pub mod commands;
pub mod context;
pub mod diagnostic;
pub mod error_info;
pub mod front_end;
pub mod minify;
pub mod parse;
pub mod position;
pub mod queries;
pub mod shake;
pub mod text;
pub mod traits;
pub mod transform;
pub mod types;

pub use analysis::summarize;
pub use analyzers::{
    AnalyzerRegistry, BuiltinAnalyzer, ErrorAnalyzer, JsxAnalyzer, ModuleAnalyzer,
    ReservedWordAnalyzer, StatementAnalyzer, TypeScriptAnalyzer, UnclosedBracketAnalyzer,
    UnexpectedTokenAnalyzer, UnterminatedAnalyzer,
};
pub use commands::{
    CompressSettings, JsxSettings, MangleSettings, MinifyCommand, MinifySettings, ShakeCommand,
    TransformCommand, TransformSettings,
};
pub use context::ComponentContextDetector;
pub use diagnostic::{Diagnostic, DiagnosticSeverity};
pub use error_info::ErrorInfo;
pub use minify::MinifyOutput;
pub use parse::{ParseQuery, RawParseError};
pub use queries::{
    AnalyzeBatchQuery, AnalyzeQuery, FacetPack, ResolveBatchQuery, ResolveQuery, ResolveResult,
    ResolverOptions,
};
pub use shake::{shake_exports, ImportSpec, ModuleItem};
pub use traits::{Command, CommandHandler, Query, QueryHandler};
pub use transform::TransformOutput;
pub use types::{
    join_lines, ExportInfo, FacetpackError, ImportInfo, JsxRuntime, MinifyOptions, MinifyResult,
    ModuleAnalysis, ModuleInput, ParseOptions, ParseResult, ShakeResult, SourceType,
    TransformOptions, TransformResult,
};
