//! The parser front-end: turns source text into raw errors, a panic flag
//! and the program printed back.

use vstd::prelude::*;

use crate::types::SourceType;
use oxc_diagnostics::OxcDiagnostic;
use oxc_span::SourceType as OxcSourceType;

verus! {

#[verifier::external_type_specification]
#[verifier::external_body]
pub struct ExOxcSourceType(OxcSourceType);

#[verifier::external_type_specification]
#[verifier::external_body]
pub struct ExOxcDiagnostic(OxcDiagnostic);

#[verifier::external_type_specification]
#[verifier::external_body]
pub struct ExOxcDiagnosticInner(oxc_diagnostics::OxcDiagnosticInner);

/// Relies on `OxcDiagnostic`'s `Display`, which writes its message: the
/// message of each diagnostic, in order.
#[verifier::external_body]
pub(crate) fn messages(diagnostics: &Vec<OxcDiagnostic>) -> (r: Vec<String>)
    ensures
        r@.len() == diagnostics@.len(),
{
    diagnostics.iter().map(|d| d.to_string()).collect()
}

/// One error as the parser reports it: its message and the byte offset,
/// in the UTF-8 text, of its first label.
pub struct ReportedError {
    pub message: String,
    pub byte_offset: Option<usize>,
}

/// What one parse reports.
pub struct FrontEndReport {
    pub errors: Vec<ReportedError>,
    pub panicked: bool,
    pub program: String,
}

/// The errors the parser reports on `source`, read as `kind` or, where no
/// kind is given, as the file name's extension says: each message with the
/// byte offset of its first label.
pub uninterp spec fn parsed_errors(filename: Seq<char>, kind: Option<SourceType>, source: Seq<char>) -> Seq<(Seq<char>, Option<usize>)>;

/// Whether the parser gives up on `source` without a usable tree.
pub uninterp spec fn parse_panicked(filename: Seq<char>, kind: Option<SourceType>, source: Seq<char>) -> bool;

/// The program the parser builds from `source`, printed back.
pub uninterp spec fn printed_program(filename: Seq<char>, kind: Option<SourceType>, source: Seq<char>) -> Seq<char>;

/// The (message, byte offset) pairs of reported errors.
pub open spec fn reported(errors: Seq<ReportedError>) -> Seq<(Seq<char>, Option<usize>)> {
    errors.map_values(|e: ReportedError| (e.message@, e.byte_offset))
}

/// Relies on `oxc_span::SourceType`'s constructors and `from_path`: the
/// requested kind, or the kind the file name's extension gives, or the
/// default kind where the extension is unknown.
#[verifier::external_body]
pub(crate) fn oxc_source_type(filename: &str, source_type: Option<SourceType>) -> OxcSourceType {
    match source_type {
        Some(SourceType::Module) => OxcSourceType::mjs(),
        Some(SourceType::Script) => OxcSourceType::cjs(),
        Some(SourceType::Jsx) => OxcSourceType::jsx(),
        Some(SourceType::Tsx) => OxcSourceType::tsx(),
        Some(SourceType::Typescript) => OxcSourceType::ts(),
        None => OxcSourceType::from_path(filename).unwrap_or_default(),
    }
}

/// Relies on `oxc_parser::Parser::parse` and `oxc_codegen::Codegen::build`,
/// which depend on the text and the source kind alone: each syntax error
/// with the byte offset of its first label, the panic flag (documented to
/// come with at least one error), and the program printed.
#[verifier::external_body]
pub(crate) fn parse_source(filename: &str, kind: Option<SourceType>, source: &str) -> (r: FrontEndReport)
    ensures
        reported(r.errors@) == parsed_errors(filename@, kind, source@),
        r.panicked == parse_panicked(filename@, kind, source@),
        r.program@ == printed_program(filename@, kind, source@),
        r.panicked ==> r.errors@.len() > 0,
{
    let allocator = oxc_allocator::Allocator::default();
    let ret = oxc_parser::Parser::new(&allocator, source, oxc_source_type(filename, kind)).parse();
    let errors = ret.errors.iter().map(|e| ReportedError {
        message: e.message.to_string(),
        byte_offset: e.labels.as_ref().and_then(|l| l.first()).map(|l| l.offset()),
    }).collect();
    let program = oxc_codegen::Codegen::new().build(&ret.program).code;
    FrontEndReport { errors, panicked: ret.panicked, program }
}

} // verus!
