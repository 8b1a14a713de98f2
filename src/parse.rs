//! Building enriched diagnostics from the raw errors a parse produced.

use vstd::prelude::*;

use crate::analyzers::{dispatch, AnalyzerRegistry, BuiltinAnalyzer};
use crate::diagnostic::{opt_view, rendered, Diagnostic, DiagnosticSeverity};
use crate::position::{
    before_offset, char_index_of, char_offset_of, lemma_line_short, lemma_position_counts_lines,
    position_of,
};
use crate::text::{chars_of, count_char, lines_of, split_lines, text_of};
use crate::analyzers::default_analyzers;
use crate::front_end::{parse_source, parse_panicked, parsed_errors, printed_program, reported, FrontEndReport};
use crate::types::SourceType;
use crate::traits::Query;
use crate::types::{FacetpackError, ParseOptions, ParseResult};

verus! {

/// One raw error: its message and, where it carries a label, the character
/// offset the label points at.
#[derive(Debug, Clone)]
pub struct RawParseError {
    pub message: String,
    pub label_offset: Option<usize>,
}

/// A parse request: the file's name, its text and the parse options.
#[derive(Debug, Clone)]
pub struct ParseQuery {
    pub filename: String,
    pub source_text: String,
    pub options: ParseOptions,
}

/// The position a raw error points at: that of its label's offset, or the
/// first column of the first line where it has no label.
pub open spec fn error_position(source: Seq<char>, offset: Option<usize>) -> (nat, nat) {
    match offset {
        Some(o) => position_of(before_offset(source, o as int)),
        None => (1, 1),
    }
}

/// The text of 1-based line `line` (line zero reads as the first), or
/// nothing beyond the last line.
pub open spec fn line_text(source: Seq<char>, line: u32) -> Option<Seq<char>> {
    let idx = if line == 0 { 0 } else { line - 1 };
    if idx < lines_of(source).len() {
        Some(lines_of(source)[idx])
    } else {
        None
    }
}

/// `d` is the diagnostic for the raw error (`message`, `offset`) of file
/// `filename` with text `source`, classified by the analyzers `registry`.
pub open spec fn built_from(
    d: Diagnostic,
    filename: Seq<char>,
    source: Seq<char>,
    registry: Seq<BuiltinAnalyzer>,
    message: Seq<char>,
    offset: Option<usize>,
) -> bool {
    let snippet = match opt_view(d.snippet) {
        Some(s) => s,
        None => Seq::empty(),
    };
    let info = dispatch(registry, message, snippet, d.column);
    &&& d.severity == DiagnosticSeverity::Error
    &&& d.message@ == message
    &&& d.filename@ == filename
    &&& (d.line as nat, d.column as nat) == error_position(source, offset)
    &&& d.end_line is None
    &&& d.end_column is None
    &&& opt_view(d.snippet) == line_text(source, d.line)
    &&& d.label is None
    &&& opt_view(d.code) == Some(info.code)
    &&& opt_view(d.help) == Some(info.help)
    &&& opt_view(d.suggestion) == Some(info.suggestion)
    &&& d.formatted@ == rendered(d)
}

/// `r` is the result of parsing `source` (file `filename`, kind `kind`)
/// and enriching each error the parser reports with the analyzers
/// `registry`: the printed program, the panic flag, and for each error in
/// order its message and its diagnostic.
pub open spec fn parse_result_for(
    r: ParseResult,
    filename: Seq<char>,
    kind: Option<SourceType>,
    source: Seq<char>,
    registry: Seq<BuiltinAnalyzer>,
) -> bool {
    let errs = parsed_errors(filename, kind, source);
    &&& r.program@ == printed_program(filename, kind, source)
    &&& r.panicked == parse_panicked(filename, kind, source)
    &&& r.errors@.len() == errs.len()
    &&& r.diagnostics@.len() == errs.len()
    &&& forall|i: int| 0 <= i < errs.len() ==> (#[trigger] r.errors@[i])@ == errs[i].0
    &&& forall|i: int|
        0 <= i < errs.len() ==> built_from(
            #[trigger] r.diagnostics@[i],
            filename,
            source,
            registry,
            errs[i].0,
            char_offset_of(source, errs[i].1),
        )
}

impl ParseQuery {
    pub fn new(filename: String, source_text: String, options: Option<ParseOptions>) -> (r: Self)
        ensures
            r.filename == filename,
            r.source_text == source_text,
            match options {
                Some(o) => r.options.source_type == o.source_type && r.options.preserve_parens
                    == o.preserve_parens,
                None => r.options.source_type is None && r.options.preserve_parens is None,
            },
    {
        let options = match options {
            Some(o) => o,
            None => ParseOptions::default(),
        };
        ParseQuery { filename, source_text, options }
    }

    /// The 1-based line and column of character offset `offset`; an offset
    /// past the end maps to the position just after the last character.
    pub fn offset_to_line_col(&self, offset: usize) -> (r: (u32, u32))
        requires
            self.source_text@.len() < u32::MAX,
        ensures
            (r.0 as nat, r.1 as nat) == position_of(before_offset(self.source_text@, offset as int)),
            r.0 == 1 + count_char(before_offset(self.source_text@, offset as int), '\n'),
            offset == 0 ==> r == (1u32, 1u32),
    {
        let cs = chars_of(self.source_text.as_str());
        let n: usize = cs.len();
        let stop: usize = if offset < n { offset } else { n };
        let mut line: u32 = 1;
        let mut col: u32 = 1;
        let mut i: usize = 0;
        while i < stop
            invariant
                cs@ == self.source_text@,
                n == cs@.len(),
                n < u32::MAX,
                stop <= n,
                i <= stop,
                (line as nat, col as nat) == position_of(cs@.subrange(0, i as int)),
            decreases stop - i,
        {
            proof {
                lemma_position_counts_lines(cs@.subrange(0, i as int));
                assert(cs@.subrange(0, i + 1).drop_last() =~= cs@.subrange(0, i as int));
            }
            if cs[i] == '\n' {
                line = line + 1;
                col = 1;
            } else {
                col = col + 1;
            }
            i = i + 1;
        }
        proof {
            assert(cs@.subrange(0, stop as int) =~= before_offset(self.source_text@, offset as int));
            lemma_position_counts_lines(before_offset(self.source_text@, offset as int));
            if offset == 0 {
                assert(before_offset(self.source_text@, 0).len() == 0);
            }
        }
        (line, col)
    }

    /// The text of line `line`, counted from one; absent beyond the last
    /// line.
    pub fn get_snippet_at_line(&self, line: u32) -> (r: Option<String>)
        ensures
            opt_view(r) == line_text(self.source_text@, line),
            line > lines_of(self.source_text@).len() ==> r is None,
    {
        let cs = chars_of(self.source_text.as_str());
        let lines = split_lines(cs.as_slice());
        let idx: usize = if line == 0 { 0 } else { (line - 1) as usize };
        if idx < lines.len() {
            let t = text_of(lines[idx].as_slice());
            assert(lines@[idx as int]@ == lines_of(self.source_text@)[idx as int]);
            Some(t)
        } else {
            None
        }
    }

    /// The enriched diagnostic for one raw error: its position and source
    /// line, the registry's classification of its message against that
    /// line and column, and the rendered report.
    pub fn create_diagnostic(&self, registry: &AnalyzerRegistry, error: &RawParseError) -> (r: Diagnostic)
        requires
            self.source_text@.len() < u32::MAX,
        ensures
            built_from(r, self.filename@, self.source_text@, registry@, error.message@, error.label_offset),
    {
        let (line, column) = match error.label_offset {
            Some(offset) => self.offset_to_line_col(offset),
            None => (1u32, 1u32),
        };
        let snippet = self.get_snippet_at_line(line);
        let info = match &snippet {
            Some(s) => registry.analyze(error.message.as_str(), s.as_str(), column),
            None => {
                proof {
                    reveal_strlit("");
                    assert(""@ =~= Seq::<char>::empty());
                }
                registry.analyze(error.message.as_str(), "", column)
            },
        };
        proof {
            match opt_view(snippet) {
                Some(s) => {
                    let idx = if line == 0 { 0 } else { line - 1 };
                    lemma_line_short(self.source_text@, idx as int);
                },
                None => {},
            }
        }
        let mut d = Diagnostic {
            severity: DiagnosticSeverity::Error,
            code: Some(info.code),
            message: error.message.clone(),
            filename: self.filename.clone(),
            line,
            column,
            end_line: None,
            end_column: None,
            snippet,
            label: None,
            help: Some(info.help),
            suggestion: Some(info.suggestion),
            formatted: String::new(),
        };
        d.formatted = d.format();
        proof {
            reveal(built_from);
        }
        d
    }
}


impl ParseQuery {
    /// The parse result for what the front-end reported: the program, the
    /// panic flag, each error's message and its enriched diagnostic, with
    /// the label's byte offset read as a character offset.
    pub fn build_result(&self, registry: &AnalyzerRegistry, report: FrontEndReport) -> (r: ParseResult)
        requires
            self.source_text@.len() < u32::MAX,
        ensures
            r.program@ == report.program@,
            r.panicked == report.panicked,
            r.errors@.len() == report.errors@.len(),
            r.diagnostics@.len() == report.errors@.len(),
            forall|i: int| 0 <= i < report.errors@.len() ==> (#[trigger] r.errors@[i])@ == report.errors@[i].message@,
            forall|i: int|
                0 <= i < report.errors@.len() ==> built_from(
                    #[trigger] r.diagnostics@[i],
                    self.filename@,
                    self.source_text@,
                    registry@,
                    report.errors@[i].message@,
                    char_offset_of(self.source_text@, report.errors@[i].byte_offset),
                ),
    {
        let cs = chars_of(self.source_text.as_str());
        let mut errors: Vec<String> = Vec::new();
        let mut diagnostics: Vec<Diagnostic> = Vec::new();
        let mut i: usize = 0;
        while i < report.errors.len()
            invariant
                self.source_text@.len() < u32::MAX,
                cs@ == self.source_text@,
                i <= report.errors@.len(),
                errors@.len() == i,
                diagnostics@.len() == i,
                forall|k: int| 0 <= k < i ==> (#[trigger] errors@[k])@ == report.errors@[k].message@,
                forall|k: int|
                    0 <= k < i ==> built_from(
                        #[trigger] diagnostics@[k],
                        self.filename@,
                        self.source_text@,
                        registry@,
                        report.errors@[k].message@,
                        char_offset_of(self.source_text@, report.errors@[k].byte_offset),
                    ),
            decreases report.errors@.len() - i,
        {
            let e = &report.errors[i];
            assert(*e == report.errors@[i as int]);
            let label_offset = match e.byte_offset {
                Some(b) => Some(char_index_of(cs.as_slice(), b)),
                None => None,
            };
            let raw = RawParseError { message: e.message.clone(), label_offset };
            assert(raw.label_offset == char_offset_of(self.source_text@, e.byte_offset));
            let message = e.message.clone();
            let d = self.create_diagnostic(registry, &raw);
            let ghost old_errors = errors@;
            let ghost old_diagnostics = diagnostics@;
            errors.push(message);
            diagnostics.push(d);
            assert forall|k: int| 0 <= k < i + 1 implies (#[trigger] errors@[k])@ == report.errors@[k].message@ by {
                if k < i {
                    assert(errors@[k] == old_errors[k]);
                }
            }
            assert forall|k: int| 0 <= k < i + 1 implies built_from(
                #[trigger] diagnostics@[k],
                self.filename@,
                self.source_text@,
                registry@,
                report.errors@[k].message@,
                char_offset_of(self.source_text@, report.errors@[k].byte_offset),
            ) by {
                if k < i {
                    assert(diagnostics@[k] == old_diagnostics[k]);
                }
            }
            i = i + 1;
        }
        ParseResult { program: report.program, errors, diagnostics, panicked: report.panicked }
    }

    /// Parses the source and enriches every error the front-end reports.
    pub fn execute_with(&self, registry: &AnalyzerRegistry) -> (r: ParseResult)
        requires
            self.source_text@.len() < u32::MAX,
        ensures
            parse_result_for(r, self.filename@, self.options.source_type, self.source_text@, registry@),
    {
        let report = parse_source(self.filename.as_str(), self.options.source_type, self.source_text.as_str());
        let ghost raw = report.errors@;
        proof {
            assert forall|i: int| 0 <= i < raw.len() implies #[trigger] reported(raw)[i] == (raw[i].message@, raw[i].byte_offset) by {}
        }
        let r = self.build_result(registry, report);
        r
    }
}

impl Query for ParseQuery {
    type Result = ParseResult;

    fn execute(&self) -> (r: Result<ParseResult, FacetpackError>)
        ensures
            r is Err <==> self.source_text@.len() >= u32::MAX,
            r matches Ok(p) ==> parse_result_for(
                p,
                self.filename@,
                self.options.source_type,
                self.source_text@,
                default_analyzers(),
            ),
    {
        if self.source_text.as_str().unicode_len() >= 4294967295 {
            return Err(FacetpackError::ParseError(String::from_str("source text too long to map positions")));
        }
        let registry = AnalyzerRegistry::new();
        Ok(self.execute_with(&registry))
    }
}

} // verus!
