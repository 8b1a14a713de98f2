//! The enriched diagnostic record and its terminal rendering.

use vstd::prelude::*;

use crate::text::{chars_of, decimal, lemma_lines_count, lines_of, push_all, push_decimal, push_str, split_lines, text_of, views};

verus! {

pub const RED: &'static str = "\x1b[31m";
pub const YELLOW: &'static str = "\x1b[33m";
pub const BLUE: &'static str = "\x1b[34m";
pub const CYAN: &'static str = "\x1b[36m";
pub const BOLD: &'static str = "\x1b[1m";
pub const RESET: &'static str = "\x1b[0m";

#[derive(Debug, Clone, Copy, PartialEq, Eq, Structural)]
pub enum DiagnosticSeverity {
    Error,
    Warning,
    Info,
    Hint,
}

impl Default for DiagnosticSeverity {
    fn default() -> (r: Self)
        ensures
            r == DiagnosticSeverity::Error,
    {
        DiagnosticSeverity::Error
    }
}

/// One fully enriched, displayable source error.
#[derive(Debug, Clone)]
pub struct Diagnostic {
    pub severity: DiagnosticSeverity,
    pub code: Option<String>,
    pub message: String,
    pub filename: String,
    pub line: u32,
    pub column: u32,
    pub end_line: Option<u32>,
    pub end_column: Option<u32>,
    pub snippet: Option<String>,
    pub label: Option<String>,
    pub help: Option<String>,
    pub suggestion: Option<String>,
    pub formatted: String,
}

impl Default for Diagnostic {
    fn default() -> (r: Self)
        ensures
            r.severity == DiagnosticSeverity::Error,
            r.code is None,
            r.message@.len() == 0,
            r.filename@.len() == 0,
            r.line == 0,
            r.column == 0,
            r.end_line is None,
            r.end_column is None,
            r.snippet is None,
            r.label is None,
            r.help is None,
            r.suggestion is None,
            r.formatted@.len() == 0,
    {
        Diagnostic {
            severity: DiagnosticSeverity::Error,
            code: None,
            message: String::new(),
            filename: String::new(),
            line: 0,
            column: 0,
            end_line: None,
            end_column: None,
            snippet: None,
            label: None,
            help: None,
            suggestion: None,
            formatted: String::new(),
        }
    }
}

/// The characters of an optional text.
pub open spec fn opt_view(o: Option<String>) -> Option<Seq<char>> {
    match o {
        Some(s) => Some(s@),
        None => None,
    }
}

/// The severity's name and its colour.
pub open spec fn severity_style(s: DiagnosticSeverity) -> (Seq<char>, Seq<char>) {
    match s {
        DiagnosticSeverity::Error => ("error"@, RED@),
        DiagnosticSeverity::Warning => ("warning"@, YELLOW@),
        DiagnosticSeverity::Info => ("info"@, CYAN@),
        DiagnosticSeverity::Hint => ("hint"@, BLUE@),
    }
}

/// `n` spaces.
pub open spec fn spaces(n: nat) -> Seq<char> {
    Seq::new(n, |i: int| ' ')
}

/// `d` right-aligned in a field of three characters.
pub open spec fn pad3(d: Seq<char>) -> Seq<char> {
    if d.len() < 3 {
        spaces((3 - d.len()) as nat) + d
    } else {
        d
    }
}

/// One numbered source row of the snippet block.
pub open spec fn snippet_row(number: nat, line: Seq<char>) -> Seq<char> {
    BLUE@ + pad3(decimal(number)) + RESET@ + " "@ + BLUE@ + "|"@ + RESET@ + " "@ + line + "\n"@
}

/// The rows of `lines`, numbered from `first`.
pub open spec fn snippet_rows(lines: Seq<Seq<char>>, first: nat) -> Seq<char>
    decreases lines.len(),
{
    if lines.len() == 0 {
        Seq::empty()
    } else {
        snippet_rows(lines.drop_last(), first) + snippet_row(first + (lines.len() - 1) as nat, lines.last())
    }
}

/// The gutter line that frames the snippet block.
pub open spec fn gutter() -> Seq<char> {
    "   "@ + BLUE@ + "|"@ + RESET@ + "\n"@
}

pub open spec fn header(d: Diagnostic) -> Seq<char> {
    let (name, color) = severity_style(d.severity);
    let code = match opt_view(d.code) {
        Some(c) => "["@ + c + "]"@,
        None => Seq::empty(),
    };
    BOLD@ + color + name + code + ":"@ + RESET@ + " "@ + d.message@ + "\n"@
}

pub open spec fn location(d: Diagnostic) -> Seq<char> {
    "  "@ + BLUE@ + "-->"@ + RESET@ + " "@ + d.filename@ + ":"@ + decimal(d.line as nat) + ":"@
        + decimal(d.column as nat) + "\n"@
}

pub open spec fn caret_line(d: Diagnostic, label: Seq<char>) -> Seq<char> {
    let color = severity_style(d.severity).1;
    let pad = if d.column == 0 { 0nat } else { (d.column - 1) as nat };
    "    "@ + BLUE@ + "|"@ + RESET@ + " "@ + spaces(pad) + color + "^"@ + RESET@ + " "@ + color + label
        + RESET@ + "\n"@
}

pub open spec fn snippet_block(d: Diagnostic) -> Seq<char> {
    match opt_view(d.snippet) {
        Some(s) => gutter() + snippet_rows(lines_of(s), d.line as nat) + match opt_view(d.label) {
            Some(l) => caret_line(d, l),
            None => Seq::empty(),
        } + gutter(),
        None => Seq::empty(),
    }
}

pub open spec fn note_line(kind: Seq<char>, text: Option<Seq<char>>) -> Seq<char> {
    match text {
        Some(t) => "  "@ + BLUE@ + "="@ + RESET@ + " "@ + CYAN@ + kind + ":"@ + RESET@ + " "@ + t + "\n"@,
        None => Seq::empty(),
    }
}

/// The rendered report: header, location, snippet block with optional
/// caret, help and suggestion.
pub open spec fn rendered(d: Diagnostic) -> Seq<char> {
    header(d) + location(d) + snippet_block(d) + note_line("help"@, opt_view(d.help)) + note_line(
        "suggestion"@,
        opt_view(d.suggestion),
    )
}

fn push_spaces(out: &mut Vec<char>, n: usize)
    ensures
        final(out)@ == old(out)@ + spaces(n as nat),
{
    let mut i: usize = 0;
    while i < n
        invariant
            i <= n,
            out@ == old(out)@ + spaces(i as nat),
        decreases n - i,
    {
        out.push(' ');
        i = i + 1;
        assert(spaces(i as nat) =~= spaces((i - 1) as nat) + seq![' ']);
    }
}

fn push_padded(out: &mut Vec<char>, n: u64)
    ensures
        final(out)@ == old(out)@ + pad3(decimal(n as nat)),
{
    let mut digits: Vec<char> = Vec::new();
    push_decimal(&mut digits, n);
    assert(digits@ =~= decimal(n as nat));
    if digits.len() < 3 {
        push_spaces(out, 3 - digits.len());
    }
    push_all(out, digits.as_slice());
    assert(final(out)@ =~= old(out)@ + pad3(decimal(n as nat)));
}

fn push_opt(out: &mut Vec<char>, kind: &str, text: &Option<String>)
    ensures
        final(out)@ == old(out)@ + note_line(kind@, opt_view(*text)),
{
    match text {
        Some(t) => {
            push_str(out, "  ");
            push_str(out, BLUE);
            push_str(out, "=");
            push_str(out, RESET);
            push_str(out, " ");
            push_str(out, CYAN);
            push_str(out, kind);
            push_str(out, ":");
            push_str(out, RESET);
            push_str(out, " ");
            push_str(out, t.as_str());
            push_str(out, "\n");
            assert(final(out)@ =~= old(out)@ + note_line(kind@, opt_view(*text)));
        },
        None => {
            assert(old(out)@ + Seq::<char>::empty() =~= old(out)@);
        },
    }
}

fn push_gutter(out: &mut Vec<char>)
    ensures
        final(out)@ == old(out)@ + gutter(),
{
    push_str(out, "   ");
    push_str(out, BLUE);
    push_str(out, "|");
    push_str(out, RESET);
    push_str(out, "\n");
    assert(final(out)@ =~= old(out)@ + gutter());
}

fn severity_text(severity: DiagnosticSeverity) -> (r: (&'static str, &'static str))
    ensures
        (r.0@, r.1@) == severity_style(severity),
{
    match severity {
        DiagnosticSeverity::Error => ("error", RED),
        DiagnosticSeverity::Warning => ("warning", YELLOW),
        DiagnosticSeverity::Info => ("info", CYAN),
        DiagnosticSeverity::Hint => ("hint", BLUE),
    }
}

fn push_header(out: &mut Vec<char>, d: &Diagnostic)
    ensures
        final(out)@ == old(out)@ + header(*d),
{
    let (severity, color) = severity_text(d.severity);
    push_str(out, BOLD);
    push_str(out, color);
    push_str(out, severity);
    match &d.code {
        Some(c) => {
            push_str(out, "[");
            push_str(out, c.as_str());
            push_str(out, "]");
        },
        None => {},
    }
    push_str(out, ":");
    push_str(out, RESET);
    push_str(out, " ");
    push_str(out, d.message.as_str());
    push_str(out, "\n");
    assert(final(out)@ =~= old(out)@ + header(*d));
}

fn push_location(out: &mut Vec<char>, d: &Diagnostic)
    ensures
        final(out)@ == old(out)@ + location(*d),
{
    push_str(out, "  ");
    push_str(out, BLUE);
    push_str(out, "-->");
    push_str(out, RESET);
    push_str(out, " ");
    push_str(out, d.filename.as_str());
    push_str(out, ":");
    push_decimal(out, d.line as u64);
    push_str(out, ":");
    push_decimal(out, d.column as u64);
    push_str(out, "\n");
    assert(final(out)@ =~= old(out)@ + location(*d));
}

fn push_row(out: &mut Vec<char>, number: u64, line: &[char])
    ensures
        final(out)@ == old(out)@ + snippet_row(number as nat, line@),
{
    push_str(out, BLUE);
    push_padded(out, number);
    push_str(out, RESET);
    push_str(out, " ");
    push_str(out, BLUE);
    push_str(out, "|");
    push_str(out, RESET);
    push_str(out, " ");
    push_all(out, line);
    push_str(out, "\n");
    assert(final(out)@ =~= old(out)@ + snippet_row(number as nat, line@));
}

fn push_rows(out: &mut Vec<char>, snippet: &str, first: u32)
    requires
        snippet@.len() <= u32::MAX,
    ensures
        final(out)@ == old(out)@ + snippet_rows(lines_of(snippet@), first as nat),
{
    let cs = chars_of(snippet);
    let lines = split_lines(cs.as_slice());
    proof {
        lemma_lines_count(cs@);
    }
    let ghost ls = lines_of(snippet@);
    let mut i: usize = 0;
    assert(ls.subrange(0, 0) =~= Seq::<Seq<char>>::empty());
    assert(old(out)@ + Seq::<char>::empty() =~= old(out)@);
    while i < lines.len()
        invariant
            i <= lines@.len(),
            views(lines@) == ls,
            ls.len() <= u32::MAX,
            out@ == old(out)@ + snippet_rows(ls.subrange(0, i as int), first as nat),
        decreases lines@.len() - i,
    {
        let number: u64 = first as u64 + i as u64;
        let ghost before = out@;
        push_row(out, number, lines[i].as_slice());
        assert(ls[i as int] == lines@[i as int]@);
        assert(ls.subrange(0, i + 1).drop_last() =~= ls.subrange(0, i as int));
        assert(out@ =~= old(out)@ + snippet_rows(ls.subrange(0, i + 1), first as nat));
        i = i + 1;
    }
    assert(ls.subrange(0, ls.len() as int) =~= ls);
}

fn push_caret(out: &mut Vec<char>, d: &Diagnostic, label: &str)
    ensures
        final(out)@ == old(out)@ + caret_line(*d, label@),
{
    let (_, color) = severity_text(d.severity);
    let pad: usize = if d.column == 0 { 0 } else { (d.column - 1) as usize };
    push_str(out, "    ");
    push_str(out, BLUE);
    push_str(out, "|");
    push_str(out, RESET);
    push_str(out, " ");
    push_spaces(out, pad);
    push_str(out, color);
    push_str(out, "^");
    push_str(out, RESET);
    push_str(out, " ");
    push_str(out, color);
    push_str(out, label);
    push_str(out, RESET);
    push_str(out, "\n");
    assert(final(out)@ =~= old(out)@ + caret_line(*d, label@));
}

fn push_snippet_block(out: &mut Vec<char>, d: &Diagnostic)
    requires
        d.snippet matches Some(s) ==> s@.len() <= u32::MAX,
    ensures
        final(out)@ == old(out)@ + snippet_block(*d),
{
    match &d.snippet {
        Some(snippet) => {
            push_gutter(out);
            push_rows(out, snippet.as_str(), d.line);
            match &d.label {
                Some(label) => push_caret(out, d, label.as_str()),
                None => {},
            }
            push_gutter(out);
            assert(final(out)@ =~= old(out)@ + snippet_block(*d));
        },
        None => {
            assert(final(out)@ =~= old(out)@ + snippet_block(*d));
        },
    }
}

impl Diagnostic {
    /// The colourised multi-line report of this diagnostic.
    pub fn format(&self) -> (r: String)
        requires
            self.snippet matches Some(s) ==> s@.len() <= u32::MAX,
        ensures
            r@ == rendered(*self),
    {
        let mut out: Vec<char> = Vec::new();
        push_header(&mut out, self);
        push_location(&mut out, self);
        push_snippet_block(&mut out, self);
        push_opt(&mut out, "help", &self.help);
        push_opt(&mut out, "suggestion", &self.suggestion);
        assert(out@ =~= rendered(*self));
        text_of(out.as_slice())
    }
}

} // verus!
