//! Missing closing braces, brackets and parentheses.

use vstd::prelude::*;

use super::ErrorAnalyzer;
use crate::error_info::{info, ErrorInfo, ErrorInfoView};
use crate::text::{chars_of, contains, count_char, count_of, decimal, includes, lower_of, lowercase, push_decimal, push_str, text_of};

verus! {

pub struct UnclosedBracketAnalyzer;

/// The claim, given the message in lower case.
pub open spec fn unclosed_bracket_claims_folded(lower: Seq<char>) -> bool {
    contains(lower, "expected `}`"@) || contains(lower, "expected `]`"@) || contains(lower, "expected `)`"@)
}

pub open spec fn unclosed_bracket_claims(message: Seq<char>) -> bool {
    unclosed_bracket_claims_folded(lower_of(message))
}

/// The bracket family a message names: its French name, opener and closer.
pub open spec fn bracket_kind(message: Seq<char>) -> (Seq<char>, char, char) {
    if contains(message, "}"@) {
        ("accolade"@, '{', '}')
    } else if contains(message, "]"@) {
        ("crochet"@, '[', ']')
    } else {
        ("parenthèse"@, '(', ')')
    }
}

pub open spec fn unclosed_bracket_info(message: Seq<char>, snippet: Seq<char>) -> ErrorInfoView {
    let (name, open, close) = bracket_kind(message);
    info(
        "E0002"@,
        name + " fermante '"@ + seq![close] + "' manquante"@,
        "Il y a "@ + decimal(count_char(snippet, open)) + " '"@ + seq![open]
            + "' ouvrant(s) mais seulement "@ + decimal(count_char(snippet, close)) + " '"@
            + seq![close] + "' fermant(s) dans ce bloc"@,
        "Ajoutez '"@ + seq![close]
            + "' pour fermer le bloc. Astuce: utilisez un éditeur avec coloration des parenthèses"@,
    )
}

impl UnclosedBracketAnalyzer {
    /// Whether this analyzer claims a message, given that message in
    /// lower case.
    pub fn claims_folded(&self, lower: &[char]) -> (r: bool)
        ensures
            r == unclosed_bracket_claims_folded(lower@),
    {
        includes(lower, "expected `}`") || includes(lower, "expected `]`") || includes(lower, "expected `)`")
    }

    fn detect_bracket_type(&self, message: &[char]) -> (r: (&'static str, char, char))
        ensures
            (r.0@, r.1, r.2) == bracket_kind(message@),
    {
        if includes(message, "}") {
            ("accolade", '{', '}')
        } else if includes(message, "]") {
            ("crochet", '[', ']')
        } else {
            ("parenthèse", '(', ')')
        }
    }
}

impl ErrorAnalyzer for UnclosedBracketAnalyzer {
    open spec fn claims(&self, message: Seq<char>, snippet: Seq<char>) -> bool {
        unclosed_bracket_claims(message)
    }

    open spec fn analysis(&self, message: Seq<char>, snippet: Seq<char>, column: u32) -> ErrorInfoView {
        unclosed_bracket_info(message, snippet)
    }

    open spec fn rank(&self) -> u8 {
        90
    }

    fn can_analyze(&self, message: &str, _snippet: &str) -> (r: bool) {
        let lower = lowercase(message);
        self.claims_folded(lower.as_slice())
    }

    fn analyze(&self, message: &str, snippet: &str, _column: u32) -> (r: ErrorInfo) {
        let m = chars_of(message);
        let s = chars_of(snippet);
        let (name, open, close) = self.detect_bracket_type(m.as_slice());
        let open_count = count_of(s.as_slice(), open);
        let close_count = count_of(s.as_slice(), close);

        let mut msg: Vec<char> = Vec::new();
        push_str(&mut msg, name);
        push_str(&mut msg, " fermante '");
        msg.push(close);
        push_str(&mut msg, "' manquante");

        let mut help: Vec<char> = Vec::new();
        push_str(&mut help, "Il y a ");
        push_decimal(&mut help, open_count as u64);
        push_str(&mut help, " '");
        help.push(open);
        push_str(&mut help, "' ouvrant(s) mais seulement ");
        push_decimal(&mut help, close_count as u64);
        push_str(&mut help, " '");
        help.push(close);
        push_str(&mut help, "' fermant(s) dans ce bloc");

        let mut suggestion: Vec<char> = Vec::new();
        push_str(&mut suggestion, "Ajoutez '");
        suggestion.push(close);
        push_str(
            &mut suggestion,
            "' pour fermer le bloc. Astuce: utilisez un éditeur avec coloration des parenthèses",
        );

        let r = ErrorInfo {
            code: String::from_str("E0002"),
            message: text_of(msg.as_slice()),
            help: text_of(help.as_slice()),
            suggestion: text_of(suggestion.as_slice()),
        };
        assert(r@.message =~= unclosed_bracket_info(message@, snippet@).message);
        assert(r@.help =~= unclosed_bracket_info(message@, snippet@).help);
        assert(r@.suggestion =~= unclosed_bracket_info(message@, snippet@).suggestion);
        r
    }

    fn priority(&self) -> (r: u8) {
        90
    }
}

} // verus!
