//! Unterminated string and template literals.

use vstd::prelude::*;

use super::ErrorAnalyzer;
use crate::error_info::{info, ErrorInfo, ErrorInfoView};
use crate::text::{chars_of, contains, includes, lower_of, lowercase, push_str, text_of};

verus! {

pub struct UnterminatedAnalyzer;

/// The claim, given the message in lower case.
pub open spec fn unterminated_claims_folded(lower: Seq<char>) -> bool {
    contains(lower, "unterminated"@)
}

pub open spec fn unterminated_claims(message: Seq<char>) -> bool {
    unterminated_claims_folded(lower_of(message))
}

/// The quote a string in `snippet` was opened with: a single quote where
/// the snippet holds one and no double quote, else a double quote.
pub open spec fn quote_of(snippet: Seq<char>) -> Seq<char> {
    if contains(snippet, "'"@) && !contains(snippet, "\""@) {
        "'"@
    } else {
        "\""@
    }
}

pub open spec fn unterminated_string_info(snippet: Seq<char>) -> ErrorInfoView {
    info(
        "E0003"@,
        "Chaîne de caractères non terminée"@,
        "Une chaîne de caractères doit être fermée avec le même type de guillemet ("@ + quote_of(snippet)
            + ") qu'à l'ouverture"@,
        "Ajoutez "@ + quote_of(snippet) + " à la fin de la chaîne pour la fermer"@,
    )
}

pub open spec fn unterminated_template_info() -> ErrorInfoView {
    info(
        "E0003"@,
        "Template literal non terminé"@,
        "Un template literal (`) doit être fermé avec un backtick (`)"@,
        "Ajoutez ` à la fin du template literal"@,
    )
}

pub open spec fn unterminated_generic_info(message: Seq<char>) -> ErrorInfoView {
    info(
        "E0003"@,
        message,
        "Un élément de syntaxe n'est pas correctement fermé"@,
        "Vérifiez les guillemets, backticks et autres délimiteurs"@,
    )
}

/// The analysis, given the message also in lower case.
pub open spec fn unterminated_info_folded(message: Seq<char>, lower: Seq<char>, snippet: Seq<char>) -> ErrorInfoView {
    if contains(lower, "string"@) {
        unterminated_string_info(snippet)
    } else if contains(lower, "template"@) {
        unterminated_template_info()
    } else {
        unterminated_generic_info(message)
    }
}

pub open spec fn unterminated_info(message: Seq<char>, snippet: Seq<char>) -> ErrorInfoView {
    unterminated_info_folded(message, lower_of(message), snippet)
}

impl UnterminatedAnalyzer {
    /// Whether this analyzer claims a message, given that message in
    /// lower case.
    pub fn claims_folded(&self, lower: &[char]) -> (r: bool)
        ensures
            r == unterminated_claims_folded(lower@),
    {
        includes(lower, "unterminated")
    }

    /// The analysis of `message`, given it also in lower case.
    pub fn analyze_folded(&self, message: &str, lower: &[char], snippet: &str) -> (r: ErrorInfo)
        ensures
            r@ == unterminated_info_folded(message@, lower@, snippet@),
    {
        if includes(lower, "string") {
            self.analyze_string(snippet)
        } else if includes(lower, "template") {
            self.analyze_template()
        } else {
            self.analyze_generic(message)
        }
    }

    fn analyze_string(&self, snippet: &str) -> (r: ErrorInfo)
        ensures
            r@ == unterminated_string_info(snippet@),
    {
        let s = chars_of(snippet);
        let quote: &str = if includes(s.as_slice(), "'") && !includes(s.as_slice(), "\"") {
            "'"
        } else {
            "\""
        };
        let mut help: Vec<char> = Vec::new();
        push_str(&mut help, "Une chaîne de caractères doit être fermée avec le même type de guillemet (");
        push_str(&mut help, quote);
        push_str(&mut help, ") qu'à l'ouverture");
        let mut suggestion: Vec<char> = Vec::new();
        push_str(&mut suggestion, "Ajoutez ");
        push_str(&mut suggestion, quote);
        push_str(&mut suggestion, " à la fin de la chaîne pour la fermer");
        let r = ErrorInfo {
            code: String::from_str("E0003"),
            message: String::from_str("Chaîne de caractères non terminée"),
            help: text_of(help.as_slice()),
            suggestion: text_of(suggestion.as_slice()),
        };
        assert(r@.help =~= unterminated_string_info(snippet@).help);
        assert(r@.suggestion =~= unterminated_string_info(snippet@).suggestion);
        r
    }

    fn analyze_template(&self) -> (r: ErrorInfo)
        ensures
            r@ == unterminated_template_info(),
    {
        ErrorInfo::new(
            "E0003",
            "Template literal non terminé",
            "Un template literal (`) doit être fermé avec un backtick (`)",
            "Ajoutez ` à la fin du template literal",
        )
    }

    fn analyze_generic(&self, message: &str) -> (r: ErrorInfo)
        ensures
            r@ == unterminated_generic_info(message@),
    {
        ErrorInfo::new(
            "E0003",
            message,
            "Un élément de syntaxe n'est pas correctement fermé",
            "Vérifiez les guillemets, backticks et autres délimiteurs",
        )
    }
}

impl ErrorAnalyzer for UnterminatedAnalyzer {
    open spec fn claims(&self, message: Seq<char>, snippet: Seq<char>) -> bool {
        unterminated_claims(message)
    }

    open spec fn analysis(&self, message: Seq<char>, snippet: Seq<char>, column: u32) -> ErrorInfoView {
        unterminated_info(message, snippet)
    }

    open spec fn rank(&self) -> u8 {
        85
    }

    fn can_analyze(&self, message: &str, _snippet: &str) -> (r: bool) {
        let lower = lowercase(message);
        self.claims_folded(lower.as_slice())
    }

    fn analyze(&self, message: &str, snippet: &str, _column: u32) -> (r: ErrorInfo) {
        let lower = lowercase(message);
        self.analyze_folded(message, lower.as_slice(), snippet)
    }

    fn priority(&self) -> (r: u8) {
        85
    }
}

} // verus!
