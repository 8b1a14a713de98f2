//! Unexpected tokens: doubled operators, missing right-hand values and
//! incomplete JSX attributes.

use vstd::prelude::*;

use super::ErrorAnalyzer;
use crate::error_info::{info, ErrorInfo, ErrorInfoView};
use crate::text::{
    chars_of, contains, ends_trimmed_with, includes, lines_of, lower_of, lowercase, push_all, push_str,
    replace, replace_all, split_lines, text_of, trim_end,
};

verus! {

pub struct UnexpectedTokenAnalyzer;

/// The first line of `s`, or nothing where `s` has none.
pub open spec fn first_line(s: Seq<char>) -> Seq<char> {
    if lines_of(s).len() > 0 {
        lines_of(s)[0]
    } else {
        Seq::empty()
    }
}

/// The claim, given the message in lower case.
pub open spec fn unexpected_token_claims_folded(lower: Seq<char>) -> bool {
    contains(lower, "unexpected token"@) || contains(lower, "expected expression"@)
}

pub open spec fn unexpected_token_claims(message: Seq<char>) -> bool {
    unexpected_token_claims_folded(lower_of(message))
}

impl UnexpectedTokenAnalyzer {
    /// Whether this analyzer claims a message, given that message in
    /// lower case.
    pub fn claims_folded(&self, lower: &[char]) -> (r: bool)
        ensures
            r == unexpected_token_claims_folded(lower@),
    {
        includes(lower, "unexpected token") || includes(lower, "expected expression")
    }
}

/// The line with each doubled `=` written as one operator.
pub open spec fn joined_operators(line: Seq<char>) -> Seq<char> {
    replace(replace(line, "= = ="@, "==="@), "= ="@, "=="@)
}

/// The line ends, ignoring whitespace, with `=`, or holds `=` at the
/// zero-based position `column - 1` (column zero reads as the first).
pub open spec fn value_missing(line: Seq<char>, column: u32) -> bool {
    let col = if column == 0 { 0 } else { column - 1 };
    (trim_end(line).len() > 0 && trim_end(line).last() == '=') || (col < line.len() && line[col] == '=')
}

pub open spec fn unexpected_token_info(message: Seq<char>, snippet: Seq<char>, column: u32) -> ErrorInfoView {
    let line = first_line(snippet);
    if contains(line, "= ="@) || contains(line, "= = ="@) {
        info(
            "E0001"@,
            "Opérateur double invalide détecté"@,
            "Deux opérateurs '=' consécutifs ne sont pas valides. Peut-être vouliez-vous '==' ou '==='?"@,
            "Remplacez '= =' par '==' pour une comparaison, ou retirez un '=' si c'est une affectation: `"@
                + joined_operators(line) + "`"@,
        )
    } else if value_missing(line, column) {
        info(
            "E0001"@,
            "Expression manquante après l'opérateur d'affectation"@,
            "L'opérateur '=' nécessite une valeur à droite"@,
            "Ajoutez une valeur après '=': `const x = 5` ou `const x = getValue()`"@,
        )
    } else if contains(snippet, "style="@) && contains(snippet, ">"@) {
        info(
            "E0010"@,
            "Attribut JSX incomplet"@,
            "Un attribut JSX doit avoir une valeur. Pour les styles, utilisez un objet JavaScript"@,
            "Exemple: `style={{ color: 'red' }}` ou `style={styles.container}`"@,
        )
    } else {
        info(
            "E0001"@,
            message,
            "Un token inattendu a été trouvé. Vérifiez les opérateurs, parenthèses et virgules"@,
            "Vérifiez qu'il n'y a pas de caractère manquant ou en trop près de l'erreur"@,
        )
    }
}

impl ErrorAnalyzer for UnexpectedTokenAnalyzer {
    open spec fn claims(&self, message: Seq<char>, snippet: Seq<char>) -> bool {
        unexpected_token_claims(message)
    }

    open spec fn analysis(&self, message: Seq<char>, snippet: Seq<char>, column: u32) -> ErrorInfoView {
        unexpected_token_info(message, snippet, column)
    }

    open spec fn rank(&self) -> u8 {
        100
    }

    fn can_analyze(&self, message: &str, _snippet: &str) -> (r: bool) {
        let lower = lowercase(message);
        self.claims_folded(lower.as_slice())
    }

    fn analyze(&self, message: &str, snippet: &str, column: u32) -> (r: ErrorInfo) {
        let col: usize = if column == 0 { 0 } else { (column - 1) as usize };
        let all = chars_of(snippet);
        let lines = split_lines(all.as_slice());
        let mut line: Vec<char> = Vec::new();
        if lines.len() > 0 {
            push_all(&mut line, lines[0].as_slice());
            assert(line@ == lines_of(snippet@)[0]);
        }
        assert(line@ =~= first_line(snippet@));
        if includes(line.as_slice(), "= =") || includes(line.as_slice(), "= = =") {
            let once = replace_all(line.as_slice(), "= = =", "===");
            let joined = replace_all(once.as_slice(), "= =", "==");
            let mut suggestion: Vec<char> = Vec::new();
            push_str(
                &mut suggestion,
                "Remplacez '= =' par '==' pour une comparaison, ou retirez un '=' si c'est une affectation: `",
            );
            push_all(&mut suggestion, joined.as_slice());
            push_str(&mut suggestion, "`");
            let mut r = ErrorInfo::new(
                "E0001",
                "Opérateur double invalide détecté",
                "Deux opérateurs '=' consécutifs ne sont pas valides. Peut-être vouliez-vous '==' ou '==='?",
                "",
            );
            r.suggestion = text_of(suggestion.as_slice());
            return r;
        }
        if ends_trimmed_with(line.as_slice(), '=') || (col < line.len() && line[col] == '=') {
            return ErrorInfo::new(
                "E0001",
                "Expression manquante après l'opérateur d'affectation",
                "L'opérateur '=' nécessite une valeur à droite",
                "Ajoutez une valeur après '=': `const x = 5` ou `const x = getValue()`",
            );
        }
        if includes(all.as_slice(), "style=") && includes(all.as_slice(), ">") {
            return ErrorInfo::new(
                "E0010",
                "Attribut JSX incomplet",
                "Un attribut JSX doit avoir une valeur. Pour les styles, utilisez un objet JavaScript",
                "Exemple: `style={{ color: 'red' }}` ou `style={styles.container}`",
            );
        }
        ErrorInfo::new(
            "E0001",
            message,
            "Un token inattendu a été trouvé. Vérifiez les opérateurs, parenthèses et virgules",
            "Vérifiez qu'il n'y a pas de caractère manquant ou en trop près de l'erreur",
        )
    }

    fn priority(&self) -> (r: u8) {
        100
    }
}

} // verus!
