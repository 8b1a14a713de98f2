//! TypeScript annotation mistakes: empty annotations, untyped parameters,
//! empty generics and writes to read-only properties.

use vstd::prelude::*;

use super::ErrorAnalyzer;
use crate::error_info::{info, ErrorInfo, ErrorInfoView};
use crate::text::{chars_of, contains, includes, lower_of, lowercase};

verus! {

pub struct TypeScriptAnalyzer;

/// The claim, given the message in lower case.
pub open spec fn typescript_claims_folded(lower: Seq<char>, snippet: Seq<char>) -> bool {
    contains(lower, "type"@) || contains(snippet, ": "@)
}

pub open spec fn typescript_claims(message: Seq<char>, snippet: Seq<char>) -> bool {
    typescript_claims_folded(lower_of(message), snippet)
}

pub open spec fn empty_annotation(snippet: Seq<char>) -> bool {
    contains(snippet, ": ="@) || contains(snippet, ":="@) || contains(snippet, ": ;"@)
}

pub open spec fn untyped_parameter(snippet: Seq<char>) -> bool {
    contains(snippet, "("@) && contains(snippet, ":)"@)
}

pub open spec fn empty_generic(snippet: Seq<char>) -> bool {
    contains(snippet, "<>"@) || contains(snippet, "<,"@)
}

/// The lower-cased message speaks of `readonly`.
pub open spec fn readonly_write(lower: Seq<char>) -> bool {
    contains(lower, "readonly"@)
}

pub open spec fn empty_annotation_info() -> ErrorInfoView {
    info(
        "E0020"@,
        "Annotation de type vide"@,
        "Une annotation de type (:) doit être suivie d'un type valide"@,
        "Ajoutez le type: `const x: number = 5` ou `const x: string = 'hello'`"@,
    )
}

pub open spec fn untyped_parameter_info() -> ErrorInfoView {
    info(
        "E0021"@,
        "Type de paramètre manquant"@,
        "Un paramètre avec ':' doit avoir un type spécifié"@,
        "Exemple: `function foo(param: string)` ou utilisez `any` temporairement"@,
    )
}

pub open spec fn empty_generic_info() -> ErrorInfoView {
    info(
        "E0022"@,
        "Générique invalide ou vide"@,
        "Les génériques doivent contenir au moins un type: Array<T>"@,
        "Spécifiez un type: `Array<string>` ou `Promise<void>`"@,
    )
}

pub open spec fn readonly_info() -> ErrorInfoView {
    info(
        "E0023"@,
        "Tentative de modification d'une propriété readonly"@,
        "Les propriétés marquées 'readonly' ne peuvent pas être modifiées après initialisation"@,
        "Retirez 'readonly' si la modification est nécessaire, ou créez une nouvelle instance"@,
    )
}

pub open spec fn typescript_info(message: Seq<char>, snippet: Seq<char>) -> ErrorInfoView {
    typescript_info_folded(message, lower_of(message), snippet)
}

/// The analysis, given the message also in lower case.
pub open spec fn typescript_info_folded(message: Seq<char>, lower: Seq<char>, snippet: Seq<char>) -> ErrorInfoView {
    if empty_annotation(snippet) {
        empty_annotation_info()
    } else if untyped_parameter(snippet) {
        untyped_parameter_info()
    } else if empty_generic(snippet) {
        empty_generic_info()
    } else if readonly_write(lower) {
        readonly_info()
    } else {
        info(
            "E0020"@,
            message,
            "Erreur de syntaxe TypeScript. Vérifiez les annotations de type"@,
            "Consultez: https://www.typescriptlang.org/docs/handbook/2/everyday-types.html"@,
        )
    }
}

impl TypeScriptAnalyzer {
    /// Whether this analyzer claims a message and snippet, given the
    /// message in lower case.
    pub fn claims_folded(&self, lower: &[char], snippet: &[char]) -> (r: bool)
        ensures
            r == typescript_claims_folded(lower@, snippet@),
    {
        includes(lower, "type") || includes(snippet, ": ")
    }

    /// The analysis of `message`, given it also in lower case.
    pub fn analyze_folded(&self, message: &str, lower: &[char], snippet: &str) -> (r: ErrorInfo)
        ensures
            r@ == typescript_info_folded(message@, lower@, snippet@),
    {
        let s = chars_of(snippet);
        if let Some(error) = self.check_empty_type_annotation(s.as_slice()) {
            return error;
        }
        if let Some(error) = self.check_missing_parameter_type(s.as_slice()) {
            return error;
        }
        if let Some(error) = self.check_invalid_generic(s.as_slice()) {
            return error;
        }
        if let Some(error) = self.check_readonly_assignment(lower) {
            return error;
        }
        ErrorInfo::new(
            "E0020",
            message,
            "Erreur de syntaxe TypeScript. Vérifiez les annotations de type",
            "Consultez: https://www.typescriptlang.org/docs/handbook/2/everyday-types.html",
        )
    }

    fn check_empty_type_annotation(&self, snippet: &[char]) -> (r: Option<ErrorInfo>)
        ensures
            match r {
                Some(i) => empty_annotation(snippet@) && i@ == empty_annotation_info(),
                None => !empty_annotation(snippet@),
            },
    {
        if includes(snippet, ": =") || includes(snippet, ":=") || includes(snippet, ": ;") {
            return Some(
                ErrorInfo::new(
                    "E0020",
                    "Annotation de type vide",
                    "Une annotation de type (:) doit être suivie d'un type valide",
                    "Ajoutez le type: `const x: number = 5` ou `const x: string = 'hello'`",
                ),
            );
        }
        None
    }

    fn check_missing_parameter_type(&self, snippet: &[char]) -> (r: Option<ErrorInfo>)
        ensures
            match r {
                Some(i) => untyped_parameter(snippet@) && i@ == untyped_parameter_info(),
                None => !untyped_parameter(snippet@),
            },
    {
        if includes(snippet, "(") && includes(snippet, ":)") {
            return Some(
                ErrorInfo::new(
                    "E0021",
                    "Type de paramètre manquant",
                    "Un paramètre avec ':' doit avoir un type spécifié",
                    "Exemple: `function foo(param: string)` ou utilisez `any` temporairement",
                ),
            );
        }
        None
    }

    fn check_invalid_generic(&self, snippet: &[char]) -> (r: Option<ErrorInfo>)
        ensures
            match r {
                Some(i) => empty_generic(snippet@) && i@ == empty_generic_info(),
                None => !empty_generic(snippet@),
            },
    {
        if includes(snippet, "<>") || includes(snippet, "<,") {
            return Some(
                ErrorInfo::new(
                    "E0022",
                    "Générique invalide ou vide",
                    "Les génériques doivent contenir au moins un type: Array<T>",
                    "Spécifiez un type: `Array<string>` ou `Promise<void>`",
                ),
            );
        }
        None
    }

    fn check_readonly_assignment(&self, lower: &[char]) -> (r: Option<ErrorInfo>)
        ensures
            match r {
                Some(i) => readonly_write(lower@) && i@ == readonly_info(),
                None => !readonly_write(lower@),
            },
    {
        if includes(lower, "readonly") {
            return Some(
                ErrorInfo::new(
                    "E0023",
                    "Tentative de modification d'une propriété readonly",
                    "Les propriétés marquées 'readonly' ne peuvent pas être modifiées après initialisation",
                    "Retirez 'readonly' si la modification est nécessaire, ou créez une nouvelle instance",
                ),
            );
        }
        None
    }
}

impl ErrorAnalyzer for TypeScriptAnalyzer {
    open spec fn claims(&self, message: Seq<char>, snippet: Seq<char>) -> bool {
        typescript_claims(message, snippet)
    }

    open spec fn analysis(&self, message: Seq<char>, snippet: Seq<char>, column: u32) -> ErrorInfoView {
        typescript_info(message, snippet)
    }

    open spec fn rank(&self) -> u8 {
        60
    }

    fn can_analyze(&self, message: &str, snippet: &str) -> (r: bool) {
        let lower = lowercase(message);
        let s = chars_of(snippet);
        self.claims_folded(lower.as_slice(), s.as_slice())
    }

    fn analyze(&self, message: &str, snippet: &str, _column: u32) -> (r: ErrorInfo) {
        let lower = lowercase(message);
        self.analyze_folded(message, lower.as_slice(), snippet)
    }

    fn priority(&self) -> (r: u8) {
        60
    }
}

} // verus!
