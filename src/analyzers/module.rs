//! ES module syntax: `export default =`, named imports without braces and
//! import attributes.

use vstd::prelude::*;

use super::ErrorAnalyzer;
use crate::error_info::{info, ErrorInfo, ErrorInfoView};
use crate::text::{chars_of, contains, includes, lower_of, lowercase};

verus! {

pub struct ModuleAnalyzer;

/// The claim, given the message in lower case.
pub open spec fn module_claims_folded(lower: Seq<char>) -> bool {
    contains(lower, "import"@) || contains(lower, "export"@)
}

pub open spec fn module_claims(message: Seq<char>) -> bool {
    module_claims_folded(lower_of(message))
}

pub open spec fn default_export_assigned(snippet: Seq<char>) -> bool {
    contains(snippet, "export default ="@)
}

/// A value import with several names and no braces, star or `import type`.
pub open spec fn unbraced_named_import(snippet: Seq<char>) -> bool {
    contains(snippet, "import "@) && contains(snippet, " from "@) && !contains(snippet, "{"@)
        && !contains(snippet, "*"@) && !contains(snippet, "import type"@) && contains(snippet, ","@)
}

/// The lower-cased message speaks of an assertion.
pub open spec fn mentions_assertion(lower: Seq<char>) -> bool {
    contains(lower, "assertion"@) || contains(lower, "assert"@)
}

pub open spec fn default_export_info() -> ErrorInfoView {
    info(
        "E0031"@,
        "Syntaxe d'export default invalide"@,
        "L'export default ne nécessite pas le signe '='"@,
        "Utilisez: `export default value` ou `export default function() {}`"@,
    )
}

pub open spec fn named_import_info() -> ErrorInfoView {
    info(
        "E0032"@,
        "Syntaxe d'import nommé invalide"@,
        "Les imports nommés doivent être entre accolades"@,
        "Utilisez: `import { name1, name2 } from 'module'`"@,
    )
}

pub open spec fn import_assertion_info() -> ErrorInfoView {
    info(
        "E0033"@,
        "Assertion d'import invalide"@,
        "Les assertions d'import (import assertions) ont une syntaxe spécifique"@,
        "Utilisez: `import data from './data.json' assert { type: 'json' }`"@,
    )
}

pub open spec fn module_info(message: Seq<char>, snippet: Seq<char>) -> ErrorInfoView {
    module_info_folded(message, lower_of(message), snippet)
}

/// The analysis, given the message also in lower case.
pub open spec fn module_info_folded(message: Seq<char>, lower: Seq<char>, snippet: Seq<char>) -> ErrorInfoView {
    if default_export_assigned(snippet) {
        default_export_info()
    } else if unbraced_named_import(snippet) {
        named_import_info()
    } else if mentions_assertion(lower) {
        import_assertion_info()
    } else {
        info(
            "E0030"@,
            message,
            "Les instructions import/export ne sont valides que dans les modules ES"@,
            "Vérifiez que le fichier est traité comme un module (extension .mjs ou \"type\": \"module\" dans package.json)"@,
        )
    }
}

impl ModuleAnalyzer {
    /// Whether this analyzer claims a message, given that message in
    /// lower case.
    pub fn claims_folded(&self, lower: &[char]) -> (r: bool)
        ensures
            r == module_claims_folded(lower@),
    {
        includes(lower, "import") || includes(lower, "export")
    }

    /// The analysis of `message`, given it also in lower case.
    pub fn analyze_folded(&self, message: &str, lower: &[char], snippet: &str) -> (r: ErrorInfo)
        ensures
            r@ == module_info_folded(message@, lower@, snippet@),
    {
        let s = chars_of(snippet);
        if let Some(error) = self.check_default_export_syntax(s.as_slice()) {
            return error;
        }
        if let Some(error) = self.check_named_import_syntax(s.as_slice()) {
            return error;
        }
        if let Some(error) = self.check_import_assertion(lower) {
            return error;
        }
        ErrorInfo::new(
            "E0030",
            message,
            "Les instructions import/export ne sont valides que dans les modules ES",
            "Vérifiez que le fichier est traité comme un module (extension .mjs ou \"type\": \"module\" dans package.json)",
        )
    }

    fn check_default_export_syntax(&self, snippet: &[char]) -> (r: Option<ErrorInfo>)
        ensures
            match r {
                Some(i) => default_export_assigned(snippet@) && i@ == default_export_info(),
                None => !default_export_assigned(snippet@),
            },
    {
        if includes(snippet, "export default =") {
            return Some(
                ErrorInfo::new(
                    "E0031",
                    "Syntaxe d'export default invalide",
                    "L'export default ne nécessite pas le signe '='",
                    "Utilisez: `export default value` ou `export default function() {}`",
                ),
            );
        }
        None
    }

    fn check_named_import_syntax(&self, snippet: &[char]) -> (r: Option<ErrorInfo>)
        ensures
            match r {
                Some(i) => unbraced_named_import(snippet@) && i@ == named_import_info(),
                None => !unbraced_named_import(snippet@),
            },
    {
        if includes(snippet, "import ") && includes(snippet, " from ") && !includes(snippet, "{")
            && !includes(snippet, "*") && !includes(snippet, "import type") {
            if includes(snippet, ",") {
                return Some(
                    ErrorInfo::new(
                        "E0032",
                        "Syntaxe d'import nommé invalide",
                        "Les imports nommés doivent être entre accolades",
                        "Utilisez: `import { name1, name2 } from 'module'`",
                    ),
                );
            }
        }
        None
    }

    fn check_import_assertion(&self, lower: &[char]) -> (r: Option<ErrorInfo>)
        ensures
            match r {
                Some(i) => mentions_assertion(lower@) && i@ == import_assertion_info(),
                None => !mentions_assertion(lower@),
            },
    {
        if includes(lower, "assertion") || includes(lower, "assert") {
            return Some(
                ErrorInfo::new(
                    "E0033",
                    "Assertion d'import invalide",
                    "Les assertions d'import (import assertions) ont une syntaxe spécifique",
                    "Utilisez: `import data from './data.json' assert { type: 'json' }`",
                ),
            );
        }
        None
    }
}

impl ErrorAnalyzer for ModuleAnalyzer {
    open spec fn claims(&self, message: Seq<char>, snippet: Seq<char>) -> bool {
        module_claims(message)
    }

    open spec fn analysis(&self, message: Seq<char>, snippet: Seq<char>, column: u32) -> ErrorInfoView {
        module_info(message, snippet)
    }

    open spec fn rank(&self) -> u8 {
        50
    }

    fn can_analyze(&self, message: &str, _snippet: &str) -> (r: bool) {
        let lower = lowercase(message);
        self.claims_folded(lower.as_slice())
    }

    fn analyze(&self, message: &str, snippet: &str, _column: u32) -> (r: ErrorInfo) {
        let lower = lowercase(message);
        self.analyze_folded(message, lower.as_slice(), snippet)
    }

    fn priority(&self) -> (r: u8) {
        50
    }
}

} // verus!
