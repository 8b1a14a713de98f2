//! The unit an analyzer produces: an error code with explanatory texts.

use vstd::prelude::*;

verus! {

/// Enriched information on one error: a stable code, a message, help text
/// and a fix suggestion.
#[derive(Debug, Clone)]
pub struct ErrorInfo {
    pub code: String,
    pub message: String,
    pub help: String,
    pub suggestion: String,
}

/// The texts of an [`ErrorInfo`] as character sequences.
pub struct ErrorInfoView {
    pub code: Seq<char>,
    pub message: Seq<char>,
    pub help: Seq<char>,
    pub suggestion: Seq<char>,
}

/// The view made of four texts.
pub open spec fn info(code: Seq<char>, message: Seq<char>, help: Seq<char>, suggestion: Seq<char>) -> ErrorInfoView {
    ErrorInfoView { code, message, help, suggestion }
}

/// The last-resort classification of a message that no analyzer claims.
pub open spec fn fallback_info(message: Seq<char>) -> ErrorInfoView {
    info(
        "E0000"@,
        message,
        "Vérifiez la syntaxe autour de cette ligne"@,
        "Consultez la documentation JavaScript/TypeScript"@,
    )
}

impl View for ErrorInfo {
    type V = ErrorInfoView;

    open spec fn view(&self) -> ErrorInfoView {
        info(self.code@, self.message@, self.help@, self.suggestion@)
    }
}

impl ErrorInfo {
    pub fn new(code: &str, message: &str, help: &str, suggestion: &str) -> (r: Self)
        ensures
            r@ == info(code@, message@, help@, suggestion@),
    {
        ErrorInfo {
            code: String::from_str(code),
            message: String::from_str(message),
            help: String::from_str(help),
            suggestion: String::from_str(suggestion),
        }
    }

    /// Creates the generic fallback for `message`.
    pub fn fallback(message: &str) -> (r: Self)
        ensures
            r@ == fallback_info(message@),
    {
        ErrorInfo::new(
            "E0000",
            message,
            "Vérifiez la syntaxe autour de cette ligne",
            "Consultez la documentation JavaScript/TypeScript",
        )
    }
}

} // verus!
