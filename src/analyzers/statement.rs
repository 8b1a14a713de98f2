//! Statements in the wrong context: `return` outside a function, `await`
//! outside an async function, `yield` outside a generator, and `break` or
//! `continue` outside a loop.

use vstd::prelude::*;

use super::ErrorAnalyzer;
use crate::error_info::{fallback_info, info, ErrorInfo, ErrorInfoView};
use crate::text::{chars_of, contains, includes, lower_of, lowercase, push_str, text_of};

verus! {

pub struct StatementAnalyzer;

pub open spec fn statement_claims(message: Seq<char>) -> bool {
    statement_claims_folded(lower_of(message))
}

/// The claim, given the message in lower case.
pub open spec fn statement_claims_folded(m: Seq<char>) -> bool {
    (contains(m, "return"@) && !contains(m, "type"@)) || contains(m, "await"@) || contains(m, "yield"@)
        || contains(m, "break"@) || contains(m, "continue"@)
}

pub open spec fn return_info(snippet: Seq<char>) -> ErrorInfoView {
    if contains(snippet, "<"@) && contains(snippet, ">"@) {
        info(
            "E0040"@,
            "'return' utilisé en dehors d'une fonction"@,
            "En React, le JSX doit être retourné depuis l'intérieur d'une fonction ou composant"@,
            "Placez le return dans une fonction: `function Component() { return <View />; }`"@,
        )
    } else {
        info(
            "E0040"@,
            "'return' utilisé en dehors d'une fonction"@,
            "L'instruction 'return' ne peut être utilisée qu'à l'intérieur du corps d'une fonction"@,
            "Placez le code dans une fonction: `function myFunc() { return value; }`"@,
        )
    }
}

pub open spec fn await_info(snippet: Seq<char>) -> ErrorInfoView {
    if contains(snippet, "function"@) && !contains(snippet, "async"@) {
        info(
            "E0041"@,
            "'await' utilisé dans une fonction non-async"@,
            "L'opérateur 'await' ne peut être utilisé que dans une fonction marquée 'async'"@,
            "Ajoutez 'async' devant 'function': `async function myFunc() { await promise; }`"@,
        )
    } else {
        info(
            "E0041"@,
            "'await' utilisé en dehors d'une fonction async"@,
            "L'opérateur 'await' ne peut être utilisé que dans une fonction marquée 'async'"@,
            "Créez une fonction async: `async function myFunc() { await promise; }` ou utilisez une IIFE: `(async () => { await promise; })()`"@,
        )
    }
}

pub open spec fn yield_info() -> ErrorInfoView {
    info(
        "E0042"@,
        "'yield' utilisé en dehors d'un générateur"@,
        "L'opérateur 'yield' ne peut être utilisé que dans une fonction génératrice (function*)"@,
        "Créez un générateur: `function* myGenerator() { yield value; }`"@,
    )
}

/// The loop keyword a lower-cased message names: `break` where it says
/// so, else `continue`.
pub open spec fn loop_keyword(lower: Seq<char>) -> Seq<char> {
    if contains(lower, "break"@) {
        "break"@
    } else {
        "continue"@
    }
}

pub open spec fn loop_control_info(lower: Seq<char>) -> ErrorInfoView {
    let k = loop_keyword(lower);
    info(
        "E0043"@,
        "'"@ + k + "' utilisé en dehors d'une boucle"@,
        "L'instruction '"@ + k
            + "' ne peut être utilisée qu'à l'intérieur d'une boucle (for, while, do-while)"@,
        "Placez '"@ + k + "' dans une boucle: `for (let i = 0; i < 10; i++) { if (cond) "@ + k
            + " }`"@,
    )
}

pub open spec fn statement_info(message: Seq<char>, snippet: Seq<char>) -> ErrorInfoView {
    statement_info_folded(message, lower_of(message), snippet)
}

/// The analysis, given the message also in lower case.
pub open spec fn statement_info_folded(message: Seq<char>, m: Seq<char>, snippet: Seq<char>) -> ErrorInfoView {
    if contains(m, "return"@) {
        return_info(snippet)
    } else if contains(m, "await"@) {
        await_info(snippet)
    } else if contains(m, "yield"@) {
        yield_info()
    } else if contains(m, "break"@) || contains(m, "continue"@) {
        loop_control_info(m)
    } else {
        fallback_info(message)
    }
}

impl StatementAnalyzer {
    /// Whether this analyzer claims a message, given that message in
    /// lower case.
    pub fn claims_folded(&self, m: &[char]) -> (r: bool)
        ensures
            r == statement_claims_folded(m@),
    {
        (includes(m, "return") && !includes(m, "type")) || includes(m, "await") || includes(m, "yield")
            || includes(m, "break") || includes(m, "continue")
    }

    /// The analysis of `message`, given it also in lower case.
    pub fn analyze_folded(&self, message: &str, m: &[char], snippet: &str) -> (r: ErrorInfo)
        ensures
            r@ == statement_info_folded(message@, m@, snippet@),
    {
        if includes(m, "return") {
            return self.analyze_return_error(snippet);
        }
        if includes(m, "await") {
            return self.analyze_await_error(snippet);
        }
        if includes(m, "yield") {
            return self.analyze_yield_error();
        }
        if includes(m, "break") || includes(m, "continue") {
            return self.analyze_loop_control_error(m);
        }
        ErrorInfo::fallback(message)
    }

    fn analyze_return_error(&self, snippet: &str) -> (r: ErrorInfo)
        ensures
            r@ == return_info(snippet@),
    {
        let s = chars_of(snippet);
        if includes(s.as_slice(), "<") && includes(s.as_slice(), ">") {
            return ErrorInfo::new(
                "E0040",
                "'return' utilisé en dehors d'une fonction",
                "En React, le JSX doit être retourné depuis l'intérieur d'une fonction ou composant",
                "Placez le return dans une fonction: `function Component() { return <View />; }`",
            );
        }
        ErrorInfo::new(
            "E0040",
            "'return' utilisé en dehors d'une fonction",
            "L'instruction 'return' ne peut être utilisée qu'à l'intérieur du corps d'une fonction",
            "Placez le code dans une fonction: `function myFunc() { return value; }`",
        )
    }

    fn analyze_await_error(&self, snippet: &str) -> (r: ErrorInfo)
        ensures
            r@ == await_info(snippet@),
    {
        let s = chars_of(snippet);
        if includes(s.as_slice(), "function") && !includes(s.as_slice(), "async") {
            return ErrorInfo::new(
                "E0041",
                "'await' utilisé dans une fonction non-async",
                "L'opérateur 'await' ne peut être utilisé que dans une fonction marquée 'async'",
                "Ajoutez 'async' devant 'function': `async function myFunc() { await promise; }`",
            );
        }
        ErrorInfo::new(
            "E0041",
            "'await' utilisé en dehors d'une fonction async",
            "L'opérateur 'await' ne peut être utilisé que dans une fonction marquée 'async'",
            "Créez une fonction async: `async function myFunc() { await promise; }` ou utilisez une IIFE: `(async () => { await promise; })()`",
        )
    }

    fn analyze_yield_error(&self) -> (r: ErrorInfo)
        ensures
            r@ == yield_info(),
    {
        ErrorInfo::new(
            "E0042",
            "'yield' utilisé en dehors d'un générateur",
            "L'opérateur 'yield' ne peut être utilisé que dans une fonction génératrice (function*)",
            "Créez un générateur: `function* myGenerator() { yield value; }`",
        )
    }

    fn analyze_loop_control_error(&self, lower: &[char]) -> (r: ErrorInfo)
        ensures
            r@ == loop_control_info(lower@),
    {
        let keyword: &str = if includes(lower, "break") {
            "break"
        } else {
            "continue"
        };
        let mut msg: Vec<char> = Vec::new();
        push_str(&mut msg, "'");
        push_str(&mut msg, keyword);
        push_str(&mut msg, "' utilisé en dehors d'une boucle");
        let mut help: Vec<char> = Vec::new();
        push_str(&mut help, "L'instruction '");
        push_str(&mut help, keyword);
        push_str(&mut help, "' ne peut être utilisée qu'à l'intérieur d'une boucle (for, while, do-while)");
        let mut suggestion: Vec<char> = Vec::new();
        push_str(&mut suggestion, "Placez '");
        push_str(&mut suggestion, keyword);
        push_str(&mut suggestion, "' dans une boucle: `for (let i = 0; i < 10; i++) { if (cond) ");
        push_str(&mut suggestion, keyword);
        push_str(&mut suggestion, " }`");
        let r = ErrorInfo {
            code: String::from_str("E0043"),
            message: text_of(msg.as_slice()),
            help: text_of(help.as_slice()),
            suggestion: text_of(suggestion.as_slice()),
        };
        assert(r@.message =~= loop_control_info(lower@).message);
        assert(r@.help =~= loop_control_info(lower@).help);
        assert(r@.suggestion =~= loop_control_info(lower@).suggestion);
        r
    }
}

impl ErrorAnalyzer for StatementAnalyzer {
    open spec fn claims(&self, message: Seq<char>, snippet: Seq<char>) -> bool {
        statement_claims(message)
    }

    open spec fn analysis(&self, message: Seq<char>, snippet: Seq<char>, column: u32) -> ErrorInfoView {
        statement_info(message, snippet)
    }

    open spec fn rank(&self) -> u8 {
        40
    }

    fn can_analyze(&self, message: &str, _snippet: &str) -> (r: bool) {
        let m = lowercase(message);
        self.claims_folded(m.as_slice())
    }

    fn analyze(&self, message: &str, snippet: &str, _column: u32) -> (r: ErrorInfo) {
        let m = lowercase(message);
        self.analyze_folded(message, m.as_slice(), snippet)
    }

    fn priority(&self) -> (r: u8) {
        40
    }
}

} // verus!
