//! Reserved words used as identifiers.

use vstd::prelude::*;

use super::ErrorAnalyzer;
use crate::error_info::{info, ErrorInfo, ErrorInfoView};
use crate::text::{
    ascii_upper, chars_of, contains, includes, includes_seq, lower_of, lowercase, push_str, text_of,
    upper_of,
};

verus! {

pub struct ReservedWordAnalyzer;

/// The words looked for, in the order they are tried.
pub open spec fn reserved_words() -> Seq<Seq<char>> {
    seq![
        "class"@, "const"@, "let"@, "var"@, "function"@, "return"@, "if"@, "else"@,
        "for"@, "while"@, "do"@, "switch"@, "case"@, "break"@, "continue"@,
        "new"@, "this"@, "super"@, "extends"@, "static"@, "public"@, "private"@,
        "protected"@, "import"@, "export"@, "default"@, "async"@, "await"@,
        "try"@, "catch"@, "finally"@, "throw"@, "typeof"@, "instanceof"@,
        "yield"@, "enum"@, "interface"@, "implements"@, "package"@,
    ]
}

fn reserved_word_list() -> (r: Vec<&'static str>)
    ensures
        r@.map_values(|w: &'static str| w@) == reserved_words(),
{
    let r = vec![
        "class", "const", "let", "var", "function", "return", "if", "else",
        "for", "while", "do", "switch", "case", "break", "continue",
        "new", "this", "super", "extends", "static", "public", "private",
        "protected", "import", "export", "default", "async", "await",
        "try", "catch", "finally", "throw", "typeof", "instanceof",
        "yield", "enum", "interface", "implements", "package",
    ];
    assert(r@.map_values(|w: &'static str| w@) =~= reserved_words());
    r
}

/// The claim, given the message in lower case.
pub open spec fn reserved_word_claims_folded(lower: Seq<char>) -> bool {
    contains(lower, "reserved"@) || contains(lower, "keyword"@)
}

pub open spec fn reserved_word_claims(message: Seq<char>) -> bool {
    reserved_word_claims_folded(lower_of(message))
}

/// `snippet` declares a binding named `w` with `const`, `let` or `var`.
pub open spec fn declared_as(snippet: Seq<char>, w: Seq<char>) -> bool {
    contains(snippet, "const "@ + w + " "@) || contains(snippet, "let "@ + w + " "@) || contains(
        snippet,
        "var "@ + w + " "@,
    )
}

/// The first of `words` that `snippet` declares as a binding.
pub open spec fn first_declared(snippet: Seq<char>, words: Seq<Seq<char>>) -> Option<Seq<char>>
    decreases words.len(),
{
    if words.len() == 0 {
        None
    } else if declared_as(snippet, words[0]) {
        Some(words[0])
    } else {
        first_declared(snippet, words.drop_first())
    }
}

/// `w` with its first letter in upper case.
pub open spec fn capitalized(w: Seq<char>) -> Seq<char> {
    if w.len() == 0 {
        w
    } else {
        seq![upper_of(w[0])] + w.drop_first()
    }
}

pub open spec fn rename_suggestion(word: Option<Seq<char>>) -> Seq<char> {
    match word {
        Some(w) => "Choisissez un autre nom: `my"@ + capitalized(w) + "` ou `"@ + w
            + "_value` par exemple"@,
        None => "Choisissez un autre nom pour votre variable"@,
    }
}

pub open spec fn reserved_word_info(snippet: Seq<char>) -> ErrorInfoView {
    let found = first_declared(snippet, reserved_words());
    let shown = match found {
        Some(w) => w,
        None => "(mot réservé)"@,
    };
    info(
        "E0004"@,
        "Utilisation d'un mot réservé comme identifiant"@,
        "Le mot '"@ + shown
            + "' est réservé par JavaScript et ne peut pas être utilisé comme nom de variable"@,
        rename_suggestion(found),
    )
}

/// Whether `snippet` declares `w` after `prefix`.
fn declares(snippet: &[char], prefix: &str, w: &str) -> (r: bool)
    ensures
        r == contains(snippet@, prefix@ + w@ + " "@),
{
    let mut needle: Vec<char> = Vec::new();
    push_str(&mut needle, prefix);
    push_str(&mut needle, w);
    push_str(&mut needle, " ");
    assert(needle@ =~= prefix@ + w@ + " "@);
    includes_seq(snippet, needle.as_slice())
}

impl ReservedWordAnalyzer {
    /// Whether this analyzer claims a message, given that message in
    /// lower case.
    pub fn claims_folded(&self, lower: &[char]) -> (r: bool)
        ensures
            r == reserved_word_claims_folded(lower@),
    {
        includes(lower, "reserved") || includes(lower, "keyword")
    }

    fn find_reserved_word(&self, snippet: &[char]) -> (r: Option<&'static str>)
        ensures
            match r {
                Some(w) => first_declared(snippet@, reserved_words()) == Some(w@),
                None => first_declared(snippet@, reserved_words()) is None,
            },
    {
        let words = reserved_word_list();
        let ghost all = reserved_words();
        let mut k: usize = 0;
        assert(all.subrange(0, all.len() as int) =~= all);
        while k < words.len()
            invariant
                k <= words@.len(),
                words@.map_values(|w: &'static str| w@) == all,
                all == reserved_words(),
                first_declared(snippet@, all) == first_declared(
                    snippet@,
                    all.subrange(k as int, all.len() as int),
                ),
            decreases words@.len() - k,
        {
            let w = words[k];
            let ghost rest = all.subrange(k as int, all.len() as int);
            assert(rest[0] == w@);
            assert(rest.drop_first() =~= all.subrange(k + 1, all.len() as int));
            if declares(snippet, "const ", w) || declares(snippet, "let ", w) || declares(
                snippet,
                "var ",
                w,
            ) {
                return Some(w);
            }
            k = k + 1;
        }
        None
    }

    fn generate_suggestion(&self, word: Option<&str>) -> (r: String)
        ensures
            r@ == rename_suggestion(
                match word {
                    Some(w) => Some(w@),
                    None => None,
                },
            ),
    {
        match word {
            Some(w) => {
                let cs = chars_of(w);
                let mut out: Vec<char> = Vec::new();
                push_str(&mut out, "Choisissez un autre nom: `my");
                if cs.len() > 0 {
                    let first = ascii_upper(cs[0]);
                    out.push(first);
                    let mut i: usize = 1;
                    while i < cs.len()
                        invariant
                            1 <= i <= cs@.len(),
                            cs@ == w@,
                            out@ == "Choisissez un autre nom: `my"@ + seq![upper_of(cs@[0])]
                                + cs@.subrange(1, i as int),
                        decreases cs@.len() - i,
                    {
                        out.push(cs[i]);
                        i = i + 1;
                        assert(cs@.subrange(1, i as int) =~= cs@.subrange(1, i - 1) + seq![cs@[i - 1]]);
                    }
                    assert(cs@.subrange(1, cs@.len() as int) =~= w@.drop_first());
                }
                assert(out@ =~= "Choisissez un autre nom: `my"@ + capitalized(w@));
                push_str(&mut out, "` ou `");
                push_str(&mut out, w);
                push_str(&mut out, "_value` par exemple");
                let r = text_of(out.as_slice());
                assert(r@ =~= rename_suggestion(Some(w@)));
                r
            },
            None => String::from_str("Choisissez un autre nom pour votre variable"),
        }
    }
}

impl ErrorAnalyzer for ReservedWordAnalyzer {
    open spec fn claims(&self, message: Seq<char>, snippet: Seq<char>) -> bool {
        reserved_word_claims(message)
    }

    open spec fn analysis(&self, message: Seq<char>, snippet: Seq<char>, column: u32) -> ErrorInfoView {
        reserved_word_info(snippet)
    }

    open spec fn rank(&self) -> u8 {
        80
    }

    fn can_analyze(&self, message: &str, _snippet: &str) -> (r: bool) {
        let lower = lowercase(message);
        self.claims_folded(lower.as_slice())
    }

    fn analyze(&self, _message: &str, snippet: &str, _column: u32) -> (r: ErrorInfo) {
        let s = chars_of(snippet);
        let found = self.find_reserved_word(s.as_slice());
        let mut help: Vec<char> = Vec::new();
        push_str(&mut help, "Le mot '");
        match found {
            Some(w) => push_str(&mut help, w),
            None => push_str(&mut help, "(mot réservé)"),
        }
        push_str(
            &mut help,
            "' est réservé par JavaScript et ne peut pas être utilisé comme nom de variable",
        );
        let r = ErrorInfo {
            code: String::from_str("E0004"),
            message: String::from_str("Utilisation d'un mot réservé comme identifiant"),
            help: text_of(help.as_slice()),
            suggestion: self.generate_suggestion(found),
        };
        assert(r@.help =~= reserved_word_info(snippet@).help);
        r
    }

    fn priority(&self) -> (r: u8) {
        80
    }
}

} // verus!
