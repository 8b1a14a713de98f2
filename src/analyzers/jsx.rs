//! JSX attribute mistakes: string styles, `class`, lower-case event
//! handlers and `for`.

use vstd::prelude::*;

use super::ErrorAnalyzer;
use crate::error_info::{info, ErrorInfo, ErrorInfoView};
use crate::text::{ascii_upper, chars_of, contains, includes, includes_seq, lower_of, lowercase, push_str, text_of, upper_of};

verus! {

pub struct JsxAnalyzer;

pub open spec fn jsx_claims(message: Seq<char>, snippet: Seq<char>) -> bool {
    jsx_claims_folded(lower_of(message), snippet)
}

/// The claim, given the message in lower case.
pub open spec fn jsx_claims_folded(lower: Seq<char>, snippet: Seq<char>) -> bool {
    contains(lower, "jsx"@) || (contains(snippet, "<"@) && (contains(snippet, "/>"@)
        || contains(snippet, "</"@)))
}

/// The lower-case DOM event names looked for, in order.
pub open spec fn lowercase_handlers() -> Seq<Seq<char>> {
    seq!["onclick"@, "onchange"@, "onsubmit"@, "onfocus"@, "onblur"@, "onmouseover"@]
}

/// An event name with the letter after `on` in upper case.
pub open spec fn camel(h: Seq<char>) -> Seq<char> {
    if h.len() < 3 {
        h
    } else {
        h.subrange(0, 2) + seq![upper_of(h[2])] + h.subrange(3, h.len() as int)
    }
}

/// The first of `handlers` that the lower-cased snippet `lower` holds while
/// the snippet lacks its camel-cased form.
pub open spec fn first_lowercase_handler(snippet: Seq<char>, lower: Seq<char>, handlers: Seq<Seq<char>>) -> Option<Seq<char>>
    decreases handlers.len(),
{
    if handlers.len() == 0 {
        None
    } else if contains(lower, handlers[0]) && !contains(snippet, camel(handlers[0])) {
        Some(handlers[0])
    } else {
        first_lowercase_handler(snippet, lower, handlers.drop_first())
    }
}

pub open spec fn style_misused(snippet: Seq<char>) -> bool {
    contains(snippet, "style="@) && !contains(snippet, "style={{"@) && !contains(snippet, "style={"@)
}

pub open spec fn class_misused(snippet: Seq<char>) -> bool {
    contains(snippet, "class="@) && !contains(snippet, "className="@)
}

pub open spec fn for_misused(snippet: Seq<char>) -> bool {
    contains(snippet, "for="@) && !contains(snippet, "htmlFor="@)
}

pub open spec fn style_info() -> ErrorInfoView {
    info(
        "E0010"@,
        "Syntaxe de style JSX invalide"@,
        "En JSX/React Native, les styles doivent être passés comme objet JavaScript"@,
        "Utilisez: `style={{ prop: value }}` ou `style={styles.nomDuStyle}`"@,
    )
}

pub open spec fn class_info() -> ErrorInfoView {
    info(
        "E0011"@,
        "Attribut 'class' invalide en JSX"@,
        "En JSX, utilisez 'className' au lieu de 'class' pour les classes CSS"@,
        "Remplacez `class=` par `className=`"@,
    )
}

pub open spec fn handler_info(h: Seq<char>) -> ErrorInfoView {
    info(
        "E0012"@,
        "Gestionnaire d'événement en minuscules"@,
        "En JSX, les gestionnaires d'événements utilisent le camelCase"@,
        "Utilisez `"@ + camel(h) + "` au lieu de `"@ + h + "`. Pour React Native, utilisez `onPress`"@,
    )
}

pub open spec fn for_info() -> ErrorInfoView {
    info(
        "E0013"@,
        "Attribut 'for' invalide en JSX"@,
        "En JSX, utilisez 'htmlFor' au lieu de 'for' pour les labels"@,
        "Remplacez `for=` par `htmlFor=`"@,
    )
}

pub open spec fn jsx_info(message: Seq<char>, snippet: Seq<char>) -> ErrorInfoView {
    jsx_info_folded(message, snippet, lower_of(snippet))
}

/// The analysis, given the snippet also in lower case.
pub open spec fn jsx_info_folded(message: Seq<char>, snippet: Seq<char>, lower: Seq<char>) -> ErrorInfoView {
    if style_misused(snippet) {
        style_info()
    } else if class_misused(snippet) {
        class_info()
    } else if first_lowercase_handler(snippet, lower, lowercase_handlers()) is Some {
        handler_info(first_lowercase_handler(snippet, lower, lowercase_handlers())->0)
    } else if for_misused(snippet) {
        for_info()
    } else {
        info(
            "E0010"@,
            message,
            "Erreur de syntaxe JSX. Vérifiez les balises, attributs et expressions"@,
            "Les expressions JS doivent être entre accolades: `{expression}`"@,
        )
    }
}

impl JsxAnalyzer {
    /// Whether this analyzer claims a message and snippet, given the
    /// message in lower case.
    pub fn claims_folded(&self, lower: &[char], snippet: &[char]) -> (r: bool)
        ensures
            r == jsx_claims_folded(lower@, snippet@),
    {
        includes(lower, "jsx") || (includes(snippet, "<") && (includes(snippet, "/>") || includes(snippet, "</")))
    }

    /// The analysis of a message and snippet, given the snippet also in
    /// lower case.
    pub fn analyze_folded(&self, message: &str, snippet: &str, lower: &[char]) -> (r: ErrorInfo)
        ensures
            r@ == jsx_info_folded(message@, snippet@, lower@),
    {
        let s = chars_of(snippet);
        if let Some(error) = self.check_style_syntax(s.as_slice()) {
            return error;
        }
        if let Some(error) = self.check_class_attribute(s.as_slice()) {
            return error;
        }
        if let Some(error) = self.check_event_handlers(s.as_slice(), lower) {
            return error;
        }
        if let Some(error) = self.check_for_attribute(s.as_slice()) {
            return error;
        }
        ErrorInfo::new(
            "E0010",
            message,
            "Erreur de syntaxe JSX. Vérifiez les balises, attributs et expressions",
            "Les expressions JS doivent être entre accolades: `{expression}`",
        )
    }

    fn check_style_syntax(&self, snippet: &[char]) -> (r: Option<ErrorInfo>)
        ensures
            match r {
                Some(i) => style_misused(snippet@) && i@ == style_info(),
                None => !style_misused(snippet@),
            },
    {
        if includes(snippet, "style=") && !includes(snippet, "style={{") && !includes(snippet, "style={") {
            return Some(
                ErrorInfo::new(
                    "E0010",
                    "Syntaxe de style JSX invalide",
                    "En JSX/React Native, les styles doivent être passés comme objet JavaScript",
                    "Utilisez: `style={{ prop: value }}` ou `style={styles.nomDuStyle}`",
                ),
            );
        }
        None
    }

    fn check_class_attribute(&self, snippet: &[char]) -> (r: Option<ErrorInfo>)
        ensures
            match r {
                Some(i) => class_misused(snippet@) && i@ == class_info(),
                None => !class_misused(snippet@),
            },
    {
        if includes(snippet, "class=") && !includes(snippet, "className=") {
            return Some(
                ErrorInfo::new(
                    "E0011",
                    "Attribut 'class' invalide en JSX",
                    "En JSX, utilisez 'className' au lieu de 'class' pour les classes CSS",
                    "Remplacez `class=` par `className=`",
                ),
            );
        }
        None
    }

    fn check_event_handlers(&self, s: &[char], lower: &[char]) -> (r: Option<ErrorInfo>)
        ensures
            match r {
                Some(i) => first_lowercase_handler(s@, lower@, lowercase_handlers()) is Some
                    && i@ == handler_info(first_lowercase_handler(s@, lower@, lowercase_handlers())->0),
                None => first_lowercase_handler(s@, lower@, lowercase_handlers()) is None,
            },
    {
        let handlers = vec!["onclick", "onchange", "onsubmit", "onfocus", "onblur", "onmouseover"];
        let ghost all = lowercase_handlers();
        assert(handlers@.map_values(|h: &str| h@) =~= all);
        assert(all.subrange(0, all.len() as int) =~= all);
        let mut k: usize = 0;
        while k < handlers.len()
            invariant
                k <= handlers@.len(),
                handlers@.map_values(|h: &str| h@) == all,
                all == lowercase_handlers(),
                first_lowercase_handler(s@, lower@, all) == first_lowercase_handler(
                    s@,
                    lower@,
                    all.subrange(k as int, all.len() as int),
                ),
            decreases handlers@.len() - k,
        {
            let handler = handlers[k];
            let ghost rest = all.subrange(k as int, all.len() as int);
            assert(rest[0] == handler@);
            assert(rest.drop_first() =~= all.subrange(k + 1, all.len() as int));
            let camel_form = self.to_camel_case(handler);
            if includes(lower, handler) && !includes_seq(s, camel_form.as_slice()) {
                let mut suggestion: Vec<char> = Vec::new();
                push_str(&mut suggestion, "Utilisez `");
                let again = self.to_camel_case(handler);
                crate::text::push_all(&mut suggestion, again.as_slice());
                push_str(&mut suggestion, "` au lieu de `");
                push_str(&mut suggestion, handler);
                push_str(&mut suggestion, "`. Pour React Native, utilisez `onPress`");
                let r = ErrorInfo {
                    code: String::from_str("E0012"),
                    message: String::from_str("Gestionnaire d'événement en minuscules"),
                    help: String::from_str("En JSX, les gestionnaires d'événements utilisent le camelCase"),
                    suggestion: text_of(suggestion.as_slice()),
                };
                assert(r@.suggestion =~= handler_info(handler@).suggestion);
                return Some(r);
            }
            k = k + 1;
        }
        None
    }

    fn check_for_attribute(&self, snippet: &[char]) -> (r: Option<ErrorInfo>)
        ensures
            match r {
                Some(i) => for_misused(snippet@) && i@ == for_info(),
                None => !for_misused(snippet@),
            },
    {
        if includes(snippet, "for=") && !includes(snippet, "htmlFor=") {
            return Some(
                ErrorInfo::new(
                    "E0013",
                    "Attribut 'for' invalide en JSX",
                    "En JSX, utilisez 'htmlFor' au lieu de 'for' pour les labels",
                    "Remplacez `for=` par `htmlFor=`",
                ),
            );
        }
        None
    }

    fn to_camel_case(&self, handler: &str) -> (r: Vec<char>)
        ensures
            r@ == camel(handler@),
    {
        let h = chars_of(handler);
        if h.len() < 3 {
            return h;
        }
        let mut out: Vec<char> = Vec::new();
        out.push(h[0]);
        out.push(h[1]);
        let up = ascii_upper(h[2]);
        out.push(up);
        let mut i: usize = 3;
        while i < h.len()
            invariant
                3 <= i <= h@.len(),
                h@ == handler@,
                out@ == h@.subrange(0, 2) + seq![upper_of(h@[2])] + h@.subrange(3, i as int),
            decreases h@.len() - i,
        {
            out.push(h[i]);
            i = i + 1;
            assert(h@.subrange(3, i as int) =~= h@.subrange(3, i - 1) + seq![h@[i - 1]]);
        }
        assert(out@ =~= camel(handler@));
        out
    }
}

impl ErrorAnalyzer for JsxAnalyzer {
    open spec fn claims(&self, message: Seq<char>, snippet: Seq<char>) -> bool {
        jsx_claims(message, snippet)
    }

    open spec fn analysis(&self, message: Seq<char>, snippet: Seq<char>, column: u32) -> ErrorInfoView {
        jsx_info(message, snippet)
    }

    open spec fn rank(&self) -> u8 {
        70
    }

    fn can_analyze(&self, message: &str, snippet: &str) -> (r: bool) {
        let lower = lowercase(message);
        let s = chars_of(snippet);
        self.claims_folded(lower.as_slice(), s.as_slice())
    }

    fn analyze(&self, message: &str, snippet: &str, _column: u32) -> (r: ErrorInfo) {
        let lower = lowercase(snippet);
        self.analyze_folded(message, snippet, lower.as_slice())
    }

    fn priority(&self) -> (r: u8) {
        70
    }
}

} // verus!
