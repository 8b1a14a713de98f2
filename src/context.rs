//! Finding the component, class component or hook declared nearest above a
//! line of source.

use vstd::prelude::*;

use crate::diagnostic::opt_view;
use crate::text::{chars_of, contains, includes, lines_of, push_str, split_lines, text_of, views};

verus! {

/// A function component: `function Name`, optionally after `export` and
/// `default`.
pub const FUNCTION_COMPONENT: &'static str = "(?:export\\s+)?(?:default\\s+)?function\\s+([A-Z][a-zA-Z0-9]*)";

/// A component bound with `const Name =`.
pub const CONST_COMPONENT: &'static str = "const\\s+([A-Z][a-zA-Z0-9]*)\\s*=";

/// A component bound with `export const Name =`.
pub const EXPORTED_COMPONENT: &'static str = "export\\s+const\\s+([A-Z][a-zA-Z0-9]*)\\s*=";

/// A class named with a capital letter.
pub const CLASS_COMPONENT: &'static str = "class\\s+([A-Z][a-zA-Z0-9]*)";

/// A hook: `const` or `function` followed by `use` and a capital letter.
pub const HOOK: &'static str = "(?:const|function)\\s+(use[A-Z][a-zA-Z0-9]*)";

/// What the first capture group of the leftmost match of the regular
/// expression `pattern` in `haystack` holds; nothing where the pattern does
/// not compile, does not match, or the group takes no part in the match.
pub uninterp spec fn regex_group(pattern: Seq<char>, haystack: Seq<char>) -> Option<Seq<char>>;

/// Relies on `regex::Regex::new` and `regex::Regex::captures`: compiles
/// `pattern` and reads group 1 of its leftmost-first match in `haystack`.
#[verifier::external_body]
fn first_group(pattern: &str, haystack: &str) -> (r: Option<String>)
    ensures
        opt_view(r) == regex_group(pattern@, haystack@),
{
    match regex::Regex::new(pattern) {
        Ok(re) => re.captures(haystack).and_then(|c| c.get(1)).map(|m| m.as_str().to_string()),
        Err(_) => None,
    }
}

/// The component name a line declares, by the first of the component
/// patterns that matches.
pub open spec fn component_name(line: Seq<char>) -> Option<Seq<char>> {
    if regex_group(FUNCTION_COMPONENT@, line) is Some {
        regex_group(FUNCTION_COMPONENT@, line)
    } else if regex_group(CONST_COMPONENT@, line) is Some {
        regex_group(CONST_COMPONENT@, line)
    } else {
        regex_group(EXPORTED_COMPONENT@, line)
    }
}

/// What a line declares, given the names the patterns found in it: a
/// component first; else a class component where the line has `class ` and
/// `extends`; else a hook where it has `const use` or `function use`.
pub open spec fn line_context(
    line: Seq<char>,
    component: Option<Seq<char>>,
    class_name: Option<Seq<char>>,
    hook: Option<Seq<char>>,
) -> Option<Seq<char>> {
    if component is Some {
        Some("Component: "@ + component->0)
    } else if contains(line, "class "@) && contains(line, "extends"@) && class_name is Some {
        Some("Class: "@ + class_name->0)
    } else if (contains(line, "const use"@) || contains(line, "function use"@)) && hook is Some {
        Some("Hook: "@ + hook->0)
    } else {
        None
    }
}

/// What a line declares, by the patterns.
pub open spec fn context_of(line: Seq<char>) -> Option<Seq<char>> {
    line_context(line, component_name(line), regex_group(CLASS_COMPONENT@, line), regex_group(HOOK@, line))
}

/// The first declaration found scanning upward from line index `i` to the
/// top; an index past the last line reads as an empty line.
pub open spec fn scan_up(lines: Seq<Seq<char>>, i: int) -> Option<Seq<char>>
    decreases i + 1,
{
    if i < 0 {
        None
    } else {
        let l = if i < lines.len() { lines[i] } else { Seq::empty() };
        if context_of(l) is Some {
            context_of(l)
        } else {
            scan_up(lines, i - 1)
        }
    }
}

/// The context of 1-based line `line` of `source`: the scan starts at that
/// line, or at the last line where it lies beyond.
pub open spec fn context_at(source: Seq<char>, line: u32) -> Option<Seq<char>> {
    let lines = lines_of(source);
    let start = if line == 0 { 0 } else { line - 1 };
    let last = if lines.len() == 0 { 0 } else { lines.len() - 1 };
    scan_up(lines, if start < last { start } else { last })
}

/// Detects the declaration that encloses, or most nearly precedes, a line.
pub struct ComponentContextDetector<'a> {
    pub source_text: &'a str,
}

impl<'a> ComponentContextDetector<'a> {
    pub fn new(source_text: &'a str) -> (r: Self)
        ensures
            r.source_text@ == source_text@,
    {
        ComponentContextDetector { source_text }
    }

    /// The description of what `line` declares, given the names found in
    /// it by the component, class and hook patterns.
    pub fn describe_line(
        line: &str,
        component: Option<String>,
        class_name: Option<String>,
        hook: Option<String>,
    ) -> (r: Option<String>)
        ensures
            opt_view(r) == line_context(line@, opt_view(component), opt_view(class_name), opt_view(hook)),
    {
        let l = chars_of(line);
        let mut out: Vec<char> = Vec::new();
        if let Some(name) = component {
            push_str(&mut out, "Component: ");
            push_str(&mut out, name.as_str());
            return Some(text_of(out.as_slice()));
        }
        if includes(l.as_slice(), "class ") && includes(l.as_slice(), "extends") {
            if let Some(name) = class_name {
                push_str(&mut out, "Class: ");
                push_str(&mut out, name.as_str());
                return Some(text_of(out.as_slice()));
            }
        }
        if includes(l.as_slice(), "const use") || includes(l.as_slice(), "function use") {
            if let Some(name) = hook {
                push_str(&mut out, "Hook: ");
                push_str(&mut out, name.as_str());
                return Some(text_of(out.as_slice()));
            }
        }
        None
    }

    fn extract_function_component(&self, line: &str) -> (r: Option<String>)
        ensures
            opt_view(r) == component_name(line@),
    {
        let by_function = first_group(FUNCTION_COMPONENT, line);
        if by_function.is_some() {
            return by_function;
        }
        let by_const = first_group(CONST_COMPONENT, line);
        if by_const.is_some() {
            return by_const;
        }
        first_group(EXPORTED_COMPONENT, line)
    }

    fn extract_class_component(&self, line: &str) -> (r: Option<String>)
        ensures
            opt_view(r) == regex_group(CLASS_COMPONENT@, line@),
    {
        first_group(CLASS_COMPONENT, line)
    }

    fn extract_hook(&self, line: &str) -> (r: Option<String>)
        ensures
            opt_view(r) == regex_group(HOOK@, line@),
    {
        first_group(HOOK, line)
    }

    fn line_declaration(&self, line: &str) -> (r: Option<String>)
        ensures
            opt_view(r) == context_of(line@),
    {
        let l = chars_of(line);
        let component = self.extract_function_component(line);
        let class_name = if includes(l.as_slice(), "class ") && includes(l.as_slice(), "extends") {
            self.extract_class_component(line)
        } else {
            None
        };
        let hook = if includes(l.as_slice(), "const use") || includes(l.as_slice(), "function use") {
            self.extract_hook(line)
        } else {
            None
        };
        Self::describe_line(line, component, class_name, hook)
    }

    /// Scans from `line` (1-based) upward to the top of the source and
    /// describes the first component, class component or hook declared.
    pub fn detect(&self, line: u32) -> (r: Option<String>)
        ensures
            opt_view(r) == context_at(self.source_text@, line),
    {
        let cs = chars_of(self.source_text);
        let lines = split_lines(cs.as_slice());
        let ghost ls = lines_of(self.source_text@);
        let start: usize = if line == 0 { 0 } else { (line - 1) as usize };
        let last: usize = if lines.len() == 0 { 0 } else { lines.len() - 1 };
        let mut i: usize = if start < last { start } else { last };
        loop
            invariant
                views(lines@) == ls,
                scan_up(ls, i as int) == context_at(self.source_text@, line),
            decreases i,
        {
            let text: String = if i < lines.len() {
                assert(lines@[i as int]@ == ls[i as int]);
                text_of(lines[i].as_slice())
            } else {
                proof {
                    reveal_strlit("");
                }
                assert(""@ =~= Seq::<char>::empty());
                String::from_str("")
            };
            let found = self.line_declaration(text.as_str());
            if found.is_some() {
                return found;
            }
            if i == 0 {
                return None;
            }
            i = i - 1;
        }
    }
}

} // verus!
