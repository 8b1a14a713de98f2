//! Heuristic classifiers of raw parser messages, and the registry that
//! dispatches a message to the first one that claims it.

mod jsx;
mod module;
mod reserved_word;
mod unclosed_bracket;
mod statement;
mod typescript;
mod unexpected_token;
mod unterminated;

use vstd::prelude::*;

use crate::text::{contains, lower_of};

use crate::error_info::{fallback_info, ErrorInfo, ErrorInfoView};

pub use jsx::{
    camel, class_info, class_misused, first_lowercase_handler, for_info, for_misused, handler_info,
    jsx_claims, jsx_info, lowercase_handlers, style_info, style_misused, JsxAnalyzer,
};
pub use module::{
    default_export_assigned, default_export_info, import_assertion_info, mentions_assertion,
    module_claims, module_info, named_import_info, unbraced_named_import, ModuleAnalyzer,
};
pub use reserved_word::{
    capitalized, declared_as, first_declared, rename_suggestion, reserved_word_claims,
    reserved_word_info, reserved_words, ReservedWordAnalyzer,
};
pub use unclosed_bracket::{bracket_kind, unclosed_bracket_claims, unclosed_bracket_info, UnclosedBracketAnalyzer};
pub use statement::{
    await_info, loop_control_info, loop_keyword, return_info, statement_claims, statement_info,
    yield_info, StatementAnalyzer,
};
pub use typescript::{
    empty_annotation, empty_annotation_info, empty_generic, empty_generic_info, readonly_info,
    readonly_write, typescript_claims, typescript_info, untyped_parameter, untyped_parameter_info,
    TypeScriptAnalyzer,
};
pub use unexpected_token::{
    first_line, joined_operators, unexpected_token_claims, unexpected_token_info, value_missing,
    UnexpectedTokenAnalyzer,
};
pub use unterminated::{
    quote_of, unterminated_claims, unterminated_generic_info, unterminated_info,
    unterminated_string_info, unterminated_template_info, UnterminatedAnalyzer,
};

verus! {

/// A classifier that owns one family of errors.
pub trait ErrorAnalyzer {
    /// The messages and snippets this analyzer claims.
    spec fn claims(&self, message: Seq<char>, snippet: Seq<char>) -> bool;

    /// What this analyzer makes of a message, its snippet and column.
    spec fn analysis(&self, message: Seq<char>, snippet: Seq<char>, column: u32) -> ErrorInfoView;

    /// Its dispatch priority; higher goes first.
    spec fn rank(&self) -> u8;

    fn can_analyze(&self, message: &str, snippet: &str) -> (r: bool)
        ensures
            r == self.claims(message@, snippet@),
    ;

    fn analyze(&self, message: &str, snippet: &str, column: u32) -> (r: ErrorInfo)
        ensures
            r@ == self.analysis(message@, snippet@, column),
    ;

    fn priority(&self) -> (r: u8)
        ensures
            r == self.rank(),
    ;
}


/// The built-in analyzers, one variant each.
#[derive(Clone, Copy, Debug, PartialEq, Eq, Structural)]
pub enum BuiltinAnalyzer {
    UnexpectedToken,
    UnclosedBracket,
    Unterminated,
    ReservedWord,
    Jsx,
    TypeScript,
    Module,
    Statement,
}

impl ErrorAnalyzer for BuiltinAnalyzer {
    open spec fn claims(&self, message: Seq<char>, snippet: Seq<char>) -> bool {
        match self {
            BuiltinAnalyzer::UnexpectedToken => unexpected_token_claims(message),
            BuiltinAnalyzer::UnclosedBracket => unclosed_bracket_claims(message),
            BuiltinAnalyzer::Unterminated => unterminated_claims(message),
            BuiltinAnalyzer::ReservedWord => reserved_word_claims(message),
            BuiltinAnalyzer::Jsx => jsx_claims(message, snippet),
            BuiltinAnalyzer::TypeScript => typescript_claims(message, snippet),
            BuiltinAnalyzer::Module => module_claims(message),
            BuiltinAnalyzer::Statement => statement_claims(message),
        }
    }

    open spec fn analysis(&self, message: Seq<char>, snippet: Seq<char>, column: u32) -> ErrorInfoView {
        match self {
            BuiltinAnalyzer::UnexpectedToken => unexpected_token_info(message, snippet, column),
            BuiltinAnalyzer::UnclosedBracket => unclosed_bracket_info(message, snippet),
            BuiltinAnalyzer::Unterminated => unterminated_info(message, snippet),
            BuiltinAnalyzer::ReservedWord => reserved_word_info(snippet),
            BuiltinAnalyzer::Jsx => jsx_info(message, snippet),
            BuiltinAnalyzer::TypeScript => typescript_info(message, snippet),
            BuiltinAnalyzer::Module => module_info(message, snippet),
            BuiltinAnalyzer::Statement => statement_info(message, snippet),
        }
    }

    open spec fn rank(&self) -> u8 {
        match self {
            BuiltinAnalyzer::UnexpectedToken => 100,
            BuiltinAnalyzer::UnclosedBracket => 90,
            BuiltinAnalyzer::Unterminated => 85,
            BuiltinAnalyzer::ReservedWord => 80,
            BuiltinAnalyzer::Jsx => 70,
            BuiltinAnalyzer::TypeScript => 60,
            BuiltinAnalyzer::Module => 50,
            BuiltinAnalyzer::Statement => 40,
        }
    }

    fn can_analyze(&self, message: &str, snippet: &str) -> (r: bool) {
        match self {
            BuiltinAnalyzer::UnexpectedToken => UnexpectedTokenAnalyzer.can_analyze(message, snippet),
            BuiltinAnalyzer::UnclosedBracket => UnclosedBracketAnalyzer.can_analyze(message, snippet),
            BuiltinAnalyzer::Unterminated => UnterminatedAnalyzer.can_analyze(message, snippet),
            BuiltinAnalyzer::ReservedWord => ReservedWordAnalyzer.can_analyze(message, snippet),
            BuiltinAnalyzer::Jsx => JsxAnalyzer.can_analyze(message, snippet),
            BuiltinAnalyzer::TypeScript => TypeScriptAnalyzer.can_analyze(message, snippet),
            BuiltinAnalyzer::Module => ModuleAnalyzer.can_analyze(message, snippet),
            BuiltinAnalyzer::Statement => StatementAnalyzer.can_analyze(message, snippet),
        }
    }

    fn analyze(&self, message: &str, snippet: &str, column: u32) -> (r: ErrorInfo) {
        match self {
            BuiltinAnalyzer::UnexpectedToken => UnexpectedTokenAnalyzer.analyze(message, snippet, column),
            BuiltinAnalyzer::UnclosedBracket => UnclosedBracketAnalyzer.analyze(message, snippet, column),
            BuiltinAnalyzer::Unterminated => UnterminatedAnalyzer.analyze(message, snippet, column),
            BuiltinAnalyzer::ReservedWord => ReservedWordAnalyzer.analyze(message, snippet, column),
            BuiltinAnalyzer::Jsx => JsxAnalyzer.analyze(message, snippet, column),
            BuiltinAnalyzer::TypeScript => TypeScriptAnalyzer.analyze(message, snippet, column),
            BuiltinAnalyzer::Module => ModuleAnalyzer.analyze(message, snippet, column),
            BuiltinAnalyzer::Statement => StatementAnalyzer.analyze(message, snippet, column),
        }
    }

    fn priority(&self) -> (r: u8) {
        match self {
            BuiltinAnalyzer::UnexpectedToken => 100,
            BuiltinAnalyzer::UnclosedBracket => 90,
            BuiltinAnalyzer::Unterminated => 85,
            BuiltinAnalyzer::ReservedWord => 80,
            BuiltinAnalyzer::Jsx => 70,
            BuiltinAnalyzer::TypeScript => 60,
            BuiltinAnalyzer::Module => 50,
            BuiltinAnalyzer::Statement => 40,
        }
    }
}

/// What the first analyzer of `list` that claims the input makes of it, or
/// the fallback where none does.
pub open spec fn dispatch(list: Seq<BuiltinAnalyzer>, message: Seq<char>, snippet: Seq<char>, column: u32) -> ErrorInfoView
    decreases list.len(),
{
    if list.len() == 0 {
        fallback_info(message)
    } else if list[0].claims(message, snippet) {
        list[0].analysis(message, snippet, column)
    } else {
        dispatch(list.drop_first(), message, snippet, column)
    }
}

/// Priorities never rise along `list`.
pub open spec fn by_priority(list: Seq<BuiltinAnalyzer>) -> bool {
    forall|i: int, j: int| 0 <= i < j < list.len() ==> list[i].rank() >= list[j].rank()
}

/// The number of leading analyzers of `list` whose priority is at least `p`:
/// where a stable sort places a newcomer of priority `p`.
pub open spec fn insertion_index(list: Seq<BuiltinAnalyzer>, p: u8) -> int
    decreases list.len(),
{
    if list.len() == 0 || list[0].rank() < p {
        0
    } else {
        1 + insertion_index(list.drop_first(), p)
    }
}

/// The built-in analyzers in the order they are registered.
pub open spec fn default_analyzers() -> Seq<BuiltinAnalyzer> {
    seq![
        BuiltinAnalyzer::UnexpectedToken,
        BuiltinAnalyzer::UnclosedBracket,
        BuiltinAnalyzer::Unterminated,
        BuiltinAnalyzer::ReservedWord,
        BuiltinAnalyzer::Jsx,
        BuiltinAnalyzer::TypeScript,
        BuiltinAnalyzer::Module,
        BuiltinAnalyzer::Statement,
    ]
}

proof fn lemma_insertion_at_end(list: Seq<BuiltinAnalyzer>, p: u8)
    requires
        forall|j: int| 0 <= j < list.len() ==> list[j].rank() >= p,
    ensures
        insertion_index(list, p) == list.len(),
    decreases list.len(),
{
    if list.len() > 0 {
        lemma_insertion_at_end(list.drop_first(), p);
    }
}

/// Analyzers ordered by descending priority, ties in registration order.
pub struct AnalyzerRegistry {
    analyzers: Vec<BuiltinAnalyzer>,
}

impl View for AnalyzerRegistry {
    type V = Seq<BuiltinAnalyzer>;

    closed spec fn view(&self) -> Seq<BuiltinAnalyzer> {
        self.analyzers@
    }
}

impl AnalyzerRegistry {
    /// The registry's order respects priorities.
    pub open spec fn wf(&self) -> bool {
        by_priority(self@)
    }

    /// A registry holding the eight built-in analyzers.
    pub fn new() -> (r: Self)
        ensures
            r.wf(),
            r@ == default_analyzers(),
    {
        let mut registry = AnalyzerRegistry { analyzers: Vec::new() };
        registry.register_defaults();
        registry
    }

    fn register_defaults(&mut self)
        requires
            old(self)@.len() == 0,
        ensures
            final(self).wf(),
            final(self)@ == default_analyzers(),
    {
        let ghost d = default_analyzers();
        self.register(BuiltinAnalyzer::UnexpectedToken);
        assert(self@ =~= d.subrange(0, 1));
        proof { lemma_insertion_at_end(self@, 90); }
        self.register(BuiltinAnalyzer::UnclosedBracket);
        assert(self@ =~= d.subrange(0, 2));
        proof { lemma_insertion_at_end(self@, 85); }
        self.register(BuiltinAnalyzer::Unterminated);
        assert(self@ =~= d.subrange(0, 3));
        proof { lemma_insertion_at_end(self@, 80); }
        self.register(BuiltinAnalyzer::ReservedWord);
        assert(self@ =~= d.subrange(0, 4));
        proof { lemma_insertion_at_end(self@, 70); }
        self.register(BuiltinAnalyzer::Jsx);
        assert(self@ =~= d.subrange(0, 5));
        proof { lemma_insertion_at_end(self@, 60); }
        self.register(BuiltinAnalyzer::TypeScript);
        assert(self@ =~= d.subrange(0, 6));
        proof { lemma_insertion_at_end(self@, 50); }
        self.register(BuiltinAnalyzer::Module);
        assert(self@ =~= d.subrange(0, 7));
        proof { lemma_insertion_at_end(self@, 40); }
        self.register(BuiltinAnalyzer::Statement);
        assert(self@ =~= d);
    }

    /// Adds `analyzer` after every analyzer of equal or higher priority and
    /// before every one of lower priority.
    pub fn register(&mut self, analyzer: BuiltinAnalyzer)
        requires
            old(self).wf(),
        ensures
            final(self).wf(),
            final(self)@ == old(self)@.insert(insertion_index(old(self)@, analyzer.rank()), analyzer),
    {
        let p = analyzer.priority();
        let n: usize = self.analyzers.len();
        let ghost list = self.analyzers@;
        let mut i: usize = 0;
        assert(list.subrange(0, n as int) =~= list);
        while i < n && self.analyzers[i].priority() >= p
            invariant
                n == list.len(),
                self.analyzers@ == list,
                i <= n,
                p == analyzer.rank(),
                forall|j: int| 0 <= j < i ==> list[j].rank() >= p,
                insertion_index(list, p) == i + insertion_index(list.subrange(i as int, n as int), p),
            decreases n - i,
        {
            assert(list.subrange(i as int, n as int).drop_first() =~= list.subrange(i + 1, n as int));
            i = i + 1;
        }
        proof {
            if i < n {
                assert(list.subrange(i as int, n as int)[0] == list[i as int]);
            } else {
                assert(list.subrange(i as int, n as int).len() == 0);
            }
        }
        assert(insertion_index(list, p) == i);
        self.analyzers.insert(i, analyzer);
        assert forall|a: int, b: int| 0 <= a < b < self@.len() implies self@[a].rank() >= self@[b].rank() by {
            if b < i {
            } else if b == i {
                assert(self@[a] == list[a]);
            } else if a < i {
                assert(self@[b] == list[b - 1]);
                assert(list[i as int].rank() < p);
            } else if a == i {
                assert(self@[b] == list[b - 1]);
                assert(list[i as int].rank() < p);
                if b - 1 > i {
                    assert(list[i as int].rank() >= list[b - 1].rank());
                }
            } else {
                assert(self@[a] == list[a - 1]);
                assert(self@[b] == list[b - 1]);
            }
        }
    }

    /// The analyzers in dispatch order.
    pub fn analyzers(&self) -> (r: &Vec<BuiltinAnalyzer>)
        ensures
            r@ == self@,
    {
        &self.analyzers
    }

    /// Classifies a message with the first analyzer that claims it, or with
    /// the fallback.
    pub fn analyze(&self, message: &str, snippet: &str, column: u32) -> (r: ErrorInfo)
        ensures
            r@ == dispatch(self@, message@, snippet@, column),
    {
        let n: usize = self.analyzers.len();
        let ghost list = self.analyzers@;
        let mut i: usize = 0;
        assert(list.subrange(0, n as int) =~= list);
        while i < n
            invariant
                n == list.len(),
                self.analyzers@ == list,
                i <= n,
                dispatch(list, message@, snippet@, column) == dispatch(
                    list.subrange(i as int, n as int),
                    message@,
                    snippet@,
                    column,
                ),
            decreases n - i,
        {
            let a = self.analyzers[i];
            assert(list.subrange(i as int, n as int)[0] == a);
            assert(list.subrange(i as int, n as int).drop_first() =~= list.subrange(i + 1, n as int));
            if a.can_analyze(message, snippet) {
                return a.analyze(message, snippet, column);
            }
            i = i + 1;
        }
        ErrorInfo::fallback(message)
    }
}


impl Default for AnalyzerRegistry {
    fn default() -> (r: Self)
        ensures
            r.wf(),
            r@ == default_analyzers(),
    {
        AnalyzerRegistry::new()
    }
}

/// Dispatch always answers: where no analyzer of `list` claims the input,
/// the answer is the fallback, whose code is `E0000`.
pub proof fn lemma_unclaimed_falls_back(
    list: Seq<BuiltinAnalyzer>,
    message: Seq<char>,
    snippet: Seq<char>,
    column: u32,
)
    requires
        forall|i: int| 0 <= i < list.len() ==> !(#[trigger] list[i]).claims(message, snippet),
    ensures
        dispatch(list, message, snippet, column) == fallback_info(message),
        dispatch(list, message, snippet, column).code == "E0000"@,
    decreases list.len(),
{
    if list.len() > 0 {
        assert(!list[0].claims(message, snippet));
        assert forall|i: int| 0 <= i < list.drop_first().len() implies !(
        #[trigger] list.drop_first()[i]).claims(message, snippet) by {
            assert(list.drop_first()[i] == list[i + 1]);
        }
        lemma_unclaimed_falls_back(list.drop_first(), message, snippet, column);
    }
}

/// In the default order, a message that speaks of an unexpected token goes
/// to the unexpected-token analyzer, also where it mentions a type, since
/// that analyzer's priority is the highest; its code is then `E0001` unless
/// the snippet holds an incomplete `style=` attribute.
pub proof fn lemma_unexpected_token_wins(message: Seq<char>, snippet: Seq<char>, column: u32)
    requires
        contains(lower_of(message), "unexpected token"@),
    ensures
        dispatch(default_analyzers(), message, snippet, column) == unexpected_token_info(
            message,
            snippet,
            column,
        ),
        dispatch(default_analyzers(), message, snippet, column).code == "E0001"@ || (contains(
            snippet,
            "style="@,
        ) && contains(snippet, ">"@)),
{
    assert(default_analyzers()[0] == BuiltinAnalyzer::UnexpectedToken);
}

} // verus!
