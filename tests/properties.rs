use facetpack::{
    AnalyzerRegistry, BuiltinAnalyzer, CompressSettings, MangleSettings, ComponentContextDetector, Diagnostic, DiagnosticSeverity,
    ErrorAnalyzer, ErrorInfo, FacetpackError, JsxAnalyzer, MinifyCommand, MinifyOptions,
    ModuleAnalyzer, ParseQuery, RawParseError, ReservedWordAnalyzer, StatementAnalyzer,
    TransformCommand, TypeScriptAnalyzer, UnclosedBracketAnalyzer, UnexpectedTokenAnalyzer,
    UnterminatedAnalyzer, JsxRuntime, TransformOptions,
};

fn query(source: &str) -> ParseQuery {
    ParseQuery::new("file.ts".to_string(), source.to_string(), None)
}

#[test]
fn registry_is_total_on_empty_input() {
    let registry = AnalyzerRegistry::new();
    let result = registry.analyze("", "", 0);
    assert_eq!(result.code, "E0000");
    assert_eq!(result.message, "");
    assert_eq!(result.help, "Vérifiez la syntaxe autour de cette ligne");
    assert_eq!(result.suggestion, "Consultez la documentation JavaScript/TypeScript");
}

#[test]
fn registry_fallback_keeps_message() {
    let registry = AnalyzerRegistry::new();
    let result = registry.analyze("Some unknown error", "code", 1);
    assert_eq!(result.code, "E0000");
    assert_eq!(result.message, "Some unknown error");
    let direct = ErrorInfo::fallback("Some unknown error");
    assert_eq!(direct.help, result.help);
}

#[test]
fn unexpected_token_outranks_typescript() {
    let registry = AnalyzerRegistry::new();
    let message = "Unexpected token: expected a type";
    assert!(TypeScriptAnalyzer.can_analyze(message, "let v = 1"));
    let result = registry.analyze(message, "let v = 1", 3);
    assert_eq!(result.code, "E0001");
    assert_eq!(result.message, message);
    assert_eq!(TypeScriptAnalyzer.analyze(message, "let v = 1", 3).code, "E0020");
}

#[test]
fn default_registry_order_follows_priorities() {
    let registry = AnalyzerRegistry::new();
    let order: Vec<BuiltinAnalyzer> = registry.analyzers().clone();
    assert_eq!(
        order,
        vec![
            BuiltinAnalyzer::UnexpectedToken,
            BuiltinAnalyzer::UnclosedBracket,
            BuiltinAnalyzer::Unterminated,
            BuiltinAnalyzer::ReservedWord,
            BuiltinAnalyzer::Jsx,
            BuiltinAnalyzer::TypeScript,
            BuiltinAnalyzer::Module,
            BuiltinAnalyzer::Statement,
        ]
    );
    let priorities: Vec<u8> = order.iter().map(|a| a.priority()).collect();
    assert_eq!(priorities, vec![100, 90, 85, 80, 70, 60, 50, 40]);
}

#[test]
fn register_places_equal_priority_after_existing() {
    let mut registry = AnalyzerRegistry::new();
    registry.register(BuiltinAnalyzer::Jsx);
    let order = registry.analyzers().clone();
    assert_eq!(order.len(), 9);
    assert_eq!(order[4], BuiltinAnalyzer::Jsx);
    assert_eq!(order[5], BuiltinAnalyzer::Jsx);
    assert_eq!(order[6], BuiltinAnalyzer::TypeScript);
    registry.register(BuiltinAnalyzer::UnexpectedToken);
    assert_eq!(registry.analyzers()[1], BuiltinAnalyzer::UnexpectedToken);
    assert_eq!(registry.analyzers()[2], BuiltinAnalyzer::UnclosedBracket);
}

#[test]
fn position_of_offset_zero_is_origin() {
    assert_eq!(query("abc\ndef").offset_to_line_col(0), (1, 1));
    assert_eq!(query("").offset_to_line_col(0), (1, 1));
}

#[test]
fn position_counts_newlines_before_offset() {
    let q = query("a\nbc\nd");
    assert_eq!(q.offset_to_line_col(1), (1, 2));
    assert_eq!(q.offset_to_line_col(2), (2, 1));
    assert_eq!(q.offset_to_line_col(4), (2, 3));
    assert_eq!(q.offset_to_line_col(5), (3, 1));
    assert_eq!(q.offset_to_line_col(6), (3, 2));
    assert_eq!(q.offset_to_line_col(100), (3, 2));
    let q = query("x\n\n\n\ny");
    assert_eq!(q.offset_to_line_col(5).0, 5);
}

#[test]
fn position_counts_characters_not_bytes() {
    let q = query("é = 1\nà");
    assert_eq!(q.offset_to_line_col(3), (1, 4));
    assert_eq!(q.offset_to_line_col(7), (2, 2));
}

#[test]
fn snippet_beyond_last_line_is_absent() {
    let q = query("first\nsecond\n");
    assert_eq!(q.get_snippet_at_line(1), Some("first".to_string()));
    assert_eq!(q.get_snippet_at_line(2), Some("second".to_string()));
    assert_eq!(q.get_snippet_at_line(3), None);
    assert_eq!(q.get_snippet_at_line(1000), None);
    assert_eq!(q.get_snippet_at_line(0), Some("first".to_string()));
    assert_eq!(query("").get_snippet_at_line(1), None);
}

#[test]
fn snippet_strips_carriage_return_before_line_feed() {
    let q = query("one\r\ntwo\r\nthree\r");
    assert_eq!(q.get_snippet_at_line(1), Some("one".to_string()));
    assert_eq!(q.get_snippet_at_line(2), Some("two".to_string()));
    assert_eq!(q.get_snippet_at_line(3), Some("three\r".to_string()));
    assert_eq!(query("a\n\nb").get_snippet_at_line(2), Some(String::new()));
}

#[test]
fn bracket_counting_reports_one_open_zero_close() {
    let result = UnclosedBracketAnalyzer.analyze("Expected `}`", "const obj = { name: 'test'", 12);
    assert_eq!(result.code, "E0002");
    assert_eq!(result.message, "accolade fermante '}' manquante");
    assert_eq!(
        result.help,
        "Il y a 1 '{' ouvrant(s) mais seulement 0 '}' fermant(s) dans ce bloc"
    );
    assert_eq!(
        result.suggestion,
        "Ajoutez '}' pour fermer le bloc. Astuce: utilisez un éditeur avec coloration des parenthèses"
    );
}

#[test]
fn bracket_counting_many_digits() {
    let snippet = "(".repeat(12) + ")";
    let result = UnclosedBracketAnalyzer.analyze("Expected `)`", &snippet, 1);
    assert_eq!(
        result.help,
        "Il y a 12 '(' ouvrant(s) mais seulement 1 ')' fermant(s) dans ce bloc"
    );
    let result = UnclosedBracketAnalyzer.analyze("expected `]`", "[[]", 1);
    assert_eq!(result.message, "crochet fermante ']' manquante");
}

#[test]
fn context_nearest_match_on_component() {
    let source = "export default function MyComponent() {\n  const x = 5;\n  return <div />;\n}\n";
    let detector = ComponentContextDetector::new(source);
    assert_eq!(detector.detect(3), Some("Component: MyComponent".to_string()));
}

#[test]
fn reserved_word_scenario() {
    let registry = AnalyzerRegistry::new();
    let result = registry.analyze("reserved word", "const class = 5;", 7);
    assert_eq!(result.code, "E0004");
    assert!(result.suggestion.contains("myClass"));
    assert_eq!(
        result.suggestion,
        "Choisissez un autre nom: `myClass` ou `class_value` par exemple"
    );
    assert_eq!(
        result.help,
        "Le mot 'class' est réservé par JavaScript et ne peut pas être utilisé comme nom de variable"
    );
}

#[test]
fn reserved_word_not_found() {
    let result = ReservedWordAnalyzer.analyze("Keyword misuse", "const value = 1;", 1);
    assert_eq!(
        result.help,
        "Le mot '(mot réservé)' est réservé par JavaScript et ne peut pas être utilisé comme nom de variable"
    );
    assert_eq!(result.suggestion, "Choisissez un autre nom pour votre variable");
    let first = ReservedWordAnalyzer.analyze("reserved", "var if = 1; let class = 2;", 1);
    assert!(first.suggestion.contains("myClass"));
}

#[test]
fn jsx_class_name_scenario() {
    let result = JsxAnalyzer.analyze("error", "<div class=\"foo\">", 6);
    assert_eq!(result.code, "E0011");
    assert!(result.suggestion.contains("className"));
    assert_eq!(result.suggestion, "Remplacez `class=` par `className=`");
}

#[test]
fn jsx_event_handler_suggestion_text() {
    let result = JsxAnalyzer.analyze("error", "<input ONCHANGE={f} />", 1);
    assert_eq!(result.code, "E0012");
    assert_eq!(
        result.suggestion,
        "Utilisez `onChange` au lieu de `onchange`. Pour React Native, utilisez `onPress`"
    );
    let ok = JsxAnalyzer.analyze("jsx", "<input onChange={f} />", 1);
    assert_eq!(ok.code, "E0010");
    assert_eq!(ok.message, "jsx");
}

#[test]
fn jsx_claims() {
    assert!(JsxAnalyzer.can_analyze("JSX problem", ""));
    assert!(JsxAnalyzer.can_analyze("x", "<a></a>"));
    assert!(JsxAnalyzer.can_analyze("x", "<br/>"));
    assert!(!JsxAnalyzer.can_analyze("x", "<div>"));
}

#[test]
fn fallback_scenario() {
    let registry = AnalyzerRegistry::new();
    assert_eq!(registry.analyze("Some unknown error", "code", 1).code, "E0000");
}

#[test]
fn double_equals_scenario() {
    let registry = AnalyzerRegistry::new();
    let result = registry.analyze("Unexpected token", "const x = = 5;", 11);
    assert_eq!(result.code, "E0001");
    assert!(result.message.contains("double"));
    assert_eq!(result.message, "Opérateur double invalide détecté");
    assert_eq!(
        result.suggestion,
        "Remplacez '= =' par '==' pour une comparaison, ou retirez un '=' si c'est une affectation: `const x == 5;`"
    );
}

#[test]
fn triple_equals_joined_first() {
    let result = UnexpectedTokenAnalyzer.analyze("unexpected token", "a = = = b\nsecond = = line", 1);
    assert!(result.suggestion.ends_with("`a === b`"));
}

#[test]
fn unexpected_token_branches() {
    let a = UnexpectedTokenAnalyzer;
    assert!(a.can_analyze("UNEXPECTED TOKEN", ""));
    assert!(a.can_analyze("Expected Expression", ""));
    assert!(!a.can_analyze("token", ""));
    let r = a.analyze("Unexpected token", "let y =   \t", 1);
    assert_eq!(r.message, "Expression manquante après l'opérateur d'affectation");
    let r = a.analyze("Unexpected token", "a=b", 2);
    assert_eq!(r.message, "Expression manquante après l'opérateur d'affectation");
    let r = a.analyze("Unexpected token", "<View style= />", 1);
    assert_eq!(r.code, "E0010");
    let r = a.analyze("Unexpected token", "foo(bar", 1);
    assert_eq!(r.code, "E0001");
    assert_eq!(r.message, "Unexpected token");
}

#[test]
fn unterminated_quote_styles() {
    let a = UnterminatedAnalyzer;
    let single = a.analyze("Unterminated string", "const s = 'abc", 1);
    assert_eq!(single.suggestion, "Ajoutez ' à la fin de la chaîne pour la fermer");
    let double = a.analyze("Unterminated string", "const s = \"abc", 1);
    assert_eq!(double.suggestion, "Ajoutez \" à la fin de la chaîne pour la fermer");
    assert_eq!(
        double.help,
        "Une chaîne de caractères doit être fermée avec le même type de guillemet (\") qu'à l'ouverture"
    );
    let generic = a.analyze("Unterminated regular expression", "/ab", 1);
    assert_eq!(generic.code, "E0003");
    assert_eq!(generic.message, "Unterminated regular expression");
}

#[test]
fn typescript_readonly_and_generic() {
    let a = TypeScriptAnalyzer;
    let r = a.analyze("Cannot assign to READONLY property", "obj.x = 1", 1);
    assert_eq!(r.code, "E0023");
    let r = a.analyze("type error", "let v: Map<, string>", 1);
    assert_eq!(r.code, "E0022");
    let r = a.analyze("type error", "let v: number", 1);
    assert_eq!(r.code, "E0020");
    assert_eq!(r.message, "type error");
}

#[test]
fn module_named_import_and_assertion() {
    let a = ModuleAnalyzer;
    assert_eq!(a.analyze("import error", "import a, b from 'm'", 1).code, "E0032");
    assert_eq!(a.analyze("import error", "import { a, b } from 'm'", 1).code, "E0030");
    assert_eq!(a.analyze("Bad import assertion", "import d from './d.json'", 1).code, "E0033");
}

#[test]
fn statement_loop_control_and_await() {
    let a = StatementAnalyzer;
    assert!(!a.can_analyze("return type mismatch", ""));
    assert!(a.can_analyze("Illegal continue statement", ""));
    let r = a.analyze("Illegal continue statement", "continue;", 1);
    assert_eq!(r.code, "E0043");
    assert_eq!(r.message, "'continue' utilisé en dehors d'une boucle");
    assert_eq!(
        r.suggestion,
        "Placez 'continue' dans une boucle: `for (let i = 0; i < 10; i++) { if (cond) continue }`"
    );
    let r = a.analyze("await outside async", "await fetch()", 1);
    assert_eq!(r.message, "'await' utilisé en dehors d'une fonction async");
    let r = a.analyze("await error", "function f() { await g(); }", 1);
    assert_eq!(r.message, "'await' utilisé dans une fonction non-async");
    let r = a.analyze("return outside function", "return <View />;", 1);
    assert!(r.help.contains("JSX"));
    let r = a.analyze("something else", "", 1);
    assert_eq!(r.code, "E0000");
}

#[test]
fn builder_uses_position_snippet_and_registry() {
    let q = ParseQuery::new("app.ts".to_string(), "let a = 1;\nconst x = = 5;\n".to_string(), None);
    let registry = AnalyzerRegistry::new();
    let error = RawParseError { message: "Unexpected token".to_string(), label_offset: Some(21) };
    let d = q.create_diagnostic(&registry, &error);
    assert_eq!(d.severity, DiagnosticSeverity::Error);
    assert_eq!((d.line, d.column), (2, 11));
    assert_eq!(d.snippet.as_deref(), Some("const x = = 5;"));
    assert_eq!(d.code.as_deref(), Some("E0001"));
    assert_eq!(d.message, "Unexpected token");
    assert_eq!(d.filename, "app.ts");
    assert!(d.label.is_none() && d.end_line.is_none() && d.end_column.is_none());
    assert_eq!(d.help.as_deref(), Some("Deux opérateurs '=' consécutifs ne sont pas valides. Peut-être vouliez-vous '==' ou '==='?"));
    assert_eq!(d.formatted, d.format());
}

#[test]
fn builder_without_label_points_at_origin() {
    let q = ParseQuery::new("a.js".to_string(), "x\ny".to_string(), None);
    let registry = AnalyzerRegistry::new();
    let error = RawParseError { message: "Some unknown error".to_string(), label_offset: None };
    let d = q.create_diagnostic(&registry, &error);
    assert_eq!((d.line, d.column), (1, 1));
    assert_eq!(d.snippet.as_deref(), Some("x"));
    assert_eq!(d.code.as_deref(), Some("E0000"));
}

#[test]
fn builder_on_empty_source_has_no_snippet() {
    let q = ParseQuery::new("a.js".to_string(), String::new(), None);
    let registry = AnalyzerRegistry::new();
    let error = RawParseError { message: "Unexpected token".to_string(), label_offset: Some(0) };
    let d = q.create_diagnostic(&registry, &error);
    assert_eq!(d.snippet, None);
    assert_eq!(d.code.as_deref(), Some("E0001"));
}

#[test]
fn render_exact_report() {
    let d = Diagnostic {
        severity: DiagnosticSeverity::Warning,
        code: Some("E0042".to_string()),
        message: "msg".to_string(),
        filename: "f.js".to_string(),
        line: 9,
        column: 3,
        end_line: None,
        end_column: None,
        snippet: Some("ab\ncd".to_string()),
        label: Some("here".to_string()),
        help: Some("h".to_string()),
        suggestion: None,
        formatted: String::new(),
    };
    let expected = "\x1b[1m\x1b[33mwarning[E0042]:\x1b[0m msg\n".to_string()
        + "  \x1b[34m-->\x1b[0m f.js:9:3\n"
        + "   \x1b[34m|\x1b[0m\n"
        + "\x1b[34m  9\x1b[0m \x1b[34m|\x1b[0m ab\n"
        + "\x1b[34m 10\x1b[0m \x1b[34m|\x1b[0m cd\n"
        + "    \x1b[34m|\x1b[0m   \x1b[33m^\x1b[0m \x1b[33mhere\x1b[0m\n"
        + "   \x1b[34m|\x1b[0m\n"
        + "  \x1b[34m=\x1b[0m \x1b[36mhelp:\x1b[0m h\n";
    assert_eq!(d.format(), expected);
}

#[test]
fn render_minimal_report() {
    let mut d = Diagnostic::default();
    d.message = "oops".to_string();
    d.filename = "x.ts".to_string();
    d.line = 1;
    d.column = 1;
    d.suggestion = Some("s".to_string());
    let expected = "\x1b[1m\x1b[31merror:\x1b[0m oops\n  \x1b[34m-->\x1b[0m x.ts:1:1\n  \x1b[34m=\x1b[0m \x1b[36msuggestion:\x1b[0m s\n";
    assert_eq!(d.format(), expected);
}

#[test]
fn error_messages_name_their_kind() {
    assert_eq!(FacetpackError::ParseError("a".to_string()).to_message(), "Parse error: a");
    assert_eq!(FacetpackError::TransformError("b".to_string()).to_message(), "Transform error: b");
    assert_eq!(
        FacetpackError::InvalidSourceType("c".to_string()).to_message(),
        "Invalid source type: c"
    );
    assert_eq!(FacetpackError::CodegenError("d".to_string()).to_message(), "Codegen error: d");
}

#[test]
fn minify_settings_defaults() {
    let cmd = MinifyCommand::new("x".to_string(), "a.js".to_string(), None);
    let s = cmd.settings();
    assert_eq!(s.compress, Some(CompressSettings { drop_console: false, drop_debugger: true }));
    assert_eq!(s.mangle, Some(MangleSettings { keep_names: false, top_level: true }));
    assert!(!s.sourcemap);
    let opts = MinifyOptions {
        compress: Some(false),
        mangle: Some(true),
        keep_fnames: Some(true),
        drop_console: Some(true),
        drop_debugger: Some(false),
        sourcemap: Some(true),
    };
    let s = MinifyCommand::new("x".to_string(), "a.js".to_string(), Some(opts)).settings();
    assert_eq!(s.compress, None);
    assert_eq!(s.mangle, Some(MangleSettings { keep_names: true, top_level: true }));
    assert!(s.sourcemap);
    let opts = MinifyOptions { mangle: Some(false), drop_console: Some(true), ..Default::default() };
    let s = MinifyCommand::new("x".to_string(), "a.js".to_string(), Some(opts)).settings();
    assert_eq!(s.compress, Some(CompressSettings { drop_console: true, drop_debugger: true }));
    assert_eq!(s.mangle, None);
}

#[test]
fn transform_settings_defaults() {
    let s = TransformCommand::new("a.tsx".to_string(), String::new(), None).settings();
    assert!(s.typescript && !s.sourcemap);
    assert_eq!(s.jsx.as_ref().map(|j| j.runtime), Some(JsxRuntime::Automatic));
    let opts = TransformOptions {
        source_type: None,
        jsx: Some(true),
        jsx_runtime: Some(JsxRuntime::Classic),
        jsx_pragma: Some("h".to_string()),
        jsx_pragma_frag: None,
        jsx_import_source: None,
        typescript: Some(false),
        sourcemap: Some(true),
    };
    let s = TransformCommand::new("a.tsx".to_string(), String::new(), Some(opts)).settings();
    assert!(!s.typescript && s.sourcemap);
    let jsx = s.jsx.unwrap();
    assert_eq!(jsx.runtime, JsxRuntime::Classic);
    assert_eq!(jsx.pragma.as_deref(), Some("h"));
    let opts = TransformOptions { jsx: Some(false), ..Default::default() };
    assert!(TransformCommand::new("a.tsx".to_string(), String::new(), Some(opts)).settings().jsx.is_none());
}

#[test]
fn equals_at_first_column_is_a_missing_value() {
    let r = UnexpectedTokenAnalyzer.analyze("Unexpected token", "=style=>", 1);
    assert_eq!(r.code, "E0001");
    assert_eq!(r.message, "Expression manquante après l'opérateur d'affectation");
    let r = UnexpectedTokenAnalyzer.analyze("Unexpected token", "=style=>", 0);
    assert_eq!(r.code, "E0001");
    let r = UnexpectedTokenAnalyzer.analyze("Unexpected token", "<a style=1>", 1);
    assert_eq!(r.code, "E0010");
}

fn chars(s: &str) -> Vec<char> {
    s.chars().collect()
}

#[test]
fn claims_on_folded_messages() {
    assert!(UnexpectedTokenAnalyzer.claims_folded(&chars("unexpected token `)`")));
    assert!(!UnexpectedTokenAnalyzer.claims_folded(&chars("Unexpected Token")));
    assert!(UnclosedBracketAnalyzer.claims_folded(&chars("expected `]` but found eof")));
    assert!(UnterminatedAnalyzer.claims_folded(&chars("unterminated string")));
    assert!(ReservedWordAnalyzer.claims_folded(&chars("keyword")));
    assert!(JsxAnalyzer.claims_folded(&chars("jsx"), &chars("")));
    assert!(JsxAnalyzer.claims_folded(&chars("x"), &chars("<a/>")));
    assert!(TypeScriptAnalyzer.claims_folded(&chars("x"), &chars("a: b")));
    assert!(!TypeScriptAnalyzer.claims_folded(&chars("TYPE"), &chars("")));
    assert!(ModuleAnalyzer.claims_folded(&chars("export")));
    assert!(StatementAnalyzer.claims_folded(&chars("yield")));
    assert!(!StatementAnalyzer.claims_folded(&chars("return type")));
}

#[test]
fn analysis_on_folded_messages() {
    let r = UnterminatedAnalyzer.analyze_folded("Bad", &chars("template"), "`x");
    assert_eq!(r.message, "Template literal non terminé");
    let r = TypeScriptAnalyzer.analyze_folded("Msg", &chars("readonly"), "x = 1");
    assert_eq!(r.code, "E0023");
    let r = ModuleAnalyzer.analyze_folded("Msg", &chars("assert"), "import x from 'y'");
    assert_eq!(r.code, "E0033");
    let r = StatementAnalyzer.analyze_folded("Msg", &chars("break"), "");
    assert_eq!(r.message, "'break' utilisé en dehors d'une boucle");
    let r = StatementAnalyzer.analyze_folded("Msg", &chars("nothing"), "");
    assert_eq!(r.code, "E0000");
    assert_eq!(r.message, "Msg");
    let r = JsxAnalyzer.analyze_folded("Msg", "<x onBlur={f} />", &chars("<x onfocus={f} />"));
    assert_eq!(r.code, "E0012");
    assert!(r.suggestion.contains("onFocus"));
}

#[test]
fn labels_in_non_ascii_text_point_at_characters() {
    let q = ParseQuery::new("a.ts".to_string(), "const é = = 1;".to_string(), None);
    let registry = AnalyzerRegistry::new();
    let d = q.create_diagnostic(&registry, &RawParseError { message: "Unexpected token".to_string(), label_offset: Some(10) });
    assert_eq!((d.line, d.column), (1, 11));
}
