use facetpack::{
    AnalyzerRegistry, ErrorAnalyzer, JsxAnalyzer, ModuleAnalyzer, ReservedWordAnalyzer,
    StatementAnalyzer, TypeScriptAnalyzer, UnclosedBracketAnalyzer, UnexpectedTokenAnalyzer,
    UnterminatedAnalyzer,
};

#[test]
fn test_style_syntax() {
    let analyzer = JsxAnalyzer;
    assert!(analyzer.can_analyze("jsx error", "<div style="));

    let result = analyzer.analyze("error", "<View style=>", 12);
    assert_eq!(result.code, "E0010");
    assert!(result.suggestion.contains("style={{"));
}

#[test]
fn test_class_attribute() {
    let analyzer = JsxAnalyzer;
    let result = analyzer.analyze("error", "<div class=\"foo\">", 6);
    assert_eq!(result.code, "E0011");
    assert!(result.suggestion.contains("className"));
}

#[test]
fn test_event_handler() {
    let analyzer = JsxAnalyzer;
    let result = analyzer.analyze("error", "<button onclick={}>", 8);
    assert_eq!(result.code, "E0012");
    assert!(result.suggestion.contains("onClick"));
}

#[test]
fn test_for_attribute() {
    let analyzer = JsxAnalyzer;
    let result = analyzer.analyze("error", "<label for=\"input\">", 7);
    assert_eq!(result.code, "E0013");
    assert!(result.suggestion.contains("htmlFor"));
}

#[test]
fn test_registry_finds_correct_analyzer() {
    let registry = AnalyzerRegistry::new();

    let result = registry.analyze("Unexpected token", "const x = = 5;", 11);
    assert_eq!(result.code, "E0001");

    let result = registry.analyze("Expected `}`", "const obj = {", 12);
    assert_eq!(result.code, "E0002");
}

#[test]
fn test_registry_fallback() {
    let registry = AnalyzerRegistry::new();

    let result = registry.analyze("Some unknown error", "code", 1);
    assert_eq!(result.code, "E0000");
}

#[test]
fn test_can_analyze() {
    let analyzer = ModuleAnalyzer;
    assert!(analyzer.can_analyze("import error", ""));
    assert!(analyzer.can_analyze("export error", ""));
    assert!(!analyzer.can_analyze("syntax error", ""));
}

#[test]
fn test_default_export_syntax() {
    let analyzer = ModuleAnalyzer;
    let result = analyzer.analyze("error", "export default = foo", 16);
    assert_eq!(result.code, "E0031");
}

#[test]
fn test_generic_module_error() {
    let analyzer = ModuleAnalyzer;
    let result = analyzer.analyze("import error", "import something", 1);
    assert_eq!(result.code, "E0030");
}

#[test]
fn test_reserved_class() {
    let analyzer = ReservedWordAnalyzer;
    assert!(analyzer.can_analyze("reserved word", ""));

    let result = analyzer.analyze("reserved word", "const class = 5;", 7);
    assert_eq!(result.code, "E0004");
    assert!(result.help.contains("class"));
    assert!(result.suggestion.contains("myClass"));
}

#[test]
fn test_reserved_function() {
    let analyzer = ReservedWordAnalyzer;
    let result = analyzer.analyze("reserved word", "let function = test", 5);
    assert!(result.help.contains("function"));
}

#[test]
fn test_return_error() {
    let analyzer = StatementAnalyzer;
    assert!(analyzer.can_analyze("return outside function", ""));

    let result = analyzer.analyze("return outside function", "return 5;", 1);
    assert_eq!(result.code, "E0040");
}

#[test]
fn test_await_error() {
    let analyzer = StatementAnalyzer;
    let result = analyzer.analyze("await outside async", "await fetch()", 1);
    assert_eq!(result.code, "E0041");
}

#[test]
fn test_await_in_non_async() {
    let analyzer = StatementAnalyzer;
    let result = analyzer.analyze("await error", "function foo() { await bar(); }", 17);
    assert!(result.suggestion.contains("async"));
}

#[test]
fn test_yield_error() {
    let analyzer = StatementAnalyzer;
    let result = analyzer.analyze("yield outside generator", "yield 5", 1);
    assert_eq!(result.code, "E0042");
}

#[test]
fn test_break_error() {
    let analyzer = StatementAnalyzer;
    let result = analyzer.analyze("break outside loop", "break;", 1);
    assert_eq!(result.code, "E0043");
}

#[test]
fn test_empty_type_annotation() {
    let analyzer = TypeScriptAnalyzer;
    assert!(analyzer.can_analyze("type error", "const x: "));

    let result = analyzer.analyze("error", "const x: = 5;", 10);
    assert_eq!(result.code, "E0020");
    assert!(result.message.contains("vide"));
}

#[test]
fn test_missing_parameter_type() {
    let analyzer = TypeScriptAnalyzer;
    let result = analyzer.analyze("error", "function foo(x:) {}", 14);
    assert_eq!(result.code, "E0021");
}

#[test]
fn test_invalid_generic() {
    let analyzer = TypeScriptAnalyzer;
    let result = analyzer.analyze("error", "const arr: Array<> = []", 17);
    assert_eq!(result.code, "E0022");
}

#[test]
fn test_missing_brace() {
    let analyzer = UnclosedBracketAnalyzer;
    assert!(analyzer.can_analyze("Expected `}`", ""));

    let result = analyzer.analyze("Expected `}`", "const obj = { name: 'test'", 12);
    assert_eq!(result.code, "E0002");
    assert!(result.message.contains("accolade"));
}

#[test]
fn test_missing_bracket() {
    let analyzer = UnclosedBracketAnalyzer;
    let result = analyzer.analyze("Expected `]`", "const arr = [1, 2", 12);
    assert!(result.message.contains("crochet"));
}

#[test]
fn test_missing_paren() {
    let analyzer = UnclosedBracketAnalyzer;
    let result = analyzer.analyze("Expected `)`", "foo(1, 2", 4);
    assert!(result.message.contains("parenthèse"));
}

#[test]
fn test_double_operator() {
    let analyzer = UnexpectedTokenAnalyzer;
    assert!(analyzer.can_analyze("Unexpected token", ""));

    let result = analyzer.analyze("Unexpected token", "const x = = 5;", 11);
    assert_eq!(result.code, "E0001");
    assert!(result.message.contains("double"));
}

#[test]
fn test_missing_value() {
    let analyzer = UnexpectedTokenAnalyzer;
    let result = analyzer.analyze("Unexpected token", "const x =", 9);
    assert!(result.help.contains("valeur"));
}

#[test]
fn test_unterminated_string() {
    let analyzer = UnterminatedAnalyzer;
    assert!(analyzer.can_analyze("Unterminated string literal", ""));

    let result = analyzer.analyze("Unterminated string literal", "const msg = \"hello", 12);
    assert_eq!(result.code, "E0003");
    assert!(result.message.contains("Chaîne"));
}

#[test]
fn test_unterminated_template() {
    let analyzer = UnterminatedAnalyzer;
    let result = analyzer.analyze("Unterminated template literal", "const msg = `hello", 12);
    assert!(result.message.contains("Template"));
}
