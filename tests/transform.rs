use facetpack::{Command, JsxRuntime, SourceType, TransformCommand, TransformOptions, TransformOutput};

#[test]
fn test_transform_typescript_stripping() {
    let command = TransformCommand::new("test.ts".to_string(), "const x: number = 1;".to_string(), None);
    let result = command.execute().unwrap();

    assert!(result.errors.is_empty());
    assert!(!result.code.contains(":"));
    assert!(result.code.contains("const x = 1"));
}

#[test]
fn test_transform_jsx_automatic() {
    let command = TransformCommand::new(
        "test.tsx".to_string(),
        "const App = () => <div>Hello</div>;".to_string(),
        None,
    );
    let result = command.execute().unwrap();

    assert!(result.errors.is_empty());
    assert!(!result.code.contains("<div>"));
    assert!(result.code.contains("jsx"));
}

#[test]
fn test_transform_jsx_classic() {
    let options = TransformOptions { jsx_runtime: Some(JsxRuntime::Classic), ..Default::default() };
    let command = TransformCommand::new(
        "test.tsx".to_string(),
        "const App = () => <div>Hello</div>;".to_string(),
        Some(options),
    );
    let result = command.execute().unwrap();

    assert!(result.errors.is_empty());
    assert!(!result.code.contains("<div>"));
    assert!(result.code.contains("createElement"));
}

#[test]
fn test_transform_with_sourcemap() {
    let options = TransformOptions { sourcemap: Some(true), ..Default::default() };
    let command = TransformCommand::new("test.ts".to_string(), "const x: number = 1;".to_string(), Some(options));
    let result = command.execute().unwrap();

    assert!(result.errors.is_empty());
    assert!(result.map.is_some());
    assert!(result.map.unwrap().contains("mappings"));
}

#[test]
fn test_transform_complex_tsx() {
    let code = r#"
      interface Props {
        name: string;
      }
      const Greeting = ({ name }: Props) => {
        return <div>Hello, {name}!</div>;
      };
      export default Greeting;
    "#;
    let command = TransformCommand::new("Greeting.tsx".to_string(), code.to_string(), None);
    let result = command.execute().unwrap();

    assert!(result.errors.is_empty());
    assert!(!result.code.contains("interface"));
    assert!(!result.code.contains(": Props"));
    assert!(!result.code.contains("<div>"));
}

#[test]
fn test_transform_all_source_types() {
    let options = TransformOptions { source_type: Some(SourceType::Module), ..Default::default() };
    let command = TransformCommand::new("test.txt".to_string(), "export const x = 1;".to_string(), Some(options));
    assert!(command.execute().is_ok());

    let options = TransformOptions { source_type: Some(SourceType::Script), ..Default::default() };
    let command = TransformCommand::new("test.txt".to_string(), "var x = 1;".to_string(), Some(options));
    assert!(command.execute().is_ok());

    let options = TransformOptions { source_type: Some(SourceType::Jsx), ..Default::default() };
    let command = TransformCommand::new("test.txt".to_string(), "<div/>".to_string(), Some(options));
    assert!(command.execute().is_ok());

    let options = TransformOptions { source_type: Some(SourceType::Tsx), ..Default::default() };
    let command = TransformCommand::new("test.txt".to_string(), "<div/>".to_string(), Some(options));
    assert!(command.execute().is_ok());

    let options = TransformOptions { source_type: Some(SourceType::Typescript), ..Default::default() };
    let command = TransformCommand::new("test.txt".to_string(), "const x: number = 1;".to_string(), Some(options));
    assert!(command.execute().is_ok());
}

#[test]
fn test_transform_parse_error() {
    let command = TransformCommand::new("test.ts".to_string(), "const x: number = ;".to_string(), None);
    let result = command.execute();

    assert!(result.is_err());
}

#[test]
fn test_transform_empty_code() {
    let command = TransformCommand::new("test.js".to_string(), "".to_string(), None);
    let result = command.execute().unwrap();

    assert!(result.errors.is_empty());
}

#[test]
fn test_error_transform_invalid_jsx_attribute() {
    let code = r#"const App = () => <View style= />;"#;
    let command = TransformCommand::new("Component.tsx".to_string(), code.to_string(), None);
    let result = command.execute();
    assert!(result.is_err());
}

#[test]
fn test_error_transform_unclosed_jsx_tag() {
    let code = r#"const App = () => <View><Text>Hello</View>;"#;
    let command = TransformCommand::new("App.tsx".to_string(), code.to_string(), None);
    let result = command.execute();
    assert!(result.is_err());
}

#[test]
fn test_error_transform_invalid_typescript_generic() {
    let code = "const fn = <T,>(x: T) => x; fn<>(5);";
    let command = TransformCommand::new("generic.ts".to_string(), code.to_string(), None);
    let _result = command.execute();
}

#[test]
fn test_error_transform_mixed_jsx_children() {
    let code = r#"const App = () => <View>{items.map(i => <Text key={i}>{i}</Text>)}</View>;"#;
    let command = TransformCommand::new("List.tsx".to_string(), code.to_string(), None);
    let result = command.execute();
    assert!(result.is_ok());
}

#[test]
fn test_error_transform_async_in_wrong_context() {
    let code = r#"const x = await fetch('/api');"#;
    let command = TransformCommand::new("api.ts".to_string(), code.to_string(), None);
    let _result = command.execute();
}

fn output(panicked: bool, parse: &[&str], semantic: &[&str]) -> TransformOutput {
    TransformOutput {
        panicked,
        parse_errors: parse.iter().map(|s| s.to_string()).collect(),
        semantic_errors: semantic.iter().map(|s| s.to_string()).collect(),
        errors: vec!["late".to_string()],
        code: "x;".to_string(),
        map: None,
    }
}

#[test]
fn finish_orders_failures() {
    let e = TransformCommand::finish(output(true, &["p1", "p2"], &["s"])).err().unwrap();
    assert_eq!(e.to_message(), "Parse error: p1\np2");
    let e = TransformCommand::finish(output(false, &["p"], &["s1", "s2"])).err().unwrap();
    assert_eq!(e.to_message(), "Transform error: s1\ns2");
    let ok = TransformCommand::finish(output(false, &["p"], &[])).unwrap();
    assert_eq!(ok.code, "x;");
    assert_eq!(ok.errors, vec!["late".to_string()]);
    assert!(ok.diagnostics.is_empty());
}
