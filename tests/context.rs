use facetpack::ComponentContextDetector;

#[test]
fn test_detect_function_component() {
    let code = r#"
export default function MyComponent() {
  const x = 5;
  return <div />;
}
"#;
    let detector = ComponentContextDetector::new(code);
    assert_eq!(detector.detect(3), Some("Component: MyComponent".to_string()));
}

#[test]
fn test_detect_arrow_component() {
    let code = r#"
const UserProfile = () => {
  const error = here;
}
"#;
    let detector = ComponentContextDetector::new(code);
    assert_eq!(detector.detect(3), Some("Component: UserProfile".to_string()));
}

#[test]
fn test_detect_hook() {
    let code = r#"
function useCustomHook() {
  const state = something;
}
"#;
    let detector = ComponentContextDetector::new(code);
    assert_eq!(detector.detect(3), Some("Hook: useCustomHook".to_string()));
}

#[test]
fn detect_class_component() {
    let code = "class Profile extends React.Component {\n  render() {\n    return null;\n  }\n}\n";
    let detector = ComponentContextDetector::new(code);
    assert_eq!(detector.detect(3), Some("Class: Profile".to_string()));
}

#[test]
fn detect_nearest_declaration_wins() {
    let code = "function useOuter() {\n}\nconst Inner = () => {\n  let a = 1;\n}\n";
    let detector = ComponentContextDetector::new(code);
    assert_eq!(detector.detect(4), Some("Component: Inner".to_string()));
    assert_eq!(detector.detect(2), Some("Hook: useOuter".to_string()));
}

#[test]
fn detect_nothing_declared() {
    let detector = ComponentContextDetector::new("let a = 1;\nlet b = 2;\n");
    assert_eq!(detector.detect(2), None);
    let empty = ComponentContextDetector::new("");
    assert_eq!(empty.detect(1), None);
}

#[test]
fn detect_line_beyond_end_starts_at_last_line() {
    let code = "export function Panel() {\n  return 1;\n}";
    let detector = ComponentContextDetector::new(code);
    assert_eq!(detector.detect(99), Some("Component: Panel".to_string()));
    assert_eq!(detector.detect(0), Some("Component: Panel".to_string()));
}

#[test]
fn detect_lowercase_function_is_not_a_component() {
    let detector = ComponentContextDetector::new("function helper() {\n  return 1;\n}\n");
    assert_eq!(detector.detect(2), None);
}

#[test]
fn describe_line_prefers_component() {
    let r = ComponentContextDetector::describe_line(
        "class A extends B",
        Some("A".to_string()),
        Some("B".to_string()),
        None,
    );
    assert_eq!(r, Some("Component: A".to_string()));
    let r = ComponentContextDetector::describe_line("class A extends B", None, Some("A".to_string()), None);
    assert_eq!(r, Some("Class: A".to_string()));
    let r = ComponentContextDetector::describe_line("class A", None, Some("A".to_string()), None);
    assert_eq!(r, None);
    let r = ComponentContextDetector::describe_line("const useX = 1", None, None, Some("useX".to_string()));
    assert_eq!(r, Some("Hook: useX".to_string()));
}
