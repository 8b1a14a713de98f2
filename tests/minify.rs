use facetpack::{Command, MinifyCommand, MinifyOptions, MinifyOutput};

#[test]
fn test_minify_basic() {
    let code = r#"
      function hello(name) {
        console.log("Hello, " + name);
        return name;
      }
      hello("world");
    "#;
    let command = MinifyCommand::new(code.to_string(), "test.js".to_string(), None);
    let result = command.execute().unwrap();

    assert!(!result.code.contains("\n  "));
    assert!(result.code.len() < code.len());
}

#[test]
fn test_minify_with_mangle() {
    let code = r#"
      function calculateTotal(price, quantity) {
        const total = price * quantity;
        return total;
      }
    "#;
    let options = MinifyOptions { mangle: Some(true), compress: Some(true), ..Default::default() };
    let command = MinifyCommand::new(code.to_string(), "test.js".to_string(), Some(options));
    let result = command.execute().unwrap();

    assert!(!result.code.contains("calculateTotal"));
}

#[test]
fn test_minify_without_mangle() {
    let code = r#"
      export function calculateTotal(price, quantity) {
        const total = price * quantity;
        return total;
      }
    "#;
    let options = MinifyOptions { mangle: Some(false), compress: Some(false), ..Default::default() };
    let command = MinifyCommand::new(code.to_string(), "test.js".to_string(), Some(options));
    let result = command.execute().unwrap();

    assert!(result.code.contains("calculateTotal"));
}

#[test]
fn test_minify_drop_console() {
    let code = r#"
      console.log("debug");
      const x = 1;
    "#;
    let options = MinifyOptions { drop_console: Some(true), ..Default::default() };
    let command = MinifyCommand::new(code.to_string(), "test.js".to_string(), Some(options));
    let result = command.execute().unwrap();

    assert!(!result.code.contains("console.log"));
}

#[test]
fn test_minify_keep_console() {
    let code = r#"console.log("keep me"); const x = 1;"#;
    let options = MinifyOptions { drop_console: Some(false), ..Default::default() };
    let command = MinifyCommand::new(code.to_string(), "test.js".to_string(), Some(options));
    let result = command.execute().unwrap();

    assert!(result.code.contains("console"));
}

#[test]
fn test_minify_with_sourcemap() {
    let code = "const x = 1;";
    let options = MinifyOptions { sourcemap: Some(true), ..Default::default() };
    let command = MinifyCommand::new(code.to_string(), "test.js".to_string(), Some(options));
    let result = command.execute().unwrap();

    assert!(result.map.is_some());
    assert!(result.map.unwrap().contains("mappings"));
}

#[test]
fn test_minify_parse_error() {
    let code = "const x = ;";
    let command = MinifyCommand::new(code.to_string(), "test.js".to_string(), None);
    let result = command.execute();

    assert!(result.is_err());
}

#[test]
fn test_minify_empty() {
    let command = MinifyCommand::new("".to_string(), "test.js".to_string(), None);
    let result = command.execute().unwrap();

    assert!(result.code.is_empty() || result.code == "\n");
}

#[test]
fn test_minify_complex_code() {
    let code = r#"
      const users = [
        { id: 1, name: "Alice" },
        { id: 2, name: "Bob" },
      ];

      function findUser(id) {
        for (let i = 0; i < users.length; i++) {
          if (users[i].id === id) {
            return users[i];
          }
        }
        return null;
      }

      const result = findUser(1);
      if (result) {
        console.log(result.name);
      }
    "#;
    let command = MinifyCommand::new(code.to_string(), "test.js".to_string(), None);
    let result = command.execute().unwrap();

    assert!(result.code.len() < code.len());
}

#[test]
fn finish_reports_joined_errors_when_panicked() {
    let out = MinifyOutput {
        panicked: true,
        errors: vec!["a".to_string(), "b".to_string()],
        code: String::new(),
        map: None,
    };
    let err = MinifyCommand::finish(out).err().unwrap();
    assert_eq!(err.to_message(), "Parse error: a\nb");
    let out = MinifyOutput {
        panicked: false,
        errors: vec!["recovered".to_string()],
        code: "x=1;".to_string(),
        map: Some("{}".to_string()),
    };
    let ok = MinifyCommand::finish(out).unwrap();
    assert_eq!(ok.code, "x=1;");
    assert_eq!(ok.map.as_deref(), Some("{}"));
}
