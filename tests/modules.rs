use facetpack::{
    join_lines, shake_exports, summarize, FacetpackError, ImportSpec, ModuleAnalysis, ModuleItem, ResolveResult,
};

fn s(v: &str) -> String {
    v.to_string()
}

fn declared(name: &str) -> ModuleItem {
    ModuleItem::ExportNamed { source: None, specifiers: vec![], declaration: Some(vec![Some(s(name))]) }
}

#[test]
fn shake_drops_unused_declarations() {
    let items = vec![declared("used"), declared("unused"), declared("alsoUnused"), ModuleItem::Other];
    let (keep, removed) = shake_exports(&items, &vec![s("used")]);
    assert_eq!(keep, vec![true, false, false, true]);
    assert_eq!(removed, vec![s("unused"), s("alsoUnused")]);
}

#[test]
fn shake_star_keeps_everything() {
    let items = vec![declared("a"), declared("b"), ModuleItem::ExportDefault];
    let (keep, removed) = shake_exports(&items, &vec![s("*")]);
    assert_eq!(keep, vec![true, true, true]);
    assert!(removed.is_empty());
}

#[test]
fn shake_default_export() {
    let items = vec![ModuleItem::ExportDefault, declared("named")];
    let (keep, removed) = shake_exports(&items, &vec![s("named")]);
    assert_eq!(keep, vec![false, true]);
    assert_eq!(removed, vec![s("default")]);
    let (keep, removed) = shake_exports(&items, &vec![s("default")]);
    assert_eq!(keep, vec![true, false]);
    assert_eq!(removed, vec![s("named")]);
}

#[test]
fn shake_specifier_lists_and_star_reexports() {
    let items = vec![
        ModuleItem::ExportNamed { source: None, specifiers: vec![s("a"), s("b"), s("c")], declaration: None },
        ModuleItem::ExportNamed { source: Some(s("./m")), specifiers: vec![s("x")], declaration: None },
        ModuleItem::ExportAll { source: s("./all"), exported: Some(s("ns")) },
        ModuleItem::ExportAll { source: s("./plain"), exported: None },
        ModuleItem::ExportNamed {
            source: None,
            specifiers: vec![],
            declaration: Some(vec![None, Some(s("later"))]),
        },
        ModuleItem::Import { source: s("react"), specifiers: None },
    ];
    let (keep, removed) = shake_exports(&items, &vec![s("b")]);
    assert_eq!(keep, vec![true, false, false, true, true, true]);
    assert_eq!(removed, vec![s("a"), s("c"), s("x"), s("ns")]);
}

#[test]
fn summary_of_exports_imports_and_effects() {
    let items = vec![
        ModuleItem::Import {
            source: s("react"),
            specifiers: Some(vec![ImportSpec::Default, ImportSpec::Named(s("useState"))]),
        },
        ModuleItem::Import { source: s("./styles.css"), specifiers: None },
        ModuleItem::Import { source: s("./empty"), specifiers: Some(vec![]) },
        ModuleItem::Import { source: s("./ns"), specifiers: Some(vec![ImportSpec::Namespace]) },
        ModuleItem::ExportNamed {
            source: None,
            specifiers: vec![],
            declaration: Some(vec![Some(s("foo")), None, Some(s("bar"))]),
        },
        ModuleItem::ExportNamed { source: Some(s("./module")), specifiers: vec![s("x")], declaration: None },
        ModuleItem::ExportDefault,
        ModuleItem::ExportAll { source: s("./other"), exported: None },
        ModuleItem::ExportAll { source: s("./named"), exported: Some(s("ns")) },
        ModuleItem::Other,
    ];
    let a = summarize(&items);
    assert!(!a.has_side_effects);
    let imports: Vec<(String, Vec<String>, bool)> =
        a.imports.iter().map(|i| (i.source.clone(), i.specifiers.clone(), i.is_side_effect)).collect();
    assert_eq!(
        imports,
        vec![
            (s("react"), vec![s("default"), s("useState")], false),
            (s("./styles.css"), vec![], true),
            (s("./empty"), vec![], true),
            (s("./ns"), vec![s("*")], false),
        ]
    );
    let exports: Vec<(String, bool, bool, Option<String>)> =
        a.exports.iter().map(|e| (e.name.clone(), e.is_default, e.is_reexport, e.source.clone())).collect();
    assert_eq!(
        exports,
        vec![
            (s("foo"), false, false, None),
            (s("bar"), false, false, None),
            (s("x"), false, true, Some(s("./module"))),
            (s("default"), true, false, None),
            (s("*"), false, true, Some(s("./other"))),
            (s("ns"), false, true, Some(s("./named"))),
        ]
    );
}

#[test]
fn summary_detects_effects() {
    let a = summarize(&vec![ModuleItem::Other, ModuleItem::Effect]);
    assert!(a.has_side_effects);
    assert!(a.exports.is_empty() && a.imports.is_empty());
    assert!(!summarize(&vec![]).has_side_effects);
}

#[test]
fn parse_failure_joins_messages() {
    let e = FacetpackError::parse_failure(&vec![s("first"), s("second"), s("third")]);
    assert_eq!(e.to_message(), "Parse error: first\nsecond\nthird");
    let e = FacetpackError::parse_failure(&vec![]);
    assert_eq!(e.to_message(), "Parse error: ");
}

#[test]
fn failed_analysis_assumes_effects() {
    let a = ModuleAnalysis::or_assume_effects(Err(FacetpackError::ParseError(s("x"))));
    assert!(a.has_side_effects && a.exports.is_empty() && a.imports.is_empty());
    let ok = ModuleAnalysis { exports: vec![], imports: vec![], has_side_effects: false };
    assert!(!ModuleAnalysis::or_assume_effects(Ok(ok)).has_side_effects);
}

#[test]
fn resolve_outcome_fields() {
    let r = ResolveResult::from_outcome(Ok(s("/a/b.js")));
    assert_eq!(r.path, Some(s("/a/b.js")));
    assert!(r.error.is_none());
    let r = ResolveResult::from_outcome(Err(s("not found")));
    assert_eq!(r.error, Some(s("not found")));
    assert!(r.path.is_none());
}

#[test]
fn transform_failure_joins_messages() {
    let e = FacetpackError::transform_failure(&vec![s("x is not defined"), s("y redeclared")]);
    assert_eq!(e.to_message(), "Transform error: x is not defined\ny redeclared");
    assert_eq!(join_lines(&vec![s("one")]), "one");
}

#[test]
fn default_registry_matches_new() {
    let a = facetpack::AnalyzerRegistry::default();
    assert_eq!(a.analyzers().len(), 8);
    assert_eq!(a.analyze("Unterminated template", "`x", 1).message, "Template literal non terminé");
}
