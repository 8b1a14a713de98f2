//! What a module exports, imports, and whether it has top-level effects,
//! read off a plain description of its top-level statements.

use vstd::prelude::*;

use crate::diagnostic::opt_view;
use crate::shake::{texts, ImportSpec, ModuleItem};
use crate::types::{ExportInfo, ImportInfo, ModuleAnalysis};

verus! {

/// An export as plain values: name, default, re-export, source.
pub open spec fn export_view(e: ExportInfo) -> (Seq<char>, bool, bool, Option<Seq<char>>) {
    (e.name@, e.is_default, e.is_reexport, opt_view(e.source))
}

/// An import as plain values: source, imported names, side-effect only.
pub open spec fn import_view(i: ImportInfo) -> (Seq<char>, Seq<Seq<char>>, bool) {
    (i.source@, texts(i.specifiers@), i.is_side_effect)
}

/// The name an import specifier records: the imported name, `default` or `*`.
pub open spec fn spec_name(s: ImportSpec) -> Seq<char> {
    match s {
        ImportSpec::Named(n) => n@,
        ImportSpec::Default => "default"@,
        ImportSpec::Namespace => "*"@,
    }
}

pub open spec fn import_names(specs: Seq<ImportSpec>) -> Seq<Seq<char>> {
    specs.map_values(|s: ImportSpec| spec_name(s))
}

/// The names a declaration binds, skipping destructuring patterns.
pub open spec fn declared_names(decl: Seq<Option<String>>) -> Seq<Seq<char>>
    decreases decl.len(),
{
    if decl.len() == 0 {
        Seq::empty()
    } else {
        declared_names(decl.drop_last()) + match decl.last() {
            Some(n) => seq![n@],
            None => Seq::empty(),
        }
    }
}

/// The exports one statement contributes, in order.
pub open spec fn item_exports(item: ModuleItem) -> Seq<(Seq<char>, bool, bool, Option<Seq<char>>)> {
    match item {
        ModuleItem::ExportNamed { source, specifiers, declaration } => specifiers@.map_values(
            |s: String| (s@, false, source is Some, opt_view(source)),
        ) + match declaration {
            Some(d) => declared_names(d@).map_values(
                |n: Seq<char>| (n, false, false, None::<Seq<char>>),
            ),
            None => Seq::empty(),
        },
        ModuleItem::ExportDefault => seq![("default"@, true, false, None::<Seq<char>>)],
        ModuleItem::ExportAll { source, exported } => seq![
            (
                match exported {
                    Some(n) => n@,
                    None => "*"@,
                },
                false,
                true,
                Some(source@),
            ),
        ],
        _ => Seq::empty(),
    }
}

/// The imports one statement contributes.
pub open spec fn item_imports(item: ModuleItem) -> Seq<(Seq<char>, Seq<Seq<char>>, bool)> {
    match item {
        ModuleItem::Import { source, specifiers } => seq![
            (
                source@,
                match specifiers {
                    Some(v) => import_names(v@),
                    None => Seq::empty(),
                },
                match specifiers {
                    Some(v) => v@.len() == 0,
                    None => true,
                },
            ),
        ],
        _ => Seq::empty(),
    }
}

pub open spec fn all_exports(items: Seq<ModuleItem>) -> Seq<(Seq<char>, bool, bool, Option<Seq<char>>)>
    decreases items.len(),
{
    if items.len() == 0 {
        Seq::empty()
    } else {
        all_exports(items.drop_last()) + item_exports(items.last())
    }
}

pub open spec fn all_imports(items: Seq<ModuleItem>) -> Seq<(Seq<char>, Seq<Seq<char>>, bool)>
    decreases items.len(),
{
    if items.len() == 0 {
        Seq::empty()
    } else {
        all_imports(items.drop_last()) + item_imports(items.last())
    }
}

/// Some statement calls or assigns at the top level.
pub open spec fn has_effect(items: Seq<ModuleItem>) -> bool {
    exists|i: int| 0 <= i < items.len() && (#[trigger] items[i]) is Effect
}

fn push_export(out: &mut Vec<ExportInfo>, name: String, is_default: bool, is_reexport: bool, source: Option<String>)
    ensures
        final(out)@.map_values(|e: ExportInfo| export_view(e)) == old(out)@.map_values(
            |e: ExportInfo| export_view(e),
        ).push((name@, is_default, is_reexport, opt_view(source))),
{
    out.push(ExportInfo { name, is_default, is_reexport, source });
    assert(final(out)@.map_values(|e: ExportInfo| export_view(e)) =~= old(out)@.map_values(
        |e: ExportInfo| export_view(e),
    ).push((name@, is_default, is_reexport, opt_view(source))));
}

fn named_exports(out: &mut Vec<ExportInfo>, source: &Option<String>, specifiers: &Vec<String>)
    ensures
        final(out)@.map_values(|e: ExportInfo| export_view(e)) == old(out)@.map_values(
            |e: ExportInfo| export_view(e),
        ) + specifiers@.map_values(|s: String| (s@, false, source is Some, opt_view(*source))),
{
    let ghost start = old(out)@.map_values(|e: ExportInfo| export_view(e));
    let mut i: usize = 0;
    while i < specifiers.len()
        invariant
            i <= specifiers@.len(),
            out@.map_values(|e: ExportInfo| export_view(e)) == start + specifiers@.subrange(0, i as int).map_values(
                |s: String| (s@, false, source is Some, opt_view(*source)),
            ),
        decreases specifiers@.len() - i,
    {
        push_export(out, specifiers[i].clone(), false, source.is_some(), source.clone());
        assert(specifiers@.subrange(0, i + 1).map_values(|s: String| (s@, false, source is Some, opt_view(*source)))
            =~= specifiers@.subrange(0, i as int).map_values(
            |s: String| (s@, false, source is Some, opt_view(*source)),
        ).push((specifiers@[i as int]@, false, source is Some, opt_view(*source))));
        i = i + 1;
    }
    assert(specifiers@.subrange(0, specifiers@.len() as int) =~= specifiers@);
}

fn declared_exports(out: &mut Vec<ExportInfo>, decl: &Vec<Option<String>>)
    ensures
        final(out)@.map_values(|e: ExportInfo| export_view(e)) == old(out)@.map_values(
            |e: ExportInfo| export_view(e),
        ) + declared_names(decl@).map_values(|n: Seq<char>| (n, false, false, None::<Seq<char>>)),
{
    let ghost start = old(out)@.map_values(|e: ExportInfo| export_view(e));
    let mut i: usize = 0;
    assert(decl@.subrange(0, 0) =~= Seq::<Option<String>>::empty());
    while i < decl.len()
        invariant
            i <= decl@.len(),
            out@.map_values(|e: ExportInfo| export_view(e)) == start + declared_names(decl@.subrange(0, i as int)).map_values(
                |n: Seq<char>| (n, false, false, None::<Seq<char>>),
            ),
        decreases decl@.len() - i,
    {
        assert(decl@.subrange(0, i + 1).drop_last() =~= decl@.subrange(0, i as int));
        match &decl[i] {
            Some(n) => {
                push_export(out, n.clone(), false, false, None);
                assert(declared_names(decl@.subrange(0, i + 1)).map_values(
                    |n: Seq<char>| (n, false, false, None::<Seq<char>>),
                ) =~= declared_names(decl@.subrange(0, i as int)).map_values(
                    |n: Seq<char>| (n, false, false, None::<Seq<char>>),
                ).push((n@, false, false, None::<Seq<char>>)));
            },
            None => {
                assert(declared_names(decl@.subrange(0, i + 1)) =~= declared_names(decl@.subrange(0, i as int)));
            },
        }
        i = i + 1;
    }
    assert(decl@.subrange(0, decl@.len() as int) =~= decl@);
}

fn import_entry(source: &String, specifiers: &Option<Vec<ImportSpec>>) -> (r: ImportInfo)
    ensures
        import_view(r) == item_imports(ModuleItem::Import { source: *source, specifiers: *specifiers })[0],
{
    let mut names: Vec<String> = Vec::new();
    let mut side_effect = true;
    match specifiers {
        Some(v) => {
            side_effect = v.len() == 0;
            let mut i: usize = 0;
            while i < v.len()
                invariant
                    i <= v@.len(),
                    texts(names@) == import_names(v@.subrange(0, i as int)),
                decreases v@.len() - i,
            {
                let name = match &v[i] {
                    ImportSpec::Named(n) => n.clone(),
                    ImportSpec::Default => String::from_str("default"),
                    ImportSpec::Namespace => String::from_str("*"),
                };
                let ghost before = names@;
                names.push(name);
                assert(texts(names@) =~= texts(before).push(spec_name(v@[i as int])));
                assert(import_names(v@.subrange(0, i + 1)) =~= import_names(v@.subrange(0, i as int)).push(
                    spec_name(v@[i as int]),
                ));
                i = i + 1;
            }
            assert(v@.subrange(0, v@.len() as int) =~= v@);
        },
        None => {
            assert(texts(names@) =~= Seq::<Seq<char>>::empty());
        },
    }
    ImportInfo { source: source.clone(), specifiers: names, is_side_effect: side_effect }
}

/// The module's exports and imports in statement order, and whether any
/// top-level statement calls or assigns.
pub fn summarize(items: &Vec<ModuleItem>) -> (r: ModuleAnalysis)
    ensures
        r.exports@.map_values(|e: ExportInfo| export_view(e)) == all_exports(items@),
        r.imports@.map_values(|i: ImportInfo| import_view(i)) == all_imports(items@),
        r.has_side_effects == has_effect(items@),
{
    let mut exports: Vec<ExportInfo> = Vec::new();
    let mut imports: Vec<ImportInfo> = Vec::new();
    let mut effects = false;
    let mut i: usize = 0;
    assert(exports@.map_values(|e: ExportInfo| export_view(e)) =~= all_exports(items@.subrange(0, 0)));
    assert(imports@.map_values(|e: ImportInfo| import_view(e)) =~= all_imports(items@.subrange(0, 0)));
    while i < items.len()
        invariant
            i <= items@.len(),
            exports@.map_values(|e: ExportInfo| export_view(e)) == all_exports(items@.subrange(0, i as int)),
            imports@.map_values(|e: ImportInfo| import_view(e)) == all_imports(items@.subrange(0, i as int)),
            effects == has_effect(items@.subrange(0, i as int)),
        decreases items@.len() - i,
    {
        let ghost prefix = items@.subrange(0, i as int);
        let ghost next = items@.subrange(0, i + 1);
        assert(next.drop_last() =~= prefix);
        assert(next.last() == items@[i as int]);
        let ghost ex_before = exports@.map_values(|e: ExportInfo| export_view(e));
        let ghost im_before = imports@.map_values(|e: ImportInfo| import_view(e));
        match &items[i] {
            ModuleItem::Import { source, specifiers } => {
                let entry = import_entry(source, specifiers);
                imports.push(entry);
                assert(imports@.map_values(|e: ImportInfo| import_view(e)) =~= im_before + item_imports(items@[i as int]));
                assert(exports@.map_values(|e: ExportInfo| export_view(e)) =~= ex_before + item_exports(items@[i as int]));
            },
            ModuleItem::ExportNamed { source, specifiers, declaration } => {
                named_exports(&mut exports, source, specifiers);
                match declaration {
                    Some(d) => declared_exports(&mut exports, d),
                    None => {},
                }
                assert(exports@.map_values(|e: ExportInfo| export_view(e)) =~= ex_before + item_exports(items@[i as int]));
                assert(imports@.map_values(|e: ImportInfo| import_view(e)) =~= im_before + item_imports(items@[i as int]));
            },
            ModuleItem::ExportDefault => {
                push_export(&mut exports, String::from_str("default"), true, false, None);
                assert(exports@.map_values(|e: ExportInfo| export_view(e)) =~= ex_before + item_exports(items@[i as int]));
                assert(imports@.map_values(|e: ImportInfo| import_view(e)) =~= im_before + item_imports(items@[i as int]));
            },
            ModuleItem::ExportAll { source, exported } => {
                let name = match exported {
                    Some(n) => n.clone(),
                    None => String::from_str("*"),
                };
                push_export(&mut exports, name, false, true, Some(source.clone()));
                assert(exports@.map_values(|e: ExportInfo| export_view(e)) =~= ex_before + item_exports(items@[i as int]));
                assert(imports@.map_values(|e: ImportInfo| import_view(e)) =~= im_before + item_imports(items@[i as int]));
            },
            ModuleItem::Effect => {
                effects = true;
                assert(exports@.map_values(|e: ExportInfo| export_view(e)) =~= ex_before + item_exports(items@[i as int]));
                assert(imports@.map_values(|e: ImportInfo| import_view(e)) =~= im_before + item_imports(items@[i as int]));
            },
            ModuleItem::Other => {
                assert(exports@.map_values(|e: ExportInfo| export_view(e)) =~= ex_before + item_exports(items@[i as int]));
                assert(imports@.map_values(|e: ImportInfo| import_view(e)) =~= im_before + item_imports(items@[i as int]));
            },
        }
        assert(has_effect(next) == (has_effect(prefix) || next[i as int] is Effect)) by {
            if has_effect(prefix) {
                let k = choose|k: int| 0 <= k < prefix.len() && (#[trigger] prefix[k]) is Effect;
                assert(next[k] == prefix[k]);
            }
            if has_effect(next) {
                let k = choose|k: int| 0 <= k < next.len() && (#[trigger] next[k]) is Effect;
                if k < i {
                    assert(prefix[k] == next[k]);
                }
            }
        }
        i = i + 1;
    }
    assert(items@.subrange(0, items@.len() as int) =~= items@);
    ModuleAnalysis { exports, imports, has_side_effects: effects }
}

} // verus!
