//! A plain description of a module's top-level statements, and which
//! exports a tree shake keeps, decided over it.

use vstd::prelude::*;

use crate::text::{chars_of, same_chars};

verus! {

/// What an import brings in.
#[derive(Debug, Clone)]
pub enum ImportSpec {
    /// `import { name }`: the imported name.
    Named(String),
    /// `import name`.
    Default,
    /// `import * as name`.
    Namespace,
}

/// A top-level statement, as far as module analysis and tree shaking look
/// at it.
#[derive(Debug, Clone)]
pub enum ModuleItem {
    /// An import from `source`, with its specifier list where it has one.
    Import { source: String, specifiers: Option<Vec<ImportSpec>> },
    /// `export { a, b }`, optionally `from` a source, or an exported
    /// declaration: for a variable declaration the name of each declarator
    /// (none for a destructuring pattern), for a function or class its one
    /// optional name, for any other declaration nothing.
    ExportNamed { source: Option<String>, specifiers: Vec<String>, declaration: Option<Vec<Option<String>>> },
    /// `export default ...`.
    ExportDefault,
    /// `export * from source`, with the name of `export * as name`.
    ExportAll { source: String, exported: Option<String> },
    /// An expression statement that calls or assigns.
    Effect,
    /// Any other statement.
    Other,
}

/// The name an exported declaration binds first, where it binds one.
pub open spec fn first_binding(declaration: Option<Vec<Option<String>>>) -> Option<String> {
    match declaration {
        Some(v) => if v@.len() > 0 {
            v@[0]
        } else {
            None
        },
        None => None,
    }
}

/// `name` is among `used`.
pub open spec fn is_used(used: Seq<String>, name: Seq<char>) -> bool {
    exists|i: int| 0 <= i < used.len() && (#[trigger] used[i])@ == name
}

/// The names of `names` that are not used, in order.
pub open spec fn unused_names(used: Seq<String>, names: Seq<String>) -> Seq<Seq<char>>
    decreases names.len(),
{
    if names.len() == 0 {
        Seq::empty()
    } else {
        let rest = unused_names(used, names.drop_last());
        if is_used(used, names.last()@) {
            rest
        } else {
            rest.push(names.last()@)
        }
    }
}

/// Some name of `names` is used.
pub open spec fn any_used(used: Seq<String>, names: Seq<String>) -> bool {
    exists|i: int| 0 <= i < names.len() && is_used(used, (#[trigger] names[i])@)
}

/// Whether an item stays, and the export names it drops, given the used
/// names; `*` among them keeps every export.
pub open spec fn shake_item(item: ModuleItem, used: Seq<String>) -> (bool, Seq<Seq<char>>) {
    let all = is_used(used, "*"@);
    match item {
        ModuleItem::ExportNamed { source, specifiers, declaration } => {
            if all {
                (true, Seq::empty())
            } else if specifiers@.len() > 0 {
                (any_used(used, specifiers@), unused_names(used, specifiers@))
            } else if first_binding(declaration) is Some {
                if is_used(used, first_binding(declaration)->0@) {
                    (true, Seq::empty())
                } else {
                    (false, seq![first_binding(declaration)->0@])
                }
            } else {
                (true, Seq::empty())
            }
        },
        ModuleItem::ExportDefault => {
            if all || is_used(used, "default"@) {
                (true, Seq::empty())
            } else {
                (false, seq!["default"@])
            }
        },
        ModuleItem::ExportAll { source, exported } => {
            if all || exported is None {
                (true, Seq::empty())
            } else if is_used(used, exported->0@) {
                (true, Seq::empty())
            } else {
                (false, seq![exported->0@])
            }
        },
        _ => (true, Seq::empty()),
    }
}

/// The export names `items` drop, in order.
pub open spec fn removed_by(items: Seq<ModuleItem>, used: Seq<String>) -> Seq<Seq<char>>
    decreases items.len(),
{
    if items.len() == 0 {
        Seq::empty()
    } else {
        removed_by(items.drop_last(), used) + shake_item(items.last(), used).1
    }
}

/// The views of a sequence of texts.
pub open spec fn texts(v: Seq<String>) -> Seq<Seq<char>> {
    v.map_values(|s: String| s@)
}

fn used_name(used: &Vec<String>, name: &str) -> (r: bool)
    ensures
        r == is_used(used@, name@),
{
    let target = chars_of(name);
    let mut i: usize = 0;
    while i < used.len()
        invariant
            i <= used@.len(),
            target@ == name@,
            forall|k: int| 0 <= k < i ==> (#[trigger] used@[k])@ != name@,
        decreases used@.len() - i,
    {
        let candidate = chars_of(used[i].as_str());
        if same_chars(candidate.as_slice(), target.as_slice()) {
            return true;
        }
        i = i + 1;
    }
    false
}

/// The names of `names` not among `used`, and whether any of them is.
fn split_used(used: &Vec<String>, names: &Vec<String>) -> (r: (bool, Vec<String>))
    ensures
        r.0 == any_used(used@, names@),
        texts(r.1@) == unused_names(used@, names@),
{
    let mut found = false;
    let mut unused: Vec<String> = Vec::new();
    let mut i: usize = 0;
    while i < names.len()
        invariant
            i <= names@.len(),
            found == any_used(used@, names@.subrange(0, i as int)),
            texts(unused@) == unused_names(used@, names@.subrange(0, i as int)),
        decreases names@.len() - i,
    {
        let ghost prefix = names@.subrange(0, i as int);
        let ghost next = names@.subrange(0, i + 1);
        assert(next.drop_last() =~= prefix);
        let name = names[i].clone();
        if used_name(used, name.as_str()) {
            found = true;
            assert(next[i as int] == names@[i as int]);
        } else {
            let ghost before = unused@;
            unused.push(name);
            assert(texts(unused@) =~= texts(before).push(names@[i as int]@));
            assert forall|k: int| 0 <= k < next.len() && is_used(used@, (#[trigger] next[k])@) implies 0
                <= k < prefix.len() && is_used(used@, prefix[k]@) by {
                if k < i {
                    assert(next[k] == prefix[k]);
                }
            }
        }
        assert forall|k: int| 0 <= k < prefix.len() && is_used(used@, (#[trigger] prefix[k])@) implies 0
            <= k < next.len() && is_used(used@, next[k]@) by {
            assert(next[k] == prefix[k]);
        }
        i = i + 1;
    }
    assert(names@.subrange(0, names@.len() as int) =~= names@);
    (found, unused)
}

fn first_declared_name(declaration: &Option<Vec<Option<String>>>) -> (r: Option<String>)
    ensures
        r == first_binding(*declaration),
{
    match declaration {
        Some(v) => if v.len() > 0 {
            v[0].clone()
        } else {
            None
        },
        None => None,
    }
}

/// Decides, for each item in order, whether it stays, and lists the export
/// names dropped, in the order they are met.
pub fn shake_exports(items: &Vec<ModuleItem>, used: &Vec<String>) -> (r: (Vec<bool>, Vec<String>))
    ensures
        r.0@.len() == items@.len(),
        forall|i: int| 0 <= i < items@.len() ==> r.0@[i] == (#[trigger] shake_item(items@[i], used@)).0,
        texts(r.1@) == removed_by(items@, used@),
{
    let all = used_name(used, "*");
    let mut keep: Vec<bool> = Vec::new();
    let mut removed: Vec<String> = Vec::new();
    let mut i: usize = 0;
    while i < items.len()
        invariant
            i <= items@.len(),
            all == is_used(used@, "*"@),
            keep@.len() == i,
            forall|k: int| 0 <= k < i ==> keep@[k] == (#[trigger] shake_item(items@[k], used@)).0,
            texts(removed@) == removed_by(items@.subrange(0, i as int), used@),
        decreases items@.len() - i,
    {
        let ghost before = removed@;
        let (stays, dropped): (bool, Vec<String>) = match &items[i] {
            ModuleItem::ExportNamed { source: _, specifiers, declaration } => {
                if all {
                    (true, Vec::new())
                } else if specifiers.len() > 0 {
                    split_used(used, specifiers)
                } else {
                    match first_declared_name(declaration) {
                        Some(name) => {
                            if used_name(used, name.as_str()) {
                                (true, Vec::new())
                            } else {
                                (false, vec![name])
                            }
                        },
                        None => (true, Vec::new()),
                    }
                }
            },
            ModuleItem::ExportDefault => {
                if all || used_name(used, "default") {
                    (true, Vec::new())
                } else {
                    (false, vec![String::from_str("default")])
                }
            },
            ModuleItem::ExportAll { source: _, exported } => {
                match exported {
                    None => (true, Vec::new()),
                    Some(name) => {
                        if all || used_name(used, name.as_str()) {
                            (true, Vec::new())
                        } else {
                            (false, vec![name.clone()])
                        }
                    },
                }
            },
            _ => (true, Vec::new()),
        };
        assert(texts(dropped@) =~= shake_item(items@[i as int], used@).1);
        keep.push(stays);
        let mut j: usize = 0;
        while j < dropped.len()
            invariant
                j <= dropped@.len(),
                texts(removed@) == texts(before) + texts(dropped@.subrange(0, j as int)),
            decreases dropped@.len() - j,
        {
            let ghost mid = removed@;
            removed.push(dropped[j].clone());
            assert(texts(removed@) =~= texts(mid).push(dropped@[j as int]@));
            assert(texts(dropped@.subrange(0, j + 1)) =~= texts(dropped@.subrange(0, j as int)).push(
                dropped@[j as int]@,
            ));
            j = j + 1;
        }
        assert(dropped@.subrange(0, dropped@.len() as int) =~= dropped@);
        assert(items@.subrange(0, i + 1).drop_last() =~= items@.subrange(0, i as int));
        assert(items@.subrange(0, i + 1).last() == items@[i as int]);
        i = i + 1;
    }
    assert(items@.subrange(0, items@.len() as int) =~= items@);
    (keep, removed)
}

} // verus!
