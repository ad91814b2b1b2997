//! The classes of a map that stands still: those that are read and spawned,
//! and to which nothing is ever sent.
use vstd::prelude::*;

use crate::class::{find_row, row_place, row_place_ignores_case, ClassDef, ClassDefView};
use crate::classes::tables::{declared_keys, declared_outputs, keys_of, outputs_of, rows, ClassKind};
use crate::text::same_name;

verus! {

pub open spec fn still_list() -> Seq<(Seq<char>, ClassKind)> {
    seq![
        ("logic_relay"@, ClassKind::Relay),
        ("light"@, ClassKind::Light),
        ("light_spot"@, ClassKind::Light),
        ("light_directional"@, ClassKind::Light),
        ("light_glspot"@, ClassKind::Light),
        ("light_environment"@, ClassKind::EnvLight),
        ("func_instance_io_proxy"@, ClassKind::InstanceIoProxy),
        ("info_target"@, ClassKind::PointEntity),
        ("info_player_start"@, ClassKind::PointEntity),
        ("worldspawn"@, ClassKind::World),
    ]
}

fn still_rows() -> (r: Vec<(&'static str, ClassKind)>)
    ensures
        rows(r@) == still_list(),
{
    let r = vec![
        ("logic_relay", ClassKind::Relay),
        ("light", ClassKind::Light),
        ("light_spot", ClassKind::Light),
        ("light_directional", ClassKind::Light),
        ("light_glspot", ClassKind::Light),
        ("light_environment", ClassKind::EnvLight),
        ("func_instance_io_proxy", ClassKind::InstanceIoProxy),
        ("info_target", ClassKind::PointEntity),
        ("info_player_start", ClassKind::PointEntity),
        ("worldspawn", ClassKind::World),
    ];
    assert(rows(r@) =~= still_list());
    r
}

/// A class that takes no inputs.
pub open spec fn still_class_of(name: Seq<char>, kind: ClassKind) -> ClassDefView {
    ClassDefView {
        name,
        keys: declared_keys(kind),
        inputs: Seq::empty(),
        outputs: declared_outputs(kind),
        kind,
    }
}

fn still_class(name: &'static str, kind: ClassKind) -> (r: ClassDef)
    ensures
        r@ == still_class_of(name@, kind),
{
    let r = ClassDef { name, keys: keys_of(kind), inputs: Vec::new(), outputs: outputs_of(kind), kind };
    assert(r@.inputs =~= Seq::empty());
    r
}

/// The class that a classname stands for, however it is spelled.
pub open spec fn still_class_named(name: Seq<char>) -> Option<ClassDefView> {
    match row_place(still_list(), name, 0) {
        Some(i) => Some(still_class_of(still_list()[i].0, still_list()[i].1)),
        None => None,
    }
}

/// The class that a classname stands for, however it is spelled.
pub fn lookup(classname: &str) -> (r: Option<ClassDef>)
    ensures
        r is Some == still_class_named(classname@) is Some,
        r matches Some(class) ==> still_class_named(classname@) == Some(class@),
{
    let table = still_rows();
    match find_row(&table, classname) {
        Some(i) => {
            assert(still_list()[i as int] == (table@[i as int].0@, table@[i as int].1));
            Some(still_class(table[i].0, table[i].1))
        }
        None => None,
    }
}

/// Every class, in the order of the table.
pub fn classes() -> (r: Vec<ClassDef>)
    ensures
        r@.len() == still_list().len(),
        forall|i: int|
            0 <= i < r@.len() ==> (#[trigger] r@[i])@ == still_class_of(still_list()[i].0, still_list()[i].1),
{
    let table = still_rows();
    let mut out: Vec<ClassDef> = Vec::new();
    let mut i: usize = 0;
    while i < table.len()
        invariant
            i <= table.len(),
            rows(table@) == still_list(),
            out@.len() == i,
            forall|k: int|
                0 <= k < i ==> (#[trigger] out@[k])@ == still_class_of(still_list()[k].0, still_list()[k].1),
        decreases table.len() - i,
    {
        assert(still_list()[i as int] == (table@[i as int].0@, table@[i as int].1));
        out.push(still_class(table[i].0, table[i].1));
        i = i + 1;
    }
    assert(rows(table@).len() == table@.len());
    out
}

/// A classname stands for the same class however its letters are cased.
pub proof fn still_lookup_ignores_case(a: Seq<char>, b: Seq<char>)
    requires
        same_name(a, b),
    ensures
        still_class_named(a) == still_class_named(b),
{
    row_place_ignores_case(still_list(), a, b, 0);
}

} // verus!
