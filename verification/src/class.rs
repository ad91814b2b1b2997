//! What a class is: the keys, inputs and outputs that it declares, and what
//! every entity understands whatever its class.
use vstd::prelude::*;

use crate::behaviour::{fresh_behaviour, Behaviour};
use crate::classes::env::TonemapSettings;
use crate::classes::tables::{
    class_list, class_rows, declared_inputs, declared_keys, declared_outputs, inputs_of, keys_of, outputs_of, rows,
    ClassKind,
};
use crate::context::{Context, ContextView, OutboxView};
use crate::entity::{fresh, EntityCore, EntityId};
use crate::io::FieldType;
use crate::list::{placed, Entity, EntityView, SlotView};
use crate::text::same_name;

verus! {

/// Whether an entity is to stay once it has spawned.
#[derive(Debug, Clone, Copy, PartialEq, Eq, Structural)]
pub enum SpawnResult {
    Keep,
    Remove,
}

/// How an entity is used.
#[derive(Debug, Clone, Copy, PartialEq, Eq, Structural)]
pub enum UseType {
    Off,
    On,
    SetTo,
    Toggle,
    Other,
}

impl UseType {
    pub open spec fn of(id: u32) -> UseType {
        if id == 0 {
            UseType::Off
        } else if id == 1 {
            UseType::On
        } else if id == 2 {
            UseType::SetTo
        } else if id == 3 {
            UseType::Toggle
        } else {
            UseType::Other
        }
    }

    /// The use that an output's number stands for.
    pub fn from_output_id(id: u32) -> (r: UseType)
        ensures
            r == UseType::of(id),
    {
        match id {
            0 => UseType::Off,
            1 => UseType::On,
            2 => UseType::SetTo,
            3 => UseType::Toggle,
            _ => UseType::Other,
        }
    }
}

/// An input that a class declares: its name, and the kind of value it takes.
#[derive(Debug, Clone, Copy)]
pub struct InputDef {
    pub name: &'static str,
    pub field: FieldType,
}

pub struct InputDefView {
    pub name: Seq<char>,
    pub field: FieldType,
}

impl View for InputDef {
    type V = InputDefView;

    open spec fn view(&self) -> InputDefView {
        InputDefView { name: self.name@, field: self.field }
    }
}

impl InputDef {
    pub fn new(name: &'static str, field: FieldType) -> (r: InputDef)
        ensures
            r@ == (InputDefView { name: name@, field }),
    {
        InputDef { name, field }
    }
}

/// Names, as mathematical texts.
pub open spec fn names(list: Seq<&'static str>) -> Seq<Seq<char>> {
    list.map_values(|s: &'static str| s@)
}

/// Inputs, as mathematical ones.
pub open spec fn inputs(list: Seq<InputDef>) -> Seq<InputDefView> {
    list.map_values(|d: InputDef| d@)
}

/// The first of some names, from place `i` on, that a name is but for case.
pub open spec fn name_place(list: Seq<Seq<char>>, name: Seq<char>, i: int) -> Option<int>
    decreases list.len() - i,
{
    if 0 <= i < list.len() {
        if same_name(name, list[i]) { Some(i) } else { name_place(list, name, i + 1) }
    } else {
        None
    }
}

/// The first of some inputs, from place `i` on, that has a name but for case.
pub open spec fn input_place(list: Seq<InputDefView>, name: Seq<char>, i: int) -> Option<int>
    decreases list.len() - i,
{
    if 0 <= i < list.len() {
        if same_name(name, list[i].name) { Some(i) } else { input_place(list, name, i + 1) }
    } else {
        None
    }
}

/// Where a name stands among others.
pub fn find_name(list: &Vec<&'static str>, name: &str) -> (r: Option<usize>)
    ensures
        r is Some == name_place(names(list@), name@, 0) is Some,
        r matches Some(i) ==> name_place(names(list@), name@, 0) == Some(i as int) && i < list.len(),
{
    let mut i: usize = 0;
    while i < list.len()
        invariant
            i <= list.len(),
            name_place(names(list@), name@, 0) == name_place(names(list@), name@, i as int),
        decreases list.len() - i,
    {
        if name.eq_ignore_ascii_case(list[i]) {
            return Some(i);
        }
        i = i + 1;
    }
    None
}

/// Where an input stands among others.
pub fn find_input(list: &Vec<InputDef>, name: &str) -> (r: Option<usize>)
    ensures
        r is Some == input_place(inputs(list@), name@, 0) is Some,
        r matches Some(i) ==> input_place(inputs(list@), name@, 0) == Some(i as int) && i < list.len(),
{
    let mut i: usize = 0;
    while i < list.len()
        invariant
            i <= list.len(),
            input_place(inputs(list@), name@, 0) == input_place(inputs(list@), name@, i as int),
        decreases list.len() - i,
    {
        if name.eq_ignore_ascii_case(list[i].name) {
            return Some(i);
        }
        i = i + 1;
    }
    None
}

/// A class that is a place and nothing more.
#[derive(Debug, Clone, Copy, PartialEq, Eq, Structural)]
pub struct PointEntity;

impl PointEntity {
    pub fn create() -> (r: PointEntity)
        ensures
            r == PointEntity,
    {
        PointEntity
    }
}

/// A class: its name, what it declares, and what it is.
#[derive(Debug)]
pub struct ClassDef {
    pub name: &'static str,
    pub keys: Vec<&'static str>,
    pub inputs: Vec<InputDef>,
    pub outputs: Vec<&'static str>,
    pub kind: ClassKind,
}

pub struct ClassDefView {
    pub name: Seq<char>,
    pub keys: Seq<Seq<char>>,
    pub inputs: Seq<InputDefView>,
    pub outputs: Seq<Seq<char>>,
    pub kind: ClassKind,
}

impl View for ClassDef {
    type V = ClassDefView;

    open spec fn view(&self) -> ClassDefView {
        ClassDefView {
            name: self.name@,
            keys: names(self.keys@),
            inputs: inputs(self.inputs@),
            outputs: names(self.outputs@),
            kind: self.kind,
        }
    }
}

/// The class of a name.
pub open spec fn class_of(name: Seq<char>, kind: ClassKind) -> ClassDefView {
    ClassDefView {
        name,
        keys: declared_keys(kind),
        inputs: declared_inputs(kind),
        outputs: declared_outputs(kind),
        kind,
    }
}

impl ClassDefView {
    /// The declared name of an output, however it is spelled.
    pub open spec fn output_named(self, name: Seq<char>) -> Option<Seq<char>> {
        match name_place(self.outputs, name, 0) {
            Some(i) => Some(self.outputs[i]),
            None => None,
        }
    }

    pub open spec fn reads(self, key: Seq<char>) -> bool {
        name_place(self.keys, key, 0) is Some
    }

    /// The kind of value that an input takes, if it is declared.
    pub open spec fn takes(self, name: Seq<char>) -> Option<FieldType> {
        match input_place(self.inputs, name, 0) {
            Some(i) => Some(self.inputs[i].field),
            None => None,
        }
    }
}

impl ClassDef {
    pub fn new(name: &'static str, kind: ClassKind) -> (r: ClassDef)
        ensures
            r@ == class_of(name@, kind),
    {
        ClassDef { name, keys: keys_of(kind), inputs: inputs_of(kind), outputs: outputs_of(kind), kind }
    }

    /// The declared name of an output, however it is spelled.
    pub fn declared_output(&self, name: &str) -> (r: Option<&'static str>)
        ensures
            r is Some == self@.output_named(name@) is Some,
            r matches Some(output) ==> self@.output_named(name@) == Some(output@),
    {
        match find_name(&self.outputs, name) {
            Some(i) => Some(self.outputs[i]),
            None => None,
        }
    }

    /// Whether the class has an output.
    pub fn declares_output(&self, name: &str) -> (r: bool)
        ensures
            r == self@.output_named(name@) is Some,
    {
        self.declared_output(name).is_some()
    }

    /// Whether the class reads a key.
    pub fn declares_key(&self, name: &str) -> (r: bool)
        ensures
            r == self@.reads(name@),
    {
        find_name(&self.keys, name).is_some()
    }

    /// The kind of value that an input takes, if it is declared.
    pub fn input_type(&self, name: &str) -> (r: Option<FieldType>)
        ensures
            r == self@.takes(name@),
    {
        match find_input(&self.inputs, name) {
            Some(i) => Some(self.inputs[i].field),
            None => None,
        }
    }
}

/// The first row of a class table, from place `i` on, of a name but for case.
pub open spec fn row_place(list: Seq<(Seq<char>, ClassKind)>, name: Seq<char>, i: int) -> Option<int>
    decreases list.len() - i,
{
    if 0 <= i < list.len() {
        if same_name(name, list[i].0) { Some(i) } else { row_place(list, name, i + 1) }
    } else {
        None
    }
}

/// The class that a classname stands for, however it is spelled.
pub open spec fn class_named(name: Seq<char>) -> Option<ClassDefView> {
    match row_place(class_list(), name, 0) {
        Some(i) => Some(class_of(class_list()[i].0, class_list()[i].1)),
        None => None,
    }
}

/// Where a classname stands in a class table, however it is spelled.
pub fn find_row(table: &Vec<(&'static str, ClassKind)>, classname: &str) -> (r: Option<usize>)
    ensures
        r is Some == row_place(rows(table@), classname@, 0) is Some,
        r matches Some(i) ==> row_place(rows(table@), classname@, 0) == Some(i as int) && i < table.len(),
{
    let mut i: usize = 0;
    while i < table.len()
        invariant
            i <= table.len(),
            row_place(rows(table@), classname@, 0) == row_place(rows(table@), classname@, i as int),
        decreases table.len() - i,
    {
        assert(rows(table@)[i as int] == (table@[i as int].0@, table@[i as int].1));
        if classname.eq_ignore_ascii_case(table[i].0) {
            return Some(i);
        }
        i = i + 1;
    }
    assert(rows(table@).len() == table@.len());
    None
}

/// The class that a classname stands for, however it is spelled.
pub fn lookup(classname: &str) -> (r: Option<ClassDef>)
    ensures
        r is Some == class_named(classname@) is Some,
        r matches Some(class) ==> class_named(classname@) == Some(class@),
{
    let table = class_rows();
    match find_row(&table, classname) {
        Some(i) => {
            assert(class_list()[i as int] == (table@[i as int].0@, table@[i as int].1));
            Some(ClassDef::new(table[i].0, table[i].1))
        }
        None => None,
    }
}

/// Every class, in the order of the table.
pub fn classes() -> (r: Vec<ClassDef>)
    ensures
        r@.len() == class_list().len(),
        forall|i: int|
            0 <= i < r@.len() ==> (#[trigger] r@[i])@ == class_of(class_list()[i].0, class_list()[i].1),
{
    let table = class_rows();
    let mut out: Vec<ClassDef> = Vec::new();
    let mut i: usize = 0;
    while i < table.len()
        invariant
            i <= table.len(),
            rows(table@) == class_list(),
            out@.len() == i,
            forall|k: int|
                0 <= k < i ==> (#[trigger] out@[k])@ == class_of(class_list()[k].0, class_list()[k].1),
        decreases table.len() - i,
    {
        assert(class_list()[i as int] == (table@[i as int].0@, table@[i as int].1));
        out.push(ClassDef::new(table[i].0, table[i].1));
        i = i + 1;
    }
    assert(rows(table@).len() == table@.len());
    out
}

impl Entity {
    /// A fresh entity of a class, before any key has been read. `tonemap` is
    /// what the renderer starts with.
    pub fn new(class: &ClassDef, tonemap: TonemapSettings) -> (r: Entity)
        ensures
            r@ == fresh_entity(class@.name, class@.kind, tonemap),
            r.behaviour@.wf(),
    {
        Entity { core: EntityCore::new(class.name), behaviour: Behaviour::create(class.kind, tonemap) }
    }
}

/// A fresh entity of a class, before any key has been read.
pub open spec fn fresh_entity(name: Seq<char>, kind: ClassKind, tonemap: TonemapSettings) -> EntityView {
    EntityView { core: fresh(name), behaviour: fresh_behaviour(kind, tonemap) }
}

impl ContextView {
    /// The handle that the next entity gets.
    pub open spec fn next_id(self) -> EntityId {
        EntityId { slot: self.entities.len() as usize, serial: 0 }
    }

    /// The server after an entity of a class was made.
    pub open spec fn creating(self, classname: Seq<char>) -> ContextView {
        match class_named(classname) {
            Some(class) => {
                let id = self.next_id();
                let entity = placed(fresh_entity(class.name, class.kind, self.tables.tonemap), id);
                ContextView {
                    entities: self.entities.push(SlotView { serial: 0, entity: Some(entity) }),
                    outbox: OutboxView { created: self.outbox.created.push(id), ..self.outbox },
                    ..self
                }
            },
            None => self,
        }
    }
}

impl Context {
    /// Makes an entity of a class, if there is such a class.
    pub fn create_entity(&mut self, classname: &str) -> (r: Option<EntityId>)
        ensures
            r == (if class_named(classname@) is Some { Some(old(self)@.next_id()) } else { None }),
            final(self)@ == old(self)@.creating(classname@),
            r matches Some(id) ==> final(self)@.holds(id),
    {
        match lookup(classname) {
            Some(class) => {
                let id = self.entities.insert(Entity::new(&class, self.tables.tonemap));
                self.outbox.created.push(id);
                Some(id)
            }
            None => None,
        }
    }
}

/// A classname stands for the same class however its letters are cased.
pub proof fn lookup_ignores_case(a: Seq<char>, b: Seq<char>)
    requires
        same_name(a, b),
    ensures
        class_named(a) == class_named(b),
{
    row_place_ignores_case(class_list(), a, b, 0);
}

pub proof fn row_place_ignores_case(list: Seq<(Seq<char>, ClassKind)>, a: Seq<char>, b: Seq<char>, i: int)
    requires
        same_name(a, b),
    ensures
        row_place(list, a, i) == row_place(list, b, i),
    decreases list.len() - i,
{
    reveal(same_name);
    if 0 <= i < list.len() {
        row_place_ignores_case(list, a, b, i + 1);
    }
}

/// An output, a key and an input are found however their letters are cased.
pub proof fn declarations_ignore_case(class: ClassDefView, a: Seq<char>, b: Seq<char>)
    requires
        same_name(a, b),
    ensures
        class.output_named(a) == class.output_named(b),
        class.reads(a) == class.reads(b),
        class.takes(a) == class.takes(b),
{
    name_place_ignores_case(class.outputs, a, b, 0);
    name_place_ignores_case(class.keys, a, b, 0);
    input_place_ignores_case(class.inputs, a, b, 0);
}

proof fn name_place_ignores_case(list: Seq<Seq<char>>, a: Seq<char>, b: Seq<char>, i: int)
    requires
        same_name(a, b),
    ensures
        name_place(list, a, i) == name_place(list, b, i),
    decreases list.len() - i,
{
    reveal(same_name);
    if 0 <= i < list.len() {
        name_place_ignores_case(list, a, b, i + 1);
    }
}

proof fn input_place_ignores_case(list: Seq<InputDefView>, a: Seq<char>, b: Seq<char>, i: int)
    requires
        same_name(a, b),
    ensures
        input_place(list, a, i) == input_place(list, b, i),
    decreases list.len() - i,
{
    reveal(same_name);
    if 0 <= i < list.len() {
        input_place_ignores_case(list, a, b, i + 1);
    }
}

} // verus!
