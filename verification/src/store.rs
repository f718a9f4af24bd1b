//! The metadata store: the classes with their prototype links, and the
//! decorator options that were registered for a class or for one of its
//! properties.

use crate::key::option_text;
use vstd::prelude::*;

verus! {

/// The options of one decorator. Of the host's record only the `enabled`
/// flag is read here; `record` says which record it is.
#[derive(Clone, Copy, Debug, PartialEq, Eq)]
pub struct JsonDecoratorOptions {
    /// Whether the decorator is switched on, where that was said.
    pub enabled: Option<bool>,
    /// The host's record that these options are taken from.
    pub record: u64,
}

/// What is registered under a metadata key.
#[derive(Clone, Copy, Debug, PartialEq, Eq)]
pub enum Metadata {
    /// The key is registered, and its value is the explicit `undefined`.
    Undefined,
    /// The key is registered with the options of a decorator.
    Options(JsonDecoratorOptions),
}

/// A class of the host's object model. Classes are numbered by their place
/// in [`MetadataStore::classes`].
#[derive(Clone, Debug, PartialEq, Eq)]
pub struct ClassType {
    /// The name by which the class is known; a class without one, or with an
    /// empty one, lies beyond the root of every prototype chain.
    pub name: Option<String>,
    /// The class next up the prototype chain.
    pub prototype: Option<usize>,
}

/// The mathematical content of a [`ClassType`].
pub struct ClassTypeView {
    pub name: Option<Seq<char>>,
    pub prototype: Option<usize>,
}

impl View for ClassType {
    type V = ClassTypeView;

    open spec fn view(&self) -> ClassTypeView {
        ClassTypeView { name: option_text(self.name), prototype: self.prototype }
    }
}

/// Metadata registered under `key` for the class `target` itself, or for its
/// property `property_key`.
#[derive(Clone, Debug, PartialEq, Eq)]
pub struct MetadataEntry {
    pub key: String,
    pub target: usize,
    pub property_key: Option<String>,
    pub value: Metadata,
}

/// The mathematical content of a [`MetadataEntry`].
pub struct MetadataEntryView {
    pub key: Seq<char>,
    pub target: usize,
    pub property_key: Option<Seq<char>>,
    pub value: Metadata,
}

impl View for MetadataEntry {
    type V = MetadataEntryView;

    open spec fn view(&self) -> MetadataEntryView {
        MetadataEntryView {
            key: self.key@,
            target: self.target,
            property_key: option_text(self.property_key),
            value: self.value,
        }
    }
}

/// The classes of the host and the metadata registered for them.
#[derive(Clone, Debug, PartialEq, Eq)]
pub struct MetadataStore {
    pub classes: Vec<ClassType>,
    pub entries: Vec<MetadataEntry>,
}

/// The mathematical content of a [`MetadataStore`].
pub struct MetadataStoreView {
    pub classes: Seq<ClassTypeView>,
    pub entries: Seq<MetadataEntryView>,
}

impl View for MetadataStore {
    type V = MetadataStoreView;

    open spec fn view(&self) -> MetadataStoreView {
        MetadataStoreView {
            classes: self.classes@.map_values(|c: ClassType| c@),
            entries: self.entries@.map_values(|e: MetadataEntry| e@),
        }
    }
}

impl MetadataEntryView {
    /// Whether this entry is the one registered under `key` for `target`
    /// and `property_key`.
    pub open spec fn answers(
        self,
        key: Seq<char>,
        target: usize,
        property_key: Option<Seq<char>>,
    ) -> bool {
        self.key == key && self.target == target && self.property_key == property_key
    }
}

impl MetadataStoreView {
    /// The value of the first entry, from position `from` on, registered
    /// under `key` for `target` and `property_key`.
    pub open spec fn get_from(
        self,
        key: Seq<char>,
        target: usize,
        property_key: Option<Seq<char>>,
        from: int,
    ) -> Option<Metadata>
        decreases self.entries.len() - from,
    {
        if from < 0 || from >= self.entries.len() {
            None
        } else if self.entries[from].answers(key, target, property_key) {
            Some(self.entries[from].value)
        } else {
            self.get_from(key, target, property_key, from + 1)
        }
    }

    /// What is registered under `key` for `target` itself (`property_key`
    /// absent) or for its property `property_key`. Other classes of the
    /// prototype chain are not looked at.
    pub open spec fn get(
        self,
        key: Seq<char>,
        target: usize,
        property_key: Option<Seq<char>>,
    ) -> Option<Metadata> {
        self.get_from(key, target, property_key, 0)
    }

    /// The class next up the prototype chain from `target`.
    pub open spec fn parent_of(self, target: usize) -> Option<usize> {
        if target < self.classes.len() {
            self.classes[target as int].prototype
        } else {
            None
        }
    }

    /// The name of `target`.
    pub open spec fn identity(self, target: usize) -> Option<Seq<char>> {
        if target < self.classes.len() {
            self.classes[target as int].name
        } else {
            None
        }
    }

    /// Whether `target` is a class of a prototype chain: a class of the
    /// store with a name that is not empty.
    pub open spec fn has_identity(self, target: usize) -> bool {
        self.identity(target) matches Some(name) && name.len() > 0
    }
}

/// The characters of an optional borrowed string.
pub open spec fn option_ref_text(text: Option<&String>) -> Option<Seq<char>> {
    match text {
        Some(t) => Some(t@),
        None => None,
    }
}

/// Whether both are absent, or both present with the same characters.
pub fn same_option_text(held: &Option<String>, asked: Option<&String>) -> (r: bool)
    ensures
        r == (option_text(*held) == option_ref_text(asked)),
{
    match (held, asked) {
        (Some(h), Some(a)) => *h == *a,
        (None, None) => true,
        _ => false,
    }
}

impl MetadataStore {
    /// A store without classes or metadata.
    pub fn new() -> (store: MetadataStore)
        ensures
            store@.classes == Seq::<ClassTypeView>::empty(),
            store@.entries == Seq::<MetadataEntryView>::empty(),
    {
        MetadataStore { classes: Vec::new(), entries: Vec::new() }
    }

    /// What is registered under `key` for `target` itself, or for its
    /// property `property_key` where one is given.
    pub fn get(&self, key: &str, target: usize, property_key: Option<&String>) -> (r: Option<
        Metadata,
    >)
        ensures
            r == self@.get(key@, target, option_ref_text(property_key)),
    {
        let wanted = String::from_str(key);
        let mut i: usize = 0;
        while i < self.entries.len()
            invariant
                i <= self.entries.len(),
                wanted@ == key@,
                self@.get(key@, target, option_ref_text(property_key)) == self@.get_from(
                    key@,
                    target,
                    option_ref_text(property_key),
                    i as int,
                ),
            decreases self.entries.len() - i,
        {
            let entry = &self.entries[i];
            assert(self@.entries[i as int] == entry@);
            if entry.target == target && entry.key == wanted && same_option_text(
                &entry.property_key,
                property_key,
            ) {
                return Some(entry.value);
            }
            i += 1;
        }
        None
    }

    /// The class next up the prototype chain from `target`.
    pub fn parent_of(&self, target: usize) -> (r: Option<usize>)
        ensures
            r == self@.parent_of(target),
    {
        if target < self.classes.len() {
            assert(self@.classes[target as int] == self.classes@[target as int]@);
            self.classes[target].prototype
        } else {
            None
        }
    }

    /// The name of `target`.
    pub fn identity(&self, target: usize) -> (r: Option<&String>)
        ensures
            option_ref_text(r) == self@.identity(target),
    {
        if target < self.classes.len() {
            assert(self@.classes[target as int] == self.classes@[target as int]@);
            self.classes[target].name.as_ref()
        } else {
            None
        }
    }

    /// Whether `target` is a class of a prototype chain.
    pub fn has_identity(&self, target: usize) -> (r: bool)
        ensures
            r == self@.has_identity(target),
    {
        match self.identity(target) {
            Some(name) => !name.as_str().is_empty(),
            None => false,
        }
    }
}

} // verus!
