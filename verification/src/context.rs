//! The context of one lookup: the context groups that are active, the
//! decorators that were registered for classes without going through the
//! metadata store, and the table that switches decorators on and off.

use crate::key::option_texts;
use crate::store::Metadata;
use vstd::prelude::*;

verus! {

/// One decorator registered for a class: its metadata key and its value.
#[derive(Clone, Debug, PartialEq, Eq)]
pub struct InternalDecorator {
    pub key: String,
    pub value: Metadata,
}

/// The mathematical content of an [`InternalDecorator`].
pub struct InternalDecoratorView {
    pub key: Seq<char>,
    pub value: Metadata,
}

impl View for InternalDecorator {
    type V = InternalDecoratorView;

    open spec fn view(&self) -> InternalDecoratorView {
        InternalDecoratorView { key: self.key@, value: self.value }
    }
}

/// The decorators registered for the class `target`.
#[derive(Clone, Debug, PartialEq, Eq)]
pub struct InternalDecorators {
    pub target: usize,
    pub decorators: Vec<InternalDecorator>,
}

/// The mathematical content of an [`InternalDecorators`].
pub struct InternalDecoratorsView {
    pub target: usize,
    pub decorators: Seq<InternalDecoratorView>,
}

impl View for InternalDecorators {
    type V = InternalDecoratorsView;

    open spec fn view(&self) -> InternalDecoratorsView {
        InternalDecoratorsView {
            target: self.target,
            decorators: self.decorators@.map_values(|d: InternalDecorator| d@),
        }
    }
}

/// One row of the table that switches decorators on and off.
#[derive(Clone, Debug, PartialEq, Eq)]
pub struct DecoratorEnabled {
    /// The name, or the beginning of the name, of the decorators meant.
    pub name: String,
    /// The switch, where the table holds a boolean for `name`.
    pub enabled: Option<bool>,
}

/// The mathematical content of a [`DecoratorEnabled`].
pub struct DecoratorEnabledView {
    pub name: Seq<char>,
    pub enabled: Option<bool>,
}

impl View for DecoratorEnabled {
    type V = DecoratorEnabledView;

    open spec fn view(&self) -> DecoratorEnabledView {
        DecoratorEnabledView { name: self.name@, enabled: self.enabled }
    }
}

/// The context in which metadata is looked up.
#[derive(Clone, Debug, PartialEq, Eq)]
pub struct JsonStringifierParserCommonContext {
    /// The active context groups, the one to be tried first in front.
    pub with_context_groups: Option<Vec<String>>,
    /// The decorators registered for classes beside the metadata store.
    pub internal_decorators: Option<Vec<InternalDecorators>>,
    /// The rows of the table that switches decorators on and off, in the
    /// order in which the table lists them.
    pub decorators_enabled: Option<Vec<DecoratorEnabled>>,
}

/// The mathematical content of a [`JsonStringifierParserCommonContext`].
pub struct ContextView {
    pub with_context_groups: Option<Seq<Seq<char>>>,
    pub internal_decorators: Option<Seq<InternalDecoratorsView>>,
    pub decorators_enabled: Option<Seq<DecoratorEnabledView>>,
}

/// The content of an optional list of per-class decorators.
pub open spec fn internal_view(internal: Option<Vec<InternalDecorators>>) -> Option<
    Seq<InternalDecoratorsView>,
> {
    match internal {
        Some(list) => Some(list@.map_values(|d: InternalDecorators| d@)),
        None => None,
    }
}

/// The content of an optional table of switches.
pub open spec fn enabled_view(table: Option<Vec<DecoratorEnabled>>) -> Option<
    Seq<DecoratorEnabledView>,
> {
    match table {
        Some(rows) => Some(rows@.map_values(|row: DecoratorEnabled| row@)),
        None => None,
    }
}

impl View for JsonStringifierParserCommonContext {
    type V = ContextView;

    open spec fn view(&self) -> ContextView {
        ContextView {
            with_context_groups: option_texts(self.with_context_groups),
            internal_decorators: internal_view(self.internal_decorators),
            decorators_enabled: enabled_view(self.decorators_enabled),
        }
    }
}

/// The content of an optional borrowed context.
pub open spec fn option_context_view(
    context: Option<&JsonStringifierParserCommonContext>,
) -> Option<ContextView> {
    match context {
        Some(c) => Some(c@),
        None => None,
    }
}

/// The decorators of the first of `internal`, from position `from` on, that
/// belongs to `target`.
pub open spec fn decorators_of(
    internal: Seq<InternalDecoratorsView>,
    target: usize,
    from: int,
) -> Option<Seq<InternalDecoratorView>>
    decreases internal.len() - from,
{
    if from < 0 || from >= internal.len() {
        None
    } else if internal[from].target == target {
        Some(internal[from].decorators)
    } else {
        decorators_of(internal, target, from + 1)
    }
}

/// The value of the first of `decorators`, from position `from` on, that
/// has the key `key`.
pub open spec fn value_of(decorators: Seq<InternalDecoratorView>, key: Seq<char>, from: int) -> Option<
    Metadata,
>
    decreases decorators.len() - from,
{
    if from < 0 || from >= decorators.len() {
        None
    } else if decorators[from].key == key {
        Some(decorators[from].value)
    } else {
        value_of(decorators, key, from + 1)
    }
}

/// What `internal` holds under `key` for the class `target`: where it has
/// decorators for `target`, the value that they give to `key`.
pub open spec fn internal_metadata(
    internal: Seq<InternalDecoratorsView>,
    target: usize,
    key: Seq<char>,
) -> Option<Metadata> {
    match decorators_of(internal, target, 0) {
        Some(decorators) => value_of(decorators, key, 0),
        None => None,
    }
}

/// The value that `decorators` give to `key`.
pub fn find_value(decorators: &Vec<InternalDecorator>, key: &String) -> (r: Option<Metadata>)
    ensures
        r == value_of(decorators@.map_values(|d: InternalDecorator| d@), key@, 0),
{
    let ghost content = decorators@.map_values(|d: InternalDecorator| d@);
    let mut i: usize = 0;
    while i < decorators.len()
        invariant
            i <= decorators.len(),
            content == decorators@.map_values(|d: InternalDecorator| d@),
            value_of(content, key@, 0) == value_of(content, key@, i as int),
        decreases decorators.len() - i,
    {
        assert(content[i as int] == decorators@[i as int]@);
        if decorators[i].key == *key {
            return Some(decorators[i].value);
        }
        i += 1;
    }
    None
}

/// What `internal` holds under `key` for the class `target`.
pub fn find_internal_metadata(internal: &Vec<InternalDecorators>, target: usize, key: &String) -> (r:
    Option<Metadata>)
    ensures
        r == internal_metadata(internal@.map_values(|d: InternalDecorators| d@), target, key@),
{
    let ghost content = internal@.map_values(|d: InternalDecorators| d@);
    let mut i: usize = 0;
    while i < internal.len()
        invariant
            i <= internal.len(),
            content == internal@.map_values(|d: InternalDecorators| d@),
            decorators_of(content, target, 0) == decorators_of(content, target, i as int),
        decreases internal.len() - i,
    {
        assert(content[i as int] == internal@[i as int]@);
        if internal[i].target == target {
            return find_value(&internal[i].decorators, key);
        }
        i += 1;
    }
    None
}

} // verus!
