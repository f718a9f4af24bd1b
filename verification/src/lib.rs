//! Metadata of decorators for a JSON object mapper: the keys under which the
//! options of a decorator are stored, and the lookup that finds them for a
//! class or a property, along the prototype chain and by context group.

use vstd::prelude::*;

pub mod context;
pub mod key;
pub mod laws;
pub mod resolve;
pub mod store;
pub mod text;

pub use crate::context::{
    DecoratorEnabled, InternalDecorator, InternalDecorators, JsonStringifierParserCommonContext,
};
pub use crate::key::{
    make_metadata_key_with_context, make_metadata_keys_with_context,
    MakeMetadataKeyWithContextOptions, MakeMetadataKeysWithContextOptions, ValidationError,
    DEFAULT_CONTEXT_GROUP,
};
pub use crate::resolve::{
    apply_decorators_enabled, find_metadata, find_metadata_by_metadata_key_with_context,
    get_metadata, make_lookup_keys,
};
pub use crate::store::{ClassType, JsonDecoratorOptions, Metadata, MetadataEntry, MetadataStore};

verus! {

/// The sum of `left` and `right`.
pub fn add(left: usize, right: usize) -> (sum: usize)
    requires
        left + right <= usize::MAX,
    ensures
        sum == left + right,
{
    left + right
}

/// The greeting for `name`.
pub open spec fn greeting(name: Seq<char>) -> Seq<char> {
    "Hey "@ + name + ", wasm says hello!"@
}

/// Greets `name`.
pub fn greet(name: &str) -> (text: String)
    ensures
        text@ == greeting(name@),
{
    let mut text = String::from_str("Hey ");
    text.append(name);
    text.append(", wasm says hello!");
    text
}

} // verus!
