//! Looking metadata up: under one metadata key, along the prototype chain;
//! under a decorator's key, context group by context group; and through
//! the table that switches decorators on and off.

use crate::context::{
    enabled_view, find_internal_metadata, internal_metadata, option_context_view, ContextView,
    DecoratorEnabled, DecoratorEnabledView, InternalDecorators, InternalDecoratorsView,
    JsonStringifierParserCommonContext,
};
use crate::key::{
    build_key, default_context_group, is_context_group_name, lemma_default_group_is_name,
    make_metadata_key_with_context, metadata_key, namespace, option_text, texts,
    MakeMetadataKeyWithContextOptions, ValidationError, DEFAULT_CONTEXT_GROUP,
};
use crate::store::{
    option_ref_text, JsonDecoratorOptions, Metadata, MetadataStore, MetadataStoreView,
};
use crate::text::{chars_of, contains, occurs_in, starts_with};
use vstd::prelude::*;

verus! {

/// What the walk up the prototype chain finds under `key`, starting at the
/// class `target` and looking at no more than `steps` classes: the value
/// that `internal` holds for the first class that has one. The walk ends
/// without a value at a class without a name, and after the class that has
/// no prototype.
pub open spec fn walk(
    store: MetadataStoreView,
    internal: Seq<InternalDecoratorsView>,
    key: Seq<char>,
    target: usize,
    steps: nat,
) -> Option<Metadata>
    decreases steps,
{
    if steps == 0 || !store.has_identity(target) {
        None
    } else {
        match internal_metadata(internal, target, key) {
            Some(value) => Some(value),
            None => match store.parent_of(target) {
                Some(parent) => walk(store, internal, key, parent, (steps - 1) as nat),
                None => None,
            },
        }
    }
}

/// What is found under the metadata key `key`: what the store holds for
/// `target` (or for its property `property_key`); failing that, for a
/// lookup that names no property in a context with internal decorators,
/// what the walk up the prototype chain of `target` finds. The walk looks
/// at as many classes as the store has, so that it reaches every class of
/// the chain.
pub open spec fn find_by_key(
    store: MetadataStoreView,
    key: Seq<char>,
    target: usize,
    property_key: Option<Seq<char>>,
    context: Option<ContextView>,
) -> Option<Metadata> {
    match store.get(key, target, property_key) {
        Some(value) => Some(value),
        None => match (property_key, context) {
            (None, Some(c)) => match c.internal_decorators {
                Some(internal) => walk(store, internal, key, target, store.classes.len()),
                None => None,
            },
            _ => None,
        },
    }
}

/// The context groups in which a decorator's key is looked up, in the
/// order in which they are tried: those of the context, then the default
/// group.
pub open spec fn candidate_groups(context: ContextView) -> Seq<Seq<char>> {
    (match context.with_context_groups {
        Some(groups) => groups,
        None => Seq::empty(),
    }).push(default_context_group())
}

/// What is found under the decorator's key `key` in the first of `groups`,
/// from position `from` on, that holds anything. A group whose name is no
/// context group name ends the search with `Err` and that name, unless an
/// earlier group held a value.
pub open spec fn find_in_groups(
    store: MetadataStoreView,
    key: Seq<char>,
    target: usize,
    property_key: Option<Seq<char>>,
    context: ContextView,
    groups: Seq<Seq<char>>,
    from: int,
) -> Result<Option<Metadata>, Seq<char>>
    decreases groups.len() - from,
{
    if from < 0 || from >= groups.len() {
        Ok(None)
    } else {
        match build_key(key, Some(groups[from]), None, None) {
            Err(name) => Err(name),
            Ok(metadata_key) => match find_by_key(
                store,
                metadata_key,
                target,
                property_key,
                Some(context),
            ) {
                Some(value) => Ok(Some(value)),
                None => find_in_groups(store, key, target, property_key, context, groups, from + 1),
            },
        }
    }
}

/// What is found under the decorator's key `key`: the groups of the
/// context are tried in their order, the default group last.
pub open spec fn find(
    store: MetadataStoreView,
    key: Seq<char>,
    target: usize,
    property_key: Option<Seq<char>>,
    context: ContextView,
) -> Result<Option<Metadata>, Seq<char>> {
    find_in_groups(store, key, target, property_key, context, candidate_groups(context), 0)
}

/// Whether `key` is a metadata key already: it begins with `jackson:`.
pub open spec fn is_namespaced(key: Seq<char>) -> bool {
    namespace().is_prefix_of(key)
}

/// Whether the row named `name` of the table of switches is meant for
/// `key`: a metadata key holds a colon followed by `name`, a decorator's
/// key begins with `name`.
pub open spec fn switch_matches(key: Seq<char>, name: Seq<char>) -> bool {
    if is_namespaced(key) {
        occurs_in(seq![':'] + name, key)
    } else {
        name.is_prefix_of(key)
    }
}

/// The first row of `table`, from position `from` on, that is meant for
/// `key`.
pub open spec fn first_switch(key: Seq<char>, table: Seq<DecoratorEnabledView>, from: int) -> Option<
    DecoratorEnabledView,
>
    decreases table.len() - from,
{
    if from < 0 || from >= table.len() {
        None
    } else if switch_matches(key, table[from].name) {
        Some(table[from])
    } else {
        first_switch(key, table, from + 1)
    }
}

/// The options after the table of switches had its say: where the first
/// row meant for `key` holds a boolean, that boolean replaces `enabled`;
/// in every other case the options stay as they are.
pub open spec fn switched(
    options: JsonDecoratorOptions,
    key: Seq<char>,
    table: Option<Seq<DecoratorEnabledView>>,
) -> JsonDecoratorOptions {
    match table {
        Some(rows) => match first_switch(key, rows, 0) {
            Some(row) => match row.enabled {
                Some(enabled) => JsonDecoratorOptions { enabled: Some(enabled), ..options },
                None => options,
            },
            None => options,
        },
        None => options,
    }
}

/// What a caller gets to see of what was found: the explicit `undefined`
/// as it is; options only if, after the table of switches had its say,
/// they are enabled; else nothing.
pub open spec fn visible(
    found: Option<Metadata>,
    key: Seq<char>,
    table: Option<Seq<DecoratorEnabledView>>,
) -> Option<Metadata> {
    match found {
        None => None,
        Some(Metadata::Undefined) => Some(Metadata::Undefined),
        Some(Metadata::Options(options)) => {
            let after = switched(options, key, table);
            if after.enabled == Some(true) {
                Some(Metadata::Options(after))
            } else {
                None
            }
        },
    }
}

/// What a lookup under `key` gives. A key that is a metadata key already
/// is looked up as it is; a decorator's key is looked up context group by
/// context group. What is found passes the table of switches.
pub open spec fn resolve(
    store: MetadataStoreView,
    key: Seq<char>,
    target: usize,
    property_key: Option<Seq<char>>,
    context: ContextView,
) -> Result<Option<Metadata>, Seq<char>> {
    let found = if is_namespaced(key) {
        Ok(find_by_key(store, key, target, property_key, Some(context)))
    } else {
        find(store, key, target, property_key, context)
    };
    match found {
        Ok(value) => Ok(visible(value, key, context.decorators_enabled)),
        Err(name) => Err(name),
    }
}

/// The metadata keys of the decorator's key `key` in the groups from
/// position `from` on, up to the first group whose name is no context group
/// name.
pub open spec fn group_keys(key: Seq<char>, groups: Seq<Seq<char>>, from: int) -> Seq<Seq<char>>
    decreases groups.len() - from,
{
    if from < 0 || from >= groups.len() || !is_context_group_name(groups[from]) {
        Seq::empty()
    } else {
        seq![metadata_key(key, groups[from], Seq::empty(), Seq::empty())] + group_keys(
            key,
            groups,
            from + 1,
        )
    }
}

/// The metadata keys under which a lookup of `key` may read, in the order
/// in which it tries them: `key` itself where it is a metadata key already,
/// else its keys in the context groups.
pub open spec fn lookup_keys(key: Seq<char>, context: ContextView) -> Seq<Seq<char>> {
    if is_namespaced(key) {
        seq![key]
    } else {
        group_keys(key, candidate_groups(context), 0)
    }
}

/// What was found, or the characters of the name that was rejected.
pub open spec fn found_outcome(outcome: Result<Option<Metadata>, ValidationError>) -> Result<
    Option<Metadata>,
    Seq<char>,
> {
    match outcome {
        Ok(found) => Ok(found),
        Err(e) => Err(e.context_group@),
    }
}

/// Looks up the metadata key `metadata_key_with_context`: in the store,
/// for `target` or for its property `property_key`; and, where the store
/// holds nothing, no property is named and the context has internal
/// decorators, in those, class by class up the prototype chain of
/// `target`.
pub fn find_metadata_by_metadata_key_with_context(
    store: &MetadataStore,
    metadata_key_with_context: &str,
    target: usize,
    property_key: Option<&String>,
    context: Option<&JsonStringifierParserCommonContext>,
) -> (r: Option<Metadata>)
    ensures
        r == find_by_key(
            store@,
            metadata_key_with_context@,
            target,
            option_ref_text(property_key),
            option_context_view(context),
        ),
{
    match store.get(metadata_key_with_context, target, property_key) {
        Some(value) => {
            return Some(value);
        },
        None => {},
    }
    if property_key.is_some() {
        return None;
    }
    let internal: &Vec<InternalDecorators> = match context {
        Some(c) => match &c.internal_decorators {
            Some(internal) => internal,
            None => {
                return None;
            },
        },
        None => {
            return None;
        },
    };
    let ghost content = internal@.map_values(|d: InternalDecorators| d@);
    let wanted = String::from_str(metadata_key_with_context);
    let mut current: usize = target;
    let mut steps: usize = store.classes.len();
    while steps > 0
        invariant
            wanted@ == metadata_key_with_context@,
            content == internal@.map_values(|d: InternalDecorators| d@),
            find_by_key(
                store@,
                metadata_key_with_context@,
                target,
                option_ref_text(property_key),
                option_context_view(context),
            ) == walk(store@, content, wanted@, current, steps as nat),
        decreases steps,
    {
        if !store.has_identity(current) {
            return None;
        }
        match find_internal_metadata(internal, current, &wanted) {
            Some(value) => {
                return Some(value);
            },
            None => {},
        }
        match store.parent_of(current) {
            Some(parent) => {
                current = parent;
            },
            None => {
                return None;
            },
        }
        steps -= 1;
    }
    None
}

/// Looks the decorator's key `metadata_key` up in the one context group
/// `group`.
fn find_in_group(
    store: &MetadataStore,
    metadata_key: &str,
    group: &String,
    target: usize,
    property_key: Option<&String>,
    context: &JsonStringifierParserCommonContext,
) -> (r: Result<Option<Metadata>, ValidationError>)
    ensures
        found_outcome(r) == (match build_key(metadata_key@, Some(group@), None, None) {
            Err(name) => Err(name),
            Ok(key) => Ok(
                find_by_key(store@, key, target, option_ref_text(property_key), Some(context@)),
            ),
        }),
{
    let options = MakeMetadataKeyWithContextOptions::new(Some(group.clone()), None, None);
    match make_metadata_key_with_context(metadata_key, options) {
        Ok(key) => Ok(
            find_metadata_by_metadata_key_with_context(
                store,
                key.as_str(),
                target,
                property_key,
                Some(context),
            ),
        ),
        Err(e) => Err(e),
    }
}

/// Looks the decorator's key `metadata_key` up in each context group of
/// `context`, in their order, and in the default group last, and hands out
/// the first value found. A group whose name is not made of one or more
/// word characters is rejected when its turn comes.
pub fn find_metadata(
    store: &MetadataStore,
    metadata_key: &str,
    target: usize,
    property_key: Option<&String>,
    context: &JsonStringifierParserCommonContext,
) -> (r: Result<Option<Metadata>, ValidationError>)
    ensures
        found_outcome(r) == find(
            store@,
            metadata_key@,
            target,
            option_ref_text(property_key),
            context@,
        ),
{
    let ghost groups = candidate_groups(context@);
    let ghost tried: int = 0;
    match &context.with_context_groups {
        Some(given) => {
            let mut i: usize = 0;
            while i < given.len()
                invariant
                    i <= given.len(),
                    context.with_context_groups == Some(*given),
                    groups == candidate_groups(context@),
                    find(store@, metadata_key@, target, option_ref_text(property_key), context@)
                        == find_in_groups(
                        store@,
                        metadata_key@,
                        target,
                        option_ref_text(property_key),
                        context@,
                        groups,
                        i as int,
                    ),
                decreases given.len() - i,
            {
                assert(groups[i as int] == given@[i as int]@);
                match find_in_group(store, metadata_key, &given[i], target, property_key, context) {
                    Ok(Some(value)) => {
                        return Ok(Some(value));
                    },
                    Ok(None) => {},
                    Err(e) => {
                        return Err(e);
                    },
                }
                i += 1;
            }
            proof {
                tried = given@.len() as int;
            }
        },
        None => {},
    }
    proof {
        reveal_strlit("default");
    }
    let last = String::from_str(DEFAULT_CONTEXT_GROUP);
    assert(last@ =~= default_context_group());
    assert(groups.len() == tried + 1 && groups[tried] == last@);
    assert(find_in_groups(
        store@,
        metadata_key@,
        target,
        option_ref_text(property_key),
        context@,
        groups,
        tried + 1,
    ) == Ok::<Option<Metadata>, Seq<char>>(None));
    find_in_group(store, metadata_key, &last, target, property_key, context)
}

/// Whether `key` begins with `jackson:`.
pub fn is_metadata_key(key: &Vec<char>) -> (r: bool)
    ensures
        r == is_namespaced(key@),
{
    proof {
        reveal_strlit("jackson:");
    }
    let prefix = chars_of("jackson:");
    assert(prefix@ =~= namespace());
    starts_with(key, &prefix)
}

/// Whether the row named `name` of the table of switches is meant for
/// `key`.
pub fn is_switch_for(key: &Vec<char>, name: &str) -> (r: bool)
    ensures
        r == switch_matches(key@, name@),
{
    if is_metadata_key(key) {
        proof {
            reveal_strlit(":");
        }
        let mut pattern = String::from_str(":");
        pattern.append(name);
        let pattern = chars_of(pattern.as_str());
        assert(pattern@ =~= seq![':'] + name@);
        contains(key, &pattern)
    } else {
        let pattern = chars_of(name);
        starts_with(key, &pattern)
    }
}

/// Lets the table of switches have its say on `options`, found under
/// `metadata_key`: the first row meant for the key, if it holds a boolean,
/// sets `enabled`.
pub fn apply_decorators_enabled(
    options: JsonDecoratorOptions,
    metadata_key: &str,
    decorators_enabled: &Option<Vec<DecoratorEnabled>>,
) -> (r: JsonDecoratorOptions)
    ensures
        r == switched(options, metadata_key@, enabled_view(*decorators_enabled)),
{
    let rows: &Vec<DecoratorEnabled> = match decorators_enabled {
        Some(rows) => rows,
        None => {
            return options;
        },
    };
    let ghost table = rows@.map_values(|row: DecoratorEnabled| row@);
    let key = chars_of(metadata_key);
    let mut i: usize = 0;
    while i < rows.len()
        invariant
            i <= rows.len(),
            key@ == metadata_key@,
            *decorators_enabled == Some(*rows),
            table == rows@.map_values(|row: DecoratorEnabled| row@),
            first_switch(key@, table, 0) == first_switch(key@, table, i as int),
        decreases rows.len() - i,
    {
        assert(table[i as int] == rows@[i as int]@);
        if is_switch_for(&key, rows[i].name.as_str()) {
            return match rows[i].enabled {
                Some(enabled) => JsonDecoratorOptions { enabled: Some(enabled), record: options.record },
                None => options,
            };
        }
        i += 1;
    }
    options
}

/// Looks up the options of a decorator for `target`, or for its property
/// `property_key`. A `metadata_key` that begins with `jackson:` is taken as
/// a metadata key and looked up as it is; any other is taken as a
/// decorator's key and looked up in the context groups of `context`, the
/// default group last. Options that are found pass the table of switches
/// and are handed out only if they are enabled after that.
pub fn get_metadata(
    store: &MetadataStore,
    metadata_key: String,
    target: usize,
    property_key: Option<String>,
    context: JsonStringifierParserCommonContext,
) -> (r: Result<Option<Metadata>, ValidationError>)
    ensures
        found_outcome(r) == resolve(
            store@,
            metadata_key@,
            target,
            option_text(property_key),
            context@,
        ),
{
    let key = chars_of(metadata_key.as_str());
    let found = if is_metadata_key(&key) {
        find_metadata_by_metadata_key_with_context(
            store,
            metadata_key.as_str(),
            target,
            property_key.as_ref(),
            Some(&context),
        )
    } else {
        match find_metadata(store, metadata_key.as_str(), target, property_key.as_ref(), &context) {
            Ok(found) => found,
            Err(e) => {
                return Err(e);
            },
        }
    };
    match found {
        None => Ok(None),
        Some(Metadata::Undefined) => Ok(Some(Metadata::Undefined)),
        Some(Metadata::Options(options)) => {
            let after = apply_decorators_enabled(
                options,
                metadata_key.as_str(),
                &context.decorators_enabled,
            );
            match after.enabled {
                Some(true) => Ok(Some(Metadata::Options(after))),
                _ => Ok(None),
            }
        },
    }
}

/// The metadata keys under which a lookup of `metadata_key` in `context`
/// may read, in the order in which it tries them. Who holds the metadata
/// elsewhere learns from them what a [`MetadataStore`] has to hold for the
/// lookup.
pub fn make_lookup_keys(metadata_key: &str, context: &JsonStringifierParserCommonContext) -> (keys:
    Vec<String>)
    ensures
        texts(keys@) == lookup_keys(metadata_key@, context@),
{
    let mut keys: Vec<String> = Vec::new();
    let key = chars_of(metadata_key);
    if is_metadata_key(&key) {
        keys.push(String::from_str(metadata_key));
        assert(texts(keys@) =~= seq![metadata_key@]);
        return keys;
    }
    let ghost groups = candidate_groups(context@);
    let ghost tried: int = 0;
    match &context.with_context_groups {
        Some(given) => {
            let mut i: usize = 0;
            while i < given.len()
                invariant
                    i <= given.len(),
                    context.with_context_groups == Some(*given),
                    groups == candidate_groups(context@),
                    !is_namespaced(metadata_key@),
                    lookup_keys(metadata_key@, context@) == texts(keys@) + group_keys(
                        metadata_key@,
                        groups,
                        i as int,
                    ),
                decreases given.len() - i,
            {
                assert(groups[i as int] == given@[i as int]@);
                let options = MakeMetadataKeyWithContextOptions::new(
                    Some(given[i].clone()),
                    None,
                    None,
                );
                match make_metadata_key_with_context(metadata_key, options) {
                    Ok(key) => {
                        let ghost before = texts(keys@);
                        keys.push(key);
                        assert(texts(keys@) =~= before + seq![key@]);
                        assert(texts(keys@) + group_keys(metadata_key@, groups, i + 1) =~= before
                            + group_keys(metadata_key@, groups, i as int));
                    },
                    Err(_) => {
                        assert(texts(keys@) + group_keys(metadata_key@, groups, i as int) =~= texts(
                            keys@,
                        ));
                        return keys;
                    },
                }
                i += 1;
            }
            proof {
                tried = given@.len() as int;
            }
        },
        None => {
            assert(texts(keys@) + group_keys(metadata_key@, groups, 0) =~= group_keys(
                metadata_key@,
                groups,
                0,
            ));
        },
    }
    proof {
        reveal_strlit("default");
        lemma_default_group_is_name();
    }
    let last = String::from_str(DEFAULT_CONTEXT_GROUP);
    assert(last@ =~= default_context_group());
    assert(groups.len() == tried + 1 && groups[tried] == last@);
    assert(group_keys(metadata_key@, groups, tried + 1) =~= Seq::<Seq<char>>::empty());
    let options = MakeMetadataKeyWithContextOptions::new(Some(last), None, None);
    match make_metadata_key_with_context(metadata_key, options) {
        Ok(key) => {
            let ghost before = texts(keys@);
            keys.push(key);
            assert(texts(keys@) =~= before + seq![key@]);
            assert(texts(keys@) =~= before + group_keys(metadata_key@, groups, tried));
        },
        Err(_) => {},
    }
    keys
}

} // verus!
