//! What holds of every lookup: along the prototype chain the nearest class
//! wins, among the context groups the first one wins and the default group
//! comes last, the table of switches overrides what a decorator declares,
//! and a metadata key is looked up as it is.

use crate::context::{internal_metadata, ContextView, DecoratorEnabledView, InternalDecoratorsView};
use crate::key::{
    default_context_group, is_context_group_name, lemma_default_group_is_name, metadata_key,
};
use crate::resolve::{
    candidate_groups, find, find_by_key, find_in_groups, first_switch, group_keys, is_namespaced,
    lookup_keys, resolve, switch_matches, switched, visible, walk,
};
use crate::store::{JsonDecoratorOptions, Metadata, MetadataStoreView};
use vstd::prelude::*;
use vstd::set_lib::{lemma_int_range, lemma_len_subset, set_int_range};

verus! {

/// The metadata key of the decorator's key `key` in `group`, without prefix
/// or suffix: the key under which a lookup by context group looks.
pub open spec fn group_key(key: Seq<char>, group: Seq<char>) -> Seq<char> {
    metadata_key(key, group, Seq::empty(), Seq::empty())
}

/// Whether the lookup of the decorator's key `key` passes `group` by: its
/// name is a context group name, and nothing is found under its key.
pub open spec fn passed_by(
    store: MetadataStoreView,
    key: Seq<char>,
    target: usize,
    property_key: Option<Seq<char>>,
    context: ContextView,
    group: Seq<char>,
) -> bool {
    &&& is_context_group_name(group)
    &&& find_by_key(store, group_key(key, group), target, property_key, Some(context)) is None
}

/// A lookup that names a property never walks the prototype chain: it finds
/// what the store holds for that property of `target`, and nothing else.
pub proof fn lemma_property_lookup_stays_at_target(
    store: MetadataStoreView,
    key: Seq<char>,
    target: usize,
    property_key: Seq<char>,
    context: Option<ContextView>,
)
    ensures
        find_by_key(store, key, target, Some(property_key), context) == store.get(
            key,
            target,
            Some(property_key),
        ),
{
}

/// Groups that the lookup passes by do not change what it finds: the search
/// from `from` on finds what the search from `to` on finds, where every
/// group between them is passed by.
pub proof fn lemma_passed_groups_are_skipped(
    store: MetadataStoreView,
    key: Seq<char>,
    target: usize,
    property_key: Option<Seq<char>>,
    context: ContextView,
    groups: Seq<Seq<char>>,
    from: int,
    to: int,
)
    requires
        0 <= from <= to <= groups.len(),
        forall|i: int|
            from <= i < to ==> passed_by(store, key, target, property_key, context, #[trigger] groups[i]),
    ensures
        find_in_groups(store, key, target, property_key, context, groups, from) == find_in_groups(
            store,
            key,
            target,
            property_key,
            context,
            groups,
            to,
        ),
    decreases to - from,
{
    if from < to {
        assert(passed_by(store, key, target, property_key, context, groups[from]));
        lemma_passed_groups_are_skipped(
            store,
            key,
            target,
            property_key,
            context,
            groups,
            from + 1,
            to,
        );
    }
}

/// The first context group that holds a value wins: where every candidate
/// group before position `at` is passed by and the group at `at` holds
/// `value`, the lookup finds `value`. So the groups of the context take
/// precedence over the default group, and an earlier one over a later one.
pub proof fn lemma_first_group_with_value_wins(
    store: MetadataStoreView,
    key: Seq<char>,
    target: usize,
    property_key: Option<Seq<char>>,
    context: ContextView,
    at: int,
    value: Metadata,
)
    requires
        0 <= at < candidate_groups(context).len(),
        forall|i: int|
            0 <= i < at ==> passed_by(
                store,
                key,
                target,
                property_key,
                context,
                #[trigger] candidate_groups(context)[i],
            ),
        is_context_group_name(candidate_groups(context)[at]),
        find_by_key(
            store,
            group_key(key, candidate_groups(context)[at]),
            target,
            property_key,
            Some(context),
        ) == Some(value),
    ensures
        find(store, key, target, property_key, context) == Ok::<Option<Metadata>, Seq<char>>(
            Some(value),
        ),
{
    lemma_passed_groups_are_skipped(
        store,
        key,
        target,
        property_key,
        context,
        candidate_groups(context),
        0,
        at,
    );
}

/// The default group is the fallback: where the lookup passes by every
/// group of the context, it finds what the default group holds.
pub proof fn lemma_default_group_is_fallback(
    store: MetadataStoreView,
    key: Seq<char>,
    target: usize,
    property_key: Option<Seq<char>>,
    context: ContextView,
)
    requires
        context.with_context_groups matches Some(groups) ==> forall|i: int|
            0 <= i < groups.len() ==> passed_by(
                store,
                key,
                target,
                property_key,
                context,
                #[trigger] groups[i],
            ),
    ensures
        find(store, key, target, property_key, context) == Ok::<Option<Metadata>, Seq<char>>(
            find_by_key(
                store,
                group_key(key, default_context_group()),
                target,
                property_key,
                Some(context),
            ),
        ),
{
    let groups = candidate_groups(context);
    let last = groups.len() - 1;
    assert(groups[last] == default_context_group());
    assert forall|i: int| 0 <= i < last implies passed_by(
        store,
        key,
        target,
        property_key,
        context,
        #[trigger] groups[i],
    ) by {
        assert(groups[i] == context.with_context_groups->0[i]);
    }
    lemma_passed_groups_are_skipped(store, key, target, property_key, context, groups, 0, last);
    lemma_default_group_is_name();
    assert(find_in_groups(store, key, target, property_key, context, groups, last + 1) == Ok::<
        Option<Metadata>,
        Seq<char>,
    >(None));
}

/// The table of switches overrides what a decorator declares: where the
/// first row meant for `key` is the one at `at` and holds the boolean
/// `enabled`, the options come out with that flag, whatever flag they had,
/// and are visible exactly if it is `true`.
pub proof fn lemma_switch_overrides(
    options: JsonDecoratorOptions,
    key: Seq<char>,
    table: Seq<DecoratorEnabledView>,
    at: int,
    enabled: bool,
)
    requires
        0 <= at < table.len(),
        forall|i: int| 0 <= i < at ==> !switch_matches(key, (#[trigger] table[i]).name),
        switch_matches(key, table[at].name),
        table[at].enabled == Some(enabled),
    ensures
        switched(options, key, Some(table)) == (JsonDecoratorOptions {
            enabled: Some(enabled),
            ..options
        }),
        visible(Some(Metadata::Options(options)), key, Some(table)) == (if enabled {
            Some(Metadata::Options(JsonDecoratorOptions { enabled: Some(true), ..options }))
        } else {
            None
        }),
{
    lemma_first_switch(key, table, 0, at);
}

/// The first row meant for `key`, searched from `from` on, is the one at
/// `at`, where no row between them is meant for `key`.
proof fn lemma_first_switch(key: Seq<char>, table: Seq<DecoratorEnabledView>, from: int, at: int)
    requires
        0 <= from <= at < table.len(),
        forall|i: int| from <= i < at ==> !switch_matches(key, (#[trigger] table[i]).name),
        switch_matches(key, table[at].name),
    ensures
        first_switch(key, table, from) == Some(table[at]),
    decreases at - from,
{
    if from < at {
        assert(!switch_matches(key, table[from].name));
        lemma_first_switch(key, table, from + 1, at);
    }
}

/// Options that no switch is meant for are visible exactly if they declare
/// themselves enabled: a decorator that says nothing of `enabled` stays
/// unseen.
pub proof fn lemma_unswitched_options(options: JsonDecoratorOptions, key: Seq<char>)
    ensures
        visible(Some(Metadata::Options(options)), key, None) == (if options.enabled == Some(true) {
            Some(Metadata::Options(options))
        } else {
            None
        }),
{
}

/// What the walk finds depends on the classes of the store alone, not on
/// the metadata registered in it.
pub proof fn lemma_walk_reads_classes_only(
    first: MetadataStoreView,
    second: MetadataStoreView,
    internal: Seq<InternalDecoratorsView>,
    key: Seq<char>,
    target: usize,
    steps: nat,
)
    requires
        first.classes == second.classes,
    ensures
        walk(first, internal, key, target, steps) == walk(second, internal, key, target, steps),
    decreases steps,
{
    if steps > 0 && first.has_identity(target) {
        if internal_metadata(internal, target, key) is None {
            if let Some(parent) = first.parent_of(target) {
                lemma_walk_reads_classes_only(
                    first,
                    second,
                    internal,
                    key,
                    parent,
                    (steps - 1) as nat,
                );
            }
        }
    }
}

/// Whether two stores have the same classes and hold the same under every
/// one of `keys` for `target` and `property_key`.
pub open spec fn agree_on(
    first: MetadataStoreView,
    second: MetadataStoreView,
    keys: Seq<Seq<char>>,
    target: usize,
    property_key: Option<Seq<char>>,
) -> bool {
    &&& first.classes == second.classes
    &&& forall|i: int|
        0 <= i < keys.len() ==> first.get(#[trigger] keys[i], target, property_key) == second.get(
            keys[i],
            target,
            property_key,
        )
}

/// What is found under one metadata key depends on the store through its
/// classes and through what it holds under that key for the target.
pub proof fn lemma_key_lookup_reads_one_key(
    first: MetadataStoreView,
    second: MetadataStoreView,
    key: Seq<char>,
    target: usize,
    property_key: Option<Seq<char>>,
    context: Option<ContextView>,
)
    requires
        first.classes == second.classes,
        first.get(key, target, property_key) == second.get(key, target, property_key),
    ensures
        find_by_key(first, key, target, property_key, context) == find_by_key(
            second,
            key,
            target,
            property_key,
            context,
        ),
{
    if let Some(c) = context {
        if let Some(internal) = c.internal_decorators {
            lemma_walk_reads_classes_only(
                first,
                second,
                internal,
                key,
                target,
                first.classes.len(),
            );
        }
    }
}

/// The search through the groups from `from` on reads the store under the
/// keys of those groups only.
proof fn lemma_groups_read_their_keys(
    first: MetadataStoreView,
    second: MetadataStoreView,
    key: Seq<char>,
    target: usize,
    property_key: Option<Seq<char>>,
    context: ContextView,
    groups: Seq<Seq<char>>,
    from: int,
)
    requires
        0 <= from,
        agree_on(first, second, group_keys(key, groups, from), target, property_key),
    ensures
        find_in_groups(first, key, target, property_key, context, groups, from) == find_in_groups(
            second,
            key,
            target,
            property_key,
            context,
            groups,
            from,
        ),
    decreases groups.len() - from,
{
    if from < groups.len() && is_context_group_name(groups[from]) {
        let keys = group_keys(key, groups, from);
        let rest = group_keys(key, groups, from + 1);
        assert(keys[0] == group_key(key, groups[from]));
        lemma_key_lookup_reads_one_key(
            first,
            second,
            keys[0],
            target,
            property_key,
            Some(context),
        );
        assert forall|i: int| 0 <= i < rest.len() implies first.get(
            #[trigger] rest[i],
            target,
            property_key,
        ) == second.get(rest[i], target, property_key) by {
            assert(rest[i] == keys[i + 1]);
        }
        lemma_groups_read_their_keys(
            first,
            second,
            key,
            target,
            property_key,
            context,
            groups,
            from + 1,
        );
    }
}

/// A lookup reads the store under its lookup keys only: two stores with the
/// same classes that hold the same under each of those keys, for the target
/// and the property asked for, give the same result, whatever else they
/// hold.
pub proof fn lemma_lookup_reads_its_keys_only(
    first: MetadataStoreView,
    second: MetadataStoreView,
    key: Seq<char>,
    target: usize,
    property_key: Option<Seq<char>>,
    context: ContextView,
)
    requires
        agree_on(first, second, lookup_keys(key, context), target, property_key),
    ensures
        resolve(first, key, target, property_key, context) == resolve(
            second,
            key,
            target,
            property_key,
            context,
        ),
{
    if is_namespaced(key) {
        assert(lookup_keys(key, context)[0] == key);
        lemma_key_lookup_reads_one_key(first, second, key, target, property_key, Some(context));
    } else {
        lemma_groups_read_their_keys(
            first,
            second,
            key,
            target,
            property_key,
            context,
            candidate_groups(context),
            0,
        );
    }
}

/// A key that begins with `jackson:` is looked up as it is, in no context
/// group: it is its own and only lookup key, so the store is read once, and
/// what is found under it, after the table of switches, is the result.
pub proof fn lemma_metadata_key_is_looked_up_once(
    store: MetadataStoreView,
    key: Seq<char>,
    target: usize,
    property_key: Option<Seq<char>>,
    context: ContextView,
)
    requires
        is_namespaced(key),
    ensures
        lookup_keys(key, context) == seq![key],
        resolve(store, key, target, property_key, context) == Ok::<Option<Metadata>, Seq<char>>(
            visible(
                find_by_key(store, key, target, property_key, Some(context)),
                key,
                context.decorators_enabled,
            ),
        ),
{
}

/// Whether the class at position `i` of `chain` has the next one as its
/// prototype.
pub open spec fn linked(store: MetadataStoreView, chain: Seq<usize>, i: int) -> bool {
    store.parent_of(chain[i]) == Some(chain[i + 1])
}

/// Whether `chain` is a stretch of a prototype chain of `store`: named
/// classes, each the prototype of the one before it.
pub open spec fn is_chain(store: MetadataStoreView, chain: Seq<usize>) -> bool {
    &&& forall|i: int| 0 <= i < chain.len() ==> store.has_identity(#[trigger] chain[i])
    &&& forall|i: int| 0 <= i < chain.len() - 1 ==> #[trigger] linked(store, chain, i)
}

/// Whether none of the classes of `chain` before position `to` has a value
/// under `key`.
pub open spec fn without_value(
    internal: Seq<InternalDecoratorsView>,
    key: Seq<char>,
    chain: Seq<usize>,
    to: int,
) -> bool {
    forall|i: int| 0 <= i < to ==> internal_metadata(internal, #[trigger] chain[i], key) is None
}

/// A chain that comes back to a class goes on as it did from there.
proof fn lemma_chain_repeats(store: MetadataStoreView, chain: Seq<usize>, a: int, b: int, k: nat)
    requires
        is_chain(store, chain),
        0 <= a < b,
        b + k < chain.len(),
        chain[a] == chain[b],
    ensures
        chain[a + k] == chain[b + k],
    decreases k,
{
    if k > 0 {
        lemma_chain_repeats(store, chain, a, b, (k - 1) as nat);
        assert(linked(store, chain, a + k - 1));
        assert(linked(store, chain, b + k - 1));
    }
}

/// In a chain whose last class is the first to hold a value, no class
/// stands twice.
proof fn lemma_chain_to_first_value_is_distinct(
    store: MetadataStoreView,
    internal: Seq<InternalDecoratorsView>,
    key: Seq<char>,
    chain: Seq<usize>,
)
    requires
        chain.len() > 0,
        is_chain(store, chain),
        without_value(internal, key, chain, chain.len() - 1),
        internal_metadata(internal, chain.last(), key) is Some,
    ensures
        chain.no_duplicates(),
{
    let last = chain.len() - 1;
    assert forall|i: int, j: int|
        0 <= i < chain.len() && 0 <= j < chain.len() && i != j implies chain[i] != chain[j] by {
        let a = if i < j {
            i
        } else {
            j
        };
        let b = if i < j {
            j
        } else {
            i
        };
        if chain[a] == chain[b] {
            lemma_chain_repeats(store, chain, a, b, (last - b) as nat);
            assert(internal_metadata(internal, chain[a + last - b], key) is None);
        }
    }
}

/// A chain in which no class stands twice has no more classes than the
/// store.
proof fn lemma_distinct_classes_are_few(store: MetadataStoreView, chain: Seq<usize>)
    requires
        is_chain(store, chain),
        chain.no_duplicates(),
    ensures
        chain.len() <= store.classes.len(),
{
    let numbers = chain.map_values(|class: usize| class as int);
    let all = set_int_range(0, store.classes.len() as int);
    assert(numbers.no_duplicates()) by {
        assert forall|i: int, j: int|
            0 <= i < numbers.len() && 0 <= j < numbers.len() && i != j implies numbers[i]
            != numbers[j] by {
            assert(chain[i] != chain[j]);
        }
    }
    numbers.unique_seq_to_set();
    lemma_int_range(0, store.classes.len() as int);
    assert(numbers.to_set().subset_of(all)) by {
        assert forall|n: int| numbers.to_set().contains(n) implies all.contains(n) by {
            let i = choose|i: int| 0 <= i < numbers.len() && numbers[i] == n;
            assert(store.has_identity(chain[i]));
        }
    }
    lemma_len_subset(numbers.to_set(), all);
}

/// The walk from the class at position `at` of `chain` finds the value of
/// the last class, where no class between them has one and the walk may
/// take enough steps.
proof fn lemma_walk_along(
    store: MetadataStoreView,
    internal: Seq<InternalDecoratorsView>,
    key: Seq<char>,
    chain: Seq<usize>,
    at: int,
    steps: nat,
    value: Metadata,
)
    requires
        0 <= at < chain.len(),
        is_chain(store, chain),
        without_value(internal, key, chain, chain.len() - 1),
        internal_metadata(internal, chain.last(), key) == Some(value),
        steps >= chain.len() - at,
    ensures
        walk(store, internal, key, chain[at], steps) == Some(value),
    decreases chain.len() - at,
{
    assert(store.has_identity(chain[at]));
    if at < chain.len() - 1 {
        assert(internal_metadata(internal, chain[at], key) is None);
        assert(linked(store, chain, at));
        lemma_walk_along(store, internal, key, chain, at + 1, (steps - 1) as nat, value);
    }
}

/// Along the prototype chain the nearest class wins: where `chain` leads
/// from a class up to the first class that has a value under `key`, the
/// walk from that class finds this value, however long the chain is. So the
/// limit on the steps of the walk never keeps it from a value.
pub proof fn lemma_nearest_class_wins(
    store: MetadataStoreView,
    internal: Seq<InternalDecoratorsView>,
    key: Seq<char>,
    chain: Seq<usize>,
    value: Metadata,
)
    requires
        chain.len() > 0,
        is_chain(store, chain),
        without_value(internal, key, chain, chain.len() - 1),
        internal_metadata(internal, chain.last(), key) == Some(value),
    ensures
        walk(store, internal, key, chain[0], store.classes.len()) == Some(value),
{
    lemma_chain_to_first_value_is_distinct(store, internal, key, chain);
    lemma_distinct_classes_are_few(store, chain);
    lemma_walk_along(store, internal, key, chain, 0, store.classes.len(), value);
}

/// Metadata is inherited: a lookup that names no property and finds nothing
/// in the store for `chain[0]` finds the value of the nearest class up the
/// prototype chain for which the context has one.
pub proof fn lemma_metadata_is_inherited(
    store: MetadataStoreView,
    key: Seq<char>,
    context: ContextView,
    chain: Seq<usize>,
    value: Metadata,
)
    requires
        chain.len() > 0,
        is_chain(store, chain),
        store.get(key, chain[0], None) is None,
        context.internal_decorators matches Some(internal) && without_value(
            internal,
            key,
            chain,
            chain.len() - 1,
        ) && internal_metadata(internal, chain.last(), key) == Some(value),
    ensures
        find_by_key(store, key, chain[0], None, Some(context)) == Some(value),
{
    lemma_nearest_class_wins(store, context.internal_decorators->0, key, chain, value);
}

/// The walk finds nothing where no class has a value: where `chain` leads
/// from a class up to the root, which has no prototype or one without a
/// name, and none of its classes has a value under `key`.
pub proof fn lemma_walk_without_value(
    store: MetadataStoreView,
    internal: Seq<InternalDecoratorsView>,
    key: Seq<char>,
    chain: Seq<usize>,
    at: int,
    steps: nat,
)
    requires
        0 <= at < chain.len(),
        is_chain(store, chain),
        without_value(internal, key, chain, chain.len() as int),
        store.parent_of(chain.last()) matches Some(parent) ==> !store.has_identity(parent),
    ensures
        walk(store, internal, key, chain[at], steps) is None,
    decreases chain.len() - at,
{
    if steps > 0 {
        assert(internal_metadata(internal, chain[at], key) is None);
        if at < chain.len() - 1 {
            assert(linked(store, chain, at));
            lemma_walk_without_value(store, internal, key, chain, at + 1, (steps - 1) as nat);
        } else {
            match store.parent_of(chain[at]) {
                Some(parent) => {
                    assert(walk(store, internal, key, parent, (steps - 1) as nat) is None);
                },
                None => {},
            }
        }
    }
}

} // verus!
