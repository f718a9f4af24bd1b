use jackson_wasm::{
    apply_decorators_enabled, find_metadata, find_metadata_by_metadata_key_with_context,
    get_metadata, make_lookup_keys, ClassType, DecoratorEnabled, InternalDecorator, InternalDecorators,
    JsonDecoratorOptions, JsonStringifierParserCommonContext, Metadata, MetadataEntry,
    MetadataStore,
};

const CHILD: usize = 0;
const PARENT: usize = 1;
const GRANDPARENT: usize = 2;

fn class(name: &str, prototype: Option<usize>) -> ClassType {
    ClassType { name: Some(name.to_string()), prototype }
}

fn family() -> MetadataStore {
    MetadataStore {
        classes: vec![
            class("Child", Some(PARENT)),
            class("Parent", Some(GRANDPARENT)),
            class("Grandparent", None),
        ],
        entries: Vec::new(),
    }
}

fn options(enabled: Option<bool>, record: u64) -> Metadata {
    Metadata::Options(JsonDecoratorOptions { enabled, record })
}

fn entry(key: &str, target: usize, property_key: Option<&str>, value: Metadata) -> MetadataEntry {
    MetadataEntry {
        key: key.to_string(),
        target,
        property_key: property_key.map(|p| p.to_string()),
        value,
    }
}

fn decorators(target: usize, held: Vec<(&str, Metadata)>) -> InternalDecorators {
    InternalDecorators {
        target,
        decorators: held
            .into_iter()
            .map(|(key, value)| InternalDecorator { key: key.to_string(), value })
            .collect(),
    }
}

fn context(
    groups: Option<Vec<&str>>,
    internal: Option<Vec<InternalDecorators>>,
    table: Option<Vec<(&str, Option<bool>)>>,
) -> JsonStringifierParserCommonContext {
    JsonStringifierParserCommonContext {
        with_context_groups: groups.map(|gs| gs.into_iter().map(|g| g.to_string()).collect()),
        internal_decorators: internal,
        decorators_enabled: table.map(|rows| {
            rows.into_iter()
                .map(|(name, enabled)| DecoratorEnabled { name: name.to_string(), enabled })
                .collect()
        }),
    }
}

fn resolve(
    store: &MetadataStore,
    key: &str,
    target: usize,
    property_key: Option<&str>,
    context: JsonStringifierParserCommonContext,
) -> Result<Option<Metadata>, String> {
    get_metadata(store, key.to_string(), target, property_key.map(|p| p.to_string()), context)
        .map_err(|e| e.context_group)
}

#[test]
fn grandparent_value_is_inherited() {
    let store = family();
    let value = options(Some(true), 7);
    let ctx = context(None, Some(vec![decorators(GRANDPARENT, vec![("jackson:default:K", value)])]), None);
    assert_eq!(
        find_metadata_by_metadata_key_with_context(&store, "jackson:default:K", CHILD, None, Some(&ctx)),
        Some(value)
    );
}

#[test]
fn property_lookup_does_not_walk_ancestors() {
    let store = family();
    let value = options(Some(true), 7);
    let ctx = context(None, Some(vec![decorators(GRANDPARENT, vec![("jackson:default:K", value)])]), None);
    let member = "name".to_string();
    assert_eq!(
        find_metadata_by_metadata_key_with_context(&store, "jackson:default:K", CHILD, Some(&member), Some(&ctx)),
        None
    );
}

#[test]
fn nearest_class_wins() {
    let store = family();
    let near = options(Some(true), 1);
    let far = options(Some(true), 2);
    let ctx = context(
        None,
        Some(vec![
            decorators(GRANDPARENT, vec![("K", far)]),
            decorators(PARENT, vec![("K", near)]),
        ]),
        None,
    );
    assert_eq!(find_metadata_by_metadata_key_with_context(&store, "K", CHILD, None, Some(&ctx)), Some(near));
    assert_eq!(find_metadata_by_metadata_key_with_context(&store, "K", PARENT, None, Some(&ctx)), Some(near));
    assert_eq!(find_metadata_by_metadata_key_with_context(&store, "K", GRANDPARENT, None, Some(&ctx)), Some(far));
}

#[test]
fn walk_starts_at_the_target_itself() {
    let store = family();
    let own = options(None, 3);
    let ctx = context(None, Some(vec![decorators(CHILD, vec![("K", own)]), decorators(PARENT, vec![("K", options(None, 4))])]), None);
    assert_eq!(find_metadata_by_metadata_key_with_context(&store, "K", CHILD, None, Some(&ctx)), Some(own));
}

#[test]
fn walk_does_not_look_below_the_target() {
    let store = family();
    let ctx = context(None, Some(vec![decorators(CHILD, vec![("K", options(None, 3))])]), None);
    assert_eq!(find_metadata_by_metadata_key_with_context(&store, "K", PARENT, None, Some(&ctx)), None);
}

#[test]
fn class_entry_without_the_key_is_passed() {
    let store = family();
    let value = options(Some(false), 9);
    let ctx = context(
        None,
        Some(vec![
            decorators(CHILD, vec![("other", options(None, 1))]),
            decorators(PARENT, vec![]),
            decorators(GRANDPARENT, vec![("other", options(None, 2)), ("K", value)]),
        ]),
        None,
    );
    assert_eq!(find_metadata_by_metadata_key_with_context(&store, "K", CHILD, None, Some(&ctx)), Some(value));
}

#[test]
fn store_hit_needs_no_walk() {
    let mut store = family();
    let stored = options(Some(true), 10);
    store.entries.push(entry("K", CHILD, None, stored));
    let ctx = context(None, Some(vec![decorators(CHILD, vec![("K", options(None, 11))])]), None);
    assert_eq!(find_metadata_by_metadata_key_with_context(&store, "K", CHILD, None, Some(&ctx)), Some(stored));
    assert_eq!(find_metadata_by_metadata_key_with_context(&store, "K", CHILD, None, None), Some(stored));
}

#[test]
fn store_lookup_is_for_the_target_alone() {
    let mut store = family();
    store.entries.push(entry("K", PARENT, None, options(Some(true), 10)));
    let ctx = context(None, None, None);
    assert_eq!(find_metadata_by_metadata_key_with_context(&store, "K", CHILD, None, Some(&ctx)), None);
    assert_eq!(find_metadata_by_metadata_key_with_context(&store, "K", PARENT, None, Some(&ctx)), Some(options(Some(true), 10)));
}

#[test]
fn store_lookup_by_property() {
    let mut store = family();
    let for_class = options(Some(true), 1);
    let for_name = options(Some(true), 2);
    let for_age = options(Some(true), 3);
    store.entries.push(entry("K", CHILD, None, for_class));
    store.entries.push(entry("K", CHILD, Some("name"), for_name));
    store.entries.push(entry("K", CHILD, Some("age"), for_age));
    let name = "name".to_string();
    let age = "age".to_string();
    let other = "other".to_string();
    assert_eq!(find_metadata_by_metadata_key_with_context(&store, "K", CHILD, Some(&name), None), Some(for_name));
    assert_eq!(find_metadata_by_metadata_key_with_context(&store, "K", CHILD, Some(&age), None), Some(for_age));
    assert_eq!(find_metadata_by_metadata_key_with_context(&store, "K", CHILD, Some(&other), None), None);
    assert_eq!(find_metadata_by_metadata_key_with_context(&store, "K", CHILD, None, None), Some(for_class));
    assert_eq!(store.get("K", CHILD, Some(&name)), Some(for_name));
    assert_eq!(store.get("L", CHILD, Some(&name)), None);
}

#[test]
fn first_store_entry_answers() {
    let mut store = family();
    store.entries.push(entry("K", CHILD, None, options(None, 1)));
    store.entries.push(entry("K", CHILD, None, options(None, 2)));
    assert_eq!(store.get("K", CHILD, None), Some(options(None, 1)));
}

#[test]
fn no_walk_without_context_or_internal_decorators() {
    let store = family();
    assert_eq!(find_metadata_by_metadata_key_with_context(&store, "K", CHILD, None, None), None);
    let ctx = context(Some(vec!["g"]), None, Some(vec![("K", Some(true))]));
    assert_eq!(find_metadata_by_metadata_key_with_context(&store, "K", CHILD, None, Some(&ctx)), None);
}

#[test]
fn walk_ends_at_a_class_without_name() {
    let store = MetadataStore {
        classes: vec![
            class("Child", Some(1)),
            ClassType { name: None, prototype: Some(2) },
            class("Beyond", None),
        ],
        entries: Vec::new(),
    };
    let ctx = context(None, Some(vec![decorators(1, vec![("K", options(None, 1))]), decorators(2, vec![("K", options(None, 2))])]), None);
    assert_eq!(find_metadata_by_metadata_key_with_context(&store, "K", 0, None, Some(&ctx)), None);
    assert_eq!(find_metadata_by_metadata_key_with_context(&store, "K", 1, None, Some(&ctx)), None);
    assert_eq!(find_metadata_by_metadata_key_with_context(&store, "K", 2, None, Some(&ctx)), Some(options(None, 2)));
}

#[test]
fn walk_ends_at_a_class_with_empty_name() {
    let store = MetadataStore {
        classes: vec![class("Child", Some(1)), class("", None)],
        entries: Vec::new(),
    };
    let ctx = context(None, Some(vec![decorators(1, vec![("K", options(None, 1))])]), None);
    assert_eq!(find_metadata_by_metadata_key_with_context(&store, "K", 0, None, Some(&ctx)), None);
}

#[test]
fn walk_from_an_unknown_class_finds_nothing() {
    let store = family();
    let ctx = context(None, Some(vec![decorators(17, vec![("K", options(None, 1))])]), None);
    assert_eq!(find_metadata_by_metadata_key_with_context(&store, "K", 17, None, Some(&ctx)), None);
    assert_eq!(store.parent_of(17), None);
    assert_eq!(store.identity(17), None);
    assert!(!store.has_identity(17));
}

#[test]
fn walk_on_a_cyclic_chain_ends() {
    let store = MetadataStore {
        classes: vec![class("A", Some(1)), class("B", Some(2)), class("C", Some(0))],
        entries: Vec::new(),
    };
    let nothing = context(None, Some(vec![decorators(9, vec![("K", options(None, 1))])]), None);
    assert_eq!(find_metadata_by_metadata_key_with_context(&store, "K", 0, None, Some(&nothing)), None);
    let last = context(None, Some(vec![decorators(2, vec![("K", options(None, 5))])]), None);
    assert_eq!(find_metadata_by_metadata_key_with_context(&store, "K", 0, None, Some(&last)), Some(options(None, 5)));
    assert_eq!(find_metadata_by_metadata_key_with_context(&store, "K", 1, None, Some(&last)), Some(options(None, 5)));
    let own = MetadataStore { classes: vec![class("Self", Some(0))], entries: Vec::new() };
    assert_eq!(find_metadata_by_metadata_key_with_context(&own, "K", 0, None, Some(&nothing)), None);
}

#[test]
fn store_capabilities() {
    let store = family();
    assert_eq!(store.parent_of(CHILD), Some(PARENT));
    assert_eq!(store.parent_of(GRANDPARENT), None);
    assert_eq!(store.identity(PARENT), Some(&"Parent".to_string()));
    assert!(store.has_identity(GRANDPARENT));
    let empty = MetadataStore::new();
    assert!(empty.classes.is_empty());
    assert!(empty.entries.is_empty());
    assert_eq!(empty.get("K", 0, None), None);
}

#[test]
fn default_group_is_the_fallback() {
    let mut store = family();
    let value = options(Some(true), 1);
    store.entries.push(entry("jackson:default:X", CHILD, None, value));
    let ctx = context(Some(vec!["custom"]), None, None);
    assert_eq!(find_metadata(&store, "X", CHILD, None, &ctx).map_err(|e| e.context_group), Ok(Some(value)));
    assert_eq!(resolve(&store, "X", CHILD, None, ctx), Ok(Some(value)));
}

#[test]
fn default_group_is_tried_without_any_group() {
    let mut store = family();
    let value = options(Some(true), 1);
    store.entries.push(entry("jackson:default:X", CHILD, None, value));
    assert_eq!(resolve(&store, "X", CHILD, None, context(None, None, None)), Ok(Some(value)));
    assert_eq!(resolve(&store, "X", CHILD, None, context(Some(vec![]), None, None)), Ok(Some(value)));
    assert_eq!(resolve(&store, "Y", CHILD, None, context(None, None, None)), Ok(None));
}

#[test]
fn groups_of_the_context_come_before_default() {
    let mut store = family();
    let in_default = options(Some(true), 1);
    let in_custom = options(Some(true), 2);
    let in_other = options(Some(true), 3);
    store.entries.push(entry("jackson:default:X", CHILD, None, in_default));
    store.entries.push(entry("jackson:custom:X", CHILD, None, in_custom));
    store.entries.push(entry("jackson:other:X", CHILD, None, in_other));
    assert_eq!(resolve(&store, "X", CHILD, None, context(Some(vec!["custom"]), None, None)), Ok(Some(in_custom)));
    assert_eq!(resolve(&store, "X", CHILD, None, context(Some(vec!["other", "custom"]), None, None)), Ok(Some(in_other)));
    assert_eq!(resolve(&store, "X", CHILD, None, context(Some(vec!["none", "custom", "other"]), None, None)), Ok(Some(in_custom)));
    assert_eq!(resolve(&store, "X", CHILD, None, context(Some(vec!["default", "custom"]), None, None)), Ok(Some(in_default)));
}

#[test]
fn group_lookup_walks_the_chain_for_each_group() {
    let store = family();
    let inherited = options(Some(true), 4);
    let ctx = context(
        Some(vec!["custom"]),
        Some(vec![decorators(GRANDPARENT, vec![("jackson:default:X", inherited)])]),
        None,
    );
    assert_eq!(resolve(&store, "X", CHILD, None, ctx), Ok(Some(inherited)));
}

#[test]
fn invalid_group_of_the_context_is_reported() {
    let mut store = family();
    store.entries.push(entry("jackson:default:X", CHILD, None, options(Some(true), 1)));
    assert_eq!(resolve(&store, "X", CHILD, None, context(Some(vec!["a-b"]), None, None)), Err("a-b".to_string()));
    assert_eq!(resolve(&store, "X", CHILD, None, context(Some(vec!["ok", ""]), None, None)), Err("".to_string()));
    let ctx = context(Some(vec!["a b"]), None, None);
    assert_eq!(find_metadata(&store, "X", CHILD, None, &ctx).map_err(|e| e.context_group), Err("a b".to_string()));
}

#[test]
fn invalid_group_after_a_hit_is_not_reached() {
    let mut store = family();
    let value = options(Some(true), 2);
    store.entries.push(entry("jackson:custom:X", CHILD, None, value));
    assert_eq!(resolve(&store, "X", CHILD, None, context(Some(vec!["custom", "a-b"]), None, None)), Ok(Some(value)));
}

#[test]
fn switch_off_hides_found_options() {
    let mut store = family();
    store.entries.push(entry("jackson:default:X", CHILD, None, options(None, 1)));
    let ctx = context(None, None, Some(vec![("X", Some(false))]));
    assert_eq!(resolve(&store, "X", CHILD, None, ctx), Ok(None));
    let ctx = context(None, None, Some(vec![("X", Some(false))]));
    assert_eq!(
        find_metadata(&store, "X", CHILD, None, &ctx).map_err(|e| e.context_group),
        Ok(Some(options(None, 1)))
    );
}

#[test]
fn switch_off_overrides_declared_enabled() {
    let mut store = family();
    store.entries.push(entry("jackson:default:JsonProperty", CHILD, None, options(Some(true), 1)));
    let ctx = context(None, None, Some(vec![("JsonProperty", Some(false))]));
    assert_eq!(resolve(&store, "JsonProperty", CHILD, None, ctx), Ok(None));
}

#[test]
fn switch_on_overrides_declared_disabled() {
    let mut store = family();
    store.entries.push(entry("jackson:default:JsonProperty", CHILD, None, options(Some(false), 1)));
    store.entries.push(entry("jackson:default:JsonIgnore", CHILD, None, options(None, 2)));
    let ctx = context(None, None, Some(vec![("JsonProperty", Some(true))]));
    assert_eq!(resolve(&store, "JsonProperty", CHILD, None, ctx), Ok(Some(options(Some(true), 1))));
    let ctx = context(None, None, Some(vec![("Json", Some(true))]));
    assert_eq!(resolve(&store, "JsonIgnore", CHILD, None, ctx), Ok(Some(options(Some(true), 2))));
}

#[test]
fn options_without_enabled_are_not_visible() {
    let mut store = family();
    store.entries.push(entry("jackson:default:X", CHILD, None, options(None, 1)));
    store.entries.push(entry("jackson:default:Y", CHILD, None, options(Some(false), 2)));
    store.entries.push(entry("jackson:default:Z", CHILD, None, options(Some(true), 3)));
    assert_eq!(resolve(&store, "X", CHILD, None, context(None, None, None)), Ok(None));
    assert_eq!(resolve(&store, "Y", CHILD, None, context(None, None, None)), Ok(None));
    assert_eq!(resolve(&store, "Z", CHILD, None, context(None, None, None)), Ok(Some(options(Some(true), 3))));
    assert_eq!(resolve(&store, "Z", CHILD, None, context(None, None, Some(vec![]))), Ok(Some(options(Some(true), 3))));
    assert_eq!(resolve(&store, "Z", CHILD, None, context(None, None, Some(vec![("Other", Some(false))]))), Ok(Some(options(Some(true), 3))));
}

#[test]
fn explicit_undefined_passes_the_switches() {
    let mut store = family();
    store.entries.push(entry("jackson:default:X", CHILD, None, Metadata::Undefined));
    let ctx = context(None, None, Some(vec![("X", Some(false))]));
    assert_eq!(resolve(&store, "X", CHILD, None, ctx), Ok(Some(Metadata::Undefined)));
    let ctx = context(None, Some(vec![decorators(PARENT, vec![("jackson:default:Y", Metadata::Undefined)])]), None);
    assert_eq!(resolve(&store, "Y", CHILD, None, ctx), Ok(Some(Metadata::Undefined)));
}

#[test]
fn first_matching_row_decides() {
    let found = JsonDecoratorOptions { enabled: None, record: 5 };
    let rows = |rows: Vec<(&str, Option<bool>)>| context(None, None, Some(rows)).decorators_enabled;
    assert_eq!(
        apply_decorators_enabled(found, "JsonProperty", &rows(vec![("Json", Some(false)), ("JsonProperty", Some(true))])),
        JsonDecoratorOptions { enabled: Some(false), record: 5 }
    );
    assert_eq!(
        apply_decorators_enabled(found, "JsonProperty", &rows(vec![("JsonProperty", Some(true)), ("Json", Some(false))])),
        JsonDecoratorOptions { enabled: Some(true), record: 5 }
    );
    assert_eq!(
        apply_decorators_enabled(found, "JsonProperty", &rows(vec![("Property", Some(true)), ("JsonP", Some(false))])),
        JsonDecoratorOptions { enabled: Some(false), record: 5 }
    );
}

#[test]
fn matching_row_without_boolean_changes_nothing() {
    let found = JsonDecoratorOptions { enabled: Some(true), record: 5 };
    let rows = context(None, None, Some(vec![("Json", None), ("JsonProperty", Some(false))])).decorators_enabled;
    assert_eq!(apply_decorators_enabled(found, "JsonProperty", &rows), found);
    assert_eq!(apply_decorators_enabled(found, "JsonProperty", &None), found);
}

#[test]
fn plain_key_matches_by_its_beginning() {
    let found = JsonDecoratorOptions { enabled: None, record: 5 };
    let rows = |name: &str| context(None, None, Some(vec![(name, Some(true))])).decorators_enabled;
    let on = JsonDecoratorOptions { enabled: Some(true), record: 5 };
    assert_eq!(apply_decorators_enabled(found, "JsonProperty", &rows("JsonProperty")), on);
    assert_eq!(apply_decorators_enabled(found, "JsonProperty", &rows("Json")), on);
    assert_eq!(apply_decorators_enabled(found, "JsonProperty", &rows("")), on);
    assert_eq!(apply_decorators_enabled(found, "JsonProperty", &rows("Property")), found);
    assert_eq!(apply_decorators_enabled(found, "JsonProperty", &rows("JsonPropertyX")), found);
    assert_eq!(apply_decorators_enabled(found, "JsonProperty", &rows("jsonProperty")), found);
}

#[test]
fn metadata_key_matches_after_a_colon() {
    let found = JsonDecoratorOptions { enabled: None, record: 5 };
    let rows = |name: &str| context(None, None, Some(vec![(name, Some(true))])).decorators_enabled;
    let on = JsonDecoratorOptions { enabled: Some(true), record: 5 };
    assert_eq!(apply_decorators_enabled(found, "jackson:default:JsonProperty", &rows("JsonProperty")), on);
    assert_eq!(apply_decorators_enabled(found, "jackson:default:JsonProperty", &rows("Json")), on);
    assert_eq!(apply_decorators_enabled(found, "jackson:default:pre:JsonProperty:suf", &rows("JsonProperty")), on);
    assert_eq!(apply_decorators_enabled(found, "jackson:default:JsonProperty", &rows("")), on);
    assert_eq!(apply_decorators_enabled(found, "jackson:default:JsonProperty", &rows("Property")), found);
    assert_eq!(apply_decorators_enabled(found, "jackson:default:JsonProperty", &rows("jackson")), found);
    assert_eq!(apply_decorators_enabled(found, "jackson:default:JsonProperty", &rows("JsonPropertyX")), found);
    assert_eq!(apply_decorators_enabled(found, "jackson:default:JsonProperty", &rows("default")), on);
}

#[test]
fn metadata_key_is_looked_up_as_it_is() {
    let mut store = family();
    let value = options(Some(true), 1);
    store.entries.push(entry("jackson:default:jackson:default:X", CHILD, None, options(Some(true), 90)));
    store.entries.push(entry("jackson:custom:jackson:default:X", CHILD, None, options(Some(true), 91)));
    store.entries.push(entry("jackson:custom:X", CHILD, None, options(Some(true), 92)));
    assert_eq!(resolve(&store, "jackson:default:X", CHILD, None, context(Some(vec!["custom"]), None, None)), Ok(None));
    store.entries.push(entry("jackson:default:X", CHILD, None, value));
    assert_eq!(resolve(&store, "jackson:default:X", CHILD, None, context(Some(vec!["custom"]), None, None)), Ok(Some(value)));
}

#[test]
fn metadata_key_skips_group_validation() {
    let mut store = family();
    let value = options(Some(true), 1);
    store.entries.push(entry("jackson:default:X", CHILD, None, value));
    assert_eq!(resolve(&store, "jackson:default:X", CHILD, None, context(Some(vec!["a-b"]), None, None)), Ok(Some(value)));
    assert_eq!(resolve(&store, "X", CHILD, None, context(Some(vec!["a-b"]), None, None)), Err("a-b".to_string()));
}

#[test]
fn metadata_key_passes_the_switches() {
    let mut store = family();
    store.entries.push(entry("jackson:default:JsonProperty", CHILD, Some("name"), options(None, 1)));
    let on = context(None, None, Some(vec![("JsonProperty", Some(true))]));
    assert_eq!(resolve(&store, "jackson:default:JsonProperty", CHILD, Some("name"), on), Ok(Some(options(Some(true), 1))));
    let off = context(None, None, Some(vec![("JsonProperty", Some(false))]));
    assert_eq!(resolve(&store, "jackson:default:JsonProperty", CHILD, Some("name"), off), Ok(None));
    let unmatched = context(None, None, Some(vec![("jackson", Some(true))]));
    assert_eq!(resolve(&store, "jackson:default:JsonProperty", CHILD, Some("name"), unmatched), Ok(None));
}

#[test]
fn key_that_only_resembles_the_namespace_is_a_decorator_key() {
    let mut store = family();
    let value = options(Some(true), 1);
    store.entries.push(entry("jackson:default:jackson", CHILD, None, value));
    store.entries.push(entry("jackson:default:Jackson:X", CHILD, None, value));
    assert_eq!(resolve(&store, "jackson", CHILD, None, context(None, None, None)), Ok(Some(value)));
    assert_eq!(resolve(&store, "Jackson:X", CHILD, None, context(None, None, None)), Ok(Some(value)));
    assert_eq!(resolve(&store, "jackson:", CHILD, None, context(None, None, None)), Ok(None));
}

#[test]
fn lookup_keys_of_a_metadata_key() {
    let ctx = context(Some(vec!["custom", "a-b"]), None, None);
    assert_eq!(make_lookup_keys("jackson:default:X", &ctx), vec!["jackson:default:X".to_string()]);
    assert_eq!(make_lookup_keys("jackson:", &ctx), vec!["jackson:".to_string()]);
}

#[test]
fn lookup_keys_of_a_decorator_key() {
    assert_eq!(make_lookup_keys("X", &context(None, None, None)), vec!["jackson:default:X".to_string()]);
    assert_eq!(
        make_lookup_keys("X", &context(Some(vec!["custom", "default"]), None, None)),
        vec!["jackson:custom:X".to_string(), "jackson:default:X".to_string(), "jackson:default:X".to_string()]
    );
    assert_eq!(
        make_lookup_keys("X", &context(Some(vec!["custom", "a-b", "other"]), None, None)),
        vec!["jackson:custom:X".to_string()]
    );
    assert_eq!(make_lookup_keys("X", &context(Some(vec![""]), None, None)), Vec::<String>::new());
}

#[test]
fn lookup_reads_only_its_keys() {
    let mut plain = family();
    plain.entries.push(entry("jackson:custom:X", CHILD, None, options(Some(true), 1)));
    let mut crowded = family();
    crowded.entries.push(entry("jackson:other:X", CHILD, None, options(Some(true), 7)));
    crowded.entries.push(entry("jackson:custom:X", PARENT, None, options(Some(true), 8)));
    crowded.entries.push(entry("jackson:custom:X", CHILD, Some("name"), options(Some(true), 9)));
    crowded.entries.push(entry("jackson:custom:X", CHILD, None, options(Some(true), 1)));
    for store in [&plain, &crowded] {
        assert_eq!(
            resolve(store, "X", CHILD, None, context(Some(vec!["custom"]), None, None)),
            Ok(Some(options(Some(true), 1)))
        );
    }
}
