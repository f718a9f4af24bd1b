use jackson_wasm::context::{find_internal_metadata, find_value};
use jackson_wasm::key::{context_group_name, word_char};
use jackson_wasm::resolve::{is_metadata_key, is_switch_for};
use jackson_wasm::store::same_option_text;
use jackson_wasm::{
    make_metadata_key_with_context, InternalDecorator, InternalDecorators, JsonDecoratorOptions,
    MakeMetadataKeyWithContextOptions, Metadata, ValidationError,
};

fn chars(s: &str) -> Vec<char> {
    s.chars().collect()
}

fn held(key: &str, record: u64) -> InternalDecorator {
    InternalDecorator {
        key: key.to_string(),
        value: Metadata::Options(JsonDecoratorOptions { enabled: None, record }),
    }
}

fn record(record: u64) -> Option<Metadata> {
    Some(Metadata::Options(JsonDecoratorOptions { enabled: None, record }))
}

#[test]
fn word_characters() {
    for c in ['a', 'm', 'z', 'A', 'M', 'Z', '0', '5', '9', '_'] {
        assert!(word_char(c), "{c:?}");
    }
    for c in ['`', '{', '@', '[', '/', ':', '-', ' ', '.', '\u{e9}', '\u{660}', '\u{0}'] {
        assert!(!word_char(c), "{c:?}");
    }
}

#[test]
fn context_group_names() {
    for name in ["default", "g1", "_", "public_api", "X", "0"] {
        assert!(context_group_name(name), "{name:?}");
    }
    for name in ["", "a-b", "a b", " a", "a ", "a:b", "na\u{ef}ve", "a\nb"] {
        assert!(!context_group_name(name), "{name:?}");
    }
}

#[test]
fn optional_texts_compared() {
    let name = "name".to_string();
    let other = "other".to_string();
    assert!(same_option_text(&None, None));
    assert!(same_option_text(&Some("name".to_string()), Some(&name)));
    assert!(!same_option_text(&Some("name".to_string()), Some(&other)));
    assert!(!same_option_text(&Some("name".to_string()), None));
    assert!(!same_option_text(&None, Some(&name)));
    assert!(!same_option_text(&Some(String::new()), None));
}

#[test]
fn value_of_the_first_decorator_with_the_key() {
    let decorators = vec![held("a", 1), held("b", 2), held("a", 3)];
    assert_eq!(find_value(&decorators, &"a".to_string()), record(1));
    assert_eq!(find_value(&decorators, &"b".to_string()), record(2));
    assert_eq!(find_value(&decorators, &"c".to_string()), None);
    assert_eq!(find_value(&Vec::new(), &"a".to_string()), None);
}

#[test]
fn internal_metadata_of_the_first_entry_for_the_class() {
    let internal = vec![
        InternalDecorators { target: 4, decorators: vec![held("a", 1)] },
        InternalDecorators { target: 2, decorators: vec![held("b", 2)] },
        InternalDecorators { target: 4, decorators: vec![held("a", 3), held("c", 4)] },
    ];
    assert_eq!(find_internal_metadata(&internal, 4, &"a".to_string()), record(1));
    assert_eq!(find_internal_metadata(&internal, 4, &"c".to_string()), None);
    assert_eq!(find_internal_metadata(&internal, 2, &"b".to_string()), record(2));
    assert_eq!(find_internal_metadata(&internal, 2, &"a".to_string()), None);
    assert_eq!(find_internal_metadata(&internal, 3, &"a".to_string()), None);
}

#[test]
fn keys_with_the_namespace_in_front() {
    assert!(is_metadata_key(&chars("jackson:default:X")));
    assert!(is_metadata_key(&chars("jackson:")));
    assert!(!is_metadata_key(&chars("jackson")));
    assert!(!is_metadata_key(&chars("Jackson:default:X")));
    assert!(!is_metadata_key(&chars(" jackson:default:X")));
    assert!(!is_metadata_key(&chars("")));
}

#[test]
fn rows_meant_for_a_key() {
    assert!(is_switch_for(&chars("JsonProperty"), "Json"));
    assert!(!is_switch_for(&chars("JsonProperty"), "Property"));
    assert!(is_switch_for(&chars("jackson:g:JsonProperty"), "JsonProperty"));
    assert!(is_switch_for(&chars("jackson:g:JsonProperty"), "g"));
    assert!(!is_switch_for(&chars("jackson:g:JsonProperty"), "Property"));
    assert!(!is_switch_for(&chars("jackson:g:JsonProperty"), "jackson"));
}

#[test]
fn keys_of_different_groups_differ() {
    let key = |key: &str, group: &str, prefix: &str, suffix: &str| {
        make_metadata_key_with_context(
            key,
            MakeMetadataKeyWithContextOptions::new(
                Some(group.to_string()),
                Some(prefix.to_string()),
                Some(suffix.to_string()),
            ),
        )
        .unwrap()
    };
    assert_ne!(key("k", "a", "", ""), key("k", "b", "", ""));
    assert_ne!(key("b:k", "a", "", ""), key("k", "a_b", "", ""));
    assert_ne!(key("k", "a", "b", ""), key("k", "ab", "", ""));
    assert_eq!(key("c", "a", "b", ""), key("b:c", "a", "", ""));
}

#[test]
fn rejected_name_is_kept_in_the_error() {
    let options = MakeMetadataKeyWithContextOptions::new(Some("a b".to_string()), None, None);
    assert_eq!(
        make_metadata_key_with_context("k", options),
        Err(ValidationError { context_group: "a b".to_string() })
    );
}
