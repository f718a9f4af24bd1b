//! Metadata keys: the namespaced form `jackson:<group>:[<prefix>:]<key>[:<suffix>]`
//! under which a decorator's options are stored for one context group.

use vstd::prelude::*;
use vstd::utf8::encode_utf8;

verus! {

/// The context group that takes part in every lookup, tried after all others.
pub const DEFAULT_CONTEXT_GROUP: &'static str = "default";

/// The characters of [`DEFAULT_CONTEXT_GROUP`].
pub open spec fn default_context_group() -> Seq<char> {
    seq!['d', 'e', 'f', 'a', 'u', 'l', 't']
}

/// The characters `jackson:`, with which every metadata key begins.
pub open spec fn namespace() -> Seq<char> {
    seq!['j', 'a', 'c', 'k', 's', 'o', 'n', ':']
}

/// Whether `c` may occur in a context group name: an ASCII letter, an ASCII
/// digit or the underscore.
pub open spec fn is_word_char(c: char) -> bool {
    ('a' <= c && c <= 'z') || ('A' <= c && c <= 'Z') || ('0' <= c && c <= '9') || c == '_'
}

/// Whether `name` can name a context group: one or more word characters.
pub open spec fn is_context_group_name(name: Seq<char>) -> bool {
    &&& name.len() > 0
    &&& forall|i: int| 0 <= i < name.len() ==> is_word_char(#[trigger] name[i])
}

/// A qualifier that was left out counts as the empty one.
pub open spec fn or_empty(qualifier: Option<Seq<char>>) -> Seq<char> {
    match qualifier {
        Some(q) => q,
        None => Seq::empty(),
    }
}

/// The metadata key of `key` in `context_group`. An empty prefix or suffix is
/// left out together with its separator.
pub open spec fn metadata_key(
    key: Seq<char>,
    context_group: Seq<char>,
    prefix: Seq<char>,
    suffix: Seq<char>,
) -> Seq<char> {
    namespace() + context_group + seq![':'] + (if prefix.len() == 0 {
        Seq::empty()
    } else {
        prefix + seq![':']
    }) + key + (if suffix.len() == 0 {
        Seq::empty()
    } else {
        seq![':'] + suffix
    })
}

/// What building one key gives: the key in the named group, or in the default
/// group where none is named; `Err` with the name where the name is no context
/// group name.
pub open spec fn build_key(
    key: Seq<char>,
    context_group: Option<Seq<char>>,
    prefix: Option<Seq<char>>,
    suffix: Option<Seq<char>>,
) -> Result<Seq<char>, Seq<char>> {
    match context_group {
        Some(name) => if is_context_group_name(name) {
            Ok(metadata_key(key, name, or_empty(prefix), or_empty(suffix)))
        } else {
            Err(name)
        },
        None => Ok(metadata_key(key, default_context_group(), or_empty(prefix), or_empty(suffix))),
    }
}

/// The position of the first of `groups`, from `from` on, that is no context
/// group name.
pub open spec fn first_invalid_group(groups: Seq<Seq<char>>, from: int) -> Option<int>
    decreases groups.len() - from,
{
    if from < 0 || from >= groups.len() {
        None
    } else if !is_context_group_name(groups[from]) {
        Some(from)
    } else {
        first_invalid_group(groups, from + 1)
    }
}

/// What building the keys of several groups gives: one key for each group, in
/// the given order, or the key of the default group where no group is given;
/// `Err` with the first name that is no context group name.
pub open spec fn build_keys(
    key: Seq<char>,
    context_groups: Option<Seq<Seq<char>>>,
    prefix: Option<Seq<char>>,
    suffix: Option<Seq<char>>,
) -> Result<Seq<Seq<char>>, Seq<char>> {
    match context_groups {
        Some(groups) if groups.len() > 0 => match first_invalid_group(groups, 0) {
            Some(i) => Err(groups[i]),
            None => Ok(
                groups.map_values(
                    |group: Seq<char>| metadata_key(key, group, or_empty(prefix), or_empty(suffix)),
                ),
            ),
        },
        _ => Ok(
            seq![metadata_key(key, default_context_group(), or_empty(prefix), or_empty(suffix))],
        ),
    }
}

/// The characters of an optional string.
pub open spec fn option_text(text: Option<String>) -> Option<Seq<char>> {
    match text {
        Some(t) => Some(t@),
        None => None,
    }
}

/// The characters of each string of a list.
pub open spec fn texts(list: Seq<String>) -> Seq<Seq<char>> {
    list.map_values(|t: String| t@)
}

/// The characters of each string of an optional list.
pub open spec fn option_texts(list: Option<Vec<String>>) -> Option<Seq<Seq<char>>> {
    match list {
        Some(l) => Some(texts(l@)),
        None => None,
    }
}

/// A context group name was given that is not made of one or more word
/// characters.
#[derive(Clone, Debug, PartialEq, Eq)]
pub struct ValidationError {
    /// The name that was rejected.
    pub context_group: String,
}

impl ValidationError {
    /// The text of [`ValidationError::message`] for the rejected name `name`.
    pub open spec fn message_text(name: Seq<char>) -> Seq<char> {
        "Invalid context group name \""@ + name
            + "\" found! The context group name must match \"/^[\\w]+$/\" regular expression, that is a non-empty string which contains any alphanumeric character including the underscore."@
    }

    /// Says which name was rejected, and which pattern a name has to match.
    pub fn message(&self) -> (text: String)
        ensures
            text@ == Self::message_text(self.context_group@),
    {
        let mut text = String::from_str("Invalid context group name \"");
        text.append(self.context_group.as_str());
        text.append(
            "\" found! The context group name must match \"/^[\\w]+$/\" regular expression, that is a non-empty string which contains any alphanumeric character including the underscore.",
        );
        text
    }
}

/// The characters of a built key, or of the name that was rejected.
pub open spec fn key_outcome(outcome: Result<String, ValidationError>) -> Result<
    Seq<char>,
    Seq<char>,
> {
    match outcome {
        Ok(key) => Ok(key@),
        Err(e) => Err(e.context_group@),
    }
}

/// The characters of the built keys, or of the name that was rejected.
pub open spec fn keys_outcome(outcome: Result<Vec<String>, ValidationError>) -> Result<
    Seq<Seq<char>>,
    Seq<char>,
> {
    match outcome {
        Ok(keys) => Ok(texts(keys@)),
        Err(e) => Err(e.context_group@),
    }
}

/// What one key is built from, besides the decorator's own key.
#[derive(Clone, Debug, PartialEq, Eq)]
pub struct MakeMetadataKeyWithContextOptions {
    context_group: Option<String>,
    prefix: Option<String>,
    suffix: Option<String>,
}

/// The characters held by a [`MakeMetadataKeyWithContextOptions`].
pub struct KeyOptionsView {
    pub context_group: Option<Seq<char>>,
    pub prefix: Option<Seq<char>>,
    pub suffix: Option<Seq<char>>,
}

impl View for MakeMetadataKeyWithContextOptions {
    type V = KeyOptionsView;

    closed spec fn view(&self) -> KeyOptionsView {
        KeyOptionsView {
            context_group: option_text(self.context_group),
            prefix: option_text(self.prefix),
            suffix: option_text(self.suffix),
        }
    }
}

impl MakeMetadataKeyWithContextOptions {
    /// Options that name the context group, the prefix and the suffix given;
    /// each may be left out.
    #[allow(non_snake_case)]
    pub fn new(contextGroup: Option<String>, prefix: Option<String>, suffix: Option<String>) -> (r:
        MakeMetadataKeyWithContextOptions)
        ensures
            r@.context_group == option_text(contextGroup),
            r@.prefix == option_text(prefix),
            r@.suffix == option_text(suffix),
    {
        MakeMetadataKeyWithContextOptions { context_group: contextGroup, prefix, suffix }
    }

    /// The context group named, if any.
    #[allow(non_snake_case)]
    pub fn contextGroup(&self) -> (r: Option<String>)
        ensures
            option_text(r) == self@.context_group,
    {
        self.context_group.clone()
    }

    /// Names another context group, or none.
    #[allow(non_snake_case)]
    pub fn set_contextGroup(&mut self, value: Option<String>)
        ensures
            final(self)@.context_group == option_text(value),
            final(self)@.prefix == old(self)@.prefix,
            final(self)@.suffix == old(self)@.suffix,
    {
        self.context_group = value;
    }

    /// The prefix, if any.
    pub fn prefix(&self) -> (r: Option<String>)
        ensures
            option_text(r) == self@.prefix,
    {
        self.prefix.clone()
    }

    /// Sets another prefix, or none.
    pub fn set_prefix(&mut self, value: Option<String>)
        ensures
            final(self)@.context_group == old(self)@.context_group,
            final(self)@.prefix == option_text(value),
            final(self)@.suffix == old(self)@.suffix,
    {
        self.prefix = value;
    }

    /// The suffix, if any.
    pub fn suffix(&self) -> (r: Option<String>)
        ensures
            option_text(r) == self@.suffix,
    {
        self.suffix.clone()
    }

    /// Sets another suffix, or none.
    pub fn set_suffix(&mut self, value: Option<String>)
        ensures
            final(self)@.context_group == old(self)@.context_group,
            final(self)@.prefix == old(self)@.prefix,
            final(self)@.suffix == option_text(value),
    {
        self.suffix = value;
    }
}

/// What the keys of several context groups are built from, besides the
/// decorator's own key.
#[derive(Clone, Debug, PartialEq, Eq)]
pub struct MakeMetadataKeysWithContextOptions {
    context_groups: Option<Vec<String>>,
    prefix: Option<String>,
    suffix: Option<String>,
}

/// The characters held by a [`MakeMetadataKeysWithContextOptions`].
pub struct KeysOptionsView {
    pub context_groups: Option<Seq<Seq<char>>>,
    pub prefix: Option<Seq<char>>,
    pub suffix: Option<Seq<char>>,
}

impl View for MakeMetadataKeysWithContextOptions {
    type V = KeysOptionsView;

    closed spec fn view(&self) -> KeysOptionsView {
        KeysOptionsView {
            context_groups: option_texts(self.context_groups),
            prefix: option_text(self.prefix),
            suffix: option_text(self.suffix),
        }
    }
}

impl MakeMetadataKeysWithContextOptions {
    /// Options that list the context groups and name the prefix and the
    /// suffix given; each may be left out.
    #[allow(non_snake_case)]
    pub fn new(
        contextGroups: Option<Vec<String>>,
        prefix: Option<String>,
        suffix: Option<String>,
    ) -> (r: MakeMetadataKeysWithContextOptions)
        ensures
            r@.context_groups == option_texts(contextGroups),
            r@.prefix == option_text(prefix),
            r@.suffix == option_text(suffix),
    {
        MakeMetadataKeysWithContextOptions { context_groups: contextGroups, prefix, suffix }
    }

    /// The context groups listed, if any.
    #[allow(non_snake_case)]
    pub fn contextGroups(&self) -> (r: Option<Vec<String>>)
        ensures
            option_texts(r) == self@.context_groups,
    {
        self.context_groups.clone()
    }

    /// The prefix, if any.
    pub fn prefix(&self) -> (r: Option<String>)
        ensures
            option_text(r) == self@.prefix,
    {
        self.prefix.clone()
    }

    /// The suffix, if any.
    pub fn suffix(&self) -> (r: Option<String>)
        ensures
            option_text(r) == self@.suffix,
    {
        self.suffix.clone()
    }
}

/// Whether `c` is a word character.
pub fn word_char(c: char) -> (r: bool)
    ensures
        r == is_word_char(c),
{
    (c >= 'a' && c <= 'z') || (c >= 'A' && c <= 'Z') || (c >= '0' && c <= '9') || c == '_'
}

/// Whether `name` can name a context group.
pub fn context_group_name(name: &str) -> (r: bool)
    ensures
        r == is_context_group_name(name@),
{
    let mut all_words = true;
    let mut any = false;
    for c in it: name.chars()
        invariant
            it.seq() == name@,
            all_words == forall|i: int| 0 <= i < it.index() ==> is_word_char(#[trigger] name@[i]),
            any == (it.index() > 0),
    {
        if !word_char(c) {
            all_words = false;
        }
        any = true;
    }
    all_words && any
}

/// Writes out the metadata key of `key` in `group`.
fn compose_key(key: &str, group: &str, prefix: &Option<String>, suffix: &Option<String>) -> (out:
    String)
    ensures
        out@ == metadata_key(
            key@,
            group@,
            or_empty(option_text(*prefix)),
            or_empty(option_text(*suffix)),
        ),
{
    proof {
        reveal_strlit("jackson:");
        reveal_strlit(":");
    }
    let mut out = String::from_str("jackson:");
    assert(out@ =~= namespace());
    out.append(group);
    out.append(":");
    match prefix {
        Some(p) => {
            if !p.as_str().is_empty() {
                out.append(p.as_str());
                out.append(":");
            }
        },
        None => {},
    }
    out.append(key);
    match suffix {
        Some(s) => {
            if !s.as_str().is_empty() {
                out.append(":");
                out.append(s.as_str());
            }
        },
        None => {},
    }
    assert(out@ =~= metadata_key(
        key@,
        group@,
        or_empty(option_text(*prefix)),
        or_empty(option_text(*suffix)),
    ));
    out
}

/// Builds the metadata key of `key` for the context group that `options`
/// names, or for the default group where it names none. A name that is not
/// made of one or more word characters is rejected before anything is built.
pub fn make_metadata_key_with_context(key: &str, options: MakeMetadataKeyWithContextOptions) -> (r:
    Result<String, ValidationError>)
    ensures
        key_outcome(r) == build_key(key@, options@.context_group, options@.prefix, options@.suffix),
{
    let MakeMetadataKeyWithContextOptions { context_group, prefix, suffix } = options;
    match context_group {
        Some(name) => {
            if context_group_name(name.as_str()) {
                Ok(compose_key(key, name.as_str(), &prefix, &suffix))
            } else {
                Err(ValidationError { context_group: name })
            }
        },
        None => {
            proof {
                reveal_strlit("default");
            }
            assert(DEFAULT_CONTEXT_GROUP@ =~= default_context_group());
            Ok(compose_key(key, DEFAULT_CONTEXT_GROUP, &prefix, &suffix))
        },
    }
}

/// Builds the metadata key of `key` for each of the context groups that
/// `options` lists, in their order, or for the default group alone where it
/// lists none. The first name that is not made of one or more word characters
/// is rejected, and no key is handed out.
pub fn make_metadata_keys_with_context(
    key: String,
    options: MakeMetadataKeysWithContextOptions,
) -> (r: Result<Vec<String>, ValidationError>)
    ensures
        keys_outcome(r) == build_keys(
            key@,
            options@.context_groups,
            options@.prefix,
            options@.suffix,
        ),
{
    let MakeMetadataKeysWithContextOptions { context_groups, prefix, suffix } = options;
    let groups: Vec<String> = match context_groups {
        Some(groups) => groups,
        None => Vec::new(),
    };
    let mut keys: Vec<String> = Vec::new();
    if groups.len() == 0 {
        proof {
            reveal_strlit("default");
        }
        assert(DEFAULT_CONTEXT_GROUP@ =~= default_context_group());
        keys.push(compose_key(key.as_str(), DEFAULT_CONTEXT_GROUP, &prefix, &suffix));
        assert(texts(keys@) =~= seq![
            metadata_key(
                key@,
                default_context_group(),
                or_empty(option_text(prefix)),
                or_empty(option_text(suffix)),
            ),
        ]);
        return Ok(keys);
    }
    let ghost names = texts(groups@);
    let mut i: usize = 0;
    while i < groups.len()
        invariant
            i <= groups.len(),
            names == texts(groups@),
            names.len() > 0,
            options@.context_groups == Some(names),
            options@.prefix == option_text(prefix),
            options@.suffix == option_text(suffix),
            first_invalid_group(names, 0) == first_invalid_group(names, i as int),
            keys.len() == i,
            forall|k: int|
                0 <= k < i ==> (#[trigger] keys@[k])@ == metadata_key(
                    key@,
                    names[k],
                    or_empty(option_text(prefix)),
                    or_empty(option_text(suffix)),
                ),
        decreases groups.len() - i,
    {
        assert(names[i as int] == groups@[i as int]@);
        if !context_group_name(groups[i].as_str()) {
            return Err(ValidationError { context_group: groups[i].clone() });
        }
        keys.push(compose_key(key.as_str(), groups[i].as_str(), &prefix, &suffix));
        i += 1;
    }
    assert(texts(keys@) =~= names.map_values(
        |group: Seq<char>|
            metadata_key(key@, group, or_empty(option_text(prefix)), or_empty(option_text(suffix))),
    ));
    Ok(keys)
}

/// The default context group is a context group name.
pub proof fn lemma_default_group_is_name()
    ensures
        is_context_group_name(default_context_group()),
{
}

/// With no prefix and no suffix, left out or empty, the key of `key` in a
/// valid context group is `jackson:`, the group, a colon and `key`.
pub proof fn lemma_unqualified_key(key: Seq<char>, context_group: Seq<char>)
    requires
        is_context_group_name(context_group),
    ensures
        build_key(key, Some(context_group), None, None) == Ok::<Seq<char>, Seq<char>>(
            namespace() + context_group + seq![':'] + key,
        ),
        build_key(key, Some(context_group), Some(Seq::empty()), Some(Seq::empty())) == Ok::<
            Seq<char>,
            Seq<char>,
        >(namespace() + context_group + seq![':'] + key),
{
    assert(metadata_key(key, context_group, Seq::empty(), Seq::empty()) =~= namespace()
        + context_group + seq![':'] + key);
}

/// A context group name that is empty, or that holds a character which is no
/// word character, is rejected, whatever the key, the prefix and the suffix.
pub proof fn lemma_invalid_group_rejected(
    key: Seq<char>,
    context_group: Seq<char>,
    prefix: Option<Seq<char>>,
    suffix: Option<Seq<char>>,
)
    requires
        context_group.len() == 0 || exists|i: int|
            0 <= i < context_group.len() && !is_word_char(#[trigger] context_group[i]),
    ensures
        build_key(key, Some(context_group), prefix, suffix) == Err::<Seq<char>, Seq<char>>(
            context_group,
        ),
{
}

/// Building a key twice from the same inputs gives the same outcome both
/// times: the same characters, hence the same bytes, or the same rejected
/// name.
pub proof fn lemma_key_repeatable(
    key: Seq<char>,
    options: KeyOptionsView,
    first: Result<String, ValidationError>,
    second: Result<String, ValidationError>,
)
    requires
        key_outcome(first) == build_key(key, options.context_group, options.prefix, options.suffix),
        key_outcome(second) == build_key(
            key,
            options.context_group,
            options.prefix,
            options.suffix,
        ),
    ensures
        key_outcome(first) == key_outcome(second),
        first is Ok ==> second is Ok && encode_utf8(first->Ok_0@) == encode_utf8(second->Ok_0@),
{
}

/// How a metadata key begins: with the namespace, then the context group,
/// then a colon.
proof fn lemma_key_begins_with_group(
    key: Seq<char>,
    context_group: Seq<char>,
    prefix: Seq<char>,
    suffix: Seq<char>,
)
    ensures
        metadata_key(key, context_group, prefix, suffix).len() > namespace().len()
            + context_group.len(),
        forall|i: int|
            0 <= i < context_group.len() ==> metadata_key(key, context_group, prefix, suffix)[
                namespace().len() + i] == #[trigger] context_group[i],
        metadata_key(key, context_group, prefix, suffix)[(namespace().len()
            + context_group.len()) as int] == ':',
{
    let head = namespace() + context_group + seq![':'];
    let tail = (if prefix.len() == 0 {
        Seq::empty()
    } else {
        prefix + seq![':']
    }) + key + (if suffix.len() == 0 {
        Seq::empty()
    } else {
        seq![':'] + suffix
    });
    assert(metadata_key(key, context_group, prefix, suffix) =~= head + tail);
    assert forall|i: int| 0 <= i < context_group.len() implies (head + tail)[namespace().len() + i]
        == #[trigger] context_group[i] by {
        assert(head[namespace().len() + i] == context_group[i]);
    }
    assert(head[(namespace().len() + context_group.len()) as int] == ':');
}

/// Keys of different context groups never coincide: whatever the
/// decorators' keys, the prefixes and the suffixes are, a key built for one
/// valid group differs from every key built for another.
pub proof fn lemma_groups_keep_keys_apart(
    key: Seq<char>,
    context_group: Seq<char>,
    prefix: Seq<char>,
    suffix: Seq<char>,
    other_key: Seq<char>,
    other_group: Seq<char>,
    other_prefix: Seq<char>,
    other_suffix: Seq<char>,
)
    requires
        is_context_group_name(context_group),
        is_context_group_name(other_group),
        context_group != other_group,
    ensures
        metadata_key(key, context_group, prefix, suffix) != metadata_key(
            other_key,
            other_group,
            other_prefix,
            other_suffix,
        ),
{
    let built = metadata_key(key, context_group, prefix, suffix);
    let other = metadata_key(other_key, other_group, other_prefix, other_suffix);
    lemma_key_begins_with_group(key, context_group, prefix, suffix);
    lemma_key_begins_with_group(other_key, other_group, other_prefix, other_suffix);
    if context_group.len() < other_group.len() {
        let at = context_group.len() as int;
        assert(is_word_char(other_group[at]));
        assert(built[namespace().len() + at] != other[namespace().len() + at]);
    } else if other_group.len() < context_group.len() {
        let at = other_group.len() as int;
        assert(is_word_char(context_group[at]));
        assert(built[namespace().len() + at] != other[namespace().len() + at]);
    } else {
        assert(!(context_group =~= other_group));
        let at = choose|i: int|
            0 <= i < context_group.len() && context_group[i] != other_group[i];
        assert(built[namespace().len() + at] != other[namespace().len() + at]);
    }
}

} // verus!
