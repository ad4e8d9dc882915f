use vstd::prelude::*;

verus! {

/// `serde_yaml::Value`, a YAML value, taken as it is.
#[verifier::external_type_specification]
#[verifier::external_body]
pub struct ExYamlValue(serde_yaml::Value);

/// `serde_yaml::Number`, a YAML number, taken as it is.
#[verifier::external_type_specification]
#[verifier::external_body]
pub struct ExYamlNumber(serde_yaml::Number);

/// `serde_yaml::Error`, the failure of reading or writing, taken as it is.
#[verifier::external_type_specification]
#[verifier::external_body]
pub struct ExYamlError(serde_yaml::Error);

/// A YAML value as plain mathematics, variant for variant.
pub enum YamlModel {
    Null,
    Bool(bool),
    Number(serde_yaml::Number),
    Text(Seq<char>),
    Sequence(Seq<YamlModel>),
    /// The entries of a mapping, in their order.
    Mapping(Seq<(YamlModel, YamlModel)>),
    /// A value with its tag.
    Tagged(Seq<char>, Box<YamlModel>),
}

/// What a `serde_yaml::Value` holds.
pub uninterp spec fn yaml_model(value: serde_yaml::Value) -> YamlModel;

/// What `serde_yaml::from_str` makes of a text: the value it reads, or
/// nothing where it refuses the text.
pub uninterp spec fn parsed_yaml(text: Seq<char>) -> Option<YamlModel>;

/// What `serde_yaml::to_string` makes of a value: the text it writes, or
/// nothing where it fails.
pub uninterp spec fn rendered_yaml(value: YamlModel) -> Option<Seq<char>>;

/// `value` without the tags around it.
pub open spec fn untagged(value: YamlModel) -> YamlModel
    decreases value,
{
    match value {
        YamlModel::Tagged(_, inner) => untagged(*inner),
        _ => value,
    }
}

/// The text that `value` is, tags aside.
pub open spec fn text_in(value: YamlModel) -> Option<Seq<char>> {
    match untagged(value) {
        YamlModel::Text(text) => Some(text),
        _ => None,
    }
}

/// The first entry of `entries` from `from` on whose key is the text
/// `key`.
pub open spec fn index_of_key(entries: Seq<(YamlModel, YamlModel)>, key: Seq<char>, from: int)
    -> Option<int>
    decreases entries.len() - from,
{
    if from < 0 || from >= entries.len() {
        None
    } else if entries[from].0 == YamlModel::Text(key) {
        Some(from)
    } else {
        index_of_key(entries, key, from + 1)
    }
}

/// The value that `value`, tags aside, maps the text `key` to.
pub open spec fn child_of(value: YamlModel, key: Seq<char>) -> Option<YamlModel> {
    match untagged(value) {
        YamlModel::Mapping(entries) => match index_of_key(entries, key, 0) {
            Some(at) => Some(entries[at].1),
            None => None,
        },
        _ => None,
    }
}

/// `value` with the text `key` mapped to the text `text`: where `value` is
/// a mapping, the entry of `key` has its value replaced and keeps its
/// place, or a new entry comes last; any other value stays as it is.
pub open spec fn with_entry(value: YamlModel, key: Seq<char>, text: Seq<char>) -> YamlModel {
    match value {
        YamlModel::Mapping(entries) => YamlModel::Mapping(
            match index_of_key(entries, key, 0) {
                Some(at) => entries.update(at, (entries[at].0, YamlModel::Text(text))),
                None => entries.push((YamlModel::Text(key), YamlModel::Text(text))),
            },
        ),
        _ => value,
    }
}

/// `value` without the entry of the text `key`: where `value` is a mapping
/// that has it, the last entry takes its place; any other value stays as
/// it is.
pub open spec fn without_entry(value: YamlModel, key: Seq<char>) -> YamlModel {
    match value {
        YamlModel::Mapping(entries) => YamlModel::Mapping(
            match index_of_key(entries, key, 0) {
                Some(at) => if at == entries.len() - 1 {
                    entries.drop_last()
                } else {
                    entries.update(at, entries.last()).drop_last()
                },
                None => entries,
            },
        ),
        _ => value,
    }
}

/// The keys of `value`, in order, where it is a mapping; none otherwise.
pub open spec fn keys_of(value: YamlModel) -> Seq<YamlModel> {
    match value {
        YamlModel::Mapping(entries) => Seq::new(entries.len(), |i: int| entries[i].0),
        _ => Seq::empty(),
    }
}

/// `serde_yaml::from_str` reads `text` as a YAML value. It gives the same
/// result for the same text.
#[verifier::external_body]
pub(crate) fn parse_yaml(text: &str) -> (parsed: Result<serde_yaml::Value, serde_yaml::Error>)
    ensures
        match parsed {
            Ok(value) => parsed_yaml(text@) == Some(yaml_model(value)),
            Err(_) => parsed_yaml(text@) is None,
        },
{
    serde_yaml::from_str::<serde_yaml::Value>(text)
}

/// `serde_yaml::to_string` writes `value` as YAML text. It gives the same
/// result for the same value.
#[verifier::external_body]
pub(crate) fn render_yaml(value: &serde_yaml::Value) -> (rendered: Result<
    String,
    serde_yaml::Error,
>)
    ensures
        match rendered {
            Ok(text) => rendered_yaml(yaml_model(*value)) == Some(text@),
            Err(_) => rendered_yaml(yaml_model(*value)) is None,
        },
{
    serde_yaml::to_string(value)
}

/// `serde_yaml::Mapping::new` makes a mapping without entries.
#[verifier::external_body]
pub(crate) fn empty_mapping() -> (value: serde_yaml::Value)
    ensures
        yaml_model(value) == YamlModel::Mapping(Seq::empty()),
{
    serde_yaml::Value::Mapping(serde_yaml::Mapping::new())
}

/// `serde_yaml::Mapping::insert`, called with two strings on a value that
/// is a mapping: an entry with that key has its value replaced and keeps
/// its place, and without one the new entry comes last. A value that is no
/// mapping is not touched.
#[verifier::external_body]
pub(crate) fn insert_text(value: &mut serde_yaml::Value, key: &str, text: &str)
    ensures
        yaml_model(*final(value)) == with_entry(yaml_model(*old(value)), key@, text@),
{
    if let serde_yaml::Value::Mapping(map) = value {
        map.insert(
            serde_yaml::Value::String(key.to_string()),
            serde_yaml::Value::String(text.to_string()),
        );
    }
}

/// `serde_yaml::Mapping::remove`, called with a string on a value that is
/// a mapping: the entry with that key leaves, and the last entry takes its
/// place. A value that is no mapping is not touched.
#[verifier::external_body]
pub(crate) fn remove_text_key(value: &mut serde_yaml::Value, key: &str)
    ensures
        yaml_model(*final(value)) == without_entry(yaml_model(*old(value)), key@),
{
    if let serde_yaml::Value::Mapping(map) = value {
        map.remove(&serde_yaml::Value::String(key.to_string()));
    }
}

/// `serde_yaml::Value::get`, called with a string: the value that a
/// mapping, tags aside, has under that key.
#[verifier::external_body]
pub(crate) fn lookup<'a>(value: &'a serde_yaml::Value, key: &str) -> (found: Option<
    &'a serde_yaml::Value,
>)
    ensures
        match found {
            Some(child) => child_of(yaml_model(*value), key@) == Some(yaml_model(*child)),
            None => child_of(yaml_model(*value), key@) is None,
        },
{
    value.get(key)
}

/// `serde_yaml::Value::as_str`: the text of a value that, tags aside, is a
/// string.
#[verifier::external_body]
pub(crate) fn text_value<'a>(value: &'a serde_yaml::Value) -> (text: Option<&'a str>)
    ensures
        match text {
            Some(t) => text_in(yaml_model(*value)) == Some(t@),
            None => text_in(yaml_model(*value)) is None,
        },
{
    value.as_str()
}

/// `serde_yaml::Mapping::keys`: the keys of a value that is a mapping, in
/// the order of its entries, and none of a value that is no mapping.
#[verifier::external_body]
pub(crate) fn mapping_keys<'a>(value: &'a serde_yaml::Value) -> (keys: Vec<&'a serde_yaml::Value>)
    ensures
        keys@.len() == keys_of(yaml_model(*value)).len(),
        forall|i: int|
            0 <= i < keys@.len() ==> yaml_model(*#[trigger] keys@[i]) == keys_of(
                yaml_model(*value),
            )[i],
{
    match value {
        serde_yaml::Value::Mapping(map) => map.keys().collect(),
        _ => Vec::new(),
    }
}

} // verus!
