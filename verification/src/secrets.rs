use crate::yaml::{
    child_of, empty_mapping, index_of_key, insert_text, keys_of, lookup, mapping_keys,
    parse_yaml, parsed_yaml, remove_text_key, render_yaml, rendered_yaml, text_in, text_value,
    with_entry, without_entry, yaml_model, YamlModel,
};
use vstd::prelude::*;

verus! {

/// Why the secrets could not be read or changed.
#[derive(Clone, Copy, Debug, PartialEq, Eq, Structural)]
pub enum SecretsError {
    /// The content is not YAML.
    Parse,
    /// The secrets could not be written as YAML.
    Render,
    /// No secret of that name is a text.
    MissingKey,
}

/// The secrets file in clear, read as YAML.
#[derive(Debug)]
pub struct SecretsDocument {
    value: serde_yaml::Value,
}

impl View for SecretsDocument {
    type V = YamlModel;

    closed spec fn view(&self) -> YamlModel {
        yaml_model(self.value)
    }
}

/// The value that a secrets file with this content holds: a mapping
/// without entries where the content is empty, and else what the content
/// reads as.
pub open spec fn opened(content: Seq<char>) -> Option<YamlModel> {
    if content.len() == 0 {
        Some(YamlModel::Mapping(Seq::empty()))
    } else {
        parsed_yaml(content)
    }
}

/// The secret that `value` holds under `key`: the text found there.
pub open spec fn secret_of(value: YamlModel, key: Seq<char>) -> Result<Seq<char>, SecretsError> {
    match child_of(value, key) {
        Some(child) => match text_in(child) {
            Some(text) => Ok(text),
            None => Err(SecretsError::MissingKey),
        },
        None => Err(SecretsError::MissingKey),
    }
}

/// Those of `keys` that are texts, in order.
pub open spec fn text_keys(keys: Seq<YamlModel>) -> Seq<Seq<char>>
    decreases keys.len(),
{
    if keys.len() == 0 {
        Seq::empty()
    } else {
        let before = text_keys(keys.drop_last());
        match text_in(keys.last()) {
            Some(text) => before.push(text),
            None => before,
        }
    }
}

/// The names of the secrets that `value` holds: the keys of the mapping
/// that are texts, in order.
pub open spec fn names_of(value: YamlModel) -> Seq<Seq<char>> {
    text_keys(keys_of(value))
}

/// The texts of `strings`.
pub open spec fn texts(strings: Seq<String>) -> Seq<Seq<char>> {
    strings.map_values(|s: String| s@)
}

/// What writing `value` gives.
pub open spec fn written(value: YamlModel) -> Result<Seq<char>, SecretsError> {
    match rendered_yaml(value) {
        Some(text) => Ok(text),
        None => Err(SecretsError::Render),
    }
}

/// What a `Result` with a text says, as a `Result` with its characters.
pub open spec fn outcome_of(result: Result<String, SecretsError>) -> Result<
    Seq<char>,
    SecretsError,
> {
    match result {
        Ok(text) => Ok(text@),
        Err(error) => Err(error),
    }
}

impl SecretsDocument {
    /// A document without secrets.
    pub fn empty() -> (document: SecretsDocument)
        ensures
            document@ == YamlModel::Mapping(Seq::empty()),
    {
        SecretsDocument { value: empty_mapping() }
    }

    /// Reads `content` as YAML.
    pub fn parse(content: &str) -> (parsed: Result<SecretsDocument, SecretsError>)
        ensures
            match parsed {
                Ok(document) => parsed_yaml(content@) == Some(document@),
                Err(error) => error == SecretsError::Parse && parsed_yaml(content@) is None,
            },
    {
        match parse_yaml(content) {
            Ok(value) => Ok(SecretsDocument { value }),
            Err(_) => Err(SecretsError::Parse),
        }
    }

    /// Reads the content of a secrets file that may not have been written
    /// yet: empty content is a document without secrets.
    pub fn open(content: &str) -> (parsed: Result<SecretsDocument, SecretsError>)
        ensures
            match parsed {
                Ok(document) => opened(content@) == Some(document@),
                Err(error) => error == SecretsError::Parse && opened(content@) is None,
            },
    {
        if content.is_empty() {
            Ok(SecretsDocument::empty())
        } else {
            SecretsDocument::parse(content)
        }
    }

    /// Puts the secret `text` under `key`. A document that is no mapping
    /// stays as it is.
    pub fn set(&mut self, key: &str, text: &str)
        ensures
            final(self)@ == with_entry(old(self)@, key@, text@),
    {
        insert_text(&mut self.value, key, text);
    }

    /// Takes out the secret under `key`. A document that is no mapping, or
    /// has no such secret, stays as it is.
    pub fn remove(&mut self, key: &str)
        ensures
            final(self)@ == without_entry(old(self)@, key@),
    {
        remove_text_key(&mut self.value, key);
    }

    /// The secret under `key`.
    pub fn get(&self, key: &str) -> (secret: Result<String, SecretsError>)
        ensures
            outcome_of(secret) == secret_of(self@, key@),
    {
        match lookup(&self.value, key) {
            Some(child) => match text_value(child) {
                Some(text) => Ok(String::from_str(text)),
                None => Err(SecretsError::MissingKey),
            },
            None => Err(SecretsError::MissingKey),
        }
    }

    /// The names of the secrets, in the order of the document.
    pub fn names(&self) -> (names: Vec<String>)
        ensures
            texts(names@) == names_of(self@),
    {
        let keys = mapping_keys(&self.value);
        let ghost all = keys_of(self@);
        let mut names: Vec<String> = Vec::new();
        let mut i: usize = 0;
        assert(all.take(0) =~= Seq::empty());
        assert(texts(names@) =~= Seq::empty());
        while i < keys.len()
            invariant
                i <= keys@.len(),
                keys@.len() == all.len(),
                forall|k: int| 0 <= k < keys@.len() ==> yaml_model(*#[trigger] keys@[k]) == all[k],
                texts(names@) == text_keys(all.take(i as int)),
            decreases keys@.len() - i,
        {
            let ghost before = names@;
            assert(all.take(i + 1).drop_last() =~= all.take(i as int));
            assert(all.take(i + 1).last() == all[i as int]);
            match text_value(keys[i]) {
                Some(text) => {
                    let name = String::from_str(text);
                    names.push(name);
                    assert(texts(names@) =~= texts(before).push(text@));
                },
                None => {},
            }
            i += 1;
        }
        assert(all.take(i as int) =~= all);
        names
    }

    /// The document as YAML text.
    pub fn render(&self) -> (text: Result<String, SecretsError>)
        ensures
            outcome_of(text) == written(self@),
    {
        match render_yaml(&self.value) {
            Ok(text) => Ok(text),
            Err(_) => Err(SecretsError::Render),
        }
    }
}

/// What a secrets file with this content reads after `text` was put under
/// `key`.
pub open spec fn stored(content: Seq<char>, key: Seq<char>, text: Seq<char>) -> Result<
    Seq<char>,
    SecretsError,
> {
    match opened(content) {
        Some(value) => written(with_entry(value, key, text)),
        None => Err(SecretsError::Parse),
    }
}

/// What a secrets file with this content reads after the secret under
/// `key` was taken out.
pub open spec fn deleted(content: Seq<char>, key: Seq<char>) -> Result<Seq<char>, SecretsError> {
    match parsed_yaml(content) {
        Some(value) => written(without_entry(value, key)),
        None => Err(SecretsError::Parse),
    }
}

/// The new content of the secrets file when `text` is put under `key`. The
/// file that does not exist yet has the empty content.
pub fn add(content: &str, key: &str, text: &str) -> (updated: Result<
    String,
    SecretsError,
>)
    ensures
        outcome_of(updated) == stored(content@, key@, text@),
{
    match SecretsDocument::open(content) {
        Ok(mut document) => {
            document.set(key, text);
            document.render()
        },
        Err(error) => Err(error),
    }
}

/// The secret that the secrets file with this content holds under `key`.
pub fn get(content: &str, key: &str) -> (secret: Result<String, SecretsError>)
    ensures
        outcome_of(secret) == match parsed_yaml(content@) {
            Some(value) => secret_of(value, key@),
            None => Err(SecretsError::Parse),
        },
{
    match SecretsDocument::parse(content) {
        Ok(document) => document.get(key),
        Err(error) => Err(error),
    }
}

/// The names of the secrets that the secrets file with this content
/// holds.
pub fn list(content: &str) -> (names: Result<Vec<String>, SecretsError>)
    ensures
        match names {
            Ok(found) => parsed_yaml(content@) matches Some(value) && texts(found@) == names_of(
                value,
            ),
            Err(error) => error == SecretsError::Parse && parsed_yaml(content@) is None,
        },
{
    match SecretsDocument::parse(content) {
        Ok(document) => Ok(document.names()),
        Err(error) => Err(error),
    }
}

/// The new content of the secrets file when the secret under `key` is
/// taken out.
pub fn remove(content: &str, key: &str) -> (updated: Result<String, SecretsError>)
    ensures
        outcome_of(updated) == deleted(content@, key@),
{
    match SecretsDocument::parse(content) {
        Ok(mut document) => {
            document.remove(key);
            document.render()
        },
        Err(error) => Err(error),
    }
}

/// The first entry with the text `key` is where `index_of_key` says, and
/// no entry before it has that key.
pub proof fn lemma_index_of_key(entries: Seq<(YamlModel, YamlModel)>, key: Seq<char>, from: int)
    requires
        0 <= from,
    ensures
        match index_of_key(entries, key, from) {
            Some(at) => {
                &&& from <= at < entries.len()
                &&& entries[at].0 == YamlModel::Text(key)
                &&& forall|k: int| from <= k < at ==> entries[k].0 != YamlModel::Text(key)
            },
            None => forall|k: int| from <= k < entries.len() ==> entries[k].0 != YamlModel::Text(
                key,
            ),
        },
    decreases entries.len() - from,
{
    if from < entries.len() && entries[from].0 != YamlModel::Text(key) {
        lemma_index_of_key(entries, key, from + 1);
    }
}

/// If the first entry with the text `key` from `from` on is `at`, then
/// `index_of_key` says so.
pub proof fn lemma_index_of_key_is(
    entries: Seq<(YamlModel, YamlModel)>,
    key: Seq<char>,
    from: int,
    at: int,
)
    requires
        0 <= from <= at < entries.len(),
        entries[at].0 == YamlModel::Text(key),
        forall|k: int| from <= k < at ==> entries[k].0 != YamlModel::Text(key),
    ensures
        index_of_key(entries, key, from) == Some(at),
    decreases at - from,
{
    if from < at {
        lemma_index_of_key_is(entries, key, from + 1, at);
    }
}

/// No entry from `from` on has the text `key`.
pub proof fn lemma_index_of_key_is_none(
    entries: Seq<(YamlModel, YamlModel)>,
    key: Seq<char>,
    from: int,
)
    requires
        0 <= from,
        forall|k: int| from <= k < entries.len() ==> entries[k].0 != YamlModel::Text(key),
    ensures
        index_of_key(entries, key, from) is None,
    decreases entries.len() - from,
{
    if from < entries.len() {
        lemma_index_of_key_is_none(entries, key, from + 1);
    }
}

/// A secret that was put into a mapping is found there: after `text` is
/// put under `key`, the secret under `key` is `text`.
pub proof fn law_stored_secret_is_found(value: YamlModel, key: Seq<char>, text: Seq<char>)
    requires
        value is Mapping,
    ensures
        secret_of(with_entry(value, key, text), key) == Ok::<Seq<char>, SecretsError>(text),
{
    let entries = value->Mapping_0;
    lemma_index_of_key(entries, key, 0);
    match index_of_key(entries, key, 0) {
        Some(at) => {
            let after = entries.update(at, (entries[at].0, YamlModel::Text(text)));
            lemma_index_of_key_is(after, key, 0, at);
        },
        None => {
            let after = entries.push((YamlModel::Text(key), YamlModel::Text(text)));
            lemma_index_of_key_is(after, key, 0, entries.len() as int);
        },
    }
}

/// Putting a secret under one name leaves the secrets under other names as
/// they are.
pub proof fn law_store_keeps_other_secrets(
    value: YamlModel,
    key: Seq<char>,
    text: Seq<char>,
    other: Seq<char>,
)
    requires
        value is Mapping,
        other != key,
    ensures
        secret_of(with_entry(value, key, text), other) == secret_of(value, other),
{
    let entries = value->Mapping_0;
    lemma_index_of_key(entries, key, 0);
    lemma_index_of_key(entries, other, 0);
    let after = with_entry(value, key, text)->Mapping_0;
    assert(YamlModel::Text(key) != YamlModel::Text(other));
    match index_of_key(entries, other, 0) {
        Some(at) => {
            lemma_index_of_key_is(after, other, 0, at);
        },
        None => {
            lemma_index_of_key_is_none(after, other, 0);
        },
    }
}

/// No two entries have the same text as their key.
pub open spec fn distinct_text_keys(entries: Seq<(YamlModel, YamlModel)>) -> bool {
    forall|i: int, j: int|
        0 <= i < j < entries.len() && (#[trigger] entries[i]).0 is Text ==> entries[i].0
            != (#[trigger] entries[j]).0
}

/// A secret that was taken out of a mapping is no longer found there,
/// given that the mapping has no two entries of one name.
pub proof fn law_deleted_secret_is_gone(value: YamlModel, key: Seq<char>)
    requires
        value matches YamlModel::Mapping(entries) && distinct_text_keys(entries),
    ensures
        secret_of(without_entry(value, key), key) == Err::<Seq<char>, SecretsError>(
            SecretsError::MissingKey,
        ),
{
    let entries = value->Mapping_0;
    let after = without_entry(value, key)->Mapping_0;
    lemma_index_of_key(entries, key, 0);
    match index_of_key(entries, key, 0) {
        Some(at) => {
            let last = entries.len() - 1;
            assert forall|k: int| 0 <= k < after.len() implies after[k].0 != YamlModel::Text(
                key,
            ) by {
                if k == at {
                    assert(after[k] == entries[last]);
                    assert(entries[at].0 != entries[last].0);
                } else {
                    assert(after[k] == entries[k]);
                    if k < at {
                        assert(entries[k].0 != entries[at].0);
                    } else {
                        assert(entries[at].0 != entries[k].0);
                    }
                }
            }
            lemma_index_of_key_is_none(after, key, 0);
        },
        None => {},
    }
}

/// Taking out the secret of one name leaves the secrets of other names as
/// they are, given that the mapping has no two entries of one name.
pub proof fn law_delete_keeps_other_secrets(value: YamlModel, key: Seq<char>, other: Seq<char>)
    requires
        value matches YamlModel::Mapping(entries) && distinct_text_keys(entries),
        other != key,
    ensures
        secret_of(without_entry(value, key), other) == secret_of(value, other),
{
    let entries = value->Mapping_0;
    let after = without_entry(value, key)->Mapping_0;
    lemma_index_of_key(entries, key, 0);
    lemma_index_of_key(entries, other, 0);
    assert(YamlModel::Text(key) != YamlModel::Text(other));
    match index_of_key(entries, key, 0) {
        Some(at) => {
            let last = entries.len() - 1;
            match index_of_key(entries, other, 0) {
                Some(found) => {
                    if found == last {
                        assert(after[at] == entries[last]);
                        assert forall|k: int| 0 <= k < at implies after[k].0 != YamlModel::Text(
                            other,
                        ) by {
                            assert(after[k] == entries[k]);
                        }
                        lemma_index_of_key_is(after, other, 0, at);
                    } else {
                        assert(after[found] == entries[found]);
                        assert forall|k: int| 0 <= k < found implies after[k].0
                            != YamlModel::Text(other) by {
                            if k == at {
                                assert(after[k] == entries[last]);
                                assert(entries[found].0 != entries[last].0);
                            } else {
                                assert(after[k] == entries[k]);
                            }
                        }
                        lemma_index_of_key_is(after, other, 0, found);
                    }
                },
                None => {
                    assert forall|k: int| 0 <= k < after.len() implies after[k].0
                        != YamlModel::Text(other) by {
                        if k == at {
                            assert(after[k] == entries[last]);
                        } else {
                            assert(after[k] == entries[k]);
                        }
                    }
                    lemma_index_of_key_is_none(after, other, 0);
                },
            }
        },
        None => {},
    }
}

} // verus!
