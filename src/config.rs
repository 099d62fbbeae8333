//! Reading the list of manifests out of the YAML config.
use vstd::prelude::*;
use crate::diagnostics::texts;
use yaml_rust2::{ScanError, Yaml, YamlLoader};

verus! {

#[verifier::external_type_specification]
#[verifier::external_body]
pub struct ExYaml(Yaml);

#[verifier::external_type_specification]
#[verifier::external_body]
pub struct ExScanError(ScanError);

/// The documents that `YamlLoader::load_from_str` reads from a text, or
/// `None` where the text is not valid YAML.
pub uninterp spec fn yaml_documents(text: Seq<char>) -> Option<Seq<Yaml>>;

/// The node that indexing a YAML node by a string key gives: the value under
/// that key in a mapping, a bad value otherwise.
pub uninterp spec fn yaml_at(node: Yaml, key: Seq<char>) -> Yaml;

/// The items of a YAML sequence node, `None` for any other node.
pub uninterp spec fn yaml_items(node: Yaml) -> Option<Seq<Yaml>>;

/// The text of a YAML string node, `None` for any other node.
pub uninterp spec fn yaml_text(node: Yaml) -> Option<Seq<char>>;

/// Whether a node is the null value.
pub uninterp spec fn yaml_is_null(node: Yaml) -> bool;

/// Whether a node is the bad value that stands for a missing key.
pub uninterp spec fn yaml_is_bad(node: Yaml) -> bool;

/// Relies on `YamlLoader::load_from_str`: all documents of the text, or the
/// scanner's error; the outcome depends on the text alone.
pub assume_specification[ YamlLoader::load_from_str ](source: &str) -> (r: Result<
    Vec<Yaml>,
    ScanError,
>)
    ensures
        r is Ok <==> yaml_documents(source@) is Some,
        r is Ok ==> r->Ok_0@ == yaml_documents(source@)->0,
;

/// Relies on `Yaml::as_vec`: the items of an `Array` node, `None` otherwise.
pub assume_specification[ Yaml::as_vec ](node: &Yaml) -> (r: Option<&Vec<Yaml>>)
    ensures
        r is Some <==> yaml_items(*node) is Some,
        r is Some ==> r->0@ == yaml_items(*node)->0,
;

/// Relies on `Yaml::as_str`: the text of a `String` node, `None` otherwise.
pub assume_specification[ Yaml::as_str ](node: &Yaml) -> (r: Option<&str>)
    ensures
        r is Some <==> yaml_text(*node) is Some,
        r is Some ==> r->0@ == yaml_text(*node)->0,
;

/// Relies on `Yaml::is_badvalue`: whether the node is `BadValue`.
pub assume_specification[ Yaml::is_badvalue ](node: &Yaml) -> (r: bool)
    ensures
        r == yaml_is_bad(*node),
;

/// Relies on `Yaml::is_null`: whether the node is `Null`.
pub assume_specification[ Yaml::is_null ](node: &Yaml) -> (r: bool)
    ensures
        r == yaml_is_null(*node),
;

/// Relies on `Index<&str>` for `Yaml`: the value under `key` in a mapping,
/// `BadValue` where the key is missing or the node is not a mapping.
#[verifier::external_body]
fn node_at<'a>(node: &'a Yaml, key: &str) -> (r: &'a Yaml)
    ensures
        *r == yaml_at(*node, key@),
{
    &node[key]
}

/// The key of the config document that lists the manifests.
pub const MANIFESTS_KEY: &'static str = "manifests";

/// Why the config could not give a list of manifests.
#[derive(Debug)]
pub enum ConfigError {
    /// The config file could not be read; the text says why.
    Read(String),
    /// The text is not valid YAML.
    Parse(ScanError),
    /// The text holds no YAML document, or its first document is empty.
    Empty,
    /// The manifests key is present but its value is not a sequence.
    NotASequence,
    /// The item at this position of the manifests sequence is not a string.
    NotAString(usize),
}

/// The shape of a config error, for contracts.
pub enum ConfigFault {
    Parse,
    Empty,
    NotASequence,
    NotAString(nat),
}

impl ConfigError {
    pub open spec fn fault(&self) -> Option<ConfigFault> {
        match self {
            ConfigError::Read(_) => None,
            ConfigError::Parse(_) => Some(ConfigFault::Parse),
            ConfigError::Empty => Some(ConfigFault::Empty),
            ConfigError::NotASequence => Some(ConfigFault::NotASequence),
            ConfigError::NotAString(i) => Some(ConfigFault::NotAString(*i as nat)),
        }
    }
}

/// Position of the first item that is not a string, if any.
pub open spec fn first_non_string(items: Seq<Yaml>) -> Option<nat>
    decreases items.len(),
{
    if items.len() == 0 {
        None
    } else {
        match first_non_string(items.drop_last()) {
            Some(i) => Some(i),
            None => if yaml_text(items.last()) is None {
                Some((items.len() - 1) as nat)
            } else {
                None
            },
        }
    }
}

/// The manifest references that a config document lists: none where the key
/// is missing; a fault where its value is not a sequence of strings.
pub open spec fn document_manifests(doc: Yaml) -> Result<Seq<Seq<char>>, ConfigFault> {
    let node = yaml_at(doc, MANIFESTS_KEY@);
    if yaml_is_bad(node) {
        Ok(Seq::empty())
    } else {
        match yaml_items(node) {
            None => Err(ConfigFault::NotASequence),
            Some(items) => match first_non_string(items) {
                Some(i) => Err(ConfigFault::NotAString(i)),
                None => Ok(items.map_values(|y: Yaml| yaml_text(y)->0)),
            },
        }
    }
}

/// The manifest references that a config text lists; only the first
/// document counts.
pub open spec fn config_manifests(text: Seq<char>) -> Result<Seq<Seq<char>>, ConfigFault> {
    match yaml_documents(text) {
        None => Err(ConfigFault::Parse),
        Some(docs) => if docs.len() == 0 || yaml_is_null(docs[0]) {
            Err(ConfigFault::Empty)
        } else {
            document_manifests(docs[0])
        },
    }
}

/// A non-string item found in a prefix is the first one of the whole
/// sequence.
proof fn lemma_first_non_string_prefix(s: Seq<Yaml>, k: int)
    requires
        0 <= k <= s.len(),
        first_non_string(s.take(k)) is Some,
    ensures
        first_non_string(s) == first_non_string(s.take(k)),
    decreases s.len(),
{
    if k < s.len() {
        assert(s.drop_last().take(k) =~= s.take(k));
        lemma_first_non_string_prefix(s.drop_last(), k);
    } else {
        assert(s.take(k) =~= s);
    }
}

/// The manifest references that a config document lists, in their order.
pub fn manifest_refs(doc: &Yaml) -> (r: Result<Vec<String>, ConfigError>)
    ensures
        match (r, document_manifests(*doc)) {
            (Ok(v), Ok(refs)) => texts(v@) == refs,
            (Err(e), Err(f)) => e.fault() == Some(f),
            _ => false,
        },
{
    let node = node_at(doc, MANIFESTS_KEY);
    if node.is_badvalue() {
        let r: Vec<String> = Vec::new();
        proof {
            assert(texts(r@) =~= Seq::empty());
        }
        return Ok(r);
    }
    let items = match node.as_vec() {
        Some(items) => items,
        None => {
            return Err(ConfigError::NotASequence);
        },
    };
    let ghost all = items@;
    let mut refs: Vec<String> = Vec::new();
    let n = items.len();
    let mut i: usize = 0;
    while i < n
        invariant
            n == items.len(),
            all == items@,
            *node == yaml_at(*doc, MANIFESTS_KEY@),
            !yaml_is_bad(*node),
            yaml_items(*node) == Some(all),
            i <= n,
            first_non_string(all.take(i as int)) is None,
            texts(refs@) == all.take(i as int).map_values(|y: Yaml| yaml_text(y)->0),
        decreases n - i,
    {
        proof {
            assert(all.take(i + 1).drop_last() =~= all.take(i as int));
        }
        match items[i].as_str() {
            Some(text) => {
                let ghost before = refs@;
                refs.push(text.to_owned());
                proof {
                    assert(refs@ == before.push(refs@.last()));
                    assert(texts(refs@) =~= texts(before).push(text@));
                    assert(texts(refs@) =~= all.take(i + 1).map_values(
                        |y: Yaml| yaml_text(y)->0,
                    ));
                }
            },
            None => {
                proof {
                    assert(all.take(i + 1).last() == all[i as int]);
                    assert(first_non_string(all.take(i + 1)) == Some(i as nat));
                    lemma_first_non_string_prefix(all, i + 1);
                }
                return Err(ConfigError::NotAString(i));
            },
        }
        i = i + 1;
    }
    proof {
        assert(all.take(n as int) =~= all);
    }
    Ok(refs)
}

/// Parses a config text and gives the manifest references that its first
/// document lists.
pub fn load_manifest_refs(text: &str) -> (r: Result<Vec<String>, ConfigError>)
    ensures
        match (r, config_manifests(text@)) {
            (Ok(v), Ok(refs)) => texts(v@) == refs,
            (Err(e), Err(f)) => e.fault() == Some(f),
            _ => false,
        },
{
    let docs = match YamlLoader::load_from_str(text) {
        Ok(docs) => docs,
        Err(e) => {
            return Err(ConfigError::Parse(e));
        },
    };
    if docs.len() == 0 || docs[0].is_null() {
        return Err(ConfigError::Empty);
    }
    manifest_refs(&docs[0])
}

} // verus!
