//! YAML texts, read with yaml-rust.
//!
//! A parsed node is carried as yaml-rust's own `Yaml`, which the verifier
//! cannot look into. What the contracts need to say of one is said through
//! four names: the documents that a text parses to, the node under a key, the
//! text of a string scalar and the number of an integer scalar.
use vstd::prelude::*;
use vstd::string::*;
use vstd::utf8::*;
use yaml_rust::{ScanError, Yaml};

verus! {

/// yaml-rust's `Yaml`: a parsed YAML node, carried through unopened.
#[verifier::external_type_specification]
#[verifier::external_body]
pub struct ExYaml(yaml_rust::Yaml);

/// yaml-rust's `ScanError`: why a text is no YAML, carried through
/// unopened.
#[verifier::external_type_specification]
#[verifier::external_body]
pub struct ExScanError(yaml_rust::ScanError);

/// The documents that `YamlLoader::load_from_str` reads from `text`, in
/// their order; `None` where it refuses the text.
pub uninterp spec fn yaml_documents(text: Seq<char>) -> Option<Seq<Yaml>>;

/// The node that indexing `node` with `key` gives: the value under that key
/// of a hash, the bad value for anything else.
pub uninterp spec fn yaml_entry(node: Yaml, key: Seq<char>) -> Yaml;

/// The text of `node` where it is a string scalar, as `Yaml::as_str` gives
/// it.
pub uninterp spec fn yaml_text(node: Yaml) -> Option<Seq<char>>;

/// The number of `node` where it is an integer scalar, as `Yaml::as_i64`
/// gives it.
pub uninterp spec fn yaml_integer(node: Yaml) -> Option<i64>;

/// The greatest number of indicators that a text may hold to be loaded.
pub const MAX_INDICATORS: usize = 128;

/// Whether a byte is one of those that open a level of nesting in YAML:
/// `-`, `:`, `?`, `[` or `{`.
pub open spec fn is_indicator(byte: u8) -> bool {
    byte == 45 || byte == 58 || byte == 63 || byte == 91 || byte == 123
}

/// The number of indicators among bytes.
pub open spec fn indicators(bytes: Seq<u8>) -> nat {
    bytes.filter(|byte: u8| is_indicator(byte)).len()
}

/// Whether a text can be loaded: it holds no more than [`MAX_INDICATORS`]
/// indicators. The loader calls itself once for each level of nesting, and a
/// text nests no deeper than it has indicators, so that the loader's stack
/// stays small on such a text.
pub open spec fn loadable(text: Seq<char>) -> bool {
    indicators(encode_utf8(text)) <= MAX_INDICATORS
}

/// Whether a text can be loaded.
pub fn can_load(text: &str) -> (can: bool)
    ensures
        can == loadable(text@),
{
    let bytes = text.as_bytes();
    let ghost is_one = |byte: u8| is_indicator(byte);
    let mut count: usize = 0;
    let mut i: usize = 0;
    proof {
        reveal(Seq::filter);
        assert(bytes@.take(0) =~= Seq::<u8>::empty());
    }
    while i < bytes.len()
        invariant
            i <= bytes.len(),
            bytes@ == encode_utf8(text@),
            is_one == |byte: u8| is_indicator(byte),
            count == bytes@.take(i as int).filter(is_one).len(),
            count <= i,
        decreases bytes.len() - i,
    {
        proof {
            assert(bytes@.take(i + 1) =~= bytes@.take(i as int).push(bytes@[i as int]));
            bytes@.take(i as int).lemma_filter_push(bytes@[i as int], is_one);
        }
        let byte = bytes[i];
        if byte == 45 || byte == 58 || byte == 63 || byte == 91 || byte == 123 {
            count += 1;
        }
        i += 1;
    }
    proof {
        assert(bytes@.take(i as int) =~= bytes@);
    }
    count <= MAX_INDICATORS
}

/// Calls `YamlLoader::load_from_str`. The loader may exhaust the stack on a
/// text that nests deep, so it is called on texts of few indicators only.
/// Trusted: it returns `Ok` with the documents named by `yaml_documents`,
/// and `Err` exactly where there are none.
#[verifier::external_body]
pub(crate) fn load(text: &str) -> (loaded: Result<Vec<Yaml>, ScanError>)
    requires
        loadable(text@),
    ensures
        match loaded {
            Ok(documents) => yaml_documents(text@) == Some(documents@),
            Err(_) => yaml_documents(text@) is None,
        },
{
    yaml_rust::YamlLoader::load_from_str(text)
}

/// Indexes a node with a string key (`Index<&str> for Yaml`), which never
/// panics. Trusted: the result is the node named by `yaml_entry`.
#[verifier::external_body]
pub(crate) fn entry<'a>(node: &'a Yaml, key: &str) -> (found: &'a Yaml)
    ensures
        *found == yaml_entry(*node, key@),
{
    &node[key]
}

/// `Yaml::as_str`: the text of a string scalar, `None` for any other node.
pub assume_specification[ yaml_rust::Yaml::as_str ](node: &Yaml) -> (text: Option<&str>)
    ensures
        match text {
            Some(s) => yaml_text(*node) == Some(s@),
            None => yaml_text(*node) is None,
        },
;

/// `Yaml::as_i64`: the number of an integer scalar, `None` for any other
/// node.
pub assume_specification[ yaml_rust::Yaml::as_i64 ](node: &Yaml) -> (number: Option<i64>)
    ensures
        number == yaml_integer(*node),
;

} // verus!
