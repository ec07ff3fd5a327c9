//! The text codec for the backing file: the in-memory pairs are written as a
//! YAML mapping and read back from one, through `serde_yaml`.

use vstd::prelude::*;

use crate::error::Error;
use crate::pairs::{pairs_map, pairs_unique};

verus! {

/// The YAML text that serialization produces for a string-to-string
/// mapping. It depends on the mapping alone.
pub uninterp spec fn yaml_of(m: Map<Seq<char>, Seq<char>>) -> Seq<char>;

/// The string-to-string mapping that YAML parsing reads out of a text, or
/// `None` where the text does not hold such a mapping. It depends on the
/// text alone.
pub uninterp spec fn yaml_mapping_of(s: Seq<char>) -> Option<Map<Seq<char>, Seq<char>>>;

/// Relies on `serde_yaml::to_string`, applied to an ordered map built from
/// the pairs (a later pair overrides an earlier one with the same key, as
/// `pairs_map` does): the produced text is a function of the denoted mapping
/// alone, and parsing it back yields that same mapping. Serializing a
/// string-to-string map always succeeds: the serializer writes into an
/// in-memory buffer, every string can be emitted (double-quoted at worst),
/// and its error paths (non-string keys, raw bytes) are unreachable here.
#[verifier::external_body]
pub(crate) fn yaml_encode(pairs: &Vec<(String, String)>) -> (r: Result<String, Error>)
    ensures
        r is Ok,
        r matches Ok(s) ==> s@ == yaml_of(pairs_map(pairs@))
            && yaml_mapping_of(s@) == Some(pairs_map(pairs@)),
{
    let map: std::collections::BTreeMap<&str, &str> =
        pairs.iter().map(|p| (p.0.as_str(), p.1.as_str())).collect();
    match serde_yaml::to_string(&map) {
        Ok(s) => Ok(s),
        Err(e) => Err(Error::Other(format!("{}", e))),
    }
}

/// Relies on `serde_yaml::from_str`, read into an ordered string-to-string
/// map: it succeeds exactly on texts that hold such a mapping, and returns
/// that mapping's pairs, keys distinct.
#[verifier::external_body]
pub(crate) fn yaml_decode(text: &str) -> (r: Result<Vec<(String, String)>, Error>)
    ensures
        r is Ok <==> yaml_mapping_of(text@) is Some,
        r matches Ok(v) ==> pairs_unique(v@) && yaml_mapping_of(text@) == Some(pairs_map(v@)),
        r matches Err(e) ==> e is Parse,
{
    match serde_yaml::from_str::<std::collections::BTreeMap<String, String>>(text) {
        Ok(m) => Ok(m.into_iter().collect()),
        Err(e) => Err(Error::Parse(format!("{}", e))),
    }
}

} // verus!
