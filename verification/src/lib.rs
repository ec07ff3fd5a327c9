//! A small persistent key-value configuration store.
//!
//! A [`Config`] holds a string-to-string mapping in memory together with the
//! path of its backing file, `<config dir>/<name>.yaml`. Lookups and edits
//! work purely in memory. Synchronizing with the disk is split between this
//! library and its caller: [`Config::write`] produces the exact text to
//! persist at the store's path, and [`Config::read`] replaces the mapping
//! with the one parsed from text the caller fetched back from that path.

pub mod codec;
pub mod error;
pub mod laws;
pub mod pairs;
pub mod paths;

pub use error::Error;
pub use paths::resolve_path;

use vstd::prelude::*;

use crate::codec::{yaml_decode, yaml_encode, yaml_mapping_of, yaml_of};
use crate::pairs::{
    lemma_pairs_map_domain, lemma_pairs_map_found, lemma_pairs_map_push, lemma_pairs_map_update,
    pairs_map, pairs_unique,
};
use crate::paths::config_path_text;

verus! {

/// A named configuration: a string-to-string mapping held in memory, and
/// the path of the backing file it synchronizes with.
#[derive(Debug, Clone)]
pub struct Config {
    entries: Vec<(String, String)>,
    /// The resolved path of the backing file.
    pub path: String,
}

impl Config {
    /// The mathematical mapping this store holds.
    pub closed spec fn entries_map(&self) -> Map<Seq<char>, Seq<char>> {
        pairs_map(self.entries@)
    }

    /// The store's pairs carry pairwise-distinct keys. Every constructor
    /// establishes this and every operation preserves it.
    pub closed spec fn wf(&self) -> bool {
        pairs_unique(self.entries@)
    }

    /// The path of the backing file, as text.
    pub closed spec fn path_text(&self) -> Seq<char> {
        self.path@
    }

    /// A store whose mapping is empty, backed by the file at `path`.
    pub fn empty(path: String) -> (r: Config)
        ensures
            r.wf(),
            r.entries_map() == Map::<Seq<char>, Seq<char>>::empty(),
            r.path_text() == path@,
    {
        Config { entries: Vec::new(), path }
    }

    /// A store built from the text of its backing file: the text is parsed
    /// as a string-to-string mapping, and parsing succeeds exactly on texts
    /// that hold one. Fails with `Error::Parse` on any other text.
    pub fn from_text(path: String, text: &str) -> (r: Result<Config, Error>)
        ensures
            r is Ok <==> yaml_mapping_of(text@) is Some,
            r matches Ok(c) ==> c.wf() && yaml_mapping_of(text@) == Some(c.entries_map())
                && c.path_text() == path@,
            r matches Err(e) ==> e is Parse,
    {
        match yaml_decode(text) {
            Ok(entries) => Ok(Config { entries, path }),
            Err(e) => Err(e),
        }
    }

    /// The index of the pair carrying `key`, if one does.
    fn index_of(&self, key: &str) -> (r: Option<usize>)
        ensures
            r matches Some(i) ==> i < self.entries@.len() && self.entries@[i as int].0@ == key@,
            r is None ==> forall|j: int|
                0 <= j < self.entries@.len() ==> self.entries@[j].0@ != key@,
    {
        let k = key.to_owned();
        let mut i: usize = 0;
        while i < self.entries.len()
            invariant
                i <= self.entries@.len(),
                k@ == key@,
                forall|j: int| 0 <= j < i ==> self.entries@[j].0@ != key@,
            decreases self.entries@.len() - i,
        {
            if self.entries[i].0 == k {
                return Some(i);
            }
            i += 1;
        }
        None
    }

    /// Get the value for a key: `Some` of the mapping's value exactly when
    /// the key is present. Never fails and never touches the disk.
    pub fn get(&self, query: &str) -> (r: Option<String>)
        requires
            self.wf(),
        ensures
            r is Some <==> self.entries_map().contains_key(query@),
            r matches Some(v) ==> self.entries_map()[query@] == v@,
    {
        proof {
            lemma_pairs_map_domain(self.entries@, query@);
        }
        match self.index_of(query) {
            Some(i) => {
                proof {
                    lemma_pairs_map_found(self.entries@, i as int, query@);
                }
                Some(self.entries[i].1.clone())
            },
            None => None,
        }
    }

    /// Insert a key-value pair: the in-memory mapping afterwards is the old
    /// one with `value` under `key`, other keys untouched. Never fails and
    /// never touches the disk.
    pub fn insert(&mut self, key: &str, value: &str)
        requires
            old(self).wf(),
        ensures
            final(self).wf(),
            final(self).entries_map() == old(self).entries_map().insert(key@, value@),
            final(self).path_text() == old(self).path_text(),
    {
        let k = key.to_owned();
        let v = value.to_owned();
        match self.index_of(key) {
            Some(i) => {
                proof {
                    lemma_pairs_map_update(self.entries@, i as int, (k, v));
                }
                self.entries[i] = (k, v);
            },
            None => {
                proof {
                    lemma_pairs_map_push(self.entries@, (k, v));
                }
                self.entries.push((k, v));
            },
        }
    }

    /// Empty the in-memory mapping. Never fails and never touches the disk.
    pub fn clear(&mut self)
        ensures
            final(self).wf(),
            final(self).entries_map() == Map::<Seq<char>, Seq<char>>::empty(),
            final(self).path_text() == old(self).path_text(),
    {
        self.entries.clear();
    }

    /// Serialize the in-memory mapping: this always succeeds, and the
    /// returned text is the exact serialization of the mapping; parsing it
    /// back yields that same mapping. The caller persists it at the
    /// store's path; the store itself is untouched.
    pub fn write(&self) -> (r: Result<String, Error>)
        ensures
            r is Ok,
            r matches Ok(s) ==> s@ == yaml_of(self.entries_map())
                && yaml_mapping_of(s@) == Some(self.entries_map()),
    {
        yaml_encode(&self.entries)
    }

    /// Replace the in-memory mapping with the one parsed from `text`, the
    /// current content of the backing file. Succeeds exactly on texts that
    /// hold a string-to-string mapping; fails with `Error::Parse` on any
    /// other text and leaves the store unchanged.
    pub fn read(&mut self, text: &str) -> (r: Result<(), Error>)
        requires
            old(self).wf(),
        ensures
            final(self).wf(),
            final(self).path_text() == old(self).path_text(),
            r is Ok <==> yaml_mapping_of(text@) is Some,
            r is Ok ==> yaml_mapping_of(text@) == Some(final(self).entries_map()),
            r is Err ==> *final(self) == *old(self),
            r matches Err(e) ==> e is Parse,
    {
        match yaml_decode(text) {
            Ok(entries) => {
                self.entries = entries;
                Ok(())
            },
            Err(e) => Err(e),
        }
    }

    /// Insert a key-value pair, then serialize the updated mapping for the
    /// caller to persist. The insert takes effect in memory and the
    /// serialization always succeeds.
    pub fn write_insert(&mut self, key: &str, value: &str) -> (r: Result<String, Error>)
        requires
            old(self).wf(),
        ensures
            final(self).wf(),
            final(self).path_text() == old(self).path_text(),
            final(self).entries_map() == old(self).entries_map().insert(key@, value@),
            r is Ok,
            r matches Ok(s) ==> s@ == yaml_of(final(self).entries_map())
                && yaml_mapping_of(s@) == Some(final(self).entries_map()),
    {
        self.insert(key, value);
        self.write()
    }

    /// Replace the in-memory mapping with the one parsed from `text`, then
    /// look a key up in it. A parse failure is propagated unchanged; on
    /// success the result is the lookup's.
    pub fn read_get(&mut self, text: &str, query: &str) -> (r: Result<Option<String>, Error>)
        requires
            old(self).wf(),
        ensures
            final(self).wf(),
            final(self).path_text() == old(self).path_text(),
            r is Ok <==> yaml_mapping_of(text@) is Some,
            r matches Ok(o) ==> yaml_mapping_of(text@) == Some(final(self).entries_map())
                && (o is Some <==> final(self).entries_map().contains_key(query@))
                && (o matches Some(v) ==> final(self).entries_map()[query@] == v@),
            r is Err ==> *final(self) == *old(self),
            r matches Err(e) ==> e is Parse,
    {
        match self.read(text) {
            Ok(_) => Ok(self.get(query)),
            Err(e) => Err(e),
        }
    }

    /// Empty the in-memory mapping, then serialize the now-empty mapping
    /// for the caller to persist. The clear takes effect in memory and the
    /// serialization always succeeds.
    pub fn write_clear(&mut self) -> (r: Result<String, Error>)
        ensures
            final(self).wf(),
            final(self).path_text() == old(self).path_text(),
            final(self).entries_map() == Map::<Seq<char>, Seq<char>>::empty(),
            r is Ok,
            r matches Ok(s) ==> s@ == yaml_of(Map::<Seq<char>, Seq<char>>::empty())
                && yaml_mapping_of(s@) == Some(Map::<Seq<char>, Seq<char>>::empty()),
    {
        self.clear();
        self.write()
    }

    /// Build the store named `name` from `text`, the current content of its
    /// backing file, then clear it and serialize the empty mapping for the
    /// caller to persist. Fails as path resolution does (`Error::Path`,
    /// `Error::Other`) and with `Error::Parse` exactly where `text` holds
    /// no string-to-string mapping; so it succeeds only on text that
    /// parses.
    pub fn write_clear_by_name(name: &str, text: &str) -> (r: Result<(Config, String), Error>)
        ensures
            r is Ok ==> yaml_mapping_of(text@) is Some,
            r matches Ok((c, s)) ==> c.wf()
                && c.entries_map() == Map::<Seq<char>, Seq<char>>::empty()
                && (exists|d: Seq<char>| c.path_text() == config_path_text(d, name@))
                && s@ == yaml_of(Map::<Seq<char>, Seq<char>>::empty())
                && yaml_mapping_of(s@) == Some(Map::<Seq<char>, Seq<char>>::empty()),
            r matches Err(e) ==> e is Path || e is Other || e is Parse,
            r matches Err(e) && e is Parse ==> yaml_mapping_of(text@) is None,
    {
        let path = match resolve_path(name) {
            Ok(p) => p,
            Err(e) => {
                return Err(e);
            },
        };
        let mut config = match Config::from_text(path, text) {
            Ok(c) => c,
            Err(e) => {
                return Err(e);
            },
        };
        match config.write_clear() {
            Ok(s) => Ok((config, s)),
            Err(e) => Err(e),
        }
    }
}

} // verus!
