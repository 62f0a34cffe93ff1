//! The surroundings of one prompt render, as values.
//!
//! A [`Context`] is a snapshot: the environment variables, the home
//! directory and the configuration files that could be read, taken by the
//! caller before resolution starts. Resolution itself reads nothing else.

use crate::configs::azure::{AzureConfig, AzureConfigView};
use crate::text::str_eq;
use vstd::prelude::*;

verus! {

/// The value of the first entry whose key is `key`.
pub open spec fn first_value<V>(entries: Seq<(Seq<char>, V)>, key: Seq<char>) -> Option<V>
    decreases entries.len(),
{
    if entries.len() == 0 {
        None
    } else if entries[0].0 == key {
        Some(entries[0].1)
    } else {
        first_value(entries.drop_first(), key)
    }
}

/// What [`first_value`] finds is the value at the least index that holds the
/// key, and it finds nothing exactly when no index holds it.
pub proof fn lemma_first_value<V>(entries: Seq<(Seq<char>, V)>, key: Seq<char>)
    ensures
        match first_value(entries, key) {
            Some(value) => exists|i: int|
                0 <= i < entries.len() && (#[trigger] entries[i]).0 == key && entries[i].1 == value
                    && forall|j: int| 0 <= j < i ==> (#[trigger] entries[j]).0 != key,
            None => forall|i: int| 0 <= i < entries.len() ==> (#[trigger] entries[i]).0 != key,
        },
    decreases entries.len(),
{
    if entries.len() == 0 {
    } else if entries[0].0 == key {
        assert(entries[0].0 == key && entries[0].1 == entries[0].1);
    } else {
        let rest = entries.drop_first();
        lemma_first_value(rest, key);
        assert(forall|i: int| 0 <= i < rest.len() ==> rest[i] == entries[i + 1]);
        match first_value(rest, key) {
            Some(value) => {
                let i = choose|i: int|
                    0 <= i < rest.len() && (#[trigger] rest[i]).0 == key && rest[i].1 == value
                        && forall|j: int| 0 <= j < i ==> (#[trigger] rest[j]).0 != key;
                assert(entries[i + 1].0 == key && entries[i + 1].1 == value);
                assert forall|j: int| 0 <= j < i + 1 implies (#[trigger] entries[j]).0 != key by {
                    if j > 0 {
                        assert(rest[j - 1].0 != key);
                    }
                }
            },
            None => {
                assert forall|i: int| 0 <= i < entries.len() implies (#[trigger] entries[i]).0
                    != key by {
                    if i > 0 {
                        assert(rest[i - 1].0 != key);
                    }
                }
            },
        }
    }
}

/// The value at `index` is what [`first_value`] finds when no earlier entry
/// holds the key.
pub proof fn lemma_first_value_at<V>(entries: Seq<(Seq<char>, V)>, key: Seq<char>, index: int)
    requires
        0 <= index < entries.len(),
        entries[index].0 == key,
        forall|j: int| 0 <= j < index ==> (#[trigger] entries[j]).0 != key,
    ensures
        first_value(entries, key) == Some(entries[index].1),
    decreases index,
{
    if index > 0 {
        let rest = entries.drop_first();
        assert(entries[0].0 != key);
        assert forall|j: int| 0 <= j < index - 1 implies (#[trigger] rest[j]).0 != key by {
            assert(entries[j + 1].0 != key);
        }
        lemma_first_value_at(rest, key, index - 1);
    }
}

/// The surroundings of one prompt render.
pub struct Context<'a> {
    /// Environment variables, each a name and its value. Where a name
    /// occurs twice the first entry counts.
    pub env: Vec<(String, String)>,
    /// The user's home directory, where one could be found.
    pub home: Option<String>,
    /// The files that could be read, each a path and its bytes. A path that
    /// is not here stands for a file that is missing or unreadable.
    pub files: Vec<(String, Vec<u8>)>,
    /// Settings of the segment.
    pub config: AzureConfig<'a>,
}

/// A context as plain values.
pub struct ContextView {
    pub env: Seq<(Seq<char>, Seq<char>)>,
    pub home: Option<Seq<char>>,
    pub files: Seq<(Seq<char>, Seq<u8>)>,
    pub config: AzureConfigView,
}

/// The environment as names and values.
pub open spec fn env_view(env: Seq<(String, String)>) -> Seq<(Seq<char>, Seq<char>)> {
    env.map_values(|entry: (String, String)| (entry.0@, entry.1@))
}

/// The files as paths and bytes.
pub open spec fn files_view(files: Seq<(String, Vec<u8>)>) -> Seq<(Seq<char>, Seq<u8>)> {
    files.map_values(|entry: (String, Vec<u8>)| (entry.0@, entry.1@))
}

impl<'a> View for Context<'a> {
    type V = ContextView;

    open spec fn view(&self) -> ContextView {
        ContextView {
            env: env_view(self.env@),
            home: match self.home {
                Some(home) => Some(home@),
                None => None,
            },
            files: files_view(self.files@),
            config: self.config@,
        }
    }
}

impl<'a> Context<'a> {
    /// The value of the environment variable `name`.
    pub fn get_env(&self, name: &str) -> (value: Option<&str>)
        ensures
            match value {
                Some(value) => first_value(self@.env, name@) == Some(value@),
                None => first_value(self@.env, name@) is None,
            },
    {
        let ghost all = env_view(self.env@);
        let mut i: usize = 0;
        assert(all.skip(0) =~= all);
        while i < self.env.len()
            invariant
                i <= self.env.len(),
                all == env_view(self.env@),
                first_value(all, name@) == first_value(all.skip(i as int), name@),
            decreases self.env.len() - i,
        {
            proof {
                assert(all.skip(i as int)[0] == all[i as int]);
                assert(all.skip(i as int).drop_first() =~= all.skip(i + 1));
            }
            if str_eq(self.env[i].0.as_str(), name) {
                return Some(self.env[i].1.as_str());
            }
            i += 1;
        }
        None
    }

    /// The user's home directory.
    pub fn get_home(&self) -> (home: Option<&str>)
        ensures
            match home {
                Some(home) => self@.home == Some(home@),
                None => self@.home is None,
            },
    {
        match &self.home {
            Some(home) => Some(home.as_str()),
            None => None,
        }
    }

    /// The bytes of the file at `path`, where the snapshot holds it.
    pub fn read_file(&self, path: &str) -> (contents: Option<&[u8]>)
        ensures
            match contents {
                Some(contents) => first_value(self@.files, path@) == Some(contents@),
                None => first_value(self@.files, path@) is None,
            },
    {
        let ghost all = files_view(self.files@);
        let mut i: usize = 0;
        assert(all.skip(0) =~= all);
        while i < self.files.len()
            invariant
                i <= self.files.len(),
                all == files_view(self.files@),
                first_value(all, path@) == first_value(all.skip(i as int), path@),
            decreases self.files.len() - i,
        {
            proof {
                assert(all.skip(i as int)[0] == all[i as int]);
                assert(all.skip(i as int).drop_first() =~= all.skip(i + 1));
            }
            if str_eq(self.files[i].0.as_str(), path) {
                return Some(self.files[i].1.as_slice());
            }
            i += 1;
        }
        None
    }
}

} // verus!
