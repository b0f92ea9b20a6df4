//! The attributes that make up a key.

use vstd::prelude::*;
use vstd::string::*;
use crate::fault::Fault;
use crate::text::clone_text;

verus! {

/// The attributes that make up one key: a partition key and, where the
/// table or index has one, a sort key.
#[derive(Debug, PartialEq, Eq)]
pub struct KeySpec {
    pub partition_key: String,
    pub sort_key: Option<String>,
}

/// A [`KeySpec`] as the contracts see it.
pub struct KeySpecView {
    pub partition_key: Seq<char>,
    pub sort_key: Option<Seq<char>>,
}

impl View for KeySpec {
    type V = KeySpecView;

    open spec fn view(&self) -> KeySpecView {
        KeySpecView { partition_key: self.partition_key@, sort_key: self.sort_key.deep_view() }
    }
}

impl Clone for KeySpec {
    fn clone(&self) -> (copy: KeySpec)
        ensures
            copy == *self,
    {
        KeySpec { partition_key: self.partition_key.clone(), sort_key: clone_text(&self.sort_key) }
    }
}

/// What is wrong with a key, if anything: its partition key is not named,
/// or its sort key is the partition key once more.
pub open spec fn keys_fault(keys: KeySpecView) -> Option<Fault> {
    if keys.partition_key.len() == 0 {
        Some(Fault::EmptyPartitionKey)
    } else if keys.sort_key == Some(keys.partition_key) {
        Some(Fault::SortKeyIsPartitionKey)
    } else {
        None
    }
}

/// A key is usable when its partition key is named, and its sort key, if
/// there is one, is another attribute.
pub open spec fn keys_valid(keys: KeySpecView) -> bool {
    &&& keys.partition_key.len() > 0
    &&& keys.sort_key != Some(keys.partition_key)
}

impl KeySpec {
    /// A key of the partition-key attribute `partition_key` and, where one
    /// is given, the sort-key attribute `sort_key`.
    pub fn new(partition_key: &str, sort_key: Option<&str>) -> (keys: KeySpec)
        ensures
            keys@.partition_key == partition_key@,
            keys@.sort_key == match sort_key {
                Some(name) => Some(name@),
                None => None,
            },
    {
        KeySpec {
            partition_key: String::from_str(partition_key),
            sort_key: match sort_key {
                Some(name) => Some(String::from_str(name)),
                None => None,
            },
        }
    }

    /// What is wrong with the key, `None` where it is usable.
    pub fn fault(&self) -> (fault: Option<Fault>)
        ensures
            fault == keys_fault(self@),
            fault is None <==> keys_valid(self@),
    {
        if self.partition_key.as_str().is_empty() {
            Some(Fault::EmptyPartitionKey)
        } else if self.sort_key_is_partition_key() {
            Some(Fault::SortKeyIsPartitionKey)
        } else {
            None
        }
    }

    /// Whether the sort key names the attribute of the partition key.
    fn sort_key_is_partition_key(&self) -> (same: bool)
        ensures
            same == (self@.sort_key == Some(self@.partition_key)),
    {
        match &self.sort_key {
            Some(name) => *name == self.partition_key,
            None => false,
        }
    }
}

} // verus!
