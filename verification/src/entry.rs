//! The entries that a record type is declared with, and what each declares.

use vstd::prelude::*;
use vstd::string::*;
use crate::fault::Fault;
use crate::key::{keys_fault, KeySpec, KeySpecView};
use crate::text::{clone_text, text_is};

verus! {

/// Field that names the table and marks the primary-key declaration.
pub const TABLE_FIELD: &'static str = "table";

/// Field that names a secondary index.
pub const INDEX_FIELD: &'static str = "index";

/// Field that names the partition-key attribute.
pub const PARTITION_FIELD: &'static str = "pk";

/// Field that names the sort-key attribute.
pub const SORT_FIELD: &'static str = "sk";

/// One `name = value` pair of an entry. `value` is `None` when the entry
/// binds the name to something other than a string.
#[derive(Debug, PartialEq, Eq)]
pub struct Field {
    pub name: String,
    pub value: Option<String>,
}

/// A [`Field`] as the contracts see it.
pub struct FieldView {
    pub name: Seq<char>,
    pub value: Option<Seq<char>>,
}

impl View for Field {
    type V = FieldView;

    open spec fn view(&self) -> FieldView {
        FieldView { name: self.name@, value: self.value.deep_view() }
    }
}

/// One entry attached to a record type: its fields in the order they were
/// written.
#[derive(Debug, PartialEq, Eq)]
pub struct Entry {
    pub fields: Vec<Field>,
}

impl View for Entry {
    type V = Seq<FieldView>;

    open spec fn view(&self) -> Seq<FieldView> {
        self.fields@.map_values(|field: Field| field@)
    }
}

/// What an entry declares once its fields are read.
#[derive(Debug, PartialEq, Eq)]
pub enum Declaration {
    /// The table and its primary key.
    Primary { table_name: String, keys: KeySpec },
    /// A secondary index and its key.
    Index { name: String, keys: KeySpec },
}

/// A [`Declaration`] as the contracts see it.
pub enum DeclarationView {
    Primary { table_name: Seq<char>, keys: KeySpecView },
    Index { name: Seq<char>, keys: KeySpecView },
}

impl View for Declaration {
    type V = DeclarationView;

    open spec fn view(&self) -> DeclarationView {
        match self {
            Declaration::Primary { table_name, keys } => DeclarationView::Primary {
                table_name: table_name@,
                keys: keys@,
            },
            Declaration::Index { name, keys } => DeclarationView::Index { name: name@, keys: keys@ },
        }
    }
}

/// Whether `name` is one of the four field names an entry may hold.
pub open spec fn known_name(name: Seq<char>) -> bool {
    name == TABLE_FIELD@ || name == INDEX_FIELD@ || name == PARTITION_FIELD@ || name == SORT_FIELD@
}

/// A field is recognized when its name is known and its value is a string.
pub open spec fn recognized(field: FieldView) -> bool {
    known_name(field.name) && field.value is Some
}

/// Every field of the entry is recognized.
pub open spec fn all_recognized(entry: Seq<FieldView>) -> bool {
    forall|i: int| 0 <= i < entry.len() ==> recognized(#[trigger] entry[i])
}

/// The value an entry gives to `name`. Where the name is written more than
/// once, the last occurrence counts.
pub open spec fn lookup(entry: Seq<FieldView>, name: Seq<char>) -> Option<Seq<char>>
    decreases entry.len(),
{
    if entry.len() == 0 {
        None
    } else if entry.last().name == name {
        entry.last().value
    } else {
        lookup(entry.drop_last(), name)
    }
}

/// The key that an entry names.
pub open spec fn keys_of(entry: Seq<FieldView>) -> KeySpecView {
    KeySpecView {
        partition_key: lookup(entry, PARTITION_FIELD@)->0,
        sort_key: lookup(entry, SORT_FIELD@),
    }
}

/// What is wrong with the key that an entry names, if anything.
pub open spec fn key_fault(entry: Seq<FieldView>) -> Option<Fault> {
    if lookup(entry, PARTITION_FIELD@) is None {
        Some(Fault::MissingPartitionKey)
    } else {
        keys_fault(keys_of(entry))
    }
}

/// What an entry declares, judged by its own fields alone. An entry with a
/// `table` field is the primary-key declaration; one with an `index` field
/// and no `table` field declares a secondary index; any other is refused.
pub open spec fn declaration_of(entry: Seq<FieldView>) -> Result<DeclarationView, Fault> {
    let table = lookup(entry, TABLE_FIELD@);
    let index = lookup(entry, INDEX_FIELD@);
    if !all_recognized(entry) {
        Err(Fault::UnrecognizedField)
    } else if table is Some {
        if table->0.len() == 0 {
            Err(Fault::EmptyTableName)
        } else if key_fault(entry) is Some {
            Err(key_fault(entry)->0)
        } else {
            Ok(DeclarationView::Primary { table_name: table->0, keys: keys_of(entry) })
        }
    } else if index is Some {
        if key_fault(entry) is Some {
            Err(key_fault(entry)->0)
        } else {
            Ok(DeclarationView::Index { name: index->0, keys: keys_of(entry) })
        }
    } else {
        Err(Fault::UnrecognizedShape)
    }
}

impl Field {
    /// A field that binds `name` to the string `value`.
    pub fn new(name: &str, value: &str) -> (field: Field)
        ensures
            field@ == (FieldView { name: name@, value: Some(value@) }),
    {
        Field { name: String::from_str(name), value: Some(String::from_str(value)) }
    }

    /// A field that binds `name` to something other than a string.
    pub fn without_text(name: &str) -> (field: Field)
        ensures
            field@ == (FieldView { name: name@, value: None }),
    {
        Field { name: String::from_str(name), value: None }
    }

    /// Whether the field has a known name and a string for its value.
    pub fn is_recognized(&self) -> (known: bool)
        ensures
            known == recognized(self@),
    {
        let named = text_is(&self.name, TABLE_FIELD) || text_is(&self.name, INDEX_FIELD) || text_is(
            &self.name,
            PARTITION_FIELD,
        ) || text_is(&self.name, SORT_FIELD);
        named && self.value.is_some()
    }
}

impl Entry {
    /// The entry with the fields `fields`.
    pub fn new(fields: Vec<Field>) -> (entry: Entry)
        ensures
            entry.fields == fields,
    {
        Entry { fields }
    }

    /// Whether every field of the entry is recognized.
    pub fn is_recognized(&self) -> (known: bool)
        ensures
            known == all_recognized(self@),
    {
        let mut at: usize = 0;
        while at < self.fields.len()
            invariant
                at <= self.fields.len(),
                forall|i: int| 0 <= i < at ==> recognized(#[trigger] self@[i]),
            decreases self.fields.len() - at,
        {
            if !self.fields[at].is_recognized() {
                assert(!recognized(self@[at as int]));
                return false;
            }
            at += 1;
        }
        true
    }

    /// The value given to `name`, the last one where there are several.
    pub fn lookup(&self, name: &str) -> (value: Option<String>)
        ensures
            value.deep_view() == lookup(self@, name@),
    {
        let mut found: Option<String> = None;
        let mut at: usize = 0;
        while at < self.fields.len()
            invariant
                at <= self.fields.len(),
                found.deep_view() == lookup(self@.take(at as int), name@),
            decreases self.fields.len() - at,
        {
            proof {
                let next = self@.take(at + 1);
                assert(next.drop_last() =~= self@.take(at as int));
                assert(next.last() == self@[at as int]);
            }
            if text_is(&self.fields[at].name, name) {
                found = clone_text(&self.fields[at].value);
            }
            at += 1;
        }
        proof {
            assert(self@.take(at as int) =~= self@);
        }
        found
    }

    /// The key that the entry names, or what is wrong with it.
    pub fn keys(&self) -> (result: Result<KeySpec, Fault>)
        ensures
            match result {
                Ok(keys) => key_fault(self@) is None && keys@ == keys_of(self@),
                Err(fault) => key_fault(self@) == Some(fault),
            },
    {
        match self.lookup(PARTITION_FIELD) {
            None => Err(Fault::MissingPartitionKey),
            Some(partition_key) => {
                let keys = KeySpec { partition_key, sort_key: self.lookup(SORT_FIELD) };
                match keys.fault() {
                    Some(fault) => Err(fault),
                    None => Ok(keys),
                }
            },
        }
    }

    /// Reads the entry by its own fields: a primary-key declaration, an
    /// index declaration, or the fault that the entry has.
    pub fn declaration(&self) -> (result: Result<Declaration, Fault>)
        ensures
            match result {
                Ok(declaration) => declaration_of(self@) == Ok::<DeclarationView, Fault>(
                    declaration@,
                ),
                Err(fault) => declaration_of(self@) == Err::<DeclarationView, Fault>(fault),
            },
    {
        if !self.is_recognized() {
            return Err(Fault::UnrecognizedField);
        }
        match self.lookup(TABLE_FIELD) {
            Some(table_name) => {
                if table_name.as_str().is_empty() {
                    return Err(Fault::EmptyTableName);
                }
                match self.keys() {
                    Ok(keys) => Ok(Declaration::Primary { table_name, keys }),
                    Err(fault) => Err(fault),
                }
            },
            None => match self.lookup(INDEX_FIELD) {
                Some(name) => match self.keys() {
                    Ok(keys) => Ok(Declaration::Index { name, keys }),
                    Err(fault) => Err(fault),
                },
                None => Err(Fault::UnrecognizedShape),
            },
        }
    }
}

} // verus!
