//! The key schema of a record type, and how it is read from entries.

use vstd::prelude::*;
use vstd::string::*;
use crate::entry::{declaration_of, Declaration, DeclarationView, Entry, FieldView};
use crate::fault::{ConfigurationError, Fault};
use crate::key::{keys_fault, keys_valid, KeySpec, KeySpecView};
use crate::naming::{name_index_operation, operation_name};

verus! {

/// A secondary index: its name and the key it is queried by.
#[derive(Debug, PartialEq, Eq)]
pub struct IndexSpec {
    pub name: String,
    pub keys: KeySpec,
}

/// An [`IndexSpec`] as the contracts see it.
pub struct IndexSpecView {
    pub name: Seq<char>,
    pub keys: KeySpecView,
}

impl View for IndexSpec {
    type V = IndexSpecView;

    open spec fn view(&self) -> IndexSpecView {
        IndexSpecView { name: self.name@, keys: self.keys@ }
    }
}

/// The validated key schema of one record type: its table, the primary key
/// of the table, and the secondary indexes in the order they were declared.
#[derive(Debug, PartialEq, Eq)]
pub struct Schema {
    table_name: String,
    primary: KeySpec,
    indexes: Vec<IndexSpec>,
}

/// A [`Schema`] as the contracts see it.
pub struct SchemaView {
    pub table_name: Seq<char>,
    pub primary: KeySpecView,
    pub indexes: Seq<IndexSpecView>,
}

impl View for Schema {
    type V = SchemaView;

    closed spec fn view(&self) -> SchemaView {
        SchemaView {
            table_name: self.table_name@,
            primary: self.primary@,
            indexes: index_views(self.indexes@),
        }
    }
}

/// The indexes as the contracts see them.
pub open spec fn index_views(indexes: Seq<IndexSpec>) -> Seq<IndexSpecView> {
    indexes.map_values(|index: IndexSpec| index@)
}

/// The entries as the contracts see them: each a sequence of fields.
pub open spec fn declared_by(entries: Seq<Entry>) -> Seq<Seq<FieldView>> {
    entries.map_values(|entry: Entry| entry@)
}

/// No two of `indexes` give their operations the same name.
pub open spec fn distinct_operations(indexes: Seq<IndexSpecView>) -> bool {
    forall|i: int, j: int|
        #![trigger indexes[i], indexes[j]]
        0 <= i < j < indexes.len() ==> operation_name(Some(indexes[i].name)) != operation_name(
            Some(indexes[j].name),
        )
}

/// Every one of `indexes` has a usable key.
pub open spec fn usable_keys(indexes: Seq<IndexSpecView>) -> bool {
    forall|i: int| 0 <= i < indexes.len() ==> keys_valid((#[trigger] indexes[i]).keys)
}

/// What holds of every schema: the table is named, every key is usable and
/// no two indexes share an operation name.
pub open spec fn schema_valid(schema: SchemaView) -> bool {
    &&& schema.table_name.len() > 0
    &&& keys_valid(schema.primary)
    &&& usable_keys(schema.indexes)
    &&& distinct_operations(schema.indexes)
}

/// Whether one of `indexes` already has the operation name that an index
/// called `name` would get.
pub open spec fn name_taken(indexes: Seq<IndexSpecView>, name: Seq<char>) -> bool {
    exists|k: int|
        0 <= k < indexes.len() && operation_name(Some((#[trigger] indexes[k]).name))
            == operation_name(Some(name))
}

/// What is wrong with a table and its primary key, if anything.
pub open spec fn table_fault(table_name: Seq<char>, keys: KeySpecView) -> Option<Fault> {
    if table_name.len() == 0 {
        Some(Fault::EmptyTableName)
    } else {
        keys_fault(keys)
    }
}

/// What is wrong with an index called `name` beside `indexes`, if anything.
pub open spec fn index_fault(
    indexes: Seq<IndexSpecView>,
    name: Seq<char>,
    keys: KeySpecView,
) -> Option<Fault> {
    if keys_fault(keys) is Some {
        keys_fault(keys)
    } else if name_taken(indexes, name) {
        Some(Fault::NameCollision)
    } else {
        None
    }
}

/// A table and its primary key.
pub struct PrimaryView {
    pub table_name: Seq<char>,
    pub keys: KeySpecView,
}

/// The table name and primary key that `entries` declare: those of the
/// last primary-key declaration among them.
pub open spec fn primary_of(entries: Seq<Seq<FieldView>>) -> Option<PrimaryView>
    decreases entries.len(),
{
    if entries.len() == 0 {
        None
    } else {
        match declaration_of(entries.last()) {
            Ok(DeclarationView::Primary { table_name, keys }) => Some(
                PrimaryView { table_name, keys },
            ),
            _ => primary_of(entries.drop_last()),
        }
    }
}

/// The indexes that `entries` declare, in the order of their entries.
pub open spec fn indexes_of(entries: Seq<Seq<FieldView>>) -> Seq<IndexSpecView>
    decreases entries.len(),
{
    if entries.len() == 0 {
        Seq::empty()
    } else {
        let before = indexes_of(entries.drop_last());
        match declaration_of(entries.last()) {
            Ok(DeclarationView::Index { name, keys }) => before.push(IndexSpecView { name, keys }),
            _ => before,
        }
    }
}

/// The fault of the entry at `position`, if it has one: a fault of its own,
/// a table declared again, or an index whose operation name an earlier
/// index has taken.
pub open spec fn entry_fault(entries: Seq<Seq<FieldView>>, position: int) -> Option<Fault> {
    let before = entries.take(position);
    match declaration_of(entries[position]) {
        Err(fault) => Some(fault),
        Ok(DeclarationView::Primary { .. }) => if primary_of(before) is Some {
            Some(Fault::DuplicateTable)
        } else {
            None
        },
        Ok(DeclarationView::Index { name, .. }) => if name_taken(indexes_of(before), name) {
            Some(Fault::NameCollision)
        } else {
            None
        },
    }
}

/// None of the first `count` entries has a fault.
pub open spec fn faultless(entries: Seq<Seq<FieldView>>, count: int) -> bool {
    forall|j: int| 0 <= j < count ==> entry_fault(entries, j) is None
}

/// The entries that make a schema: none has a fault and one declares the
/// table.
pub open spec fn accepted(entries: Seq<Seq<FieldView>>) -> bool {
    faultless(entries, entries.len() as int) && primary_of(entries) is Some
}

/// `error` is the reason why `entries` make no schema: the first entry
/// with a fault and that fault, or the missing table where no entry has one.
pub open spec fn rejected_with(entries: Seq<Seq<FieldView>>, error: ConfigurationError) -> bool {
    match error {
        ConfigurationError::MissingTable => faultless(entries, entries.len() as int) && primary_of(
            entries,
        ) is None,
        ConfigurationError::InvalidEntry { entry, fault } => {
            &&& entry < entries.len()
            &&& faultless(entries, entry as int)
            &&& entry_fault(entries, entry as int) == Some(fault)
        },
    }
}

/// The schema that accepted entries make.
pub open spec fn schema_of(entries: Seq<Seq<FieldView>>) -> SchemaView {
    SchemaView {
        table_name: primary_of(entries)->0.table_name,
        primary: primary_of(entries)->0.keys,
        indexes: indexes_of(entries),
    }
}

/// The primary declaration that a table name and a key read so far stand
/// for.
spec fn stated(table: Option<String>, keys: Option<KeySpec>) -> Option<PrimaryView> {
    match (table, keys) {
        (Some(table_name), Some(keys)) => Some(PrimaryView { table_name: table_name@, keys: keys@ }),
        _ => None,
    }
}

/// As long as no entry has a fault, what the entries declare is valid.
pub proof fn lemma_faultless_prefix_is_valid(entries: Seq<Seq<FieldView>>, count: int)
    requires
        0 <= count <= entries.len(),
        faultless(entries, count),
    ensures
        usable_keys(indexes_of(entries.take(count))),
        distinct_operations(indexes_of(entries.take(count))),
        primary_of(entries.take(count)) matches Some(primary) ==> primary.table_name.len() > 0
            && keys_valid(primary.keys),
    decreases count,
{
    if count > 0 {
        lemma_faultless_prefix_is_valid(entries, count - 1);
        let prefix = entries.take(count);
        let before = entries.take(count - 1);
        assert(prefix.drop_last() =~= before);
        assert(prefix.last() == entries[count - 1]);
        assert(entry_fault(entries, count - 1) is None);
        let earlier = indexes_of(before);
        match declaration_of(entries[count - 1]) {
            Ok(DeclarationView::Index { name, keys }) => {
                let all = indexes_of(prefix);
                assert(all == earlier.push(IndexSpecView { name, keys }));
                assert(!name_taken(earlier, name));
                assert forall|i: int, j: int| 0 <= i < j < all.len() implies operation_name(
                    Some(all[i].name),
                ) != operation_name(Some(all[j].name)) by {
                    if j == earlier.len() {
                        assert(all[i] == earlier[i]);
                    } else {
                        assert(all[i] == earlier[i] && all[j] == earlier[j]);
                    }
                }
            },
            _ => {},
        }
    }
}

/// Accepted entries make a valid schema.
pub proof fn lemma_accepted_schema_is_valid(entries: Seq<Seq<FieldView>>)
    requires
        accepted(entries),
    ensures
        schema_valid(schema_of(entries)),
{
    lemma_faultless_prefix_is_valid(entries, entries.len() as int);
    assert(entries.take(entries.len() as int) =~= entries);
}

/// Whether one of `names` reads as `wanted`.
fn holds_text(names: &Vec<String>, wanted: &String) -> (found: bool)
    ensures
        found == exists|k: int| 0 <= k < names.len() && (#[trigger] names[k])@ == wanted@,
{
    let mut at: usize = 0;
    while at < names.len()
        invariant
            at <= names.len(),
            forall|k: int| 0 <= k < at ==> (#[trigger] names[k])@ != wanted@,
        decreases names.len() - at,
    {
        if names[at] == *wanted {
            return true;
        }
        at += 1;
    }
    false
}

impl Schema {
    /// Every schema is valid: there is no way to make one that is not.
    #[verifier::type_invariant]
    pub open spec fn valid(self) -> bool {
        schema_valid(self@)
    }

    /// The table that the record type is stored in.
    pub fn table_name(&self) -> (table_name: &String)
        ensures
            table_name@ == self@.table_name,
            table_name@.len() > 0,
    {
        proof {
            use_type_invariant(self);
        }
        &self.table_name
    }

    /// The primary key of the table.
    pub fn primary(&self) -> (keys: &KeySpec)
        ensures
            keys@ == self@.primary,
            keys_valid(keys@),
    {
        proof {
            use_type_invariant(self);
        }
        &self.primary
    }

    /// The secondary indexes, in the order of their declarations.
    pub fn indexes(&self) -> (indexes: &Vec<IndexSpec>)
        ensures
            index_views(indexes@) == self@.indexes,
            usable_keys(self@.indexes),
            distinct_operations(self@.indexes),
    {
        proof {
            use_type_invariant(self);
        }
        &self.indexes
    }

    /// The schema of a table without secondary indexes.
    pub fn new(table_name: String, primary: KeySpec) -> (result: Result<Schema, Fault>)
        ensures
            match result {
                Ok(schema) => {
                    &&& table_fault(table_name@, primary@) is None
                    &&& schema@ == (SchemaView {
                        table_name: table_name@,
                        primary: primary@,
                        indexes: Seq::empty(),
                    })
                },
                Err(fault) => table_fault(table_name@, primary@) == Some(fault),
            },
    {
        if table_name.as_str().is_empty() {
            return Err(Fault::EmptyTableName);
        }
        match primary.fault() {
            Some(fault) => Err(fault),
            None => {
                let schema = Schema { table_name, primary, indexes: Vec::new() };
                assert(schema@.indexes =~= Seq::empty());
                Ok(schema)
            },
        }
    }

    /// The schema with one more index, called `name` and queried by `keys`.
    pub fn with_index(self, name: String, keys: KeySpec) -> (result: Result<Schema, Fault>)
        ensures
            match result {
                Ok(schema) => {
                    &&& index_fault(self@.indexes, name@, keys@) is None
                    &&& schema@ == (SchemaView {
                        indexes: self@.indexes.push(IndexSpecView { name: name@, keys: keys@ }),
                        ..self@
                    })
                },
                Err(fault) => index_fault(self@.indexes, name@, keys@) == Some(fault),
            },
    {
        proof {
            use_type_invariant(&self);
        }
        match keys.fault() {
            Some(fault) => {
                return Err(fault);
            },
            None => {},
        }
        let operation = name_index_operation(name.as_str());
        let mut at: usize = 0;
        while at < self.indexes.len()
            invariant
                at <= self.indexes.len(),
                keys_fault(keys@) is None,
                operation@ == operation_name(Some(name@)),
                forall|k: int|
                    0 <= k < at ==> operation_name(Some((#[trigger] self@.indexes[k]).name))
                        != operation@,
            decreases self.indexes.len() - at,
        {
            let taken = name_index_operation(self.indexes[at].name.as_str());
            proof {
                assert(self@.indexes[at as int] == self.indexes[at as int]@);
            }
            if taken == operation {
                assert(name_taken(self@.indexes, name@));
                return Err(Fault::NameCollision);
            }
            at += 1;
        }
        let ghost before = self@;
        let Schema { table_name, primary, indexes } = self;
        let mut indexes = indexes;
        indexes.push(IndexSpec { name, keys });
        proof {
            let added = IndexSpecView { name: name@, keys: keys@ };
            assert(index_views(indexes@) =~= before.indexes.push(added));
            let all = index_views(indexes@);
            assert forall|i: int, j: int| 0 <= i < j < all.len() implies operation_name(
                Some(all[i].name),
            ) != operation_name(Some(all[j].name)) by {
                if j == before.indexes.len() {
                    assert(all[i] == before.indexes[i]);
                } else {
                    assert(all[i] == before.indexes[i] && all[j] == before.indexes[j]);
                }
            }
        }
        Ok(Schema { table_name, primary, indexes })
    }

    /// Reads the entries attached to a record type, in their order, into
    /// its schema. The first entry with a fault ends the reading; entries
    /// without a table declaration among them make no schema either.
    pub fn parse(entries: &Vec<Entry>) -> (result: Result<Schema, ConfigurationError>)
        ensures
            result is Ok <==> accepted(declared_by(entries@)),
            match result {
                Ok(schema) => schema@ == schema_of(declared_by(entries@)),
                Err(error) => rejected_with(declared_by(entries@), error),
            },
    {
        let ghost declared = declared_by(entries@);
        let mut table: Option<String> = None;
        let mut primary: Option<KeySpec> = None;
        let mut indexes: Vec<IndexSpec> = Vec::new();
        let mut names: Vec<String> = Vec::new();
        let mut at: usize = 0;
        while at < entries.len()
            invariant
                at <= entries.len(),
                declared == declared_by(entries@),
                faultless(declared, at as int),
                table is Some <==> primary is Some,
                primary_of(declared.take(at as int)) == stated(table, primary),
                index_views(indexes@) == indexes_of(declared.take(at as int)),
                names.len() == indexes.len(),
                forall|k: int|
                    0 <= k < names.len() ==> (#[trigger] names[k])@ == operation_name(
                        Some(indexes[k]@.name),
                    ),
            decreases entries.len() - at,
        {
            proof {
                let next = declared.take(at + 1);
                assert(next.drop_last() =~= declared.take(at as int));
                assert(next.last() == declared[at as int]);
                assert(declared[at as int] == entries[at as int]@);
            }
            match entries[at].declaration() {
                Err(fault) => {
                    assert(entry_fault(declared, at as int) == Some(fault));
                    return Err(ConfigurationError::InvalidEntry { entry: at, fault });
                },
                Ok(Declaration::Primary { table_name, keys }) => {
                    if table.is_some() {
                        assert(entry_fault(declared, at as int) == Some(Fault::DuplicateTable));
                        return Err(
                            ConfigurationError::InvalidEntry {
                                entry: at,
                                fault: Fault::DuplicateTable,
                            },
                        );
                    }
                    table = Some(table_name);
                    primary = Some(keys);
                },
                Ok(Declaration::Index { name, keys }) => {
                    let operation = name_index_operation(name.as_str());
                    let taken = holds_text(&names, &operation);
                    proof {
                        let earlier = indexes_of(declared.take(at as int));
                        if taken {
                            let k = choose|k: int|
                                0 <= k < names.len() && (#[trigger] names[k])@ == operation@;
                            assert(earlier[k] == indexes[k]@);
                            assert(name_taken(earlier, name@));
                        } else {
                            assert forall|k: int| 0 <= k < earlier.len() implies operation_name(
                                Some((#[trigger] earlier[k]).name),
                            ) != operation_name(Some(name@)) by {
                                assert(earlier[k] == indexes[k]@);
                                assert(names[k]@ != operation@);
                            }
                        }
                    }
                    if taken {
                        assert(entry_fault(declared, at as int) == Some(Fault::NameCollision));
                        return Err(
                            ConfigurationError::InvalidEntry {
                                entry: at,
                                fault: Fault::NameCollision,
                            },
                        );
                    }
                    names.push(operation);
                    indexes.push(IndexSpec { name, keys });
                    proof {
                        assert(index_views(indexes@) =~= indexes_of(declared.take(at + 1)));
                    }
                },
            }
            at += 1;
        }
        proof {
            assert(declared.take(at as int) =~= declared);
            lemma_faultless_prefix_is_valid(declared, at as int);
        }
        match (table, primary) {
            (Some(table_name), Some(keys)) => Ok(Schema { table_name, primary: keys, indexes }),
            _ => Err(ConfigurationError::MissingTable),
        }
    }
}

} // verus!
