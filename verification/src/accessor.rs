//! The accessors of a record type: its query operations, collected.

use vstd::prelude::*;
use vstd::string::*;
use crate::naming::{lemma_primary_name_is_reserved, operation_name};
use crate::query::{get_queries, operation_derived, operation_for, Operation, OperationView};
use crate::entry::Entry;
use crate::fault::ConfigurationError;
use crate::schema::{
    accepted, declared_by, index_views, rejected_with, schema_of, schema_valid, IndexSpecView,
    Schema, SchemaView,
};
use crate::text::text_is;

verus! {

/// The operations of a schema: the one on the table first, then one for
/// each index, in the order of the indexes.
pub open spec fn operations_of(schema: SchemaView) -> Seq<OperationView> {
    seq![operation_for(schema.table_name, None, schema.primary)] + schema.indexes.map_values(
        |index: IndexSpecView| operation_for(schema.table_name, Some(index.name), index.keys),
    )
}

/// No two of `operations` have the same name.
pub open spec fn distinct_names(operations: Seq<OperationView>) -> bool {
    forall|i: int, j: int|
        #![trigger operations[i], operations[j]]
        0 <= i < j < operations.len() ==> operations[i].name != operations[j].name
}

/// What holds of the accessors of every record type: the first operation
/// is the one on the table, the others are on indexes, each is derived
/// from its own table, index and key, and no two share a name.
pub open spec fn accessors_valid(operations: Seq<OperationView>) -> bool {
    &&& operations.len() >= 1
    &&& operations[0].index_qualifier is None
    &&& forall|i: int| 1 <= i < operations.len() ==> (#[trigger] operations[i]).index_qualifier is Some
    &&& forall|i: int| 0 <= i < operations.len() ==> operation_derived(#[trigger] operations[i])
    &&& distinct_names(operations)
}

/// The operations of a valid schema are valid accessors.
pub proof fn lemma_operations_are_valid(schema: SchemaView)
    requires
        schema_valid(schema),
    ensures
        accessors_valid(operations_of(schema)),
{
    let operations = operations_of(schema);
    assert forall|i: int, j: int| 0 <= i < j < operations.len() implies operations[i].name
        != operations[j].name by {
        let later = schema.indexes[j - 1];
        assert(operations[j].name == operation_name(Some(later.name)));
        if i == 0 {
            lemma_primary_name_is_reserved(later.name);
        } else {
            let earlier = schema.indexes[i - 1];
            assert(operations[i].name == operation_name(Some(earlier.name)));
        }
    }
}

/// The query operations of one record type.
#[derive(Debug, PartialEq, Eq)]
pub struct Accessors {
    operations: Vec<Operation>,
}

impl View for Accessors {
    type V = Seq<OperationView>;

    closed spec fn view(&self) -> Seq<OperationView> {
        operation_views(self.operations@)
    }
}

/// The operations as the contracts see them.
pub open spec fn operation_views(operations: Seq<Operation>) -> Seq<OperationView> {
    operations.map_values(|operation: Operation| operation@)
}

impl Accessors {
    /// Accessors are always valid: there is no way to make others.
    #[verifier::type_invariant]
    pub open spec fn valid(self) -> bool {
        accessors_valid(self@)
    }

    /// How many operations there are: one more than the schema has indexes.
    pub fn len(&self) -> (count: usize)
        ensures
            count == self@.len(),
            count >= 1,
    {
        proof {
            use_type_invariant(self);
        }
        self.operations.len()
    }

    /// The operation at `position`, where there is one.
    pub fn get(&self, position: usize) -> (found: Option<&Operation>)
        ensures
            match found {
                Some(operation) => position < self@.len() && operation@ == self@[position as int],
                None => position >= self@.len(),
            },
    {
        if position < self.operations.len() {
            Some(&self.operations[position])
        } else {
            None
        }
    }

    /// The operation on the table itself.
    pub fn primary(&self) -> (operation: &Operation)
        ensures
            operation@ == self@[0],
            operation@.index_qualifier is None,
    {
        proof {
            use_type_invariant(self);
        }
        &self.operations[0]
    }

    /// The operation called `name`, where there is one. No other operation
    /// has that name.
    pub fn find(&self, name: &str) -> (found: Option<&Operation>)
        ensures
            match found {
                Some(operation) => exists|i: int|
                    {
                        &&& 0 <= i < self@.len()
                        &&& #[trigger] self@[i] == operation@
                        &&& operation@.name == name@
                        &&& forall|j: int|
                            0 <= j < self@.len() && j != i ==> (#[trigger] self@[j]).name != name@
                    },
                None => forall|i: int| 0 <= i < self@.len() ==> (#[trigger] self@[i]).name != name@,
            },
    {
        proof {
            use_type_invariant(self);
        }
        let mut at: usize = 0;
        while at < self.operations.len()
            invariant
                at <= self.operations.len(),
                accessors_valid(self@),
                forall|i: int| 0 <= i < at ==> (#[trigger] self@[i]).name != name@,
            decreases self.operations.len() - at,
        {
            let operation = &self.operations[at];
            if text_is(operation.name(), name) {
                proof {
                    assert(self@[at as int] == operation@);
                    assert forall|j: int| 0 <= j < self@.len() && j != at implies (
                    #[trigger] self@[j]).name != name@ by {
                        if j < at {
                        } else {
                            assert(self@[at as int].name != self@[j].name);
                        }
                    }
                }
                return Some(operation);
            }
            at += 1;
        }
        None
    }
}

impl Schema {
    /// Derives the operation on the table and one operation for each
    /// index, and collects them.
    pub fn operations(&self) -> (accessors: Accessors)
        ensures
            accessors@ == operations_of(self@),
    {
        proof {
            use_type_invariant(self);
            lemma_operations_are_valid(self@);
        }
        let ghost schema = self@;
        let table_name = self.table_name();
        let primary = self.primary();
        let indexes = self.indexes();
        let mut operations: Vec<Operation> = Vec::new();
        operations.push(get_queries(table_name, &None, &primary.partition_key, &primary.sort_key));
        let mut at: usize = 0;
        while at < indexes.len()
            invariant
                at <= indexes.len(),
                schema.table_name == table_name@,
                schema.indexes == index_views(indexes@),
                operation_views(operations@) == operations_of(schema).take(at + 1),
            decreases indexes.len() - at,
        {
            let index = &indexes[at];
            let name = Some(index.name.clone());
            let operation = get_queries(
                table_name,
                &name,
                &index.keys.partition_key,
                &index.keys.sort_key,
            );
            let ghost before = operation_views(operations@);
            proof {
                assert(schema.indexes[at as int] == index@);
                assert(operation@ == operations_of(schema)[at + 1]);
            }
            operations.push(operation);
            at += 1;
            proof {
                assert(operation_views(operations@) =~= before.push(operation@));
                assert(before.push(operation@) =~= operations_of(schema).take(at + 1));
            }
        }
        proof {
            assert(operations_of(schema).take(at + 1) =~= operations_of(schema));
        }
        Accessors { operations }
    }
}

/// Reads the entries attached to a record type and derives its accessors:
/// the operation on the table and one for each declared index. Entries
/// that make no schema give no operation at all.
pub fn dynamodb_read(entries: &Vec<Entry>) -> (result: Result<Accessors, ConfigurationError>)
    ensures
        result is Ok <==> accepted(declared_by(entries@)),
        match result {
            Ok(accessors) => accessors@ == operations_of(schema_of(declared_by(entries@))),
            Err(error) => rejected_with(declared_by(entries@), error),
        },
{
    match Schema::parse(entries) {
        Ok(schema) => Ok(schema.operations()),
        Err(error) => Err(error),
    }
}

} // verus!
