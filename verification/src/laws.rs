//! What holds of every declaration, schema and operation.

use vstd::prelude::*;
use crate::accessor::{accessors_valid, distinct_names, lemma_operations_are_valid, operations_of};
use crate::naming::{normalized, operation_name};
use crate::query::{
    attribute_bound, condition_for, condition_in, key_arguments_of, request_for, value_bound,
    CallError, ConditionShape, ConditionView, QueryRequestView,
};
use crate::entry::FieldView;
use crate::fault::ConfigurationError;
use crate::schema::{
    accepted, entry_fault, faultless, indexes_of, lemma_accepted_schema_is_valid, primary_of,
    rejected_with, schema_of, schema_valid, SchemaView,
};
use crate::text::{lemma_replaced_leaves_none, lowercase, replaced};

verus! {

/// Where the primary key has no sort key, the operation on the table takes
/// one key value: its shape has the partition key alone, and a call that
/// gives a sort value is refused whatever the two values are.
pub proof fn law_table_without_sort_key_takes_one_key<V>(
    schema: SchemaView,
    partition_value: V,
    sort_value: V,
)
    requires
        schema_valid(schema),
        schema.primary.sort_key is None,
    ensures
        operations_of(schema)[0].condition_shape == ConditionShape::PartitionOnly,
        key_arguments_of(operations_of(schema)[0].condition_shape) == 1,
        condition_for(operations_of(schema)[0], partition_value, Some(sort_value)) == Err::<
            ConditionView<V>,
            CallError,
        >(CallError::SortKeyNotAccepted),
{
}

/// Where the primary key has a sort key, the one operation on the table
/// takes both calls: without a sort value the condition is equality on the
/// partition key alone, with one it is that equality joined with a prefix
/// match on the sort key.
pub proof fn law_table_with_sort_key_takes_both_calls<V>(
    schema: SchemaView,
    partition_value: V,
    sort_value: V,
)
    requires
        schema_valid(schema),
        schema.primary.sort_key is Some,
    ensures
        operations_of(schema)[0].condition_shape == ConditionShape::PartitionAndOptionalSortPrefix,
        condition_for(operations_of(schema)[0], partition_value, None) == Ok::<
            ConditionView<V>,
            CallError,
        >(
            ConditionView::PartitionEquals {
                attribute: schema.primary.partition_key,
                value: partition_value,
            },
        ),
        condition_for(operations_of(schema)[0], partition_value, Some(sort_value)) == Ok::<
            ConditionView<V>,
            CallError,
        >(
            ConditionView::PartitionEqualsAndSortBeginsWith {
                attribute: schema.primary.partition_key,
                value: partition_value,
                sort_attribute: schema.primary.sort_key->0,
                prefix: sort_value,
            },
        ),
{
}

/// The same holds of the operation on every index: whether a call may give
/// a sort value depends on the key of that index alone.
pub proof fn law_index_calls_follow_the_index_key<V>(
    schema: SchemaView,
    position: int,
    partition_value: V,
    sort_value: V,
)
    requires
        schema_valid(schema),
        0 <= position < schema.indexes.len(),
    ensures
        operations_of(schema)[position + 1].index_qualifier == Some(schema.indexes[position].name),
        operations_of(schema)[position + 1].table_name == schema.table_name,
        condition_for(operations_of(schema)[position + 1], partition_value, None::<V>) == Ok::<
            ConditionView<V>,
            CallError,
        >(
            ConditionView::PartitionEquals {
                attribute: schema.indexes[position].keys.partition_key,
                value: partition_value,
            },
        ),
        condition_for(operations_of(schema)[position + 1], partition_value, Some(sort_value))
            == match schema.indexes[position].keys.sort_key {
            Some(sort_attribute) => Ok::<ConditionView<V>, CallError>(
                ConditionView::PartitionEqualsAndSortBeginsWith {
                    attribute: schema.indexes[position].keys.partition_key,
                    value: partition_value,
                    sort_attribute,
                    prefix: sort_value,
                },
            ),
            None => Err::<ConditionView<V>, CallError>(CallError::SortKeyNotAccepted),
        },
{
}

/// The request written for a condition puts exactly that condition to the
/// store: read back with its placeholders resolved, it is the condition
/// again, on the table and through the index it was written for.
pub proof fn law_request_states_its_condition<V>(
    table_name: Seq<char>,
    index_name: Option<Seq<char>>,
    condition: ConditionView<V>,
)
    ensures
        condition_in(request_for(table_name, index_name, condition)) == Some(condition),
        request_for(table_name, index_name, condition).table_name == table_name,
        request_for(table_name, index_name, condition).index_name == index_name,
{
    reveal_strlit("#pk");
    reveal_strlit(":pk");
    reveal_strlit("#sk");
    reveal_strlit(":sk");
    reveal_strlit("#pk = :pk");
    reveal_strlit("#pk = :pk and begins_with(#sk, :sk)");
    let request: QueryRequestView<V> = request_for(table_name, index_name, condition);
    let names = request.expression_attribute_names;
    let values = request.expression_attribute_values;
    assert("#pk"@[1] != "#sk"@[1]);
    assert(":pk"@[1] != ":sk"@[1]);
    assert("#pk = :pk"@.len() != "#pk = :pk and begins_with(#sk, :sk)"@.len());
    reveal_with_fuel(attribute_bound, 3);
    reveal_with_fuel(value_bound, 3);
    match condition {
        ConditionView::PartitionEquals { .. } => {},
        ConditionView::PartitionEqualsAndSortBeginsWith { .. } => {
            assert(names.drop_first().len() == 1);
            assert(names.drop_first().first() == names[1]);
            assert(values.drop_first().len() == 1);
            assert(values.drop_first().first() == values[1]);
        },
    }
}

/// The operation on an index is named `query_` followed by the index name
/// in lower case with every `-` replaced by `_`; so no `-` is in the name.
pub proof fn law_index_operation_name(index: Seq<char>)
    ensures
        operation_name(Some(index)) == "query_"@ + replaced(lowercase(index), '-', "_"@),
        !operation_name(Some(index)).contains('-'),
{
    reveal_strlit("query_");
    reveal_strlit("_");
    let body = normalized(index);
    let name = operation_name(Some(index));
    assert(!"_"@.contains('-'));
    lemma_replaced_leaves_none(lowercase(index), '-', "_"@);
    if name.contains('-') {
        let i = choose|i: int| 0 <= i < name.len() && name[i] == '-';
        if i >= 6 {
            assert(body[i - 6] == '-');
        }
    }
}

/// No two indexes of a schema have the same name.
pub proof fn law_index_names_are_distinct(schema: SchemaView, first: int, second: int)
    requires
        schema_valid(schema),
        0 <= first < second < schema.indexes.len(),
    ensures
        schema.indexes[first].name != schema.indexes[second].name,
{
}

/// A schema without indexes has exactly one operation, called `query`.
pub proof fn law_schema_without_indexes_has_one_operation(schema: SchemaView)
    requires
        schema_valid(schema),
        schema.indexes.len() == 0,
    ensures
        operations_of(schema).len() == 1,
        operations_of(schema)[0].name == "query"@,
        operations_of(schema)[0].index_qualifier is None,
{
}

/// A schema with `n` indexes has exactly `n + 1` operations. No two of
/// them share a name, so each can be called by its own.
pub proof fn law_one_operation_more_than_indexes(schema: SchemaView)
    requires
        schema_valid(schema),
    ensures
        operations_of(schema).len() == schema.indexes.len() + 1,
        distinct_names(operations_of(schema)),
        accessors_valid(operations_of(schema)),
{
    lemma_operations_are_valid(schema);
}

/// Entries without a table declaration make no schema, so no operation
/// comes of them, whatever else they declare.
pub proof fn law_missing_table_makes_no_schema(entries: Seq<Seq<FieldView>>)
    requires
        primary_of(entries) is None,
    ensures
        !accepted(entries),
        faultless(entries, entries.len() as int) ==> rejected_with(
            entries,
            ConfigurationError::MissingTable,
        ),
{
}

/// Entries that are refused for any reason are not accepted: a refusal
/// and a schema never come of the same entries.
pub proof fn law_refused_entries_make_no_schema(
    entries: Seq<Seq<FieldView>>,
    error: ConfigurationError,
)
    requires
        rejected_with(entries, error),
    ensures
        !accepted(entries),
{
    match error {
        ConfigurationError::MissingTable => {},
        ConfigurationError::InvalidEntry { entry, fault } => {
            assert(entry_fault(entries, entry as int) is Some);
        },
    }
}

/// Entries are refused for one reason only.
pub proof fn law_refusal_is_unique(
    entries: Seq<Seq<FieldView>>,
    first: ConfigurationError,
    second: ConfigurationError,
)
    requires
        rejected_with(entries, first),
        rejected_with(entries, second),
    ensures
        first == second,
{
    match (first, second) {
        (
            ConfigurationError::InvalidEntry { entry: a, fault: _ },
            ConfigurationError::InvalidEntry { entry: b, fault: _ },
        ) => {
            if a < b {
                assert(entry_fault(entries, a as int) is None);
            } else if b < a {
                assert(entry_fault(entries, b as int) is None);
            }
        },
        (ConfigurationError::InvalidEntry { entry, fault: _ }, ConfigurationError::MissingTable) => {
            assert(entry_fault(entries, entry as int) is None);
        },
        (ConfigurationError::MissingTable, ConfigurationError::InvalidEntry { entry, fault: _ }) => {
            assert(entry_fault(entries, entry as int) is None);
        },
        _ => {},
    }
}

/// Where one of the first `count` entries has a fault, one of them is the
/// first to have one.
pub proof fn lemma_first_fault(entries: Seq<Seq<FieldView>>, count: int) -> (position: int)
    requires
        0 <= count <= entries.len(),
        !faultless(entries, count),
    ensures
        0 <= position < count,
        faultless(entries, position),
        entry_fault(entries, position) is Some,
    decreases count,
{
    if faultless(entries, count - 1) {
        count - 1
    } else {
        lemma_first_fault(entries, count - 1)
    }
}

/// Entries that are not accepted are refused for a reason: there is always
/// an error that says why. With the two laws above, every list of entries
/// is either accepted or refused for exactly one reason.
pub proof fn law_entries_are_accepted_or_refused(entries: Seq<Seq<FieldView>>) -> (error:
    ConfigurationError)
    requires
        entries.len() <= usize::MAX,
        !accepted(entries),
    ensures
        rejected_with(entries, error),
{
    if faultless(entries, entries.len() as int) {
        ConfigurationError::MissingTable
    } else {
        let position = lemma_first_fault(entries, entries.len() as int);
        ConfigurationError::InvalidEntry {
            entry: position as usize,
            fault: entry_fault(entries, position)->0,
        }
    }
}

/// Accepted entries make as many operations as they declare indexes, and
/// one more; these are valid accessors.
pub proof fn law_accepted_entries_make_valid_accessors(entries: Seq<Seq<FieldView>>)
    requires
        accepted(entries),
    ensures
        schema_valid(schema_of(entries)),
        operations_of(schema_of(entries)).len() == indexes_of(entries).len() + 1,
        accessors_valid(operations_of(schema_of(entries))),
{
    lemma_accepted_schema_is_valid(entries);
    lemma_operations_are_valid(schema_of(entries));
}

} // verus!
