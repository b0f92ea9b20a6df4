//! Query operations: one per key shape, and the request each call makes.

use vstd::prelude::*;
use vstd::string::*;
use crate::naming::{derive_operation_name, operation_name};
use crate::key::{KeySpec, KeySpecView};
use crate::text::clone_text;

verus! {

/// Placeholder that stands for the partition-key attribute in an expression.
pub const PARTITION_NAME: &'static str = "#pk";

/// Placeholder that stands for the partition-key value in an expression.
pub const PARTITION_VALUE: &'static str = ":pk";

/// Placeholder that stands for the sort-key attribute in an expression.
pub const SORT_NAME: &'static str = "#sk";

/// Placeholder that stands for the sort-key prefix in an expression.
pub const SORT_VALUE: &'static str = ":sk";

/// Key condition that matches the partition key alone.
pub const PARTITION_EXPRESSION: &'static str = "#pk = :pk";

/// Key condition that matches the partition key and a sort-key prefix.
pub const SORT_EXPRESSION: &'static str = "#pk = :pk and begins_with(#sk, :sk)";

/// The conditions an operation can put to the store.
#[derive(Debug, Clone, Copy, PartialEq, Eq, Structural)]
pub enum ConditionShape {
    /// Equality on the partition key, and nothing else.
    PartitionOnly,
    /// Equality on the partition key, and a prefix of the sort key where
    /// the caller gives one.
    PartitionAndOptionalSortPrefix,
}

/// Why a call of an operation is refused.
#[derive(Debug, Clone, Copy, PartialEq, Eq, Structural)]
pub enum CallError {
    /// A sort-key value was given to an operation whose key has no sort key.
    SortKeyNotAccepted,
}

/// The message that goes with a refused call.
pub open spec fn call_error_message(error: CallError) -> Seq<char> {
    match error {
        CallError::SortKeyNotAccepted => "sort-key value given to an operation whose key has no sort key"@,
    }
}

impl CallError {
    /// Says why the call is refused.
    pub fn description(&self) -> (text: &'static str)
        ensures
            text@ == call_error_message(*self),
    {
        match self {
            CallError::SortKeyNotAccepted => "sort-key value given to an operation whose key has no sort key",
        }
    }
}

/// The shape that goes with a key: it depends on the sort key alone.
pub open spec fn shape_for(sort_key: Option<Seq<char>>) -> ConditionShape {
    if sort_key is Some {
        ConditionShape::PartitionAndOptionalSortPrefix
    } else {
        ConditionShape::PartitionOnly
    }
}

/// How many key values a call with that shape may give: the partition-key
/// value, and after it the sort-key value where the shape has one.
pub open spec fn key_arguments_of(shape: ConditionShape) -> nat {
    match shape {
        ConditionShape::PartitionOnly => 1,
        ConditionShape::PartitionAndOptionalSortPrefix => 2,
    }
}

/// A query operation on a table or on one of its secondary indexes.
#[derive(Debug, PartialEq, Eq)]
pub struct Operation {
    name: String,
    table_name: String,
    index_qualifier: Option<String>,
    keys: KeySpec,
    condition_shape: ConditionShape,
}

/// An [`Operation`] as the contracts see it.
pub struct OperationView {
    pub name: Seq<char>,
    pub table_name: Seq<char>,
    pub index_qualifier: Option<Seq<char>>,
    pub keys: KeySpecView,
    pub condition_shape: ConditionShape,
}

impl View for Operation {
    type V = OperationView;

    closed spec fn view(&self) -> OperationView {
        OperationView {
            name: self.name@,
            table_name: self.table_name@,
            index_qualifier: self.index_qualifier.deep_view(),
            keys: self.keys@,
            condition_shape: self.condition_shape,
        }
    }
}

/// The operation that queries `table_name`, through the index
/// `index` where one is given, by the key `keys`.
pub open spec fn operation_for(
    table_name: Seq<char>,
    index: Option<Seq<char>>,
    keys: KeySpecView,
) -> OperationView {
    OperationView {
        name: operation_name(index),
        table_name,
        index_qualifier: index,
        keys,
        condition_shape: shape_for(keys.sort_key),
    }
}

/// Every operation is the one derived from its own table, index and key.
pub open spec fn operation_derived(operation: OperationView) -> bool {
    operation == operation_for(operation.table_name, operation.index_qualifier, operation.keys)
}

/// The condition of one call.
#[derive(Debug, PartialEq, Eq)]
pub enum Condition<V> {
    /// `attribute` equals `value`.
    PartitionEquals { attribute: String, value: V },
    /// `attribute` equals `value`, and `sort_attribute` begins with `prefix`.
    PartitionEqualsAndSortBeginsWith {
        attribute: String,
        value: V,
        sort_attribute: String,
        prefix: V,
    },
}

/// A [`Condition`] as the contracts see it.
pub enum ConditionView<V> {
    PartitionEquals { attribute: Seq<char>, value: V },
    PartitionEqualsAndSortBeginsWith {
        attribute: Seq<char>,
        value: V,
        sort_attribute: Seq<char>,
        prefix: V,
    },
}

impl<V> View for Condition<V> {
    type V = ConditionView<V>;

    open spec fn view(&self) -> ConditionView<V> {
        match self {
            Condition::PartitionEquals { attribute, value } => ConditionView::PartitionEquals {
                attribute: attribute@,
                value: *value,
            },
            Condition::PartitionEqualsAndSortBeginsWith {
                attribute,
                value,
                sort_attribute,
                prefix,
            } => ConditionView::PartitionEqualsAndSortBeginsWith {
                attribute: attribute@,
                value: *value,
                sort_attribute: sort_attribute@,
                prefix: *prefix,
            },
        }
    }
}

/// A placeholder of an expression and the attribute name it stands for.
#[derive(Debug, PartialEq, Eq)]
pub struct NameBinding {
    pub placeholder: String,
    pub attribute: String,
}

/// A [`NameBinding`] as the contracts see it.
pub struct NameBindingView {
    pub placeholder: Seq<char>,
    pub attribute: Seq<char>,
}

impl View for NameBinding {
    type V = NameBindingView;

    open spec fn view(&self) -> NameBindingView {
        NameBindingView { placeholder: self.placeholder@, attribute: self.attribute@ }
    }
}

/// A placeholder of an expression and the value it stands for.
#[derive(Debug, PartialEq, Eq)]
pub struct ValueBinding<V> {
    pub placeholder: String,
    pub value: V,
}

/// A [`ValueBinding`] as the contracts see it.
pub struct ValueBindingView<V> {
    pub placeholder: Seq<char>,
    pub value: V,
}

impl<V> View for ValueBinding<V> {
    type V = ValueBindingView<V>;

    open spec fn view(&self) -> ValueBindingView<V> {
        ValueBindingView { placeholder: self.placeholder@, value: self.value }
    }
}

/// One key-condition query as the store takes it.
#[derive(Debug, PartialEq, Eq)]
pub struct QueryRequest<V> {
    pub table_name: String,
    pub index_name: Option<String>,
    pub key_condition_expression: String,
    pub expression_attribute_names: Vec<NameBinding>,
    pub expression_attribute_values: Vec<ValueBinding<V>>,
}

/// A [`QueryRequest`] as the contracts see it.
pub struct QueryRequestView<V> {
    pub table_name: Seq<char>,
    pub index_name: Option<Seq<char>>,
    pub key_condition_expression: Seq<char>,
    pub expression_attribute_names: Seq<NameBindingView>,
    pub expression_attribute_values: Seq<ValueBindingView<V>>,
}

impl<V> View for QueryRequest<V> {
    type V = QueryRequestView<V>;

    open spec fn view(&self) -> QueryRequestView<V> {
        QueryRequestView {
            table_name: self.table_name@,
            index_name: self.index_name.deep_view(),
            key_condition_expression: self.key_condition_expression@,
            expression_attribute_names: self.expression_attribute_names@.map_values(
                |binding: NameBinding| binding@,
            ),
            expression_attribute_values: self.expression_attribute_values@.map_values(
                |binding: ValueBinding<V>| binding@,
            ),
        }
    }
}

/// The condition of a call of `operation` with `partition_value` and,
/// where the caller gives one, `sort_value`. An operation whose key has a
/// sort key takes the call either way; one without takes no sort value.
pub open spec fn condition_for<V>(
    operation: OperationView,
    partition_value: V,
    sort_value: Option<V>,
) -> Result<ConditionView<V>, CallError> {
    match sort_value {
        None => Ok(
            ConditionView::PartitionEquals {
                attribute: operation.keys.partition_key,
                value: partition_value,
            },
        ),
        Some(prefix) => match operation.keys.sort_key {
            Some(sort_attribute) => Ok(
                ConditionView::PartitionEqualsAndSortBeginsWith {
                    attribute: operation.keys.partition_key,
                    value: partition_value,
                    sort_attribute,
                    prefix,
                },
            ),
            None => Err(CallError::SortKeyNotAccepted),
        },
    }
}

/// The request that puts `condition` to `table_name`, through `index_name`
/// where one is given: the expression, and what its placeholders stand for.
pub open spec fn request_for<V>(
    table_name: Seq<char>,
    index_name: Option<Seq<char>>,
    condition: ConditionView<V>,
) -> QueryRequestView<V> {
    match condition {
        ConditionView::PartitionEquals { attribute, value } => QueryRequestView {
            table_name,
            index_name,
            key_condition_expression: PARTITION_EXPRESSION@,
            expression_attribute_names: seq![
                NameBindingView { placeholder: PARTITION_NAME@, attribute },
            ],
            expression_attribute_values: seq![
                ValueBindingView { placeholder: PARTITION_VALUE@, value },
            ],
        },
        ConditionView::PartitionEqualsAndSortBeginsWith {
            attribute,
            value,
            sort_attribute,
            prefix,
        } => QueryRequestView {
            table_name,
            index_name,
            key_condition_expression: SORT_EXPRESSION@,
            expression_attribute_names: seq![
                NameBindingView { placeholder: PARTITION_NAME@, attribute },
                NameBindingView { placeholder: SORT_NAME@, attribute: sort_attribute },
            ],
            expression_attribute_values: seq![
                ValueBindingView { placeholder: PARTITION_VALUE@, value },
                ValueBindingView { placeholder: SORT_VALUE@, value: prefix },
            ],
        },
    }
}

/// The attribute that `placeholder` stands for among `bindings`: that of
/// the first binding with this placeholder.
pub open spec fn attribute_bound(bindings: Seq<NameBindingView>, placeholder: Seq<char>) -> Option<
    Seq<char>,
>
    decreases bindings.len(),
{
    if bindings.len() == 0 {
        None
    } else if bindings.first().placeholder == placeholder {
        Some(bindings.first().attribute)
    } else {
        attribute_bound(bindings.drop_first(), placeholder)
    }
}

/// The value that `placeholder` stands for among `bindings`: that of the
/// first binding with this placeholder.
pub open spec fn value_bound<V>(bindings: Seq<ValueBindingView<V>>, placeholder: Seq<char>) -> Option<
    V,
>
    decreases bindings.len(),
{
    if bindings.len() == 0 {
        None
    } else if bindings.first().placeholder == placeholder {
        Some(bindings.first().value)
    } else {
        value_bound(bindings.drop_first(), placeholder)
    }
}

/// The condition that a request puts to the store, read from its
/// expression with every placeholder resolved; `None` where the expression
/// is neither of the two this crate writes, or a placeholder is unbound.
pub open spec fn condition_in<V>(request: QueryRequestView<V>) -> Option<ConditionView<V>> {
    let names = request.expression_attribute_names;
    let values = request.expression_attribute_values;
    let attribute = attribute_bound(names, PARTITION_NAME@);
    let value = value_bound(values, PARTITION_VALUE@);
    let sort_attribute = attribute_bound(names, SORT_NAME@);
    let prefix = value_bound(values, SORT_VALUE@);
    if request.key_condition_expression == PARTITION_EXPRESSION@ {
        if attribute is Some && value is Some {
            Some(ConditionView::PartitionEquals { attribute: attribute->0, value: value->0 })
        } else {
            None
        }
    } else if request.key_condition_expression == SORT_EXPRESSION@ {
        if attribute is Some && value is Some && sort_attribute is Some && prefix is Some {
            Some(
                ConditionView::PartitionEqualsAndSortBeginsWith {
                    attribute: attribute->0,
                    value: value->0,
                    sort_attribute: sort_attribute->0,
                    prefix: prefix->0,
                },
            )
        } else {
            None
        }
    } else {
        None
    }
}

/// Derives the operation that queries `table_name`, through `index` where
/// one is given, by the partition key and the optional sort key.
pub fn get_queries(
    table_name: &String,
    index: &Option<String>,
    partition_key: &String,
    sort_key: &Option<String>,
) -> (operation: Operation)
    ensures
        operation@ == operation_for(
            table_name@,
            index.deep_view(),
            KeySpecView { partition_key: partition_key@, sort_key: sort_key.deep_view() },
        ),
{
    let name = derive_operation_name(index);
    let condition_shape = if sort_key.is_some() {
        ConditionShape::PartitionAndOptionalSortPrefix
    } else {
        ConditionShape::PartitionOnly
    };
    Operation {
        name,
        table_name: table_name.clone(),
        index_qualifier: clone_text(index),
        keys: KeySpec { partition_key: partition_key.clone(), sort_key: clone_text(sort_key) },
        condition_shape,
    }
}

impl Operation {
    /// Every operation is derived: its name and its shape follow from its
    /// index and its key.
    #[verifier::type_invariant]
    pub open spec fn derived(self) -> bool {
        operation_derived(self@)
    }

    /// The name under which the operation is called.
    pub fn name(&self) -> (name: &String)
        ensures
            name@ == self@.name,
            name@ == operation_name(self@.index_qualifier),
    {
        proof {
            use_type_invariant(self);
        }
        &self.name
    }

    /// The table that the operation queries.
    pub fn table_name(&self) -> (table_name: &String)
        ensures
            table_name@ == self@.table_name,
    {
        &self.table_name
    }

    /// The index that the operation queries through, `None` for the table.
    pub fn index_qualifier(&self) -> (index: &Option<String>)
        ensures
            index.deep_view() == self@.index_qualifier,
    {
        &self.index_qualifier
    }

    /// The key that the operation queries by.
    pub fn keys(&self) -> (keys: &KeySpec)
        ensures
            keys@ == self@.keys,
    {
        &self.keys
    }

    /// The conditions that the operation can put to the store.
    pub fn condition_shape(&self) -> (shape: ConditionShape)
        ensures
            shape == self@.condition_shape,
            shape == shape_for(self@.keys.sort_key),
    {
        proof {
            use_type_invariant(self);
        }
        self.condition_shape
    }

    /// How many key values a call may give: one where the key has no sort
    /// key, else two, of which the second may be left out.
    pub fn key_arguments(&self) -> (count: usize)
        ensures
            count == key_arguments_of(shape_for(self@.keys.sort_key)),
    {
        proof {
            use_type_invariant(self);
        }
        match self.condition_shape {
            ConditionShape::PartitionOnly => 1,
            ConditionShape::PartitionAndOptionalSortPrefix => 2,
        }
    }

    /// The condition of one call: equality on the partition key, joined
    /// with a prefix match on the sort key where `sort_value` is given.
    /// A sort value for a key without a sort key is refused.
    pub fn condition<V>(&self, partition_value: V, sort_value: Option<V>) -> (result: Result<
        Condition<V>,
        CallError,
    >)
        ensures
            match result {
                Ok(condition) => condition_for(self@, partition_value, sort_value) == Ok::<
                    ConditionView<V>,
                    CallError,
                >(condition@),
                Err(error) => condition_for(self@, partition_value, sort_value) == Err::<
                    ConditionView<V>,
                    CallError,
                >(error),
            },
    {
        match sort_value {
            None => Ok(
                Condition::PartitionEquals {
                    attribute: self.keys.partition_key.clone(),
                    value: partition_value,
                },
            ),
            Some(prefix) => match &self.keys.sort_key {
                Some(sort_attribute) => Ok(
                    Condition::PartitionEqualsAndSortBeginsWith {
                        attribute: self.keys.partition_key.clone(),
                        value: partition_value,
                        sort_attribute: sort_attribute.clone(),
                        prefix,
                    },
                ),
                None => Err(CallError::SortKeyNotAccepted),
            },
        }
    }

    /// The request of one call: the table and index of the operation, and
    /// the condition of the call written as a key-condition expression.
    pub fn request<V>(&self, partition_value: V, sort_value: Option<V>) -> (result: Result<
        QueryRequest<V>,
        CallError,
    >)
        ensures
            match result {
                Ok(request) => condition_for(self@, partition_value, sort_value) matches Ok(
                    condition,
                ) && request@ == request_for(self@.table_name, self@.index_qualifier, condition),
                Err(error) => condition_for(self@, partition_value, sort_value) == Err::<
                    ConditionView<V>,
                    CallError,
                >(error),
            },
    {
        match self.condition(partition_value, sort_value) {
            Ok(condition) => Ok(
                QueryRequest::new(
                    self.table_name.clone(),
                    clone_text(&self.index_qualifier),
                    condition,
                ),
            ),
            Err(error) => Err(error),
        }
    }
}

impl<V> QueryRequest<V> {
    /// Writes `condition` as a request to `table_name`, through
    /// `index_name` where one is given.
    pub fn new(table_name: String, index_name: Option<String>, condition: Condition<V>) -> (request:
        QueryRequest<V>)
        ensures
            request@ == request_for(table_name@, index_name.deep_view(), condition@),
    {
        let mut names: Vec<NameBinding> = Vec::new();
        let mut values: Vec<ValueBinding<V>> = Vec::new();
        let expression = match condition {
            Condition::PartitionEquals { attribute, value } => {
                names.push(NameBinding { placeholder: String::from_str(PARTITION_NAME), attribute });
                values.push(ValueBinding { placeholder: String::from_str(PARTITION_VALUE), value });
                String::from_str(PARTITION_EXPRESSION)
            },
            Condition::PartitionEqualsAndSortBeginsWith {
                attribute,
                value,
                sort_attribute,
                prefix,
            } => {
                names.push(NameBinding { placeholder: String::from_str(PARTITION_NAME), attribute });
                names.push(
                    NameBinding {
                        placeholder: String::from_str(SORT_NAME),
                        attribute: sort_attribute,
                    },
                );
                values.push(ValueBinding { placeholder: String::from_str(PARTITION_VALUE), value });
                values.push(
                    ValueBinding { placeholder: String::from_str(SORT_VALUE), value: prefix },
                );
                String::from_str(SORT_EXPRESSION)
            },
        };
        let request = QueryRequest {
            table_name,
            index_name,
            key_condition_expression: expression,
            expression_attribute_names: names,
            expression_attribute_values: values,
        };
        proof {
            let expected = request_for(table_name@, index_name.deep_view(), condition@);
            assert(request@.expression_attribute_names =~= expected.expression_attribute_names);
            assert(request@.expression_attribute_values =~= expected.expression_attribute_values);
        }
        request
    }
}

} // verus!
