use model_derive::accessor::dynamodb_read;
use model_derive::entry::{Entry, Field};
use model_derive::fault::{ConfigurationError, Fault};
use model_derive::key::KeySpec;
use model_derive::query::{CallError, ConditionShape, NameBinding, ValueBinding};
use model_derive::schema::Schema;

fn entry(fields: &[(&str, &str)]) -> Entry {
    Entry::new(fields.iter().map(|(name, value)| Field::new(name, value)).collect())
}

fn text(value: &str) -> String {
    value.to_string()
}

#[test]
fn schema_without_indexes_has_the_one_operation_query() {
    let accessors = dynamodb_read(&vec![entry(&[("table", "Users"), ("pk", "id")])]).unwrap();
    assert_eq!(accessors.len(), 1);
    assert_eq!(accessors.primary().name(), "query");
    assert_eq!(accessors.get(0).unwrap().name(), "query");
    assert!(accessors.get(1).is_none());
}

#[test]
fn schema_with_indexes_has_one_operation_more() {
    let accessors = dynamodb_read(&vec![
        entry(&[("table", "Users"), ("pk", "id")]),
        entry(&[("index", "by-mail"), ("pk", "mail")]),
        entry(&[("index", "by-name"), ("pk", "family"), ("sk", "given")]),
        entry(&[("index", "ByCity"), ("pk", "city")]),
    ])
    .unwrap();
    assert_eq!(accessors.len(), 4);
    let names: Vec<String> =
        (0..4).map(|position| accessors.get(position).unwrap().name().clone()).collect();
    assert_eq!(names, ["query", "query_by_mail", "query_by_name", "query_bycity"]);
    for name in &names {
        assert_eq!(accessors.find(name).unwrap().name(), name);
    }
}

#[test]
fn operation_is_found_by_its_name_only() {
    let accessors = dynamodb_read(&vec![
        entry(&[("index", "by-mail"), ("pk", "mail")]),
        entry(&[("table", "Users"), ("pk", "id")]),
    ])
    .unwrap();
    let found = accessors.find("query_by_mail").unwrap();
    assert_eq!(found.index_qualifier(), &Some(text("by-mail")));
    assert_eq!(found.table_name(), "Users");
    assert!(accessors.find("by-mail").is_none());
    assert!(accessors.find("query_by-mail").is_none());
    assert!(accessors.find("").is_none());
}

#[test]
fn table_operation_comes_first_wherever_the_table_is_declared() {
    let accessors = dynamodb_read(&vec![
        entry(&[("index", "by-mail"), ("pk", "mail")]),
        entry(&[("table", "Users"), ("pk", "id")]),
    ])
    .unwrap();
    assert_eq!(accessors.primary().index_qualifier(), &None);
    assert_eq!(accessors.primary().keys(), &KeySpec::new("id", None));
    assert_eq!(accessors.get(1).unwrap().name(), "query_by_mail");
}

#[test]
fn missing_table_gives_no_operation() {
    let entries = vec![entry(&[("index", "by-mail"), ("pk", "mail")])];
    assert_eq!(dynamodb_read(&entries), Err(ConfigurationError::MissingTable));
}

#[test]
fn faulty_entry_gives_no_operation() {
    let entries = vec![
        entry(&[("table", "Users"), ("pk", "id")]),
        entry(&[("index", "by-mail"), ("pk", "mail")]),
        entry(&[("index", "by-name")]),
    ];
    assert_eq!(
        dynamodb_read(&entries),
        Err(ConfigurationError::InvalidEntry { entry: 2, fault: Fault::MissingPartitionKey })
    );
}

#[test]
fn operations_of_a_built_schema_are_those_of_the_read_one() {
    let built = Schema::new(text("Users"), KeySpec::new("id", None))
        .unwrap()
        .with_index(text("by-mail"), KeySpec::new("mail", None))
        .unwrap()
        .operations();
    let read = dynamodb_read(&vec![
        entry(&[("table", "Users"), ("pk", "id")]),
        entry(&[("index", "by-mail"), ("pk", "mail")]),
    ])
    .unwrap();
    assert_eq!(built, read);
}

#[test]
fn orders_with_a_status_index() {
    let accessors = dynamodb_read(&vec![
        entry(&[("table", "Orders"), ("pk", "customerId"), ("sk", "orderId")]),
        entry(&[("index", "status-index"), ("pk", "status")]),
    ])
    .unwrap();
    assert_eq!(accessors.len(), 2);

    let query = accessors.find("query").unwrap();
    assert_eq!(query.condition_shape(), ConditionShape::PartitionAndOptionalSortPrefix);
    assert_eq!(query.key_arguments(), 2);
    let request = query.request("c1", Some("ORD-2024")).unwrap();
    assert_eq!(request.table_name, "Orders");
    assert_eq!(request.index_name, None);
    assert_eq!(request.key_condition_expression, "#pk = :pk and begins_with(#sk, :sk)");
    assert_eq!(
        request.expression_attribute_names,
        vec![
            NameBinding { placeholder: text("#pk"), attribute: text("customerId") },
            NameBinding { placeholder: text("#sk"), attribute: text("orderId") },
        ]
    );
    assert_eq!(
        request.expression_attribute_values,
        vec![
            ValueBinding { placeholder: text(":pk"), value: "c1" },
            ValueBinding { placeholder: text(":sk"), value: "ORD-2024" },
        ]
    );

    let by_status = accessors.find("query_status_index").unwrap();
    assert_eq!(by_status.condition_shape(), ConditionShape::PartitionOnly);
    assert_eq!(by_status.key_arguments(), 1);
    let request = by_status.request("SHIPPED", None).unwrap();
    assert_eq!(request.table_name, "Orders");
    assert_eq!(request.index_name, Some(text("status-index")));
    assert_eq!(request.key_condition_expression, "#pk = :pk");
    assert_eq!(
        request.expression_attribute_names,
        vec![NameBinding { placeholder: text("#pk"), attribute: text("status") }]
    );
    assert_eq!(
        request.expression_attribute_values,
        vec![ValueBinding { placeholder: text(":pk"), value: "SHIPPED" }]
    );
    assert_eq!(by_status.request("SHIPPED", Some("x")), Err(CallError::SortKeyNotAccepted));
}
