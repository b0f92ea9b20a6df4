use model_derive::entry::{Declaration, Entry, Field};
use model_derive::fault::Fault;
use model_derive::key::KeySpec;

fn entry(fields: &[(&str, &str)]) -> Entry {
    Entry::new(fields.iter().map(|(name, value)| Field::new(name, value)).collect())
}

#[test]
fn field_holds_name_and_text() {
    let field = Field::new("table", "Orders");
    assert_eq!(field.name, "table");
    assert_eq!(field.value, Some("Orders".to_string()));
    assert!(field.is_recognized());
}

#[test]
fn field_with_unknown_name_is_not_recognized() {
    assert!(!Field::new("tabel", "Orders").is_recognized());
    assert!(!Field::new("Table", "Orders").is_recognized());
    assert!(!Field::new("", "Orders").is_recognized());
}

#[test]
fn field_without_text_is_not_recognized() {
    let field = Field::without_text("pk");
    assert_eq!(field.value, None);
    assert!(!field.is_recognized());
}

#[test]
fn lookup_finds_the_value_of_a_name() {
    let e = entry(&[("table", "Orders"), ("pk", "customerId"), ("sk", "orderId")]);
    assert_eq!(e.lookup("table"), Some("Orders".to_string()));
    assert_eq!(e.lookup("pk"), Some("customerId".to_string()));
    assert_eq!(e.lookup("sk"), Some("orderId".to_string()));
    assert_eq!(e.lookup("index"), None);
}

#[test]
fn lookup_takes_the_last_of_several() {
    let e = entry(&[("pk", "first"), ("index", "i"), ("pk", "second")]);
    assert_eq!(e.lookup("pk"), Some("second".to_string()));
}

#[test]
fn lookup_in_an_empty_entry_finds_nothing() {
    assert_eq!(entry(&[]).lookup("pk"), None);
}

#[test]
fn entry_with_table_is_the_primary_declaration() {
    let e = entry(&[("table", "Orders"), ("pk", "customerId"), ("sk", "orderId")]);
    assert_eq!(
        e.declaration(),
        Ok(Declaration::Primary {
            table_name: "Orders".to_string(),
            keys: KeySpec::new("customerId", Some("orderId")),
        })
    );
}

#[test]
fn entry_with_index_declares_an_index() {
    let e = entry(&[("index", "status-index"), ("pk", "status")]);
    assert_eq!(
        e.declaration(),
        Ok(Declaration::Index { name: "status-index".to_string(), keys: KeySpec::new("status", None) })
    );
}

#[test]
fn entry_with_table_and_index_is_the_primary_declaration() {
    let e = entry(&[("index", "other"), ("table", "Orders"), ("pk", "customerId")]);
    assert_eq!(
        e.declaration(),
        Ok(Declaration::Primary {
            table_name: "Orders".to_string(),
            keys: KeySpec::new("customerId", None),
        })
    );
}

#[test]
fn fields_may_come_in_any_order() {
    let e = entry(&[("sk", "orderId"), ("pk", "customerId"), ("table", "Orders")]);
    assert_eq!(
        e.declaration(),
        Ok(Declaration::Primary {
            table_name: "Orders".to_string(),
            keys: KeySpec::new("customerId", Some("orderId")),
        })
    );
}

#[test]
fn unknown_field_name_is_refused() {
    let e = entry(&[("table", "Orders"), ("pk", "customerId"), ("ttl", "expires")]);
    assert_eq!(e.declaration(), Err(Fault::UnrecognizedField));
}

#[test]
fn value_that_is_no_string_is_refused() {
    let e = Entry::new(vec![Field::new("table", "Orders"), Field::without_text("pk")]);
    assert_eq!(e.declaration(), Err(Fault::UnrecognizedField));
}

#[test]
fn entry_without_table_and_index_is_refused() {
    assert_eq!(entry(&[("pk", "customerId")]).declaration(), Err(Fault::UnrecognizedShape));
    assert_eq!(entry(&[]).declaration(), Err(Fault::UnrecognizedShape));
}

#[test]
fn empty_table_name_is_refused() {
    assert_eq!(entry(&[("table", ""), ("pk", "id")]).declaration(), Err(Fault::EmptyTableName));
}

#[test]
fn missing_partition_key_is_refused() {
    assert_eq!(entry(&[("index", "by-status")]).declaration(), Err(Fault::MissingPartitionKey));
    assert_eq!(
        entry(&[("table", "Orders"), ("sk", "orderId")]).declaration(),
        Err(Fault::MissingPartitionKey)
    );
}

#[test]
fn empty_partition_key_is_refused() {
    assert_eq!(
        entry(&[("index", "by-status"), ("pk", "")]).declaration(),
        Err(Fault::EmptyPartitionKey)
    );
}

#[test]
fn sort_key_equal_to_partition_key_is_refused() {
    assert_eq!(
        entry(&[("index", "by-status"), ("pk", "status"), ("sk", "status")]).declaration(),
        Err(Fault::SortKeyIsPartitionKey)
    );
}

#[test]
fn unknown_field_is_reported_before_other_faults() {
    assert_eq!(entry(&[("color", "red")]).declaration(), Err(Fault::UnrecognizedField));
    assert_eq!(
        entry(&[("table", ""), ("color", "red")]).declaration(),
        Err(Fault::UnrecognizedField)
    );
}

#[test]
fn keys_of_an_entry_are_read_alone() {
    assert_eq!(entry(&[("pk", "a"), ("sk", "b")]).keys(), Ok(KeySpec::new("a", Some("b"))));
    assert_eq!(entry(&[("sk", "b")]).keys(), Err(Fault::MissingPartitionKey));
}

#[test]
fn key_faults() {
    assert_eq!(KeySpec::new("a", None).fault(), None);
    assert_eq!(KeySpec::new("a", Some("b")).fault(), None);
    assert_eq!(KeySpec::new("a", Some("")).fault(), None);
    assert_eq!(KeySpec::new("", None).fault(), Some(Fault::EmptyPartitionKey));
    assert_eq!(KeySpec::new("", Some("")).fault(), Some(Fault::EmptyPartitionKey));
    assert_eq!(KeySpec::new("a", Some("a")).fault(), Some(Fault::SortKeyIsPartitionKey));
}

#[test]
fn key_copy_equals_the_key() {
    let keys = KeySpec::new("a", Some("b"));
    assert_eq!(keys.clone(), keys);
}

#[test]
fn every_fault_has_its_own_description() {
    let faults = [
        Fault::UnrecognizedField,
        Fault::UnrecognizedShape,
        Fault::EmptyTableName,
        Fault::MissingPartitionKey,
        Fault::EmptyPartitionKey,
        Fault::SortKeyIsPartitionKey,
        Fault::DuplicateTable,
        Fault::NameCollision,
    ];
    for (i, a) in faults.iter().enumerate() {
        assert!(!a.description().is_empty());
        for b in faults.iter().skip(i + 1) {
            assert_ne!(a.description(), b.description());
        }
    }
    assert_eq!(Fault::EmptyTableName.description(), "table name is empty");
}
