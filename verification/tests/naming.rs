use model_derive::naming::{
    derive_operation_name, index_operation_name, name_index_operation, INDEX_PREFIX, PRIMARY_NAME,
};

#[test]
fn index_name_is_lowered_and_dashes_become_underscores() {
    let name = derive_operation_name(&Some("By-Status".to_string()));
    assert_eq!(name, "query_by_status");
}

#[test]
fn table_operation_is_called_query() {
    assert_eq!(derive_operation_name(&None), "query");
    assert_eq!(PRIMARY_NAME, "query");
    assert_eq!(INDEX_PREFIX, "query_");
}

#[test]
fn every_dash_is_replaced() {
    assert_eq!(name_index_operation("a-b--c-"), "query_a_b__c_");
    assert_eq!(name_index_operation("-"), "query__");
}

#[test]
fn name_without_dash_or_capital_is_kept() {
    assert_eq!(name_index_operation("status_index2"), "query_status_index2");
}

#[test]
fn empty_index_name_gives_the_bare_prefix() {
    assert_eq!(name_index_operation(""), "query_");
}

#[test]
fn lowering_follows_unicode() {
    assert_eq!(name_index_operation("ÄRGER-Über"), "query_ärger_über");
}

#[test]
fn naming_from_a_lowered_name_changes_dashes_only() {
    assert_eq!(index_operation_name("by-status"), "query_by_status");
    assert_eq!(index_operation_name("By-Status"), "query_By_Status");
}

#[test]
fn index_names_that_differ_in_case_or_dash_collide() {
    assert_eq!(name_index_operation("By-Status"), name_index_operation("by_status"));
}

#[test]
fn no_index_operation_is_called_like_the_table_operation() {
    for index in ["", "query", "-", "Q"] {
        assert_ne!(name_index_operation(index), "query");
    }
}
