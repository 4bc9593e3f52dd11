use available_range::pipelines::collect_pipelines;
use available_range::string_set::StringSet;

fn test_collect_pipelines(
    type_: &str,
    field: Option<&str>,
    filters: StringSet,
) -> StringSet {
    let mut pipelines = StringSet::new();
    collect_pipelines(type_, field, filters, &mut pipelines);
    pipelines
}

#[test]
fn test_address_as_object() {
    let result = test_collect_pipelines("Address", Some("asObject"), StringSet::new());
    assert!(result.contains("obj_versions"));
}

#[test]
fn test_address_transactions() {
    let result = test_collect_pipelines("Address", Some("transactions"), StringSet::new());
    assert!(result.contains("tx_digests"));
    assert!(result.contains("tx_affected_addresses"));
}

#[test]
fn test_address_consistent_fields() {
    let result = test_collect_pipelines("Address", Some("balance"), StringSet::new());
    assert!(result.contains("consistent"));
}

#[test]
fn test_address_other_fields() {
    let result = test_collect_pipelines("Address", Some("defaultSuinsName"), StringSet::new());
    assert!(result.is_empty());
}

#[test]
fn test_checkpoint_transactions() {
    let result = test_collect_pipelines("Checkpoint", Some("transactions"), StringSet::new());
    assert!(result.contains("cp_sequence_numbers"));
    assert!(result.contains("tx_digests"));
}

#[test]
fn test_coin_metadata() {
    let result = test_collect_pipelines("CoinMetadata", Some("balance"), StringSet::new());
    assert!(result.contains("consistent"));
}

#[test]
fn test_epoch_checkpoints() {
    let result = test_collect_pipelines("Epoch", Some("checkpoints"), StringSet::new());
    assert!(result.contains("cp_sequence_numbers"));
}

#[test]
fn test_event() {
    let result = test_collect_pipelines("Event", Some("transaction"), StringSet::new());
    assert!(result.contains("ev_struct_inst"));
    assert!(result.contains("tx_digests"));
}

#[test]
fn test_iobject_received_transactions() {
    let result =
        test_collect_pipelines("IObject", Some("receivedTransactions"), StringSet::new());
    assert!(result.contains("tx_digests"));
    assert!(result.contains("tx_affected_addresses"));
}

#[test]
fn test_move_package() {
    let result = test_collect_pipelines("MovePackage", Some("balance"), StringSet::new());
    assert!(result.contains("consistent"));
}

#[test]
fn test_query_address() {
    let result = test_collect_pipelines("Query", Some("address"), StringSet::new());
    assert!(result.is_empty());
}

#[test]
fn test_query_checkpoints() {
    let result = test_collect_pipelines("Query", Some("checkpoints"), StringSet::new());
    assert!(result.contains("cp_sequence_numbers"));
}

#[test]
fn test_query_coin_metadata() {
    let result = test_collect_pipelines("Query", Some("coinMetadata"), StringSet::new());
    assert!(result.contains("consistent"));
}

#[test]
fn test_query_events_no_filters() {
    let result = test_collect_pipelines("Query", Some("events"), StringSet::new());
    assert!(result.contains("tx_digests"));
    assert!(result.contains("ev_struct_inst"));
}

#[test]
fn test_query_events_with_module_and_sender_filter() {
    let result = test_collect_pipelines(
        "Query",
        Some("events"),
        StringSet::from_vec(vec!["module".to_string(), "sender".to_string()]),
    );
    assert!(result.contains("tx_digests"));
    assert!(result.contains("ev_emit_mod"));
}

#[test]
fn test_query_events_with_sender_filter() {
    let result = test_collect_pipelines(
        "Query",
        Some("events"),
        StringSet::from_vec(vec!["sender".to_string()]),
    );
    assert!(result.contains("tx_digests"));
    assert!(result.contains("ev_struct_inst"));
}

#[test]
fn test_query_objects() {
    let result = test_collect_pipelines("Query", Some("objects"), StringSet::new());
    assert!(result.contains("consistent"));
}

#[test]
fn test_query_transactions_no_filters() {
    let result = test_collect_pipelines("Query", Some("transactions"), StringSet::new());
    assert!(result.contains("tx_digests"));
}

#[test]
fn test_query_transactions_kind_filter() {
    let result = test_collect_pipelines(
        "Query",
        Some("transactions"),
        StringSet::from_vec(vec!["kind".to_string()]),
    );
    assert!(result.contains("tx_digests"));
    assert!(result.contains("tx_kinds"));
}

#[test]
fn test_query_transactions_multiple_filters() {
    let result = test_collect_pipelines(
        "Query",
        Some("transactions"),
        StringSet::from_vec(vec![
            "kind".to_string(),
            "sentAddress".to_string(),
            "atCheckpoint".to_string(),
        ]),
    );
    assert!(result.contains("tx_digests"));
    assert!(result.contains("tx_affected_addresses"));
    assert!(result.contains("cp_sequence_numbers"));
}

#[test]
fn test_transaction_effects_balance_changes() {
    let result = test_collect_pipelines(
        "TransactionEffects",
        Some("balanceChanges"),
        StringSet::new(),
    );
    assert!(result.contains("tx_balance_changes"));
    assert!(result.contains("tx_digests"));
}

#[test]
fn test_catch_all() {
    let invalid: StringSet =
        test_collect_pipelines("UnknownType", Some("field"), StringSet::new());
    assert!(invalid.is_empty());
    let valid: StringSet =
        test_collect_pipelines("Address", Some("digests"), StringSet::new());
    assert!(valid.is_empty());
}
