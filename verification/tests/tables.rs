use available_range::pipelines::collect_pipelines;
use available_range::string_set::StringSet;

fn strings(names: &[&str]) -> Vec<String> {
    names.iter().map(|s| s.to_string()).collect()
}

fn collected(type_: &str, field: Option<&str>, filters: &[&str]) -> Vec<String> {
    let mut pipelines = StringSet::new();
    collect_pipelines(
        type_,
        field,
        StringSet::from_vec(strings(filters)),
        &mut pipelines,
    );
    pipelines.members().clone()
}

const TYPES: [&str; 12] = [
    "Address",
    "Checkpoint",
    "CoinMetadata",
    "Epoch",
    "Event",
    "IAddressable",
    "IMoveObject",
    "IObject",
    "MovePackage",
    "Object",
    "Query",
    "TransactionEffects",
];

const FIELDS: [&str; 42] = [
    "address",
    "asMoveObject",
    "asMovePackage",
    "asObject",
    "balance",
    "balanceChanges",
    "balances",
    "checkpoints",
    "coinDenyList",
    "coinMetadata",
    "contents",
    "defaultSuinsName",
    "digest",
    "dynamicField",
    "dynamicFields",
    "dynamicObjectField",
    "eventBcs",
    "events",
    "hasPublicTransfer",
    "moveObjectBcs",
    "multiGetBalances",
    "multiGetDynamicFields",
    "multiGetDynamicObjectFields",
    "object",
    "objectAt",
    "objectBcs",
    "objectVersions",
    "objectVersionsAfter",
    "objectVersionsBefore",
    "objects",
    "owner",
    "previousTransaction",
    "receivedTransactions",
    "sender",
    "sequenceNumber",
    "storageRebate",
    "supply",
    "timestamp",
    "transaction",
    "transactionModule",
    "transactions",
    "version",
];

/// The fields of `type_` for which exactly `pipelines` are collected.
fn fields_with(type_: &str, pipelines: &[&str]) -> Vec<&'static str> {
    FIELDS
        .iter()
        .copied()
        .filter(|f| collected(type_, Some(f), &[]) == strings(pipelines))
        .collect()
}

#[test]
fn fields_behind_the_consistent_store() {
    let with = |t: &str| fields_with(t, &["consistent"]);
    assert_eq!(
        with("Address"),
        ["balance", "balances", "dynamicFields", "multiGetBalances", "objects"]
    );
    assert!(with("Checkpoint").is_empty());
    assert_eq!(
        with("CoinMetadata"),
        ["balance", "balances", "dynamicFields", "multiGetBalances", "objects", "supply"]
    );
    assert!(with("Epoch").is_empty());
    assert!(with("Event").is_empty());
    assert_eq!(
        with("IAddressable"),
        ["balance", "balances", "multiGetBalances", "objects"]
    );
    assert_eq!(with("IMoveObject"), ["dynamicFields"]);
    assert_eq!(with("IObject"), ["objects"]);
    assert_eq!(with("MovePackage"), ["balance", "balances", "multiGetBalances"]);
    assert_eq!(
        with("Object"),
        ["balance", "balances", "dynamicFields", "multiGetBalances", "objects"]
    );
    assert_eq!(with("Query"), ["coinMetadata", "objects"]);
    assert!(with("TransactionEffects").is_empty());
}

#[test]
fn fields_behind_the_object_versions() {
    let with = |t: &str| fields_with(t, &["obj_versions"]);
    assert_eq!(
        with("Address"),
        [
            "asObject",
            "dynamicField",
            "dynamicObjectField",
            "multiGetDynamicFields",
            "multiGetDynamicObjectFields"
        ]
    );
    assert!(with("Checkpoint").is_empty());
    assert_eq!(
        with("CoinMetadata"),
        ["objectAt", "objectVersionsAfter", "objectVersionsBefore"]
    );
    assert_eq!(with("Epoch"), ["coinDenyList"]);
    assert_eq!(with("IAddressable"), ["defaultSuinsName"]);
    assert_eq!(
        with("IMoveObject"),
        [
            "contents",
            "dynamicField",
            "dynamicObjectField",
            "hasPublicTransfer",
            "moveObjectBcs",
            "multiGetDynamicFields",
            "multiGetDynamicObjectFields",
            "objectVersionsBefore"
        ]
    );
    assert_eq!(
        with("IObject"),
        [
            "digest",
            "objectAt",
            "objectBcs",
            "objectVersionsAfter",
            "objectVersionsBefore",
            "owner",
            "previousTransaction",
            "storageRebate",
            "version"
        ]
    );
    assert_eq!(
        with("MovePackage"),
        [
            "digest",
            "objectAt",
            "objectBcs",
            "objectVersionsAfter",
            "objectVersionsBefore",
            "owner",
            "storageRebate",
            "version"
        ]
    );
    assert_eq!(
        with("Object"),
        [
            "defaultSuinsName",
            "digest",
            "dynamicField",
            "dynamicObjectField",
            "multiGetDynamicFields",
            "multiGetDynamicObjectFields",
            "objectAt",
            "objectBcs",
            "objectVersionsAfter",
            "objectVersionsBefore",
            "owner",
            "previousTransaction",
            "storageRebate",
            "version"
        ]
    );
    assert_eq!(with("Query"), ["object", "objectVersions"]);
}

#[test]
fn fields_behind_scans() {
    let transactions = ["cp_sequence_numbers", "tx_digests"];
    let owned = ["cp_sequence_numbers", "tx_affected_addresses", "tx_digests"];
    let events = ["ev_struct_inst", "tx_digests"];
    assert_eq!(fields_with("Query", &transactions), ["transactions"]);
    assert_eq!(fields_with("Checkpoint", &transactions), ["transactions"]);
    assert_eq!(fields_with("Address", &owned), ["transactions"]);
    assert_eq!(fields_with("CoinMetadata", &owned), ["receivedTransactions"]);
    assert_eq!(fields_with("IObject", &owned), ["receivedTransactions"]);
    assert_eq!(fields_with("MovePackage", &owned), ["receivedTransactions"]);
    assert!(fields_with("Object", &owned).is_empty());
    assert_eq!(fields_with("Query", &events), ["events"]);
    assert_eq!(
        fields_with("Event", &events),
        [
            "contents",
            "eventBcs",
            "sender",
            "sequenceNumber",
            "timestamp",
            "transaction",
            "transactionModule"
        ]
    );
    assert_eq!(fields_with("Epoch", &["cp_sequence_numbers"]), ["checkpoints"]);
    assert_eq!(fields_with("Query", &["cp_sequence_numbers"]), ["checkpoints"]);
    assert_eq!(
        fields_with("TransactionEffects", &["tx_balance_changes", "tx_digests"]),
        ["balanceChanges"]
    );
}

#[test]
fn index_of_a_transaction_scan() {
    let index = |filters: &[&str]| -> Vec<String> {
        collected("Query", Some("transactions"), filters)
            .into_iter()
            .filter(|p| p != "tx_digests" && p != "cp_sequence_numbers")
            .collect()
    };
    assert!(index(&[]).is_empty());
    assert!(index(&["atCheckpoint", "beforeCheckpoint"]).is_empty());
    assert_eq!(index(&["function"]), ["tx_calls"]);
    assert_eq!(index(&["function", "affectedAddress", "kind"]), ["tx_calls"]);
    assert_eq!(index(&["affectedAddress", "kind"]), ["tx_affected_addresses"]);
    assert_eq!(index(&["kind"]), ["tx_kinds"]);
    assert_eq!(index(&["kind", "affectedObjects"]), ["tx_kinds"]);
    assert_eq!(index(&["kind", "sentAddress"]), ["tx_affected_addresses"]);
    assert_eq!(
        index(&["kind", "sentAddress", "affectedObjects"]),
        ["tx_affected_objects"]
    );
    assert_eq!(index(&["affectedObjects"]), ["tx_affected_objects"]);
    assert_eq!(index(&["sentAddress"]), ["tx_affected_addresses"]);
}

#[test]
fn function_filter_outranks_the_implied_address() {
    assert_eq!(
        collected("Address", Some("transactions"), &["function"]),
        ["cp_sequence_numbers", "tx_calls", "tx_digests"]
    );
}

#[test]
fn absent_field_and_unknown_type_add_nothing() {
    for t in TYPES {
        assert!(collected(t, None, &["module"]).is_empty());
        assert!(collected(t, Some(""), &["module"]).is_empty());
    }
    for f in FIELDS {
        assert!(collected("address", Some(f), &[]).is_empty());
        assert!(collected("", Some(f), &[]).is_empty());
    }
}

#[test]
fn every_collected_pipeline_is_known() {
    let known = [
        "consistent",
        "cp_sequence_numbers",
        "ev_emit_mod",
        "ev_struct_inst",
        "obj_versions",
        "tx_affected_addresses",
        "tx_affected_objects",
        "tx_balance_changes",
        "tx_calls",
        "tx_digests",
        "tx_kinds",
    ];
    for t in TYPES {
        for f in FIELDS {
            for p in collected(t, Some(f), &["kind", "module"]) {
                assert!(known.contains(&p.as_str()));
            }
        }
    }
}

#[test]
fn filters_steer_only_the_scans() {
    for t in TYPES {
        for f in FIELDS {
            let plain = collected(t, Some(f), &[]);
            let filtered = collected(t, Some(f), &["module", "function", "sender"]);
            let scanned = plain.contains(&"tx_digests".to_string()) && t != "TransactionEffects";
            assert_eq!(plain != filtered, scanned);
        }
    }
}

#[test]
fn types_agree_with_their_interfaces() {
    for f in ["balance", "balances", "multiGetBalances"] {
        for t in ["Address", "CoinMetadata", "MovePackage", "Object"] {
            assert_eq!(
                collected(t, Some(f), &[]),
                collected("IAddressable", Some(f), &[])
            );
        }
    }
    for t in ["Address", "CoinMetadata", "Object"] {
        assert_eq!(
            collected(t, Some("dynamicFields"), &[]),
            collected("IMoveObject", Some("dynamicFields"), &[])
        );
    }
    for t in ["CoinMetadata", "MovePackage", "Object"] {
        assert_eq!(
            collected(t, Some("objectAt"), &[]),
            collected("IObject", Some("objectAt"), &[])
        );
    }
    assert_eq!(
        collected("Address", Some("asObject"), &[]),
        collected("IObject", Some("objectAt"), &[])
    );
    assert_eq!(
        collected("Checkpoint", Some("transactions"), &["kind"]),
        collected("Query", Some("transactions"), &["kind"])
    );
}

#[test]
fn what_was_collected_before_is_kept() {
    let mut pipelines = StringSet::from_vec(strings(&["zebra", "consistent", "aardvark"]));
    for _ in 0..2 {
        collect_pipelines("Query", Some("objects"), StringSet::new(), &mut pipelines);
        collect_pipelines("Query", Some("object"), StringSet::new(), &mut pipelines);
        assert_eq!(
            pipelines.members(),
            &strings(&["aardvark", "consistent", "obj_versions", "zebra"])
        );
    }
}

#[test]
fn packages_have_no_dynamic_fields() {
    for f in ["dynamicField", "dynamicFields", "dynamicObjectField", "multiGetDynamicFields"] {
        assert!(collected("MovePackage", Some(f), &[]).is_empty());
        assert!(collected("IAddressable", Some(f), &[]).is_empty());
        assert!(!collected("Address", Some(f), &[]).is_empty());
    }
}

#[test]
fn scans_ignore_the_filters_of_other_scans() {
    assert_eq!(
        collected("Query", Some("transactions"), &["kind", "module"]),
        collected("Query", Some("transactions"), &["kind"])
    );
    let others = ["function", "affectedAddress", "kind", "sentAddress", "affectedObjects"];
    assert_eq!(
        collected("Query", Some("events"), &others),
        collected("Query", Some("events"), &[])
    );
    let but_function = ["affectedAddress", "kind", "sentAddress", "affectedObjects", "module"];
    for (t, f) in [
        ("Address", "transactions"),
        ("IObject", "receivedTransactions"),
        ("CoinMetadata", "receivedTransactions"),
        ("MovePackage", "receivedTransactions"),
    ] {
        assert_eq!(collected(t, Some(f), &but_function), collected(t, Some(f), &[]));
    }
}

#[test]
fn unknown_field_adds_nothing() {
    for t in TYPES {
        for f in ["digests", "Balance", "asMoveObject", "asMovePackage", "address"] {
            assert!(collected(t, Some(f), &["module", "function"]).is_empty());
        }
    }
}
