//! What holds of the pipelines behind all fields, whatever the filters.
use vstd::prelude::*;
use crate::names::{field_names_differ, type_names_differ};
use crate::pipelines::{pipelines_for, transaction_index};

verus! {

/// The GraphQL types that have fields tied to a checkpoint.
pub open spec fn is_known_type(t: Seq<char>) -> bool {
    ||| t == "Address"@
    ||| t == "Checkpoint"@
    ||| t == "CoinMetadata"@
    ||| t == "Epoch"@
    ||| t == "Event"@
    ||| t == "IAddressable"@
    ||| t == "IMoveObject"@
    ||| t == "IObject"@
    ||| t == "MovePackage"@
    ||| t == "Object"@
    ||| t == "Query"@
    ||| t == "TransactionEffects"@
}

/// The names of the fields that some type ties to a checkpoint.
pub open spec fn is_known_field(f: Seq<char>) -> bool {
    ||| f == "balance"@
    ||| f == "balances"@
    ||| f == "multiGetBalances"@
    ||| f == "dynamicField"@
    ||| f == "dynamicObjectField"@
    ||| f == "multiGetDynamicFields"@
    ||| f == "multiGetDynamicObjectFields"@
    ||| f == "contents"@
    ||| f == "eventBcs"@
    ||| f == "sender"@
    ||| f == "sequenceNumber"@
    ||| f == "timestamp"@
    ||| f == "transaction"@
    ||| f == "transactionModule"@
    ||| f == "digest"@
    ||| f == "objectAt"@
    ||| f == "objectBcs"@
    ||| f == "objectVersionsAfter"@
    ||| f == "objectVersionsBefore"@
    ||| f == "owner"@
    ||| f == "storageRebate"@
    ||| f == "version"@
    ||| f == "asObject"@
    ||| f == "balanceChanges"@
    ||| f == "checkpoints"@
    ||| f == "coinDenyList"@
    ||| f == "coinMetadata"@
    ||| f == "defaultSuinsName"@
    ||| f == "dynamicFields"@
    ||| f == "events"@
    ||| f == "hasPublicTransfer"@
    ||| f == "moveObjectBcs"@
    ||| f == "object"@
    ||| f == "objectVersions"@
    ||| f == "objects"@
    ||| f == "previousTransaction"@
    ||| f == "receivedTransactions"@
    ||| f == "supply"@
    ||| f == "transactions"@
}

/// The pipelines that any field can need.
pub open spec fn is_known_pipeline(p: Seq<char>) -> bool {
    ||| p == "consistent"@
    ||| p == "cp_sequence_numbers"@
    ||| p == "ev_emit_mod"@
    ||| p == "ev_struct_inst"@
    ||| p == "obj_versions"@
    ||| p == "tx_affected_addresses"@
    ||| p == "tx_affected_objects"@
    ||| p == "tx_balance_changes"@
    ||| p == "tx_calls"@
    ||| p == "tx_digests"@
    ||| p == "tx_kinds"@
}

/// The fields behind which there is a scan of transactions.
pub open spec fn scans_transactions(t: Seq<char>, f: Seq<char>) -> bool {
    ||| f == "transactions"@ && (t == "Address"@ || t == "Checkpoint"@ || t == "Query"@)
    ||| f == "receivedTransactions"@ && (t == "CoinMetadata"@ || t == "IObject"@ || t
        == "MovePackage"@)
}

/// The fields behind which there is a scan of events.
pub open spec fn scans_events(t: Seq<char>, f: Seq<char>) -> bool {
    ||| t == "Query"@ && f == "events"@
    ||| t == "Event"@ && (f == "contents"@ || f == "eventBcs"@ || f == "sender"@ || f ==
        "sequenceNumber"@ || f == "timestamp"@ || f == "transaction"@ || f == "transactionModule"@)
}

/// `a` and `b` have the same of the filters that steer the scan behind the field `f` of `t`, where
/// there is one. A scan of events goes by `module`. A scan of transactions goes by `function` and,
/// where the type does not itself stand for an affected address, by four filters more.
pub open spec fn steer_alike(
    t: Seq<char>,
    f: Seq<char>,
    a: Set<Seq<char>>,
    b: Set<Seq<char>>,
) -> bool {
    &&& scans_events(t, f) ==> a.contains("module"@) == b.contains("module"@)
    &&& scans_transactions(t, f) ==> a.contains("function"@) == b.contains("function"@)
    &&& scans_transactions(t, f) && (t == "Query"@ || t == "Checkpoint"@) ==> {
        &&& a.contains("affectedAddress"@) == b.contains("affectedAddress"@)
        &&& a.contains("kind"@) == b.contains("kind"@)
        &&& a.contains("sentAddress"@) == b.contains("sentAddress"@)
        &&& a.contains("affectedObjects"@) == b.contains("affectedObjects"@)
    }
}

/// The filter names are all different.
pub proof fn filter_names_differ()
    ensures
        "affectedAddress"@ != "function"@,
        "affectedAddress"@ != "kind"@,
        "affectedAddress"@ != "sentAddress"@,
        "affectedAddress"@ != "affectedObjects"@,
        "affectedAddress"@ != "module"@,
        "atCheckpoint"@ != "function"@,
        "atCheckpoint"@ != "affectedAddress"@,
        "atCheckpoint"@ != "kind"@,
        "atCheckpoint"@ != "sentAddress"@,
        "atCheckpoint"@ != "affectedObjects"@,
        "atCheckpoint"@ != "module"@,
        "function"@ != "kind"@,
        "function"@ != "sentAddress"@,
        "function"@ != "affectedObjects"@,
        "function"@ != "module"@,
        "kind"@ != "sentAddress"@,
        "kind"@ != "affectedObjects"@,
        "kind"@ != "module"@,
        "sentAddress"@ != "affectedObjects"@,
        "sentAddress"@ != "module"@,
        "affectedObjects"@ != "module"@,
{
    reveal_strlit("affectedAddress");
    reveal_strlit("affectedObjects");
    reveal_strlit("atCheckpoint");
    reveal_strlit("function");
    reveal_strlit("kind");
    reveal_strlit("module");
    reveal_strlit("sentAddress");
    assert("affectedAddress"@.len() == 15 && "affectedAddress"@[8] == 'A');
    assert("affectedObjects"@.len() == 15 && "affectedObjects"@[8] == 'O');
    assert("atCheckpoint"@.len() == 12);
    assert("function"@.len() == 8);
    assert("kind"@.len() == 4);
    assert("module"@.len() == 6);
    assert("sentAddress"@.len() == 11);
}

/// Without a field there is no pipeline.
pub proof fn no_field_needs_no_pipeline(t: Seq<char>, filters: Set<Seq<char>>)
    ensures
        pipelines_for(t, None, filters) == Set::<Seq<char>>::empty(),
{
}

/// A type that is not known has no pipelines.
pub proof fn unknown_type_needs_no_pipeline(
    t: Seq<char>,
    field: Option<Seq<char>>,
    filters: Set<Seq<char>>,
)
    requires
        !is_known_type(t),
    ensures
        pipelines_for(t, field, filters) == Set::<Seq<char>>::empty(),
{
}

/// A field that no type ties to a checkpoint has no pipelines.
pub proof fn unknown_field_needs_no_pipeline(t: Seq<char>, f: Seq<char>, filters: Set<Seq<char>>)
    requires
        !is_known_field(f),
    ensures
        pipelines_for(t, Some(f), filters) == Set::<Seq<char>>::empty(),
{
}

/// Every pipeline behind a field is a known one.
pub proof fn pipelines_are_known(
    t: Seq<char>,
    field: Option<Seq<char>>,
    filters: Set<Seq<char>>,
    p: Seq<char>,
)
    requires
        pipelines_for(t, field, filters).contains(p),
    ensures
        is_known_pipeline(p),
{
}

/// Behind a field where nothing is scanned, filters make no difference.
pub proof fn filters_steer_only_scans(
    t: Seq<char>,
    f: Seq<char>,
    a: Set<Seq<char>>,
    b: Set<Seq<char>>,
)
    requires
        !scans_transactions(t, f),
        !scans_events(t, f),
    ensures
        pipelines_for(t, Some(f), a) == pipelines_for(t, Some(f), b),
{
}

/// Of all filters only those that steer the scan behind a field make a difference to it.
pub proof fn other_filters_are_ignored(
    t: Seq<char>,
    field: Option<Seq<char>>,
    a: Set<Seq<char>>,
    b: Set<Seq<char>>,
)
    requires
        field matches Some(f) ==> steer_alike(t, f, a, b),
    ensures
        pipelines_for(t, field, a) == pipelines_for(t, field, b),
{
    type_names_differ();
    field_names_differ();
    filter_names_differ();
}

/// Every scan of transactions needs their digests and the checkpoint sequence numbers, and at most
/// one pipeline more.
pub proof fn transaction_scans_need_digests_and_checkpoints(
    t: Seq<char>,
    f: Seq<char>,
    filters: Set<Seq<char>>,
    p: Seq<char>,
    q: Seq<char>,
)
    requires
        scans_transactions(t, f),
    ensures
        ({
            let needed = pipelines_for(t, Some(f), filters);
            let always = set!["tx_digests"@, "cp_sequence_numbers"@];
            &&& always.subset_of(needed)
            &&& needed.difference(always).contains(p) && needed.difference(always).contains(q)
                ==> p == q
        }),
{
    type_names_differ();
    field_names_differ();
}

/// Every scan of events needs the digests of their transactions and exactly one of the two event
/// indices.
pub proof fn event_scans_need_digests_and_one_index(
    t: Seq<char>,
    f: Seq<char>,
    filters: Set<Seq<char>>,
)
    requires
        scans_events(t, f),
    ensures
        ({
            let needed = pipelines_for(t, Some(f), filters);
            &&& needed.contains("tx_digests"@)
            &&& needed.contains("ev_emit_mod"@) == filters.contains("module"@)
            &&& needed.contains("ev_struct_inst"@) == !filters.contains("module"@)
            &&& needed.subset_of(set!["tx_digests"@, "ev_emit_mod"@, "ev_struct_inst"@])
        }),
{
    type_names_differ();
    field_names_differ();
    reveal_strlit("tx_digests");
    reveal_strlit("ev_emit_mod");
    reveal_strlit("ev_struct_inst");
    assert("tx_digests"@.len() == 10);
    assert("ev_emit_mod"@.len() == 11);
    assert("ev_struct_inst"@.len() == 14);
}

/// The transactions of an address, and those received by an object, are the transactions of the
/// query root under the filter for affected addresses.
pub proof fn own_transactions_are_filtered_by_address(filters: Set<Seq<char>>)
    ensures
        ({
            let needed = pipelines_for(
                "Query"@,
                Some("transactions"@),
                filters.insert("affectedAddress"@),
            );
            let received = Some("receivedTransactions"@);
            &&& pipelines_for("Address"@, Some("transactions"@), filters)
                == needed
            &&& pipelines_for("IObject"@, received, filters) == needed
            &&& pipelines_for("CoinMetadata"@, received, filters) == needed
            &&& pipelines_for("MovePackage"@, received, filters) == needed
            &&& needed.contains(
                if filters.contains("function"@) {
                    "tx_calls"@
                } else {
                    "tx_affected_addresses"@
                },
            )
        }),
{
    type_names_differ();
    field_names_differ();
    filter_names_differ();
}

/// The transactions of a checkpoint need what the transactions of the query root need: that they
/// are those of one checkpoint calls for no index.
pub proof fn checkpoint_transactions_need_no_index_more(filters: Set<Seq<char>>)
    ensures
        pipelines_for("Checkpoint"@, Some("transactions"@), filters)
            == pipelines_for("Query"@, Some("transactions"@), filters),
{
    type_names_differ();
    field_names_differ();
    filter_names_differ();
}

/// The checkpoints of an epoch need what the checkpoints of the query root need, and the fields of
/// an event need what the events of the query root need.
pub proof fn epochs_and_events_go_to_the_query_root(f: Seq<char>, filters: Set<Seq<char>>)
    requires
        ({
            ||| f == "contents"@
            ||| f == "eventBcs"@
            ||| f == "sender"@
            ||| f == "sequenceNumber"@
            ||| f == "timestamp"@
            ||| f == "transaction"@
            ||| f == "transactionModule"@
        }),
    ensures
        pipelines_for("Epoch"@, Some("checkpoints"@), filters)
            == pipelines_for("Query"@, Some("checkpoints"@), filters),
        pipelines_for("Event"@, Some(f), filters)
            == pipelines_for("Query"@, Some("events"@), filters),
{
    type_names_differ();
    field_names_differ();
}

/// The object at an address needs what an object at a given point needs.
pub proof fn address_as_object_is_an_object_at_a_point(filters: Set<Seq<char>>)
    ensures
        pipelines_for("Address"@, Some("asObject"@), filters)
            == pipelines_for("IObject"@, Some("objectAt"@), filters),
{
    type_names_differ();
    field_names_differ();
}

/// A type needs for the balances that it offers, and for the objects that an address owns, what
/// the interface `IAddressable` needs.
pub proof fn addressable_fields_agree(t: Seq<char>, f: Seq<char>, filters: Set<Seq<char>>)
    requires
        ({
            ||| (f == "balance"@ || f == "balances"@ || f == "multiGetBalances"@) && (t ==
                "Address"@ || t == "CoinMetadata"@
                || t == "MovePackage"@ || t == "Object"@)
            ||| f == "objects"@ && (t == "Address"@ || t == "CoinMetadata"@ || t == "IObject"@ || t
                == "Object"@)
            ||| (f == "defaultSuinsName"@ || f == "address"@) && t == "Object"@
        }),
    ensures
        pipelines_for(t, Some(f), filters) == pipelines_for(
            "IAddressable"@,
            Some(f),
            filters,
        ),
{
    type_names_differ();
    field_names_differ();
}

/// A type needs for the dynamic fields that it offers, and an object for its views as a Move object
/// or package, what the interface `IMoveObject` needs.
pub proof fn dynamic_fields_agree(t: Seq<char>, f: Seq<char>, filters: Set<Seq<char>>)
    requires
        ({
            ||| f == "dynamicFields"@ && (t == "Address"@ || t == "CoinMetadata"@ || t
                == "Object"@)
            ||| (f == "dynamicField"@ || f == "dynamicObjectField"@ || f ==
                "multiGetDynamicFields"@ || f == "multiGetDynamicObjectFields"@) && (t ==
                "Address"@ || t == "Object"@)
            ||| (f == "asMoveObject"@ || f == "asMovePackage"@) && t == "Object"@
        }),
    ensures
        pipelines_for(t, Some(f), filters) == pipelines_for(
            "IMoveObject"@,
            Some(f),
            filters,
        ),
{
    type_names_differ();
    field_names_differ();
}

/// A type needs for what it reads off a version of an object, for the transactions that an object
/// received and for the objects that it owns what the interface `IObject` needs.
pub proof fn object_fields_agree(t: Seq<char>, f: Seq<char>, filters: Set<Seq<char>>)
    requires
        ({
            ||| (f == "digest"@ || f == "objectAt"@ || f == "objectBcs"@ || f ==
                "objectVersionsAfter"@ || f == "objectVersionsBefore"@ || f == "owner"@ || f ==
                "storageRebate"@ || f == "version"@) && (t == "Object"@ || t == "MovePackage"@)
            ||| f == "previousTransaction"@ && t == "Object"@
            ||| (f == "objectAt"@ || f == "objectVersionsAfter"@ || f == "objectVersionsBefore"@)
                && t == "CoinMetadata"@
            ||| f == "receivedTransactions"@ && (t == "CoinMetadata"@ || t == "MovePackage"@)
            ||| f == "objects"@ && (t == "Address"@ || t == "CoinMetadata"@ || t == "Object"@)
        }),
    ensures
        pipelines_for(t, Some(f), filters) == pipelines_for(
            "IObject"@,
            Some(f),
            filters,
        ),
{
    type_names_differ();
    field_names_differ();
}

/// A filter for the called function decides the index whatever else is asked for; after it, one
/// for the affected address does.
pub proof fn function_then_affected_address_decide(filters: Set<Seq<char>>)
    ensures
        filters.contains("function"@) ==> transaction_index(filters) == Some(
            "tx_calls"@,
        ),
        filters.contains("affectedAddress"@) && !filters.contains("function"@)
            ==> transaction_index(filters) == Some("tx_affected_addresses"@),
{
}

/// The index by kind is never used together with a filter for the sender.
pub proof fn sender_rules_out_the_index_by_kind(filters: Set<Seq<char>>)
    requires
        filters.contains("sentAddress"@),
    ensures
        transaction_index(filters) is Some,
        transaction_index(filters) != Some("tx_kinds"@),
{
    reveal_strlit("tx_kinds");
    reveal_strlit("tx_calls");
    reveal_strlit("tx_affected_addresses");
    reveal_strlit("tx_affected_objects");
    assert("tx_kinds"@.len() == 8 && "tx_kinds"@[3] == 'k');
    assert("tx_calls"@.len() == 8 && "tx_calls"@[3] == 'c');
    assert("tx_affected_addresses"@.len() == 21);
    assert("tx_affected_objects"@.len() == 19);
}

/// Collecting the pipelines of a field again adds nothing.
pub proof fn collecting_again_adds_nothing(
    before: Set<Seq<char>>,
    t: Seq<char>,
    field: Option<Seq<char>>,
    filters: Set<Seq<char>>,
)
    ensures
        ({
            let added = pipelines_for(t, field, filters);
            before.union(added).union(added) == before.union(added)
        }),
{
    let added = pipelines_for(t, field, filters);
    assert(before.union(added).union(added) =~= before.union(added));
}

/// Packages offer no dynamic fields, nor does the interface `IAddressable` that they have.
pub proof fn packages_offer_no_dynamic_fields(f: Seq<char>, filters: Set<Seq<char>>)
    requires
        f == "dynamicFields"@ || (f == "dynamicField"@ || f == "dynamicObjectField"@ || f ==
            "multiGetDynamicFields"@ || f == "multiGetDynamicObjectFields"@),
    ensures
        pipelines_for("MovePackage"@, Some(f), filters) == Set::<Seq<char>>::empty(),
        pipelines_for("IAddressable"@, Some(f), filters) == Set::<Seq<char>>::empty(),
{
    type_names_differ();
    field_names_differ();
}

} // verus!
