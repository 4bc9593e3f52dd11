//! Which watermark pipelines the data behind a GraphQL field comes from.
use vstd::prelude::*;
use crate::names::{field_names_differ, type_names_differ};
use crate::string_set::StringSet;
use crate::strings::same;

verus! {

/// What an optional string holds.
pub open spec fn field_text(field: Option<&str>) -> Option<Seq<char>> {
    match field {
        Some(f) => Some(f@),
        None => None,
    }
}

/// The fields that give coin balances.
pub open spec fn is_balance_field(f: Seq<char>) -> bool {
    f == "balance"@ || f == "balances"@ || f == "multiGetBalances"@
}

/// The fields that look up dynamic fields by name.
pub open spec fn is_dynamic_lookup(f: Seq<char>) -> bool {
    ||| f == "dynamicField"@
    ||| f == "dynamicObjectField"@
    ||| f == "multiGetDynamicFields"@
    ||| f == "multiGetDynamicObjectFields"@
}

/// The fields that are read off one version of an object, whatever kind of object it is.
pub open spec fn is_version_field(f: Seq<char>) -> bool {
    ||| f == "digest"@
    ||| f == "objectAt"@
    ||| f == "objectBcs"@
    ||| f == "objectVersionsAfter"@
    ||| f == "objectVersionsBefore"@
    ||| f == "owner"@
    ||| f == "storageRebate"@
    ||| f == "version"@
}

/// The fields of an event.
pub open spec fn is_event_field(f: Seq<char>) -> bool {
    ||| f == "contents"@
    ||| f == "eventBcs"@
    ||| f == "sender"@
    ||| f == "sequenceNumber"@
    ||| f == "timestamp"@
    ||| f == "transaction"@
    ||| f == "transactionModule"@
}

/// The pipeline of the consistent store.
pub open spec fn consistent() -> Set<Seq<char>> {
    set!["consistent"@]
}

/// The pipeline of object versions.
pub open spec fn object_versions() -> Set<Seq<char>> {
    set!["obj_versions"@]
}

/// The pipeline of checkpoint sequence numbers.
pub open spec fn checkpoint_numbers() -> Set<Seq<char>> {
    set!["cp_sequence_numbers"@]
}

/// The pipelines that a scan of events reads: with a `module` filter the index by emitting
/// module, otherwise the one by struct instance.
pub open spec fn event_pipelines(filters: Set<Seq<char>>) -> Set<Seq<char>> {
    if filters.contains("module"@) {
        set!["tx_digests"@, "ev_emit_mod"@]
    } else {
        set!["tx_digests"@, "ev_struct_inst"@]
    }
}

/// The index that a scan of transactions reads under `filters`, if it reads one.
pub open spec fn transaction_index(filters: Set<Seq<char>>) -> Option<Seq<char>> {
    if filters.contains("function"@) {
        Some("tx_calls"@)
    } else if filters.contains("affectedAddress"@) {
        Some("tx_affected_addresses"@)
    } else if filters.contains("kind"@) && !filters.contains("sentAddress"@) {
        Some("tx_kinds"@)
    } else if filters.contains("affectedObjects"@) {
        Some("tx_affected_objects"@)
    } else if filters.contains("sentAddress"@) {
        Some("tx_affected_addresses"@)
    } else {
        None
    }
}

/// The pipelines that a scan of transactions reads: those that every scan needs, and the index.
pub open spec fn transaction_pipelines(filters: Set<Seq<char>>) -> Set<Seq<char>> {
    let always = set!["tx_digests"@, "cp_sequence_numbers"@];
    match transaction_index(filters) {
        Some(index) => always.insert(index),
        None => always,
    }
}

/// The pipelines behind the field `f` of an address.
pub open spec fn address_pipelines(f: Seq<char>, filters: Set<Seq<char>>) -> Set<Seq<char>> {
    if f == "transactions"@ {
        transaction_pipelines(filters.insert("affectedAddress"@))
    } else if is_balance_field(f) || f == "objects"@ || f == "dynamicFields"@ {
        consistent()
    } else if f == "asObject"@ || is_dynamic_lookup(f) {
        object_versions()
    } else {
        Set::empty()
    }
}

/// The pipelines behind the field `f` of a checkpoint.
pub open spec fn checkpoint_pipelines(f: Seq<char>, filters: Set<Seq<char>>) -> Set<Seq<char>> {
    if f == "transactions"@ {
        transaction_pipelines(filters.insert("atCheckpoint"@))
    } else {
        Set::empty()
    }
}

/// The pipelines behind the field `f` of a coin's metadata.
pub open spec fn coin_metadata_pipelines(f: Seq<char>, filters: Set<Seq<char>>) -> Set<Seq<char>> {
    if is_balance_field(f) || f == "objects"@ || f == "dynamicFields"@ || f == "supply"@ {
        consistent()
    } else if f == "receivedTransactions"@ {
        transaction_pipelines(filters.insert("affectedAddress"@))
    } else if f == "objectAt"@ || f == "objectVersionsAfter"@ || f == "objectVersionsBefore"@ {
        object_versions()
    } else {
        Set::empty()
    }
}

/// The pipelines behind the field `f` of an epoch.
pub open spec fn epoch_pipelines(f: Seq<char>) -> Set<Seq<char>> {
    if f == "checkpoints"@ {
        checkpoint_numbers()
    } else if f == "coinDenyList"@ {
        object_versions()
    } else {
        Set::empty()
    }
}

/// The pipelines behind the field `f` of the interface `IAddressable`.
pub open spec fn addressable_pipelines(f: Seq<char>) -> Set<Seq<char>> {
    if is_balance_field(f) || f == "objects"@ {
        consistent()
    } else if f == "defaultSuinsName"@ {
        object_versions()
    } else {
        Set::empty()
    }
}

/// The pipelines behind the field `f` of the interface `IMoveObject`.
pub open spec fn move_object_pipelines(f: Seq<char>) -> Set<Seq<char>> {
    if f == "dynamicFields"@ {
        consistent()
    } else if is_dynamic_lookup(f) || f == "contents"@ || f == "hasPublicTransfer"@ || f
        == "moveObjectBcs"@ || f == "objectVersionsBefore"@ {
        object_versions()
    } else {
        Set::empty()
    }
}

/// The pipelines behind the field `f` of the interface `IObject`.
pub open spec fn object_interface_pipelines(f: Seq<char>, filters: Set<Seq<char>>) -> Set<
    Seq<char>,
> {
    if f == "objects"@ {
        consistent()
    } else if f == "receivedTransactions"@ {
        transaction_pipelines(filters.insert("affectedAddress"@))
    } else if is_version_field(f) || f == "previousTransaction"@ {
        object_versions()
    } else {
        Set::empty()
    }
}

/// The pipelines behind the field `f` of an object.
pub open spec fn object_pipelines(f: Seq<char>) -> Set<Seq<char>> {
    if is_balance_field(f) || f == "objects"@ || f == "dynamicFields"@ {
        consistent()
    } else if f == "defaultSuinsName"@ || is_dynamic_lookup(f) || is_version_field(f) || f
        == "previousTransaction"@ {
        object_versions()
    } else {
        Set::empty()
    }
}

/// The pipelines behind the field `f` of a package.
pub open spec fn move_package_pipelines(f: Seq<char>, filters: Set<Seq<char>>) -> Set<Seq<char>> {
    if is_balance_field(f) {
        consistent()
    } else if f == "receivedTransactions"@ {
        transaction_pipelines(filters.insert("affectedAddress"@))
    } else if is_version_field(f) {
        object_versions()
    } else {
        Set::empty()
    }
}

/// The pipelines behind the field `f` of the query root.
pub open spec fn query_pipelines(f: Seq<char>, filters: Set<Seq<char>>) -> Set<Seq<char>> {
    if f == "checkpoints"@ {
        checkpoint_numbers()
    } else if f == "coinMetadata"@ || f == "objects"@ {
        consistent()
    } else if f == "events"@ {
        event_pipelines(filters)
    } else if f == "object"@ || f == "objectVersions"@ {
        object_versions()
    } else if f == "transactions"@ {
        transaction_pipelines(filters)
    } else {
        Set::empty()
    }
}

/// The pipelines behind the field `field` of the GraphQL type `type_`, when it is asked for with
/// `filters`: none where the field is absent, or the type or the field is not one that can be
/// tied to a checkpoint.
pub open spec fn pipelines_for(
    type_: Seq<char>,
    field: Option<Seq<char>>,
    filters: Set<Seq<char>>,
) -> Set<Seq<char>> {
    match field {
        None => Set::empty(),
        Some(f) => {
            if type_ == "Address"@ {
                address_pipelines(f, filters)
            } else if type_ == "Checkpoint"@ {
                checkpoint_pipelines(f, filters)
            } else if type_ == "CoinMetadata"@ {
                coin_metadata_pipelines(f, filters)
            } else if type_ == "Epoch"@ {
                epoch_pipelines(f)
            } else if type_ == "Event"@ {
                if is_event_field(f) {
                    event_pipelines(filters)
                } else {
                    Set::empty()
                }
            } else if type_ == "IAddressable"@ {
                addressable_pipelines(f)
            } else if type_ == "IMoveObject"@ {
                move_object_pipelines(f)
            } else if type_ == "IObject"@ {
                object_interface_pipelines(f, filters)
            } else if type_ == "Object"@ {
                object_pipelines(f)
            } else if type_ == "MovePackage"@ {
                move_package_pipelines(f, filters)
            } else if type_ == "Query"@ {
                query_pipelines(f, filters)
            } else if type_ == "TransactionEffects"@ && f == "balanceChanges"@ {
                set!["tx_balance_changes"@, "tx_digests"@]
            } else {
                Set::empty()
            }
        },
    }
}

/// How many times the fields of a type can be handed on to another type.
pub open spec fn handovers(type_: Seq<char>) -> nat {
    if type_ == "IAddressable"@ || type_ == "IMoveObject"@ || type_ == "Query"@ {
        0
    } else if type_ == "IObject"@ {
        1
    } else {
        2
    }
}

/// Whether `f` is a field that gives coin balances.
fn balance_field(f: &str) -> (res: bool)
    ensures
        res == is_balance_field(f@),
{
    same(f, "balance") || same(f, "balances") || same(f, "multiGetBalances")
}

/// Whether `f` is a field that looks up dynamic fields by name.
fn dynamic_lookup(f: &str) -> (res: bool)
    ensures
        res == is_dynamic_lookup(f@),
{
    same(f, "dynamicField") || same(f, "dynamicObjectField") || same(f, "multiGetDynamicFields")
        || same(f, "multiGetDynamicObjectFields")
}

/// Whether `f` is a field that is read off one version of an object.
fn version_field(f: &str) -> (res: bool)
    ensures
        res == is_version_field(f@),
{
    same(f, "digest") || same(f, "objectAt") || same(f, "objectBcs") || same(
        f,
        "objectVersionsAfter",
    ) || same(f, "objectVersionsBefore") || same(f, "owner") || same(f, "storageRebate") || same(
        f,
        "version",
    )
}

/// Whether `f` is a field of an event.
fn event_field(f: &str) -> (res: bool)
    ensures
        res == is_event_field(f@),
{
    same(f, "contents") || same(f, "eventBcs") || same(f, "sender") || same(f, "sequenceNumber")
        || same(f, "timestamp") || same(f, "transaction") || same(f, "transactionModule")
}

/// Maps GraphQL query components to watermark pipeline names.
///
/// Determines which watermark pipelines are relevant for a given GraphQL query, and adds them to
/// `pipelines`. The pipeline names are used to query watermark data to determine the checkpoint
/// sequence range (available range) for which data is available.
pub fn collect_pipelines(
    type_: &str,
    field: Option<&str>,
    filters: StringSet,
    pipelines: &mut StringSet,
)
    ensures
        final(pipelines)@ == old(pipelines)@.union(
            pipelines_for(type_@, field_text(field), filters@),
        ),
    decreases handovers(type_@),
{
    let f: &str = match field {
        Some(f) => f,
        None => {
            assert(pipelines@ =~= old(pipelines)@.union(Set::empty()));
            return;
        },
    };
    proof {
        type_names_differ();
        field_names_differ();
    }
    let ghost asked = filters@;
    let mut filters = filters;
    if same(type_, "Address") {
        if same(f, "asObject") {
            collect_pipelines("IObject", Some("objectAt"), filters, pipelines);
        } else if same(f, "transactions") {
            filters.insert("affectedAddress".to_string());
            collect_pipelines("Query", Some("transactions"), filters, pipelines);
        } else if balance_field(f) || same(f, "objects") {
            collect_pipelines("IAddressable", field, filters, pipelines);
        } else if same(f, "dynamicFields") || dynamic_lookup(f) {
            // Addresses offer dynamic fields so that the fields of wrapped objects can be
            // fetched. They are not part of `IAddressable`: packages would then have to offer
            // them too.
            collect_pipelines("IMoveObject", field, filters, pipelines);
        }
    } else if same(type_, "Checkpoint") {
        if same(f, "transactions") {
            filters.insert("atCheckpoint".to_string());
            collect_pipelines("Query", Some("transactions"), filters, pipelines);
        }
    } else if same(type_, "CoinMetadata") {
        if balance_field(f) {
            collect_pipelines("IAddressable", field, filters, pipelines);
        } else if same(f, "dynamicFields") {
            collect_pipelines("IMoveObject", field, filters, pipelines);
        } else if same(f, "objects") || same(f, "receivedTransactions") {
            collect_pipelines("IObject", field, filters, pipelines);
        } else if same(f, "objectAt") || same(f, "objectVersionsAfter") || same(
            f,
            "objectVersionsBefore",
        ) {
            collect_pipelines("IObject", field, filters, pipelines);
        } else if same(f, "supply") {
            pipelines.insert("consistent".to_string());
        }
    } else if same(type_, "Epoch") {
        if same(f, "checkpoints") {
            collect_pipelines("Query", Some("checkpoints"), filters, pipelines);
        } else if same(f, "coinDenyList") {
            pipelines.insert("obj_versions".to_string());
        }
    } else if same(type_, "Event") {
        if event_field(f) {
            collect_pipelines("Query", Some("events"), filters, pipelines);
        }
    } else if same(type_, "IAddressable") {
        if balance_field(f) || same(f, "objects") {
            pipelines.insert("consistent".to_string());
        } else if same(f, "defaultSuinsName") {
            pipelines.insert("obj_versions".to_string());
        }
    } else if same(type_, "IMoveObject") {
        if same(f, "dynamicFields") {
            pipelines.insert("consistent".to_string());
        } else if dynamic_lookup(f) || same(f, "contents") || same(f, "hasPublicTransfer") || same(
            f,
            "moveObjectBcs",
        ) || same(f, "objectVersionsBefore") {
            pipelines.insert("obj_versions".to_string());
        }
    } else if same(type_, "IObject") {
        if same(f, "objects") {
            pipelines.insert("consistent".to_string());
        } else if same(f, "receivedTransactions") {
            filters.insert("affectedAddress".to_string());
            collect_pipelines("Query", Some("transactions"), filters, pipelines);
        } else if version_field(f) || same(f, "previousTransaction") {
            pipelines.insert("obj_versions".to_string());
        }
    } else if same(type_, "Object") {
        if balance_field(f) || same(f, "address") || same(f, "defaultSuinsName") || same(
            f,
            "objects",
        ) {
            collect_pipelines("IAddressable", field, filters, pipelines);
        } else if same(f, "asMoveObject") || same(f, "asMovePackage") || same(f, "dynamicFields")
            || dynamic_lookup(f) {
            collect_pipelines("IMoveObject", field, filters, pipelines);
        } else if version_field(f) || same(f, "previousTransaction") {
            collect_pipelines("IObject", field, filters, pipelines);
        }
    } else if same(type_, "MovePackage") {
        if balance_field(f) {
            collect_pipelines("IAddressable", field, filters, pipelines);
        } else if version_field(f) || same(f, "receivedTransactions") {
            collect_pipelines("IObject", field, filters, pipelines);
        }
    } else if same(type_, "Query") {
        collect_query_pipelines(f, &filters, pipelines);
    } else if same(type_, "TransactionEffects") {
        if same(f, "balanceChanges") {
            pipelines.insert("tx_balance_changes".to_string());
            pipelines.insert("tx_digests".to_string());
        }
    }
    assert(pipelines@ =~= old(pipelines)@.union(
        pipelines_for(type_@, field_text(field), asked),
    ));
}

/// Adds the pipelines behind the field `f` of the query root to `pipelines`.
fn collect_query_pipelines(f: &str, filters: &StringSet, pipelines: &mut StringSet)
    ensures
        final(pipelines)@ == old(pipelines)@.union(query_pipelines(f@, filters@)),
{
    if same(f, "checkpoints") {
        pipelines.insert("cp_sequence_numbers".to_string());
    } else if same(f, "coinMetadata") || same(f, "objects") {
        pipelines.insert("consistent".to_string());
    } else if same(f, "events") {
        pipelines.insert("tx_digests".to_string());
        if filters.contains("module") {
            pipelines.insert("ev_emit_mod".to_string());
        } else {
            pipelines.insert("ev_struct_inst".to_string());
        }
    } else if same(f, "object") || same(f, "objectVersions") {
        pipelines.insert("obj_versions".to_string());
    } else if same(f, "transactions") {
        pipelines.insert("tx_digests".to_string());
        pipelines.insert("cp_sequence_numbers".to_string());
        if filters.contains("function") {
            pipelines.insert("tx_calls".to_string());
        } else if filters.contains("affectedAddress") {
            pipelines.insert("tx_affected_addresses".to_string());
        } else if filters.contains("kind") && !filters.contains("sentAddress") {
            pipelines.insert("tx_kinds".to_string());
        } else if filters.contains("affectedObjects") {
            pipelines.insert("tx_affected_objects".to_string());
        } else if filters.contains("sentAddress") {
            pipelines.insert("tx_affected_addresses".to_string());
        }
    }
    assert(pipelines@ =~= old(pipelines)@.union(query_pipelines(f@, filters@)));
}

} // verus!
