//! For each pipeline, the fields that need it: the table the other way round, from the pipelines
//! to the types, fields and filters.
use vstd::prelude::*;
use crate::names::{field_names_differ, type_names_differ};
use crate::pipeline_laws::filter_names_differ;
use crate::pipelines::{field_text, pipelines_for};

verus! {

/// The pipeline names are told apart by their lengths, their first and their fourth letters: no
/// two of them are the same string.
pub proof fn pipeline_names_differ()
    ensures
        "consistent"@.len() == 10 && "consistent"@[0] == 'c',
        "consistent"@[3] == 's',
        "cp_sequence_numbers"@.len() == 19 && "cp_sequence_numbers"@[0] == 'c',
        "cp_sequence_numbers"@[3] == 's',
        "ev_emit_mod"@.len() == 11 && "ev_emit_mod"@[0] == 'e',
        "ev_emit_mod"@[3] == 'e',
        "ev_struct_inst"@.len() == 14 && "ev_struct_inst"@[0] == 'e',
        "ev_struct_inst"@[3] == 's',
        "obj_versions"@.len() == 12 && "obj_versions"@[0] == 'o',
        "obj_versions"@[3] == '_',
        "tx_affected_addresses"@.len() == 21 && "tx_affected_addresses"@[0] == 't',
        "tx_affected_addresses"@[3] == 'a',
        "tx_affected_objects"@.len() == 19 && "tx_affected_objects"@[0] == 't',
        "tx_affected_objects"@[3] == 'a',
        "tx_balance_changes"@.len() == 18 && "tx_balance_changes"@[0] == 't',
        "tx_balance_changes"@[3] == 'b',
        "tx_calls"@.len() == 8 && "tx_calls"@[0] == 't',
        "tx_calls"@[3] == 'c',
        "tx_digests"@.len() == 10 && "tx_digests"@[0] == 't',
        "tx_digests"@[3] == 'd',
        "tx_kinds"@.len() == 8 && "tx_kinds"@[0] == 't',
        "tx_kinds"@[3] == 'k',
{
    reveal_strlit("consistent");
    reveal_strlit("cp_sequence_numbers");
    reveal_strlit("ev_emit_mod");
    reveal_strlit("ev_struct_inst");
    reveal_strlit("obj_versions");
    reveal_strlit("tx_affected_addresses");
    reveal_strlit("tx_affected_objects");
    reveal_strlit("tx_balance_changes");
    reveal_strlit("tx_calls");
    reveal_strlit("tx_digests");
    reveal_strlit("tx_kinds");
}

/// Balances, owned objects and listings of dynamic fields need the consistent store, whatever the
/// type that offers them; so do the supply of a coin and the lookup of its metadata. Nothing else
/// does.
pub proof fn fields_that_need_the_consistent_store(
    t: Seq<char>,
    f: Seq<char>,
    filters: Set<Seq<char>>,
)
    ensures
        pipelines_for(t, Some(f), filters).contains("consistent"@) <==> {
            ||| (f == "balance"@ || f == "balances"@ || f == "multiGetBalances"@) && (t ==
                "Address"@ || t == "CoinMetadata"@ || t == "IAddressable"@ || t == "MovePackage"@
                || t == "Object"@)
            ||| f == "objects"@ && (t == "Address"@ || t == "CoinMetadata"@ || t ==
                "IAddressable"@ || t == "IObject"@ || t == "Object"@ || t == "Query"@)
            ||| f == "dynamicFields"@ && (t == "Address"@ || t == "CoinMetadata"@ || t ==
                "IMoveObject"@ || t == "Object"@)
            ||| f == "supply"@ && t == "CoinMetadata"@
            ||| f == "coinMetadata"@ && t == "Query"@
        },
{
    type_names_differ();
    field_names_differ();
    pipeline_names_differ();
}

/// What is read off one version of an object, dynamic fields that are looked up by name, default
/// names, lists of versions and the deny list need the object versions. Nothing else does.
pub proof fn fields_that_need_object_versions(t: Seq<char>, f: Seq<char>, filters: Set<Seq<char>>)
    ensures
        pipelines_for(t, Some(f), filters).contains("obj_versions"@) <==> {
            ||| f == "asObject"@ && t == "Address"@
            ||| (f == "dynamicField"@ || f == "dynamicObjectField"@ || f ==
                "multiGetDynamicFields"@ || f == "multiGetDynamicObjectFields"@) && (t ==
                "Address"@ || t == "IMoveObject"@ || t == "Object"@)
            ||| (f == "objectAt"@ || f == "objectVersionsAfter"@) && (t == "CoinMetadata"@ || t ==
                "IObject"@ || t == "MovePackage"@ || t == "Object"@)
            ||| f == "objectVersionsBefore"@ && (t == "CoinMetadata"@ || t == "IMoveObject"@ || t
                == "IObject"@ || t == "MovePackage"@ || t == "Object"@)
            ||| (f == "digest"@ || f == "objectBcs"@ || f == "owner"@ || f == "storageRebate"@ || f
                == "version"@) && (t == "IObject"@ || t == "MovePackage"@ || t == "Object"@)
            ||| f == "previousTransaction"@ && (t == "IObject"@ || t == "Object"@)
            ||| f == "defaultSuinsName"@ && (t == "IAddressable"@ || t == "Object"@)
            ||| (f == "contents"@ || f == "hasPublicTransfer"@ || f == "moveObjectBcs"@) && t ==
                "IMoveObject"@
            ||| f == "coinDenyList"@ && t == "Epoch"@
            ||| (f == "object"@ || f == "objectVersions"@) && t == "Query"@
        },
{
    type_names_differ();
    field_names_differ();
    pipeline_names_differ();
}

/// An event index is needed behind the events of the query root and every field of an event, and
/// nowhere else: the index by module with a `module` filter, the one by struct without.
pub proof fn fields_that_need_an_event_index(t: Seq<char>, f: Seq<char>, filters: Set<Seq<char>>)
    ensures
        ({
            let needed = pipelines_for(t, Some(f), filters);
            let scan = {
                ||| f == "events"@ && t == "Query"@
                ||| (f == "contents"@ || f == "eventBcs"@ || f == "sender"@ || f ==
                    "sequenceNumber"@ || f == "timestamp"@ || f == "transaction"@ || f ==
                    "transactionModule"@) && t == "Event"@
            };
            &&& needed.contains("ev_emit_mod"@) <==> scan && filters.contains("module"@)
            &&& needed.contains("ev_struct_inst"@) <==> scan && !filters.contains("module"@)
        }),
{
    type_names_differ();
    field_names_differ();
    pipeline_names_differ();
}

/// A transaction index is needed behind scans of transactions, and nowhere else.
///
/// - Calls: whenever the called function is asked for.
/// - Affected addresses: without that, where the scan belongs to an address or an object, or asks
///   for an affected address, or asks for a sender but for no affected objects.
/// - Kinds: with neither of the first two, where a kind but no sender is asked for.
/// - Affected objects: with neither of the first two, where such objects are asked for, unless the
///   index by kind is taken.
pub proof fn fields_that_need_a_transaction_index(
    t: Seq<char>,
    f: Seq<char>,
    filters: Set<Seq<char>>,
)
    ensures
        ({
            let needed = pipelines_for(t, Some(f), filters);
            let own = {
                ||| f == "transactions"@ && t == "Address"@
                ||| f == "receivedTransactions"@ && (t == "CoinMetadata"@ || t == "IObject"@ || t
                    == "MovePackage"@)
            };
            let root = f == "transactions"@ && (t == "Checkpoint"@ || t == "Query"@);
            let function = filters.contains("function"@);
            let address = own || filters.contains("affectedAddress"@);
            let kind = filters.contains("kind"@);
            let sender = filters.contains("sentAddress"@);
            let objects = filters.contains("affectedObjects"@);
            &&& needed.contains("tx_calls"@) <==> (own || root) && function
            &&& needed.contains("tx_affected_addresses"@) <==> (own || root) && !function && (address
                || sender && !objects)
            &&& needed.contains("tx_kinds"@) <==> root && !function && !address && kind && !sender
            &&& needed.contains("tx_affected_objects"@) <==> root && !function && !address && objects
                && (sender || !kind)
        }),
{
    type_names_differ();
    field_names_differ();
    pipeline_names_differ();
    filter_names_differ();
}

/// Transaction digests are needed behind every scan of transactions or events and behind balance
/// changes; checkpoint sequence numbers behind every scan of transactions and lists of checkpoints;
/// the index of balance changes behind balance changes alone.
pub proof fn fields_that_need_digests_or_checkpoints(
    t: Seq<char>,
    f: Seq<char>,
    filters: Set<Seq<char>>,
)
    ensures
        ({
            let needed = pipelines_for(t, Some(f), filters);
            let transactions = {
                ||| f == "transactions"@ && t == "Address"@
                ||| f == "receivedTransactions"@ && (t == "CoinMetadata"@ || t == "IObject"@ || t
                    == "MovePackage"@)
                ||| f == "transactions"@ && (t == "Checkpoint"@ || t == "Query"@)
            };
            let events = {
                ||| f == "events"@ && t == "Query"@
                ||| (f == "contents"@ || f == "eventBcs"@ || f == "sender"@ || f ==
                    "sequenceNumber"@ || f == "timestamp"@ || f == "transaction"@ || f ==
                    "transactionModule"@) && t == "Event"@
            };
            let changes = t == "TransactionEffects"@ && f == "balanceChanges"@;
            &&& needed.contains("tx_digests"@) <==> transactions || events || changes
            &&& needed.contains("cp_sequence_numbers"@) <==> transactions || f == "checkpoints"@ && (t
                == "Epoch"@ || t == "Query"@)
            &&& needed.contains("tx_balance_changes"@) <==> changes
        }),
{
    type_names_differ();
    field_names_differ();
    pipeline_names_differ();
}

/// No field needs any other pipeline than these eleven, and an absent field needs none.
pub proof fn no_field_needs_another_pipeline(
    t: Seq<char>,
    field: Option<Seq<char>>,
    filters: Set<Seq<char>>,
    p: Seq<char>,
)
    requires
        pipelines_for(t, field, filters).contains(p),
    ensures
        field is Some,
        ({
            ||| p == "consistent"@
            ||| p == "cp_sequence_numbers"@
            ||| p == "ev_emit_mod"@
            ||| p == "ev_struct_inst"@
            ||| p == "obj_versions"@
            ||| p == "tx_affected_addresses"@
            ||| p == "tx_affected_objects"@
            ||| p == "tx_balance_changes"@
            ||| p == "tx_calls"@
            ||| p == "tx_digests"@
            ||| p == "tx_kinds"@
        }),
{
}

/// The pipelines behind the transactions of the query root, for every combination of filters: the
/// function that is called comes first, then the affected address, then the kind where no sender is
/// asked for, then the affected objects, then the sender.
pub proof fn precedence_of_transaction_filters(filters: Set<Seq<char>>)
    ensures
        ({
            let needed = pipelines_for("Query"@, Some("transactions"@), filters);
            let function = filters.contains("function"@);
            let address = filters.contains("affectedAddress"@);
            let kind = filters.contains("kind"@);
            let sender = filters.contains("sentAddress"@);
            let objects = filters.contains("affectedObjects"@);
            &&& function ==> needed == set!["tx_digests"@, "cp_sequence_numbers"@, "tx_calls"@]
            &&& !function && address ==> needed == set![
                "tx_digests"@,
                "cp_sequence_numbers"@,
                "tx_affected_addresses"@,
            ]
            &&& !function && !address && kind && !sender ==> needed == set![
                "tx_digests"@,
                "cp_sequence_numbers"@,
                "tx_kinds"@,
            ]
            &&& !function && !address && (sender || !kind) && objects ==> needed == set![
                "tx_digests"@,
                "cp_sequence_numbers"@,
                "tx_affected_objects"@,
            ]
            &&& !function && !address && sender && !objects ==> needed == set![
                "tx_digests"@,
                "cp_sequence_numbers"@,
                "tx_affected_addresses"@,
            ]
            &&& !function && !address && !kind && !sender && !objects ==> needed == set![
                "tx_digests"@,
                "cp_sequence_numbers"@,
            ]
        }),
{
    type_names_differ();
    field_names_differ();
}

/// A field is asked for by its own characters, and an absent one is not asked for.
pub proof fn field_text_is_the_field(f: &str)
    ensures
        field_text(Some(f)) == Some(f@),
        field_text(None) is None,
{
}

} // verus!
