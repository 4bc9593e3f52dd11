//! The names of the GraphQL types and fields that can be tied to a checkpoint, told apart.
use vstd::prelude::*;

verus! {

/// The length of a name with its first and its fifth letter.
pub open spec fn mark(name: Seq<char>) -> (nat, char, char) {
    (name.len(), name[0], name[4])
}

/// The type names have marks of their own: no two of them are the same string.
pub proof fn type_names_differ()
    ensures
        mark("Address"@) == (7nat, 'A', 'e'),
        mark("Checkpoint"@) == (10nat, 'C', 'k'),
        mark("CoinMetadata"@) == (12nat, 'C', 'M'),
        mark("Epoch"@) == (5nat, 'E', 'h'),
        mark("Event"@) == (5nat, 'E', 't'),
        mark("IAddressable"@) == (12nat, 'I', 'r'),
        mark("IMoveObject"@) == (11nat, 'I', 'e'),
        mark("IObject"@) == (7nat, 'I', 'e'),
        mark("MovePackage"@) == (11nat, 'M', 'P'),
        mark("Object"@) == (6nat, 'O', 'c'),
        mark("Query"@) == (5nat, 'Q', 'y'),
        mark("TransactionEffects"@) == (18nat, 'T', 's'),
{
    reveal_strlit("Address");
    reveal_strlit("Checkpoint");
    reveal_strlit("CoinMetadata");
    reveal_strlit("Epoch");
    reveal_strlit("Event");
    reveal_strlit("IAddressable");
    reveal_strlit("IMoveObject");
    reveal_strlit("IObject");
    reveal_strlit("MovePackage");
    reveal_strlit("Object");
    reveal_strlit("Query");
    reveal_strlit("TransactionEffects");
}

/// The field names have marks of their own: no two of them are the same string.
pub proof fn field_names_differ()
    ensures
        mark("address"@) == (7nat, 'a', 'e'),
        mark("asMoveObject"@) == (12nat, 'a', 'v'),
        mark("asMovePackage"@) == (13nat, 'a', 'v'),
        mark("asObject"@) == (8nat, 'a', 'j'),
        mark("balance"@) == (7nat, 'b', 'n'),
        mark("balanceChanges"@) == (14nat, 'b', 'n'),
        mark("balances"@) == (8nat, 'b', 'n'),
        mark("checkpoints"@) == (11nat, 'c', 'k'),
        mark("coinDenyList"@) == (12nat, 'c', 'D'),
        mark("coinMetadata"@) == (12nat, 'c', 'M'),
        mark("contents"@) == (8nat, 'c', 'e'),
        mark("defaultSuinsName"@) == (16nat, 'd', 'u'),
        mark("digest"@) == (6nat, 'd', 's'),
        mark("dynamicField"@) == (12nat, 'd', 'm'),
        mark("dynamicFields"@) == (13nat, 'd', 'm'),
        mark("dynamicObjectField"@) == (18nat, 'd', 'm'),
        mark("eventBcs"@) == (8nat, 'e', 't'),
        mark("events"@) == (6nat, 'e', 't'),
        mark("hasPublicTransfer"@) == (17nat, 'h', 'u'),
        mark("moveObjectBcs"@) == (13nat, 'm', 'O'),
        mark("multiGetBalances"@) == (16nat, 'm', 'i'),
        mark("multiGetDynamicFields"@) == (21nat, 'm', 'i'),
        mark("multiGetDynamicObjectFields"@) == (27nat, 'm', 'i'),
        mark("object"@) == (6nat, 'o', 'c'),
        mark("objectAt"@) == (8nat, 'o', 'c'),
        mark("objectBcs"@) == (9nat, 'o', 'c'),
        mark("objectVersions"@) == (14nat, 'o', 'c'),
        mark("objectVersionsAfter"@) == (19nat, 'o', 'c'),
        mark("objectVersionsBefore"@) == (20nat, 'o', 'c'),
        mark("objects"@) == (7nat, 'o', 'c'),
        mark("owner"@) == (5nat, 'o', 'r'),
        mark("previousTransaction"@) == (19nat, 'p', 'i'),
        mark("receivedTransactions"@) == (20nat, 'r', 'i'),
        mark("sender"@) == (6nat, 's', 'e'),
        mark("sequenceNumber"@) == (14nat, 's', 'e'),
        mark("storageRebate"@) == (13nat, 's', 'a'),
        mark("supply"@) == (6nat, 's', 'l'),
        mark("timestamp"@) == (9nat, 't', 's'),
        mark("transaction"@) == (11nat, 't', 's'),
        mark("transactionModule"@) == (17nat, 't', 's'),
        mark("transactions"@) == (12nat, 't', 's'),
        mark("version"@) == (7nat, 'v', 'i'),
{
    reveal_strlit("address");
    reveal_strlit("asMoveObject");
    reveal_strlit("asMovePackage");
    reveal_strlit("asObject");
    reveal_strlit("balance");
    reveal_strlit("balanceChanges");
    reveal_strlit("balances");
    reveal_strlit("checkpoints");
    reveal_strlit("coinDenyList");
    reveal_strlit("coinMetadata");
    reveal_strlit("contents");
    reveal_strlit("defaultSuinsName");
    reveal_strlit("digest");
    reveal_strlit("dynamicField");
    reveal_strlit("dynamicFields");
    reveal_strlit("dynamicObjectField");
    reveal_strlit("eventBcs");
    reveal_strlit("events");
    reveal_strlit("hasPublicTransfer");
    reveal_strlit("moveObjectBcs");
    reveal_strlit("multiGetBalances");
    reveal_strlit("multiGetDynamicFields");
    reveal_strlit("multiGetDynamicObjectFields");
    reveal_strlit("object");
    reveal_strlit("objectAt");
    reveal_strlit("objectBcs");
    reveal_strlit("objectVersions");
    reveal_strlit("objectVersionsAfter");
    reveal_strlit("objectVersionsBefore");
    reveal_strlit("objects");
    reveal_strlit("owner");
    reveal_strlit("previousTransaction");
    reveal_strlit("receivedTransactions");
    reveal_strlit("sender");
    reveal_strlit("sequenceNumber");
    reveal_strlit("storageRebate");
    reveal_strlit("supply");
    reveal_strlit("timestamp");
    reveal_strlit("transaction");
    reveal_strlit("transactionModule");
    reveal_strlit("transactions");
    reveal_strlit("version");
}

} // verus!
