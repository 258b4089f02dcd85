//! Unique identifiers of units and items.
use vstd::prelude::*;
use uuid::Uuid;

verus! {

/// Universally unique identifier of units, items and map objects.
#[verifier::external_type_specification]
#[verifier::external_body]
pub struct ExUuid(Uuid);

/// `Clone` of `uuid::Uuid` (derived together with `Copy`): the copy equals the value copied.
pub assume_specification[ <Uuid as Clone>::clone ](id: &Uuid) -> (c: Uuid)
    ensures
        c == *id,
;

/// A fresh random (version 4) identifier, from `uuid::Uuid::new_v4`.
///
/// Nothing is stated of the value: it comes from the system's random source.
#[verifier::external_body]
pub(crate) fn random_id() -> (id: Uuid) {
    Uuid::new_v4()
}

} // verus!
