use sp_inherents::InherentDataProviders;
use vstd::prelude::*;

verus! {

/// The registry of inherent-data providers of `sp_inherents`. Its contents
/// live behind a lock that every handle shares, so nothing is said of them
/// here: a handle is carried through and handed on.
#[verifier::external_type_specification]
#[verifier::external_body]
pub struct ExInherentDataProviders(InherentDataProviders);

/// Calls `InherentDataProviders::new`, which makes a registry of its own.
/// Nothing is claimed of the registry.
#[verifier::external_body]
pub(crate) fn new_registry() -> (registry: InherentDataProviders) {
    InherentDataProviders::new()
}

/// Calls `InherentDataProviders::clone`. The type's one field is a
/// reference-counted pointer to the locked provider list, and the derived
/// clone copies that pointer: the result is a handle to the same registry,
/// which is what equality of handles means here.
#[verifier::external_body]
pub(crate) fn share_registry(registry: &InherentDataProviders) -> (shared: InherentDataProviders)
    ensures
        shared == *registry,
{
    registry.clone()
}

} // verus!
