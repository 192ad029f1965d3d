//! Declarations of the types and functions of other crates that the
//! settings rely on. Nothing in this file is proved: each contract states
//! what the named function is known to do.

use vstd::prelude::*;

verus! {

/// `grin_core::global::ChainTypes`: the kind of chain that a node follows.
#[verifier::external_type_specification]
#[verifier::external_body]
pub struct ExChainTypes(grin_core::global::ChainTypes);

/// `PartialEq::eq` of `grin_core::global::ChainTypes`, which is derived for
/// an enumeration without fields: whether the two are the same kind.
#[verifier::external_body]
pub(crate) fn same_chain_type(
    first: &grin_core::global::ChainTypes,
    second: &grin_core::global::ChainTypes,
) -> (same: bool)
    ensures
        same == (*first == *second),
{
    first == second
}

/// `Default::default` of `grin_core::global::ChainTypes`: the kind of chain
/// that a node follows unless it is told otherwise.
#[verifier::external_body]
pub(crate) fn default_chain_type() -> (chain_type: grin_core::global::ChainTypes) {
    grin_core::global::ChainTypes::default()
}

} // verus!
