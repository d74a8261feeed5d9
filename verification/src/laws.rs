use vstd::prelude::*;

use crate::CatchExt;

verus! {

/// Repeating the same extraction on structurally identical outcomes is
/// interference-free: the residue and the routed error are functions of
/// the outcome alone, so two such calls leave structurally identical
/// residues and make structurally identical emissions, each into its own
/// destination only.
pub proof fn lemma_extraction_deterministic<E, X: CatchExt<E>>(a: X, b: X)
    requires
        a == b,
    ensures
        a.spec_ok_only() == b.spec_ok_only(),
        a.spec_error() == b.spec_error(),
{
}

} // verus!
