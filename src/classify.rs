//! The privacy categories of a native transaction, read off its transfer
//! outputs.
use vstd::prelude::*;

verus! {

/// One output of a native transfer: whether its asset type and whether its
/// amount are concealed.
#[derive(Clone, Copy, Debug, PartialEq, Eq, Structural)]
pub struct TransferOutput {
    pub asset_type_confidential: bool,
    pub amount_confidential: bool,
}

/// Some output conceals its asset type, or some output conceals its amount.
pub open spec fn conceals_either(outputs: Seq<TransferOutput>) -> bool {
    exists|i: int|
        0 <= i < outputs.len() && (#[trigger] outputs[i]).asset_type_confidential
            || 0 <= i < outputs.len() && outputs[i].amount_confidential
}

/// Some output conceals both its asset type and its amount.
pub open spec fn conceals_both(outputs: Seq<TransferOutput>) -> bool {
    exists|i: int|
        0 <= i < outputs.len() && (#[trigger] outputs[i]).asset_type_confidential
            && outputs[i].amount_confidential
}

/// A transaction that conceals both fields of one output conceals either.
pub proof fn lemma_both_implies_either(outputs: Seq<TransferOutput>)
    ensures
        conceals_both(outputs) ==> conceals_either(outputs),
{
    if conceals_both(outputs) {
        let i = choose|i: int|
            0 <= i < outputs.len() && (#[trigger] outputs[i]).asset_type_confidential
                && outputs[i].amount_confidential;
        assert(0 <= i < outputs.len() && outputs[i].asset_type_confidential);
    }
}

/// Whether some output conceals its asset type or its amount.
pub fn hides_amount_or_type(outputs: &Vec<TransferOutput>) -> (r: bool)
    ensures
        r == conceals_either(outputs@),
{
    let mut i: usize = 0;
    while i < outputs.len()
        invariant
            0 <= i <= outputs.len(),
            forall|j: int|
                0 <= j < i ==> !(#[trigger] outputs@[j]).asset_type_confidential
                    && !outputs@[j].amount_confidential,
        decreases outputs.len() - i,
    {
        if outputs[i].asset_type_confidential || outputs[i].amount_confidential {
            return true;
        }
        i += 1;
    }
    false
}

/// Whether some output conceals both its asset type and its amount.
pub fn hides_amount_and_type(outputs: &Vec<TransferOutput>) -> (r: bool)
    ensures
        r == conceals_both(outputs@),
{
    let mut i: usize = 0;
    while i < outputs.len()
        invariant
            0 <= i <= outputs.len(),
            forall|j: int|
                0 <= j < i ==> !((#[trigger] outputs@[j]).asset_type_confidential
                    && outputs@[j].amount_confidential),
        decreases outputs.len() - i,
    {
        if outputs[i].asset_type_confidential && outputs[i].amount_confidential {
            return true;
        }
        i += 1;
    }
    false
}

} // verus!
