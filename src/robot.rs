use vstd::prelude::*;

use crate::error::ValidationError;

verus! {

/// The limits are well laid out: one per degree of freedom, each naming the
/// degree of freedom at its own position.
pub open spec fn limits_laid_out(dof: nat, indices: Seq<usize>) -> bool {
    &&& indices.len() == dof
    &&& forall|p: int| 0 <= p < indices.len() ==> #[trigger] indices[p] == p
}

/// Checks the layout of the joint limits of a robot with `dof` degrees of
/// freedom, given the index that each set of limits names, in order. A count
/// mismatch is reported first; otherwise the first position whose limits name
/// another index.
pub fn check_limits(dof: usize, indices: &Vec<usize>) -> (r: Result<(), ValidationError>)
    ensures
        r is Ok <==> limits_laid_out(dof as nat, indices@),
        indices@.len() != dof ==> r == Err::<(), ValidationError>(
            ValidationError::LimitCount { expected: dof, got: indices@.len() as usize },
        ),
        r matches Err(ValidationError::LimitIndex { position, index }) ==> {
            &&& indices@.len() == dof
            &&& position < dof
            &&& index == indices@[position as int]
            &&& index != position
            &&& forall|q: int| 0 <= q < position ==> #[trigger] indices@[q] == q
        },
        indices@.len() == dof && r is Err ==> r->Err_0 is LimitIndex,
{
    if indices.len() != dof {
        return Err(ValidationError::LimitCount { expected: dof, got: indices.len() });
    }
    let mut p: usize = 0;
    while p < indices.len()
        invariant
            p <= indices@.len(),
            indices@.len() == dof,
            forall|q: int| 0 <= q < p ==> #[trigger] indices@[q] == q,
        decreases indices@.len() - p,
    {
        if indices[p] != p {
            return Err(ValidationError::LimitIndex { position: p, index: indices[p] });
        }
        p += 1;
    }
    Ok(())
}

} // verus!
