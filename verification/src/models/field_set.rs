//! Lists of the fields that a sparse update sets.

use vstd::prelude::*;

verus! {

/// `field` alone where `sent` holds, and nothing where it does not.
pub open spec fn field_if<F>(sent: bool, field: F) -> Seq<F> {
    if sent {
        seq![field]
    } else {
        seq![]
    }
}

/// Appends `field` to `fields` where `sent` holds.
pub fn push_if<F>(fields: &mut Vec<F>, sent: bool, field: F)
    ensures
        final(fields)@ == old(fields)@ + field_if(sent, field),
{
    if sent {
        fields.push(field);
        assert(final(fields)@ =~= old(fields)@ + seq![field]);
    } else {
        assert(final(fields)@ =~= old(fields)@ + Seq::<F>::empty());
    }
}

} // verus!
