use vstd::prelude::*;

verus! {

/// A variation selector is a scalar value in one of the two reserved ranges:
/// the standard range (U+FE00..=U+FE0F) and the supplementary range used by
/// Ideographic Variation Sequences (U+E0100..=U+E01EF).
pub open spec fn spec_is_vs(c: char) -> bool {
    (0xFE00 <= c as u32 && c as u32 <= 0xFE0F) || (0xE0100 <= c as u32 && c as u32 <= 0xE01EF)
}

/// Range test for variation selectors: stateless and total over all scalar
/// values.
pub fn is_vs(ch: char) -> (r: bool)
    ensures
        r == spec_is_vs(ch),
{
    let u: u32 = ch as u32;
    if u >= 0xFE00 && u <= 0xFE0F {
        true
    } else if u >= 0xE0100 && u <= 0xE01EF {
        true
    } else {
        false
    }
}

} // verus!
