use vstd::prelude::*;

verus! {

/// Classification of Han-script ideographs of general category Lo: the scalar
/// values eligible for regional annotation. The set is the union of the CJK
/// ideograph blocks (unified, extensions, and compatibility ideographs).
pub open spec fn spec_is_han_script_lo(c: char) -> bool {
    let u = c as u32;
    (0x3400 <= u && u <= 0x4DBF) || (0x4E00 <= u && u <= 0x9FFF) || (0xF900 <= u && u <= 0xFA6D)
        || (0xFA70 <= u && u <= 0xFAD9) || (0x20000 <= u && u <= 0x2A6DF) || (0x2A700 <= u && u
        <= 0x2B739) || (0x2B740 <= u && u <= 0x2B81D) || (0x2B820 <= u && u <= 0x2CEA1) || (0x2CEB0
        <= u && u <= 0x2EBE0) || (0x2EBF0 <= u && u <= 0x2EE5D) || (0x2F800 <= u && u <= 0x2FA1D)
        || (0x30000 <= u && u <= 0x3134A) || (0x31350 <= u && u <= 0x323AF)
}

/// Total, pure range test for Han-script ideographs eligible for annotation.
pub fn is_han_script_lo_character(ch: char) -> (r: bool)
    ensures
        r == spec_is_han_script_lo(ch),
{
    let u: u32 = ch as u32;
    (0x3400 <= u && u <= 0x4DBF) || (0x4E00 <= u && u <= 0x9FFF) || (0xF900 <= u && u <= 0xFA6D)
        || (0xFA70 <= u && u <= 0xFAD9) || (0x20000 <= u && u <= 0x2A6DF) || (0x2A700 <= u && u
        <= 0x2B739) || (0x2B740 <= u && u <= 0x2B81D) || (0x2B820 <= u && u <= 0x2CEA1) || (0x2CEB0
        <= u && u <= 0x2EBE0) || (0x2EBF0 <= u && u <= 0x2EE5D) || (0x2F800 <= u && u <= 0x2FA1D)
        || (0x30000 <= u && u <= 0x3134A) || (0x31350 <= u && u <= 0x323AF)
}

} // verus!
