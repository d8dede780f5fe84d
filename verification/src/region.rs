use vstd::prelude::*;

verus! {

/// The eleven regions of the PanCJKV collection. Each region is bound to one
/// reserved variation selector; see [`region_vs`].
#[derive(Clone, Copy, Debug, PartialEq, Eq, Structural)]
pub enum PanCJKVRegion {
    /// Kangxi
    XK,
    /// PRC
    CN,
    /// Republic of Singapore
    SG,
    /// ROC
    TW,
    /// Hong Kong SAR
    HK,
    /// Macao SAR
    MO,
    /// Malaysia
    MY,
    /// Japan
    JP,
    /// ROK
    KR,
    /// DPRK
    KP,
    /// Vietnam
    VN,
}

/// The fixed region table: the selector each region is bound to.
pub open spec fn spec_region_vs(region: PanCJKVRegion) -> char {
    match region {
        PanCJKVRegion::XK => '\u{E01EF}',
        PanCJKVRegion::CN => '\u{E01EE}',
        PanCJKVRegion::SG => '\u{E01ED}',
        PanCJKVRegion::TW => '\u{E01EC}',
        PanCJKVRegion::HK => '\u{E01EB}',
        PanCJKVRegion::MO => '\u{E01EA}',
        PanCJKVRegion::MY => '\u{E01E9}',
        PanCJKVRegion::JP => '\u{E01E8}',
        PanCJKVRegion::KR => '\u{E01E7}',
        PanCJKVRegion::KP => '\u{E01E6}',
        PanCJKVRegion::VN => '\u{E01E5}',
    }
}

/// Region-table lookup: total and infallible, returns the one selector bound
/// to `region`.
pub fn region_vs(region: PanCJKVRegion) -> (c: char)
    ensures
        c == spec_region_vs(region),
{
    match region {
        PanCJKVRegion::XK => '\u{E01EF}',
        PanCJKVRegion::CN => '\u{E01EE}',
        PanCJKVRegion::SG => '\u{E01ED}',
        PanCJKVRegion::TW => '\u{E01EC}',
        PanCJKVRegion::HK => '\u{E01EB}',
        PanCJKVRegion::MO => '\u{E01EA}',
        PanCJKVRegion::MY => '\u{E01E9}',
        PanCJKVRegion::JP => '\u{E01E8}',
        PanCJKVRegion::KR => '\u{E01E7}',
        PanCJKVRegion::KP => '\u{E01E6}',
        PanCJKVRegion::VN => '\u{E01E5}',
    }
}

/// Every region's selector passes the variation-selector range test: it lies
/// in the supplementary range.
pub proof fn lemma_region_vs_is_selector(region: PanCJKVRegion)
    ensures
        crate::selector::spec_is_vs(spec_region_vs(region)),
{
}

/// The region table is injective: distinct regions are bound to distinct
/// selectors.
pub proof fn lemma_region_vs_injective(r1: PanCJKVRegion, r2: PanCJKVRegion)
    ensures
        spec_region_vs(r1) == spec_region_vs(r2) ==> r1 == r2,
{
}

/// The eleven selectors fill one contiguous block in scalar-value order.
pub proof fn lemma_region_vs_block(region: PanCJKVRegion)
    ensures
        0xE01E5 <= spec_region_vs(region) as u32 <= 0xE01EF,
{
}

} // verus!
