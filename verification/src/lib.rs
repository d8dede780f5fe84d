//! Regional glyph-variant annotation for rune streams.
//!
//! The PanCJKV collection uses Unicode variation selectors to pin a CJK
//! ideograph to one regional glyph form. This crate inserts the selector of a
//! chosen region immediately after the first Han-script ideograph of each
//! textual atom (a `runestr::rune`, one user-perceived character), leaving
//! atoms that carry no eligible ideograph, or that are already annotated,
//! untouched.

mod annotate;
mod decision;
mod region;
mod runes;
mod selector;
mod tables;

pub use annotate::{
    annotate_rune, is_annotated_outcome, AnnotateError, PanCJKVAnnotate, PanCJKVAnnotateIter,
};
pub use decision::{
    annotated_seq, cluster_annotated, first_han_index, lemma_annotate_idempotent,
    lemma_annotate_stable, lemma_annotated_cluster_unchanged, lemma_cross_region_non_interference,
    lemma_first_han_index_bounds, lemma_first_han_index_unique, lemma_non_han_passthrough,
    rebuild_chars,
};
pub use region::{
    lemma_region_vs_block, lemma_region_vs_injective, lemma_region_vs_is_selector, region_vs,
    spec_region_vs, PanCJKVRegion,
};
pub use runes::{rune_chars, rune_cluster};
pub use selector::{is_vs, spec_is_vs};
pub use tables::{is_han_script_lo_character, spec_is_han_script_lo};
