use vstd::prelude::*;

use runestr::rune;

verus! {

#[verifier::external_type_specification]
#[verifier::external_body]
pub struct ExRune(rune);

/// What a rune holds: the non-empty scalar-value sequence its `into_chars`
/// iterator yields. A rune is a handle into runestr's thread-local,
/// append-only registry, so a value's contents never change for as long as
/// it lives.
pub uninterp spec fn rune_chars(r: rune) -> Seq<char>;

/// What `runestr::rune::from_grapheme_cluster` answers for a given
/// scalar-value sequence: `None` when the text is not exactly one grapheme
/// cluster forming a complete rune, otherwise the contents of the rune it
/// builds (the crate normalizes the text before storing it, so those contents
/// need not equal the input).
pub uninterp spec fn rune_cluster(s: Seq<char>) -> Option<Seq<char>>;

/// Relies on `runestr::rune::into_char`: `Some` exactly when the rune holds a
/// single scalar value, and then that value.
#[verifier::external_body]
pub(crate) fn rune_into_char(r: rune) -> (c: Option<char>)
    ensures
        c is Some <==> rune_chars(r).len() == 1,
        c matches Some(ch) ==> rune_chars(r) == seq![ch],
{
    r.into_char()
}

/// Relies on `runestr::rune::into_chars`: collects exactly what the iterator
/// yields, and a rune never holds fewer than one scalar value.
#[verifier::external_body]
pub(crate) fn rune_to_chars(r: rune) -> (v: Vec<char>)
    ensures
        v@ == rune_chars(r),
        v@.len() >= 1,
{
    r.into_chars().collect()
}

/// Relies on `runestr::rune::from_grapheme_cluster`: `None` unless the text
/// is exactly one grapheme cluster that forms a complete rune; on success the
/// new rune holds what the call stored for this text.
#[verifier::external_body]
pub(crate) fn rune_from_chars(v: &Vec<char>) -> (r: Option<rune>)
    ensures
        r is Some <==> rune_cluster(v@) is Some,
        r matches Some(x) ==> Some(rune_chars(x)) == rune_cluster(v@),
{
    let s: String = v.iter().collect();
    rune::from_grapheme_cluster(&s)
}

} // verus!
