//! The grapheme cluster boundary rules of UAX #29, stated over whole
//! sequences of character properties.
use crate::properties::{CharProperties, GCBProperty, InCBProperty};
use vstd::prelude::*;

verus! {

/// Rules GB3 to GB9b, which look only at the two characters on either side of
/// the position: `Some(true)` for a boundary, `Some(false)` for none, and
/// `None` where none of these rules applies.
pub open spec fn pair_rule(prev: CharProperties, next: CharProperties) -> Option<bool> {
    let p = prev.gcb();
    let n = next.gcb();
    if p == GCBProperty::CR && n == GCBProperty::LF {
        // GB3: CR × LF
        Some(false)
    } else if prev.is_control() || next.is_control() {
        // GB4: (Control | CR | LF) ÷   and   GB5: ÷ (Control | CR | LF)
        Some(true)
    } else if p == GCBProperty::L && (n == GCBProperty::L || n == GCBProperty::V
        || n == GCBProperty::LV || n == GCBProperty::LVT) {
        // GB6: L × (L | V | LV | LVT)
        Some(false)
    } else if (p == GCBProperty::LV || p == GCBProperty::V) && (n == GCBProperty::V
        || n == GCBProperty::T) {
        // GB7: (LV | V) × (V | T)
        Some(false)
    } else if (p == GCBProperty::LVT || p == GCBProperty::T) && n == GCBProperty::T {
        // GB8: (LVT | T) × T
        Some(false)
    } else if n == GCBProperty::Extend || n == GCBProperty::ZWJ {
        // GB9: × (Extend | ZWJ)
        Some(false)
    } else if n == GCBProperty::SpacingMark {
        // GB9a: × SpacingMark
        Some(false)
    } else if p == GCBProperty::Prepend {
        // GB9b: Prepend ×
        Some(false)
    } else {
        None
    }
}

/// `h` ends with `\p{InCB=Consonant} \p{InCB=Extend}*`.
pub open spec fn ends_with_consonant(h: Seq<CharProperties>) -> bool
    decreases h.len(),
{
    if h.len() == 0 {
        false
    } else {
        ||| h.last().incb() == InCBProperty::Consonant
        ||| h.last().incb() == InCBProperty::Extend && ends_with_consonant(h.drop_last())
    }
}

/// `h` ends with `\p{InCB=Consonant} [\p{InCB=Extend}\p{InCB=Linker}]*
/// \p{InCB=Linker} [\p{InCB=Extend}\p{InCB=Linker}]*`, the context in which
/// rule GB9c joins a following consonant.
pub open spec fn ends_with_linked_consonant(h: Seq<CharProperties>) -> bool
    decreases h.len(),
{
    if h.len() == 0 {
        false
    } else {
        ||| h.last().incb() == InCBProperty::Linker && (ends_with_consonant(h.drop_last())
            || ends_with_linked_consonant(h.drop_last()))
        ||| h.last().incb() == InCBProperty::Extend && ends_with_linked_consonant(h.drop_last())
    }
}

/// `h` ends with `\p{Extended_Pictographic} Extend*`.
pub open spec fn ends_with_pictographic(h: Seq<CharProperties>) -> bool
    decreases h.len(),
{
    if h.len() == 0 {
        false
    } else {
        ||| h.last().gcb() == GCBProperty::ExtendedPictographic
        ||| h.last().gcb() == GCBProperty::Extend && ends_with_pictographic(h.drop_last())
    }
}

/// `h` ends with `\p{Extended_Pictographic} Extend* ZWJ`, the context in which
/// rule GB11 joins a following pictographic character.
pub open spec fn ends_with_pictographic_zwj(h: Seq<CharProperties>) -> bool {
    h.len() > 0 && h.last().gcb() == GCBProperty::ZWJ && ends_with_pictographic(h.drop_last())
}

/// `h` ends with an odd number of consecutive regional indicators, the
/// context in which rules GB12 and GB13 join a following one.
pub open spec fn ends_with_odd_flag_run(h: Seq<CharProperties>) -> bool
    decreases h.len(),
{
    h.len() > 0 && h.last().gcb() == GCBProperty::RegionalIndicator
        && !ends_with_odd_flag_run(h.drop_last())
}

/// Whether UAX #29 puts a boundary between the nonempty history `h` and the
/// character `next` that follows it (rules GB3 to GB999).
pub open spec fn boundary_after(h: Seq<CharProperties>, next: CharProperties) -> bool {
    match pair_rule(h.last(), next) {
        Some(b) => b,
        None => !{
            // GB9c
            ||| next.incb() == InCBProperty::Consonant && ends_with_linked_consonant(h)
            // GB11
            ||| next.gcb() == GCBProperty::ExtendedPictographic && ends_with_pictographic_zwj(h)
            // GB12 and GB13
            ||| next.gcb() == GCBProperty::RegionalIndicator && ends_with_odd_flag_run(h)
        },
    }
}

/// Whether UAX #29 puts a grapheme cluster boundary before `s[i]`: always at
/// the start of the text (GB1), elsewhere by [`boundary_after`].
pub open spec fn is_boundary(s: Seq<CharProperties>, i: int) -> bool {
    i == 0 || boundary_after(s.take(i), s[i])
}

/// Whether the two property values of `c` can occur together in the Unicode
/// character database: an extended pictographic character or a regional
/// indicator has no Indic conjunct break value, and an Indic consonant has
/// no grapheme cluster break value.
pub open spec fn is_consistent(c: CharProperties) -> bool {
    &&& c.gcb() == GCBProperty::ExtendedPictographic ==> c.incb() == InCBProperty::Other
    &&& c.gcb() == GCBProperty::RegionalIndicator ==> c.incb() == InCBProperty::Other
    &&& c.incb() == InCBProperty::Consonant ==> c.gcb() == GCBProperty::Other
}

/// `h` ends inside one of the contexts that rules GB9c and GB11 look back at.
pub open spec fn ends_in_join_context(h: Seq<CharProperties>) -> bool {
    ||| ends_with_consonant(h)
    ||| ends_with_linked_consonant(h)
    ||| ends_with_pictographic(h)
    ||| ends_with_pictographic_zwj(h)
}

} // verus!
