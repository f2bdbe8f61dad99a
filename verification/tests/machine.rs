use grapheme_machine::{CharProperties, ClusterAction, GCBProperty, GraphemeMachine, InCBProperty};

use grapheme_machine::ClusterAction::{Continue, Split};
use grapheme_machine::GCBProperty::{
    Control, Extend, ExtendedPictographic, LVT, Other, Prepend, RegionalIndicator, SpacingMark, CR,
    L, LF, LV, T, V, ZWJ,
};

fn gcb(g: GCBProperty) -> CharProperties {
    CharProperties::new(g, InCBProperty::Other)
}

fn feed(m: &mut GraphemeMachine, chars: &[CharProperties]) -> Vec<ClusterAction> {
    chars.iter().map(|c| m.next_char_properties(*c)).collect()
}

fn segment(chars: &[CharProperties]) -> Vec<ClusterAction> {
    let mut m = GraphemeMachine::new();
    feed(&mut m, chars)
}

const ALL_GCB: [GCBProperty; 15] = [
    GCBProperty::Other,
    GCBProperty::CR,
    GCBProperty::Control,
    GCBProperty::Extend,
    GCBProperty::ExtendedPictographic,
    GCBProperty::L,
    GCBProperty::LF,
    GCBProperty::LV,
    GCBProperty::LVT,
    GCBProperty::Prepend,
    GCBProperty::RegionalIndicator,
    GCBProperty::SpacingMark,
    GCBProperty::T,
    GCBProperty::V,
    GCBProperty::ZWJ,
];

const ALL_INCB: [InCBProperty; 4] = [
    InCBProperty::Other,
    InCBProperty::Consonant,
    InCBProperty::Extend,
    InCBProperty::Linker,
];

#[test]
fn first_character_always_splits() {
    for g in ALL_GCB {
        for i in ALL_INCB {
            let mut m = GraphemeMachine::new();
            assert_eq!(m.next_char_properties(CharProperties::new(g, i)), Split);
        }
    }
}

#[test]
fn cr_lf_is_one_cluster() {
    assert_eq!(segment(&[gcb(CR), gcb(LF)]), vec![Split, Continue]);
    assert_eq!(segment(&[gcb(LF), gcb(CR)]), vec![Split, Split]);
    assert_eq!(segment(&[gcb(CR), gcb(CR), gcb(LF)]), vec![Split, Split, Continue]);
}

#[test]
fn breaks_around_controls() {
    assert_eq!(segment(&[gcb(Other), gcb(Control), gcb(Other)]), vec![Split, Split, Split]);
    assert_eq!(segment(&[gcb(Other), gcb(LF), gcb(Extend)]), vec![Split, Split, Split]);
    assert_eq!(segment(&[gcb(Prepend), gcb(CR)]), vec![Split, Split]);
}

#[test]
fn hangul_syllables_stay_together() {
    assert_eq!(segment(&[gcb(L), gcb(L), gcb(V), gcb(T)]), vec![Split, Continue, Continue, Continue]);
    assert_eq!(segment(&[gcb(LV), gcb(V), gcb(T), gcb(T)]), vec![Split, Continue, Continue, Continue]);
    assert_eq!(segment(&[gcb(L), gcb(LVT), gcb(T)]), vec![Split, Continue, Continue]);
    assert_eq!(segment(&[gcb(T), gcb(L)]), vec![Split, Split]);
    assert_eq!(segment(&[gcb(LVT), gcb(V)]), vec![Split, Split]);
}

#[test]
fn extenders_marks_and_prepend() {
    assert_eq!(segment(&[gcb(Other), gcb(Extend), gcb(ZWJ)]), vec![Split, Continue, Continue]);
    assert_eq!(segment(&[gcb(Other), gcb(SpacingMark)]), vec![Split, Continue]);
    assert_eq!(segment(&[gcb(Prepend), gcb(Other), gcb(Other)]), vec![Split, Continue, Split]);
    assert_eq!(segment(&[gcb(Other), gcb(Other)]), vec![Split, Split]);
}

#[test]
fn indic_conjuncts_join_through_a_linker() {
    let consonant = CharProperties::new(GCBProperty::Other, InCBProperty::Consonant);
    let linker = CharProperties::new(GCBProperty::Extend, InCBProperty::Linker);
    let extend = CharProperties::new(GCBProperty::Extend, InCBProperty::Extend);
    assert_eq!(segment(&[consonant, linker, consonant]), vec![Split, Continue, Continue]);
    assert_eq!(
        segment(&[consonant, extend, linker, extend, consonant]),
        vec![Split, Continue, Continue, Continue, Continue]
    );
    assert_eq!(segment(&[consonant, extend, consonant]), vec![Split, Continue, Split]);
    assert_eq!(segment(&[gcb(GCBProperty::Other), linker, consonant]), vec![Split, Continue, Split]);
}

#[test]
fn emoji_zwj_sequences_stay_together() {
    let pict = gcb(ExtendedPictographic);
    assert_eq!(
        segment(&[pict, gcb(Extend), gcb(ZWJ), pict]),
        vec![Split, Continue, Continue, Continue]
    );
    assert_eq!(segment(&[pict, gcb(ZWJ), pict, gcb(ZWJ), pict]), vec![Split, Continue, Continue, Continue, Continue]);
    assert_eq!(segment(&[gcb(Other), gcb(ZWJ), pict]), vec![Split, Continue, Split]);
    assert_eq!(segment(&[pict, pict]), vec![Split, Split]);
}

#[test]
fn regional_indicators_pair_up() {
    let ri = gcb(GCBProperty::RegionalIndicator);
    assert_eq!(segment(&[ri, ri, ri, ri, ri]), vec![Split, Continue, Split, Continue, Split]);
    assert_eq!(
        segment(&[gcb(GCBProperty::Other), ri, ri, ri]),
        vec![Split, Split, Continue, Split]
    );
    assert_eq!(segment(&[ri, gcb(GCBProperty::Extend), ri, ri]), vec![Split, Continue, Split, Continue]);
}

#[test]
fn flag_pair_right_after_a_pictograph_stays_together() {
    let ri = gcb(RegionalIndicator);
    let pict = gcb(ExtendedPictographic);
    assert_eq!(segment(&[pict, ri, ri]), vec![Split, Split, Continue]);
    assert_eq!(segment(&[pict, ri, ri, ri]), vec![Split, Split, Continue, Split]);
    assert_eq!(segment(&[pict, gcb(Extend), ri, ri]), vec![Split, Continue, Split, Continue]);
    assert_eq!(segment(&[pict, gcb(ZWJ), ri, ri]), vec![Split, Continue, Split, Continue]);
}

#[test]
fn flag_pair_right_after_a_consonant_stays_together() {
    let ri = gcb(RegionalIndicator);
    let consonant = CharProperties::new(Other, InCBProperty::Consonant);
    let linker = CharProperties::new(Extend, InCBProperty::Linker);
    assert_eq!(segment(&[consonant, ri, ri]), vec![Split, Split, Continue]);
    assert_eq!(segment(&[consonant, linker, ri, ri]), vec![Split, Continue, Split, Continue]);
}

#[test]
fn end_of_input_resets_the_machine() {
    let mut m = GraphemeMachine::new();
    assert_eq!(m.next_char_properties(gcb(CR)), Split);
    assert_eq!(m.end_of_input(), Split);
    assert!(m.eq(GraphemeMachine::new()));
    assert_eq!(m.next_char_properties(gcb(LF)), Split);
    assert_eq!(m.next_char_properties(gcb(Extend)), Split);
    assert_eq!(m.next_char_properties(gcb(Extend)), Continue);
}

#[test]
fn chunked_input_matches_whole_input() {
    let text = [gcb(ExtendedPictographic), gcb(ZWJ), gcb(ExtendedPictographic), gcb(CR), gcb(LF)];
    let whole = segment(&text);
    for cut in 0..=text.len() {
        let mut m = GraphemeMachine::new();
        let mut parts = feed(&mut m, &text[..cut]);
        parts.extend(feed(&mut m, &text[cut..]));
        assert_eq!(parts, whole);
    }
}

#[test]
fn char_properties_round_trip() {
    for g in ALL_GCB {
        for i in ALL_INCB {
            let p = CharProperties::new(g, i);
            assert_eq!(p.gcb_property(), g);
            assert_eq!(p.incb_property(), i);
        }
    }
}

#[test]
fn char_properties_equality_is_equality_of_parts() {
    for g1 in ALL_GCB {
        for i1 in ALL_INCB {
            for g2 in ALL_GCB {
                for i2 in ALL_INCB {
                    let a = CharProperties::new(g1, i1);
                    let b = CharProperties::new(g2, i2);
                    assert_eq!(a.eq(b), g1 == g2 && i1 == i2);
                }
            }
        }
    }
}

#[test]
fn is_any_control_covers_cr_lf_and_control() {
    for g in ALL_GCB {
        let expected = matches!(g, GCBProperty::CR | GCBProperty::LF | GCBProperty::Control);
        assert_eq!(gcb(g).is_any_control(), expected);
    }
}

#[test]
fn property_equality() {
    for (x, a) in ALL_GCB.into_iter().enumerate() {
        for (y, b) in ALL_GCB.into_iter().enumerate() {
            assert_eq!(a.eq(b), x == y);
        }
    }
    for (x, a) in ALL_INCB.into_iter().enumerate() {
        for (y, b) in ALL_INCB.into_iter().enumerate() {
            assert_eq!(a.eq(b), x == y);
        }
    }
    assert!(Split.eq(Split));
    assert!(Continue.eq(Continue));
    assert!(!Split.eq(Continue));
    assert!(!Continue.eq(Split));
}

#[test]
fn machine_equality() {
    let mut a = GraphemeMachine::new();
    let mut b = GraphemeMachine::new();
    assert!(a.eq(b));
    a.next_char_properties(gcb(Other));
    assert!(!a.eq(b));
    b.next_char_properties(gcb(Other));
    assert!(a.eq(b));
    a.next_char_properties(gcb(RegionalIndicator));
    b.next_char_properties(gcb(Other));
    assert!(!a.eq(b));
    let mut c = GraphemeMachine::new();
    c.next_char_properties(gcb(RegionalIndicator));
    let mut d = GraphemeMachine::new();
    d.next_char_properties(gcb(RegionalIndicator));
    d.next_char_properties(gcb(RegionalIndicator));
    // same last character, different state
    assert!(!c.eq(d));
}

#[test]
fn indic_context_survives_a_flag_with_indic_value() {
    let consonant = CharProperties::new(Other, InCBProperty::Consonant);
    let flag_linker = CharProperties::new(RegionalIndicator, InCBProperty::Linker);
    let flag_extend = CharProperties::new(RegionalIndicator, InCBProperty::Extend);
    let linker = CharProperties::new(Extend, InCBProperty::Linker);
    assert_eq!(segment(&[consonant, flag_linker, consonant]), vec![Split, Split, Continue]);
    assert_eq!(
        segment(&[consonant, flag_extend, linker, consonant]),
        vec![Split, Split, Continue, Continue]
    );
}
