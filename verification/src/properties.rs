use vstd::prelude::*;

verus! {

/// Values of the **Grapheme_Cluster_Break** property, with
/// **Extended_Pictographic** folded in as one more value.
#[derive(Debug, Clone, Copy, PartialEq, Eq, Structural, Hash)]
pub enum GCBProperty {
    /// None of the grapheme cluster break property values apply.
    Other,
    CR,
    Control,
    Extend,
    ExtendedPictographic,
    L,
    LF,
    LV,
    LVT,
    Prepend,
    RegionalIndicator,
    SpacingMark,
    T,
    V,
    ZWJ,
}

impl GCBProperty {
    /// The four-bit code of this value inside a packed [`CharProperties`].
    pub open spec fn code(self) -> u8 {
        match self {
            GCBProperty::Other => 0x00,
            GCBProperty::CR => 0x01,
            GCBProperty::Control => 0x02,
            GCBProperty::Extend => 0x03,
            GCBProperty::ExtendedPictographic => 0x04,
            GCBProperty::L => 0x05,
            GCBProperty::LF => 0x06,
            GCBProperty::LV => 0x07,
            GCBProperty::LVT => 0x08,
            GCBProperty::Prepend => 0x09,
            GCBProperty::RegionalIndicator => 0x0a,
            GCBProperty::SpacingMark => 0x0b,
            GCBProperty::T => 0x0c,
            GCBProperty::V => 0x0d,
            GCBProperty::ZWJ => 0x0e,
        }
    }

    /// The value whose code is `code`; codes above `0x0e` decode to `Other`.
    pub open spec fn from_code(code: u8) -> GCBProperty {
        if code == 0x01 { GCBProperty::CR }
        else if code == 0x02 { GCBProperty::Control }
        else if code == 0x03 { GCBProperty::Extend }
        else if code == 0x04 { GCBProperty::ExtendedPictographic }
        else if code == 0x05 { GCBProperty::L }
        else if code == 0x06 { GCBProperty::LF }
        else if code == 0x07 { GCBProperty::LV }
        else if code == 0x08 { GCBProperty::LVT }
        else if code == 0x09 { GCBProperty::Prepend }
        else if code == 0x0a { GCBProperty::RegionalIndicator }
        else if code == 0x0b { GCBProperty::SpacingMark }
        else if code == 0x0c { GCBProperty::T }
        else if code == 0x0d { GCBProperty::V }
        else if code == 0x0e { GCBProperty::ZWJ }
        else { GCBProperty::Other }
    }

    /// The four-bit code of this value.
    fn bits(self) -> (r: u8)
        ensures
            r == self.code(),
            r <= 0x0e,
    {
        match self {
            GCBProperty::Other => 0x00,
            GCBProperty::CR => 0x01,
            GCBProperty::Control => 0x02,
            GCBProperty::Extend => 0x03,
            GCBProperty::ExtendedPictographic => 0x04,
            GCBProperty::L => 0x05,
            GCBProperty::LF => 0x06,
            GCBProperty::LV => 0x07,
            GCBProperty::LVT => 0x08,
            GCBProperty::Prepend => 0x09,
            GCBProperty::RegionalIndicator => 0x0a,
            GCBProperty::SpacingMark => 0x0b,
            GCBProperty::T => 0x0c,
            GCBProperty::V => 0x0d,
            GCBProperty::ZWJ => 0x0e,
        }
    }

    /// The value whose code is `code`.
    fn decode(code: u8) -> (r: GCBProperty)
        ensures
            r == GCBProperty::from_code(code),
    {
        if code == 0x01 { GCBProperty::CR }
        else if code == 0x02 { GCBProperty::Control }
        else if code == 0x03 { GCBProperty::Extend }
        else if code == 0x04 { GCBProperty::ExtendedPictographic }
        else if code == 0x05 { GCBProperty::L }
        else if code == 0x06 { GCBProperty::LF }
        else if code == 0x07 { GCBProperty::LV }
        else if code == 0x08 { GCBProperty::LVT }
        else if code == 0x09 { GCBProperty::Prepend }
        else if code == 0x0a { GCBProperty::RegionalIndicator }
        else if code == 0x0b { GCBProperty::SpacingMark }
        else if code == 0x0c { GCBProperty::T }
        else if code == 0x0d { GCBProperty::V }
        else if code == 0x0e { GCBProperty::ZWJ }
        else { GCBProperty::Other }
    }

    /// Equality usable where a plain function is wanted.
    pub fn eq(self, other: Self) -> (r: bool)
        ensures
            r == (self == other),
    {
        match (self, other) {
            (GCBProperty::Other, GCBProperty::Other) => true,
            (GCBProperty::CR, GCBProperty::CR) => true,
            (GCBProperty::Control, GCBProperty::Control) => true,
            (GCBProperty::Extend, GCBProperty::Extend) => true,
            (GCBProperty::ExtendedPictographic, GCBProperty::ExtendedPictographic) => true,
            (GCBProperty::L, GCBProperty::L) => true,
            (GCBProperty::LF, GCBProperty::LF) => true,
            (GCBProperty::LV, GCBProperty::LV) => true,
            (GCBProperty::LVT, GCBProperty::LVT) => true,
            (GCBProperty::Prepend, GCBProperty::Prepend) => true,
            (GCBProperty::RegionalIndicator, GCBProperty::RegionalIndicator) => true,
            (GCBProperty::SpacingMark, GCBProperty::SpacingMark) => true,
            (GCBProperty::T, GCBProperty::T) => true,
            (GCBProperty::V, GCBProperty::V) => true,
            (GCBProperty::ZWJ, GCBProperty::ZWJ) => true,
            _ => false,
        }
    }
}


/// Values of the **Indic_Conjunct_Break** property, used by rule GB9c.
#[derive(Debug, Clone, Copy, PartialEq, Eq, Structural, Hash)]
pub enum InCBProperty {
    /// None of the Indic_Conjunct_Break property values apply.
    Other,
    Consonant,
    Extend,
    Linker,
}

impl InCBProperty {
    /// The code of this value inside a packed [`CharProperties`]: bits 4 and 5.
    pub open spec fn code(self) -> u8 {
        match self {
            InCBProperty::Other => 0x00,
            InCBProperty::Consonant => 0x10,
            InCBProperty::Extend => 0x20,
            InCBProperty::Linker => 0x30,
        }
    }

    /// The value whose code is `code`; codes other than the four above decode
    /// to `Other`.
    pub open spec fn from_code(code: u8) -> InCBProperty {
        if code == 0x10 {
            InCBProperty::Consonant
        } else if code == 0x20 {
            InCBProperty::Extend
        } else if code == 0x30 {
            InCBProperty::Linker
        } else {
            InCBProperty::Other
        }
    }

    /// The code of this value, in bits 4 and 5.
    fn bits(self) -> (r: u8)
        ensures
            r == self.code(),
    {
        match self {
            InCBProperty::Other => 0x00,
            InCBProperty::Consonant => 0x10,
            InCBProperty::Extend => 0x20,
            InCBProperty::Linker => 0x30,
        }
    }

    /// The value whose code is `code`.
    fn decode(code: u8) -> (r: InCBProperty)
        ensures
            r == InCBProperty::from_code(code),
    {
        if code == 0x10 {
            InCBProperty::Consonant
        } else if code == 0x20 {
            InCBProperty::Extend
        } else if code == 0x30 {
            InCBProperty::Linker
        } else {
            InCBProperty::Other
        }
    }

    /// Equality usable where a plain function is wanted.
    pub fn eq(self, other: Self) -> (r: bool)
        ensures
            r == (self == other),
    {
        match (self, other) {
            (InCBProperty::Other, InCBProperty::Other) => true,
            (InCBProperty::Consonant, InCBProperty::Consonant) => true,
            (InCBProperty::Extend, InCBProperty::Extend) => true,
            (InCBProperty::Linker, InCBProperty::Linker) => true,
            _ => false,
        }
    }
}

/// A pair of one [`GCBProperty`] and one [`InCBProperty`], packed into a byte:
/// the grapheme cluster break code in the low four bits, the Indic conjunct
/// break code in bits 4 and 5, and bits 6 and 7 clear.
#[derive(Debug, Clone, Copy, PartialEq, Eq, Structural, Hash)]
pub struct CharProperties {
    raw: u8,
}

impl CharProperties {
    /// The packed byte holds a valid code in each of its two fields.
    #[verifier::type_invariant]
    pub closed spec fn wf(self) -> bool {
        &&& self.raw & 0x0f <= 0x0e
        &&& self.raw & 0xc0 == 0
    }

    /// The packed byte.
    pub closed spec fn byte(self) -> u8 {
        self.raw
    }

    /// The grapheme cluster break value of the pair.
    pub closed spec fn gcb(self) -> GCBProperty {
        GCBProperty::from_code(self.raw & 0x0f)
    }

    /// The Indic conjunct break value of the pair.
    pub closed spec fn incb(self) -> InCBProperty {
        InCBProperty::from_code(self.raw & 0x30)
    }

    /// Whether the grapheme cluster break value is one of the control values
    /// that rules GB4 and GB5 break around.
    pub open spec fn is_control(self) -> bool {
        self.gcb() == GCBProperty::Control || self.gcb() == GCBProperty::CR
            || self.gcb() == GCBProperty::LF
    }

    /// The pair of `gcb` and `incb`.
    pub closed spec fn pair(gcb: GCBProperty, incb: InCBProperty) -> CharProperties {
        CharProperties { raw: gcb.code() | incb.code() }
    }

    /// Returns the pair of the two given property values.
    pub fn new(gcb: GCBProperty, incb: InCBProperty) -> (r: Self)
        ensures
            r == CharProperties::pair(gcb, incb),
            r.gcb() == gcb,
            r.incb() == incb,
            r.byte() == gcb.code() | incb.code(),
            r.byte() & 0x0f == gcb.code(),
            r.byte() & 0xf0 == incb.code(),
            r.byte() & 0xc0 == 0,
            gcb.code() <= 0x0e,
    {
        proof {
            lemma_pair_parts(gcb, incb);
        }
        CharProperties { raw: gcb.bits() | incb.bits() }
    }

    /// The pair of `gcb` with no Indic conjunct break value.
    pub(crate) fn gcb_only(gcb: GCBProperty) -> (r: Self)
        ensures
            r == CharProperties::pair(gcb, InCBProperty::Other),
            r.gcb() == gcb,
            r.incb() == InCBProperty::Other,
    {
        Self::new(gcb, InCBProperty::Other)
    }

    /// Returns the [`GCBProperty`] value of this pair.
    pub fn gcb_property(self) -> (r: GCBProperty)
        ensures
            r == self.gcb(),
    {
        GCBProperty::decode(self.raw & 0x0f)
    }

    /// Returns the [`InCBProperty`] value of this pair.
    pub fn incb_property(self) -> (r: InCBProperty)
        ensures
            r == self.incb(),
    {
        InCBProperty::decode(self.raw & 0x30)
    }

    /// Returns `true` if the [`GCBProperty`] is `Control`, `LF` or `CR`, the
    /// values around which rules GB4 and GB5 break.
    pub fn is_any_control(self) -> (r: bool)
        ensures
            r == self.is_control(),
    {
        match self.gcb_property() {
            GCBProperty::LF | GCBProperty::CR | GCBProperty::Control => true,
            _ => false,
        }
    }

    /// Equality usable where a plain function is wanted: two pairs are equal
    /// exactly when both of their property values are.
    pub fn eq(self, other: Self) -> (r: bool)
        ensures
            r == (self == other),
            r == (self.gcb() == other.gcb() && self.incb() == other.incb()),
    {
        proof {
            use_type_invariant(self);
            use_type_invariant(other);
            lemma_eq_iff_parts(self, other);
        }
        self.raw == other.raw
    }
}

/// Packing two values and reading them back gives the same two values, and
/// the packed byte is well formed.
pub proof fn lemma_pair_parts(gcb: GCBProperty, incb: InCBProperty)
    ensures
        CharProperties::pair(gcb, incb).wf(),
        CharProperties::pair(gcb, incb).gcb() == gcb,
        CharProperties::pair(gcb, incb).incb() == incb,
        CharProperties::pair(gcb, incb).byte() & 0x0f == gcb.code(),
        CharProperties::pair(gcb, incb).byte() & 0xf0 == incb.code(),
        CharProperties::pair(gcb, incb).byte() & 0xc0 == 0,
        gcb.code() <= 0x0e,
{
    let c = gcb.code();
    let d = incb.code();
    assert(c <= 0x0e);
    assert(d == 0 || d == 0x10 || d == 0x20 || d == 0x30);
    assert((c | d) & 0x0f == c && (c | d) & 0x30 == d && (c | d) & 0xf0 == d && (c | d) & 0xc0 == 0)
        by (bit_vector)
        requires
            c <= 0x0e,
            d == 0 || d == 0x10 || d == 0x20 || d == 0x30,
    ;
}

/// Two well-formed pairs are equal exactly when both of their property values
/// are equal.
pub proof fn lemma_eq_iff_parts(a: CharProperties, b: CharProperties)
    requires
        a.wf(),
        b.wf(),
    ensures
        (a == b) == (a.gcb() == b.gcb() && a.incb() == b.incb()),
{
    lemma_unpack(a);
    lemma_unpack(b);
}

/// A well-formed pair is the packing of its two values.
pub proof fn lemma_unpack(a: CharProperties)
    requires
        a.wf(),
    ensures
        a == CharProperties::pair(a.gcb(), a.incb()),
{
    let r = a.raw;
    assert(r == (r & 0x0f) | (r & 0x30)) by (bit_vector)
        requires
            r & 0xc0 == 0,
    ;
    assert((r & 0x30) == 0 || (r & 0x30) == 0x10 || (r & 0x30) == 0x20 || (r & 0x30) == 0x30)
        by (bit_vector);
}

} // verus!
