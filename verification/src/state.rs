use crate::properties::{CharProperties, GCBProperty, InCBProperty};
use crate::rules::{
    boundary_after, ends_in_join_context, ends_with_consonant, ends_with_linked_consonant,
    ends_with_odd_flag_run, ends_with_pictographic, ends_with_pictographic_zwj, is_consistent,
    pair_rule,
};
use vstd::prelude::*;

verus! {

/// The states of the grapheme cluster boundary machine. A state summarises
/// what the rules with a longer context (GB9c, GB11, GB12 and GB13) need to
/// know of the characters before the current one.
#[derive(Debug, Clone, Copy, PartialEq, Eq, Structural, Hash)]
pub enum State {
    /// Start of text, or no multi-character context in progress.
    Base,
    /// The previous character is a regional indicator that opens a pair.
    AwaitEmojiFlag,
    /// The characters so far end with `\p{Extended_Pictographic} Extend*`.
    GB11BeforeZWJ,
    /// The characters so far end with `\p{Extended_Pictographic} Extend* ZWJ`.
    GB11AfterZWJ,
    /// The characters so far end with `\p{InCB=Consonant} \p{InCB=Extend}*`.
    GB9cConsonant,
    /// The characters so far end with a consonant followed by Indic extend
    /// and linker characters, at least one of them a linker.
    GB9cLinker,
}

impl State {
    /// The state after `next` has been read in this state.
    pub open spec fn after(self, next: CharProperties) -> State {
        if next.gcb() == GCBProperty::ExtendedPictographic {
            State::GB11BeforeZWJ
        } else if next.incb() == InCBProperty::Consonant {
            State::GB9cConsonant
        } else {
            // Wherever the context before it does not continue, a regional
            // indicator opens a flag pair (unless it closes one).
            let flag = next.gcb() == GCBProperty::RegionalIndicator;
            match self {
                State::Base => if flag {
                    State::AwaitEmojiFlag
                } else {
                    State::Base
                },
                State::AwaitEmojiFlag => State::Base,
                State::GB11BeforeZWJ => if next.gcb() == GCBProperty::ZWJ {
                    State::GB11AfterZWJ
                } else if next.gcb() == GCBProperty::Extend {
                    State::GB11BeforeZWJ
                } else if flag {
                    State::AwaitEmojiFlag
                } else {
                    State::Base
                },
                State::GB11AfterZWJ => if flag {
                    State::AwaitEmojiFlag
                } else {
                    State::Base
                },
                State::GB9cConsonant => if next.incb() == InCBProperty::Linker {
                    State::GB9cLinker
                } else if next.incb() == InCBProperty::Extend {
                    State::GB9cConsonant
                } else if flag {
                    State::AwaitEmojiFlag
                } else {
                    State::Base
                },
                State::GB9cLinker => if next.incb() == InCBProperty::Linker || next.incb()
                    == InCBProperty::Extend {
                    State::GB9cLinker
                } else if flag {
                    State::AwaitEmojiFlag
                } else {
                    State::Base
                },
            }
        }
    }

    /// Whether one of the context rules GB9c, GB11, GB12 and GB13 joins
    /// `prev` and `next` in this state.
    pub open spec fn joins(self, prev: CharProperties, next: CharProperties) -> bool {
        ||| self == State::GB9cLinker && (prev.incb() == InCBProperty::Linker || prev.incb()
            == InCBProperty::Extend) && next.incb() == InCBProperty::Consonant
        ||| self == State::GB11AfterZWJ && prev.gcb() == GCBProperty::ZWJ && next.gcb()
            == GCBProperty::ExtendedPictographic
        ||| self == State::AwaitEmojiFlag && prev.gcb() == GCBProperty::RegionalIndicator
            && next.gcb() == GCBProperty::RegionalIndicator
    }

    /// Whether there is a boundary between `prev` and `next` in this state:
    /// the pair rules decide first, then the context rules, and otherwise
    /// there is a boundary (GB999).
    pub open spec fn breaks(self, prev: CharProperties, next: CharProperties) -> bool {
        match pair_rule(prev, next) {
            Some(b) => b,
            None => !self.joins(prev, next),
        }
    }

    /// The boundary decision and next state for `next` after `prev`; with no
    /// previous character (start of input) there is always a boundary.
    pub open spec fn step(self, prev: Option<CharProperties>, next: CharProperties) -> (
        bool,
        State,
    ) {
        (
            match prev {
                Some(p) => self.breaks(p, next),
                None => true,
            },
            self.after(next),
        )
    }

    /// Given the previous character (if any) and the next one, returns whether
    /// there is a grapheme cluster boundary between them in this state, and the
    /// state for the next transition. The `prev` of one call is meant to be the
    /// `next` of the call that produced this state.
    pub fn transition(self, prev: Option<CharProperties>, next: CharProperties) -> (r: (
        bool,
        State,
    ))
        ensures
            r == self.step(prev, next),
    {
        let next_state = self.next_state(next);
        let prev = match prev {
            Some(p) => p,
            None => {
                // At start of input there's always a boundary.
                return (true, next_state);
            },
        };
        let pg = prev.gcb_property();
        let ng = next.gcb_property();

        // GB3: Do not break between a CR and LF...
        if pg == GCBProperty::CR && ng == GCBProperty::LF {
            return (false, next_state);
        }

        // GB4 and GB5: ...Otherwise, break before and after controls.
        if prev.is_any_control() || next.is_any_control() {
            return (true, next_state);
        }

        // GB6: Do not break Hangul syllable or other conjoining sequences.
        if pg == GCBProperty::L && (ng == GCBProperty::L || ng == GCBProperty::V || ng
            == GCBProperty::LV || ng == GCBProperty::LVT) {
            return (false, next_state);
        }

        // GB7
        if (pg == GCBProperty::LV || pg == GCBProperty::V) && (ng == GCBProperty::V || ng
            == GCBProperty::T) {
            return (false, next_state);
        }

        // GB8
        if (pg == GCBProperty::LVT || pg == GCBProperty::T) && ng == GCBProperty::T {
            return (false, next_state);
        }

        // GB9: Do not break before extending characters or ZWJ.
        if ng == GCBProperty::Extend || ng == GCBProperty::ZWJ {
            return (false, next_state);
        }

        // GB9a: Do not break before SpacingMarks...
        if ng == GCBProperty::SpacingMark {
            return (false, next_state);
        }

        // GB9b: ...or after Prepend characters.
        if pg == GCBProperty::Prepend {
            return (false, next_state);
        }

        // GB9c: Do not break within certain combinations with InCB=Linker.
        if self.gb9c_active() {
            let pi = prev.incb_property();
            if (pi == InCBProperty::Linker || pi == InCBProperty::Extend)
                && next.incb_property() == InCBProperty::Consonant {
                return (false, next_state);
            }
        }

        // GB11: Do not break within emoji modifier sequences or emoji zwj sequences.
        if self.gb11_active() {
            if pg == GCBProperty::ZWJ && ng == GCBProperty::ExtendedPictographic {
                return (false, next_state);
            }
        }

        // GB12 and GB13: Do not break within emoji flag sequences.
        if self.gb13_active() {
            if pg == GCBProperty::RegionalIndicator && ng == GCBProperty::RegionalIndicator {
                return (false, next_state);
            }
        }

        // GB999: Otherwise, break everywhere.
        (true, next_state)
    }

    /// Returns the state that the machine moves to on reading `next`.
    fn next_state(self, next: CharProperties) -> (r: State)
        ensures
            r == self.after(next),
            r == State::AwaitEmojiFlag ==> next.gcb() == GCBProperty::RegionalIndicator,
            r == State::GB11AfterZWJ ==> next.gcb() == GCBProperty::ZWJ,
            r == State::GB11BeforeZWJ ==> (next.gcb() == GCBProperty::ExtendedPictographic
                || next.gcb() == GCBProperty::Extend),
            r == State::GB9cLinker ==> (next.incb() == InCBProperty::Linker || next.incb()
                == InCBProperty::Extend),
            r == State::GB9cConsonant ==> (next.incb() == InCBProperty::Consonant || next.incb()
                == InCBProperty::Extend),
    {
        let gc_prop = next.gcb_property();
        let incb_prop = next.incb_property();
        // Two of the multi-character prefixes can begin regardless of what
        // precedes them.
        if gc_prop == GCBProperty::ExtendedPictographic {
            return State::GB11BeforeZWJ;
        }
        if incb_prop == InCBProperty::Consonant {
            return State::GB9cConsonant;
        }
        // Wherever the context before it does not continue, a regional
        // indicator opens a flag pair (unless it closes one).
        let flag = gc_prop == GCBProperty::RegionalIndicator;
        match self {
            State::Base => if flag {
                State::AwaitEmojiFlag
            } else {
                State::Base
            },
            State::AwaitEmojiFlag => State::Base,
            State::GB11BeforeZWJ => if gc_prop == GCBProperty::ZWJ {
                State::GB11AfterZWJ
            } else if gc_prop == GCBProperty::Extend {
                State::GB11BeforeZWJ
            } else if flag {
                State::AwaitEmojiFlag
            } else {
                State::Base
            },
            State::GB11AfterZWJ => if flag {
                State::AwaitEmojiFlag
            } else {
                State::Base
            },
            State::GB9cConsonant => if incb_prop == InCBProperty::Linker {
                State::GB9cLinker
            } else if incb_prop == InCBProperty::Extend {
                State::GB9cConsonant
            } else if flag {
                State::AwaitEmojiFlag
            } else {
                State::Base
            },
            State::GB9cLinker => if incb_prop == InCBProperty::Linker || incb_prop
                == InCBProperty::Extend {
                State::GB9cLinker
            } else if flag {
                State::AwaitEmojiFlag
            } else {
                State::Base
            },
        }
    }

    /// GB9c is active only in state `GB9cLinker`.
    fn gb9c_active(self) -> (r: bool)
        ensures
            r == (self == State::GB9cLinker),
    {
        match self {
            State::GB9cLinker => true,
            _ => false,
        }
    }

    /// GB11 is active only in state `GB11AfterZWJ`.
    fn gb11_active(self) -> (r: bool)
        ensures
            r == (self == State::GB11AfterZWJ),
    {
        match self {
            State::GB11AfterZWJ => true,
            _ => false,
        }
    }

    /// GB12 and GB13 are active only in state `AwaitEmojiFlag`.
    fn gb13_active(self) -> (r: bool)
        ensures
            r == (self == State::AwaitEmojiFlag),
    {
        match self {
            State::AwaitEmojiFlag => true,
            _ => false,
        }
    }

    /// This state is the one that the characters `h` lead to: it tells
    /// exactly which context of GB9c or GB11 `h` ends in, and whether `h`
    /// ends with a regional indicator that opens a pair.
    pub open spec fn tracks(self, h: Seq<CharProperties>) -> bool {
        &&& (self == State::GB11BeforeZWJ) == ends_with_pictographic(h)
        &&& (self == State::GB11AfterZWJ) == ends_with_pictographic_zwj(h)
        &&& (self == State::GB9cConsonant) == ends_with_consonant(h)
        &&& (self == State::GB9cLinker) == ends_with_linked_consonant(h)
        &&& (self == State::AwaitEmojiFlag) == ends_with_odd_flag_run(h)
    }
}

/// Each state says what kind of character was read last: a regional
/// indicator for `AwaitEmojiFlag`, a ZWJ for `GB11AfterZWJ`, a pictograph or
/// Extend for `GB11BeforeZWJ`, an Indic linker or extend for `GB9cLinker`,
/// and an Indic consonant or extend for `GB9cConsonant`.
pub proof fn lemma_state_meaning(st: State, next: CharProperties)
    ensures
        st.after(next) == State::AwaitEmojiFlag ==> next.gcb() == GCBProperty::RegionalIndicator,
        st.after(next) == State::GB11AfterZWJ ==> next.gcb() == GCBProperty::ZWJ,
        st.after(next) == State::GB11BeforeZWJ ==> (next.gcb()
            == GCBProperty::ExtendedPictographic || next.gcb() == GCBProperty::Extend),
        st.after(next) == State::GB9cLinker ==> (next.incb() == InCBProperty::Linker
            || next.incb() == InCBProperty::Extend),
        st.after(next) == State::GB9cConsonant ==> (next.incb() == InCBProperty::Consonant
            || next.incb() == InCBProperty::Extend),
{
}

/// A history that ends in a context of GB9c or GB11 does not end with a
/// regional indicator, when its last character is consistent.
pub proof fn lemma_join_context_not_flag(h: Seq<CharProperties>)
    requires
        ends_in_join_context(h),
        is_consistent(h.last()),
    ensures
        h.len() > 0,
        h.last().gcb() != GCBProperty::RegionalIndicator,
{
}

/// The start state tracks the empty history.
pub proof fn lemma_tracks_empty()
    ensures
        State::Base.tracks(Seq::empty()),
{
}

/// Reading a consistent character keeps the state in step with the history.
pub proof fn lemma_tracks_step(st: State, h: Seq<CharProperties>, c: CharProperties)
    requires
        st.tracks(h),
        h.len() > 0 ==> is_consistent(h.last()),
        is_consistent(c),
    ensures
        st.after(c).tracks(h.push(c)),
{
    let h2 = h.push(c);
    assert(h2.drop_last() =~= h);
    assert(h2.last() == c);
    if ends_in_join_context(h) {
        lemma_join_context_not_flag(h);
    }
    assert(ends_with_consonant(h2) == (c.incb() == InCBProperty::Consonant || c.incb()
        == InCBProperty::Extend && ends_with_consonant(h)));
    assert(ends_with_linked_consonant(h2) == (c.incb() == InCBProperty::Linker && (
    ends_with_consonant(h) || ends_with_linked_consonant(h)) || c.incb() == InCBProperty::Extend
        && ends_with_linked_consonant(h)));
    assert(ends_with_pictographic(h2) == (c.gcb() == GCBProperty::ExtendedPictographic || c.gcb()
        == GCBProperty::Extend && ends_with_pictographic(h)));
    assert(ends_with_pictographic_zwj(h2) == (c.gcb() == GCBProperty::ZWJ
        && ends_with_pictographic(h)));
    assert(ends_with_odd_flag_run(h2) == (c.gcb() == GCBProperty::RegionalIndicator
        && !ends_with_odd_flag_run(h)));
    if ends_with_odd_flag_run(h) {
        assert(h.len() > 0 && h.last().gcb() == GCBProperty::RegionalIndicator);
    }
}

/// In a state that tracks the history `h`, the boundary decision for the
/// next character is the one that UAX #29 makes.
pub proof fn lemma_breaks_per_rules(st: State, h: Seq<CharProperties>, next: CharProperties)
    requires
        st.tracks(h),
        h.len() > 0,
    ensures
        st.breaks(h.last(), next) == boundary_after(h, next),
{
}

} // verus!
