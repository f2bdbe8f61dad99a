//! Streaming detection of extended grapheme cluster boundaries, following the
//! rules of UAX #29 (Unicode Text Segmentation).
//!
//! [`GraphemeMachine`] is a finite state machine that is fed the properties of
//! one character at a time and answers, for each, whether that character
//! extends the current grapheme cluster or begins a new one.
//!
//! The crate holds no table of Unicode character properties: callers look up
//! the [`CharProperties`] of each character in a table of their choice and
//! pass them to [`GraphemeMachine::next_char_properties`]. Entry points that
//! take characters or strings directly would need such a table, and are
//! therefore not offered.
mod laws;
mod properties;
mod rules;
mod state;

pub use laws::{
    lemma_chunked_input, lemma_conjunct_joins, lemma_conjunct_without_linker_breaks,
    lemma_controls_break, lemma_emoji_zwj_joins, lemma_flags_pair_up,
    lemma_zwj_without_pictograph_breaks, lemma_follows_uax29, lemma_hangul_syllables_break,
    lemma_other_pairs_break, lemma_pair_joins, lemma_pair_rules_ignore_history,
    lemma_remembers_last, lemma_start_of_input_splits,
};
pub use properties::{
    lemma_eq_iff_parts, lemma_pair_parts, lemma_unpack, CharProperties, GCBProperty, InCBProperty,
};
pub use rules::{
    boundary_after, ends_in_join_context, ends_with_consonant, ends_with_linked_consonant,
    ends_with_odd_flag_run, ends_with_pictographic, ends_with_pictographic_zwj,
    is_boundary, is_consistent, pair_rule,
};

pub use state::{lemma_state_meaning, State};
use vstd::prelude::*;

verus! {

/// A finite state machine for detecting grapheme cluster boundaries in a
/// stream of characters, without buffering any of them.
///
/// It remembers only the properties of the most recent character (if any)
/// and a state that summarises what the segmentation rules need to know of
/// the characters before it.
#[derive(Debug, Clone, Copy, PartialEq, Eq, Structural, Hash)]
pub struct GraphemeMachine {
    state: State,
    prev: Option<CharProperties>,
}

/// What to do with a new character after presenting it to a [`GraphemeMachine`].
#[derive(Debug, Clone, Copy, PartialEq, Eq, Structural, Hash)]
pub enum ClusterAction {
    /// Treat the new character as an extension of the current grapheme cluster.
    Continue,
    /// Treat the current grapheme cluster as complete and begin a new one
    /// that initially consists only of the new character.
    Split,
}

impl ClusterAction {
    /// Equality usable where a plain function is wanted.
    pub fn eq(self, other: Self) -> (r: bool)
        ensures
            r == (self == other),
    {
        match (self, other) {
            (ClusterAction::Continue, ClusterAction::Continue) => true,
            (ClusterAction::Split, ClusterAction::Split) => true,
            _ => false,
        }
    }
}

impl GraphemeMachine {
    /// The machine in its "start of input" state.
    pub closed spec fn initial() -> GraphemeMachine {
        GraphemeMachine { state: State::Base, prev: None }
    }

    /// The properties of the most recently presented character, if any.
    pub closed spec fn last(self) -> Option<CharProperties> {
        self.prev
    }

    /// The machine after the character `next` has been presented to it.
    pub closed spec fn advance(self, next: CharProperties) -> GraphemeMachine {
        GraphemeMachine { state: self.state.step(self.prev, next).1, prev: Some(next) }
    }

    /// The action that presenting the character `next` to this machine yields.
    pub closed spec fn action(self, next: CharProperties) -> ClusterAction {
        if self.state.step(self.prev, next).0 {
            ClusterAction::Split
        } else {
            ClusterAction::Continue
        }
    }

    /// Constructs a new machine in the "start of input" state.
    pub fn new() -> (r: Self)
        ensures
            r == GraphemeMachine::initial(),
    {
        GraphemeMachine { state: State::Base, prev: None }
    }

    /// Advances the machine by a character with the given properties and
    /// returns the action to take at the boundary between it and the previous
    /// character: `Split` if it begins a new grapheme cluster, `Continue` if
    /// it extends the current one. At the start of input the action is
    /// always `Split`.
    pub fn next_char_properties(&mut self, next: CharProperties) -> (r: ClusterAction)
        ensures
            *final(self) == old(self).advance(next),
            r == old(self).action(next),
    {
        let (boundary, next_state) = self.state.transition(self.prev, next);
        self.state = next_state;
        self.prev = Some(next);
        if boundary {
            ClusterAction::Split
        } else {
            ClusterAction::Continue
        }
    }

    /// Tells the machine that the input stream has ended: it returns to the
    /// "start of input" state, so that the next character cannot continue the
    /// current grapheme cluster, and the action is always `Split`.
    pub fn end_of_input(&mut self) -> (r: ClusterAction)
        ensures
            *final(self) == GraphemeMachine::initial(),
            r == ClusterAction::Split,
    {
        self.state = State::Base;
        self.prev = None;
        ClusterAction::Split
    }

    /// Equality usable where a plain function is wanted.
    pub fn eq(self, other: Self) -> (r: bool)
        ensures
            r == (self == other),
    {
        self.state == other.state && match (self.prev, other.prev) {
            (Some(prev), Some(other_prev)) => prev.eq(other_prev),
            (None, None) => true,
            _ => false,
        }
    }
}

/// The machine after each character of `s` has been presented to `m` in turn.
pub open spec fn feed(m: GraphemeMachine, s: Seq<CharProperties>) -> GraphemeMachine
    decreases s.len(),
{
    if s.len() == 0 {
        m
    } else {
        feed(m, s.drop_last()).advance(s.last())
    }
}

/// The actions that presenting each character of `s` to `m` in turn yields.
pub open spec fn actions(m: GraphemeMachine, s: Seq<CharProperties>) -> Seq<ClusterAction>
    decreases s.len(),
{
    if s.len() == 0 {
        Seq::empty()
    } else {
        actions(m, s.drop_last()).push(feed(m, s.drop_last()).action(s.last()))
    }
}

} // verus!
