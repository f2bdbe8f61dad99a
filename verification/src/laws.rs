//! Laws of the grapheme cluster boundary machine that relate several calls.
use crate::properties::{CharProperties, GCBProperty, InCBProperty};
use crate::rules::{is_boundary, is_consistent, pair_rule};
use crate::state::{lemma_breaks_per_rules, lemma_tracks_empty, lemma_tracks_step, State};
use crate::{actions, feed, ClusterAction, GraphemeMachine};
use vstd::prelude::*;

verus! {

/// At the start of input (after `new` or `end_of_input`) the first character
/// always begins a new grapheme cluster.
pub proof fn lemma_start_of_input_splits(next: CharProperties)
    ensures
        GraphemeMachine::initial().action(next) == ClusterAction::Split,
        GraphemeMachine::initial().last() == None::<CharProperties>,
{
}

/// The machine remembers the character it was last presented with.
pub proof fn lemma_remembers_last(m: GraphemeMachine, next: CharProperties)
    ensures
        m.advance(next).last() == Some(next),
{
}

/// Where one of rules GB3 to GB9b decides, the action depends on the two
/// characters alone and on nothing that came before them.
pub proof fn lemma_pair_rules_ignore_history(
    m: GraphemeMachine,
    prev: CharProperties,
    next: CharProperties,
)
    requires
        m.last() == Some(prev),
        pair_rule(prev, next) is Some,
    ensures
        m.action(next) == (if pair_rule(prev, next).unwrap() {
            ClusterAction::Split
        } else {
            ClusterAction::Continue
        }),
{
}

/// Feeding a text in two chunks gives the same actions and the same final
/// machine as feeding it all at once.
pub proof fn lemma_chunked_input(m: GraphemeMachine, a: Seq<CharProperties>, b: Seq<CharProperties>)
    ensures
        feed(m, a + b) == feed(feed(m, a), b),
        actions(m, a + b) == actions(m, a) + actions(feed(m, a), b),
    decreases b.len(),
{
    if b.len() == 0 {
        assert(a + b =~= a);
        assert(actions(m, a) + actions(feed(m, a), b) =~= actions(m, a));
    } else {
        lemma_chunked_input(m, a, b.drop_last());
        assert((a + b).drop_last() =~= a + b.drop_last());
        assert((a + b).last() == b.last());
        assert(actions(m, a + b) =~= actions(m, a) + actions(feed(m, a), b));
    }
}

/// After a history of consistent characters, the machine's state tracks
/// that history and it remembers the history's last character.
proof fn lemma_feed_tracks(s: Seq<CharProperties>)
    requires
        forall|i: int| 0 <= i < s.len() ==> is_consistent(#[trigger] s[i]),
    ensures
        feed(GraphemeMachine::initial(), s).state.tracks(s),
        feed(GraphemeMachine::initial(), s).prev == (if s.len() == 0 {
            None
        } else {
            Some(s.last())
        }),
    decreases s.len(),
{
    if s.len() == 0 {
        lemma_tracks_empty();
        assert(s =~= Seq::<CharProperties>::empty());
    } else {
        let h = s.drop_last();
        let c = s.last();
        assert forall|i: int| 0 <= i < h.len() implies is_consistent(#[trigger] h[i]) by {
            assert(h[i] == s[i]);
        }
        lemma_feed_tracks(h);
        if h.len() > 0 {
            assert(h.last() == s[h.len() - 1]);
        }
        assert(c == s[s.len() - 1]);
        lemma_tracks_step(feed(GraphemeMachine::initial(), h).state, h, c);
        assert(h.push(c) =~= s);
    }
}

/// The machine finds grapheme cluster boundaries as UAX #29 defines them:
/// for a text of consistent character properties, fed to a machine at the
/// start of input, the action for each character is `Split` exactly when the
/// rules put a boundary before it.
pub proof fn lemma_follows_uax29(s: Seq<CharProperties>)
    requires
        forall|i: int| 0 <= i < s.len() ==> is_consistent(#[trigger] s[i]),
    ensures
        actions(GraphemeMachine::initial(), s).len() == s.len(),
        forall|i: int|
            0 <= i < s.len() ==> (#[trigger] actions(GraphemeMachine::initial(), s)[i]
                == ClusterAction::Split) == is_boundary(s, i),
    decreases s.len(),
{
    if s.len() > 0 {
        let m = GraphemeMachine::initial();
        let h = s.drop_last();
        let c = s.last();
        assert forall|i: int| 0 <= i < h.len() implies is_consistent(#[trigger] h[i]) by {
            assert(h[i] == s[i]);
        }
        lemma_follows_uax29(h);
        lemma_feed_tracks(h);
        let last = s.len() - 1;
        assert(s.take(last) =~= h);
        assert(s[last] == c);
        if h.len() > 0 {
            lemma_breaks_per_rules(feed(m, h).state, h, c);
        }
        assert forall|i: int| 0 <= i < s.len() implies (#[trigger] actions(m, s)[i]
            == ClusterAction::Split) == is_boundary(s, i) by {
            if i < last {
                assert(actions(m, s)[i] == actions(m, h)[i]);
                assert(s.take(i) =~= h.take(i));
                assert(s[i] == h[i]);
            }
        }
    }
}

/// GB3, GB4 and GB5: next to a control character (Control, CR or LF) there
/// is always a boundary, except between a CR and the LF right after it.
pub proof fn lemma_controls_break(m: GraphemeMachine, prev: CharProperties, next: CharProperties)
    requires
        m.last() == Some(prev),
        prev.gcb() == GCBProperty::Control || prev.gcb() == GCBProperty::CR || prev.gcb()
            == GCBProperty::LF || next.gcb() == GCBProperty::Control || next.gcb()
            == GCBProperty::CR || next.gcb() == GCBProperty::LF,
    ensures
        m.action(next) == (if prev.gcb() == GCBProperty::CR && next.gcb() == GCBProperty::LF {
            ClusterAction::Continue
        } else {
            ClusterAction::Split
        }),
{
}

/// GB6 to GB9b: away from control characters, a character continues the
/// cluster when it is Extend, ZWJ or SpacingMark, when it follows a Prepend,
/// or when the two form part of a Hangul syllable (L then L, V, LV or LVT;
/// LV or V then V or T; LVT or T then T).
pub proof fn lemma_pair_joins(m: GraphemeMachine, prev: CharProperties, next: CharProperties)
    requires
        m.last() == Some(prev),
        prev.gcb() != GCBProperty::Control && prev.gcb() != GCBProperty::CR && prev.gcb()
            != GCBProperty::LF,
        next.gcb() != GCBProperty::Control && next.gcb() != GCBProperty::CR && next.gcb()
            != GCBProperty::LF,
        next.gcb() == GCBProperty::Extend || next.gcb() == GCBProperty::ZWJ || next.gcb()
            == GCBProperty::SpacingMark || prev.gcb() == GCBProperty::Prepend || (prev.gcb()
            == GCBProperty::L && (next.gcb() == GCBProperty::L || next.gcb() == GCBProperty::V
            || next.gcb() == GCBProperty::LV || next.gcb() == GCBProperty::LVT)) || ((prev.gcb()
            == GCBProperty::LV || prev.gcb() == GCBProperty::V) && (next.gcb() == GCBProperty::V
            || next.gcb() == GCBProperty::T)) || ((prev.gcb() == GCBProperty::LVT || prev.gcb()
            == GCBProperty::T) && next.gcb() == GCBProperty::T),
    ensures
        m.action(next) == ClusterAction::Continue,
{
}

/// GB999: where no rule joins two characters there is a boundary. A join
/// needs one of the pairs of GB3 and GB6 to GB9b, or one of the pairs that
/// the context rules look at: an Indic linker or extend before a consonant
/// (GB9c), a ZWJ before a pictograph (GB11), or two regional indicators
/// (GB12 and GB13). Whatever the history, any other pair is split.
pub proof fn lemma_other_pairs_break(m: GraphemeMachine, prev: CharProperties, next: CharProperties)
    requires
        m.last() == Some(prev),
        !(prev.gcb() == GCBProperty::CR && next.gcb() == GCBProperty::LF),
        next.gcb() != GCBProperty::Extend && next.gcb() != GCBProperty::ZWJ && next.gcb()
            != GCBProperty::SpacingMark && prev.gcb() != GCBProperty::Prepend,
        !(prev.gcb() == GCBProperty::L && (next.gcb() == GCBProperty::L || next.gcb()
            == GCBProperty::V || next.gcb() == GCBProperty::LV || next.gcb() == GCBProperty::LVT)),
        !((prev.gcb() == GCBProperty::LV || prev.gcb() == GCBProperty::V) && (next.gcb()
            == GCBProperty::V || next.gcb() == GCBProperty::T)),
        !((prev.gcb() == GCBProperty::LVT || prev.gcb() == GCBProperty::T) && next.gcb()
            == GCBProperty::T),
        !((prev.incb() == InCBProperty::Linker || prev.incb() == InCBProperty::Extend)
            && next.incb() == InCBProperty::Consonant),
        !(prev.gcb() == GCBProperty::ZWJ && next.gcb() == GCBProperty::ExtendedPictographic),
        !(prev.gcb() == GCBProperty::RegionalIndicator && next.gcb()
            == GCBProperty::RegionalIndicator),
    ensures
        m.action(next) == ClusterAction::Split,
{
}

/// Two precomposed Hangul syllables (LV or LVT) in a row are always two
/// grapheme clusters, unless the second also carries an Indic consonant value
/// (which no Hangul syllable does).
pub proof fn lemma_hangul_syllables_break(
    m: GraphemeMachine,
    prev: CharProperties,
    next: CharProperties,
)
    requires
        m.last() == Some(prev),
        prev.gcb() == GCBProperty::LV || prev.gcb() == GCBProperty::LVT,
        next.gcb() == GCBProperty::LV || next.gcb() == GCBProperty::LVT,
        next.incb() != InCBProperty::Consonant,
    ensures
        m.action(next) == ClusterAction::Split,
{
    lemma_other_pairs_break(m, prev, next);
}

/// `actions` gives one action per character.
proof fn lemma_actions_len(m: GraphemeMachine, s: Seq<CharProperties>)
    ensures
        actions(m, s).len() == s.len(),
    decreases s.len(),
{
    if s.len() > 0 {
        lemma_actions_len(m, s.drop_last());
    }
}

/// The action for `s[i]` is the one the machine gives it after reading all
/// the characters before it.
proof fn lemma_actions_index(m: GraphemeMachine, s: Seq<CharProperties>, i: int)
    requires
        0 <= i < s.len(),
    ensures
        actions(m, s).len() == s.len(),
        actions(m, s)[i] == feed(m, s.take(i)).action(s[i]),
    decreases s.len(),
{
    lemma_actions_len(m, s);
    let h = s.drop_last();
    if i == s.len() - 1 {
        assert(s.take(i) =~= h);
    } else {
        lemma_actions_index(m, h, i);
        assert(h.take(i) =~= s.take(i));
    }
}

/// Reading one more character of `s` advances the machine by it.
proof fn lemma_feed_one_more(m: GraphemeMachine, s: Seq<CharProperties>, i: int)
    requires
        0 <= i < s.len(),
    ensures
        feed(m, s.take(i + 1)) == feed(m, s.take(i)).advance(s[i]),
{
    assert(s.take(i + 1).drop_last() =~= s.take(i));
}

/// After a character `c` that is not a regional indicator, reading `i - 1`
/// regional indicators leaves a pair open exactly when `i - 1` is odd.
proof fn lemma_flag_run_state(m: GraphemeMachine, c: CharProperties, r: Seq<CharProperties>, i: int)
    requires
        c.gcb() != GCBProperty::RegionalIndicator,
        forall|j: int|
            0 <= j < r.len() ==> #[trigger] r[j].gcb() == GCBProperty::RegionalIndicator
                && r[j].incb() == InCBProperty::Other,
        1 <= i <= r.len() + 1,
    ensures
        (feed(m, (seq![c] + r).take(i)).state == State::AwaitEmojiFlag) == (i % 2 == 0),
        feed(m, (seq![c] + r).take(i)).prev == Some((seq![c] + r)[i - 1]),
    decreases i,
{
    let t = seq![c] + r;
    if i == 1 {
        lemma_feed_one_more(m, t, 0);
        assert(t.take(0) =~= Seq::<CharProperties>::empty());
        assert(t[0] == c);
    } else {
        lemma_flag_run_state(m, c, r, i - 1);
        lemma_feed_one_more(m, t, i - 1);
        assert(t[i - 1] == r[i - 2]);
    }
}

/// GB12 and GB13: regional indicators pair up. In a run of them after a
/// character `c` that is not one, counting `c` as index 0, each regional
/// indicator at an even index joins the one before it and each one at an
/// odd index after the first begins a new cluster.
pub proof fn lemma_flags_pair_up(m: GraphemeMachine, c: CharProperties, r: Seq<CharProperties>)
    requires
        c.gcb() != GCBProperty::RegionalIndicator,
        forall|j: int|
            0 <= j < r.len() ==> #[trigger] r[j].gcb() == GCBProperty::RegionalIndicator
                && r[j].incb() == InCBProperty::Other,
    ensures
        actions(m, seq![c] + r).len() == r.len() + 1,
        forall|i: int|
            2 <= i < r.len() + 1 ==> #[trigger] actions(m, seq![c] + r)[i] == (if i % 2 == 0 {
                ClusterAction::Continue
            } else {
                ClusterAction::Split
            }),
{
    let t = seq![c] + r;
    lemma_actions_len(m, t);
    assert forall|i: int| 2 <= i < r.len() + 1 implies #[trigger] actions(m, t)[i] == (if i % 2
        == 0 {
        ClusterAction::Continue
    } else {
        ClusterAction::Split
    }) by {
        lemma_actions_index(m, t, i);
        lemma_flag_run_state(m, c, r, i);
        assert(t[i] == r[i - 1]);
        assert(t[i - 1] == r[i - 2]);
    }
}

/// After a pictograph `p` and Extend characters `e`, the machine is in the
/// context of GB11 and remembers the last character read.
proof fn lemma_pictograph_run_state(
    m: GraphemeMachine,
    p: CharProperties,
    e: Seq<CharProperties>,
    tail: Seq<CharProperties>,
    i: int,
)
    requires
        p.gcb() == GCBProperty::ExtendedPictographic,
        forall|j: int|
            0 <= j < e.len() ==> #[trigger] e[j].gcb() == GCBProperty::Extend && e[j].incb()
                != InCBProperty::Consonant,
        1 <= i <= e.len() + 1,
    ensures
        feed(m, (seq![p] + e + tail).take(i)).state == State::GB11BeforeZWJ,
        feed(m, (seq![p] + e + tail).take(i)).prev == Some((seq![p] + e + tail)[i - 1]),
    decreases i,
{
    let t = seq![p] + e + tail;
    if i == 1 {
        lemma_feed_one_more(m, t, 0);
        assert(t.take(0) =~= Seq::<CharProperties>::empty());
        assert(t[0] == p);
    } else {
        lemma_pictograph_run_state(m, p, e, tail, i - 1);
        lemma_feed_one_more(m, t, i - 1);
        assert(t[i - 1] == e[i - 2]);
    }
}

/// GB11: a pictograph, any number of Extend characters, a ZWJ and another
/// pictograph form one emoji sequence: the last pictograph continues the
/// cluster, whatever came before.
pub proof fn lemma_emoji_zwj_joins(
    m: GraphemeMachine,
    p: CharProperties,
    e: Seq<CharProperties>,
    z: CharProperties,
    q: CharProperties,
)
    requires
        p.gcb() == GCBProperty::ExtendedPictographic,
        forall|j: int|
            0 <= j < e.len() ==> #[trigger] e[j].gcb() == GCBProperty::Extend && e[j].incb()
                != InCBProperty::Consonant,
        z.gcb() == GCBProperty::ZWJ,
        z.incb() != InCBProperty::Consonant,
        q.gcb() == GCBProperty::ExtendedPictographic,
    ensures
        actions(m, seq![p] + e + seq![z, q]).len() == e.len() + 3,
        actions(m, seq![p] + e + seq![z, q])[e.len() + 2int] == ClusterAction::Continue,
{
    let tail = seq![z, q];
    let t = seq![p] + e + tail;
    let n = e.len() + 1int;
    lemma_pictograph_run_state(m, p, e, tail, n);
    lemma_feed_one_more(m, t, n);
    assert(t[n] == z);
    assert(t[n + 1] == q);
    lemma_actions_index(m, t, n + 1);
}

/// GB11 needs the pictograph: a ZWJ after a character that is neither a
/// pictograph nor Extend does not join a following pictograph.
pub proof fn lemma_zwj_without_pictograph_breaks(
    m: GraphemeMachine,
    o: CharProperties,
    z: CharProperties,
    q: CharProperties,
)
    requires
        o.gcb() != GCBProperty::ExtendedPictographic && o.gcb() != GCBProperty::Extend,
        z.gcb() == GCBProperty::ZWJ,
        q.gcb() == GCBProperty::ExtendedPictographic,
        q.incb() != InCBProperty::Consonant,
    ensures
        actions(m, seq![o, z, q]).len() == 3,
        actions(m, seq![o, z, q])[2] == ClusterAction::Split,
{
    let t = seq![o, z, q];
    lemma_feed_one_more(m, t, 0);
    lemma_feed_one_more(m, t, 1);
    assert(t.take(0) =~= Seq::<CharProperties>::empty());
    lemma_actions_index(m, t, 2);
}

/// Reading an Indic consonant `k` and then Indic extend and linker
/// characters keeps the machine in the context of GB9c; it is past a linker
/// exactly when one has been read.
proof fn lemma_conjunct_run_state(
    m: GraphemeMachine,
    k: CharProperties,
    mid: Seq<CharProperties>,
    tail: Seq<CharProperties>,
    i: int,
)
    requires
        k.incb() == InCBProperty::Consonant,
        k.gcb() != GCBProperty::ExtendedPictographic,
        forall|j: int|
            0 <= j < mid.len() ==> (#[trigger] mid[j].incb() == InCBProperty::Linker
                || mid[j].incb() == InCBProperty::Extend) && mid[j].gcb()
                != GCBProperty::ExtendedPictographic,
        1 <= i <= mid.len() + 1,
    ensures
        feed(m, (seq![k] + mid + tail).take(i)).state == State::GB9cConsonant || feed(
            m,
            (seq![k] + mid + tail).take(i),
        ).state == State::GB9cLinker,
        (feed(m, (seq![k] + mid + tail).take(i)).state == State::GB9cLinker) == (exists|j: int|
            0 <= j < i - 1 && #[trigger] mid[j].incb() == InCBProperty::Linker),
        feed(m, (seq![k] + mid + tail).take(i)).prev == Some((seq![k] + mid + tail)[i - 1]),
    decreases i,
{
    let t = seq![k] + mid + tail;
    if i == 1 {
        lemma_feed_one_more(m, t, 0);
        assert(t.take(0) =~= Seq::<CharProperties>::empty());
        assert(t[0] == k);
    } else {
        lemma_conjunct_run_state(m, k, mid, tail, i - 1);
        lemma_feed_one_more(m, t, i - 1);
        assert(t[i - 1] == mid[i - 2]);
        if mid[i - 2].incb() == InCBProperty::Linker {
            assert(exists|j: int| 0 <= j < i - 1 && #[trigger] mid[j].incb() == InCBProperty::Linker);
        } else if exists|j: int| 0 <= j < i - 1 && #[trigger] mid[j].incb() == InCBProperty::Linker {
            let j = choose|j: int| 0 <= j < i - 1 && #[trigger] mid[j].incb() == InCBProperty::Linker;
            assert(j < i - 2);
        }
    }
}

/// GB9c: an Indic consonant, then Indic extend and linker characters with at
/// least one linker among them, then another consonant form one conjunct:
/// the second consonant continues the cluster, whatever came before.
pub proof fn lemma_conjunct_joins(
    m: GraphemeMachine,
    k: CharProperties,
    mid: Seq<CharProperties>,
    k2: CharProperties,
)
    requires
        k.incb() == InCBProperty::Consonant,
        k.gcb() != GCBProperty::ExtendedPictographic,
        forall|j: int|
            0 <= j < mid.len() ==> (#[trigger] mid[j].incb() == InCBProperty::Linker
                || mid[j].incb() == InCBProperty::Extend) && mid[j].gcb()
                != GCBProperty::ExtendedPictographic && mid[j].gcb() != GCBProperty::Control
                && mid[j].gcb() != GCBProperty::CR && mid[j].gcb() != GCBProperty::LF,
        exists|j: int| 0 <= j < mid.len() && #[trigger] mid[j].incb() == InCBProperty::Linker,
        k2.incb() == InCBProperty::Consonant,
        k2.gcb() != GCBProperty::Control && k2.gcb() != GCBProperty::CR && k2.gcb()
            != GCBProperty::LF,
    ensures
        actions(m, seq![k] + mid + seq![k2]).len() == mid.len() + 2,
        actions(m, seq![k] + mid + seq![k2])[mid.len() + 1int] == ClusterAction::Continue,
{
    let tail = seq![k2];
    let t = seq![k] + mid + tail;
    let n = mid.len() + 1int;
    lemma_conjunct_run_state(m, k, mid, tail, n);
    assert(t[n] == k2);
    assert(t[n - 1] == mid[n - 2]);
    lemma_actions_index(m, t, n);
}

/// GB9c needs a linker: an Indic consonant followed only by combining marks
/// that are Indic extend characters does not join a following consonant.
pub proof fn lemma_conjunct_without_linker_breaks(
    m: GraphemeMachine,
    k: CharProperties,
    mid: Seq<CharProperties>,
    k2: CharProperties,
)
    requires
        k.incb() == InCBProperty::Consonant,
        k.gcb() == GCBProperty::Other,
        forall|j: int|
            0 <= j < mid.len() ==> #[trigger] mid[j].incb() == InCBProperty::Extend
                && mid[j].gcb() == GCBProperty::Extend,
        k2.incb() == InCBProperty::Consonant,
        k2.gcb() == GCBProperty::Other,
    ensures
        actions(m, seq![k] + mid + seq![k2]).len() == mid.len() + 2,
        actions(m, seq![k] + mid + seq![k2])[mid.len() + 1int] == ClusterAction::Split,
{
    let tail = seq![k2];
    let t = seq![k] + mid + tail;
    let n = mid.len() + 1int;
    lemma_conjunct_run_state(m, k, mid, tail, n);
    assert(t[n] == k2);
    if mid.len() > 0 {
        assert(t[n - 1] == mid[n - 2]);
    } else {
        assert(t[n - 1] == k);
    }
    lemma_actions_index(m, t, n);
}

} // verus!
