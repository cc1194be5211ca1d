use vstd::prelude::*;
use crate::state::{
    OverlayState, OverlayPatch, StateView, PatchView, default_view, full_spec, apply_spec,
    lemma_full_wf, lemma_apply_keeps_wf,
};

verus! {

/// A decoded inbound message.
pub enum Inbound {
    /// A full record: it replaces the stored one.
    Full(OverlayState),
    /// A partial update: it is merged into the stored record.
    Patch(OverlayPatch),
    /// A payload that fits neither shape: it is discarded.
    Malformed,
}

/// The mathematical value of an inbound message.
pub enum InboundView {
    Full(StateView),
    Patch(PatchView),
    Malformed,
}

impl View for Inbound {
    type V = InboundView;

    open spec fn view(&self) -> InboundView {
        match self {
            Inbound::Full(c) => InboundView::Full(c@),
            Inbound::Patch(p) => InboundView::Patch(p@),
            Inbound::Malformed => InboundView::Malformed,
        }
    }
}

/// The stored record after the message `m` arrives at record `s`.
pub open spec fn receive_spec(s: StateView, m: InboundView) -> StateView {
    match m {
        InboundView::Full(c) => full_spec(c),
        InboundView::Patch(p) => apply_spec(p, s),
        InboundView::Malformed => s,
    }
}

/// The stored record after the full records `cs` replaced it, in this order.
pub open spec fn replace_all(s: StateView, cs: Seq<StateView>) -> StateView
    decreases cs.len(),
{
    if cs.len() == 0 {
        s
    } else {
        replace_all(full_spec(cs[0]), cs.drop_first())
    }
}

/// The reading of a payload that decoded as a full record (`full`) and as a
/// patch (`patch`), where each is `None` when that decoding failed.
pub open spec fn decoded_spec(full: Option<StateView>, patch: Option<PatchView>) -> InboundView {
    match full {
        Some(c) => InboundView::Full(c),
        None => match patch {
            Some(p) => InboundView::Patch(p),
            None => InboundView::Malformed,
        },
    }
}

/// Picks the reading of a payload: a payload that decodes as a full record is
/// a full record, even when it decodes as a patch too; one that decodes as a
/// patch only is a patch; any other is malformed.
pub fn decode_order(full: Option<OverlayState>, patch: Option<OverlayPatch>) -> (r: Inbound)
    ensures
        r@ == decoded_spec(
            match full {
                Some(c) => Some(c@),
                None => None,
            },
            match patch {
                Some(p) => Some(p@),
                None => None,
            },
        ),
{
    match full {
        Some(c) => Inbound::Full(c),
        None => match patch {
            Some(p) => Inbound::Patch(p),
            None => Inbound::Malformed,
        },
    }
}

/// The one authoritative status record. Every record it holds is well formed.
pub struct OverlayStore {
    current: OverlayState,
}

impl View for OverlayStore {
    type V = StateView;

    closed spec fn view(&self) -> StateView {
        self.current@
    }
}

impl OverlayStore {
    #[verifier::type_invariant]
    spec fn inv(&self) -> bool {
        self.current@.wf()
    }

    /// A store that holds the default record.
    pub fn new() -> (r: OverlayStore)
        ensures
            r@ == default_view(),
            r@.wf(),
    {
        let r = OverlayStore { current: OverlayState::default() };
        proof {
            crate::level::lemma_clamp_idempotent(0);
        }
        r
    }

    /// A copy of the stored record.
    pub fn get_state(&self) -> (r: OverlayState)
        ensures
            r@ == self@,
            r@.wf(),
    {
        proof {
            use_type_invariant(self);
        }
        self.current.snapshot()
    }

    /// Replaces the stored record by the candidate, its level clamped and its
    /// message normalised; returns the new record, to be published.
    pub fn set_state(&mut self, next: OverlayState) -> (r: OverlayState)
        ensures
            final(self)@ == full_spec(next@),
            r@ == final(self)@,
            r@.wf(),
    {
        let stored = next.sanitized();
        let r = stored.snapshot();
        *self = OverlayStore { current: stored };
        r
    }

    /// Merges a patch into the stored record; returns the new record, to be
    /// published.
    pub fn merge_patch(&mut self, patch: OverlayPatch) -> (r: OverlayState)
        ensures
            final(self)@ == apply_spec(patch@, old(self)@),
            r@ == final(self)@,
            r@.wf(),
    {
        proof {
            use_type_invariant(&*self);
            lemma_apply_keeps_wf(patch@, self@);
        }
        let mut s = self.current.snapshot();
        patch.apply(&mut s);
        let r = s.snapshot();
        *self = OverlayStore { current: s };
        r
    }

    /// Takes in a decoded message: a full record replaces, a patch merges, a
    /// malformed payload changes nothing. Returns the new record when it
    /// changed hands, to be published.
    pub fn receive(&mut self, m: Inbound) -> (r: Option<OverlayState>)
        ensures
            final(self)@ == receive_spec(old(self)@, m@),
            final(self)@.wf(),
            m is Malformed <==> r is None,
            r matches Some(s) ==> s@ == final(self)@,
    {
        proof {
            use_type_invariant(&*self);
        }
        match m {
            Inbound::Full(c) => Some(self.set_state(c)),
            Inbound::Patch(p) => Some(self.merge_patch(p)),
            Inbound::Malformed => None,
        }
    }
}

/// The stored record is well formed whatever arrives.
pub proof fn lemma_receive_keeps_wf(s: StateView, m: InboundView)
    requires
        s.wf(),
    ensures
        receive_spec(s, m).wf(),
{
    match m {
        InboundView::Full(c) => lemma_full_wf(c),
        InboundView::Patch(p) => lemma_apply_keeps_wf(p, s),
        InboundView::Malformed => {},
    }
}

/// A full record leaves nothing of the record it replaces: from any two
/// records the result is the same, the candidate clamped and normalised.
pub proof fn lemma_full_replaces_all(s1: StateView, s2: StateView, c: StateView)
    ensures
        receive_spec(s1, InboundView::Full(c)) == receive_spec(s2, InboundView::Full(c)),
        receive_spec(s1, InboundView::Full(c)) == full_spec(c),
{
}

/// A payload that decodes both as a full record and as a patch replaces the
/// stored record as a full record does.
pub proof fn lemma_full_wins(s: StateView, c: StateView, p: PatchView)
    ensures
        receive_spec(s, decoded_spec(Some(c), Some(p))) == full_spec(c),
{
}

/// A payload that decodes neither as a full record nor as a patch leaves the
/// stored record as it was.
pub proof fn lemma_malformed_keeps(s: StateView)
    ensures
        receive_spec(s, decoded_spec(None, None)) == s,
{
}

/// However a run of full replacements is serialised, the record left is
/// exactly one of the candidates, clamped and normalised: the last one.
pub proof fn lemma_replacements_serialize(s: StateView, cs: Seq<StateView>)
    requires
        cs.len() > 0,
    ensures
        replace_all(s, cs) == full_spec(cs.last()),
        exists|k: int| 0 <= k < cs.len() && replace_all(s, cs) == full_spec(#[trigger] cs[k]),
    decreases cs.len(),
{
    if cs.len() > 1 {
        lemma_replacements_serialize(full_spec(cs[0]), cs.drop_first());
        assert(cs.drop_first().last() == cs.last());
    } else {
        assert(replace_all(full_spec(cs[0]), cs.drop_first()) == full_spec(cs[0]));
    }
    assert(replace_all(s, cs) == full_spec(cs[cs.len() - 1]));
}

} // verus!
