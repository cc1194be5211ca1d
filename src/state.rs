use vstd::prelude::*;
use crate::level::{clamp_level, clamp_spec, level_in_range, lemma_clamp_idempotent};
use crate::text::{
    normalize_message, normalize_spec, message_ok, opt_text, lemma_normalize_idempotent,
};

verus! {

/// The overlay's status record. `level` is in units of `1 / LEVEL_SCALE`.
pub struct OverlayState {
    pub connection: String,
    pub listening: String,
    pub processing: String,
    pub target: String,
    pub level: i64,
    pub visible: bool,
    pub message: Option<String>,
}

/// The mathematical value of a status record.
pub struct StateView {
    pub connection: Seq<char>,
    pub listening: Seq<char>,
    pub processing: Seq<char>,
    pub target: Seq<char>,
    pub level: int,
    pub visible: bool,
    pub message: Option<Seq<char>>,
}

impl View for OverlayState {
    type V = StateView;

    open spec fn view(&self) -> StateView {
        StateView {
            connection: self.connection@,
            listening: self.listening@,
            processing: self.processing@,
            target: self.target@,
            level: self.level as int,
            visible: self.visible,
            message: opt_text(self.message),
        }
    }
}

impl StateView {
    /// What holds of every stored record: the level lies in range and the
    /// message is never blank.
    pub open spec fn wf(self) -> bool {
        level_in_range(self.level) && message_ok(self.message)
    }
}

/// The record a process starts with.
pub open spec fn default_view() -> StateView {
    StateView {
        connection: "checking"@,
        listening: "ready"@,
        processing: "idle"@,
        target: "unknown"@,
        level: 0,
        visible: false,
        message: None,
    }
}

/// A full record as it is stored: its level clamped and its message
/// normalised, every other field taken as it is.
pub open spec fn full_spec(c: StateView) -> StateView {
    StateView { level: clamp_spec(c.level), message: normalize_spec(c.message), ..c }
}

impl Default for OverlayState {
    fn default() -> (r: Self)
        ensures
            r@ == default_view(),
    {
        proof {
            reveal_strlit("checking");
            reveal_strlit("ready");
            reveal_strlit("idle");
            reveal_strlit("unknown");
        }
        OverlayState {
            connection: "checking".to_owned(),
            listening: "ready".to_owned(),
            processing: "idle".to_owned(),
            target: "unknown".to_owned(),
            level: 0,
            visible: false,
            message: None,
        }
    }
}

/// A copy of an optional text.
fn copy_text(m: &Option<String>) -> (r: Option<String>)
    ensures
        opt_text(r) == opt_text(*m),
{
    match m {
        Some(t) => Some(t.clone()),
        None => None,
    }
}

impl OverlayState {
    /// A field-for-field copy of the record.
    pub fn snapshot(&self) -> (r: OverlayState)
        ensures
            r@ == self@,
    {
        OverlayState {
            connection: self.connection.clone(),
            listening: self.listening.clone(),
            processing: self.processing.clone(),
            target: self.target.clone(),
            level: self.level,
            visible: self.visible,
            message: copy_text(&self.message),
        }
    }

    /// Turns a candidate full record into the record that is stored: the
    /// level is clamped and a blank message becomes no message.
    pub fn sanitized(self) -> (r: OverlayState)
        ensures
            r@ == full_spec(self@),
            r@.wf(),
    {
        OverlayState {
            level: clamp_level(self.level),
            message: normalize_message(self.message),
            ..self
        }
    }
}

/// A partial update: a field that is `None` leaves the record's field as it is.
pub struct OverlayPatch {
    pub connection: Option<String>,
    pub listening: Option<String>,
    pub processing: Option<String>,
    pub target: Option<String>,
    pub level: Option<i64>,
    pub visible: Option<bool>,
    pub message: Option<String>,
}

/// The mathematical value of a partial update.
pub struct PatchView {
    pub connection: Option<Seq<char>>,
    pub listening: Option<Seq<char>>,
    pub processing: Option<Seq<char>>,
    pub target: Option<Seq<char>>,
    pub level: Option<int>,
    pub visible: Option<bool>,
    pub message: Option<Seq<char>>,
}

impl View for OverlayPatch {
    type V = PatchView;

    open spec fn view(&self) -> PatchView {
        PatchView {
            connection: opt_text(self.connection),
            listening: opt_text(self.listening),
            processing: opt_text(self.processing),
            target: opt_text(self.target),
            level: match self.level {
                Some(x) => Some(x as int),
                None => None,
            },
            visible: self.visible,
            message: opt_text(self.message),
        }
    }
}

/// A present field replaces, an absent one keeps.
pub open spec fn pick<T>(p: Option<T>, s: T) -> T {
    match p {
        Some(v) => v,
        None => s,
    }
}

/// The record `s` after the patch `p`: present fields overwrite, the level
/// clamped and the message normalised; absent fields keep their value.
pub open spec fn apply_spec(p: PatchView, s: StateView) -> StateView {
    StateView {
        connection: pick(p.connection, s.connection),
        listening: pick(p.listening, s.listening),
        processing: pick(p.processing, s.processing),
        target: pick(p.target, s.target),
        level: match p.level {
            Some(x) => clamp_spec(x),
            None => s.level,
        },
        visible: pick(p.visible, s.visible),
        message: match p.message {
            Some(m) => normalize_spec(Some(m)),
            None => s.message,
        },
    }
}

impl Default for OverlayPatch {
    fn default() -> (r: Self)
        ensures
            r@ == (PatchView {
                connection: None,
                listening: None,
                processing: None,
                target: None,
                level: None,
                visible: None,
                message: None,
            }),
    {
        OverlayPatch {
            connection: None,
            listening: None,
            processing: None,
            target: None,
            level: None,
            visible: None,
            message: None,
        }
    }
}

impl OverlayPatch {
    /// Merges the patch into `state`.
    pub fn apply(self, state: &mut OverlayState)
        ensures
            final(state)@ == apply_spec(self@, old(state)@),
    {
        if let Some(value) = self.connection {
            state.connection = value;
        }
        if let Some(value) = self.listening {
            state.listening = value;
        }
        if let Some(value) = self.processing {
            state.processing = value;
        }
        if let Some(value) = self.target {
            state.target = value;
        }
        if let Some(value) = self.level {
            state.level = clamp_level(value);
        }
        if let Some(value) = self.visible {
            state.visible = value;
        }
        if let Some(value) = self.message {
            state.message = normalize_message(Some(value));
        }
    }
}

/// A patch keeps a record well formed.
pub proof fn lemma_apply_keeps_wf(p: PatchView, s: StateView)
    requires
        s.wf(),
    ensures
        apply_spec(p, s).wf(),
{
    if let Some(x) = p.level {
        lemma_clamp_idempotent(x);
    }
    if let Some(m) = p.message {
        lemma_normalize_idempotent(Some(m));
    }
}

/// A stored full record is well formed.
pub proof fn lemma_full_wf(c: StateView)
    ensures
        full_spec(c).wf(),
{
    lemma_clamp_idempotent(c.level);
    lemma_normalize_idempotent(c.message);
}

/// Whatever level `x` a full record or a patch carries, the stored level is
/// `max(0, min(1, x))`.
pub proof fn lemma_level_clamped(c: StateView, p: PatchView, s: StateView, x: int)
    ensures
        c.level == x ==> full_spec(c).level == clamp_spec(x),
        p.level == Some(x) ==> apply_spec(p, s).level == clamp_spec(x),
        clamp_spec(x) == if x < 0 {
            0
        } else if x > crate::level::LEVEL_SCALE {
            crate::level::LEVEL_SCALE as int
        } else {
            x
        },
{
}

/// A blank message, from a full record or a patch, is stored as no message;
/// any other message is stored unchanged.
pub proof fn lemma_message_normalized(c: StateView, p: PatchView, s: StateView, m: Seq<char>)
    ensures
        c.message == Some(m) ==> full_spec(c).message == (if crate::text::is_blank(m) {
            None
        } else {
            Some(m)
        }),
        p.message == Some(m) ==> apply_spec(p, s).message == (if crate::text::is_blank(m) {
            None
        } else {
            Some(m)
        }),
{
}

/// Every field that a patch leaves out keeps its value.
pub proof fn lemma_patch_keeps_absent(p: PatchView, s: StateView)
    ensures
        p.connection is None ==> apply_spec(p, s).connection == s.connection,
        p.listening is None ==> apply_spec(p, s).listening == s.listening,
        p.processing is None ==> apply_spec(p, s).processing == s.processing,
        p.target is None ==> apply_spec(p, s).target == s.target,
        p.level is None ==> apply_spec(p, s).level == s.level,
        p.visible is None ==> apply_spec(p, s).visible == s.visible,
        p.message is None ==> apply_spec(p, s).message == s.message,
{
}

/// Applying the same patch twice is applying it once.
pub proof fn lemma_apply_idempotent(p: PatchView, s: StateView)
    ensures
        apply_spec(p, apply_spec(p, s)) == apply_spec(p, s),
{
    if let Some(x) = p.level {
        lemma_clamp_idempotent(x);
    }
    if let Some(m) = p.message {
        lemma_normalize_idempotent(Some(m));
    }
}

} // verus!
