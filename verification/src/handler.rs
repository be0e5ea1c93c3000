//! The native filter and macro engine: a bounded ring buffer of recent key
//! states, shortcut-triggered replay, and a reentrancy guard.
//!
//! The filter sees every hardware event. While a macro replays, the `playing`
//! guard makes it forward everything untouched, so the replay's own synthetic
//! events are never recorded and never re-trigger the shortcut. Otherwise a
//! key press either matches the shortcut — the buffer is snapshotted for
//! replay and the event swallowed — or is pushed to the buffer's front,
//! evicting the oldest entry past capacity, and forwarded.
use std::collections::VecDeque;
use vstd::prelude::*;

use crate::hotkey::{spec_shortcut_matches, Shortcut};
use crate::keys::{spec_any_modifier, Event, KeyState, MASK_NON_COALESCED};

verus! {

/// The mathematical state of the filter: the buffer newest-first, its
/// capacity, the reentrancy guard, the modifier mask last seen, whether the
/// shortcut chord is currently held, and the configured shortcut.
pub ghost struct FilterModel {
    pub buffer: Seq<KeyState>,
    pub capacity: int,
    pub playing: bool,
    pub latest_flags: u64,
    pub shortcut_pressed: bool,
    pub shortcut: Shortcut,
}

/// The snapshot a shortcut press hands to the replay engine: the buffer's
/// contents at trigger time, newest-first, and the mask at that instant.
pub ghost struct ReplaySpec {
    pub buffer: Seq<KeyState>,
    pub flags: u64,
}

/// What one hardware event does to the filter: the state afterwards, the
/// event to forward (`None` swallows it), and the replay snapshot taken, if
/// any.
pub open spec fn spec_step(m: FilterModel, e: Event) -> (FilterModel, Option<Event>, Option<
    ReplaySpec,
>) {
    if m.playing {
        (m, Some(e), None)
    } else {
        match e {
            Event::KeyPress(code) => {
                if spec_shortcut_matches(m.latest_flags, code, m.shortcut) {
                    (
                        FilterModel { shortcut_pressed: true, ..m },
                        None,
                        Some(ReplaySpec { buffer: m.buffer, flags: m.latest_flags }),
                    )
                } else {
                    let pushed = seq![KeyState { code, flags: m.latest_flags }] + m.buffer;
                    let kept = if pushed.len() > m.capacity {
                        pushed.drop_last()
                    } else {
                        pushed
                    };
                    (FilterModel { buffer: kept, ..m }, Some(e), None)
                }
            },
            Event::KeyRelease(_) => (m, Some(e), None),
            Event::FlagsChanged(_, flags) => {
                if m.shortcut_pressed {
                    if !spec_any_modifier(flags) {
                        (
                            FilterModel { shortcut_pressed: false, latest_flags: flags, ..m },
                            Some(e),
                            None,
                        )
                    } else {
                        (m, Some(e), None)
                    }
                } else {
                    (FilterModel { latest_flags: flags, ..m }, Some(e), None)
                }
            },
        }
    }
}

/// A copy of the macro buffer and trigger-time mask, created once per
/// shortcut activation and consumed once by the replay engine.
pub struct ReplayState {
    pub buffer: VecDeque<KeyState>,
    pub flags: u64,
}

impl ReplayState {
    /// The snapshot this value carries.
    pub open spec fn view_spec(&self) -> ReplaySpec {
        ReplaySpec { buffer: self.buffer@, flags: self.flags }
    }

    /// Packs a buffer snapshot and the mask at trigger time.
    pub fn new(buffer: VecDeque<KeyState>, flags: u64) -> (r: ReplayState)
        ensures
            r.view_spec() == (ReplaySpec { buffer: buffer@, flags }),
    {
        ReplayState { buffer, flags }
    }
}

/// The native filter: owns the macro buffer and decides, per hardware event,
/// whether to forward, swallow, or trigger replay.
pub struct Handler {
    pub buffer: VecDeque<KeyState>,
    pub capacity: usize,
    pub playing: bool,
    pub latest_flags: u64,
    pub shortcut_pressed: bool,
    pub shortcut: Shortcut,
}

impl Handler {
    /// The buffer never outgrows its capacity.
    pub open spec fn wf(&self) -> bool {
        self.buffer@.len() <= self.capacity
    }

    /// The filter's mathematical state.
    pub open spec fn model(&self) -> FilterModel {
        FilterModel {
            buffer: self.buffer@,
            capacity: self.capacity as int,
            playing: self.playing,
            latest_flags: self.latest_flags,
            shortcut_pressed: self.shortcut_pressed,
            shortcut: self.shortcut,
        }
    }

    /// A fresh filter: empty buffer, not playing, chord not held, and the
    /// plain mask every event carries on this platform.
    pub fn new(capacity: usize, shortcut: Shortcut) -> (h: Handler)
        ensures
            h.wf(),
            h.model() == (FilterModel {
                buffer: Seq::<KeyState>::empty(),
                capacity: capacity as int,
                playing: false,
                latest_flags: MASK_NON_COALESCED,
                shortcut_pressed: false,
                shortcut,
            }),
    {
        let h = Handler {
            buffer: VecDeque::with_capacity(capacity),
            capacity,
            playing: false,
            latest_flags: MASK_NON_COALESCED,
            shortcut_pressed: false,
            shortcut,
        };
        proof {
            assert(h.buffer@ =~= Seq::<KeyState>::empty());
        }
        h
    }

    /// Sets the reentrancy guard. The replay driver raises it before it
    /// injects the first synthetic event and lowers it after the last one.
    pub fn set_playing(&mut self, playing: bool)
        ensures
            *final(self) == (Handler { playing, ..*old(self) }),
    {
        self.playing = playing;
    }

    /// Whether any tracked modifier key is held in `flags`.
    pub fn is_modifier_pressing(&self, flags: u64) -> (r: bool)
        ensures
            r == spec_any_modifier(flags),
    {
        crate::keys::any_modifier_pressed(flags)
    }

    /// Feeds one hardware event through the filter. Returns the event to
    /// forward (`None` swallows it) and the replay snapshot when the
    /// shortcut fired — exactly as `spec_step` says.
    pub fn callback(&mut self, event: Event) -> (r: (Option<Event>, Option<ReplayState>))
        requires
            old(self).wf(),
        ensures
            final(self).wf(),
            ({
                let (m2, fwd, rep) = spec_step(old(self).model(), event);
                &&& final(self).model() == m2
                &&& r.0 == fwd
                &&& match (r.1, rep) {
                    (Some(rs), Some(spec)) => rs.view_spec() == spec,
                    (None, None) => true,
                    _ => false,
                }
            }),
    {
        if self.playing {
            return (Some(event), None);
        }
        match event {
            Event::KeyPress(code) => {
                if is_shortcut_pressed_here(self.latest_flags, code, &self.shortcut) {
                    self.shortcut_pressed = true;
                    let snapshot = clone_states(&self.buffer);
                    return (None, Some(ReplayState::new(snapshot, self.latest_flags)));
                }
                self.buffer.push_front(KeyState { code, flags: self.latest_flags });
                if self.capacity < self.buffer.len() {
                    self.buffer.pop_back();
                    proof {
                        let pushed = seq![
                            KeyState { code, flags: old(self).latest_flags },
                        ] + old(self).buffer@;
                        assert(self.buffer@ =~= pushed.drop_last());
                    }
                }
                (Some(event), None)
            },
            Event::KeyRelease(_) => (Some(event), None),
            Event::FlagsChanged(_, flags) => {
                if self.shortcut_pressed {
                    if !crate::keys::any_modifier_pressed(flags) {
                        self.shortcut_pressed = false;
                        self.latest_flags = flags;
                    }
                } else {
                    self.latest_flags = flags;
                }
                (Some(event), None)
            },
        }
    }
}

/// Copies the macro buffer, element for element, so that ongoing capture
/// cannot mutate a macro mid-replay.
fn clone_states(buffer: &VecDeque<KeyState>) -> (r: VecDeque<KeyState>)
    ensures
        r@ == buffer@,
{
    let r = buffer.clone();
    proof {
        assert forall|i: int| 0 <= i < buffer@.len() implies r@[i] == buffer@[i] by {
            assert(cloned::<KeyState>(buffer@[i], r@[i]));
        }
        assert(r@ =~= buffer@);
    }
    r
}

/// The shortcut test, as the matcher states it.
fn is_shortcut_pressed_here(flags: u64, code: u16, shortcut: &Shortcut) -> (r: bool)
    ensures
        r == spec_shortcut_matches(flags, code, *shortcut),
{
    crate::hotkey::is_shortcut_pressed(flags, code, shortcut)
}

/// The filter after a whole sequence of key presses, fed one at a time.
pub open spec fn apply_presses(m: FilterModel, codes: Seq<u16>) -> FilterModel
    decreases codes.len(),
{
    if codes.len() == 0 {
        m
    } else {
        spec_step(apply_presses(m, codes.drop_last()), Event::KeyPress(codes.last())).0
    }
}

/// Bounded growth, newest first: starting from an empty buffer, after any
/// sequence of key presses none of which matches the shortcut, the buffer's
/// length equals the smaller of the capacity and the number of presses, its
/// front is always the press made last, and nothing else of the filter moved.
pub proof fn lemma_buffer_growth(m: FilterModel, codes: Seq<u16>)
    requires
        !m.playing,
        m.buffer.len() == 0,
        m.capacity >= 0,
        forall|i: int|
            0 <= i < codes.len() ==> !spec_shortcut_matches(m.latest_flags, codes[i], m.shortcut),
    ensures
        ({
            let m2 = apply_presses(m, codes);
            &&& m2.buffer.len() == vstd::math::min(m.capacity, codes.len() as int)
            &&& (codes.len() > 0 && m.capacity >= 1 ==> m2.buffer[0] == (KeyState {
                code: codes.last(),
                flags: m.latest_flags,
            }))
            &&& m2.latest_flags == m.latest_flags
            &&& m2.playing == m.playing
            &&& m2.capacity == m.capacity
            &&& m2.shortcut == m.shortcut
            &&& m2.shortcut_pressed == m.shortcut_pressed
        }),
    decreases codes.len(),
{
    if codes.len() > 0 {
        lemma_buffer_growth(m, codes.drop_last());
    }
}

/// The shortcut never pollutes the buffer: a key press that matches the
/// shortcut, met outside playback, leaves the buffer exactly as it was,
/// swallows the event, and takes exactly one replay snapshot — the buffer's
/// pre-trigger contents with the mask at trigger time.
pub proof fn lemma_matching_press_snapshots(m: FilterModel, code: u16)
    requires
        !m.playing,
        spec_shortcut_matches(m.latest_flags, code, m.shortcut),
    ensures
        ({
            let (m2, fwd, rep) = spec_step(m, Event::KeyPress(code));
            &&& m2.buffer == m.buffer
            &&& fwd is None
            &&& rep == Some(ReplaySpec { buffer: m.buffer, flags: m.latest_flags })
        }),
{
}

/// No buffer entry matches the shortcut under the mask it was recorded with.
pub open spec fn no_matching_entry(m: FilterModel) -> bool {
    forall|i: int|
        0 <= i < m.buffer.len() ==> !spec_shortcut_matches(
            m.buffer[i].flags,
            m.buffer[i].code,
            m.shortcut,
        )
}

/// The buffer never holds a shortcut press: the filter starts with an empty
/// buffer, and every step keeps every recorded entry a non-match against the
/// shortcut under its recorded mask — a matching press is swallowed, never
/// pushed.
pub proof fn lemma_no_matching_entry_preserved(m: FilterModel, e: Event)
    requires
        no_matching_entry(m),
    ensures
        ({
            let (m2, _, _) = spec_step(m, e);
            &&& m2.shortcut == m.shortcut
            &&& no_matching_entry(m2)
        }),
{
    let (m2, _, _) = spec_step(m, e);
    if !m.playing {
        match e {
            Event::KeyPress(code) => {
                if !spec_shortcut_matches(m.latest_flags, code, m.shortcut) {
                    let pushed = seq![KeyState { code, flags: m.latest_flags }] + m.buffer;
                    assert forall|i: int| 0 <= i < m2.buffer.len() implies !spec_shortcut_matches(
                        m2.buffer[i].flags,
                        m2.buffer[i].code,
                        m2.shortcut,
                    ) by {
                        assert(m2.buffer[i] == pushed[i]);
                        if i > 0 {
                            assert(pushed[i] == m.buffer[i - 1]);
                        }
                    }
                }
            },
            _ => {},
        }
    }
}

/// The filter after a whole sequence of events, fed one at a time.
pub open spec fn apply_events(m: FilterModel, events: Seq<Event>) -> FilterModel
    decreases events.len(),
{
    if events.len() == 0 {
        m
    } else {
        spec_step(apply_events(m, events.drop_last()), events.last()).0
    }
}

/// Over any run: starting from a state whose buffer holds no shortcut press
/// — the fresh filter's empty buffer among them — no sequence of events ever
/// puts one there.
pub proof fn lemma_never_a_matching_entry(m: FilterModel, events: Seq<Event>)
    requires
        no_matching_entry(m),
    ensures
        apply_events(m, events).shortcut == m.shortcut,
        no_matching_entry(apply_events(m, events)),
    decreases events.len(),
{
    if events.len() > 0 {
        lemma_never_a_matching_entry(m, events.drop_last());
        lemma_no_matching_entry_preserved(apply_events(m, events.drop_last()), events.last());
    }
}

/// The reentrancy guard: while `playing` is set, every event — whatever it
/// holds — is forwarded unchanged, the state does not move, no key press is
/// buffered and no replay snapshot is taken.
pub proof fn lemma_playing_guard(m: FilterModel, e: Event)
    requires
        m.playing,
    ensures
        spec_step(m, e) == (m, Some(e), Option::<ReplaySpec>::None),
{
}

} // verus!
