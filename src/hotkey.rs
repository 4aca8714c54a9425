//! Interpretation of global-shortcut key events, per binding, in
//! push-to-talk or toggle mode, with keyboard auto-repeat suppressed.
use vstd::prelude::*;

verus! {

/// A key event of a bound shortcut.
#[derive(Clone, Copy, Debug, PartialEq, Eq, Structural)]
pub enum KeyEvent {
    KeyDown,
    KeyUp,
}

/// What the binding's action should do in response to an event.
#[derive(Clone, Copy, Debug, PartialEq, Eq, Structural)]
pub enum HotkeyAction {
    Start,
    Stop,
    Nothing,
}

/// State of one binding: whether its action is running and whether its key
/// is held down.
#[derive(Clone, Copy, Debug, PartialEq, Eq, Structural)]
pub struct HotkeySession {
    pub active: bool,
    pub key_held: bool,
}

/// The state after `ev` arrives in state `s`.
pub open spec fn next_state(s: HotkeySession, push_to_talk: bool, ev: KeyEvent) -> HotkeySession {
    match ev {
        KeyEvent::KeyDown => if s.key_held {
            s
        } else if push_to_talk {
            HotkeySession { active: true, key_held: true }
        } else {
            HotkeySession { active: !s.active, key_held: true }
        },
        KeyEvent::KeyUp => if push_to_talk && s.active {
            HotkeySession { active: false, key_held: false }
        } else {
            HotkeySession { active: s.active, key_held: false }
        },
    }
}

/// The action that `ev` in state `s` calls for.
pub open spec fn action_of(s: HotkeySession, push_to_talk: bool, ev: KeyEvent) -> HotkeyAction {
    match ev {
        KeyEvent::KeyDown => if s.key_held {
            HotkeyAction::Nothing
        } else if push_to_talk {
            if s.active {
                HotkeyAction::Nothing
            } else {
                HotkeyAction::Start
            }
        } else if s.active {
            HotkeyAction::Stop
        } else {
            HotkeyAction::Start
        },
        KeyEvent::KeyUp => if push_to_talk && s.active {
            HotkeyAction::Stop
        } else {
            HotkeyAction::Nothing
        },
    }
}

/// The state after a sequence of events.
pub open spec fn run(s: HotkeySession, push_to_talk: bool, evs: Seq<KeyEvent>) -> HotkeySession
    decreases evs.len(),
{
    if evs.len() == 0 {
        s
    } else {
        run(next_state(s, push_to_talk, evs[0]), push_to_talk, evs.drop_first())
    }
}

/// The starts and stops that a sequence of events calls for, in order.
pub open spec fn fired(s: HotkeySession, push_to_talk: bool, evs: Seq<KeyEvent>) -> Seq<
    HotkeyAction,
>
    decreases evs.len(),
{
    if evs.len() == 0 {
        Seq::empty()
    } else {
        let a = action_of(s, push_to_talk, evs[0]);
        let rest = fired(next_state(s, push_to_talk, evs[0]), push_to_talk, evs.drop_first());
        if a == HotkeyAction::Nothing {
            rest
        } else {
            seq![a] + rest
        }
    }
}

/// Whether the `i`-th action fired from state `s` is a start.
pub open spec fn starts_at(s: HotkeySession, i: int) -> bool {
    if s.active {
        i % 2 == 1
    } else {
        i % 2 == 0
    }
}

impl HotkeySession {
    /// A binding just registered: inactive, key up.
    pub fn new() -> (r: Self)
        ensures
            !r.active,
            !r.key_held,
    {
        HotkeySession { active: false, key_held: false }
    }

    /// Handles one key event. In push-to-talk mode a key press starts and
    /// its release stops; in toggle mode each press flips the binding on or
    /// off and a release does nothing else. A press while the key is already
    /// held (auto-repeat) changes nothing.
    pub fn on_key_event(&mut self, push_to_talk: bool, ev: KeyEvent) -> (r: HotkeyAction)
        ensures
            *final(self) == next_state(*old(self), push_to_talk, ev),
            r == action_of(*old(self), push_to_talk, ev),
            ev == KeyEvent::KeyDown && old(self).key_held ==> *final(self) == *old(self) && r
                == HotkeyAction::Nothing,
    {
        match ev {
            KeyEvent::KeyDown => {
                if self.key_held {
                    return HotkeyAction::Nothing;
                }
                self.key_held = true;
                if push_to_talk {
                    if self.active {
                        HotkeyAction::Nothing
                    } else {
                        self.active = true;
                        HotkeyAction::Start
                    }
                } else if self.active {
                    self.active = false;
                    HotkeyAction::Stop
                } else {
                    self.active = true;
                    HotkeyAction::Start
                }
            },
            KeyEvent::KeyUp => {
                self.key_held = false;
                if push_to_talk && self.active {
                    self.active = false;
                    HotkeyAction::Stop
                } else {
                    HotkeyAction::Nothing
                }
            },
        }
    }
}

/// Starts and stops strictly alternate, whatever the events and in either
/// mode: from an inactive binding the fired actions read start, stop, start,
/// ... and the binding ends active exactly when a start is left unmatched.
pub proof fn lemma_start_stop_alternate(s: HotkeySession, push_to_talk: bool, evs: Seq<KeyEvent>)
    ensures
        forall|i: int|
            0 <= i < fired(s, push_to_talk, evs).len() ==> (#[trigger] fired(
                s,
                push_to_talk,
                evs,
            )[i] == HotkeyAction::Start) == starts_at(s, i) && fired(s, push_to_talk, evs)[i]
                != HotkeyAction::Nothing,
        run(s, push_to_talk, evs).active == (if s.active {
            fired(s, push_to_talk, evs).len() % 2 == 0
        } else {
            fired(s, push_to_talk, evs).len() % 2 == 1
        }),
    decreases evs.len(),
{
    if evs.len() > 0 {
        let a = action_of(s, push_to_talk, evs[0]);
        let s2 = next_state(s, push_to_talk, evs[0]);
        lemma_start_stop_alternate(s2, push_to_talk, evs.drop_first());
        let rest = fired(s2, push_to_talk, evs.drop_first());
        let all = fired(s, push_to_talk, evs);
        if a != HotkeyAction::Nothing {
            assert(s2.active != s.active);
            assert forall|i: int| 0 <= i < all.len() implies (#[trigger] all[i]
                == HotkeyAction::Start) == starts_at(s, i) && all[i] != HotkeyAction::Nothing by {
                if i > 0 {
                    assert(all[i] == rest[i - 1]);
                }
            }
        } else {
            assert(s2.active == s.active);
        }
    }
}

/// A key press while the key is held leaves the binding as it was and
/// fires nothing.
pub proof fn lemma_repeat_press_ignored(s: HotkeySession, push_to_talk: bool)
    requires
        s.key_held,
    ensures
        next_state(s, push_to_talk, KeyEvent::KeyDown) == s,
        action_of(s, push_to_talk, KeyEvent::KeyDown) == HotkeyAction::Nothing,
{
}

} // verus!
