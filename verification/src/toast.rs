//! The notification center: one process-wide transient message with an
//! auto-hide rule. Every emission bumps a generation counter; a hide
//! timer carries the generation it was started under, and firing it
//! hides the message only while that generation is still current, so a
//! stale timer never hides a newer message.

use vstd::prelude::*;

verus! {

/// How long a message stays shown before its hide timer fires.
pub const HIDE_DELAY_SECONDS: u64 = 4;

/// Severity of a toast message.
#[derive(Clone, Copy, PartialEq, Eq, Structural, Debug)]
pub enum ToastType {
    Success,
    Error,
}

/// The single transient status message shown to the user.
pub struct ToastMessage {
    pub message: String,
    pub toast_type: ToastType,
    pub visible: bool,
}

/// Ghost image of a toast message.
pub struct ToastMessageV {
    pub message: Seq<char>,
    pub toast_type: ToastType,
    pub visible: bool,
}

impl View for ToastMessage {
    type V = ToastMessageV;

    open spec fn view(&self) -> ToastMessageV {
        ToastMessageV { message: self.message@, toast_type: self.toast_type, visible: self.visible }
    }
}

impl Clone for ToastMessage {
    fn clone(&self) -> (r: Self)
        ensures
            r@ == self@,
    {
        ToastMessage {
            message: self.message.clone(),
            toast_type: self.toast_type,
            visible: self.visible,
        }
    }
}

/// Ghost image of the notification center.
pub struct ToastCenterV {
    pub current: ToastMessageV,
    pub generation: nat,
}

/// The notification center: the current message and the generation
/// counter that guards the auto-hide timers.
pub struct ToastCenter {
    pub current: ToastMessage,
    pub generation: u64,
}

impl View for ToastCenter {
    type V = ToastCenterV;

    open spec fn view(&self) -> ToastCenterV {
        ToastCenterV { current: self.current@, generation: self.generation as nat }
    }
}

/// What emitting does: the message is overwritten and shown, whatever
/// the previous message or its timer state, and the generation moves on.
pub open spec fn spec_emit(c: ToastCenterV, message: Seq<char>, toast_type: ToastType)
    -> ToastCenterV {
    ToastCenterV {
        current: ToastMessageV { message, toast_type, visible: true },
        generation: c.generation + 1,
    }
}

/// What a hide timer firing does: it hides the message only when the
/// generation it carries is still the current one; a stale timer
/// changes nothing.
pub open spec fn spec_timer_fired(c: ToastCenterV, token: nat) -> ToastCenterV {
    if token == c.generation {
        ToastCenterV { current: ToastMessageV { visible: false, ..c.current }, ..c }
    } else {
        c
    }
}

/// The ghost image of the center at process start: empty and invisible.
pub open spec fn spec_initial_center() -> ToastCenterV {
    ToastCenterV {
        current: ToastMessageV { message: Seq::empty(), toast_type: ToastType::Success, visible: false },
        generation: 0,
    }
}

impl ToastCenter {
    /// The center at process start: an empty, invisible message.
    pub fn new() -> (r: ToastCenter)
        ensures
            r@ == spec_initial_center(),
    {
        let r = ToastCenter {
            current: ToastMessage {
                message: String::new(),
                toast_type: ToastType::Success,
                visible: false,
            },
            generation: 0,
        };
        proof {
            assert(r.current.message@ =~= Seq::<char>::empty());
        }
        r
    }

    /// Overwrites the one notification with the given content, visible,
    /// and returns the token that the matching hide timer must carry.
    pub fn emit(&mut self, message: String, toast_type: ToastType) -> (token: u64)
        requires
            old(self)@.generation < u64::MAX,
        ensures
            final(self)@ == spec_emit(old(self)@, message@, toast_type),
            token == final(self)@.generation,
    {
        self.current = ToastMessage { message, toast_type, visible: true };
        self.generation = self.generation + 1;
        self.generation
    }

    /// Reports that the hide timer started under `token` has elapsed.
    pub fn timer_fired(&mut self, token: u64)
        ensures
            final(self)@ == spec_timer_fired(old(self)@, token as nat),
    {
        if token == self.generation {
            self.current.visible = false;
        }
    }

    /// The generation the center is at — the token a hide timer for
    /// the currently shown message must carry.
    pub fn current_generation(&self) -> (r: u64)
        ensures
            r as nat == self@.generation,
    {
        self.generation
    }

    /// The current snapshot, as the UI observes it.
    pub fn read(&self) -> (r: &ToastMessage)
        ensures
            r@ == self@.current,
    {
        &self.current
    }
}

/// Law: a timer whose token is not the current generation is a no-op,
/// whatever it is and however many emissions have passed since it was
/// started — only the latest emission's own timer can flip visibility.
pub proof fn lemma_stale_timer_is_noop(c: ToastCenterV, token: nat)
    requires
        token != c.generation,
    ensures
        spec_timer_fired(c, token) == c,
{
}

/// Law: when a second message is emitted while an earlier one's hide
/// timer is still pending, the earlier timer is a no-op — the second
/// message stays visible — and only the second emission's own timer
/// hides it, with the second message still the one shown.
pub proof fn lemma_second_emit_wins(
    c: ToastCenterV,
    m1: Seq<char>,
    t1: ToastType,
    m2: Seq<char>,
    t2: ToastType,
)
    ensures
        ({
            let c1 = spec_emit(c, m1, t1);
            let c2 = spec_emit(c1, m2, t2);
            &&& spec_timer_fired(c2, c1.generation) == c2
            &&& c2.current.visible
            &&& c2.current.message == m2
            &&& !spec_timer_fired(c2, c2.generation).current.visible
            &&& spec_timer_fired(c2, c2.generation).current.message == m2
        }),
{
}

} // verus!
