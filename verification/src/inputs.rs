//! The input dispatcher. Once per frame it evaluates an ordered list of
//! (event, command) bindings against the host's raw button bitmask and
//! answers the commands whose events fire, in binding order; the frame
//! driver interprets the commands. The one stateful event is the synthetic
//! double press of the first button, detected from the recorded reading of
//! the previous press.

use vstd::prelude::*;

use crate::wtime::{Duration, Winstant, EXPECTED_FRAME_DURATION_MS};

verus! {

/// Bit of the first action button in the gamepad bitmask.
pub const BUTTON_1: u8 = 1;

/// Bit of the second action button in the gamepad bitmask.
pub const BUTTON_2: u8 = 2;

/// Bit of the left directional button in the gamepad bitmask.
pub const BUTTON_LEFT: u8 = 16;

/// Bit of the right directional button in the gamepad bitmask.
pub const BUTTON_RIGHT: u8 = 32;

/// Bit of the up directional button in the gamepad bitmask.
pub const BUTTON_UP: u8 = 64;

/// Bit of the down directional button in the gamepad bitmask.
pub const BUTTON_DOWN: u8 = 128;

/// A second press within this many milliseconds of the first still counts
/// as a double press.
pub const DOUBLE_PRESS_MAX_GAP_MS: u32 = 200;

/// A second press must come more than this many frames after the first to
/// count as a double press; anything quicker is a spurious re-trigger.
pub const DOUBLE_PRESS_MIN_GAP_FRAMES: u32 = 2;

/// The logical events a binding can listen for.
#[derive(Clone, Copy, PartialEq, Eq, Structural, Hash, Debug)]
pub enum InputEvent {
    Button1Press,
    Button1DoublePress,
    Button2Press,
    ButtonUpPress,
    ButtonDownPress,
    ButtonLeftPress,
    ButtonRightPress,
}

/// What a fired binding asks the frame driver to do: one variant per
/// handler of each screen's binding set.
#[derive(Clone, Copy, PartialEq, Eq, Structural, Debug)]
pub enum Command {
    PatternButtonDown,
    PatternButtonUp,
    PatternButton1,
    PatternButton1Double,
    PatternButtonRight,
    PatternButtonLeft,
    InstrumentButtonDown,
    InstrumentButtonUp,
    InstrumentButtonLeft,
    InstrumentButtonRight,
    SongButtonDown,
    SongButtonUp,
    SongButtonLeft,
    SongButtonRight,
    SongButton1,
}

/// One entry of the dispatch list.
#[derive(Clone, Copy, PartialEq, Eq, Structural, Debug)]
pub struct Binding {
    pub event: InputEvent,
    pub command: Command,
}

pub open spec fn spec_button1_held(g: u8) -> bool {
    g & BUTTON_1 != 0
}

pub open spec fn spec_button2_held(g: u8) -> bool {
    g & BUTTON_2 != 0
}

/// The upper edge of the double-press window.
pub open spec fn spec_dp_max() -> Duration {
    Duration(DOUBLE_PRESS_MAX_GAP_MS)
}

/// The lower edge of the double-press window.
pub open spec fn spec_dp_min() -> Duration {
    Duration((DOUBLE_PRESS_MIN_GAP_FRAMES * EXPECTED_FRAME_DURATION_MS) as u32)
}

/// Whether one event fires against the current bitmask and press state:
/// the plain first-button press fires while the button is held and no
/// double press is latched; the double press fires while the button is
/// held and the previous press lies strictly inside the window; the rest
/// fire while their button's bit is set.
pub open spec fn spec_event_fires(
    ev: InputEvent,
    g: u8,
    dp: bool,
    last1: Option<Winstant>,
    now: Winstant,
) -> bool {
    match ev {
        InputEvent::Button1Press => spec_button1_held(g) && !dp,
        InputEvent::Button1DoublePress => spec_button1_held(g) && (match last1 {
            None => false,
            Some(last) => now.0 < last.spec_plus(spec_dp_max()) && now.0 > last.spec_plus(
                spec_dp_min(),
            ),
        }),
        InputEvent::Button2Press => spec_button2_held(g),
        InputEvent::ButtonDownPress => g & BUTTON_DOWN != 0,
        InputEvent::ButtonUpPress => g & BUTTON_UP != 0,
        InputEvent::ButtonLeftPress => g & BUTTON_LEFT != 0,
        InputEvent::ButtonRightPress => g & BUTTON_RIGHT != 0,
    }
}

/// One frame's scan of the dispatch list, in order: the commands of the
/// bindings that fire, and the double-press latch as the scan leaves it (a
/// firing double press latches it at once, suppressing plain presses of
/// bindings later in the same scan).
pub open spec fn spec_scan(
    handlers: Seq<Binding>,
    g: u8,
    dp: bool,
    last1: Option<Winstant>,
    now: Winstant,
) -> (Seq<Command>, bool)
    decreases handlers.len(),
{
    if handlers.len() == 0 {
        (Seq::empty(), dp)
    } else {
        let b = handlers[0];
        let fires = spec_event_fires(b.event, g, dp, last1, now);
        let dp_next = if b.event == InputEvent::Button1DoublePress && fires {
            true
        } else {
            dp
        };
        let rest = spec_scan(handlers.drop_first(), g, dp_next, last1, now);
        (
            (if fires {
                seq![b.command]
            } else {
                Seq::empty()
            }) + rest.0,
            rest.1,
        )
    }
}

/// The double-press latch after the end-of-frame bookkeeping: once the
/// recorded press has aged to the window's upper edge, the latch clears.
pub open spec fn spec_post_dp(dp: bool, last1: Option<Winstant>, now: Winstant) -> bool {
    match last1 {
        None => dp,
        Some(last) => if dp && last.spec_plus(spec_dp_max()) <= now.0 {
            false
        } else {
            dp
        },
    }
}

/// The recorded press reading after the end-of-frame bookkeeping: holding
/// the first button records the current reading.
pub open spec fn spec_post_last1(last1: Option<Winstant>, g: u8, now: Winstant) -> Option<
    Winstant,
> {
    if spec_button1_held(g) {
        Some(now)
    } else {
        last1
    }
}

/// The dispatcher's state: the ordered dispatch list, the reading of the
/// last first-button press, and the double-press latch.
pub struct Inputs {
    pub handlers: Vec<Binding>,
    pub last_fire_button1: Option<Winstant>,
    pub double_press_activated: bool,
}

impl Inputs {
    /// A dispatcher with no bindings and no press recorded.
    pub fn new() -> (r: Inputs)
        ensures
            r.handlers@ == Seq::<Binding>::empty(),
            r.last_fire_button1 is None,
            !r.double_press_activated,
    {
        let r = Inputs { handlers: Vec::new(), last_fire_button1: None, double_press_activated: false };
        proof {
            assert(r.handlers@ =~= Seq::<Binding>::empty());
        }
        r
    }

    /// Appends a binding to the dispatch list.
    pub fn listen(&mut self, event: InputEvent, command: Command) -> (r: &mut Self)
        ensures
            r.handlers@ == old(self).handlers@.push(Binding { event, command }),
            r.last_fire_button1 == old(self).last_fire_button1,
            r.double_press_activated == old(self).double_press_activated,
            *final (self) == *final (r),
    {
        self.handlers.push(Binding { event, command });
        self
    }

    /// Clears the whole dispatch list; the press bookkeeping stays.
    pub fn unlisten(&mut self)
        ensures
            final (self).handlers@ == Seq::<Binding>::empty(),
            final (self).last_fire_button1 == old(self).last_fire_button1,
            final (self).double_press_activated == old(self).double_press_activated,
    {
        self.handlers.clear();
        proof {
            assert(self.handlers@ =~= Seq::<Binding>::empty());
        }
    }

    pub fn is_button1_pressed(&self, gamepad: u8) -> (r: bool)
        ensures
            r == spec_button1_held(gamepad),
    {
        gamepad & BUTTON_1 != 0
    }

    pub fn is_button2_pressed(&self, gamepad: u8) -> (r: bool)
        ensures
            r == spec_button2_held(gamepad),
    {
        gamepad & BUTTON_2 != 0
    }

    /// One frame of input dispatch: answers the commands of the bindings
    /// that fire against `gamepad`, in binding order, then updates the
    /// press bookkeeping — the double-press latch clears once the recorded
    /// press has aged past the window, and a held first button records the
    /// current reading.
    pub fn tick(&mut self, gamepad: u8, now: Winstant) -> (fired: Vec<Command>)
        ensures
            fired@ == spec_scan(
                old(self).handlers@,
                gamepad,
                old(self).double_press_activated,
                old(self).last_fire_button1,
                now,
            ).0,
            final (self).handlers == old(self).handlers,
            final (self).double_press_activated == spec_post_dp(
                spec_scan(
                    old(self).handlers@,
                    gamepad,
                    old(self).double_press_activated,
                    old(self).last_fire_button1,
                    now,
                ).1,
                old(self).last_fire_button1,
                now,
            ),
            final (self).last_fire_button1 == spec_post_last1(
                old(self).last_fire_button1,
                gamepad,
                now,
            ),
    {
        let ghost g0 = gamepad;
        let ghost dp0 = self.double_press_activated;
        let ghost last0 = self.last_fire_button1;
        let mut fired: Vec<Command> = Vec::new();
        let n = self.handlers.len();
        let mut i: usize = 0;
        proof {
            assert(self.handlers@.subrange(0, n as int) =~= self.handlers@);
            assert(fired@ =~= Seq::<Command>::empty());
        }
        while i < n
            invariant
                n == self.handlers@.len(),
                i <= n,
                self.handlers == old(self).handlers,
                self.last_fire_button1 == last0,
                dp0 == old(self).double_press_activated,
                last0 == old(self).last_fire_button1,
                spec_scan(self.handlers@, g0, dp0, last0, now).0 == fired@ + spec_scan(
                    self.handlers@.subrange(i as int, n as int),
                    g0,
                    self.double_press_activated,
                    last0,
                    now,
                ).0,
                spec_scan(self.handlers@, g0, dp0, last0, now).1 == spec_scan(
                    self.handlers@.subrange(i as int, n as int),
                    g0,
                    self.double_press_activated,
                    last0,
                    now,
                ).1,
                g0 == gamepad,
            decreases n - i,
        {
            let binding = self.handlers[i];
            let ghost rest = self.handlers@.subrange(i as int, n as int);
            let ghost rest_next = self.handlers@.subrange(i + 1, n as int);
            proof {
                assert(rest.len() > 0);
                assert(rest[0] == binding);
                assert(rest.drop_first() =~= rest_next);
            }
            let fires = self.event_fires(binding.event, gamepad, now);
            if fires {
                fired.push(binding.command);
                match binding.event {
                    InputEvent::Button1DoublePress => {
                        self.double_press_activated = true;
                    },
                    _ => {},
                }
            }
            proof {
                assert(spec_scan(self.handlers@, g0, dp0, last0, now).0 == fired@ + spec_scan(
                    rest_next,
                    g0,
                    self.double_press_activated,
                    last0,
                    now,
                ).0);
            }
            i = i + 1;
        }
        proof {
            assert(self.handlers@.subrange(n as int, n as int) =~= Seq::<Binding>::empty());
            assert(fired@ =~= spec_scan(self.handlers@, g0, dp0, last0, now).0);
        }
        match self.last_fire_button1 {
            None => {
                if gamepad & BUTTON_1 != 0 {
                    self.last_fire_button1 = Some(now);
                }
            },
            Some(last) => {
                if self.double_press_activated && !now.is_before_by(last, Duration(
                    DOUBLE_PRESS_MAX_GAP_MS,
                )) {
                    self.double_press_activated = false;
                }
                if gamepad & BUTTON_1 != 0 {
                    self.last_fire_button1 = Some(now);
                }
            },
        }
        fired
    }

    /// Whether one binding's event fires this frame, against the current
    /// latch and recorded press.
    fn event_fires(&self, ev: InputEvent, gamepad: u8, now: Winstant) -> (r: bool)
        ensures
            r == spec_event_fires(
                ev,
                gamepad,
                self.double_press_activated,
                self.last_fire_button1,
                now,
            ),
    {
        match ev {
            InputEvent::Button1Press => gamepad & BUTTON_1 != 0 && !self.double_press_activated,
            InputEvent::Button1DoublePress => {
                if gamepad & BUTTON_1 != 0 {
                    match self.last_fire_button1 {
                        None => false,
                        Some(last) => now.is_before_by(last, Duration(DOUBLE_PRESS_MAX_GAP_MS))
                            && now.is_after_by(
                            last,
                            Duration(DOUBLE_PRESS_MIN_GAP_FRAMES * EXPECTED_FRAME_DURATION_MS),
                        ),
                    }
                } else {
                    false
                }
            },
            InputEvent::Button2Press => gamepad & BUTTON_2 != 0,
            InputEvent::ButtonDownPress => gamepad & BUTTON_DOWN != 0,
            InputEvent::ButtonUpPress => gamepad & BUTTON_UP != 0,
            InputEvent::ButtonLeftPress => gamepad & BUTTON_LEFT != 0,
            InputEvent::ButtonRightPress => gamepad & BUTTON_RIGHT != 0,
        }
    }
}

/// Law: the double-press window. With a press recorded at `t0` and the
/// first button held at reading `t`, the double-press event fires iff `t`
/// lies strictly between `t0` plus the minimum gap and `t0` plus the
/// maximum gap; outside that window (latch clear) the plain press event
/// fires instead.
pub proof fn lemma_double_press_window(g: u8, t0: Winstant, t: Winstant)
    requires
        spec_button1_held(g),
    ensures
        spec_event_fires(InputEvent::Button1DoublePress, g, false, Some(t0), t) <==> (t0.spec_plus(
            spec_dp_min(),
        ) < t.0 && (t.0 as int) < t0.spec_plus(spec_dp_max())),
        !spec_event_fires(InputEvent::Button1DoublePress, g, false, Some(t0), t)
            ==> spec_event_fires(InputEvent::Button1Press, g, false, Some(t0), t),
{
}

} // verus!
