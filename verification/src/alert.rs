//! Per-alert components: the message, its stopwatches, and the fade state.

use vstd::prelude::*;

verus! {

/// Saturating addition on millisecond counters: a stopwatch never wraps
/// around, it pins at the largest representable value.
pub open spec fn sat_add_u64(a: u64, b: u64) -> u64 {
    if a + b <= u64::MAX {
        (a + b) as u64
    } else {
        u64::MAX
    }
}

/// An alert message that should be displayed in the UI.
#[derive(Debug)]
pub struct Alert {
    pub message: String,
}

/// Stopwatch counting how long an alert has been displayed, in milliseconds.
#[derive(Clone, Copy, Debug, PartialEq, Eq, Structural)]
pub struct AlertTimer {
    pub time_alive_ms: u64,
}

impl AlertTimer {
    /// A stopwatch that has not yet run.
    pub fn new() -> (r: AlertTimer)
        ensures
            r.time_alive_ms == 0,
    {
        AlertTimer { time_alive_ms: 0 }
    }

    /// Advance the stopwatch by one frame's elapsed time.
    pub fn tick(&mut self, delta_ms: u64)
        ensures
            final(self).time_alive_ms == sat_add_u64(old(self).time_alive_ms, delta_ms),
    {
        if self.time_alive_ms <= u64::MAX - delta_ms {
            self.time_alive_ms = self.time_alive_ms + delta_ms;
        } else {
            self.time_alive_ms = u64::MAX;
        }
    }
}

/// The components a freshly built alert carries: its message and a stopwatch
/// that has not started.
#[derive(Debug)]
pub struct AlertBundle {
    pub alert: Alert,
    pub timer: AlertTimer,
}

impl Alert {
    /// Bundle a message into the components of a new alert.
    pub fn bundle(message: String) -> (r: AlertBundle)
        ensures
            r == (AlertBundle { alert: Alert { message }, timer: AlertTimer { time_alive_ms: 0 } }),
    {
        AlertBundle { alert: Alert { message }, timer: AlertTimer::new() }
    }
}

/// An enqueued alert waiting in the backlog, under the identity the overlay
/// assigned to it.
#[derive(Debug)]
pub struct PendingAlert {
    /// The identity the overlay knows this alert by.
    pub id: u64,
    /// The message to show.
    pub alert: Alert,
    /// The display-time stopwatch; it only starts once the alert is admitted.
    pub timer: AlertTimer,
}

/// The backlog entry that enqueueing `message` under identity `id` creates.
pub open spec fn spec_pending_alert(message: String, id: u64) -> PendingAlert {
    PendingAlert { id, alert: Alert { message }, timer: AlertTimer { time_alive_ms: 0 } }
}

/// Which way an alert is currently fading.
#[derive(Clone, Copy, Debug, PartialEq, Eq, Structural)]
pub enum AlertTransition {
    /// The alert is sliding into view.
    FadeIn,
    /// The alert is sliding out of view and will be removed when done.
    FadeOut,
}

/// Stopwatch for an in-progress fade transition, in milliseconds.
#[derive(Clone, Copy, Debug, PartialEq, Eq, Structural)]
pub struct TransitionTimer {
    pub time_alive_ms: u64,
}

impl TransitionTimer {
    /// Length of a full fade transition, in milliseconds.
    pub const DURATION_MS: u64 = 500;

    /// How far along the transition is: the elapsed time clamped to the
    /// transition duration. The transition is complete exactly when this
    /// reaches [`TransitionTimer::DURATION_MS`].
    pub open spec fn spec_completion(self) -> u64 {
        if self.time_alive_ms >= TransitionTimer::DURATION_MS {
            TransitionTimer::DURATION_MS
        } else {
            self.time_alive_ms
        }
    }

    /// The completed share of the transition, in milliseconds out of
    /// [`TransitionTimer::DURATION_MS`].
    pub fn get_completion(&self) -> (c: u64)
        ensures
            c == self.spec_completion(),
    {
        if self.time_alive_ms >= TransitionTimer::DURATION_MS {
            TransitionTimer::DURATION_MS
        } else {
            self.time_alive_ms
        }
    }

    /// Advance the transition stopwatch by one frame's elapsed time.
    pub fn tick(&mut self, delta_ms: u64)
        ensures
            final(self).time_alive_ms == sat_add_u64(old(self).time_alive_ms, delta_ms),
    {
        if self.time_alive_ms <= u64::MAX - delta_ms {
            self.time_alive_ms = self.time_alive_ms + delta_ms;
        } else {
            self.time_alive_ms = u64::MAX;
        }
    }
}

impl Default for TransitionTimer {
    /// A transition stopwatch that has not yet run.
    fn default() -> (r: TransitionTimer)
        ensures
            r.time_alive_ms == 0,
    {
        TransitionTimer { time_alive_ms: 0 }
    }
}

/// The horizontal offset of a displayed alert's card, as the UI layer should
/// render it.
///
/// The renderer turns `Eased(n)` into a left offset by feeding `n` out of
/// [`TransitionTimer::DURATION_MS`] into its easing curve (one minus the
/// cosine of pi times the clamped fraction) and scaling to percent.
#[derive(Clone, Copy, Debug, PartialEq, Eq, Structural)]
pub enum SlideOffset {
    /// Just admitted: the card still sits at its full starting offset of one
    /// hundred percent, untouched by the easing curve.
    Start,
    /// Mid-transition: the easing curve input, as a numerator over
    /// [`TransitionTimer::DURATION_MS`].
    Eased(u64),
}

/// How long alerts stay displayed before transitioning out, in milliseconds.
#[derive(Clone, Copy, Debug, PartialEq, Eq, Structural)]
pub struct AlertLifetime {
    pub lifetime_ms: u64,
}

impl AlertLifetime {
    /// Builds a new `AlertLifetime` with this duration.
    pub fn new(lifetime_ms: u64) -> (r: AlertLifetime)
        ensures
            r.lifetime_ms == lifetime_ms,
    {
        AlertLifetime { lifetime_ms }
    }
}

/// The maximum number of alerts that can be shown in the UI at once.
#[derive(Clone, Copy, Debug, PartialEq, Eq, Structural)]
pub struct MaxAlerts {
    pub max: usize,
}

impl MaxAlerts {
    /// Builds a new `MaxAlerts` with this capacity.
    pub fn new(max: usize) -> (r: MaxAlerts)
        ensures
            r.max == max,
    {
        MaxAlerts { max }
    }
}

/// The state of the user's pointer over an alert's dismiss button.
#[derive(Clone, Copy, Debug, PartialEq, Eq, Structural)]
pub enum ButtonInteraction {
    /// The button is being pressed.
    Pressed,
    /// The pointer hovers over the button without pressing it.
    Hovered,
    /// The pointer is elsewhere.
    Idle,
}

/// A dismiss button, naming the displayed alert it belongs to by its
/// identity.
#[derive(Clone, Copy, Debug, PartialEq, Eq, Structural)]
pub struct DismissButton {
    pub alert: u64,
}

/// An alert that has been admitted to the display: its message, its age, and
/// the state of its fade transition, if one is running.
#[derive(Debug)]
pub struct LiveAlert {
    /// The identity the overlay knows this alert by.
    pub id: u64,
    /// The message being shown.
    pub alert: Alert,
    /// How long this alert has been displayed.
    pub timer: AlertTimer,
    /// The direction of the running fade transition, if any.
    pub transition: Option<AlertTransition>,
    /// The stopwatch of the running fade transition. Only a transitioning
    /// alert carries one, and only once the transition has first been ticked.
    pub transition_timer: Option<TransitionTimer>,
    /// Where the renderer should place the card horizontally.
    pub offset: SlideOffset,
}

impl LiveAlert {
    /// Well-formedness: a transition stopwatch only ever accompanies a
    /// running transition, and a mid-transition offset never exceeds the
    /// transition duration.
    pub open spec fn wf(self) -> bool {
        &&& self.transition_timer is Some ==> self.transition is Some
        &&& match self.offset {
            SlideOffset::Start => true,
            SlideOffset::Eased(n) => n <= TransitionTimer::DURATION_MS,
        }
    }

    /// One tick of the display-time stopwatch: the alert ages by `delta_ms`,
    /// and once it has outlived `lifetime_ms` it is sent fading out. An
    /// already running fade-in is overridden, but its stopwatch keeps
    /// running, so the card turns around mid-slide rather than starting over.
    pub open spec fn spec_aged(self, lifetime_ms: u64, delta_ms: u64) -> LiveAlert {
        let aged = sat_add_u64(self.timer.time_alive_ms, delta_ms);
        LiveAlert {
            id: self.id,
            alert: self.alert,
            timer: AlertTimer { time_alive_ms: aged },
            transition: if aged > lifetime_ms {
                Some(AlertTransition::FadeOut)
            } else {
                self.transition
            },
            transition_timer: self.transition_timer,
            offset: self.offset,
        }
    }

    /// One tick of the fade transition, if one is running: the transition
    /// stopwatch advances (starting from zero if the transition was fresh),
    /// the slide offset follows the clamped completion, and a completed
    /// fade-in settles into steady display while a completed fade-out removes
    /// the alert (`None`).
    pub open spec fn spec_transitioned(self, delta_ms: u64) -> Option<LiveAlert> {
        match self.transition {
            None => Some(self),
            Some(tr) => {
                let started = match self.transition_timer {
                    Some(t) => t,
                    None => TransitionTimer { time_alive_ms: 0 },
                };
                let ticked = TransitionTimer {
                    time_alive_ms: sat_add_u64(started.time_alive_ms, delta_ms),
                };
                let c = ticked.spec_completion();
                let off = match tr {
                    AlertTransition::FadeIn => (TransitionTimer::DURATION_MS - c) as u64,
                    AlertTransition::FadeOut => c,
                };
                if c == TransitionTimer::DURATION_MS {
                    match tr {
                        AlertTransition::FadeIn => Some(LiveAlert {
                            id: self.id,
                            alert: self.alert,
                            timer: self.timer,
                            transition: None,
                            transition_timer: None,
                            offset: SlideOffset::Eased(off),
                        }),
                        AlertTransition::FadeOut => None,
                    }
                } else {
                    Some(LiveAlert {
                        id: self.id,
                        alert: self.alert,
                        timer: self.timer,
                        transition: Some(tr),
                        transition_timer: Some(ticked),
                        offset: SlideOffset::Eased(off),
                    })
                }
            }
        }
    }

    /// Dismissal: the alert is sent fading out and its transition stopwatch
    /// is discarded, so the slide out starts from the beginning.
    pub open spec fn spec_dismissed(self) -> LiveAlert {
        LiveAlert {
            id: self.id,
            alert: self.alert,
            timer: self.timer,
            transition: Some(AlertTransition::FadeOut),
            transition_timer: None,
            offset: self.offset,
        }
    }
}

impl PendingAlert {
    /// Admission to the display: the alert keeps its identity, message and
    /// age, starts a fresh fade-in whose stopwatch has not yet been ticked,
    /// and sits at its full starting offset.
    pub open spec fn spec_promoted(self) -> LiveAlert {
        LiveAlert {
            id: self.id,
            alert: self.alert,
            timer: self.timer,
            transition: Some(AlertTransition::FadeIn),
            transition_timer: None,
            offset: SlideOffset::Start,
        }
    }
}

} // verus!
