//! The overlay as a whole: the backlog, the display list, the root node, and
//! one step function per per-frame system.

use vstd::prelude::*;

use crate::alert::Alert;
use crate::alert::AlertLifetime;
use crate::alert::AlertTransition;
use crate::alert::ButtonInteraction;
use crate::alert::DismissButton;
use crate::alert::LiveAlert;
use crate::alert::MaxAlerts;
use crate::alert::PendingAlert;
use crate::alert::SlideOffset;
use crate::alert::TransitionTimer;
use crate::alert::spec_pending_alert;

verus! {

/// Everything the alert overlay owns inside the UI scene: alerts waiting in
/// the backlog, alerts currently displayed, whether the shared root node the
/// displayed cards hang off exists, and the next free alert identity.
#[derive(Debug)]
pub struct AlertWorld {
    /// Enqueued alerts not yet admitted to the display, oldest first.
    pub backlog: Vec<PendingAlert>,
    /// Alerts currently displayed, oldest first.
    pub live: Vec<LiveAlert>,
    /// Whether the root UI node holding the displayed cards exists.
    pub root: bool,
    /// The identity the next enqueued alert will get.
    pub next_id: u64,
}

/// The overlay state as mathematics: plain sequences, a flag and a counter.
#[verifier::ext_equal]
pub ghost struct AlertWorldView {
    pub backlog: Seq<PendingAlert>,
    pub live: Seq<LiveAlert>,
    pub root: bool,
    pub next_id: u64,
}

impl View for AlertWorld {
    type V = AlertWorldView;

    open spec fn view(&self) -> AlertWorldView {
        AlertWorldView {
            backlog: self.backlog@,
            live: self.live@,
            root: self.root,
            next_id: self.next_id,
        }
    }
}

/// Whether some button in `buttons` is being pressed and belongs to the
/// alert with identity `id`.
pub open spec fn spec_pressed(
    buttons: Seq<(ButtonInteraction, DismissButton)>,
    id: u64,
) -> bool {
    exists|i: int|
        0 <= i < buttons.len() && (#[trigger] buttons[i]).0 is Pressed && buttons[i].1.alert == id
}

/// The display list after one tick of every running fade transition, in
/// order: each alert is transitioned by [`LiveAlert::spec_transitioned`],
/// and those whose fade-out completed are gone.
pub open spec fn spec_tick_live(s: Seq<LiveAlert>, delta_ms: u64) -> Seq<LiveAlert>
    decreases s.len(),
{
    if s.len() == 0 {
        Seq::empty()
    } else {
        match s[0].spec_transitioned(delta_ms) {
            Some(a) => seq![a] + spec_tick_live(s.drop_first(), delta_ms),
            None => spec_tick_live(s.drop_first(), delta_ms),
        }
    }
}

impl AlertWorldView {
    /// Enqueueing: each message becomes a backlog entry with a fresh
    /// identity, in order, after everything already enqueued.
    pub open spec fn alert(self, messages: Seq<String>) -> AlertWorldView {
        AlertWorldView {
            backlog: self.backlog + Seq::new(
                messages.len(),
                |i: int| spec_pending_alert(messages[i], (self.next_id + i) as u64),
            ),
            live: self.live,
            root: self.root,
            next_id: (self.next_id + messages.len()) as u64,
        }
    }

    /// Aging: every displayed alert's stopwatch advances, and alerts past
    /// their lifetime are sent fading out.
    pub open spec fn tick_active_alerts(self, lifetime_ms: u64, delta_ms: u64) -> AlertWorldView {
        AlertWorldView {
            backlog: self.backlog,
            live: self.live.map_values(|a: LiveAlert| a.spec_aged(lifetime_ms, delta_ms)),
            root: self.root,
            next_id: self.next_id,
        }
    }

    /// Root teardown: once no alert is displayed or enqueued, the root node
    /// is removed.
    pub open spec fn despawn_alert_root(self) -> AlertWorldView {
        AlertWorldView {
            backlog: self.backlog,
            live: self.live,
            root: self.root && !(self.live.len() == 0 && self.backlog.len() == 0),
            next_id: self.next_id,
        }
    }

    /// Fade ticking: every running transition advances, completed fade-outs
    /// despawn their alert.
    pub open spec fn tick_transitions(self, delta_ms: u64) -> AlertWorldView {
        AlertWorldView {
            backlog: self.backlog,
            live: spec_tick_live(self.live, delta_ms),
            root: self.root,
            next_id: self.next_id,
        }
    }

    /// Admission: if any alert is displayed or enqueued, the root node
    /// exists, and the oldest backlog entries are promoted to the end of the
    /// display list, exactly as many as the unused display capacity allows.
    pub open spec fn spawn_alerts(self, max: usize) -> AlertWorldView {
        if self.live.len() == 0 && self.backlog.len() == 0 {
            self
        } else {
            let spaces: int = if max >= self.live.len() {
                max - self.live.len()
            } else {
                0
            };
            let admitted: int = if spaces <= self.backlog.len() {
                spaces
            } else {
                self.backlog.len() as int
            };
            AlertWorldView {
                backlog: self.backlog.skip(admitted),
                live: self.live + self.backlog.take(admitted).map_values(
                    |p: PendingAlert| p.spec_promoted(),
                ),
                root: true,
                next_id: self.next_id,
            }
        }
    }

    /// Dismissal: every displayed alert whose dismiss button is being
    /// pressed is sent fading out from the start; the rest are untouched.
    pub open spec fn handle_dismiss_alert_buttons(
        self,
        buttons: Seq<(ButtonInteraction, DismissButton)>,
    ) -> AlertWorldView {
        AlertWorldView {
            backlog: self.backlog,
            live: self.live.map_values(
                |a: LiveAlert| if spec_pressed(buttons, a.id) {
                    a.spec_dismissed()
                } else {
                    a
                },
            ),
            root: self.root,
            next_id: self.next_id,
        }
    }
}

impl AlertWorldView {
    /// No alert carries an identity that has not been handed out yet.
    pub open spec fn ids_fresh(self) -> bool {
        &&& forall|i: int| 0 <= i < self.backlog.len()
            ==> (#[trigger] self.backlog[i]).id < self.next_id
        &&& forall|i: int| 0 <= i < self.live.len()
            ==> (#[trigger] self.live[i]).id < self.next_id
    }

    /// No two alerts, enqueued or displayed, share an identity, so a dismiss
    /// press can never reach past its own alert.
    pub open spec fn ids_unique(self) -> bool {
        &&& forall|i: int, j: int| 0 <= i < j < self.backlog.len()
            ==> (#[trigger] self.backlog[i]).id != (#[trigger] self.backlog[j]).id
        &&& forall|i: int, j: int| 0 <= i < j < self.live.len()
            ==> (#[trigger] self.live[i]).id != (#[trigger] self.live[j]).id
        &&& forall|i: int, j: int| 0 <= i < self.backlog.len() && 0 <= j < self.live.len()
            ==> (#[trigger] self.backlog[i]).id != (#[trigger] self.live[j]).id
    }

    /// Well-formedness of the overlay: identities are fresh and unique, and
    /// every displayed alert is itself well-formed.
    pub open spec fn wf(self) -> bool {
        &&& self.ids_fresh()
        &&& self.ids_unique()
        &&& forall|i: int| 0 <= i < self.live.len() ==> (#[trigger] self.live[i]).wf()
    }

    /// One whole engine frame up to, but not including, dismissal: enqueue
    /// the messages handed in during the update phase, then run the
    /// post-update chain in its fixed order — age, root teardown, fade
    /// ticking, admission.
    pub open spec fn frame_pre_dismiss(
        self,
        messages: Seq<String>,
        lifetime_ms: u64,
        max: usize,
        delta_ms: u64,
    ) -> AlertWorldView {
        self.alert(messages).tick_active_alerts(lifetime_ms, delta_ms).despawn_alert_root()
            .tick_transitions(delta_ms).spawn_alerts(max)
    }

    /// One whole engine frame: the update-phase enqueue followed by the
    /// fixed post-update chain — age, root teardown, fade ticking,
    /// admission, dismissal.
    pub open spec fn frame(
        self,
        messages: Seq<String>,
        buttons: Seq<(ButtonInteraction, DismissButton)>,
        lifetime_ms: u64,
        max: usize,
        delta_ms: u64,
    ) -> AlertWorldView {
        self.frame_pre_dismiss(messages, lifetime_ms, max, delta_ms)
            .handle_dismiss_alert_buttons(buttons)
    }
}

impl AlertWorld {
    /// Well-formedness of the overlay, as [`AlertWorldView::wf`] states it.
    pub open spec fn wf(self) -> bool {
        self@.wf()
    }

    /// An overlay with nothing enqueued, nothing displayed, and no root node.
    pub fn new() -> (r: AlertWorld)
        ensures
            r.backlog@.len() == 0,
            r.live@.len() == 0,
            !r.root,
            r.next_id == 0,
            r.wf(),
    {
        AlertWorld { backlog: Vec::new(), live: Vec::new(), root: false, next_id: 0 }
    }

    /// Accepts a batch of alert messages and enqueues an alert for each of
    /// them.
    pub fn alert(&mut self, messages: Vec<String>)
        requires
            old(self).next_id + messages@.len() <= u64::MAX,
        ensures
            final(self)@ == old(self)@.alert(messages@),
    {
        let ghost msgs = messages@;
        let mut rest = messages;
        while rest.len() > 0
            invariant
                old(self).next_id + msgs.len() <= u64::MAX,
                rest@.len() <= msgs.len(),
                rest@ == msgs.skip(msgs.len() - rest@.len()),
                self.next_id == old(self).next_id + msgs.len() - rest@.len(),
                self.backlog@.len() == old(self).backlog@.len() + msgs.len() - rest@.len(),
                forall|j: int| 0 <= j < old(self).backlog@.len()
                    ==> self.backlog@[j] == old(self).backlog@[j],
                forall|t: int| 0 <= t < msgs.len() - rest@.len()
                    ==> self.backlog@[old(self).backlog@.len() + t]
                        == spec_pending_alert(msgs[t], (old(self).next_id + t) as u64),
                self.live == old(self).live,
                self.root == old(self).root,
            decreases rest.len(),
        {
            proof {
                let ghost n = msgs.len() - rest@.len();
                assert(rest@[0] == msgs[n as int]);
                assert(msgs.skip(n as int).drop_first() =~= msgs.skip(n + 1));
            }
            let m = rest.remove(0);
            let b = Alert::bundle(m);
            let id = self.next_id;
            self.next_id = self.next_id + 1;
            self.backlog.push(PendingAlert { id, alert: b.alert, timer: b.timer });
        }
        proof {
            assert(self@.backlog =~= old(self)@.alert(msgs).backlog);
            assert(self@ =~= old(self)@.alert(msgs));
        }
    }

    /// Ticks the stopwatch of every displayed alert and sends those past
    /// their lifetime fading out.
    pub fn tick_active_alerts(&mut self, lifetime: &AlertLifetime, delta_ms: u64)
        ensures
            final(self)@ == old(self)@.tick_active_alerts(lifetime.lifetime_ms, delta_ms),
    {
        let ghost orig = self.live@;
        let mut updated: Vec<LiveAlert> = Vec::new();
        while self.live.len() > 0
            invariant
                updated@.len() <= orig.len(),
                self.live@ == orig.skip(updated@.len() as int),
                forall|j: int| 0 <= j < updated@.len()
                    ==> updated@[j] == orig[j].spec_aged(lifetime.lifetime_ms, delta_ms),
                self.backlog == old(self).backlog,
                self.root == old(self).root,
                self.next_id == old(self).next_id,
            decreases self.live.len(),
        {
            proof {
                let ghost n = updated@.len() as int;
                assert(self.live@[0] == orig[n]);
                assert(orig.skip(n).drop_first() =~= orig.skip(n + 1));
            }
            let a = self.live.remove(0);
            let b = age_one(a, lifetime, delta_ms);
            updated.push(b);
        }
        self.live = updated;
        proof {
            assert(self@.live =~= old(self)@.tick_active_alerts(
                lifetime.lifetime_ms,
                delta_ms,
            ).live);
            assert(self@ =~= old(self)@.tick_active_alerts(lifetime.lifetime_ms, delta_ms));
        }
    }

    /// Removes the root UI node once no alert is displayed or enqueued.
    pub fn despawn_alert_root(&mut self)
        ensures
            final(self)@ == old(self)@.despawn_alert_root(),
    {
        if self.live.len() == 0 && self.backlog.len() == 0 {
            self.root = false;
        }
        proof {
            assert(self@ =~= old(self)@.despawn_alert_root());
        }
    }

    /// Ticks every running fade transition and despawns the alerts whose
    /// fade-out completed.
    pub fn tick_transitions(&mut self, delta_ms: u64)
        ensures
            final(self)@ == old(self)@.tick_transitions(delta_ms),
    {
        let ghost orig = self.live@;
        let ghost mut done: int = 0;
        let mut kept: Vec<LiveAlert> = Vec::new();
        while self.live.len() > 0
            invariant
                0 <= done <= orig.len(),
                self.live@ == orig.skip(done),
                kept@ == spec_tick_live(orig.take(done), delta_ms),
                self.backlog == old(self).backlog,
                self.root == old(self).root,
                self.next_id == old(self).next_id,
            decreases self.live.len(),
        {
            proof {
                assert(self.live@[0] == orig[done]);
                assert(orig.skip(done).drop_first() =~= orig.skip(done + 1));
                assert(orig.take(done).push(orig[done]) =~= orig.take(done + 1));
                lemma_tick_live_push(orig.take(done), orig[done], delta_ms);
            }
            let a = self.live.remove(0);
            match transition_one(a, delta_ms) {
                Some(b) => {
                    kept.push(b);
                    proof {
                        assert(kept@ =~= spec_tick_live(orig.take(done + 1), delta_ms));
                    }
                },
                None => {
                    proof {
                        assert(kept@ =~= spec_tick_live(orig.take(done + 1), delta_ms));
                    }
                },
            }
            proof {
                done = done + 1;
            }
        }
        self.live = kept;
        proof {
            assert(orig.take(orig.len() as int) =~= orig);
            assert(self@ =~= old(self)@.tick_transitions(delta_ms));
        }
    }

    /// Admits backlog alerts to the display: makes sure the root node exists
    /// while anything is displayed or enqueued, then promotes the oldest
    /// backlog entries into exactly the unused display capacity.
    pub fn spawn_alerts(&mut self, max: &MaxAlerts)
        ensures
            final(self)@ == old(self)@.spawn_alerts(max.max),
    {
        let num_live = self.live.len();
        if num_live == 0 && self.backlog.len() == 0 {
            return;
        }
        let spaces = if max.max >= num_live {
            max.max - num_live
        } else {
            0
        };
        let admitted = if spaces <= self.backlog.len() {
            spaces
        } else {
            self.backlog.len()
        };
        self.root = true;
        let mut j: usize = 0;
        while j < admitted
            invariant
                j <= admitted,
                admitted <= old(self).backlog@.len(),
                self.backlog@ == old(self).backlog@.skip(j as int),
                self.live@.len() == old(self).live@.len() + j,
                forall|i: int| 0 <= i < old(self).live@.len()
                    ==> self.live@[i] == old(self).live@[i],
                forall|t: int| 0 <= t < j
                    ==> self.live@[old(self).live@.len() + t]
                        == old(self).backlog@[t].spec_promoted(),
                self.root,
                self.next_id == old(self).next_id,
            decreases admitted - j,
        {
            proof {
                assert(self.backlog@[0] == old(self).backlog@[j as int]);
                assert(old(self).backlog@.skip(j as int).drop_first()
                    =~= old(self).backlog@.skip(j as int + 1));
            }
            let p = self.backlog.remove(0);
            let b = promote_one(p);
            self.live.push(b);
            j = j + 1;
        }
        proof {
            assert(self@.live =~= old(self)@.spawn_alerts(max.max).live);
            assert(self@ =~= old(self)@.spawn_alerts(max.max));
        }
    }

    /// Sends every displayed alert whose dismiss button is being pressed
    /// fading out from the start.
    pub fn handle_dismiss_alert_buttons(
        &mut self,
        buttons: &Vec<(ButtonInteraction, DismissButton)>,
    )
        ensures
            final(self)@ == old(self)@.handle_dismiss_alert_buttons(buttons@),
    {
        let ghost orig = self.live@;
        let mut updated: Vec<LiveAlert> = Vec::new();
        while self.live.len() > 0
            invariant
                updated@.len() <= orig.len(),
                self.live@ == orig.skip(updated@.len() as int),
                forall|j: int| 0 <= j < updated@.len()
                    ==> updated@[j] == (if spec_pressed(buttons@, orig[j].id) {
                        orig[j].spec_dismissed()
                    } else {
                        orig[j]
                    }),
                self.backlog == old(self).backlog,
                self.root == old(self).root,
                self.next_id == old(self).next_id,
            decreases self.live.len(),
        {
            proof {
                let ghost n = updated@.len() as int;
                assert(self.live@[0] == orig[n]);
                assert(orig.skip(n).drop_first() =~= orig.skip(n + 1));
            }
            let a = self.live.remove(0);
            if pressed_for(buttons, a.id) {
                updated.push(dismiss_one(a));
            } else {
                updated.push(a);
            }
        }
        self.live = updated;
        proof {
            assert(self@.live =~= old(self)@.handle_dismiss_alert_buttons(buttons@).live);
            assert(self@ =~= old(self)@.handle_dismiss_alert_buttons(buttons@));
        }
    }

    /// Runs one whole engine frame over the overlay: enqueues the messages
    /// handed in during the update phase, then the post-update chain in its
    /// fixed order — age, root teardown, fade ticking, admission, dismissal.
    ///
    /// `buttons` is the interaction state of the dismiss buttons as the
    /// dismiss system reads it, `delta_ms` the frame's elapsed time.
    pub fn frame(
        &mut self,
        messages: Vec<String>,
        buttons: &Vec<(ButtonInteraction, DismissButton)>,
        lifetime: &AlertLifetime,
        max: &MaxAlerts,
        delta_ms: u64,
    )
        requires
            old(self).next_id + messages@.len() <= u64::MAX,
        ensures
            final(self)@ == old(self)@.frame(
                messages@,
                buttons@,
                lifetime.lifetime_ms,
                max.max,
                delta_ms,
            ),
    {
        self.alert(messages);
        self.tick_active_alerts(lifetime, delta_ms);
        self.despawn_alert_root();
        self.tick_transitions(delta_ms);
        self.spawn_alerts(max);
        self.handle_dismiss_alert_buttons(buttons);
    }
}

/// One displayed alert after one tick of the aging system.
fn age_one(a: LiveAlert, lifetime: &AlertLifetime, delta_ms: u64) -> (r: LiveAlert)
    ensures
        r == a.spec_aged(lifetime.lifetime_ms, delta_ms),
{
    let mut timer = a.timer;
    timer.tick(delta_ms);
    let transition = if timer.time_alive_ms > lifetime.lifetime_ms {
        Some(AlertTransition::FadeOut)
    } else {
        a.transition
    };
    LiveAlert {
        id: a.id,
        alert: a.alert,
        timer,
        transition,
        transition_timer: a.transition_timer,
        offset: a.offset,
    }
}

/// One displayed alert after one tick of the transition system: `None` means
/// its fade-out completed and it despawns.
fn transition_one(a: LiveAlert, delta_ms: u64) -> (r: Option<LiveAlert>)
    ensures
        r == a.spec_transitioned(delta_ms),
{
    match a.transition {
        None => Some(a),
        Some(tr) => {
            let mut timer = match a.transition_timer {
                Some(t) => t,
                None => TransitionTimer::default(),
            };
            timer.tick(delta_ms);
            let c = timer.get_completion();
            let off = match tr {
                AlertTransition::FadeIn => TransitionTimer::DURATION_MS - c,
                AlertTransition::FadeOut => c,
            };
            if c == TransitionTimer::DURATION_MS {
                match tr {
                    AlertTransition::FadeIn => Some(LiveAlert {
                        id: a.id,
                        alert: a.alert,
                        timer: a.timer,
                        transition: None,
                        transition_timer: None,
                        offset: SlideOffset::Eased(off),
                    }),
                    AlertTransition::FadeOut => None,
                }
            } else {
                Some(LiveAlert {
                    id: a.id,
                    alert: a.alert,
                    timer: a.timer,
                    transition: Some(tr),
                    transition_timer: Some(timer),
                    offset: SlideOffset::Eased(off),
                })
            }
        },
    }
}

/// One backlog alert as it enters the display.
fn promote_one(p: PendingAlert) -> (r: LiveAlert)
    ensures
        r == p.spec_promoted(),
{
    LiveAlert {
        id: p.id,
        alert: p.alert,
        timer: p.timer,
        transition: Some(AlertTransition::FadeIn),
        transition_timer: None,
        offset: SlideOffset::Start,
    }
}

/// One displayed alert as its dismiss button is pressed.
fn dismiss_one(a: LiveAlert) -> (r: LiveAlert)
    ensures
        r == a.spec_dismissed(),
{
    LiveAlert {
        id: a.id,
        alert: a.alert,
        timer: a.timer,
        transition: Some(AlertTransition::FadeOut),
        transition_timer: None,
        offset: a.offset,
    }
}

/// Whether some button in `buttons` is being pressed and belongs to the
/// alert with identity `id`.
fn pressed_for(buttons: &Vec<(ButtonInteraction, DismissButton)>, id: u64) -> (r: bool)
    ensures
        r == spec_pressed(buttons@, id),
{
    let mut i: usize = 0;
    while i < buttons.len()
        invariant
            i <= buttons@.len(),
            !spec_pressed(buttons@.take(i as int), id),
        decreases buttons@.len() - i,
    {
        let (interaction, button) = buttons[i];
        if matches!(interaction, ButtonInteraction::Pressed) && button.alert == id {
            proof {
                assert((buttons@[i as int]).0 is Pressed && buttons@[i as int].1.alert == id);
            }
            return true;
        }
        proof {
            let ghost n = i as int;
            assert(!spec_pressed(buttons@.take(n + 1), id)) by {
                if spec_pressed(buttons@.take(n + 1), id) {
                    let w = choose|w: int|
                        0 <= w < buttons@.take(n + 1).len()
                            && (#[trigger] buttons@.take(n + 1)[w]).0 is Pressed
                            && buttons@.take(n + 1)[w].1.alert == id;
                    if w < n {
                        assert(buttons@.take(n)[w] == buttons@.take(n + 1)[w]);
                        assert(spec_pressed(buttons@.take(n), id));
                    } else {
                        assert(buttons@.take(n + 1)[w] == buttons@[n]);
                    }
                }
            }
        }
        i = i + 1;
    }
    proof {
        assert(buttons@.take(buttons@.len() as int) =~= buttons@);
    }
    false
}

/// Ticking the transitions of a display list extended by one alert ticks the
/// list and then the alert.
proof fn lemma_tick_live_push(s: Seq<LiveAlert>, a: LiveAlert, delta_ms: u64)
    ensures
        spec_tick_live(s.push(a), delta_ms) == spec_tick_live(s, delta_ms)
            + (match a.spec_transitioned(delta_ms) {
                Some(b) => seq![b],
                None => Seq::<LiveAlert>::empty(),
            }),
    decreases s.len(),
{
    let tail = match a.spec_transitioned(delta_ms) {
        Some(b) => seq![b],
        None => Seq::<LiveAlert>::empty(),
    };
    if s.len() == 0 {
        assert(s.push(a)[0] == a);
        assert(s.push(a).drop_first() =~= Seq::<LiveAlert>::empty());
        assert(s =~= Seq::<LiveAlert>::empty());
        assert(spec_tick_live(Seq::<LiveAlert>::empty(), delta_ms)
            == Seq::<LiveAlert>::empty());
        match a.spec_transitioned(delta_ms) {
            Some(b) => {
                assert(spec_tick_live(s.push(a), delta_ms)
                    == seq![b] + spec_tick_live(s.push(a).drop_first(), delta_ms));
            },
            None => {
                assert(spec_tick_live(s.push(a), delta_ms)
                    == spec_tick_live(s.push(a).drop_first(), delta_ms));
            },
        }
        assert(spec_tick_live(s.push(a), delta_ms) =~= spec_tick_live(s, delta_ms) + tail);
    } else {
        assert(s.push(a)[0] == s[0]);
        assert(s.push(a).drop_first() =~= s.drop_first().push(a));
        lemma_tick_live_push(s.drop_first(), a, delta_ms);
        let rest = spec_tick_live(s.drop_first(), delta_ms);
        match s[0].spec_transitioned(delta_ms) {
            Some(x) => {
                assert(spec_tick_live(s.push(a), delta_ms)
                    == seq![x] + spec_tick_live(s.drop_first().push(a), delta_ms));
                assert(spec_tick_live(s, delta_ms) == seq![x] + rest);
                assert(seq![x] + (rest + tail) =~= (seq![x] + rest) + tail);
            },
            None => {
                assert(spec_tick_live(s.push(a), delta_ms)
                    == spec_tick_live(s.drop_first().push(a), delta_ms));
                assert(spec_tick_live(s, delta_ms) == rest);
            },
        }
    }
}

} // verus!
