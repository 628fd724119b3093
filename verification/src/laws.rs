//! The guarantees the overlay keeps across frames, each stated over the
//! step functions of [`crate::lifecycle`] and proved once and for all.

use vstd::prelude::*;

use crate::alert::AlertTransition;
use crate::alert::ButtonInteraction;
use crate::alert::DismissButton;
use crate::alert::LiveAlert;
use crate::alert::TransitionTimer;
use crate::alert::sat_add_u64;
use crate::lifecycle::AlertWorldView;
use crate::lifecycle::spec_pressed;
use crate::lifecycle::spec_tick_live;

verus! {

/// A transition's completion never runs backwards and never overshoots: it
/// grows with the elapsed time and stays within the transition duration.
pub proof fn lemma_completion_monotonic(a: TransitionTimer, b: TransitionTimer)
    requires
        a.time_alive_ms <= b.time_alive_ms,
    ensures
        a.spec_completion() <= b.spec_completion(),
        b.spec_completion() <= TransitionTimer::DURATION_MS,
{
}

/// Fade ticking never admits anyone: the display list can only shrink.
pub proof fn lemma_tick_live_len(s: Seq<LiveAlert>, delta_ms: u64)
    ensures
        spec_tick_live(s, delta_ms).len() <= s.len(),
    decreases s.len(),
{
    if s.len() > 0 {
        lemma_tick_live_len(s.drop_first(), delta_ms);
    }
}

/// Admission promotes from the backlog exactly what the unused display
/// capacity allows, and loses nothing: the display either fills up to the
/// capacity or drains the whole backlog, and the number of alerts overall is
/// unchanged.
pub proof fn lemma_spawn_alerts_len(w: AlertWorldView, max: usize)
    ensures
        w.spawn_alerts(max).live.len() == if w.live.len() >= max {
            w.live.len() as int
        } else if w.live.len() + w.backlog.len() <= max {
            w.live.len() + w.backlog.len() as int
        } else {
            max as int
        },
        w.spawn_alerts(max).live.len() + w.spawn_alerts(max).backlog.len()
            == w.live.len() + w.backlog.len(),
{
}

/// The display cap holds frame over frame: a frame never leaves more alerts
/// displayed than the configured maximum, no matter what is enqueued,
/// pressed, or how much time passed.
pub proof fn lemma_frame_keeps_display_cap(
    w: AlertWorldView,
    messages: Seq<String>,
    buttons: Seq<(ButtonInteraction, DismissButton)>,
    lifetime_ms: u64,
    max: usize,
    delta_ms: u64,
)
    requires
        w.live.len() <= max,
    ensures
        w.frame(messages, buttons, lifetime_ms, max, delta_ms).live.len() <= max,
{
    let enqueued = w.alert(messages);
    let aged = enqueued.tick_active_alerts(lifetime_ms, delta_ms);
    let rooted = aged.despawn_alert_root();
    let ticked = rooted.tick_transitions(delta_ms);
    lemma_tick_live_len(rooted.live, delta_ms);
    lemma_spawn_alerts_len(ticked, max);
}

/// An idle overlay stays idle: a frame with nothing displayed, nothing
/// enqueued and no incoming messages leaves the overlay empty and tears the
/// root node down.
pub proof fn lemma_frame_idle(
    w: AlertWorldView,
    buttons: Seq<(ButtonInteraction, DismissButton)>,
    lifetime_ms: u64,
    max: usize,
    delta_ms: u64,
)
    requires
        w.live.len() == 0,
        w.backlog.len() == 0,
    ensures
        w.frame(Seq::empty(), buttons, lifetime_ms, max, delta_ms) == (AlertWorldView {
            backlog: w.backlog,
            live: w.live,
            root: false,
            next_id: w.next_id,
        }),
{
    let target = AlertWorldView { backlog: w.backlog, live: w.live, root: false, next_id: w.next_id };
    let enqueued = w.alert(Seq::empty());
    assert(enqueued.backlog =~= w.backlog);
    let aged = enqueued.tick_active_alerts(lifetime_ms, delta_ms);
    assert(aged.live =~= w.live);
    let rooted = aged.despawn_alert_root();
    let ticked = rooted.tick_transitions(delta_ms);
    let spawned = ticked.spawn_alerts(max);
    assert(spawned.handle_dismiss_alert_buttons(buttons).live =~= w.live);
    assert(w.frame(Seq::empty(), buttons, lifetime_ms, max, delta_ms) =~= target);
}

/// Whether some alert in `s` has identity `id`.
pub open spec fn id_in(s: Seq<LiveAlert>, id: u64) -> bool {
    exists|i: int| 0 <= i < s.len() && (#[trigger] s[i]).id == id
}

/// One transition tick keeps an alert's identity and well-formedness, when
/// it keeps the alert at all.
proof fn lemma_transitioned_props(a: LiveAlert, delta_ms: u64)
    requires
        a.wf(),
    ensures
        match a.spec_transitioned(delta_ms) {
            Some(b) => b.id == a.id && b.wf(),
            None => true,
        },
{
}

/// Fade ticking never invents an alert: every survivor keeps the identity
/// and well-formedness of an alert it came from, and survivors of a display
/// list with pairwise distinct identities stay pairwise distinct.
pub proof fn lemma_tick_live_survivors(s: Seq<LiveAlert>, delta_ms: u64)
    requires
        forall|i: int| 0 <= i < s.len() ==> (#[trigger] s[i]).wf(),
        forall|i: int, j: int| 0 <= i < j < s.len()
            ==> (#[trigger] s[i]).id != (#[trigger] s[j]).id,
    ensures
        forall|j: int| 0 <= j < spec_tick_live(s, delta_ms).len()
            ==> id_in(s, (#[trigger] spec_tick_live(s, delta_ms)[j]).id),
        forall|j: int| 0 <= j < spec_tick_live(s, delta_ms).len()
            ==> (#[trigger] spec_tick_live(s, delta_ms)[j]).wf(),
        forall|i: int, j: int| 0 <= i < j < spec_tick_live(s, delta_ms).len()
            ==> (#[trigger] spec_tick_live(s, delta_ms)[i]).id
                != (#[trigger] spec_tick_live(s, delta_ms)[j]).id,
    decreases s.len(),
{
    if s.len() > 0 {
        let r = spec_tick_live(s, delta_ms);
        let rest = spec_tick_live(s.drop_first(), delta_ms);
        assert(forall|i: int| 0 <= i < s.drop_first().len()
            ==> #[trigger] s.drop_first()[i] == s[i + 1]);
        lemma_tick_live_survivors(s.drop_first(), delta_ms);
        lemma_transitioned_props(s[0], delta_ms);
        assert forall|j: int| 0 <= j < rest.len() implies id_in(s, (#[trigger] rest[j]).id) by {
            let w = choose|w: int|
                0 <= w < s.drop_first().len() && (#[trigger] s.drop_first()[w]).id == rest[j].id;
            assert(s[w + 1].id == rest[j].id);
        }
        match s[0].spec_transitioned(delta_ms) {
            Some(b) => {
                assert(r == seq![b] + rest);
                assert(r[0] == b);
                assert(forall|j: int| 1 <= j < r.len() ==> #[trigger] r[j] == rest[j - 1]);
                assert(id_in(s, b.id)) by {
                    assert(s[0].id == b.id);
                }
                assert forall|i: int, j: int| 0 <= i < j < r.len() implies (#[trigger] r[i]).id
                    != (#[trigger] r[j]).id by {
                    if i == 0 {
                        let w = choose|w: int|
                            0 <= w < s.drop_first().len()
                                && (#[trigger] s.drop_first()[w]).id == rest[j - 1].id;
                        assert(s[0].id != s[w + 1].id);
                    }
                }
            },
            None => {
                assert(r == rest);
            },
        }
    }
}

/// Enqueueing preserves well-formedness: the fresh identities it hands out
/// are above everything already in use and pairwise distinct.
pub proof fn lemma_alert_preserves_wf(w: AlertWorldView, messages: Seq<String>)
    requires
        w.wf(),
        w.next_id + messages.len() <= u64::MAX,
    ensures
        w.alert(messages).wf(),
{
}

/// Aging preserves well-formedness: identities are untouched, and an aged
/// alert is still well-formed.
pub proof fn lemma_tick_active_preserves_wf(w: AlertWorldView, lifetime_ms: u64, delta_ms: u64)
    requires
        w.wf(),
    ensures
        w.tick_active_alerts(lifetime_ms, delta_ms).wf(),
{
    let r = w.tick_active_alerts(lifetime_ms, delta_ms);
    assert(forall|i: int| 0 <= i < w.live.len()
        ==> #[trigger] r.live[i] == w.live[i].spec_aged(lifetime_ms, delta_ms));
}

/// Root teardown preserves well-formedness: it only touches the root flag.
pub proof fn lemma_despawn_root_preserves_wf(w: AlertWorldView)
    requires
        w.wf(),
    ensures
        w.despawn_alert_root().wf(),
{
}

/// Fade ticking preserves well-formedness: survivors keep their distinct,
/// already-used identities.
pub proof fn lemma_tick_transitions_preserves_wf(w: AlertWorldView, delta_ms: u64)
    requires
        w.wf(),
    ensures
        w.tick_transitions(delta_ms).wf(),
{
    let r = w.tick_transitions(delta_ms);
    lemma_tick_live_survivors(w.live, delta_ms);
    assert forall|j: int| 0 <= j < r.live.len() implies (#[trigger] r.live[j]).id
        < r.next_id by {
        let i = choose|i: int| 0 <= i < w.live.len() && (#[trigger] w.live[i]).id == r.live[j].id;
    }
    assert forall|i: int, j: int|
        0 <= i < r.backlog.len() && 0 <= j < r.live.len() implies (#[trigger] r.backlog[i]).id
        != (#[trigger] r.live[j]).id by {
        let k = choose|k: int| 0 <= k < w.live.len() && (#[trigger] w.live[k]).id == r.live[j].id;
        assert(w.backlog[i].id != w.live[k].id);
    }
}

/// Admission preserves well-formedness: it only moves alerts from the
/// backlog to the display, identities and all.
pub proof fn lemma_spawn_preserves_wf(w: AlertWorldView, max: usize)
    requires
        w.wf(),
    ensures
        w.spawn_alerts(max).wf(),
{
    let r = w.spawn_alerts(max);
    if !(w.live.len() == 0 && w.backlog.len() == 0) {
        let n = w.live.len() as int;
        let admitted = r.live.len() - n;
        assert(forall|t: int| 0 <= t < admitted
            ==> #[trigger] r.live[n + t] == w.backlog[t].spec_promoted());
        assert(forall|i: int| 0 <= i < r.backlog.len()
            ==> #[trigger] r.backlog[i] == w.backlog[admitted + i]);
        assert forall|i: int, j: int| 0 <= i < j < r.live.len() implies (#[trigger] r.live[i]).id
            != (#[trigger] r.live[j]).id by {
            if i < n && j >= n {
                assert(r.live[i].id == w.live[i].id);
                assert(r.live[j].id == w.backlog[j - n].id);
            }
        }
    }
}

/// Dismissal preserves well-formedness: identities are untouched, and a
/// dismissed alert is still well-formed.
pub proof fn lemma_dismiss_preserves_wf(
    w: AlertWorldView,
    buttons: Seq<(ButtonInteraction, DismissButton)>,
)
    requires
        w.wf(),
    ensures
        w.handle_dismiss_alert_buttons(buttons).wf(),
{
    let r = w.handle_dismiss_alert_buttons(buttons);
    assert(forall|i: int| 0 <= i < w.live.len()
        ==> #[trigger] r.live[i] == (if spec_pressed(buttons, w.live[i].id) {
            w.live[i].spec_dismissed()
        } else {
            w.live[i]
        }));
}

/// A frame preserves well-formedness: however the overlay is driven, alert
/// identities stay fresh and unique and every displayed alert stays
/// well-formed.
pub proof fn lemma_frame_preserves_wf(
    w: AlertWorldView,
    messages: Seq<String>,
    buttons: Seq<(ButtonInteraction, DismissButton)>,
    lifetime_ms: u64,
    max: usize,
    delta_ms: u64,
)
    requires
        w.wf(),
        w.next_id + messages.len() <= u64::MAX,
    ensures
        w.frame(messages, buttons, lifetime_ms, max, delta_ms).wf(),
{
    lemma_alert_preserves_wf(w, messages);
    let w1 = w.alert(messages);
    lemma_tick_active_preserves_wf(w1, lifetime_ms, delta_ms);
    let w2 = w1.tick_active_alerts(lifetime_ms, delta_ms);
    lemma_despawn_root_preserves_wf(w2);
    let w3 = w2.despawn_alert_root();
    lemma_tick_transitions_preserves_wf(w3, delta_ms);
    let w4 = w3.tick_transitions(delta_ms);
    lemma_spawn_preserves_wf(w4, max);
    let w5 = w4.spawn_alerts(max);
    lemma_dismiss_preserves_wf(w5, buttons);
}


/// An alert's age counter is monotonic: aging never turns the stopwatch
/// back, and never changes which alert it belongs to.
pub proof fn lemma_aged_monotonic(a: LiveAlert, lifetime_ms: u64, delta_ms: u64)
    ensures
        a.spec_aged(lifetime_ms, delta_ms).timer.time_alive_ms >= a.timer.time_alive_ms,
        a.spec_aged(lifetime_ms, delta_ms).id == a.id,
        a.spec_aged(lifetime_ms, delta_ms).alert == a.alert,
{
}


/// An alert leaves the display on a transition tick exactly when it was
/// fading out and the tick carries its transition stopwatch to the full
/// duration; a fade-in, or an unfinished fade-out, always keeps it.
pub proof fn lemma_despawn_exactly_on_completed_fade_out(a: LiveAlert, delta_ms: u64)
    ensures
        a.spec_transitioned(delta_ms) is None <==> (a.transition
            == Some(AlertTransition::FadeOut) && sat_add_u64(
            match a.transition_timer {
                Some(t) => t.time_alive_ms,
                None => 0,
            },
            delta_ms,
        ) >= TransitionTimer::DURATION_MS),
{
}

} // verus!
