use ui_alerts::alert::AlertLifetime;
use ui_alerts::alert::AlertTimer;
use ui_alerts::alert::AlertTransition;
use ui_alerts::alert::ButtonInteraction;
use ui_alerts::alert::DismissButton;
use ui_alerts::alert::LiveAlert;
use ui_alerts::alert::MaxAlerts;
use ui_alerts::alert::SlideOffset;
use ui_alerts::alert::TransitionTimer;
use ui_alerts::lifecycle::AlertWorld;

fn default_lifetime() -> AlertLifetime {
    AlertLifetime::new(10_000)
}

fn default_max() -> MaxAlerts {
    MaxAlerts::new(3)
}

fn enqueue(world: &mut AlertWorld, messages: &[&str]) {
    world.alert(messages.iter().map(|m| m.to_string()).collect());
}

#[test]
fn new_world_is_empty() {
    let w = AlertWorld::new();
    assert_eq!(w.backlog.len(), 0);
    assert_eq!(w.live.len(), 0);
    assert!(!w.root);
    assert_eq!(w.next_id, 0);
}

#[test]
fn enqueue_keeps_order_and_hands_out_fresh_ids() {
    let mut w = AlertWorld::new();
    enqueue(&mut w, &["first", "second"]);
    enqueue(&mut w, &["third"]);
    assert_eq!(w.backlog.len(), 3);
    assert_eq!(w.next_id, 3);
    let messages: Vec<&str> = w.backlog.iter().map(|p| p.alert.message.as_str()).collect();
    assert_eq!(messages, ["first", "second", "third"]);
    let ids: Vec<u64> = w.backlog.iter().map(|p| p.id).collect();
    assert_eq!(ids, [0, 1, 2]);
    assert!(w.backlog.iter().all(|p| p.timer.time_alive_ms == 0));
    assert_eq!(w.live.len(), 0);
    assert!(!w.root);
}

#[test]
fn spawn_fills_exactly_the_unused_capacity() {
    let mut w = AlertWorld::new();
    enqueue(&mut w, &["a", "b", "c", "d", "e"]);
    w.spawn_alerts(&default_max());
    assert!(w.root);
    assert_eq!(w.live.len(), 3);
    assert_eq!(w.backlog.len(), 2);
    let live_ids: Vec<u64> = w.live.iter().map(|a| a.id).collect();
    assert_eq!(live_ids, [0, 1, 2]);
    let waiting_ids: Vec<u64> = w.backlog.iter().map(|p| p.id).collect();
    assert_eq!(waiting_ids, [3, 4]);
    for a in &w.live {
        assert_eq!(a.transition, Some(AlertTransition::FadeIn));
        assert_eq!(a.transition_timer, None);
        assert_eq!(a.offset, SlideOffset::Start);
    }
    // one slot frees up: exactly one more is admitted
    w.live.remove(0);
    w.spawn_alerts(&default_max());
    assert_eq!(w.live.len(), 3);
    assert_eq!(w.backlog.len(), 1);
    assert_eq!(w.live[2].id, 3);
}

#[test]
fn spawn_on_empty_overlay_changes_nothing() {
    let mut w = AlertWorld::new();
    w.spawn_alerts(&default_max());
    assert!(!w.root);
    assert_eq!(w.live.len(), 0);
    assert_eq!(w.backlog.len(), 0);
}

#[test]
fn overfull_display_admits_nothing() {
    let mut w = AlertWorld::new();
    enqueue(&mut w, &["a", "b", "c", "d"]);
    w.spawn_alerts(&default_max());
    assert_eq!(w.live.len(), 3);
    // the capacity shrinks below what is already displayed
    w.spawn_alerts(&MaxAlerts::new(2));
    assert_eq!(w.live.len(), 3);
    assert_eq!(w.backlog.len(), 1);
}

#[test]
fn aging_past_the_lifetime_starts_a_fade_out() {
    let mut w = AlertWorld::new();
    enqueue(&mut w, &["old", "young"]);
    w.spawn_alerts(&default_max());
    w.live[0].timer = AlertTimer { time_alive_ms: 9_900 };
    w.live[0].transition = None;
    w.live[1].transition = None;
    w.tick_active_alerts(&default_lifetime(), 250);
    assert_eq!(w.live[0].timer.time_alive_ms, 10_150);
    assert_eq!(w.live[0].transition, Some(AlertTransition::FadeOut));
    assert_eq!(w.live[1].timer.time_alive_ms, 250);
    assert_eq!(w.live[1].transition, None);
}

#[test]
fn aging_to_exactly_the_lifetime_is_not_past_it() {
    let mut w = AlertWorld::new();
    enqueue(&mut w, &["edge"]);
    w.spawn_alerts(&default_max());
    w.live[0].transition = None;
    w.tick_active_alerts(&AlertLifetime::new(250), 250);
    assert_eq!(w.live[0].transition, None);
    w.tick_active_alerts(&AlertLifetime::new(250), 1);
    assert_eq!(w.live[0].transition, Some(AlertTransition::FadeOut));
}

#[test]
fn expiry_during_fade_in_turns_the_slide_around() {
    let mut w = AlertWorld::new();
    enqueue(&mut w, &["rushed"]);
    w.spawn_alerts(&default_max());
    w.live[0].timer = AlertTimer { time_alive_ms: 9_900 };
    w.live[0].transition_timer = Some(TransitionTimer { time_alive_ms: 300 });
    w.tick_active_alerts(&default_lifetime(), 250);
    // the direction flips but the transition stopwatch keeps running
    assert_eq!(w.live[0].transition, Some(AlertTransition::FadeOut));
    assert_eq!(w.live[0].transition_timer, Some(TransitionTimer { time_alive_ms: 300 }));
}

#[test]
fn fade_in_slides_and_settles() {
    let mut w = AlertWorld::new();
    enqueue(&mut w, &["hello"]);
    w.spawn_alerts(&default_max());
    w.tick_transitions(250);
    assert_eq!(w.live[0].transition, Some(AlertTransition::FadeIn));
    assert_eq!(w.live[0].transition_timer, Some(TransitionTimer { time_alive_ms: 250 }));
    assert_eq!(w.live[0].offset, SlideOffset::Eased(250));
    w.tick_transitions(250);
    // the fade-in completed: steady display, slid all the way in
    assert_eq!(w.live.len(), 1);
    assert_eq!(w.live[0].transition, None);
    assert_eq!(w.live[0].transition_timer, None);
    assert_eq!(w.live[0].offset, SlideOffset::Eased(0));
    // a steady alert is not touched by further transition ticks
    w.tick_transitions(250);
    assert_eq!(w.live[0].offset, SlideOffset::Eased(0));
}

#[test]
fn fade_out_slides_and_despawns() {
    let mut w = AlertWorld::new();
    enqueue(&mut w, &["bye", "stay"]);
    w.spawn_alerts(&default_max());
    w.live[0].transition = Some(AlertTransition::FadeOut);
    w.live[1].transition = None;
    w.tick_transitions(200);
    assert_eq!(w.live[0].transition, Some(AlertTransition::FadeOut));
    assert_eq!(w.live[0].offset, SlideOffset::Eased(200));
    w.tick_transitions(300);
    // the fade-out completed: the alert is gone, the other one stays
    assert_eq!(w.live.len(), 1);
    assert_eq!(w.live[0].id, 1);
    assert_eq!(w.live[0].alert.message, "stay");
}

#[test]
fn transition_clamps_a_long_frame() {
    let mut w = AlertWorld::new();
    enqueue(&mut w, &["slow frame"]);
    w.spawn_alerts(&default_max());
    w.tick_transitions(100_000);
    // one enormous frame still ends the fade-in cleanly
    assert_eq!(w.live.len(), 1);
    assert_eq!(w.live[0].transition, None);
    assert_eq!(w.live[0].offset, SlideOffset::Eased(0));
}

#[test]
fn dismiss_press_targets_only_its_own_alert() {
    let mut w = AlertWorld::new();
    enqueue(&mut w, &["keep", "kill"]);
    w.spawn_alerts(&default_max());
    w.live[0].transition = None;
    w.live[1].transition = None;
    let buttons = vec![
        (ButtonInteraction::Idle, DismissButton { alert: 0 }),
        (ButtonInteraction::Pressed, DismissButton { alert: 1 }),
    ];
    w.handle_dismiss_alert_buttons(&buttons);
    assert_eq!(w.live[0].transition, None);
    assert_eq!(w.live[1].transition, Some(AlertTransition::FadeOut));
    assert_eq!(w.live[1].transition_timer, None);
}

#[test]
fn hover_does_not_dismiss() {
    let mut w = AlertWorld::new();
    enqueue(&mut w, &["hovered"]);
    w.spawn_alerts(&default_max());
    w.live[0].transition = None;
    let buttons = vec![(ButtonInteraction::Hovered, DismissButton { alert: 0 })];
    w.handle_dismiss_alert_buttons(&buttons);
    assert_eq!(w.live[0].transition, None);
}

#[test]
fn dismiss_during_fade_in_restarts_the_slide() {
    let mut w = AlertWorld::new();
    enqueue(&mut w, &["impatient"]);
    w.spawn_alerts(&default_max());
    w.live[0].transition_timer = Some(TransitionTimer { time_alive_ms: 300 });
    let buttons = vec![(ButtonInteraction::Pressed, DismissButton { alert: 0 })];
    w.handle_dismiss_alert_buttons(&buttons);
    // unlike lifetime expiry, a dismiss discards the transition stopwatch
    assert_eq!(w.live[0].transition, Some(AlertTransition::FadeOut));
    assert_eq!(w.live[0].transition_timer, None);
}

#[test]
fn stale_press_matches_nothing() {
    let mut w = AlertWorld::new();
    enqueue(&mut w, &["only"]);
    w.spawn_alerts(&default_max());
    w.live[0].transition = None;
    let buttons = vec![(ButtonInteraction::Pressed, DismissButton { alert: 77 })];
    w.handle_dismiss_alert_buttons(&buttons);
    assert_eq!(w.live[0].transition, None);
}

#[test]
fn root_is_torn_down_only_once_everything_is_gone() {
    let mut w = AlertWorld::new();
    enqueue(&mut w, &["last"]);
    w.spawn_alerts(&default_max());
    assert!(w.root);
    w.despawn_alert_root();
    assert!(w.root);
    w.live.clear();
    w.despawn_alert_root();
    assert!(!w.root);
}

#[test]
fn frame_admits_an_enqueued_message() {
    let mut w = AlertWorld::new();
    w.frame(
        vec!["fresh".to_string()],
        &Vec::new(),
        &default_lifetime(),
        &default_max(),
        16,
    );
    assert!(w.root);
    assert_eq!(w.backlog.len(), 0);
    assert_eq!(w.live.len(), 1);
    assert_eq!(w.live[0].alert.message, "fresh");
    assert_eq!(w.live[0].transition, Some(AlertTransition::FadeIn));
    assert_eq!(w.live[0].offset, SlideOffset::Start);
}

#[test]
fn frame_keeps_the_display_cap() {
    let mut w = AlertWorld::new();
    let messages: Vec<String> = (0..10).map(|i| format!("message {i}")).collect();
    w.frame(messages, &Vec::new(), &default_lifetime(), &default_max(), 16);
    assert_eq!(w.live.len(), 3);
    assert_eq!(w.backlog.len(), 7);
    for _ in 0..100 {
        w.frame(Vec::new(), &Vec::new(), &default_lifetime(), &default_max(), 16);
        assert!(w.live.len() <= 3);
    }
}

#[test]
fn idle_frame_leaves_an_empty_overlay_idle() {
    let mut w = AlertWorld::new();
    enqueue(&mut w, &["blip"]);
    w.spawn_alerts(&default_max());
    w.live[0].transition = Some(AlertTransition::FadeOut);
    w.tick_transitions(600);
    assert_eq!(w.live.len(), 0);
    assert!(w.root);
    w.frame(Vec::new(), &Vec::new(), &default_lifetime(), &default_max(), 16);
    assert!(!w.root);
    assert_eq!(w.live.len(), 0);
    assert_eq!(w.backlog.len(), 0);
}

#[test]
fn lifecycle_runs_to_completion() {
    let mut w = AlertWorld::new();
    let lifetime = AlertLifetime::new(1_000);
    let max = default_max();
    w.frame(vec!["brief".to_string()], &Vec::new(), &lifetime, &max, 0);
    assert_eq!(w.live.len(), 1);
    // 500 ms of fade-in, then it settles
    w.frame(Vec::new(), &Vec::new(), &lifetime, &max, 250);
    w.frame(Vec::new(), &Vec::new(), &lifetime, &max, 250);
    assert_eq!(w.live[0].transition, None);
    assert_eq!(w.live[0].offset, SlideOffset::Eased(0));
    // ages past the one second lifetime, fades back out, despawns
    let mut frames_until_gone = 0;
    while !w.live.is_empty() {
        w.frame(Vec::new(), &Vec::new(), &lifetime, &max, 250);
        frames_until_gone += 1;
        assert!(frames_until_gone < 20);
    }
    // the root node goes down on the following frame
    w.frame(Vec::new(), &Vec::new(), &lifetime, &max, 250);
    assert!(!w.root);
}

#[test]
fn frame_applies_dismissal_last() {
    let lifetime = default_lifetime();
    let max = default_max();
    let mut w = AlertWorld::new();
    w.frame(vec!["press me".to_string()], &Vec::new(), &lifetime, &max, 0);
    // settle the fade-in
    w.frame(Vec::new(), &Vec::new(), &lifetime, &max, 500);
    assert_eq!(w.live[0].transition, None);
    let buttons = vec![(ButtonInteraction::Pressed, DismissButton { alert: 0 })];
    w.frame(Vec::new(), &buttons, &lifetime, &max, 16);
    assert_eq!(w.live[0].transition, Some(AlertTransition::FadeOut));
    assert_eq!(w.live[0].transition_timer, None);
}

#[test]
fn test_alert_ui() {
    // one message becomes due each second; frames advance in quarter-second
    // steps, the first frame carrying no elapsed time
    let lifetime = default_lifetime();
    let max = default_max();
    let mut w = AlertWorld::new();
    let mut stopwatch: u64 = 0;
    let mut counts = Vec::new();
    for frame in 0..9 {
        let delta: u64 = if frame == 0 { 0 } else { 250 };
        stopwatch += delta;
        let messages = if stopwatch >= 1_000 {
            stopwatch -= 1_000;
            vec!["Another two seconds passed!".to_string()]
        } else {
            Vec::new()
        };
        w.frame(messages, &Vec::new(), &lifetime, &max, delta);
        counts.push(w.backlog.len() + w.live.len());
    }
    assert_eq!(counts, [0, 0, 0, 0, 1, 1, 1, 1, 2]);
}
