use tooltip::lifecycle::AttachState;
use tooltip::lifecycle::EventKind;
use tooltip::tip;
use tooltip::tooltip;
use tooltip::Action;
use tooltip::ElemHandle;
use tooltip::Event;
use tooltip::Rect;
use tooltip::ShowOn;

fn rect(x: i64, y: i64, width: i64, height: i64) -> Rect {
    Rect { x, y, width, height }
}

#[test]
fn binding_starts_detached_with_resolved_options() {
    let t = tooltip(None, tip(String::from("hi")).padding(3).show_on(ShowOn::Click));
    assert_eq!(t.state, AttachState::Detached);
    assert!(!t.torn_down);
    assert_eq!(t.content, "hi");
    assert_eq!(t.opts.padding, 3);
    assert_eq!(t.opts.show_on, ShowOn::Click);
    assert_eq!(t.opts.border_radius, 5);
}

#[test]
fn ensure_attached_twice_inserts_once() {
    let mut t = tooltip(None, tip(String::from("x")));
    let first = t.ensure_attached();
    assert_eq!(first, Some(Action::Insert));
    assert_eq!(t.state, AttachState::Attached);
    let second = t.ensure_attached();
    assert_eq!(second, None);
    assert_eq!(t.state, AttachState::Attached);
}

#[test]
fn detach_twice_is_harmless() {
    let mut t = tooltip(None, tip(String::from("x")));
    t.ensure_attached();
    assert_eq!(t.detach(), Some(Action::Remove));
    assert_eq!(t.state, AttachState::Detached);
    assert_eq!(t.detach(), None);
    assert_eq!(t.state, AttachState::Detached);
}

#[test]
fn recalculate_is_a_no_op_while_detached() {
    let mut t = tooltip(None, tip(String::from("x")));
    assert_eq!(t.recalculate(), None);
    t.ensure_attached();
    assert_eq!(t.recalculate(), Some(Action::Recalculate));
}

#[test]
fn hover_round_trip() {
    let mut t = tooltip(None, tip(String::from("x")).show_on(ShowOn::Hover));
    let acts = t.handle_event(Event::PointerEnter);
    assert_eq!(acts, vec![Action::Insert, Action::Recalculate]);
    assert_eq!(t.state, AttachState::Attached);
    let acts = t.handle_event(Event::PointerLeave);
    assert_eq!(acts, vec![Action::Remove]);
    assert_eq!(t.state, AttachState::Detached);
}

#[test]
fn hover_enter_while_attached_only_recalculates() {
    let mut t = tooltip(None, tip(String::from("x")));
    t.handle_event(Event::PointerEnter);
    let acts = t.handle_event(Event::PointerEnter);
    assert_eq!(acts, vec![Action::Recalculate]);
}

#[test]
fn hover_mode_ignores_click_events() {
    let mut t = tooltip(None, tip(String::from("x")).show_on(ShowOn::Hover));
    assert!(t.handle_event(Event::AnchorClick).is_empty());
    assert_eq!(t.state, AttachState::Detached);
}

#[test]
fn click_outside_dismisses() {
    let mut t = tooltip(None, tip(String::from("x")).show_on(ShowOn::Click));
    let acts = t.handle_event(Event::AnchorClick);
    assert_eq!(acts, vec![Action::Insert, Action::Recalculate]);
    assert_eq!(t.state, AttachState::Attached);
    let anchor = rect(10, 10, 20, 20);
    let tip_rect = rect(10, 40, 60, 30);
    // a click inside the tip's rectangle leaves it attached
    let acts = t.handle_event(Event::DocumentClick { x: 15, y: 50, anchor, tip: tip_rect });
    assert!(acts.is_empty());
    assert_eq!(t.state, AttachState::Attached);
    // a click inside the anchor leaves it attached too
    let acts = t.handle_event(Event::DocumentClick { x: 15, y: 15, anchor, tip: tip_rect });
    assert!(acts.is_empty());
    assert_eq!(t.state, AttachState::Attached);
    // a click outside both detaches
    let acts = t.handle_event(Event::DocumentClick { x: 90, y: 90, anchor, tip: tip_rect });
    assert_eq!(acts, vec![Action::Remove]);
    assert_eq!(t.state, AttachState::Detached);
}

#[test]
fn scroll_and_resize_reposition_only_while_attached() {
    let mut t = tooltip(None, tip(String::from("x")));
    assert!(t.handle_event(Event::Scroll).is_empty());
    assert!(t.handle_event(Event::Resize).is_empty());
    t.handle_event(Event::PointerEnter);
    assert_eq!(t.handle_event(Event::Scroll), vec![Action::Recalculate]);
    assert_eq!(t.handle_event(Event::Resize), vec![Action::Recalculate]);
}

#[test]
fn window_blur_always_detaches() {
    let mut t = tooltip(None, tip(String::from("x")));
    t.handle_event(Event::PointerEnter);
    assert_eq!(t.handle_event(Event::WindowBlur), vec![Action::Remove]);
    assert_eq!(t.state, AttachState::Detached);
    // and is harmless while already detached
    assert!(t.handle_event(Event::WindowBlur).is_empty());
}

#[test]
fn subscriptions_follow_the_trigger_mode() {
    let hover = tooltip(None, tip(String::from("x")).show_on(ShowOn::Hover));
    assert!(hover.is_subscribed(EventKind::PointerEnter));
    assert!(hover.is_subscribed(EventKind::PointerLeave));
    assert!(!hover.is_subscribed(EventKind::AnchorClick));
    assert!(!hover.is_subscribed(EventKind::DocumentClick));
    assert!(hover.is_subscribed(EventKind::WindowScroll));
    assert!(hover.is_subscribed(EventKind::WindowResize));
    assert!(hover.is_subscribed(EventKind::WindowBlur));
    assert!(!hover.is_subscribed(EventKind::ContainerScroll));
    assert_eq!(hover.listener_count(), 5);

    let click = tooltip(
        None,
        tip(String::from("x")).show_on(ShowOn::Click).container(ElemHandle { id: 1 }),
    );
    assert!(!click.is_subscribed(EventKind::PointerEnter));
    assert!(click.is_subscribed(EventKind::AnchorClick));
    assert!(click.is_subscribed(EventKind::DocumentClick));
    assert!(click.is_subscribed(EventKind::ContainerScroll));
    assert_eq!(click.listener_count(), 6);
}

#[test]
fn teardown_releases_everything() {
    let mut t = tooltip(None, tip(String::from("x")).show_on(ShowOn::Click));
    t.handle_event(Event::AnchorClick);
    let act = t.teardown();
    assert_eq!(act, Some(Action::Remove));
    assert_eq!(t.listener_count(), 0);
    assert!(!t.is_subscribed(EventKind::WindowScroll));
    assert!(!t.is_subscribed(EventKind::AnchorClick));
    // no previously subscribed event has any further effect
    assert!(t.handle_event(Event::AnchorClick).is_empty());
    assert!(t.handle_event(Event::Scroll).is_empty());
    assert!(t.handle_event(Event::Resize).is_empty());
    assert!(t.handle_event(Event::WindowBlur).is_empty());
    let anchor = rect(0, 0, 1, 1);
    let tip_rect = rect(0, 0, 1, 1);
    assert!(t.handle_event(Event::DocumentClick { x: 50, y: 50, anchor, tip: tip_rect }).is_empty());
    assert_eq!(t.state, AttachState::Detached);
    // teardown of an already detached instance removes nothing
    let mut t2 = tooltip(None, tip(String::from("x")));
    assert_eq!(t2.teardown(), None);
}
