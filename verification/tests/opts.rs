use tooltip::opts::resolve;
use tooltip::tip;
use tooltip::ElemHandle;
use tooltip::Opts;
use tooltip::ShowOn;
use tooltip::Side;

const DEFAULT_ARROW: &str = "<svg width=\"16\" height=\"6\" xmlns=\"http://www.w3.org/2000/svg\" style=\"transform:rotate(180deg)\"><path d=\"M0 6s1.796-.013 4.67-3.615C5.851.9 6.93.006 8 0c1.07-.006 2.148.887 3.343 2.385C14.233 6.005 16 6 16 6H0z\"/></svg>";

#[test]
fn bare_content_sets_nothing_else() {
    let o = tip(String::from("hello"));
    assert_eq!(o.content, "hello");
    assert!(o.padding.is_none());
    assert!(o.border_radius.is_none());
    assert!(o.class.is_none());
    assert!(o.side.is_none());
    assert!(o.show_on.is_none());
    assert!(o.arrow.is_none());
    assert!(o.container.is_none());
    assert!(o.container_padding_top.is_none());
    assert!(o.container_padding_bottom.is_none());
    assert!(o.container_padding_left.is_none());
    assert!(o.container_padding_right.is_none());
}

#[test]
fn from_content_equals_tip() {
    let o = Opts::from(String::from("body"));
    assert_eq!(o.content, "body");
    assert!(o.padding.is_none());
    assert!(o.arrow.is_none());
}

#[test]
fn empty_has_empty_content() {
    let o = Opts::empty();
    assert_eq!(o.content, "");
    assert!(o.side.is_none());
}

#[test]
fn builders_set_their_fields() {
    let o = tip(String::from("x"))
        .padding(4)
        .side(Side::Left)
        .border_radius(9)
        .class("fancy")
        .show_on(ShowOn::Click)
        .arrow(None)
        .container(ElemHandle { id: 3 });
    assert_eq!(o.padding, Some(4));
    assert_eq!(o.side, Some(Side::Left));
    assert_eq!(o.border_radius, Some(9));
    assert_eq!(o.class, Some("fancy"));
    assert_eq!(o.show_on, Some(ShowOn::Click));
    assert_eq!(o.arrow, Some(None));
    assert_eq!(o.container, Some(Some(ElemHandle { id: 3 })));
}

#[test]
fn window_container_overrides_to_viewport() {
    let o = tip(String::from("x")).container(ElemHandle { id: 1 }).window_container();
    assert_eq!(o.container, Some(None));
}

#[test]
fn container_padding_sets_all_four_sides() {
    let o = tip(String::from("x")).container_padding(11);
    assert_eq!(o.container_padding_top, Some(11));
    assert_eq!(o.container_padding_bottom, Some(11));
    assert_eq!(o.container_padding_left, Some(11));
    assert_eq!(o.container_padding_right, Some(11));
    let o = o.container_padding_top(1).container_padding_bottom(2).container_padding_left(3).container_padding_right(4);
    assert_eq!(o.container_padding_top, Some(1));
    assert_eq!(o.container_padding_bottom, Some(2));
    assert_eq!(o.container_padding_left, Some(3));
    assert_eq!(o.container_padding_right, Some(4));
}

#[test]
fn resolution_defaults_when_nothing_is_set() {
    let r = resolve(None, tip(String::from("x")));
    assert_eq!(r.padding, 0);
    assert_eq!(r.side, Side::Top);
    assert_eq!(r.show_on, ShowOn::Hover);
    assert_eq!(r.border_radius, 5);
    assert_eq!(r.class, "");
    assert_eq!(r.arrow.as_deref(), Some(DEFAULT_ARROW));
    assert_eq!(r.container, None);
    assert_eq!(r.container_padding_top, 0);
    assert_eq!(r.container_padding_bottom, 0);
    assert_eq!(r.container_padding_left, 0);
    assert_eq!(r.container_padding_right, 0);
}

#[test]
fn resolution_precedence_call_beats_ambient_beats_default() {
    // ambient defines padding, side and class; the call site re-defines
    // padding only.
    let ambient = tip(String::from("")).padding(7).side(Side::Bottom).class("amb");
    let call = tip(String::from("x")).padding(3);
    let r = resolve(Some(ambient), call);
    // call-site layer wins
    assert_eq!(r.padding, 3);
    // ambient layer fills what the call leaves unset
    assert_eq!(r.side, Side::Bottom);
    assert_eq!(r.class, "amb");
    // the built-in defaults fill the rest
    assert_eq!(r.border_radius, 5);
    assert_eq!(r.show_on, ShowOn::Hover);
    assert_eq!(r.arrow.as_deref(), Some(DEFAULT_ARROW));
    assert_eq!(r.container, None);
}

#[test]
fn resolution_replaces_fields_whole() {
    // an ambient container is replaced whole by the call site's
    // window-container override, not merged
    let ambient = tip(String::from("")).container(ElemHandle { id: 8 });
    let call = tip(String::from("x")).window_container();
    let r = resolve(Some(ambient), call);
    assert_eq!(r.container, None);
    // and an ambient "no arrow" survives when the call site says nothing
    let ambient = tip(String::from("")).arrow(None);
    let call = tip(String::from("x"));
    let r = resolve(Some(ambient), call);
    assert_eq!(r.arrow, None);
}

#[test]
fn resolution_is_idempotent() {
    let ambient = tip(String::from("")).padding(7).side(Side::Right).arrow(Some(String::from("<b/>")));
    let call = tip(String::from("x")).border_radius(2).show_on(ShowOn::Click);
    let r1 = resolve(Some(ambient.clone()), call.clone());
    let r2 = resolve(Some(ambient), call);
    assert_eq!(r1.padding, r2.padding);
    assert_eq!(r1.side, r2.side);
    assert_eq!(r1.show_on, r2.show_on);
    assert_eq!(r1.border_radius, r2.border_radius);
    assert_eq!(r1.class, r2.class);
    assert_eq!(r1.arrow, r2.arrow);
    assert_eq!(r1.container, r2.container);
    assert_eq!(r1.container_padding_top, r2.container_padding_top);
    assert_eq!(r1.container_padding_bottom, r2.container_padding_bottom);
    assert_eq!(r1.container_padding_left, r2.container_padding_left);
    assert_eq!(r1.container_padding_right, r2.container_padding_right);
}

#[test]
fn default_side_and_trigger() {
    assert_eq!(Side::default(), Side::Top);
    assert_eq!(ShowOn::default(), ShowOn::Hover);
    let o = Opts::default();
    assert_eq!(o.content, "");
    assert!(o.padding.is_none());
}
