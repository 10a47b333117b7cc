//! The lifecycle controller and trigger state machine for one tip instance.
//!
//! An instance owns the tip node's attach state and decides, for each event
//! the host dispatcher delivers, what the host layer must do: insert the tip
//! node after the anchor, remove it, or remeasure and reposition it. The
//! host performs every returned action in order; the instance's state then
//! mirrors the document. Teardown is final: a torn-down instance holds no
//! subscriptions and reacts to nothing.
//!
//! Click-outside dismissal is per instance: each click-mode instance holds
//! its own document-level click listener and checks containment against its
//! own anchor and tip rectangles, trading a small constant overhead per
//! instance for independence between instances.

use vstd::prelude::*;

use crate::geom::Rect;
use crate::opts::AllOpts;
use crate::opts::Opts;
use crate::opts::ShowOn;
use crate::opts::is_resolution;
use crate::opts::resolve;

verus! {

/// Whether the tip node is currently inserted in the document.
#[derive(Clone, Copy, PartialEq, Eq, Structural, Debug)]
pub enum AttachState {
    Detached,
    Attached,
}

/// A side effect the host layer must perform, in order, after a call into
/// the instance.
#[derive(Clone, Copy, PartialEq, Eq, Structural, Debug)]
pub enum Action {
    /// Insert the tip node as the anchor's next sibling.
    Insert,
    /// Remove the tip node from the document without destroying it.
    Remove,
    /// Measure the current rectangles, recompute the position, and apply
    /// the resulting styles.
    Recalculate,
}

/// The kinds of event subscriptions a live instance holds.
#[derive(Clone, Copy, PartialEq, Eq, Structural, Debug)]
pub enum EventKind {
    PointerEnter,
    PointerLeave,
    AnchorClick,
    DocumentClick,
    WindowScroll,
    ContainerScroll,
    WindowResize,
    WindowBlur,
}

/// An event delivered by the host dispatcher. A document-level click
/// carries the click point and the current anchor and tip rectangles, so
/// that containment is decided here. `Scroll` covers both window scrolls
/// and container scrolls.
#[derive(Clone, Copy, PartialEq, Eq, Structural, Debug)]
pub enum Event {
    PointerEnter,
    PointerLeave,
    AnchorClick,
    DocumentClick { x: i64, y: i64, anchor: Rect, tip: Rect },
    Scroll,
    Resize,
    WindowBlur,
}

/// The subscription kind an event is delivered through.
pub open spec fn kind_of(ev: Event) -> EventKind {
    match ev {
        Event::PointerEnter => EventKind::PointerEnter,
        Event::PointerLeave => EventKind::PointerLeave,
        Event::AnchorClick => EventKind::AnchorClick,
        Event::DocumentClick { .. } => EventKind::DocumentClick,
        Event::Scroll => EventKind::WindowScroll,
        Event::Resize => EventKind::WindowResize,
        Event::WindowBlur => EventKind::WindowBlur,
    }
}

/// One tip instance: its resolved options, its content, whether its node is
/// in the document, and whether it has been torn down.
pub struct TipInstance {
    pub opts: AllOpts,
    pub content: String,
    pub state: AttachState,
    pub torn_down: bool,
}

/// A `Some` action as a one-element sequence, a `None` as none.
pub open spec fn opt_actions(a: Option<Action>) -> Seq<Action> {
    match a {
        Some(act) => seq![act],
        None => Seq::empty(),
    }
}

/// `ensureAttached` as a function of the instance: attach if detached and
/// not torn down; already-attached and torn-down instances are left alone.
pub open spec fn attach_step(s: TipInstance) -> (TipInstance, Option<Action>) {
    if s.torn_down || s.state is Attached {
        (s, None)
    } else {
        (TipInstance { state: AttachState::Attached, ..s }, Some(Action::Insert))
    }
}

/// `detach` as a function of the instance: remove the node if attached,
/// otherwise do nothing.
pub open spec fn detach_step(s: TipInstance) -> (TipInstance, Option<Action>) {
    if s.state is Attached {
        (TipInstance { state: AttachState::Detached, ..s }, Some(Action::Remove))
    } else {
        (s, None)
    }
}

/// `recalculate` as a function of the instance: a live attached instance
/// asks for a recalculation; a detached or torn-down one asks for nothing,
/// so scroll and resize events never reposition a hidden tip.
pub open spec fn recalc_action(s: TipInstance) -> Option<Action> {
    if s.state is Attached && !s.torn_down {
        Some(Action::Recalculate)
    } else {
        None
    }
}

/// Showing the tip: attach if needed, then recalculate.
pub open spec fn show_step(s: TipInstance) -> (TipInstance, Seq<Action>) {
    let st = attach_step(s);
    (st.0, opt_actions(st.1) + opt_actions(recalc_action(st.0)))
}

/// The whole trigger state machine: what one delivered event does to the
/// instance and what it asks of the host. A torn-down instance ignores
/// everything. Hover mode shows on pointer enter and hides on pointer
/// leave; click mode shows on an anchor click and hides on a document click
/// outside both the anchor and the tip. Scroll and resize reposition an
/// attached tip; a window blur always hides.
pub open spec fn spec_step(s: TipInstance, ev: Event) -> (TipInstance, Seq<Action>) {
    if s.torn_down {
        (s, Seq::empty())
    } else {
        match ev {
            Event::PointerEnter => if s.opts.show_on is Hover {
                show_step(s)
            } else {
                (s, Seq::empty())
            },
            Event::PointerLeave => if s.opts.show_on is Hover {
                let st = detach_step(s);
                (st.0, opt_actions(st.1))
            } else {
                (s, Seq::empty())
            },
            Event::AnchorClick => if s.opts.show_on is Click {
                show_step(s)
            } else {
                (s, Seq::empty())
            },
            Event::DocumentClick { x, y, anchor, tip } => {
                if s.opts.show_on is Click && !anchor.spec_contains(x, y) && !tip.spec_contains(
                    x,
                    y,
                ) {
                    let st = detach_step(s);
                    (st.0, opt_actions(st.1))
                } else {
                    (s, Seq::empty())
                }
            },
            Event::Scroll => (s, opt_actions(recalc_action(s))),
            Event::Resize => (s, opt_actions(recalc_action(s))),
            Event::WindowBlur => {
                let st = detach_step(s);
                (st.0, opt_actions(st.1))
            },
        }
    }
}

/// Whether a live instance holds a subscription of the given kind: every
/// instance listens for window scroll, resize, and blur; one with a
/// configured container also listens for that container's scroll; hover
/// mode adds pointer enter and leave on the anchor; click mode adds a click
/// on the anchor and a document-level click.
pub open spec fn subscribed(s: TipInstance, k: EventKind) -> bool {
    &&& !s.torn_down
    &&& match k {
        EventKind::WindowScroll | EventKind::WindowResize | EventKind::WindowBlur => true,
        EventKind::ContainerScroll => s.opts.container is Some,
        EventKind::PointerEnter | EventKind::PointerLeave => s.opts.show_on is Hover,
        EventKind::AnchorClick | EventKind::DocumentClick => s.opts.show_on is Click,
    }
}

/// How many listeners the instance holds: three shared window listeners,
/// one container scroll listener when a container is configured, and the
/// two mode-specific listeners. Zero once torn down.
pub open spec fn spec_listener_count(s: TipInstance) -> int {
    if s.torn_down {
        0
    } else if s.opts.container is Some {
        6
    } else {
        5
    }
}

impl TipInstance {
    /// Creates the instance for one anchor binding: options resolved
    /// against the ambient configuration, content kept for rendering, the
    /// tip not yet in the document.
    pub fn new(ambient: Option<Opts>, call: Opts) -> (t: TipInstance)
        ensures
            is_resolution(ambient, call, t.opts),
            t.content@ == call.content@,
            t.state is Detached,
            !t.torn_down,
    {
        let content = call.content.clone();
        let opts = resolve(ambient, call);
        TipInstance { opts, content, state: AttachState::Detached, torn_down: false }
    }

    /// Inserts the tip node if it is not in the document. Idempotent:
    /// calling it while attached asks for nothing.
    pub fn ensure_attached(&mut self) -> (act: Option<Action>)
        ensures
            *final(self) == attach_step(*old(self)).0,
            act == attach_step(*old(self)).1,
            !old(self).torn_down ==> final(self).state is Attached,
            old(self).state is Attached ==> act is None,
    {
        if self.torn_down {
            return None;
        }
        match self.state {
            AttachState::Attached => None,
            AttachState::Detached => {
                self.state = AttachState::Attached;
                Some(Action::Insert)
            },
        }
    }

    /// Removes the tip node from the document without destroying it.
    /// Idempotent: calling it while detached asks for nothing.
    pub fn detach(&mut self) -> (act: Option<Action>)
        ensures
            *final(self) == detach_step(*old(self)).0,
            act == detach_step(*old(self)).1,
            final(self).state is Detached,
            old(self).state is Detached ==> act is None,
    {
        match self.state {
            AttachState::Attached => {
                self.state = AttachState::Detached;
                Some(Action::Remove)
            },
            AttachState::Detached => None,
        }
    }

    /// Asks for a recalculation while the tip is attached; while detached
    /// or torn down this is a no-op, so stray scroll or resize events never
    /// touch a hidden tip.
    pub fn recalculate(&self) -> (act: Option<Action>)
        ensures
            act == recalc_action(*self),
    {
        if !self.torn_down {
            match self.state {
                AttachState::Attached => Some(Action::Recalculate),
                AttachState::Detached => None,
            }
        } else {
            None
        }
    }

    /// Tears the instance down: the node leaves the document and every
    /// subscription is released, so no event can have an effect afterward.
    pub fn teardown(&mut self) -> (act: Option<Action>)
        ensures
            final(self).torn_down,
            final(self).state is Detached,
            final(self).opts == old(self).opts,
            final(self).content == old(self).content,
            act == (if old(self).state is Attached {
                Some(Action::Remove)
            } else {
                None
            }),
            spec_listener_count(*final(self)) == 0,
    {
        let act = self.detach();
        self.torn_down = true;
        act
    }

    /// Whether this instance holds a subscription of the given kind.
    pub fn is_subscribed(&self, k: EventKind) -> (b: bool)
        ensures
            b == subscribed(*self, k),
    {
        if self.torn_down {
            return false;
        }
        match k {
            EventKind::WindowScroll | EventKind::WindowResize | EventKind::WindowBlur => true,
            EventKind::ContainerScroll => self.opts.container.is_some(),
            EventKind::PointerEnter | EventKind::PointerLeave => match self.opts.show_on {
                ShowOn::Hover => true,
                ShowOn::Click => false,
            },
            EventKind::AnchorClick | EventKind::DocumentClick => match self.opts.show_on {
                ShowOn::Hover => false,
                ShowOn::Click => true,
            },
        }
    }

    /// How many listeners this instance currently holds.
    pub fn listener_count(&self) -> (n: u64)
        ensures
            n == spec_listener_count(*self),
    {
        if self.torn_down {
            0
        } else if self.opts.container.is_some() {
            6
        } else {
            5
        }
    }

    /// Feeds one delivered event through the trigger state machine and
    /// returns the actions the host layer must now perform, in order.
    pub fn handle_event(&mut self, ev: Event) -> (acts: Vec<Action>)
        ensures
            *final(self) == spec_step(*old(self), ev).0,
            acts@ == spec_step(*old(self), ev).1,
    {
        let mut acts: Vec<Action> = Vec::new();
        if self.torn_down {
            assert(acts@ =~= spec_step(*old(self), ev).1);
            return acts;
        }
        match ev {
            Event::PointerEnter => {
                match self.opts.show_on {
                    ShowOn::Hover => {
                        if let Some(a) = self.ensure_attached() {
                            acts.push(a);
                        }
                        if let Some(a) = self.recalculate() {
                            acts.push(a);
                        }
                        assert(acts@ =~= spec_step(*old(self), ev).1);
                    },
                    ShowOn::Click => {
                        assert(acts@ =~= spec_step(*old(self), ev).1);
                    },
                }
            },
            Event::PointerLeave => {
                match self.opts.show_on {
                    ShowOn::Hover => {
                        if let Some(a) = self.detach() {
                            acts.push(a);
                        }
                        assert(acts@ =~= spec_step(*old(self), ev).1);
                    },
                    ShowOn::Click => {
                        assert(acts@ =~= spec_step(*old(self), ev).1);
                    },
                }
            },
            Event::AnchorClick => {
                match self.opts.show_on {
                    ShowOn::Click => {
                        if let Some(a) = self.ensure_attached() {
                            acts.push(a);
                        }
                        if let Some(a) = self.recalculate() {
                            acts.push(a);
                        }
                        assert(acts@ =~= spec_step(*old(self), ev).1);
                    },
                    ShowOn::Hover => {
                        assert(acts@ =~= spec_step(*old(self), ev).1);
                    },
                }
            },
            Event::DocumentClick { x, y, anchor, tip } => {
                match self.opts.show_on {
                    ShowOn::Click => {
                        if !anchor.contains(x, y) && !tip.contains(x, y) {
                            if let Some(a) = self.detach() {
                                acts.push(a);
                            }
                        }
                        assert(acts@ =~= spec_step(*old(self), ev).1);
                    },
                    ShowOn::Hover => {
                        assert(acts@ =~= spec_step(*old(self), ev).1);
                    },
                }
            },
            Event::Scroll => {
                if let Some(a) = self.recalculate() {
                    acts.push(a);
                }
                assert(acts@ =~= spec_step(*old(self), ev).1);
            },
            Event::Resize => {
                if let Some(a) = self.recalculate() {
                    acts.push(a);
                }
                assert(acts@ =~= spec_step(*old(self), ev).1);
            },
            Event::WindowBlur => {
                if let Some(a) = self.detach() {
                    acts.push(a);
                }
                assert(acts@ =~= spec_step(*old(self), ev).1);
            },
        }
        acts
    }
}

/// Law: attach and detach are idempotent — of two `ensureAttached` calls in
/// a row at most the first inserts, so a detached live instance sees
/// exactly one insertion; the second of two `detach` calls removes nothing
/// and is harmless.
pub proof fn lemma_attach_detach_idempotent(s: TipInstance)
    ensures
        attach_step(attach_step(s).0).1 is None,
        !s.torn_down && s.state is Detached ==> attach_step(s).1 == Some(Action::Insert),
        s.state is Attached ==> attach_step(s).1 is None,
        detach_step(detach_step(s).0).1 is None,
{
}

/// Law: click-outside dismissal — on a live click-mode instance, a document
/// click at a point outside both the anchor's and the tip's rectangles
/// leaves the instance detached, while a click inside either rectangle
/// changes nothing.
pub proof fn lemma_click_outside_dismissal(s: TipInstance, x: i64, y: i64, anchor: Rect, tip: Rect)
    requires
        !s.torn_down,
        s.opts.show_on is Click,
    ensures
        !anchor.spec_contains(x, y) && !tip.spec_contains(x, y) ==> spec_step(
            s,
            (Event::DocumentClick { x, y, anchor, tip }),
        ).0.state is Detached,
        anchor.spec_contains(x, y) || tip.spec_contains(x, y) ==> spec_step(
            s,
            (Event::DocumentClick { x, y, anchor, tip }),
        ).0 == s,
{
}

/// Law: hover round trip — from a detached, live hover-mode instance, a
/// pointer enter attaches the tip with exactly one insertion followed by
/// exactly one recalculation, and a pointer leave then detaches it again
/// with exactly one removal.
pub proof fn lemma_hover_round_trip(s: TipInstance)
    requires
        !s.torn_down,
        s.opts.show_on is Hover,
        s.state is Detached,
    ensures
        spec_step(s, Event::PointerEnter).0.state is Attached,
        spec_step(s, Event::PointerEnter).1 =~= seq![Action::Insert, Action::Recalculate],
        spec_step(spec_step(s, Event::PointerEnter).0, Event::PointerLeave).0.state is Detached,
        spec_step(spec_step(s, Event::PointerEnter).0, Event::PointerLeave).1 =~= seq![
            Action::Remove,
        ],
{
    assert(spec_step(s, Event::PointerEnter).1 =~= seq![Action::Insert, Action::Recalculate]);
}

/// Law: teardown guarantee — a torn-down instance holds no listeners of any
/// kind, and dispatching any event changes nothing and asks for nothing.
pub proof fn lemma_teardown_silences(s: TipInstance, ev: Event, k: EventKind)
    requires
        s.torn_down,
    ensures
        spec_listener_count(s) == 0,
        !subscribed(s, k),
        spec_step(s, ev).0 == s,
        spec_step(s, ev).1 =~= Seq::<Action>::empty(),
{
}

} // verus!
