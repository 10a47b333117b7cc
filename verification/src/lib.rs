//! Adaptive tooltip positioning controller.
//!
//! The crate models a floating "tip" element that is kept visually attached
//! to an anchor element inside a clipping container. It has three parts:
//! an option-resolution cascade that merges per-call overrides with ambient
//! defaults into one fully resolved configuration, a geometric pipeline that
//! turns anchor/tip/container rectangles into concrete coordinates and arrow
//! placement, and an event-driven lifecycle state machine that decides when
//! the tip is inserted, repositioned, and removed.
//!
//! All geometry is integer page coordinates. The host layer measures real
//! elements, hands the measurements to this crate, and performs the DOM
//! insertions, removals, and style writes that the crate's decisions call for.

use vstd::prelude::*;

pub mod geom;
pub mod lifecycle;
pub mod opts;

pub use geom::GeomInput;
pub use geom::Position;
pub use geom::Rect;
pub use geom::Side;
pub use geom::Size;
pub use lifecycle::Action;
pub use lifecycle::Event;
pub use lifecycle::TipInstance;
pub use opts::AllOpts;
pub use opts::ElemHandle;
pub use opts::Opts;
pub use opts::ShowOn;
pub use opts::tip;

use crate::geom::COORD_LIMIT;
use crate::geom::compute_position;
use crate::geom::intersect;
use crate::geom::pos_wf;
use crate::geom::spec_intersect;
use crate::geom::spec_position;
use crate::opts::is_resolution;
use crate::opts::overridden;

verus! {

/// The effective clipping region: the container's rectangle clipped to the
/// viewport, or the viewport itself when no container is configured, so the
/// region never exceeds the visible screen.
pub open spec fn spec_clip(container: Option<Rect>, viewport: Rect) -> Rect {
    match container {
        Some(c) => spec_intersect(c, viewport),
        None => viewport,
    }
}

/// Recalculation is skipped while the tip — or the arrow, if one is
/// configured — still has a zero measured size: layout has not run yet and
/// positioning it would be meaningless.
pub open spec fn skip_recalc(has_arrow: bool, tip_size: Size, arrow_size: Size) -> bool {
    tip_size.spec_is_degenerate() || (has_arrow && arrow_size.spec_is_degenerate())
}

/// What a recalculation computes from the resolved scalars and the measured
/// geometry: nothing while a measurement is degenerate, otherwise the
/// standard pipeline's position within the effective clipping region.
pub open spec fn spec_recalc(
    side: Side,
    padding: i64,
    border_radius: i64,
    has_arrow: bool,
    anchor: Rect,
    tip_size: Size,
    arrow_size: Size,
    container: Option<Rect>,
    viewport: Rect,
) -> Option<Position> {
    if skip_recalc(has_arrow, tip_size, arrow_size) {
        None
    } else {
        Some(
            spec_position(
                GeomInput {
                    anchor,
                    tip: tip_size,
                    clip: spec_clip(container, viewport),
                    side,
                    padding,
                    border_radius,
                    arrow: if has_arrow {
                        Some(arrow_size)
                    } else {
                        None
                    },
                },
            ),
        )
    }
}

/// Recalculates the tip position for an already resolved configuration.
///
/// `anchor` is the anchor's rectangle and `viewport` the visible region,
/// both in page coordinates; `container` is the configured container's
/// measured rectangle, or `None` when there is none or it no longer
/// resolves, in which case the viewport alone clips. `arrow_size` is the
/// arrow's measured size; it only matters when the configuration has an
/// arrow. Returns `None` — skip, wait for the next triggering event — while
/// the tip or a configured arrow measures zero, and the computed position
/// otherwise.
pub fn recalculate_all_opts(
    opts: &AllOpts,
    anchor: Rect,
    tip_size: Size,
    arrow_size: Size,
    container: Option<Rect>,
    viewport: Rect,
) -> (r: Option<Position>)
    requires
        anchor.wf(),
        tip_size.wf(),
        arrow_size.wf(),
        viewport.wf(),
        (container matches Some(c) ==> c.wf()),
        -COORD_LIMIT <= opts.padding <= COORD_LIMIT,
        -COORD_LIMIT <= opts.border_radius <= COORD_LIMIT,
    ensures
        r == spec_recalc(
            opts.side,
            opts.padding,
            opts.border_radius,
            opts.arrow is Some,
            anchor,
            tip_size,
            arrow_size,
            container,
            viewport,
        ),
        r is None <==> skip_recalc(opts.arrow is Some, tip_size, arrow_size),
        (r matches Some(p) ==> pos_wf(p)),
{
    if tip_size.is_degenerate() {
        return None;
    }
    let has_arrow = opts.arrow.is_some();
    if has_arrow && arrow_size.is_degenerate() {
        return None;
    }
    let clip = match container {
        Some(c) => intersect(&c, &viewport),
        None => viewport,
    };
    let inp = GeomInput {
        anchor,
        tip: tip_size,
        clip,
        side: opts.side,
        padding: opts.padding,
        border_radius: opts.border_radius,
        arrow: if has_arrow {
            Some(arrow_size)
        } else {
            None
        },
    };
    Some(compute_position(&inp))
}

/// Recalculates the tip position for a bare override: the options are
/// resolved against the built-in defaults alone (no ambient layer) and the
/// position computed as [`recalculate_all_opts`] does.
pub fn recalculate(
    opts: Opts,
    anchor: Rect,
    tip_size: Size,
    arrow_size: Size,
    container: Option<Rect>,
    viewport: Rect,
) -> (r: Option<Position>)
    requires
        anchor.wf(),
        tip_size.wf(),
        arrow_size.wf(),
        viewport.wf(),
        (container matches Some(c) ==> c.wf()),
        (opts.padding matches Some(p) ==> -COORD_LIMIT <= p <= COORD_LIMIT),
        (opts.border_radius matches Some(b) ==> -COORD_LIMIT <= b <= COORD_LIMIT),
    ensures
        r == spec_recalc(
            overridden(opts.side, Side::Top),
            overridden(opts.padding, 0i64),
            overridden(opts.border_radius, 5i64),
            (match opts.arrow {
                Some(a) => a is Some,
                None => true,
            }),
            anchor,
            tip_size,
            arrow_size,
            container,
            viewport,
        ),
{
    let resolved = opts::resolve(None, opts);
    recalculate_all_opts(&resolved, anchor, tip_size, arrow_size, container, viewport)
}

/// Binds a tooltip to one anchor: resolves the call-site options against
/// the ambient configuration, if one is supplied, and returns the instance
/// whose state machine the host layer drives. The tip starts detached; the
/// host wires the listeners named by the instance's subscriptions and feeds
/// every delivered event to [`TipInstance::handle_event`].
pub fn tooltip(ambient: Option<Opts>, opts: Opts) -> (t: TipInstance)
    ensures
        is_resolution(ambient, opts, t.opts),
        t.content@ == opts.content@,
        t.state is Detached,
        !t.torn_down,
{
    TipInstance::new(ambient, opts)
}

} // verus!
