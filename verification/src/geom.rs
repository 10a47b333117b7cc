//! Rectangle model and the geometric modifier pipeline.
//!
//! Coordinates are integers in page space: `x` grows to the right, `y` grows
//! downward. A tip is placed against one side of an anchor rectangle and is
//! then adjusted by an ordered pipeline of modifiers — Offset, Flip, Shift,
//! Arrow — whose order is load-bearing.

use vstd::prelude::*;

verus! {

/// Bound on every coordinate, size, and padding handed to this module.
/// Page coordinates fit comfortably; the bound keeps all intermediate
/// arithmetic far away from `i64` overflow.
pub const COORD_LIMIT: i64 = 1_000_000_000;

/// The side of the anchor on which the tip is placed. `Top` and `Bottom`
/// have the vertical axis as their main axis and the horizontal axis as
/// their cross axis; `Left` and `Right` are the other way around.
#[derive(Clone, Copy, PartialEq, Eq, Structural, Debug)]
pub enum Side {
    Top,
    Right,
    Bottom,
    Left,
}

impl Default for Side {
    /// The built-in default side: above the anchor.
    fn default() -> (r: Side)
        ensures
            r is Top,
    {
        Side::Top
    }
}

impl Side {
    /// The opposite cardinal direction.
    pub open spec fn spec_opposite(self) -> Side {
        match self {
            Side::Top => Side::Bottom,
            Side::Bottom => Side::Top,
            Side::Left => Side::Right,
            Side::Right => Side::Left,
        }
    }

    #[verifier::when_used_as_spec(spec_opposite)]
    pub fn opposite(self) -> (r: Side)
        ensures
            r == self.spec_opposite(),
    {
        match self {
            Side::Top => Side::Bottom,
            Side::Bottom => Side::Top,
            Side::Left => Side::Right,
            Side::Right => Side::Left,
        }
    }

    /// True when the main axis of this side is vertical.
    pub open spec fn is_vertical(self) -> bool {
        self is Top || self is Bottom
    }
}

/// A rectangle in page coordinates.
#[derive(Clone, Copy, PartialEq, Eq, Structural, Debug)]
pub struct Rect {
    pub x: i64,
    pub y: i64,
    pub width: i64,
    pub height: i64,
}

/// A measured size.
#[derive(Clone, Copy, PartialEq, Eq, Structural, Debug)]
pub struct Size {
    pub width: i64,
    pub height: i64,
}

impl Rect {
    pub open spec fn right(self) -> int {
        self.x + self.width
    }

    pub open spec fn bottom(self) -> int {
        self.y + self.height
    }

    /// Well-formed: coordinates within the page bound, sizes nonnegative.
    pub open spec fn wf(self) -> bool {
        &&& -COORD_LIMIT <= self.x <= COORD_LIMIT
        &&& -COORD_LIMIT <= self.y <= COORD_LIMIT
        &&& 0 <= self.width <= COORD_LIMIT
        &&& 0 <= self.height <= COORD_LIMIT
    }

    /// Whether a point lies inside the rectangle, edges included.
    pub open spec fn spec_contains(&self, px: i64, py: i64) -> bool {
        &&& self.x <= px <= self.x + self.width
        &&& self.y <= py <= self.y + self.height
    }

    #[verifier::when_used_as_spec(spec_contains)]
    pub fn contains(&self, px: i64, py: i64) -> (r: bool)
        ensures
            r == self.spec_contains(px, py),
    {
        let right: i128 = self.x as i128 + self.width as i128;
        let bottom: i128 = self.y as i128 + self.height as i128;
        self.x <= px && px as i128 <= right && self.y <= py && py as i128 <= bottom
    }
}

impl Size {
    pub open spec fn wf(self) -> bool {
        &&& 0 <= self.width <= COORD_LIMIT
        &&& 0 <= self.height <= COORD_LIMIT
    }

    /// A size with a zero extent has not been laid out yet.
    pub open spec fn spec_is_degenerate(&self) -> bool {
        self.width == 0 || self.height == 0
    }

    #[verifier::when_used_as_spec(spec_is_degenerate)]
    pub fn is_degenerate(&self) -> (r: bool)
        ensures
            r == self.spec_is_degenerate(),
    {
        self.width == 0 || self.height == 0
    }
}

/// The intersection of two rectangles; empty overlaps collapse to a
/// zero-width or zero-height rectangle at the clamped origin.
pub open spec fn spec_intersect(a: Rect, b: Rect) -> Rect {
    let x = if a.x >= b.x {
        a.x
    } else {
        b.x
    };
    let y = if a.y >= b.y {
        a.y
    } else {
        b.y
    };
    let r = if a.right() <= b.right() {
        a.right()
    } else {
        b.right()
    };
    let bo = if a.bottom() <= b.bottom() {
        a.bottom()
    } else {
        b.bottom()
    };
    let w = if r - x >= 0 {
        r - x
    } else {
        0
    };
    let h = if bo - y >= 0 {
        bo - y
    } else {
        0
    };
    Rect { x, y, width: w as i64, height: h as i64 }
}

/// Clips `a` to `b`.
pub fn intersect(a: &Rect, b: &Rect) -> (r: Rect)
    requires
        a.wf(),
        b.wf(),
    ensures
        r == spec_intersect(*a, *b),
        r.wf(),
{
    let x: i64 = if a.x >= b.x {
        a.x
    } else {
        b.x
    };
    let y: i64 = if a.y >= b.y {
        a.y
    } else {
        b.y
    };
    let ar: i64 = a.x + a.width;
    let br: i64 = b.x + b.width;
    let right: i64 = if ar <= br {
        ar
    } else {
        br
    };
    let ab: i64 = a.y + a.height;
    let bb: i64 = b.y + b.height;
    let bottom: i64 = if ab <= bb {
        ab
    } else {
        bb
    };
    let w: i64 = if right - x >= 0 {
        right - x
    } else {
        0
    };
    let h: i64 = if bottom - y >= 0 {
        bottom - y
    } else {
        0
    };
    Rect { x, y, width: w, height: h }
}

/// Everything the modifier pipeline reads: the measured geometry and the
/// resolved numeric options. `side` is the requested side; the pipeline may
/// flip it. `arrow` is `None` when no arrow is configured.
#[derive(Clone, Copy, PartialEq, Eq, Structural, Debug)]
pub struct GeomInput {
    pub anchor: Rect,
    pub tip: Size,
    pub clip: Rect,
    pub side: Side,
    pub padding: i64,
    pub border_radius: i64,
    pub arrow: Option<Size>,
}

impl GeomInput {
    pub open spec fn wf(self) -> bool {
        &&& self.anchor.wf()
        &&& self.clip.wf()
        &&& self.tip.wf()
        &&& -COORD_LIMIT <= self.padding <= COORD_LIMIT
        &&& -COORD_LIMIT <= self.border_radius <= COORD_LIMIT
        &&& (self.arrow matches Some(a) ==> a.wf())
    }

    /// The arrow's extent along the main axis (its protrusion height),
    /// zero when no arrow is configured.
    pub open spec fn arrow_main(self) -> int {
        match self.arrow {
            Some(a) => a.height as int,
            None => 0,
        }
    }

    /// The arrow's extent along the cross axis, zero when no arrow is
    /// configured.
    pub open spec fn arrow_cross(self) -> int {
        match self.arrow {
            Some(a) => a.width as int,
            None => 0,
        }
    }

    /// How far the tip box is pushed away from the anchor along the main
    /// axis: the configured padding plus the arrow's footprint, so the arrow
    /// point, not the box edge, sits `padding` away from the anchor.
    pub open spec fn offset_amount(self) -> int {
        self.padding + self.arrow_main()
    }

    /// The main-axis margin the flip decision demands beyond the tip box:
    /// twice the padding plus the arrow height, so an arrow-sized margin
    /// survives a flip.
    pub open spec fn flip_pad(self) -> int {
        2 * self.padding + self.arrow_main()
    }

    /// The tip's extent along the main axis of `side`.
    pub open spec fn tip_main(self, side: Side) -> int {
        if side.is_vertical() {
            self.tip.height as int
        } else {
            self.tip.width as int
        }
    }

    /// The tip's extent along the cross axis of `side`.
    pub open spec fn tip_cross(self, side: Side) -> int {
        if side.is_vertical() {
            self.tip.width as int
        } else {
            self.tip.height as int
        }
    }

    /// Free space between the anchor and the clip edge on the given side.
    pub open spec fn avail(self, side: Side) -> int {
        match side {
            Side::Top => self.anchor.y - self.clip.y,
            Side::Bottom => self.clip.bottom() - self.anchor.bottom(),
            Side::Left => self.anchor.x - self.clip.x,
            Side::Right => self.clip.right() - self.anchor.right(),
        }
    }

    /// The anchor's center along the cross axis of `side`.
    pub open spec fn anchor_center(self, side: Side) -> int {
        if side.is_vertical() {
            self.anchor.x + (self.anchor.width as int) / 2
        } else {
            self.anchor.y + (self.anchor.height as int) / 2
        }
    }
}

/// Where the arrow sits inside the tip box: an offset from `cross_edge`
/// (`Left` for a vertical side, `Top` for a horizontal one) and a pinning
/// offset from `pin_edge`, the tip edge that faces the anchor. The pin
/// offset is negative: the arrow protrudes out of the box toward the anchor.
#[derive(Clone, Copy, PartialEq, Eq, Structural, Debug)]
pub struct ArrowPlacement {
    pub cross_edge: Side,
    pub cross_offset: i64,
    pub pin_edge: Side,
    pub pin_offset: i64,
}

/// The pipeline's state and final output: the tip's top-left corner, the
/// side it ended up on, and the arrow placement once computed.
#[derive(Clone, Copy, PartialEq, Eq, Structural, Debug)]
pub struct Position {
    pub x: i64,
    pub y: i64,
    pub side: Side,
    pub arrow: Option<ArrowPlacement>,
}

/// One step of the pipeline. The order in which they run is significant.
#[derive(Clone, Copy, PartialEq, Eq, Structural, Debug)]
pub enum Modifier {
    Offset,
    Flip,
    Shift,
    Arrow,
}

/// Bounds every pipeline state stays within, given well-formed input.
pub open spec fn pos_wf(p: Position) -> bool {
    &&& -6 * COORD_LIMIT <= p.x <= 6 * COORD_LIMIT
    &&& -6 * COORD_LIMIT <= p.y <= 6 * COORD_LIMIT
    &&& (p.arrow matches Some(ap) ==> {
        &&& -4 * COORD_LIMIT <= ap.cross_offset <= 4 * COORD_LIMIT
        &&& -COORD_LIMIT <= ap.pin_offset <= COORD_LIMIT
    })
}

/// The tip's top-left corner when placed against `side`, centered on the
/// anchor's cross axis, with its near edge `dist` away from the anchor.
pub open spec fn spec_place(inp: GeomInput, side: Side, dist: int) -> (int, int) {
    let cx = inp.anchor.x + (inp.anchor.width as int) / 2 - (inp.tip.width as int) / 2;
    let cy = inp.anchor.y + (inp.anchor.height as int) / 2 - (inp.tip.height as int) / 2;
    match side {
        Side::Top => (cx, inp.anchor.y - inp.tip.height - dist),
        Side::Bottom => (cx, inp.anchor.bottom() + dist),
        Side::Left => (inp.anchor.x - inp.tip.width - dist, cy),
        Side::Right => (inp.anchor.right() + dist, cy),
    }
}

/// The pipeline's starting state: the tip adjacent to the requested side,
/// centered, not yet offset, with no arrow placement.
pub open spec fn spec_initial(inp: GeomInput) -> Position {
    let pl = spec_place(inp, inp.side, 0);
    Position { x: pl.0 as i64, y: pl.1 as i64, side: inp.side, arrow: None }
}

/// Offset: push the tip away from the anchor along the main axis so its
/// near edge sits `offset_amount` from the anchor. Cross-axis position is
/// kept.
pub open spec fn spec_offset(inp: GeomInput, st: Position) -> Position {
    let pl = spec_place(inp, st.side, inp.offset_amount());
    if st.side.is_vertical() {
        Position { y: pl.1 as i64, ..st }
    } else {
        Position { x: pl.0 as i64, ..st }
    }
}

/// Flip: if the requested side lacks room for the tip plus the flip margin
/// and the opposite side has more room, switch sides and re-place the tip
/// there (centered, offset); otherwise leave the state alone.
pub open spec fn spec_flip(inp: GeomInput, st: Position) -> Position {
    let need = inp.tip_main(st.side) + inp.flip_pad();
    let cur = inp.avail(st.side);
    let opp = inp.avail(st.side.spec_opposite());
    if cur < need && opp > cur {
        let s2 = st.side.spec_opposite();
        let pl = spec_place(inp, s2, inp.offset_amount());
        Position { x: pl.0 as i64, y: pl.1 as i64, side: s2, arrow: st.arrow }
    } else {
        st
    }
}

/// Shift: slide the tip along the cross axis into the clip region (inset by
/// `padding`), then clamp so the anchor's center keeps at least
/// `arrow_cross / 2 + border_radius` of room from either tip corner; the
/// attachment clamp wins over the clip clamp. The side never changes.
pub open spec fn spec_shift(inp: GeomInput, st: Position) -> Position {
    let lim = inp.arrow_cross() / 2 + inp.border_radius;
    let ac = inp.anchor_center(st.side);
    if st.side.is_vertical() {
        let lo = inp.clip.x + inp.padding;
        let hi = inp.clip.x + inp.clip.width - inp.padding - inp.tip.width;
        let x1 = if st.x <= hi { st.x as int } else { hi };
        let x2 = if x1 >= lo { x1 } else { lo };
        let x3 = if x2 <= ac - lim { x2 } else { ac - lim };
        let x4 = if x3 >= ac + lim - inp.tip.width { x3 } else { ac + lim - inp.tip.width };
        Position { x: x4 as i64, ..st }
    } else {
        let lo = inp.clip.y + inp.padding;
        let hi = inp.clip.y + inp.clip.height - inp.padding - inp.tip.height;
        let y1 = if st.y <= hi { st.y as int } else { hi };
        let y2 = if y1 >= lo { y1 } else { lo };
        let y3 = if y2 <= ac - lim { y2 } else { ac - lim };
        let y4 = if y3 >= ac + lim - inp.tip.height { y3 } else { ac + lim - inp.tip.height };
        Position { y: y4 as i64, ..st }
    }
}

/// Arrow: aim the arrow at the anchor's center, clamped `border_radius`
/// away from the tip's corners, and pin it to the tip edge that faces the
/// anchor. A no-op when no arrow is configured.
pub open spec fn spec_arrow(inp: GeomInput, st: Position) -> Position {
    match inp.arrow {
        None => st,
        Some(a) => {
            let ac = inp.anchor_center(st.side);
            let start = if st.side.is_vertical() { st.x as int } else { st.y as int };
            let ideal = ac - (a.width as int) / 2 - start;
            let hi = inp.tip_cross(st.side) - a.width - inp.border_radius;
            let m = if ideal <= hi { ideal } else { hi };
            let off = if m >= inp.border_radius { m } else { inp.border_radius as int };
            let ap = ArrowPlacement {
                cross_edge: if st.side.is_vertical() { Side::Left } else { Side::Top },
                cross_offset: off as i64,
                pin_edge: st.side.spec_opposite(),
                pin_offset: (-(a.height as int)) as i64,
            };
            Position { arrow: Some(ap), ..st }
        },
    }
}

/// One pipeline step.
pub open spec fn spec_apply(inp: GeomInput, st: Position, m: Modifier) -> Position {
    match m {
        Modifier::Offset => spec_offset(inp, st),
        Modifier::Flip => spec_flip(inp, st),
        Modifier::Shift => spec_shift(inp, st),
        Modifier::Arrow => spec_arrow(inp, st),
    }
}

/// Run the remaining modifiers, front to back, from state `st`.
pub open spec fn spec_run_from(inp: GeomInput, st: Position, mods: Seq<Modifier>) -> Position
    decreases mods.len(),
{
    if mods.len() == 0 {
        st
    } else {
        spec_run_from(inp, spec_apply(inp, st, mods[0]), mods.drop_first())
    }
}

/// Run a whole modifier list from the initial placement.
pub open spec fn spec_run(inp: GeomInput, mods: Seq<Modifier>) -> Position {
    spec_run_from(inp, spec_initial(inp), mods)
}

/// The fixed order the library uses. Changing it changes collision results.
pub open spec fn standard_pipeline() -> Seq<Modifier> {
    seq![Modifier::Offset, Modifier::Flip, Modifier::Shift, Modifier::Arrow]
}

/// The fully modified position for well-formed input under the standard
/// modifier order.
pub open spec fn spec_position(inp: GeomInput) -> Position {
    spec_run(inp, standard_pipeline())
}

impl GeomInput {
    /// Executable `offset_amount`.
    fn offset_dist(&self) -> (d: i64)
        requires
            self.wf(),
        ensures
            d == self.offset_amount(),
            -COORD_LIMIT <= d <= 2 * COORD_LIMIT,
    {
        match self.arrow {
            Some(a) => self.padding + a.height,
            None => self.padding,
        }
    }

    /// Executable `arrow_cross`.
    fn arrow_cross_len(&self) -> (w: i64)
        requires
            self.wf(),
        ensures
            w == self.arrow_cross(),
            0 <= w <= COORD_LIMIT,
    {
        match self.arrow {
            Some(a) => a.width,
            None => 0,
        }
    }

    /// Executable `avail`.
    fn avail_on(&self, side: Side) -> (v: i64)
        requires
            self.wf(),
        ensures
            v == self.avail(side),
    {
        match side {
            Side::Top => self.anchor.y - self.clip.y,
            Side::Bottom => (self.clip.y + self.clip.height) - (self.anchor.y + self.anchor.height),
            Side::Left => self.anchor.x - self.clip.x,
            Side::Right => (self.clip.x + self.clip.width) - (self.anchor.x + self.anchor.width),
        }
    }

    /// Executable `anchor_center`.
    fn center_on(&self, side: Side) -> (c: i64)
        requires
            self.wf(),
        ensures
            c == self.anchor_center(side),
            -COORD_LIMIT <= c <= 2 * COORD_LIMIT,
    {
        match side {
            Side::Top | Side::Bottom => self.anchor.x + self.anchor.width / 2,
            Side::Left | Side::Right => self.anchor.y + self.anchor.height / 2,
        }
    }
}

/// Executable `spec_place`.
fn place(inp: &GeomInput, side: Side, dist: i64) -> (r: (i64, i64))
    requires
        inp.wf(),
        -2 * COORD_LIMIT <= dist <= 2 * COORD_LIMIT,
    ensures
        r.0 == spec_place(*inp, side, dist as int).0,
        r.1 == spec_place(*inp, side, dist as int).1,
        -4 * COORD_LIMIT <= r.0 <= 4 * COORD_LIMIT,
        -4 * COORD_LIMIT <= r.1 <= 4 * COORD_LIMIT,
{
    let cx: i64 = inp.anchor.x + inp.anchor.width / 2 - inp.tip.width / 2;
    let cy: i64 = inp.anchor.y + inp.anchor.height / 2 - inp.tip.height / 2;
    match side {
        Side::Top => (cx, inp.anchor.y - inp.tip.height - dist),
        Side::Bottom => (cx, inp.anchor.y + inp.anchor.height + dist),
        Side::Left => (inp.anchor.x - inp.tip.width - dist, cy),
        Side::Right => (inp.anchor.x + inp.anchor.width + dist, cy),
    }
}

/// Executable Offset step.
fn offset_step(inp: &GeomInput, st: Position) -> (r: Position)
    requires
        inp.wf(),
        pos_wf(st),
    ensures
        r == spec_offset(*inp, st),
        pos_wf(r),
{
    let d = inp.offset_dist();
    let pl = place(inp, st.side, d);
    match st.side {
        Side::Top | Side::Bottom => Position { y: pl.1, ..st },
        Side::Left | Side::Right => Position { x: pl.0, ..st },
    }
}

/// Executable Flip step.
fn flip_step(inp: &GeomInput, st: Position) -> (r: Position)
    requires
        inp.wf(),
        pos_wf(st),
    ensures
        r == spec_flip(*inp, st),
        pos_wf(r),
{
    let d = inp.offset_dist();
    let tm: i64 = match st.side {
        Side::Top | Side::Bottom => inp.tip.height,
        Side::Left | Side::Right => inp.tip.width,
    };
    let need: i64 = tm + inp.padding + d;
    assert(need == inp.tip_main(st.side) + inp.flip_pad());
    let cur = inp.avail_on(st.side);
    let opp = inp.avail_on(st.side.opposite());
    if cur < need && opp > cur {
        let s2 = st.side.opposite();
        let pl = place(inp, s2, d);
        Position { x: pl.0, y: pl.1, side: s2, arrow: st.arrow }
    } else {
        st
    }
}

/// Executable Shift step.
fn shift_step(inp: &GeomInput, st: Position) -> (r: Position)
    requires
        inp.wf(),
        pos_wf(st),
    ensures
        r == spec_shift(*inp, st),
        pos_wf(r),
{
    let lim: i64 = inp.arrow_cross_len() / 2 + inp.border_radius;
    let ac = inp.center_on(st.side);
    match st.side {
        Side::Top | Side::Bottom => {
            let lo: i64 = inp.clip.x + inp.padding;
            let hi: i64 = inp.clip.x + inp.clip.width - inp.padding - inp.tip.width;
            let x1: i64 = if st.x <= hi { st.x } else { hi };
            let x2: i64 = if x1 >= lo { x1 } else { lo };
            let x3: i64 = if x2 <= ac - lim { x2 } else { ac - lim };
            let bound: i64 = ac + lim - inp.tip.width;
            let x4: i64 = if x3 >= bound { x3 } else { bound };
            Position { x: x4, ..st }
        },
        Side::Left | Side::Right => {
            let lo: i64 = inp.clip.y + inp.padding;
            let hi: i64 = inp.clip.y + inp.clip.height - inp.padding - inp.tip.height;
            let y1: i64 = if st.y <= hi { st.y } else { hi };
            let y2: i64 = if y1 >= lo { y1 } else { lo };
            let y3: i64 = if y2 <= ac - lim { y2 } else { ac - lim };
            let bound: i64 = ac + lim - inp.tip.height;
            let y4: i64 = if y3 >= bound { y3 } else { bound };
            Position { y: y4, ..st }
        },
    }
}

/// Executable Arrow step.
fn arrow_step(inp: &GeomInput, st: Position) -> (r: Position)
    requires
        inp.wf(),
        pos_wf(st),
    ensures
        r == spec_arrow(*inp, st),
        pos_wf(r),
{
    match inp.arrow {
        None => st,
        Some(a) => {
            let ac = inp.center_on(st.side);
            let start: i64 = match st.side {
                Side::Top | Side::Bottom => st.x,
                Side::Left | Side::Right => st.y,
            };
            let tc: i64 = match st.side {
                Side::Top | Side::Bottom => inp.tip.width,
                Side::Left | Side::Right => inp.tip.height,
            };
            let ideal: i64 = ac - a.width / 2 - start;
            let hi: i64 = tc - a.width - inp.border_radius;
            let m1: i64 = if ideal <= hi { ideal } else { hi };
            let off: i64 = if m1 >= inp.border_radius { m1 } else { inp.border_radius };
            let ap = ArrowPlacement {
                cross_edge: match st.side {
                    Side::Top | Side::Bottom => Side::Left,
                    Side::Left | Side::Right => Side::Top,
                },
                cross_offset: off,
                pin_edge: st.side.opposite(),
                pin_offset: -a.height,
            };
            Position { arrow: Some(ap), ..st }
        },
    }
}

/// One executable pipeline step, equal to its specification.
pub fn apply_modifier(inp: &GeomInput, st: Position, m: Modifier) -> (r: Position)
    requires
        inp.wf(),
        pos_wf(st),
    ensures
        r == spec_apply(*inp, st, m),
        pos_wf(r),
{
    match m {
        Modifier::Offset => offset_step(inp, st),
        Modifier::Flip => flip_step(inp, st),
        Modifier::Shift => shift_step(inp, st),
        Modifier::Arrow => arrow_step(inp, st),
    }
}

/// The standard pipeline, written out stage by stage.
pub proof fn lemma_run_standard(inp: GeomInput)
    ensures
        spec_position(inp) == spec_arrow(
            inp,
            spec_shift(inp, spec_flip(inp, spec_offset(inp, spec_initial(inp)))),
        ),
{
    let mods = standard_pipeline();
    let t1 = seq![Modifier::Flip, Modifier::Shift, Modifier::Arrow];
    let t2 = seq![Modifier::Shift, Modifier::Arrow];
    let t3 = seq![Modifier::Arrow];
    let t4 = Seq::<Modifier>::empty();
    assert(mods.drop_first() =~= t1);
    assert(t1.drop_first() =~= t2);
    assert(t2.drop_first() =~= t3);
    assert(t3.drop_first() =~= t4);
    let st0 = spec_initial(inp);
    let st1 = spec_apply(inp, st0, Modifier::Offset);
    let st2 = spec_apply(inp, st1, Modifier::Flip);
    let st3 = spec_apply(inp, st2, Modifier::Shift);
    let st4 = spec_apply(inp, st3, Modifier::Arrow);
    assert(spec_run_from(inp, st0, mods) == spec_run_from(inp, st1, t1));
    assert(spec_run_from(inp, st1, t1) == spec_run_from(inp, st2, t2));
    assert(spec_run_from(inp, st2, t2) == spec_run_from(inp, st3, t3));
    assert(spec_run_from(inp, st3, t3) == spec_run_from(inp, st4, t4));
    assert(spec_run_from(inp, st4, t4) == st4);
}

/// Law: when the requested side lacks room for the tip plus the flip margin
/// and the opposite side has enough, the pipeline flips the side. In
/// particular, an anchor near the bottom of its container with enough space
/// above turns a requested `Bottom` into a final `Top`.
pub proof fn lemma_flip_correctness(inp: GeomInput)
    requires
        inp.wf(),
        inp.side is Bottom,
        inp.avail(Side::Bottom) < inp.tip_main(Side::Bottom) + inp.flip_pad(),
        inp.avail(Side::Top) >= inp.tip_main(Side::Bottom) + inp.flip_pad(),
    ensures
        spec_position(inp).side is Top,
{
    lemma_run_standard(inp);
    let st0 = spec_initial(inp);
    let st1 = spec_offset(inp, st0);
    assert(st1.side is Bottom);
    let st2 = spec_flip(inp, st1);
    assert(st2.side is Top);
}

/// Law: with a vertical side, a tip that fits across the clip region, and
/// an anchor center far enough from the clip's right edge for the
/// attachment clamp, the final tip rectangle's right edge never passes
/// `clip.right() - padding`.
pub proof fn lemma_shift_clamping(inp: GeomInput)
    requires
        inp.wf(),
        inp.side.is_vertical(),
        inp.tip.width + 2 * inp.padding <= inp.clip.width,
        inp.anchor_center(inp.side) + inp.arrow_cross() / 2 + inp.border_radius <= inp.clip.right()
            - inp.padding,
    ensures
        spec_position(inp).x + inp.tip.width <= inp.clip.right() - inp.padding,
{
    lemma_run_standard(inp);
    let st0 = spec_initial(inp);
    let st1 = spec_offset(inp, st0);
    let st2 = spec_flip(inp, st1);
    assert(st2.side.is_vertical());
    assert(inp.anchor_center(st2.side) == inp.anchor_center(inp.side));
    let st3 = spec_shift(inp, st2);
    let st4 = spec_arrow(inp, st3);
    assert(st4.x == st3.x);
}

/// A concrete collision scenario on which the Flip/Shift order is visible:
/// the anchor sits near the container's bottom-left corner, so the pipeline
/// both flips (no room below) and shifts (the centered tip pokes out on the
/// left).
pub open spec fn order_witness() -> GeomInput {
    GeomInput {
        anchor: Rect { x: 2, y: 80, width: 10, height: 10 },
        tip: Size { width: 30, height: 20 },
        clip: Rect { x: 0, y: 0, width: 100, height: 100 },
        side: Side::Bottom,
        padding: 2,
        border_radius: 0,
        arrow: None,
    }
}

/// The pipeline with Flip and Shift transposed.
pub open spec fn transposed_pipeline() -> Seq<Modifier> {
    seq![Modifier::Offset, Modifier::Shift, Modifier::Flip, Modifier::Arrow]
}

/// The transposed pipeline, written out stage by stage.
pub proof fn lemma_run_transposed(inp: GeomInput)
    ensures
        spec_run(inp, transposed_pipeline()) == spec_arrow(
            inp,
            spec_flip(inp, spec_shift(inp, spec_offset(inp, spec_initial(inp)))),
        ),
{
    let mods = transposed_pipeline();
    let t1 = seq![Modifier::Shift, Modifier::Flip, Modifier::Arrow];
    let t2 = seq![Modifier::Flip, Modifier::Arrow];
    let t3 = seq![Modifier::Arrow];
    let t4 = Seq::<Modifier>::empty();
    assert(mods.drop_first() =~= t1);
    assert(t1.drop_first() =~= t2);
    assert(t2.drop_first() =~= t3);
    assert(t3.drop_first() =~= t4);
    let st0 = spec_initial(inp);
    let st1 = spec_apply(inp, st0, Modifier::Offset);
    let st2 = spec_apply(inp, st1, Modifier::Shift);
    let st3 = spec_apply(inp, st2, Modifier::Flip);
    let st4 = spec_apply(inp, st3, Modifier::Arrow);
    assert(spec_run_from(inp, st0, mods) == spec_run_from(inp, st1, t1));
    assert(spec_run_from(inp, st1, t1) == spec_run_from(inp, st2, t2));
    assert(spec_run_from(inp, st2, t2) == spec_run_from(inp, st3, t3));
    assert(spec_run_from(inp, st3, t3) == spec_run_from(inp, st4, t4));
    assert(spec_run_from(inp, st4, t4) == st4);
}

/// Law: the Offset–Flip–Shift–Arrow order is load-bearing — transposing
/// Flip and Shift changes the outcome on at least one collision scenario.
/// When Shift runs first its clamping is discarded by the re-placement a
/// later Flip performs.
pub proof fn lemma_pipeline_order_matters()
    ensures
        spec_run(order_witness(), standard_pipeline()) != spec_run(
            order_witness(),
            transposed_pipeline(),
        ),
        exists|inp: GeomInput|
            inp.wf() && spec_run(inp, standard_pipeline()) != spec_run(
                inp,
                transposed_pipeline(),
            ),
{
    let inp = order_witness();
    lemma_run_standard(inp);
    lemma_run_transposed(inp);
    let st0 = spec_initial(inp);
    assert(st0.x == -8 && st0.y == 90 && st0.side is Bottom);
    let st1 = spec_offset(inp, st0);
    assert(st1.x == -8 && st1.y == 92 && st1.side is Bottom);
    // standard order: Flip re-places on Top, then Shift clamps to the left
    // inset
    let sf = spec_flip(inp, st1);
    assert(sf.x == -8 && sf.y == 58 && sf.side is Top);
    let sfs = spec_shift(inp, sf);
    assert(sfs.x == 2 && sfs.y == 58 && sfs.side is Top);
    assert(spec_run(inp, standard_pipeline()).x == 2);
    // transposed order: Shift clamps first, then Flip re-centers and the
    // clamp is lost
    let ss = spec_shift(inp, st1);
    assert(ss.x == 2 && ss.y == 92 && ss.side is Bottom);
    let ssf = spec_flip(inp, ss);
    assert(ssf.x == -8 && ssf.y == 58 && ssf.side is Top);
    assert(spec_run(inp, transposed_pipeline()).x == -8);
    assert(inp.wf());
}

/// Run an ordered modifier list from the initial adjacent placement.
pub fn run_pipeline(inp: &GeomInput, mods: &Vec<Modifier>) -> (r: Position)
    requires
        inp.wf(),
    ensures
        r == spec_run(*inp, mods@),
        pos_wf(r),
{
    let pl = place(inp, inp.side, 0);
    let mut st = Position { x: pl.0, y: pl.1, side: inp.side, arrow: None };
    proof {
        assert(st == spec_initial(*inp));
        assert(mods@.skip(0) =~= mods@);
    }
    let mut i: usize = 0;
    while i < mods.len()
        invariant
            inp.wf(),
            0 <= i <= mods.len(),
            pos_wf(st),
            spec_run_from(*inp, st, mods@.skip(i as int)) == spec_run(*inp, mods@),
        decreases mods.len() - i,
    {
        proof {
            assert(mods@.skip(i as int)[0] == mods@[i as int]);
            assert(mods@.skip(i as int).drop_first() =~= mods@.skip(i as int + 1));
        }
        st = apply_modifier(inp, st, mods[i]);
        i = i + 1;
    }
    proof {
        assert(mods@.skip(mods@.len() as int) =~= Seq::<Modifier>::empty());
    }
    st
}

/// Compute the tip's final position, chosen side, and arrow placement by
/// applying the standard pipeline: Offset, then Flip, then Shift, then
/// Arrow.
pub fn compute_position(inp: &GeomInput) -> (r: Position)
    requires
        inp.wf(),
    ensures
        r == spec_position(*inp),
        pos_wf(r),
{
    let mods: Vec<Modifier> = vec![Modifier::Offset, Modifier::Flip, Modifier::Shift, Modifier::Arrow];
    proof {
        assert(mods@ =~= standard_pipeline());
    }
    run_pipeline(inp, &mods)
}

} // verus!
