//! Tooltip options: a partially specified override layer and the fully
//! resolved configuration.
//!
//! Resolution starts from the built-in defaults, overwrites every field an
//! ambient configuration defines, then overwrites every field the call-site
//! override defines. Each layer replaces a field whole; fields no layer sets
//! keep the built-in default.

use vstd::prelude::*;

use crate::geom::Side;

verus! {

/// A handle to a clipping container element. The host layer maps it to a
/// live element and measures that element's rectangle at each
/// recalculation; when the handle no longer resolves, the viewport is used
/// instead.
#[derive(Clone, Copy, PartialEq, Eq, Structural, Debug)]
pub struct ElemHandle {
    pub id: u64,
}

/// When the tip is shown: on pointer hover or on click (with click outside
/// to dismiss).
#[derive(Clone, Copy, PartialEq, Eq, Structural, Debug)]
pub enum ShowOn {
    Hover,
    Click,
}

impl Default for ShowOn {
    /// The built-in default trigger mode.
    fn default() -> (r: ShowOn)
        ensures
            r is Hover,
    {
        ShowOn::Hover
    }
}

/// Tooltip options for one binding call.
///
/// Construct it with the [`tip`] free function and the builder methods.
/// Every field left unset falls back to an ambient configuration, if one is
/// supplied, and then to the built-in default.
///
/// For `arrow`, the outer `Option` says whether the field was set and the
/// inner one whether there is an arrow. For `container`, the outer `Option`
/// says whether the field was set and the inner one names the container
/// element (`None` meaning the whole viewport).
#[derive(Clone, Debug)]
pub struct Opts {
    pub content: String,
    pub padding: Option<i64>,
    pub border_radius: Option<i64>,
    pub class: Option<&'static str>,
    pub side: Option<Side>,
    pub show_on: Option<ShowOn>,
    pub arrow: Option<Option<String>>,
    pub container: Option<Option<ElemHandle>>,
    pub container_padding_top: Option<i64>,
    pub container_padding_bottom: Option<i64>,
    pub container_padding_left: Option<i64>,
    pub container_padding_right: Option<i64>,
}

/// True of an `Opts` whose every override is unset and whose content is
/// `content`.
pub open spec fn is_bare_opts(o: Opts, content: Seq<char>) -> bool {
    &&& o.content@ == content
    &&& o.padding is None
    &&& o.border_radius is None
    &&& o.class is None
    &&& o.side is None
    &&& o.show_on is None
    &&& o.arrow is None
    &&& o.container is None
    &&& o.container_padding_top is None
    &&& o.container_padding_bottom is None
    &&& o.container_padding_left is None
    &&& o.container_padding_right is None
}

/// Wraps bare content in an `Opts` with every other field unset.
pub fn tip(content: String) -> (r: Opts)
    ensures
        is_bare_opts(r, content@),
{
    Opts {
        content,
        padding: None,
        border_radius: None,
        class: None,
        side: None,
        show_on: None,
        arrow: None,
        container: None,
        container_padding_top: None,
        container_padding_bottom: None,
        container_padding_left: None,
        container_padding_right: None,
    }
}

impl Opts {
    /// An `Opts` with empty content and no overrides.
    pub fn empty() -> (r: Opts)
        ensures
            is_bare_opts(r, Seq::<char>::empty()),
    {
        let r = tip("".to_owned());
        proof {
            reveal_strlit("");
            assert(""@ =~= Seq::<char>::empty());
        }
        r
    }

    /// Distance between the anchor and the arrow point (or the tip box when
    /// there is no arrow), also kept from the clip region's edges.
    pub fn padding(self, padding: i64) -> (r: Opts)
        ensures
            r == (Opts { padding: Some(padding), ..self }),
    {
        Opts { padding: Some(padding), ..self }
    }

    /// The side of the anchor the tip is requested on.
    pub fn side(self, side: Side) -> (r: Opts)
        ensures
            r == (Opts { side: Some(side), ..self }),
    {
        Opts { side: Some(side), ..self }
    }

    /// The tip box's corner rounding; the arrow keeps this distance from
    /// the tip's corners.
    pub fn border_radius(self, border_radius: i64) -> (r: Opts)
        ensures
            r == (Opts { border_radius: Some(border_radius), ..self }),
    {
        Opts { border_radius: Some(border_radius), ..self }
    }

    /// An extra CSS class put on the tip and the anchor.
    pub fn class(self, class: &'static str) -> (r: Opts)
        ensures
            r == (Opts { class: Some(class), ..self }),
    {
        Opts { class: Some(class), ..self }
    }

    /// Sets the arrow content, or `None` for no arrow at all.
    pub fn arrow(self, arrow: Option<String>) -> (r: Opts)
        ensures
            r == (Opts { arrow: Some(arrow), ..self }),
    {
        Opts { arrow: Some(arrow), ..self }
    }

    /// Which interaction shows the tip.
    pub fn show_on(self, on: ShowOn) -> (r: Opts)
        ensures
            r == (Opts { show_on: Some(on), ..self }),
    {
        Opts { show_on: Some(on), ..self }
    }

    /// Sets the clipping container of the tooltip and anchor. The element
    /// behind the handle must stay mounted while the tooltip is live;
    /// if it stops resolving, the viewport is used instead.
    pub fn container(self, container: ElemHandle) -> (r: Opts)
        ensures
            r == (Opts { container: Some(Some(container)), ..self }),
    {
        Opts { container: Some(Some(container)), ..self }
    }

    /// Sets the container to be the entire viewport.
    pub fn window_container(self) -> (r: Opts)
        ensures
            r == (Opts { container: Some(None), ..self }),
    {
        Opts { container: Some(None), ..self }
    }

    /// How much further in the tooltip should be from all four sides of the
    /// container, on top of the regular `padding`.
    pub fn container_padding(self, padding: i64) -> (r: Opts)
        ensures
            r == (Opts {
                container_padding_top: Some(padding),
                container_padding_bottom: Some(padding),
                container_padding_left: Some(padding),
                container_padding_right: Some(padding),
                ..self
            }),
    {
        Opts {
            container_padding_top: Some(padding),
            container_padding_bottom: Some(padding),
            container_padding_left: Some(padding),
            container_padding_right: Some(padding),
            ..self
        }
    }

    /// Extra inset from the container's top edge.
    pub fn container_padding_top(self, padding: i64) -> (r: Opts)
        ensures
            r == (Opts { container_padding_top: Some(padding), ..self }),
    {
        Opts { container_padding_top: Some(padding), ..self }
    }

    /// Extra inset from the container's bottom edge.
    pub fn container_padding_bottom(self, padding: i64) -> (r: Opts)
        ensures
            r == (Opts { container_padding_bottom: Some(padding), ..self }),
    {
        Opts { container_padding_bottom: Some(padding), ..self }
    }

    /// Extra inset from the container's left edge.
    pub fn container_padding_left(self, padding: i64) -> (r: Opts)
        ensures
            r == (Opts { container_padding_left: Some(padding), ..self }),
    {
        Opts { container_padding_left: Some(padding), ..self }
    }

    /// Extra inset from the container's right edge.
    pub fn container_padding_right(self, padding: i64) -> (r: Opts)
        ensures
            r == (Opts { container_padding_right: Some(padding), ..self }),
    {
        Opts { container_padding_right: Some(padding), ..self }
    }
}

impl Default for Opts {
    /// Empty content and no overrides.
    fn default() -> (r: Opts)
        ensures
            is_bare_opts(r, Seq::<char>::empty()),
    {
        Opts::empty()
    }
}

impl From<String> for Opts {
    /// Bare content as options: every override unset, so everything falls
    /// through to the ambient configuration and the built-in defaults.
    fn from(value: String) -> (r: Opts) {
        Opts {
            content: value,
            padding: None,
            border_radius: None,
            class: None,
            side: None,
            show_on: None,
            arrow: None,
            container: None,
            container_padding_top: None,
            container_padding_bottom: None,
            container_padding_left: None,
            container_padding_right: None,
        }
    }
}

impl vstd::std_specs::convert::FromSpecImpl<String> for Opts {
    open spec fn obeys_from_spec() -> bool {
        true
    }

    open spec fn from_spec(v: String) -> Opts {
        Opts {
            content: v,
            padding: None,
            border_radius: None,
            class: None,
            side: None,
            show_on: None,
            arrow: None,
            container: None,
            container_padding_top: None,
            container_padding_bottom: None,
            container_padding_left: None,
            container_padding_right: None,
        }
    }
}

/// The fully resolved configuration: every field concrete.
#[derive(Clone, Debug)]
pub struct AllOpts {
    pub padding: i64,
    pub side: Side,
    pub arrow: Option<String>,
    pub show_on: ShowOn,
    pub border_radius: i64,
    pub class: &'static str,
    pub container: Option<ElemHandle>,
    pub container_padding_top: i64,
    pub container_padding_bottom: i64,
    pub container_padding_left: i64,
    pub container_padding_right: i64,
}

/// The built-in default arrow content: a small curved wedge.
pub open spec fn default_arrow_markup() -> Seq<char> {
    "<svg width=\"16\" height=\"6\" xmlns=\"http://www.w3.org/2000/svg\" style=\"transform:rotate(180deg)\"><path d=\"M0 6s1.796-.013 4.67-3.615C5.851.9 6.93.006 8 0c1.07-.006 2.148.887 3.343 2.385C14.233 6.005 16 6 16 6H0z\"/></svg>"@
}

/// The built-in default configuration: no padding, tip above the anchor,
/// shown on hover, the default arrow, a 5-unit corner radius, no extra
/// class, the viewport as container, and no container insets.
pub open spec fn is_builtin_default(r: AllOpts) -> bool {
    &&& r.padding == 0
    &&& r.side is Top
    &&& r.show_on is Hover
    &&& (r.arrow matches Some(a) && a@ == default_arrow_markup())
    &&& r.border_radius == 5
    &&& r.class@ == ""@
    &&& r.container is None
    &&& r.container_padding_top == 0
    &&& r.container_padding_bottom == 0
    &&& r.container_padding_left == 0
    &&& r.container_padding_right == 0
}

impl Default for AllOpts {
    /// The built-in default configuration.
    fn default() -> (r: AllOpts)
        ensures
            is_builtin_default(r),
    {
        AllOpts {
            padding: 0,
            side: Side::Top,
            show_on: ShowOn::Hover,
            arrow: Some(
                "<svg width=\"16\" height=\"6\" xmlns=\"http://www.w3.org/2000/svg\" style=\"transform:rotate(180deg)\"><path d=\"M0 6s1.796-.013 4.67-3.615C5.851.9 6.93.006 8 0c1.07-.006 2.148.887 3.343 2.385C14.233 6.005 16 6 16 6H0z\"/></svg>".to_owned(),
            ),
            border_radius: 5,
            class: "",
            container: None,
            container_padding_top: 0,
            container_padding_bottom: 0,
            container_padding_left: 0,
            container_padding_right: 0,
        }
    }
}

/// The value an override layer leaves for one field: the layer's own value
/// where it defines one, else the value underneath.
pub open spec fn overridden<T>(over: Option<T>, base: T) -> T {
    match over {
        Some(v) => v,
        None => base,
    }
}

impl AllOpts {
    /// Overwrites every field that `opts` defines; fields `opts` leaves
    /// unset keep their current value. Content is not part of the resolved
    /// configuration and is ignored here.
    pub fn overwrite_with(self, opts: Opts) -> (r: AllOpts)
        ensures
            r.padding == overridden(opts.padding, self.padding),
            r.border_radius == overridden(opts.border_radius, self.border_radius),
            r.class == overridden(opts.class, self.class),
            r.side == overridden(opts.side, self.side),
            r.show_on == overridden(opts.show_on, self.show_on),
            r.arrow == overridden(opts.arrow, self.arrow),
            r.container == overridden(opts.container, self.container),
            r.container_padding_top == overridden(
                opts.container_padding_top,
                self.container_padding_top,
            ),
            r.container_padding_bottom == overridden(
                opts.container_padding_bottom,
                self.container_padding_bottom,
            ),
            r.container_padding_left == overridden(
                opts.container_padding_left,
                self.container_padding_left,
            ),
            r.container_padding_right == overridden(
                opts.container_padding_right,
                self.container_padding_right,
            ),
    {
        let Opts {
            content: _,
            padding,
            border_radius,
            class,
            side,
            show_on,
            arrow,
            container,
            container_padding_top,
            container_padding_bottom,
            container_padding_left,
            container_padding_right,
        } = opts;
        AllOpts {
            padding: padding.unwrap_or(self.padding),
            border_radius: border_radius.unwrap_or(self.border_radius),
            class: class.unwrap_or(self.class),
            side: side.unwrap_or(self.side),
            show_on: show_on.unwrap_or(self.show_on),
            arrow: arrow.unwrap_or(self.arrow),
            container: container.unwrap_or(self.container),
            container_padding_top: container_padding_top.unwrap_or(self.container_padding_top),
            container_padding_bottom: container_padding_bottom.unwrap_or(
                self.container_padding_bottom,
            ),
            container_padding_left: container_padding_left.unwrap_or(self.container_padding_left),
            container_padding_right: container_padding_right.unwrap_or(
                self.container_padding_right,
            ),
        }
    }
}

/// The value an ambient layer defines for one field, when an ambient layer
/// was supplied at all.
pub open spec fn ambient_field<T>(ambient: Option<Opts>, sel: spec_fn(Opts) -> Option<T>) -> Option<
    T,
> {
    match ambient {
        Some(o) => sel(o),
        None => None,
    }
}

/// Three-layer resolution of one field: the call-site value where defined,
/// else the ambient value where defined, else the built-in default.
pub open spec fn layered<T>(dflt: T, amb: Option<T>, call: Option<T>) -> T {
    overridden(call, overridden(amb, dflt))
}

/// The first of two override layers that defines a field, if either does.
pub open spec fn first_defined<T>(over: Option<T>, base: Option<T>) -> Option<T> {
    match over {
        Some(v) => Some(v),
        None => base,
    }
}

/// Field-by-field characterization of a resolved configuration: every field
/// is the three-layer resolution of that field alone. The string-valued
/// fields are pinned by their characters; where no layer defines them they
/// hold the built-in empty class and default arrow.
pub open spec fn is_resolution(ambient: Option<Opts>, call: Opts, r: AllOpts) -> bool {
    &&& r.padding == layered(0i64, ambient_field(ambient, |o: Opts| o.padding), call.padding)
    &&& r.border_radius == layered(
        5i64,
        ambient_field(ambient, |o: Opts| o.border_radius),
        call.border_radius,
    )
    &&& r.side == layered(Side::Top, ambient_field(ambient, |o: Opts| o.side), call.side)
    &&& r.show_on == layered(
        ShowOn::Hover,
        ambient_field(ambient, |o: Opts| o.show_on),
        call.show_on,
    )
    &&& r.container == layered(
        None,
        ambient_field(ambient, |o: Opts| o.container),
        call.container,
    )
    &&& r.container_padding_top == layered(
        0i64,
        ambient_field(ambient, |o: Opts| o.container_padding_top),
        call.container_padding_top,
    )
    &&& r.container_padding_bottom == layered(
        0i64,
        ambient_field(ambient, |o: Opts| o.container_padding_bottom),
        call.container_padding_bottom,
    )
    &&& r.container_padding_left == layered(
        0i64,
        ambient_field(ambient, |o: Opts| o.container_padding_left),
        call.container_padding_left,
    )
    &&& r.container_padding_right == layered(
        0i64,
        ambient_field(ambient, |o: Opts| o.container_padding_right),
        call.container_padding_right,
    )
    &&& {
        let c = first_defined(call.class, ambient_field(ambient, |o: Opts| o.class));
        match c {
            Some(v) => r.class == v,
            None => r.class@ == ""@,
        }
    }
    &&& {
        let a = first_defined(call.arrow, ambient_field(ambient, |o: Opts| o.arrow));
        match a {
            Some(v) => r.arrow == v,
            None => r.arrow matches Some(s) && s@ == default_arrow_markup(),
        }
    }
}

/// Resolves one call-site override against an optional ambient
/// configuration: the built-in defaults, overwritten by every field the
/// ambient layer defines, overwritten by every field the call-site layer
/// defines. Pure: the result is a function of the two inputs alone.
pub fn resolve(ambient: Option<Opts>, call: Opts) -> (r: AllOpts)
    ensures
        is_resolution(ambient, call, r),
{
    let base = AllOpts::default();
    let base = match ambient {
        Some(a) => base.overwrite_with(a),
        None => base,
    };
    base.overwrite_with(call)
}

/// Law: resolution precedence, per field — the call-site layer wins where
/// it defines the field, else the ambient layer where it defines it, else
/// the built-in default; layers never mix within one field.
pub proof fn lemma_resolution_precedence<T>(dflt: T, amb: Option<T>, call: Option<T>)
    ensures
        call is Some ==> layered(dflt, amb, call) == call->0,
        call is None && amb is Some ==> layered(dflt, amb, call) == amb->0,
        call is None && amb is None ==> layered(dflt, amb, call) == dflt,
{
}

/// Law: resolution precedence at the resolved configuration, with an
/// ambient layer present — every field equals the call-site value where the
/// call site defines it, else the ambient value where the ambient layer
/// defines it, else the built-in default.
pub proof fn lemma_resolution_field_precedence(ambient: Opts, call: Opts, r: AllOpts)
    requires
        is_resolution(Some(ambient), call, r),
    ensures
        r.padding == layered(0i64, ambient.padding, call.padding),
        r.border_radius == layered(5i64, ambient.border_radius, call.border_radius),
        r.side == layered(Side::Top, ambient.side, call.side),
        r.show_on == layered(ShowOn::Hover, ambient.show_on, call.show_on),
        r.container == layered(None, ambient.container, call.container),
        r.container_padding_top == layered(
            0i64,
            ambient.container_padding_top,
            call.container_padding_top,
        ),
        r.container_padding_bottom == layered(
            0i64,
            ambient.container_padding_bottom,
            call.container_padding_bottom,
        ),
        r.container_padding_left == layered(
            0i64,
            ambient.container_padding_left,
            call.container_padding_left,
        ),
        r.container_padding_right == layered(
            0i64,
            ambient.container_padding_right,
            call.container_padding_right,
        ),
        call.class is Some ==> r.class == call.class->0,
        call.class is None && ambient.class is Some ==> r.class == ambient.class->0,
        call.class is None && ambient.class is None ==> r.class@ == ""@,
        call.arrow is Some ==> r.arrow == call.arrow->0,
        call.arrow is None && ambient.arrow is Some ==> r.arrow == ambient.arrow->0,
        call.arrow is None && ambient.arrow is None ==> (r.arrow matches Some(s) && s@
            == default_arrow_markup()),
{
}

/// Two resolved configurations agree on every field, string content
/// compared character by character.
pub open spec fn all_opts_agree(a: AllOpts, b: AllOpts) -> bool {
    &&& a.padding == b.padding
    &&& a.side == b.side
    &&& a.show_on == b.show_on
    &&& a.border_radius == b.border_radius
    &&& a.class@ == b.class@
    &&& (match (a.arrow, b.arrow) {
        (Some(x), Some(y)) => x@ == y@,
        (None, None) => true,
        _ => false,
    })
    &&& a.container == b.container
    &&& a.container_padding_top == b.container_padding_top
    &&& a.container_padding_bottom == b.container_padding_bottom
    &&& a.container_padding_left == b.container_padding_left
    &&& a.container_padding_right == b.container_padding_right
}

/// Law: resolution is deterministic, hence idempotent — any two resolutions
/// of the same inputs agree on every field.
pub proof fn lemma_resolve_idempotent(ambient: Option<Opts>, call: Opts, r1: AllOpts, r2: AllOpts)
    requires
        is_resolution(ambient, call, r1),
        is_resolution(ambient, call, r2),
    ensures
        all_opts_agree(r1, r2),
{
}

} // verus!
