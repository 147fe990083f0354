//! Shape-family entry points and the node composer.
//!
//! Each entry point (`rect`, `square`, `ellipse`, `circle`) reconciles its
//! partially-specified sizing parameters into a shape descriptor: a pure
//! value capturing the resolved size, the optional forced aspect, the
//! optional fill, and the body content. Construction of the node tree is
//! deferred: [`realize`] turns a descriptor into the finished tree once the
//! surrounding layout flow is available, and pushes exactly one node.

use vstd::prelude::*;

use crate::geom::Color;
use crate::geom::Length;
use crate::geom::Linear;
use crate::geom::Paint;
use crate::geom::Ratio;
use crate::geom::Relative;
use crate::geom::Sides;
use crate::layout::BackgroundShape;
use crate::layout::Content;
use crate::layout::Flow;
use crate::layout::LayoutNode;
use crate::layout::NodeView;
use crate::layout::background_count;
use crate::layout::flow_view;
use crate::layout::node_view;
use crate::layout::pad_count;

verus! {

/// The two shape families: rectangles and squares are rectangular, ellipses
/// and circles are elliptical.
#[derive(Clone, Copy, PartialEq, Eq, Structural, Debug)]
pub enum ShapeFamily {
    Rectangular,
    Elliptical,
}

/// The uniform padding of the elliptical family, as parts per million of the
/// containing box: the nearest such fraction to `1/2 - sqrt(2)/4`, the
/// margin on each side of the largest axis-aligned square inscribed in a
/// unit circle. Padding the content by this fraction on all four sides
/// guarantees a rectangular content block touches, but never crosses, the
/// inscribing ellipse boundary. See [`lemma_ellipse_pad_ppm_nearest`].
pub const ELLIPSE_PAD_PPM: i64 = 146447;

/// The deferred construction: a pure descriptor capturing everything a shape
/// call resolved, realized into a node tree later by [`realize`].
#[derive(PartialEq, Eq, Debug)]
pub struct ShapeDescriptor {
    pub family: ShapeFamily,
    pub width: Option<Linear>,
    pub height: Option<Linear>,
    pub aspect: Option<Ratio>,
    pub fill: Option<Color>,
    pub body: Content,
}

/// The mathematical mirror of a shape descriptor: body content appears as a
/// byte sequence, everything else structurally.
pub ghost struct DescView {
    pub family: ShapeFamily,
    pub width: Option<Linear>,
    pub height: Option<Linear>,
    pub aspect: Option<Ratio>,
    pub fill: Option<Color>,
    pub body: Seq<u8>,
}

/// The ghost mirror of a shape descriptor.
pub open spec fn desc_view(d: &ShapeDescriptor) -> DescView {
    DescView {
        family: d.family,
        width: d.width,
        height: d.height,
        aspect: d.aspect,
        fill: d.fill,
        body: d.body.markup@,
    }
}

/// The ghost mirror of an optional body argument.
pub open spec fn opt_content_view(b: Option<Content>) -> Option<Seq<u8>> {
    match b {
        Some(c) => Some(c.markup@),
        None => None,
    }
}

/// An omitted body behaves as empty content.
pub open spec fn spec_body(body: Option<Seq<u8>>) -> Seq<u8> {
    match body {
        Some(b) => b,
        None => Seq::<u8>::empty(),
    }
}

/// The first present candidate of an ordered precedence list, if any.
pub open spec fn spec_first_defined(s: Seq<Option<Linear>>) -> Option<Linear>
    decreases s.len(),
{
    if s.len() == 0 {
        None
    } else if s[0] is Some {
        s[0]
    } else {
        spec_first_defined(s.drop_first())
    }
}

/// If every candidate before position `i` is absent and the candidate at `i`
/// is present, the precedence list resolves to the candidate at `i`.
proof fn lemma_first_defined_at(s: Seq<Option<Linear>>, i: int)
    requires
        0 <= i < s.len(),
        forall|j: int| 0 <= j < i ==> s[j] is None,
        s[i] is Some,
    ensures
        spec_first_defined(s) == s[i],
    decreases i,
{
    if i > 0 {
        lemma_first_defined_at(s.drop_first(), i - 1);
    }
}

/// If every candidate is absent, the precedence list resolves to nothing.
proof fn lemma_first_defined_none(s: Seq<Option<Linear>>)
    requires
        forall|j: int| 0 <= j < s.len() ==> s[j] is None,
    ensures
        spec_first_defined(s) is None,
    decreases s.len(),
{
    if s.len() > 0 {
        lemma_first_defined_none(s.drop_first());
    }
}

/// The precedence table of the sizing resolver: an ordered list of candidate
/// sizes, evaluated top to bottom; the first present one wins.
pub fn first_defined(candidates: &Vec<Option<Linear>>) -> (r: Option<Linear>)
    ensures
        r == spec_first_defined(candidates@),
{
    let mut i: usize = 0;
    while i < candidates.len()
        invariant
            0 <= i <= candidates@.len(),
            forall|j: int| 0 <= j < i ==> candidates@[j] is None,
        decreases candidates@.len() - i,
    {
        if candidates[i].is_some() {
            proof {
                lemma_first_defined_at(candidates@, i as int);
            }
            return candidates[i];
        }
        i = i + 1;
    }
    proof {
        lemma_first_defined_none(candidates@);
    }
    None
}

/// What `rect` resolves from its arguments: width and height independently
/// optional, no forced aspect, rectangular family.
pub open spec fn spec_rect(
    width: Option<Linear>,
    height: Option<Linear>,
    fill: Option<Color>,
    body: Option<Seq<u8>>,
) -> DescView {
    DescView {
        family: ShapeFamily::Rectangular,
        width,
        height,
        aspect: None,
        fill,
        body: spec_body(body),
    }
}

/// What `ellipse` resolves from its arguments: width and height
/// independently optional, no forced aspect, elliptical family.
pub open spec fn spec_ellipse(
    width: Option<Linear>,
    height: Option<Linear>,
    fill: Option<Color>,
    body: Option<Seq<u8>>,
) -> DescView {
    DescView {
        family: ShapeFamily::Elliptical,
        width,
        height,
        aspect: None,
        fill,
        body: spec_body(body),
    }
}

/// The square precedence table: an explicit length first, else the width.
pub open spec fn spec_square_candidates(
    length: Option<Length>,
    width: Option<Linear>,
) -> Seq<Option<Linear>> {
    seq![
        match length {
            Some(l) => Some(Linear::spec_from_length(l)),
            None => None,
        },
        width,
    ]
}

/// What `square` resolves from its arguments: the controlling dimension
/// comes from `length`, else `width`; `height` is read only when neither
/// resolved, and is then the sole populated dimension. Forced aspect 1:1.
pub open spec fn spec_square(
    length: Option<Length>,
    width: Option<Linear>,
    height: Option<Linear>,
    fill: Option<Color>,
    body: Option<Seq<u8>>,
) -> DescView {
    let w = spec_first_defined(spec_square_candidates(length, width));
    DescView {
        family: ShapeFamily::Rectangular,
        width: w,
        height: if w is Some { None } else { height },
        aspect: Some(Ratio::spec_one()),
        fill,
        body: spec_body(body),
    }
}

/// The circle precedence table: the doubled radius (a diameter) first, else
/// the width. The doubled radius is truncated to the machine width; the
/// `circle` entry point excludes that by its precondition.
pub open spec fn spec_circle_candidates(
    radius: Option<Length>,
    width: Option<Linear>,
) -> Seq<Option<Linear>> {
    seq![
        match radius {
            Some(r) => Some(Linear { abs: (2 * r.units) as i64, rel_ppm: 0 }),
            None => None,
        },
        width,
    ]
}

/// What `circle` resolves from its arguments: the controlling dimension
/// comes from `radius` (doubled into a diameter), else `width`; `height` is
/// read only when neither resolved. Forced aspect 1:1.
pub open spec fn spec_circle(
    radius: Option<Length>,
    width: Option<Linear>,
    height: Option<Linear>,
    fill: Option<Color>,
    body: Option<Seq<u8>>,
) -> DescView {
    let w = spec_first_defined(spec_circle_candidates(radius, width));
    DescView {
        family: ShapeFamily::Elliptical,
        width: w,
        height: if w is Some { None } else { height },
        aspect: Some(Ratio::spec_one()),
        fill,
        body: spec_body(body),
    }
}

/// Defaults an omitted body to empty content.
fn body_or_empty(body: Option<Content>) -> (c: Content)
    ensures
        c.markup@ == spec_body(opt_content_view(body)),
{
    match body {
        Some(c) => c,
        None => Content::new(),
    }
}

/// `rect`: a rectangle with optional content.
pub fn rect(
    width: Option<Linear>,
    height: Option<Linear>,
    fill: Option<Color>,
    body: Option<Content>,
) -> (d: ShapeDescriptor)
    ensures
        desc_view(&d) == spec_rect(width, height, fill, opt_content_view(body)),
{
    let b = body_or_empty(body);
    rect_impl(width, height, None, fill, b)
}

/// `square`: a square with optional content. A `length` argument takes
/// precedence over `width`; `height` is consulted only when both are absent.
pub fn square(
    length: Option<Length>,
    width: Option<Linear>,
    height: Option<Linear>,
    fill: Option<Color>,
    body: Option<Content>,
) -> (d: ShapeDescriptor)
    ensures
        desc_view(&d) == spec_square(length, width, height, fill, opt_content_view(body)),
{
    let mut candidates: Vec<Option<Linear>> = Vec::new();
    candidates.push(
        match length {
            Some(l) => Some(Linear::from_length(l)),
            None => None,
        },
    );
    candidates.push(width);
    proof {
        assert(candidates@ =~= spec_square_candidates(length, width));
    }
    let w = first_defined(&candidates);
    let h = if w.is_some() {
        None
    } else {
        height
    };
    let b = body_or_empty(body);
    rect_impl(w, h, Some(Ratio::one()), fill, b)
}

/// `ellipse`: an ellipse with optional content.
pub fn ellipse(
    width: Option<Linear>,
    height: Option<Linear>,
    fill: Option<Color>,
    body: Option<Content>,
) -> (d: ShapeDescriptor)
    ensures
        desc_view(&d) == spec_ellipse(width, height, fill, opt_content_view(body)),
{
    let b = body_or_empty(body);
    ellipse_impl(width, height, None, fill, b)
}

/// `circle`: a circle with optional content. A `radius` argument, doubled
/// into a diameter, takes precedence over `width`; `height` is consulted
/// only when both are absent. The precondition keeps the doubled radius
/// within the machine integer width.
pub fn circle(
    radius: Option<Length>,
    width: Option<Linear>,
    height: Option<Linear>,
    fill: Option<Color>,
    body: Option<Content>,
) -> (d: ShapeDescriptor)
    requires
        radius matches Some(r) ==> -0x4000_0000_0000_0000 <= r.units
            < 0x4000_0000_0000_0000,
    ensures
        desc_view(&d) == spec_circle(radius, width, height, fill, opt_content_view(body)),
{
    let mut candidates: Vec<Option<Linear>> = Vec::new();
    candidates.push(
        match radius {
            Some(r) => Some(Linear { abs: 2 * r.units, rel_ppm: 0 }),
            None => None,
        },
    );
    candidates.push(width);
    proof {
        assert(candidates@ =~= spec_circle_candidates(radius, width));
    }
    let w = first_defined(&candidates);
    let h = if w.is_some() {
        None
    } else {
        height
    };
    let b = body_or_empty(body);
    ellipse_impl(w, h, Some(Ratio::one()), fill, b)
}

/// Builds the rectangular-family descriptor from resolved parameters.
pub fn rect_impl(
    width: Option<Linear>,
    height: Option<Linear>,
    aspect: Option<Ratio>,
    fill: Option<Color>,
    body: Content,
) -> (d: ShapeDescriptor)
    ensures
        desc_view(&d) == (DescView {
            family: ShapeFamily::Rectangular,
            width,
            height,
            aspect,
            fill,
            body: body.markup@,
        }),
{
    ShapeDescriptor { family: ShapeFamily::Rectangular, width, height, aspect, fill, body }
}

/// Builds the elliptical-family descriptor from resolved parameters.
pub fn ellipse_impl(
    width: Option<Linear>,
    height: Option<Linear>,
    aspect: Option<Ratio>,
    fill: Option<Color>,
    body: Content,
) -> (d: ShapeDescriptor)
    ensures
        desc_view(&d) == (DescView {
            family: ShapeFamily::Elliptical,
            width,
            height,
            aspect,
            fill,
            body: body.markup@,
        }),
{
    ShapeDescriptor { family: ShapeFamily::Elliptical, width, height, aspect, fill, body }
}

/// The background shape painted for each family.
pub open spec fn spec_background_shape(family: ShapeFamily) -> BackgroundShape {
    match family {
        ShapeFamily::Rectangular => BackgroundShape::Rect,
        ShapeFamily::Elliptical => BackgroundShape::Ellipse,
    }
}

/// The elliptical family's uniform padding as a linear value: a pure
/// relative fraction of the containing box.
pub open spec fn spec_ellipse_padding() -> Linear {
    Linear::spec_from_relative(Relative { ppm: ELLIPSE_PAD_PPM })
}

/// The content stack a descriptor evaluates its body into, carrying the
/// forced aspect.
pub open spec fn spec_stack(d: DescView) -> NodeView {
    NodeView::Stack { content: d.body, aspect: d.aspect }
}

/// The stack, wrapped in the inscribing padding for the elliptical family;
/// the rectangular family skips the wrap entirely.
pub open spec fn spec_padded(d: DescView) -> NodeView {
    match d.family {
        ShapeFamily::Elliptical => NodeView::Pad {
            padding: Sides::spec_splat(spec_ellipse_padding()),
            child: Box::new(spec_stack(d)),
        },
        ShapeFamily::Rectangular => spec_stack(d),
    }
}

/// The fixed-size wrapper carrying the resolved width and height around the
/// (possibly padded) stack.
pub open spec fn spec_fixed(d: DescView) -> NodeView {
    NodeView::Fixed { width: d.width, height: d.height, child: Box::new(spec_padded(d)) }
}

/// The finished tree: the fixed-size node, wrapped in exactly one background
/// node when a fill is present, and nothing more when it is absent.
pub open spec fn spec_realize(d: DescView) -> NodeView {
    match d.fill {
        Some(color) => NodeView::Background {
            shape: spec_background_shape(d.family),
            fill: Paint::Color(color),
            child: Box::new(spec_fixed(d)),
        },
        None => spec_fixed(d),
    }
}

/// Executes the deferred construction: evaluates the body into a content
/// stack, applies the elliptical family's inscribing padding, wraps the
/// result in a fixed-size node, and wraps that in a background node exactly
/// when a fill is present.
pub fn realize(desc: ShapeDescriptor) -> (node: LayoutNode)
    ensures
        node_view(&node) == spec_realize(desc_view(&desc)),
{
    let ghost dv = desc_view(&desc);
    let ShapeDescriptor { family, width, height, aspect, fill, body } = desc;

    let stack = LayoutNode::Stack { content: body, aspect };
    proof {
        assert(node_view(&stack) == spec_stack(dv));
    }

    let inner = match family {
        ShapeFamily::Elliptical => LayoutNode::Pad {
            padding: Sides::splat(Linear::from_relative(Relative { ppm: ELLIPSE_PAD_PPM })),
            child: Box::new(stack),
        },
        ShapeFamily::Rectangular => stack,
    };
    proof {
        assert(node_view(&inner) == spec_padded(dv));
    }

    let fixed = LayoutNode::Fixed { width, height, child: Box::new(inner) };
    proof {
        assert(node_view(&fixed) == spec_fixed(dv));
    }

    match fill {
        Some(color) => {
            let shape = match family {
                ShapeFamily::Rectangular => BackgroundShape::Rect,
                ShapeFamily::Elliptical => BackgroundShape::Ellipse,
            };
            let node = LayoutNode::Background {
                shape,
                fill: Paint::Color(color),
                child: Box::new(fixed),
            };
            proof {
                assert(node_view(&node) == spec_realize(dv));
            }
            node
        },
        None => fixed,
    }
}

/// For every rectangular-family descriptor with no fill, the realized tree
/// is exactly a fixed-size node wrapping the content stack: no background
/// wrapper and no padding wrapper anywhere in the tree.
pub proof fn lemma_rect_family_unfilled_tree(d: DescView)
    requires
        d.family is Rectangular,
        d.fill is None,
    ensures
        spec_realize(d) == (NodeView::Fixed {
            width: d.width,
            height: d.height,
            child: Box::new(NodeView::Stack { content: d.body, aspect: d.aspect }),
        }),
        pad_count(spec_realize(d)) == 0,
        background_count(spec_realize(d)) == 0,
{
    assert(pad_count(spec_stack(d)) == 0);
    assert(background_count(spec_stack(d)) == 0);
}

/// For every elliptical-family descriptor, the realized tree holds exactly
/// one padding wrapper; it pads all four sides by the inscribing fraction,
/// a pure relative value, and stands strictly between the content stack and
/// the fixed-size node.
pub proof fn lemma_ellipse_family_padded_tree(d: DescView)
    requires
        d.family is Elliptical,
    ensures
        spec_fixed(d) == (NodeView::Fixed {
            width: d.width,
            height: d.height,
            child: Box::new(NodeView::Pad {
                padding: Sides::spec_splat(spec_ellipse_padding()),
                child: Box::new(NodeView::Stack { content: d.body, aspect: d.aspect }),
            }),
        }),
        spec_ellipse_padding() == (Linear { abs: 0, rel_ppm: ELLIPSE_PAD_PPM }),
        pad_count(spec_realize(d)) == 1,
{
    assert(pad_count(spec_stack(d)) == 0);
    assert(pad_count(spec_padded(d)) == 1);
    assert(pad_count(spec_fixed(d)) == 1);
}

/// For every descriptor with a fill, the outermost realized node is a
/// background node tagged with the family's shape kind, painting the fill as
/// a flat color, with the fixed-size node as its single child; the tree
/// holds exactly one background wrapper.
pub proof fn lemma_fill_background_tree(d: DescView)
    requires
        d.fill is Some,
    ensures
        spec_realize(d) == (NodeView::Background {
            shape: spec_background_shape(d.family),
            fill: Paint::Color(d.fill->0),
            child: Box::new(spec_fixed(d)),
        }),
        background_count(spec_realize(d)) == 1,
{
    assert(background_count(spec_stack(d)) == 0);
    assert(background_count(spec_padded(d)) == 0);
    assert(background_count(spec_fixed(d)) == 0);
}

/// For every descriptor without a fill, the fixed-size node itself is the
/// finished tree: no background node is created.
pub proof fn lemma_no_fill_no_background(d: DescView)
    requires
        d.fill is None,
    ensures
        spec_realize(d) == spec_fixed(d),
        background_count(spec_realize(d)) == 0,
{
    assert(background_count(spec_stack(d)) == 0);
    assert(background_count(spec_padded(d)) == 0);
}

/// `square` with an explicit length and `square` with the same value as an
/// explicit width resolve identically: forced aspect 1:1, width from the
/// argument, height unset.
pub proof fn lemma_square_length_width_agree(l: Length, fill: Option<Color>, body: Option<
    Seq<u8>,
>)
    ensures
        spec_square(Some(l), None, None, fill, body) == spec_square(
            None,
            Some(Linear::spec_from_length(l)),
            None,
            fill,
            body,
        ),
        spec_square(Some(l), None, None, fill, body).width == Some(Linear::spec_from_length(l)),
        spec_square(Some(l), None, None, fill, body).height is None,
        spec_square(Some(l), None, None, fill, body).aspect == Some(Ratio::spec_one()),
{
    reveal_with_fuel(spec_first_defined, 3);
}

/// Supplying both width and height to `square` resolves to the width alone:
/// under the forced aspect the height is silently unused, never an error.
pub proof fn lemma_square_height_ignored(
    w: Linear,
    h: Linear,
    fill: Option<Color>,
    body: Option<Seq<u8>>,
)
    ensures
        spec_square(None, Some(w), Some(h), fill, body).width == Some(w),
        spec_square(None, Some(w), Some(h), fill, body).height is None,
        spec_square(None, Some(w), Some(h), fill, body).aspect == Some(Ratio::spec_one()),
{
    reveal_with_fuel(spec_first_defined, 3);
    assert(spec_square_candidates(None, Some(w)).drop_first() =~= seq![Some(w)]);
}

/// `circle` with an explicit radius resolves to a width of twice the radius
/// as a linear value, height unset, forced aspect 1:1. The bound keeps the
/// doubled radius exact in the machine integer width.
pub proof fn lemma_circle_radius(r: Length, fill: Option<Color>, body: Option<Seq<u8>>)
    requires
        -0x4000_0000_0000_0000 <= r.units < 0x4000_0000_0000_0000,
    ensures
        spec_circle(Some(r), None, None, fill, body).width == Some(
            Linear { abs: (2 * r.units) as i64, rel_ppm: 0 },
        ),
        (2 * r.units) as i64 == 2 * r.units,
        spec_circle(Some(r), None, None, fill, body).height is None,
        spec_circle(Some(r), None, None, fill, body).aspect == Some(Ratio::spec_one()),
{
    reveal_with_fuel(spec_first_defined, 3);
}

/// Omitting the body behaves identically to passing empty content, for every
/// shape entry point: the resolved descriptors are equal, and since the
/// realized tree is a function of the descriptor alone, so are the trees.
pub proof fn lemma_omitted_body_is_empty(
    length: Option<Length>,
    radius: Option<Length>,
    width: Option<Linear>,
    height: Option<Linear>,
    fill: Option<Color>,
)
    ensures
        spec_rect(width, height, fill, None) == spec_rect(
            width,
            height,
            fill,
            Some(Seq::<u8>::empty()),
        ),
        spec_square(length, width, height, fill, None) == spec_square(
            length,
            width,
            height,
            fill,
            Some(Seq::<u8>::empty()),
        ),
        spec_ellipse(width, height, fill, None) == spec_ellipse(
            width,
            height,
            fill,
            Some(Seq::<u8>::empty()),
        ),
        spec_circle(radius, width, height, fill, None) == spec_circle(
            radius,
            width,
            height,
            fill,
            Some(Seq::<u8>::empty()),
        ),
{
}

/// For the aspect-forcing families, at most one dimension is ever populated
/// from explicit input: aspect forcing and explicit both-dimension sizing
/// are mutually exclusive by construction, never by a runtime check.
pub proof fn lemma_forced_aspect_single_dimension(
    length: Option<Length>,
    radius: Option<Length>,
    width: Option<Linear>,
    height: Option<Linear>,
    fill: Option<Color>,
    body: Option<Seq<u8>>,
)
    ensures
        !(spec_square(length, width, height, fill, body).width is Some && spec_square(
            length,
            width,
            height,
            fill,
            body,
        ).height is Some),
        !(spec_circle(radius, width, height, fill, body).width is Some && spec_circle(
            radius,
            width,
            height,
            fill,
            body,
        ).height is Some),
{
}

/// The padding constant is the nearest parts-per-million fraction to the
/// exact inscribing margin `1/2 - sqrt(2)/4`. Writing `s` for the integer
/// part of `10^6 * sqrt(2)` (pinned by the squared bounds below to
/// `1414213`), the exact margin in quarter parts per million is
/// `q = 2 * 10^6 - 10^6 * sqrt(2)`, with `2000000 - (s + 1) < q < 2000000 - s`;
/// the two ensured inequalities place `q` strictly within `2` quarters of
/// `4 * ELLIPSE_PAD_PPM`, so the constant is within half a part per million
/// of the exact margin.
pub proof fn lemma_ellipse_pad_ppm_nearest(s: int)
    requires
        0 <= s,
        s * s <= 2000000000000,
        2000000000000 < (s + 1) * (s + 1),
    ensures
        s == 1414213,
        4 * ELLIPSE_PAD_PPM - 2 <= 2000000 - (s + 1),
        2000000 - s < 4 * ELLIPSE_PAD_PPM,
{
    if s <= 1414212 {
        assert((s + 1) * (s + 1) <= 1414213 * 1414213) by (nonlinear_arith)
            requires
                0 <= s,
                s <= 1414212,
        ;
        assert(false);
    }
    if s >= 1414214 {
        assert(s * s >= 1414214 * 1414214) by (nonlinear_arith)
            requires
                s >= 1414214,
        ;
        assert(false);
    }
}

/// Realizes a descriptor and pushes the finished tree into the enclosing
/// flow: the deferred construction's single side effect, performed exactly
/// once, in call order.
pub fn realize_into(flow: &mut Flow, desc: ShapeDescriptor)
    ensures
        flow_view(final(flow)) == flow_view(old(flow)).push(spec_realize(desc_view(&desc))),
{
    let node = realize(desc);
    flow.push(node);
}

} // verus!
