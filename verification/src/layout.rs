//! The layout node catalog this subsystem instantiates into: content stacks,
//! padding wrappers, fixed-size wrappers, background fill wrappers and image
//! nodes, together with a ghost mirror of the tree for contracts, and the
//! layout flow that realized nodes are pushed into.

use vstd::prelude::*;

use crate::geom::Linear;
use crate::geom::Paint;
use crate::geom::Ratio;
use crate::geom::Sides;

verus! {

/// The nested declarative content passed to a shape call, as an opaque
/// markup payload. Its evaluation into laid-out text is outside this
/// subsystem; here only identity and emptiness matter.
#[derive(Clone, PartialEq, Eq, Debug)]
pub struct Content {
    pub markup: Vec<u8>,
}

impl Content {
    /// The empty content value, used when a shape call omits its body.
    pub fn new() -> (c: Content)
        ensures
            c.markup@ == Seq::<u8>::empty(),
    {
        Content { markup: Vec::new() }
    }
}

impl Default for Content {
    /// The default content is empty.
    fn default() -> (c: Content)
        ensures
            c.markup@ == Seq::<u8>::empty(),
    {
        Content { markup: Vec::new() }
    }
}

/// The shape painted by a background node.
#[derive(Clone, Copy, PartialEq, Eq, Structural, Debug)]
pub enum BackgroundShape {
    Rect,
    Ellipse,
}

/// A renderable layout node tree.
#[derive(PartialEq, Eq, Debug)]
pub enum LayoutNode {
    /// Content laid out as a single block, optionally under a forced aspect
    /// ratio (height divided by width).
    Stack { content: Content, aspect: Option<Ratio> },
    /// Applies padding around exactly one child.
    Pad { padding: Sides, child: Box<LayoutNode> },
    /// Resolves or clamps exactly one child to explicit width and/or height;
    /// an absent dimension is sized by content and container rules.
    Fixed { width: Option<Linear>, height: Option<Linear>, child: Box<LayoutNode> },
    /// Paints a fill shape behind exactly one child.
    Background { shape: BackgroundShape, fill: Paint, child: Box<LayoutNode> },
    /// References a loaded image resource by its handle, with optional
    /// explicit width and height.
    Image { id: usize, width: Option<Linear>, height: Option<Linear> },
}

/// The mathematical mirror of a [`LayoutNode`] tree: content appears as a
/// byte sequence, everything else structurally.
pub ghost enum NodeView {
    Stack { content: Seq<u8>, aspect: Option<Ratio> },
    Pad { padding: Sides, child: Box<NodeView> },
    Fixed { width: Option<Linear>, height: Option<Linear>, child: Box<NodeView> },
    Background { shape: BackgroundShape, fill: Paint, child: Box<NodeView> },
    Image { id: usize, width: Option<Linear>, height: Option<Linear> },
}

/// The ghost mirror of a layout node tree.
pub open spec fn node_view(n: &LayoutNode) -> NodeView
    decreases n,
{
    match n {
        LayoutNode::Stack { content, aspect } => NodeView::Stack {
            content: content.markup@,
            aspect: *aspect,
        },
        LayoutNode::Pad { padding, child } => NodeView::Pad {
            padding: *padding,
            child: Box::new(node_view(child)),
        },
        LayoutNode::Fixed { width, height, child } => NodeView::Fixed {
            width: *width,
            height: *height,
            child: Box::new(node_view(child)),
        },
        LayoutNode::Background { shape, fill, child } => NodeView::Background {
            shape: *shape,
            fill: *fill,
            child: Box::new(node_view(child)),
        },
        LayoutNode::Image { id, width, height } => NodeView::Image {
            id: *id,
            width: *width,
            height: *height,
        },
    }
}

/// How many padding wrappers a node tree holds.
pub open spec fn pad_count(n: NodeView) -> nat
    decreases n,
{
    match n {
        NodeView::Stack { .. } => 0,
        NodeView::Pad { child, .. } => 1 + pad_count(*child),
        NodeView::Fixed { child, .. } => pad_count(*child),
        NodeView::Background { child, .. } => pad_count(*child),
        NodeView::Image { .. } => 0,
    }
}

/// How many background wrappers a node tree holds.
pub open spec fn background_count(n: NodeView) -> nat
    decreases n,
{
    match n {
        NodeView::Stack { .. } => 0,
        NodeView::Pad { child, .. } => background_count(*child),
        NodeView::Fixed { child, .. } => background_count(*child),
        NodeView::Background { child, .. } => 1 + background_count(*child),
        NodeView::Image { .. } => 0,
    }
}

/// The enclosing block or paragraph flow that finished nodes are pushed
/// into, in the exact call order of the element expressions.
pub struct Flow {
    pub nodes: Vec<LayoutNode>,
}

/// The ghost mirror of a flow: the views of its nodes, in push order.
pub open spec fn flow_view(f: &Flow) -> Seq<NodeView> {
    f.nodes@.map_values(|n: LayoutNode| node_view(&n))
}

impl Flow {
    /// An empty flow.
    pub fn new() -> (f: Flow)
        ensures
            flow_view(&f) == Seq::<NodeView>::empty(),
    {
        let f = Flow { nodes: Vec::new() };
        proof {
            assert(flow_view(&f) =~= Seq::<NodeView>::empty());
        }
        f
    }

    /// Pushes one node onto the end of the flow; nothing else changes.
    pub fn push(&mut self, node: LayoutNode)
        ensures
            flow_view(final(self)) == flow_view(old(self)).push(node_view(&node)),
    {
        let ghost prior = flow_view(self);
        let ghost nv = node_view(&node);
        self.nodes.push(node);
        proof {
            assert(flow_view(self) =~= prior.push(nv));
        }
    }
}

} // verus!
