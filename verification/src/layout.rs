//! The layout pass: one walk over the tree that resolves percentages against the
//! parent on the way down and sizes automatic shapes from their children on the
//! way up.
//!
//! Texts are measured by a service outside of this library. The pass takes the
//! replies obtained so far, one for each text in document order, and stops at the
//! first text that has none, with the request to make. The caller obtains the reply
//! and starts the pass again on an unresolved copy of the tree.

use vstd::prelude::*;
use crate::dimension::Padding;
use crate::draw::text_options;
use crate::matrix::{BoundingBox, TransformMatrix};
use crate::node::{Node, NodeView, node_views};
use crate::shape::{
    Circle, Rect, Shape, ShapeView, Text, TextReply, TextReplyView, TextRequest, TextRequestView,
};
use crate::shape::text::{copy_glyphs, reply_views};
use crate::style::{Clip, ShapeDefaults};

verus! {

/// Why a layout pass stopped before the tree was resolved.
#[derive(Clone, Debug, PartialEq)]
pub enum LayoutStop {
    /// A text has no reply yet: this is what to ask the shaping service.
    Measure(TextRequest),
    /// The shaping service knows no font of this name.
    FontNotFound(String),
}

/// A stop with its strings as sequences of characters.
pub enum LayoutStopView {
    Measure(TextRequestView),
    FontNotFound(Seq<char>),
}

impl View for LayoutStop {
    type V = LayoutStopView;

    open spec fn view(&self) -> LayoutStopView {
        match *self {
            LayoutStop::Measure(request) => LayoutStopView::Measure(request@),
            LayoutStop::FontNotFound(name) => LayoutStopView::FontNotFound(name@),
        }
    }
}

/// What the top-down step hands to the children of a shape.
#[derive(Clone, Copy, Debug, PartialEq)]
pub struct Descent {
    /// The bound that the children resolve their percentages against.
    pub bound: BoundingBox,
    /// The global matrix that the children compose theirs with.
    pub global: TransformMatrix,
    /// The defaults that hold for the children.
    pub defaults: ShapeDefaults,
    /// The index of the reply for the next text.
    pub next: usize,
}

/// What the top-down step hands to the children of a shape, in a specification.
pub struct DescentView {
    pub bound: BoundingBox,
    pub global: TransformMatrix,
    pub defaults: ShapeDefaults,
    pub next: nat,
}

impl View for Descent {
    type V = DescentView;

    open spec fn view(&self) -> DescentView {
        DescentView { bound: self.bound, global: self.global, defaults: self.defaults, next: self.next as nat }
    }
}

/// The shape after the top-down step, and how the pass goes on.
pub struct TopDown {
    pub shape: ShapeView,
    pub outcome: Result<DescentView, LayoutStopView>,
}

/// The children after a pass over the first of them, and how the pass goes on: with
/// the bounds of those children and the index of the next reply, or with a stop.
pub struct ChildrenLaid {
    pub nodes: Seq<NodeView>,
    pub outcome: Result<(Seq<BoundingBox>, nat), LayoutStopView>,
}

/// A node after the pass, and how the pass ended: with the bound of the node and the
/// index of the next reply, or with a stop.
pub struct Laid {
    pub node: NodeView,
    pub outcome: Result<(BoundingBox, nat), LayoutStopView>,
}

/// The view of what a step of the pass returns.
pub open spec fn descent_view(r: Result<Descent, LayoutStop>) -> Result<DescentView, LayoutStopView> {
    match r {
        Ok(d) => Ok(d@),
        Err(e) => Err(e@),
    }
}

/// The view of what a pass over a node returns.
pub open spec fn outcome_view(r: Result<(BoundingBox, usize), LayoutStop>) -> Result<
    (BoundingBox, nat),
    LayoutStopView,
> {
    match r {
        Ok((bound, next)) => Ok((bound, next as nat)),
        Err(e) => Err(e@),
    }
}

/// The top-down step on a text that was placed already: the text takes the measures
/// of the reply with index `next`. Without such a reply the pass stops with the
/// request to make, and on a reply that the font is missing it stops with the error.
pub open spec fn shape_text(
    placed: crate::shape::TextView,
    global: TransformMatrix,
    defaults: ShapeDefaults,
    replies: Seq<TextReplyView>,
    next: nat,
) -> TopDown {
    if next >= replies.len() {
        TopDown { shape: ShapeView::Text(placed), outcome: Err(LayoutStopView::Measure(placed.request(defaults))) }
    } else {
        match replies[next as int] {
            TextReplyView::FontNotFound => TopDown {
                shape: ShapeView::Text(placed),
                outcome: Err(LayoutStopView::FontNotFound(placed.font_name)),
            },
            TextReplyView::Shaped { metrics, glyphs } => {
                let shaped = placed.shaped(metrics, glyphs);
                TopDown {
                    shape: ShapeView::Text(shaped),
                    outcome: Ok(DescentView { bound: shaped.bound(), global, defaults, next: next + 1 }),
                }
            },
        }
    }
}

/// The top-down step on one shape under a parent with the given bound, global
/// matrix and defaults.
///
/// A rectangle or a circle hands its own box to its children, and its global matrix
/// moved by its padding. A text hands on its own box. A path, a group and a word
/// hand on the bound of the parent; a group also replaces, in the defaults for its
/// descendants, each value that it sets.
pub open spec fn top_down(
    shape: ShapeView,
    parent_bound: BoundingBox,
    parent_global: TransformMatrix,
    defaults: ShapeDefaults,
    replies: Seq<TextReplyView>,
    next: nat,
) -> TopDown {
    match shape {
        ShapeView::Rect(rect) => {
            let placed = rect.placed(parent_bound, parent_global);
            TopDown {
                shape: ShapeView::Rect(placed),
                outcome: Ok(
                    DescentView { bound: placed.bound(), global: placed.content_global(), defaults, next },
                ),
            }
        },
        ShapeView::Circle(circle) => {
            let placed = circle.placed(parent_bound, parent_global);
            TopDown {
                shape: ShapeView::Circle(placed),
                outcome: Ok(
                    DescentView { bound: placed.bound(), global: placed.content_global(), defaults, next },
                ),
            }
        },
        ShapeView::Text(text) => {
            let placed = text.placed(parent_bound, parent_global);
            shape_text(placed, text.transform.global_under(parent_global), defaults, replies, next)
        },
        ShapeView::Path(path) => {
            let placed = path.placed(parent_bound.width(), parent_bound.height(), parent_global);
            TopDown {
                shape: ShapeView::Path(placed),
                outcome: Ok(
                    DescentView {
                        bound: parent_bound,
                        global: path.transform.global_under(parent_global),
                        defaults,
                        next,
                    },
                ),
            }
        },
        ShapeView::Group(group) => {
            let placed = group.placed(parent_bound.width(), parent_bound.height(), parent_global);
            TopDown {
                shape: ShapeView::Group(placed),
                outcome: Ok(
                    DescentView {
                        bound: parent_bound,
                        global: group.transform.global_under(parent_global),
                        defaults: placed.cascade(defaults),
                        next,
                    },
                ),
            }
        },
        ShapeView::Word(_) => TopDown {
            shape,
            outcome: Ok(DescentView { bound: parent_bound, global: parent_global, defaults, next }),
        },
    }
}

/// The bottom-up step on one shape: the shape with its automatic dimensions taken
/// from the box `inner` of its children, and the bound that it reports to its
/// parent. `own` is the bound that the shape handed to its children.
///
/// A rectangle or a circle reports its box after sizing, a text the box around its
/// own box and that of its children under its local matrix, a group the box of its
/// children, and a path or a word the bound it was given.
pub open spec fn bottom_up(shape: ShapeView, own: BoundingBox, inner: BoundingBox) -> (ShapeView, BoundingBox) {
    match shape {
        ShapeView::Rect(rect) => {
            let sized = rect.auto_sized(inner);
            (ShapeView::Rect(sized), sized.bound())
        },
        ShapeView::Circle(circle) => {
            let sized = circle.auto_sized(inner);
            (ShapeView::Circle(sized), sized.bound())
        },
        ShapeView::Text(text) => (shape, text.transformed_bound(own, inner)),
        ShapeView::Group(_) => (shape, inner),
        ShapeView::Path(_) | ShapeView::Word(_) => (shape, own),
    }
}

/// The pass over the first `k` children of a node, in document order. Every child
/// is laid out under the same bound, global matrix and defaults; only the index of
/// the next reply is handed from one child to the next. After a stop the children
/// that follow are left as they were.
pub open spec fn lay_children(
    children: Seq<NodeView>,
    k: nat,
    bound: BoundingBox,
    global: TransformMatrix,
    defaults: ShapeDefaults,
    replies: Seq<TextReplyView>,
    next: nat,
) -> ChildrenLaid
    decreases children, k,
{
    if k == 0 || k > children.len() {
        ChildrenLaid { nodes: children, outcome: Ok((Seq::empty(), next)) }
    } else {
        let before = lay_children(children, (k - 1) as nat, bound, global, defaults, replies, next);
        match before.outcome {
            Err(_) => before,
            Ok((bounds, at)) => {
                let child = recalc(children[k - 1], bound, global, defaults, replies, at);
                ChildrenLaid {
                    nodes: before.nodes.update(k - 1, child.node),
                    outcome: match child.outcome {
                        Ok((b, after)) => Ok((bounds.push(b), after)),
                        Err(e) => Err(e),
                    },
                }
            },
        }
    }
}

/// The pass over a node and everything below it: the top-down step on its shape,
/// the pass over its children, and the bottom-up step with the union of the bounds
/// that the children reported.
pub open spec fn recalc(
    node: NodeView,
    parent_bound: BoundingBox,
    parent_global: TransformMatrix,
    defaults: ShapeDefaults,
    replies: Seq<TextReplyView>,
    next: nat,
) -> Laid
    decreases node, 0nat,
{
    let down = top_down(node.shape, parent_bound, parent_global, defaults, replies, next);
    match down.outcome {
        Err(e) => Laid { node: NodeView { shape: down.shape, children: node.children }, outcome: Err(e) },
        Ok(descent) => {
            let below = lay_children(
                node.children,
                node.children.len(),
                descent.bound,
                descent.global,
                descent.defaults,
                replies,
                descent.next,
            );
            match below.outcome {
                Err(e) => Laid { node: NodeView { shape: down.shape, children: below.nodes }, outcome: Err(e) },
                Ok((bounds, after)) => {
                    let up = bottom_up(down.shape, descent.bound, BoundingBox::union_all(bounds));
                    Laid { node: NodeView { shape: up.0, children: below.nodes }, outcome: Ok((up.1, after)) }
                },
            }
        },
    }
}

/// The top-down step stores in every shape the global matrix that its transform
/// has under the parent, changes neither the kind nor the id of the shape, and
/// hands its children a reply index that is not below the one it was given.
pub proof fn lemma_top_down_keeps_shape(
    shape: ShapeView,
    parent_bound: BoundingBox,
    parent_global: TransformMatrix,
    defaults: ShapeDefaults,
    replies: Seq<TextReplyView>,
    next: nat,
)
    ensures
        ({
            let down = top_down(shape, parent_bound, parent_global, defaults, replies, next);
            &&& down.shape.kind() == shape.kind()
            &&& down.shape.id() == shape.id()
            &&& !(shape is Word) ==> down.shape.transform() == shape.transform().composed(parent_global)
            &&& down.outcome matches Ok(descent) ==> descent.next >= next
            &&& down.outcome matches Ok(descent) ==> (descent.next > next <==> shape is Text)
            &&& down.outcome is Err ==> shape is Text
        }),
{
}

/// The bottom-up step changes neither the kind nor the id of a shape, nor its
/// transform.
pub proof fn lemma_bottom_up_keeps_shape(shape: ShapeView, own: BoundingBox, inner: BoundingBox)
    ensures
        bottom_up(shape, own, inner).0.kind() == shape.kind(),
        bottom_up(shape, own, inner).0.id() == shape.id(),
        bottom_up(shape, own, inner).0.transform() == shape.transform(),
{
}

/// A pass over the children changes no skeleton and no number of children,
/// whether it stops or not.
pub proof fn lemma_lay_children_keeps_skeleton(
    children: Seq<NodeView>,
    k: nat,
    bound: BoundingBox,
    global: TransformMatrix,
    defaults: ShapeDefaults,
    replies: Seq<TextReplyView>,
    next: nat,
)
    ensures
        NodeView::skeletons(lay_children(children, k, bound, global, defaults, replies, next).nodes)
            == NodeView::skeletons(children),
        lay_children(children, k, bound, global, defaults, replies, next).nodes.len() == children.len(),
    decreases children, k, 0nat,
{
    let laid = lay_children(children, k, bound, global, defaults, replies, next);
    if k == 0 || k > children.len() {
    } else {
        let before = lay_children(children, (k - 1) as nat, bound, global, defaults, replies, next);
        lemma_lay_children_keeps_skeleton(children, (k - 1) as nat, bound, global, defaults, replies, next);
        match before.outcome {
            Err(_) => {},
            Ok((bounds, at)) => {
                lemma_recalc_keeps_skeleton(children[k - 1], bound, global, defaults, replies, at);
                let child = recalc(children[k - 1], bound, global, defaults, replies, at);
                assert forall|i: int| 0 <= i < children.len() implies NodeView::skeletons(laid.nodes)[i]
                    == NodeView::skeletons(children)[i] by {
                    if i != k - 1 {
                        assert(laid.nodes[i] == before.nodes[i]);
                        assert(NodeView::skeletons(before.nodes)[i] == NodeView::skeletons(children)[i]);
                    }
                }
            },
        }
        assert(NodeView::skeletons(laid.nodes) =~= NodeView::skeletons(children));
    }
}

/// A layout pass writes geometry and nothing else: whether it stops or not, the
/// tree keeps its skeleton, that is the kind and the id of every shape and the
/// children of every node.
pub proof fn lemma_recalc_keeps_skeleton(
    node: NodeView,
    parent_bound: BoundingBox,
    parent_global: TransformMatrix,
    defaults: ShapeDefaults,
    replies: Seq<TextReplyView>,
    next: nat,
)
    ensures
        recalc(node, parent_bound, parent_global, defaults, replies, next).node.skeleton() == node.skeleton(),
    decreases node, 0nat, 1nat,
{
    let down = top_down(node.shape, parent_bound, parent_global, defaults, replies, next);
    lemma_top_down_keeps_shape(node.shape, parent_bound, parent_global, defaults, replies, next);
    match down.outcome {
        Err(_) => {},
        Ok(descent) => {
            lemma_lay_children_keeps_skeleton(
                node.children,
                node.children.len(),
                descent.bound,
                descent.global,
                descent.defaults,
                replies,
                descent.next,
            );
            let below = lay_children(
                node.children,
                node.children.len(),
                descent.bound,
                descent.global,
                descent.defaults,
                replies,
                descent.next,
            );
            match below.outcome {
                Err(_) => {},
                Ok((bounds, _)) => {
                    lemma_bottom_up_keeps_shape(down.shape, descent.bound, BoundingBox::union_all(bounds));
                },
            }
        },
    }
}

/// Whether the replies from index `next` on answer `count` texts, each with its
/// measures.
pub open spec fn all_shaped(replies: Seq<TextReplyView>, next: nat, count: nat) -> bool {
    forall|i: int| next <= i < next + count ==> i < replies.len() && (#[trigger] replies[i]) is Shaped
}

/// What a pass makes of the replies, stated by counting: a pass that ends well has
/// used one reply for each text; a pass that asks for a measure has fewer replies
/// than texts; and a pass that reports a missing font was given that reply for one
/// of its texts.
pub open spec fn accounts_for(
    outcome: Result<nat, LayoutStopView>,
    replies: Seq<TextReplyView>,
    next: nat,
    count: nat,
) -> bool {
    match outcome {
        Ok(after) => after == next + count,
        Err(LayoutStopView::Measure(_)) => replies.len() < next + count,
        Err(LayoutStopView::FontNotFound(_)) => exists|i: int|
            next <= i < next + count && i < replies.len() && (#[trigger] replies[i]) is FontNotFound,
    }
}

/// The index of the next reply after a pass, where the pass ended well.
pub open spec fn reply_index<T>(outcome: Result<(T, nat), LayoutStopView>) -> Result<nat, LayoutStopView> {
    match outcome {
        Ok((_, after)) => Ok(after),
        Err(e) => Err(e),
    }
}

/// The pass over the first `k` children accounts for the replies by the number of
/// texts in those children.
pub proof fn lemma_lay_children_accounts(
    children: Seq<NodeView>,
    k: nat,
    bound: BoundingBox,
    global: TransformMatrix,
    defaults: ShapeDefaults,
    replies: Seq<TextReplyView>,
    next: nat,
)
    requires
        k <= children.len(),
    ensures
        accounts_for(
            reply_index(lay_children(children, k, bound, global, defaults, replies, next).outcome),
            replies,
            next,
            NodeView::text_count_in(children, k),
        ),
        lay_children(children, k, bound, global, defaults, replies, next).outcome matches Ok((bounds, _))
            ==> bounds.len() == k,
    decreases children, k, 0nat,
{
    if k > 0 {
        let before = lay_children(children, (k - 1) as nat, bound, global, defaults, replies, next);
        let seen = NodeView::text_count_in(children, (k - 1) as nat);
        lemma_lay_children_accounts(children, (k - 1) as nat, bound, global, defaults, replies, next);
        match before.outcome {
            Err(LayoutStopView::Measure(_)) => {},
            Err(LayoutStopView::FontNotFound(_)) => {
                let i = choose|i: int|
                    next <= i < next + seen && i < replies.len() && (#[trigger] replies[i]) is FontNotFound;
                assert(next <= i < next + NodeView::text_count_in(children, k) && replies[i] is FontNotFound);
            },
            Ok((_, at)) => {
                lemma_recalc_accounts(children[k - 1], bound, global, defaults, replies, at);
                let child = recalc(children[k - 1], bound, global, defaults, replies, at);
                if let Err(LayoutStopView::FontNotFound(_)) = child.outcome {
                    let i = choose|i: int|
                        at <= i < at + children[k - 1].text_count() && i < replies.len() && (
                        #[trigger] replies[i]) is FontNotFound;
                    assert(next <= i < next + NodeView::text_count_in(children, k) && replies[i] is FontNotFound);
                }
            },
        }
    }
}

/// The pass over a tree accounts for the replies by the number of texts in the
/// tree: the texts take the replies from index `next` on, one each, in document
/// order.
pub proof fn lemma_recalc_accounts(
    node: NodeView,
    parent_bound: BoundingBox,
    parent_global: TransformMatrix,
    defaults: ShapeDefaults,
    replies: Seq<TextReplyView>,
    next: nat,
)
    ensures
        accounts_for(
            reply_index(recalc(node, parent_bound, parent_global, defaults, replies, next).outcome),
            replies,
            next,
            node.text_count(),
        ),
    decreases node, 0nat, 1nat,
{
    let down = top_down(node.shape, parent_bound, parent_global, defaults, replies, next);
    match down.outcome {
        Err(LayoutStopView::Measure(_)) => {},
        Err(LayoutStopView::FontNotFound(_)) => {
            assert(next <= next < next + node.text_count() && replies[next as int] is FontNotFound);
        },
        Ok(descent) => {
            lemma_lay_children_accounts(
                node.children,
                node.children.len(),
                descent.bound,
                descent.global,
                descent.defaults,
                replies,
                descent.next,
            );
            let below = lay_children(
                node.children,
                node.children.len(),
                descent.bound,
                descent.global,
                descent.defaults,
                replies,
                descent.next,
            );
            if let Err(LayoutStopView::FontNotFound(_)) = below.outcome {
                let i = choose|i: int|
                    descent.next <= i < descent.next + NodeView::text_count_in(node.children, node.children.len())
                        && i < replies.len() && (#[trigger] replies[i]) is FontNotFound;
                assert(next <= i < next + node.text_count() && replies[i] is FontNotFound);
            }
        },
    }
}

/// A layout ends well exactly when every text of the tree has a reply with its
/// measures: with one such reply for each text, in document order, the pass neither
/// asks nor fails, and a pass that ends well had them.
pub proof fn lemma_layout_succeeds_when_measured(tree: NodeView, viewport: BoundingBox, replies: Seq<TextReplyView>)
    ensures
        laid_out(tree, viewport, replies).outcome is Ok <==> all_shaped(replies, 0, tree.text_count()),
        tree.text_count() == 0 ==> laid_out(tree, viewport, replies).outcome is Ok,
{
    let pass = laid_out(tree, viewport, replies);
    lemma_recalc_accounts(tree, viewport, TransformMatrix::identity(), ShapeDefaults::initial(), replies, 0);
    match pass.outcome {
        Ok(_) => {
            lemma_recalc_used_replies(
                tree,
                viewport,
                TransformMatrix::identity(),
                ShapeDefaults::initial(),
                replies,
                0,
            );
        },
        Err(LayoutStopView::Measure(_)) => {
            if all_shaped(replies, 0, tree.text_count()) {
                assert(replies.len() < tree.text_count());
                assert(replies[replies.len() as int] is Shaped);
            }
        },
        Err(LayoutStopView::FontNotFound(_)) => {},
    }
}

/// A pass over the first `k` children that ends well had a reply with measures for
/// every text in those children.
pub proof fn lemma_lay_children_used_replies(
    children: Seq<NodeView>,
    k: nat,
    bound: BoundingBox,
    global: TransformMatrix,
    defaults: ShapeDefaults,
    replies: Seq<TextReplyView>,
    next: nat,
)
    requires
        k <= children.len(),
        lay_children(children, k, bound, global, defaults, replies, next).outcome is Ok,
    ensures
        all_shaped(replies, next, NodeView::text_count_in(children, k)),
    decreases children, k, 0nat,
{
    if k > 0 {
        let before = lay_children(children, (k - 1) as nat, bound, global, defaults, replies, next);
        lemma_lay_children_used_replies(children, (k - 1) as nat, bound, global, defaults, replies, next);
        lemma_lay_children_accounts(children, (k - 1) as nat, bound, global, defaults, replies, next);
        let at = before.outcome->Ok_0.1;
        lemma_recalc_used_replies(children[k - 1], bound, global, defaults, replies, at);
    }
}

/// A pass over a tree that ends well had a reply with measures for every text in
/// the tree.
pub proof fn lemma_recalc_used_replies(
    node: NodeView,
    parent_bound: BoundingBox,
    parent_global: TransformMatrix,
    defaults: ShapeDefaults,
    replies: Seq<TextReplyView>,
    next: nat,
)
    requires
        recalc(node, parent_bound, parent_global, defaults, replies, next).outcome is Ok,
    ensures
        all_shaped(replies, next, node.text_count()),
    decreases node, 0nat, 1nat,
{
    let down = top_down(node.shape, parent_bound, parent_global, defaults, replies, next);
    let descent = down.outcome->Ok_0;
    let below = NodeView::text_count_in(node.children, node.children.len());
    lemma_lay_children_used_replies(
        node.children,
        node.children.len(),
        descent.bound,
        descent.global,
        descent.defaults,
        replies,
        descent.next,
    );
    assert(all_shaped(replies, descent.next, below));
    assert forall|i: int| next <= i < next + node.text_count() implies i < replies.len() && (
    #[trigger] replies[i]) is Shaped by {
        if i < descent.next {
            assert(node.shape is Text && i == next);
        } else {
            assert(descent.next <= i < descent.next + below);
        }
    }
}

/// Whether every shape of a tree that declares a transform holds a global matrix.
pub open spec fn all_composed(node: NodeView) -> bool
    decreases node,
{
    &&& node.shape is Word || node.shape.transform().global is Some
    &&& forall|i: int| 0 <= i < node.children.len() ==> all_composed(#[trigger] node.children[i])
}

/// A pass over the first `k` children that ended well leaves each of them with
/// every global matrix stored, and the children after them as they were.
pub proof fn lemma_lay_children_composes(
    children: Seq<NodeView>,
    k: nat,
    bound: BoundingBox,
    global: TransformMatrix,
    defaults: ShapeDefaults,
    replies: Seq<TextReplyView>,
    next: nat,
)
    requires
        k <= children.len(),
        lay_children(children, k, bound, global, defaults, replies, next).outcome is Ok,
    ensures
        forall|i: int|
            0 <= i < k ==> all_composed(
                #[trigger] lay_children(children, k, bound, global, defaults, replies, next).nodes[i],
            ),
        forall|i: int|
            k <= i < children.len() ==> lay_children(children, k, bound, global, defaults, replies, next).nodes[i]
                == children[i],
        lay_children(children, k, bound, global, defaults, replies, next).nodes.len() == children.len(),
    decreases children, k, 0nat,
{
    if k > 0 {
        let before = lay_children(children, (k - 1) as nat, bound, global, defaults, replies, next);
        lemma_lay_children_composes(children, (k - 1) as nat, bound, global, defaults, replies, next);
        let at = before.outcome->Ok_0.1;
        lemma_recalc_composes(children[k - 1], bound, global, defaults, replies, at);
    }
}

/// After a layout that ended well, every shape of the tree that declares a
/// transform holds its global matrix, and the root holds the one under the matrix
/// that the pass was given.
pub proof fn lemma_recalc_composes(
    node: NodeView,
    parent_bound: BoundingBox,
    parent_global: TransformMatrix,
    defaults: ShapeDefaults,
    replies: Seq<TextReplyView>,
    next: nat,
)
    requires
        recalc(node, parent_bound, parent_global, defaults, replies, next).outcome is Ok,
    ensures
        all_composed(recalc(node, parent_bound, parent_global, defaults, replies, next).node),
        !(node.shape is Word) ==> recalc(node, parent_bound, parent_global, defaults, replies, next).node.shape.transform().global
            == Some(node.shape.transform().global_under(parent_global)),
    decreases node, 0nat, 1nat,
{
    let down = top_down(node.shape, parent_bound, parent_global, defaults, replies, next);
    let descent = down.outcome->Ok_0;
    lemma_top_down_keeps_shape(node.shape, parent_bound, parent_global, defaults, replies, next);
    lemma_lay_children_composes(
        node.children,
        node.children.len(),
        descent.bound,
        descent.global,
        descent.defaults,
        replies,
        descent.next,
    );
    let below = lay_children(
        node.children,
        node.children.len(),
        descent.bound,
        descent.global,
        descent.defaults,
        replies,
        descent.next,
    );
    let bounds = below.outcome->Ok_0.0;
    lemma_bottom_up_keeps_shape(down.shape, descent.bound, BoundingBox::union_all(bounds));
}

/// A rectangle whose position and size are all automatic and that has no padding
/// takes exactly the box of its children, provided that box is not inverted and
/// its width and height are representable.
pub proof fn lemma_auto_rect_wraps_children(rect: crate::shape::RectView, inner: BoundingBox)
    requires
        rect.x.kind is Auto,
        rect.y.kind is Auto,
        rect.width.kind is Auto,
        rect.height.kind is Auto,
        rect.padding.left.value@ == 0,
        rect.padding.right.value@ == 0,
        rect.padding.top.value@ == 0,
        rect.padding.bottom.value@ == 0,
        inner.wf(),
        inner.max_x@ - inner.min_x@ <= i64::MAX,
        inner.max_y@ - inner.min_y@ <= i64::MAX,
    ensures
        rect.auto_sized(inner).x.value == inner.min_x,
        rect.auto_sized(inner).y.value == inner.min_y,
        rect.auto_sized(inner).width.value == inner.width(),
        rect.auto_sized(inner).height.value == inner.height(),
        rect.auto_sized(inner).bound() == inner,
        bottom_up(ShapeView::Rect(rect), rect.bound(), inner).1 == inner,
{
}

/// A circle whose centre and radius are automatic and that has no padding is
/// centred on the box of its children, with half of the larger of the width and the
/// height of that box as its radius.
pub proof fn lemma_auto_circle_covers_children(circle: crate::shape::CircleView, inner: BoundingBox)
    requires
        circle.cx.kind is Auto,
        circle.cy.kind is Auto,
        circle.r.kind is Auto,
        circle.padding.left.value@ == 0,
        circle.padding.right.value@ == 0,
        circle.padding.top.value@ == 0,
        circle.padding.bottom.value@ == 0,
    ensures
        circle.auto_sized(inner).r.value == inner.width().max(inner.height()).half(),
        circle.auto_sized(inner).cx.value == inner.min_x.add(inner.width().half()),
        circle.auto_sized(inner).cy.value == inner.min_y.add(inner.height().half()),
{
}

/// A dimension that is not automatic is not touched on the way up, and one that is
/// no percentage is not touched on the way down.
pub proof fn lemma_declared_geometry_stays(
    rect: crate::shape::RectView,
    parent: BoundingBox,
    parent_global: TransformMatrix,
    inner: BoundingBox,
)
    ensures
        !(rect.x.kind is Percent) ==> rect.placed(parent, parent_global).x == rect.x,
        !(rect.width.kind is Percent) ==> rect.placed(parent, parent_global).width == rect.width,
        !(rect.x.kind is Auto) ==> rect.auto_sized(inner).x == rect.x,
        !(rect.width.kind is Auto) ==> rect.auto_sized(inner).width == rect.width,
        rect.x.kind is Absolute && rect.y.kind is Absolute && rect.width.kind is Absolute && rect.height.kind
            is Absolute ==> rect.placed(parent, parent_global).auto_sized(inner).bound() == rect.bound(),
{
}

/// Resolves the percentages of a padding: left and right against the width of the
/// parent, top and bottom against its height.
pub fn set_by_pct_padding(padding: &mut Padding, parent_bound: &BoundingBox)
    ensures
        *final(padding) == old(padding).resolved_percent(parent_bound.width(), parent_bound.height()),
{
    padding.left.resolve_percent(parent_bound.width());
    padding.right.resolve_percent(parent_bound.width());
    padding.top.resolve_percent(parent_bound.height());
    padding.bottom.resolve_percent(parent_bound.height());
}

/// Resolves the percentages of a scissor: `x` and `width` against the width of the
/// parent, `y` and `height` against its height. Nothing is done where no clip is
/// declared.
pub fn set_by_pct_clip(clip: &mut Clip, parent_bound: &BoundingBox)
    ensures
        *final(clip) == old(clip).resolved_percent(parent_bound.width(), parent_bound.height()),
{
    if let Clip::Scissor(scissor) = clip {
        scissor.x.resolve_percent(parent_bound.width());
        scissor.y.resolve_percent(parent_bound.height());
        scissor.width.resolve_percent(parent_bound.width());
        scissor.height.resolve_percent(parent_bound.height());
    }
}

/// The top-down step on a rectangle. Returns the global matrix for its children.
fn place_rect(rect: &mut Rect, parent_bound: &BoundingBox, parent_global: TransformMatrix) -> (global:
    TransformMatrix)
    ensures
        final(rect)@ == old(rect)@.placed(*parent_bound, parent_global),
        global == final(rect)@.content_global(),
{
    rect.x.place(parent_bound.width(), parent_bound.min_x);
    rect.y.place(parent_bound.height(), parent_bound.min_y);
    rect.width.resolve_percent(parent_bound.width());
    rect.height.resolve_percent(parent_bound.height());
    set_by_pct_padding(&mut rect.padding, parent_bound);
    set_by_pct_clip(&mut rect.clip, parent_bound);
    let mut global = rect.recalculate_transform(parent_global);
    global.translate_add(rect.padding.left.val(), rect.padding.top.val());
    global
}

/// The top-down step on a circle. Returns the global matrix for its children.
fn place_circle(circle: &mut Circle, parent_bound: &BoundingBox, parent_global: TransformMatrix) -> (global:
    TransformMatrix)
    ensures
        final(circle)@ == old(circle)@.placed(*parent_bound, parent_global),
        global == final(circle)@.content_global(),
{
    circle.cx.place(parent_bound.width(), parent_bound.min_x);
    circle.cy.place(parent_bound.height(), parent_bound.min_y);
    circle.r.resolve_percent(parent_bound.width().min(parent_bound.height()));
    set_by_pct_padding(&mut circle.padding, parent_bound);
    set_by_pct_clip(&mut circle.clip, parent_bound);
    let mut global = circle.recalculate_transform(parent_global);
    global.translate_add(circle.padding.left.val(), circle.padding.top.val());
    global
}

/// The first half of the top-down step on a text. Returns its global matrix.
fn place_text(text: &mut Text, parent_bound: &BoundingBox, parent_global: TransformMatrix) -> (global:
    TransformMatrix)
    ensures
        final(text)@ == old(text)@.placed(*parent_bound, parent_global),
        global == old(text).transform.global_under(parent_global),
{
    text.x.place(parent_bound.width(), parent_bound.min_x);
    text.y.place(parent_bound.height(), parent_bound.min_y);
    set_by_pct_clip(&mut text.clip, parent_bound);
    text.recalculate_transform(parent_global)
}

/// What to ask the shaping service for a placed text.
pub fn text_request(text: &Text, defaults: ShapeDefaults) -> (request: TextRequest)
    ensures
        request@ == text@.request(defaults),
{
    TextRequest {
        font_name: text.font_name.clone(),
        content: text.content.clone(),
        x: text.x.val(),
        y: text.y.val(),
        options: text_options(text, defaults),
    }
}

/// The second half of the top-down step on a text that was placed: takes the
/// measures of the reply with index `next`, or stops the pass.
pub fn shape_placed_text(
    text: &mut Text,
    global: TransformMatrix,
    defaults: ShapeDefaults,
    replies: &Vec<TextReply>,
    next: usize,
) -> (r: Result<Descent, LayoutStop>)
    ensures
        ShapeView::Text(final(text)@) == shape_text(old(text)@, global, defaults, reply_views(replies@), next as nat).shape,
        descent_view(r) == shape_text(old(text)@, global, defaults, reply_views(replies@), next as nat).outcome,
{
    if next >= replies.len() {
        return Err(LayoutStop::Measure(text_request(text, defaults)));
    }
    assert(reply_views(replies@)[next as int] == replies@[next as int]@);
    match &replies[next] {
        TextReply::FontNotFound => Err(LayoutStop::FontNotFound(text.font_name.clone())),
        TextReply::Shaped { metrics, glyphs } => {
            let copy = copy_glyphs(glyphs);
            text.metrics = Some(*metrics);
            text.glyph_positions = copy;
            Ok(Descent { bound: text.bound(), global, defaults, next: next + 1 })
        },
    }
}

/// The top-down step on the shape of a node.
pub fn descend(
    shape: &mut Shape,
    parent_bound: BoundingBox,
    parent_global: TransformMatrix,
    defaults: ShapeDefaults,
    replies: &Vec<TextReply>,
    next: usize,
) -> (r: Result<Descent, LayoutStop>)
    ensures
        final(shape)@ == top_down(
            old(shape)@,
            parent_bound,
            parent_global,
            defaults,
            reply_views(replies@),
            next as nat,
        ).shape,
        descent_view(r) == top_down(
            old(shape)@,
            parent_bound,
            parent_global,
            defaults,
            reply_views(replies@),
            next as nat,
        ).outcome,
{
    match shape {
        Shape::Rect(rect) => {
            let global = place_rect(rect, &parent_bound, parent_global);
            Ok(Descent { bound: rect.bound(), global, defaults, next })
        },
        Shape::Circle(circle) => {
            let global = place_circle(circle, &parent_bound, parent_global);
            Ok(Descent { bound: circle.bound(), global, defaults, next })
        },
        Shape::Text(text) => {
            let global = place_text(text, &parent_bound, parent_global);
            shape_placed_text(text, global, defaults, replies, next)
        },
        Shape::Path(path) => {
            set_by_pct_clip(&mut path.clip, &parent_bound);
            let global = path.recalculate_transform(parent_global);
            Ok(Descent { bound: parent_bound, global, defaults, next })
        },
        Shape::Group(group) => {
            set_by_pct_clip(&mut group.clip, &parent_bound);
            let global = group.recalculate_transform(parent_global);
            Ok(Descent { bound: parent_bound, global, defaults: group.cascade(defaults), next })
        },
        Shape::Word(_) => Ok(Descent { bound: parent_bound, global: parent_global, defaults, next }),
    }
}

/// The bottom-up step on the shape of a node. Returns the bound that the node
/// reports to its parent.
pub fn ascend(shape: &mut Shape, own: BoundingBox, inner: BoundingBox) -> (bound: BoundingBox)
    ensures
        final(shape)@ == bottom_up(old(shape)@, own, inner).0,
        bound == bottom_up(old(shape)@, own, inner).1,
{
    match shape {
        Shape::Rect(rect) => {
            rect.x.resolve_auto(inner.min_x.sub(rect.padding.left.val()));
            rect.y.resolve_auto(inner.min_y.sub(rect.padding.top.val()));
            rect.width.resolve_auto(inner.max_x.add(rect.padding.right.val()).sub(rect.x.val()));
            rect.height.resolve_auto(inner.max_y.add(rect.padding.bottom.val()).sub(rect.y.val()));
            rect.bound()
        },
        Shape::Circle(circle) => {
            circle.cx.resolve_auto(inner.min_x.add(inner.width().half()).add(circle.padding.left.val()));
            circle.cy.resolve_auto(inner.min_y.add(inner.height().half()).add(circle.padding.top.val()));
            circle.r.resolve_auto(
                inner.width().add(circle.padding.left_and_right()).max(
                    inner.height().add(circle.padding.top_and_bottom()),
                ).half(),
            );
            circle.bound()
        },
        Shape::Text(text) => text.transformed_bound(own, inner),
        Shape::Group(_) => inner,
        Shape::Path(_) => own,
        Shape::Word(_) => own,
    }
}

/// Once the pass over the children has stopped, it stays as it stopped.
pub proof fn lemma_lay_children_stops(
    children: Seq<NodeView>,
    k: nat,
    n: nat,
    bound: BoundingBox,
    global: TransformMatrix,
    defaults: ShapeDefaults,
    replies: Seq<TextReplyView>,
    next: nat,
)
    requires
        k <= n <= children.len(),
        lay_children(children, k, bound, global, defaults, replies, next).outcome is Err,
    ensures
        lay_children(children, n, bound, global, defaults, replies, next) == lay_children(
            children,
            k,
            bound,
            global,
            defaults,
            replies,
            next,
        ),
    decreases n - k,
{
    if k < n {
        lemma_lay_children_stops(children, k, (n - 1) as nat, bound, global, defaults, replies, next);
    }
}

/// Lays out the children of a node under the bound, the global matrix and the
/// defaults of that node, and returns the union of the bounds that they report: the
/// zero box where there are none.
pub fn calc_inner_bound(
    children: &mut Vec<Node>,
    bound: BoundingBox,
    parent_global: TransformMatrix,
    defaults: ShapeDefaults,
    replies: &Vec<TextReply>,
    next: usize,
) -> (r: Result<(BoundingBox, usize), LayoutStop>)
    ensures
        node_views(final(children)@) == lay_children(
            node_views(old(children)@),
            old(children)@.len(),
            bound,
            parent_global,
            defaults,
            reply_views(replies@),
            next as nat,
        ).nodes,
        match lay_children(
            node_views(old(children)@),
            old(children)@.len(),
            bound,
            parent_global,
            defaults,
            reply_views(replies@),
            next as nat,
        ).outcome {
            Ok((bounds, after)) => outcome_view(r) == Ok::<(BoundingBox, nat), LayoutStopView>(
                (BoundingBox::union_all(bounds), after),
            ),
            Err(e) => outcome_view(r) == Err::<(BoundingBox, nat), LayoutStopView>(e),
        },
    decreases *old(children), 0nat,
{
    let ghost before = node_views(children@);
    let ghost views = reply_views(replies@);
    let mut child_bounds: Vec<BoundingBox> = Vec::new();
    let mut at: usize = next;
    let mut i: usize = 0;
    while i < children.len()
        invariant
            i <= children.len(),
            children.len() == old(children).len(),
            before == node_views(old(children)@),
            views == reply_views(replies@),
            node_views(children@) == lay_children(before, i as nat, bound, parent_global, defaults, views, next as nat).nodes,
            lay_children(before, i as nat, bound, parent_global, defaults, views, next as nat).outcome == Ok::<
                (Seq<BoundingBox>, nat),
                LayoutStopView,
            >((child_bounds@, at as nat)),
            forall|j: int| i <= j < children.len() ==> children@[j] == old(children)@[j],
        decreases children.len() - i,
    {
        let ghost prior = node_views(children@);
        assert(before[i as int] == children@[i as int]@);
        match recalc_composite(&mut children[i], bound, parent_global, defaults, replies, at) {
            Ok((child_bound, after)) => {
                child_bounds.push(child_bound);
                at = after;
            },
            Err(e) => {
                proof {
                    assert(node_views(children@) =~= prior.update(i as int, children@[i as int]@));
                    lemma_lay_children_stops(
                        before,
                        (i + 1) as nat,
                        before.len(),
                        bound,
                        parent_global,
                        defaults,
                        views,
                        next as nat,
                    );
                }
                return Err(e);
            },
        }
        proof {
            assert(node_views(children@) =~= prior.update(i as int, children@[i as int]@));
        }
        i += 1;
    }
    Ok((BoundingBox::union_of(&child_bounds), at))
}

/// Lays out a node and everything below it, in place.
///
/// `replies` holds what the shaping service answered so far, one reply for each
/// text in document order, and `next` is the index of the reply for the first text
/// at or below the node. Returns the bound of the node and the index of the reply
/// for the first text after it, or the reason why the pass stopped. After a stop the
/// tree holds what was resolved up to there.
pub fn recalc_composite(
    node: &mut Node,
    parent_bound: BoundingBox,
    parent_global: TransformMatrix,
    defaults: ShapeDefaults,
    replies: &Vec<TextReply>,
    next: usize,
) -> (r: Result<(BoundingBox, usize), LayoutStop>)
    ensures
        final(node)@ == recalc(
            old(node)@,
            parent_bound,
            parent_global,
            defaults,
            reply_views(replies@),
            next as nat,
        ).node,
        outcome_view(r) == recalc(
            old(node)@,
            parent_bound,
            parent_global,
            defaults,
            reply_views(replies@),
            next as nat,
        ).outcome,
    decreases *old(node), 1nat,
{
    let descent = match descend(&mut node.shape, parent_bound, parent_global, defaults, replies, next) {
        Ok(descent) => descent,
        Err(e) => {
            return Err(e);
        },
    };
    let (inner, after) = match calc_inner_bound(
        &mut node.children,
        descent.bound,
        descent.global,
        descent.defaults,
        replies,
        descent.next,
    ) {
        Ok(found) => found,
        Err(e) => {
            return Err(e);
        },
    };
    let bound = ascend(&mut node.shape, descent.bound, inner);
    Ok((bound, after))
}

/// Lays out a tree in a viewport, in place: the pass over the root under the
/// viewport as bound, the identity as global matrix and nothing inherited.
pub fn layout(tree: &mut Node, viewport: BoundingBox, replies: &Vec<TextReply>) -> (r: Result<
    BoundingBox,
    LayoutStop,
>)
    ensures
        final(tree)@ == laid_out(old(tree)@, viewport, reply_views(replies@)).node,
        match laid_out(old(tree)@, viewport, reply_views(replies@)).outcome {
            Ok((bound, _)) => r matches Ok(b) && b == bound,
            Err(e) => r matches Err(stop) && stop@ == e,
        },
        r is Ok <==> all_shaped(reply_views(replies@), 0, old(tree)@.text_count()),
        final(tree)@.skeleton() == old(tree)@.skeleton(),
{
    proof {
        lemma_layout_succeeds_when_measured(old(tree)@, viewport, reply_views(replies@));
        lemma_recalc_keeps_skeleton(
            old(tree)@,
            viewport,
            TransformMatrix::identity(),
            ShapeDefaults::initial(),
            reply_views(replies@),
            0,
        );
    }
    match recalc_composite(tree, viewport, TransformMatrix::identity(), ShapeDefaults::initial(), replies, 0) {
        Ok((bound, _)) => Ok(bound),
        Err(e) => Err(e),
    }
}

/// The pass over a whole tree in a viewport.
pub open spec fn laid_out(tree: NodeView, viewport: BoundingBox, replies: Seq<TextReplyView>) -> Laid {
    recalc(tree, viewport, TransformMatrix::identity(), ShapeDefaults::initial(), replies, 0)
}

} // verus!
