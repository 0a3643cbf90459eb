//! The scene graph: a tree in which every node holds one shape and owns its
//! children.

use vstd::prelude::*;
use crate::shape::{Shape, ShapeKind, ShapeView};

verus! {

/// A node of the scene graph.
#[derive(Debug, PartialEq)]
pub struct Node {
    pub shape: Shape,
    pub children: Vec<Node>,
}

/// A node by the view of its shape and of its children, in document order.
pub struct NodeView {
    pub shape: ShapeView,
    pub children: Seq<NodeView>,
}

/// The views of a sequence of nodes.
pub open spec fn node_views(nodes: Seq<Node>) -> Seq<NodeView>
    decreases nodes, 0nat,
{
    Seq::new(
        nodes.len(),
        |i: int|
            if 0 <= i < nodes.len() {
                node_view(nodes[i])
            } else {
                arbitrary()
            },
    )
}

/// The view of a node.
pub open spec fn node_view(node: Node) -> NodeView
    decreases node, 1nat,
{
    NodeView { shape: node.shape@, children: node_views(node.children@) }
}

impl View for Node {
    type V = NodeView;

    open spec fn view(&self) -> NodeView {
        node_view(*self)
    }
}

/// What no pass over a tree changes: the kind and the id of every shape, and how
/// the nodes hang together.
pub struct Skeleton {
    pub kind: ShapeKind,
    pub id: Option<Seq<char>>,
    pub children: Seq<Skeleton>,
}

impl NodeView {
    /// The number of texts in the tree.
    pub open spec fn text_count(self) -> nat
        decreases self, 0nat,
    {
        (if self.shape is Text {
            1nat
        } else {
            0nat
        }) + NodeView::text_count_in(self.children, self.children.len())
    }

    /// The number of texts in the first `k` trees of a sequence.
    pub open spec fn text_count_in(nodes: Seq<NodeView>, k: nat) -> nat
        decreases nodes, k,
    {
        if k == 0 || k > nodes.len() {
            0
        } else {
            NodeView::text_count_in(nodes, (k - 1) as nat) + nodes[k - 1].text_count()
        }
    }

    /// The number of shapes in the tree that are drawn: all but groups and words.
    pub open spec fn drawn_count(self) -> nat
        decreases self, 0nat,
    {
        (if self.shape is Group || self.shape is Word {
            0nat
        } else {
            1nat
        }) + NodeView::drawn_count_in(self.children, self.children.len())
    }

    /// The number of shapes in the first `k` trees of a sequence that are drawn.
    pub open spec fn drawn_count_in(nodes: Seq<NodeView>, k: nat) -> nat
        decreases nodes, k,
    {
        if k == 0 || k > nodes.len() {
            0
        } else {
            NodeView::drawn_count_in(nodes, (k - 1) as nat) + nodes[k - 1].drawn_count()
        }
    }

    /// The skeleton of the tree.
    pub open spec fn skeleton(self) -> Skeleton
        decreases self, 1nat,
    {
        Skeleton { kind: self.shape.kind(), id: self.shape.id(), children: NodeView::skeletons(self.children) }
    }

    /// The skeletons of a sequence of trees.
    pub open spec fn skeletons(nodes: Seq<NodeView>) -> Seq<Skeleton>
        decreases nodes, 0nat,
    {
        Seq::new(
            nodes.len(),
            |i: int|
                if 0 <= i < nodes.len() {
                    nodes[i].skeleton()
                } else {
                    arbitrary()
                },
        )
    }
}

impl Clone for Node {
    /// A copy of the node and of everything below it.
    fn clone(&self) -> (copy: Node)
        ensures
            copy@ == self@,
        decreases *self,
    {
        let mut children: Vec<Node> = Vec::new();
        let mut i: usize = 0;
        while i < self.children.len()
            invariant
                i <= self.children.len(),
                children.len() == i,
                forall|j: int| 0 <= j < i ==> children@[j]@ == self.children@[j]@,
            decreases self.children.len() - i,
        {
            children.push(self.children[i].clone());
            i += 1;
        }
        let copy = Node { shape: self.shape.clone(), children };
        assert(copy@.children =~= self@.children);
        copy
    }
}

impl Node {
    /// A node without children.
    pub fn new(shape: Shape) -> (n: Node)
        ensures
            n@ == (NodeView { shape: shape@, children: Seq::empty() }),
    {
        let n = Node { shape, children: Vec::new() };
        assert(n@.children =~= Seq::empty());
        n
    }

    /// A node with the given children.
    pub fn with_children(shape: Shape, children: Vec<Node>) -> (n: Node)
        ensures
            n@ == (NodeView { shape: shape@, children: node_views(children@) }),
    {
        Node { shape, children }
    }

    /// Adds a child after the children that the node has.
    pub fn push_child(&mut self, child: Node)
        ensures
            final(self)@ == (NodeView { shape: old(self)@.shape, children: old(self)@.children.push(child@) }),
    {
        self.children.push(child);
        assert(self@.children =~= old(self)@.children.push(child@));
    }

    pub fn shape(&self) -> (s: &Shape)
        ensures
            *s == self.shape,
    {
        &self.shape
    }

    pub fn shape_mut(&mut self) -> (s: &mut Shape)
        ensures
            *s == old(self).shape,
            *final(self) == (Node { shape: *final(s), children: old(self).children }),
    {
        &mut self.shape
    }

    pub fn children(&self) -> (c: &Vec<Node>)
        ensures
            *c == self.children,
    {
        &self.children
    }

    pub fn children_mut(&mut self) -> (c: &mut Vec<Node>)
        ensures
            *c == old(self).children,
            *final(self) == (Node { shape: old(self).shape, children: *final(c) }),
    {
        &mut self.children
    }
}

} // verus!
