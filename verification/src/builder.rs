//! Building trees by chained calls.

use vstd::prelude::*;
use crate::node::{Node, NodeView, node_views};
use crate::shape::{Shape, ShapeView};
use crate::style::{Fill, Stroke};
use crate::transform::Transform;

verus! {

impl ShapeView {
    /// The shape with its id replaced.
    pub open spec fn with_id(self, id: Seq<char>) -> ShapeView {
        match self {
            ShapeView::Rect(r) => ShapeView::Rect(crate::shape::RectView { id: Some(id), ..r }),
            ShapeView::Circle(c) => ShapeView::Circle(crate::shape::CircleView { id: Some(id), ..c }),
            ShapeView::Path(p) => ShapeView::Path(crate::shape::PathView { id: Some(id), ..p }),
            ShapeView::Group(g) => ShapeView::Group(crate::shape::GroupView { id: Some(id), ..g }),
            ShapeView::Text(t) => ShapeView::Text(crate::shape::TextView { id: Some(id), ..t }),
            ShapeView::Word(w) => ShapeView::Word(crate::shape::WordView { id: Some(id), ..w }),
        }
    }

    /// The shape with its transform replaced. A word has none and stays as it is.
    pub open spec fn with_transform(self, transform: Transform) -> ShapeView {
        match self {
            ShapeView::Rect(r) => ShapeView::Rect(crate::shape::RectView { transform, ..r }),
            ShapeView::Circle(c) => ShapeView::Circle(crate::shape::CircleView { transform, ..c }),
            ShapeView::Path(p) => ShapeView::Path(crate::shape::PathView { transform, ..p }),
            ShapeView::Group(g) => ShapeView::Group(crate::shape::GroupView { transform, ..g }),
            ShapeView::Text(t) => ShapeView::Text(crate::shape::TextView { transform, ..t }),
            ShapeView::Word(_) => self,
        }
    }

    /// The shape with its stroke replaced. A text and a word have none and stay as
    /// they are.
    pub open spec fn with_stroke(self, stroke: Option<Stroke>) -> ShapeView {
        match self {
            ShapeView::Rect(r) => ShapeView::Rect(crate::shape::RectView { stroke, ..r }),
            ShapeView::Circle(c) => ShapeView::Circle(crate::shape::CircleView { stroke, ..c }),
            ShapeView::Path(p) => ShapeView::Path(crate::shape::PathView { stroke, ..p }),
            ShapeView::Group(g) => ShapeView::Group(crate::shape::GroupView { stroke, ..g }),
            ShapeView::Text(_) | ShapeView::Word(_) => self,
        }
    }

    /// The shape with its fill replaced. A word has none and stays as it is.
    pub open spec fn with_fill(self, fill: Option<Fill>) -> ShapeView {
        match self {
            ShapeView::Rect(r) => ShapeView::Rect(crate::shape::RectView { fill, ..r }),
            ShapeView::Circle(c) => ShapeView::Circle(crate::shape::CircleView { fill, ..c }),
            ShapeView::Path(p) => ShapeView::Path(crate::shape::PathView { fill, ..p }),
            ShapeView::Group(g) => ShapeView::Group(crate::shape::GroupView { fill, ..g }),
            ShapeView::Text(t) => ShapeView::Text(crate::shape::TextView { fill, ..t }),
            ShapeView::Word(_) => self,
        }
    }
}

impl Shape {
    /// Replaces the id of the shape.
    pub fn set_id(&mut self, id: String)
        ensures
            final(self)@ == old(self)@.with_id(id@),
    {
        match self {
            Shape::Rect(r) => {
                r.id = Some(id);
            },
            Shape::Circle(c) => {
                c.id = Some(id);
            },
            Shape::Path(p) => {
                p.id = Some(id);
            },
            Shape::Group(g) => {
                g.id = Some(id);
            },
            Shape::Text(t) => {
                t.id = Some(id);
            },
            Shape::Word(w) => {
                w.id = Some(id);
            },
        }
    }

    /// Replaces the transform of the shape, if it is of a kind that has one.
    pub fn set_transform(&mut self, transform: Transform)
        ensures
            final(self)@ == old(self)@.with_transform(transform),
    {
        match self {
            Shape::Rect(r) => {
                r.transform = transform;
            },
            Shape::Circle(c) => {
                c.transform = transform;
            },
            Shape::Path(p) => {
                p.transform = transform;
            },
            Shape::Group(g) => {
                g.transform = transform;
            },
            Shape::Text(t) => {
                t.transform = transform;
            },
            Shape::Word(_) => {},
        }
    }

    /// Replaces the stroke of the shape, if it is of a kind that has one.
    pub fn set_stroke(&mut self, stroke: Option<Stroke>)
        ensures
            final(self)@ == old(self)@.with_stroke(stroke),
    {
        match self {
            Shape::Rect(r) => {
                r.stroke = stroke;
            },
            Shape::Circle(c) => {
                c.stroke = stroke;
            },
            Shape::Path(p) => {
                p.stroke = stroke;
            },
            Shape::Group(g) => {
                g.stroke = stroke;
            },
            Shape::Text(_) => {},
            Shape::Word(_) => {},
        }
    }

    /// Replaces the fill of the shape, if it is of a kind that has one.
    pub fn set_fill(&mut self, fill: Option<Fill>)
        ensures
            final(self)@ == old(self)@.with_fill(fill),
    {
        match self {
            Shape::Rect(r) => {
                r.fill = fill;
            },
            Shape::Circle(c) => {
                c.fill = fill;
            },
            Shape::Path(p) => {
                p.fill = fill;
            },
            Shape::Group(g) => {
                g.fill = fill;
            },
            Shape::Text(t) => {
                t.fill = fill;
            },
            Shape::Word(_) => {},
        }
    }
}

/// Whatever can be finished into a node.
pub trait Builder: Sized {
    /// The node that `build` gives.
    spec fn built(self) -> Node;

    fn build(self) -> (node: Node)
        ensures
            node == self.built(),
    ;
}

impl Builder for Node {
    open spec fn built(self) -> Node {
        self
    }

    fn build(self) -> (node: Node) {
        self
    }
}

/// What can be given an id and a transform.
pub trait Entity: Sized {
    fn id(self, id: String) -> Self;

    fn transform(self, transform: Transform) -> Self;
}

impl Entity for Node {
    /// The node with the id of its shape replaced.
    fn id(self, id: String) -> (node: Node)
        ensures
            node@ == (NodeView { shape: self@.shape.with_id(id@), children: self@.children }),
    {
        let mut node = self;
        node.shape.set_id(id);
        node
    }

    /// The node with the transform of its shape replaced.
    fn transform(self, transform: Transform) -> (node: Node)
        ensures
            node@ == (NodeView { shape: self@.shape.with_transform(transform), children: self@.children }),
    {
        let mut node = self;
        node.shape.set_transform(transform);
        node
    }
}

/// What can be given children and a style.
pub trait Primitive: Sized {
    fn child<B: Builder>(self, child: B) -> Self;

    fn children(self, children: Vec<Node>) -> Self;

    fn stroke(self, stroke: Stroke) -> Self;

    fn fill(self, fill: Fill) -> Self;

    fn remove_stroke(self) -> Self;

    fn remove_fill(self) -> Self;
}

impl Primitive for Node {
    /// The node with one more child after those that it has.
    fn child<B: Builder>(self, child: B) -> (node: Node)
        ensures
            node@ == (NodeView { shape: self@.shape, children: self@.children.push(child.built()@) }),
    {
        let mut node = self;
        node.push_child(child.build());
        node
    }

    /// The node with more children after those that it has.
    fn children(self, children: Vec<Node>) -> (node: Node)
        ensures
            node@ == (NodeView { shape: self@.shape, children: self@.children + node_views(children@) }),
    {
        let mut node = self;
        let mut more = children;
        node.children.append(&mut more);
        assert(node@.children =~= self@.children + node_views(children@));
        node
    }

    /// The node with the stroke of its shape replaced.
    fn stroke(self, stroke: Stroke) -> (node: Node)
        ensures
            node@ == (NodeView { shape: self@.shape.with_stroke(Some(stroke)), children: self@.children }),
    {
        let mut node = self;
        node.shape.set_stroke(Some(stroke));
        node
    }

    /// The node with the fill of its shape replaced.
    fn fill(self, fill: Fill) -> (node: Node)
        ensures
            node@ == (NodeView { shape: self@.shape.with_fill(Some(fill)), children: self@.children }),
    {
        let mut node = self;
        node.shape.set_fill(Some(fill));
        node
    }

    /// The node with the stroke of its shape removed.
    fn remove_stroke(self) -> (node: Node)
        ensures
            node@ == (NodeView { shape: self@.shape.with_stroke(None), children: self@.children }),
    {
        let mut node = self;
        node.shape.set_stroke(None);
        node
    }

    /// The node with the fill of its shape removed.
    fn remove_fill(self) -> (node: Node)
        ensures
            node@ == (NodeView { shape: self@.shape.with_fill(None), children: self@.children }),
    {
        let mut node = self;
        node.shape.set_fill(None);
        node
    }
}

} // verus!
