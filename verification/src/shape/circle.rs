//! Circles.

use vstd::prelude::*;
use crate::dimension::{Dimension, Padding};
use crate::matrix::{BoundingBox, TransformMatrix};
use crate::scalar::Real;
use crate::shape::{clone_id, id_text, str_text};
use crate::style::{Clip, Fill, Stroke};
use crate::transform::Transform;

verus! {

/// A circle with its own style.
#[derive(Debug, PartialEq)]
pub struct Circle {
    pub id: Option<String>,
    pub cx: Dimension,
    pub cy: Dimension,
    pub r: Dimension,
    pub padding: Padding,
    pub fill: Option<Fill>,
    pub stroke: Option<Stroke>,
    pub clip: Clip,
    pub transform: Transform,
    pub transparency: Real,
}

/// What a circle holds, with its text as a sequence of characters.
pub struct CircleView {
    pub id: Option<Seq<char>>,
    pub cx: Dimension,
    pub cy: Dimension,
    pub r: Dimension,
    pub padding: Padding,
    pub fill: Option<Fill>,
    pub stroke: Option<Stroke>,
    pub clip: Clip,
    pub transform: Transform,
    pub transparency: Real,
}

impl View for Circle {
    type V = CircleView;

    open spec fn view(&self) -> CircleView {
        CircleView {
            id: id_text(self.id),
            cx: self.cx,
            cy: self.cy,
            r: self.r,
            padding: self.padding,
            fill: self.fill,
            stroke: self.stroke,
            clip: self.clip,
            transform: self.transform,
            transparency: self.transparency,
        }
    }
}

impl CircleView {
    /// The circle at the origin with no radius, no padding and no style.
    pub open spec fn empty() -> CircleView {
        CircleView {
            id: None,
            cx: Dimension::absolute(Real::zero()),
            cy: Dimension::absolute(Real::zero()),
            r: Dimension::absolute(Real::zero()),
            padding: Padding::zero(),
            fill: None,
            stroke: None,
            clip: Clip::Unset,
            transform: Transform::none(),
            transparency: Real::zero(),
        }
    }

    /// The circle after the top-down step under a parent with the given bound and
    /// global matrix. A percent radius is taken of the smaller side of the parent.
    pub open spec fn placed(self, parent: BoundingBox, parent_global: TransformMatrix) -> CircleView {
        CircleView {
            cx: self.cx.placed(parent.width(), parent.min_x),
            cy: self.cy.placed(parent.height(), parent.min_y),
            r: self.r.resolved_percent(parent.width().min(parent.height())),
            padding: self.padding.resolved_percent(parent.width(), parent.height()),
            clip: self.clip.resolved_percent(parent.width(), parent.height()),
            transform: self.transform.composed(parent_global),
            ..self
        }
    }

    /// The global matrix that the children are laid out under: the circle's own,
    /// moved by the left and top padding.
    pub open spec fn content_global(self) -> TransformMatrix {
        self.transform.global.unwrap().spec_translated(self.padding.left.value, self.padding.top.value)
    }

    /// The box that reaches one radius from the centre in each direction.
    pub open spec fn bound(self) -> BoundingBox {
        BoundingBox {
            min_x: self.cx.value.sub(self.r.value),
            min_y: self.cy.value.sub(self.r.value),
            max_x: self.cx.value.add(self.r.value),
            max_y: self.cy.value.add(self.r.value),
        }
    }

    /// The radius that covers a box of children with the given padding around it:
    /// half of the larger of the padded width and the padded height.
    pub open spec fn auto_radius(inner: BoundingBox, padding: Padding) -> Real {
        inner.width().add(padding.spec_left_and_right()).max(
            inner.height().add(padding.spec_top_and_bottom()),
        ).half()
    }

    /// The circle after the bottom-up step: an automatic centre is the centre of the
    /// box of the children moved by the left and top padding, an automatic radius is
    /// `auto_radius`.
    pub open spec fn auto_sized(self, inner: BoundingBox) -> CircleView {
        CircleView {
            cx: self.cx.resolved_auto(inner.min_x.add(inner.width().half()).add(self.padding.left.value)),
            cy: self.cy.resolved_auto(inner.min_y.add(inner.height().half()).add(self.padding.top.value)),
            r: self.r.resolved_auto(CircleView::auto_radius(inner, self.padding)),
            ..self
        }
    }
}

impl Clone for Circle {
    fn clone(&self) -> (copy: Circle)
        ensures
            copy == *self,
    {
        Circle {
            id: clone_id(&self.id),
            cx: self.cx,
            cy: self.cy,
            r: self.r,
            padding: self.padding,
            fill: self.fill,
            stroke: self.stroke,
            clip: self.clip,
            transform: self.transform,
            transparency: self.transparency,
        }
    }
}

impl Circle {
    /// A circle at the origin with no radius, no padding and no style.
    pub fn new() -> (c: Circle)
        ensures
            c@ == CircleView::empty(),
    {
        Circle {
            id: None,
            cx: Dimension::absolute(Real::zero()),
            cy: Dimension::absolute(Real::zero()),
            r: Dimension::absolute(Real::zero()),
            padding: Padding::zero(),
            fill: None,
            stroke: None,
            clip: Clip::Unset,
            transform: Transform::none(),
            transparency: Real::zero(),
        }
    }

    pub fn id(&self) -> (r: Option<&str>)
        ensures
            str_text(r) == self@.id,
    {
        match &self.id {
            Some(s) => Some(s.as_str()),
            None => None,
        }
    }

    /// Stores and returns the global matrix under the given parent matrix.
    pub fn recalculate_transform(&mut self, parent_global: TransformMatrix) -> (m: TransformMatrix)
        ensures
            m == old(self).transform.global_under(parent_global),
            final(self)@ == (CircleView { transform: old(self).transform.composed(parent_global), ..old(self)@ }),
    {
        self.transform.compose_global(parent_global)
    }

    /// The box that reaches one radius from the centre in each direction.
    pub fn bound(&self) -> (b: BoundingBox)
        ensures
            b == self@.bound(),
            self.r.value@ >= 0 ==> b.wf(),
    {
        let (cx, cy, r) = (self.cx.val(), self.cy.val(), self.r.val());
        BoundingBox { min_x: cx.sub(r), min_y: cy.sub(r), max_x: cx.add(r), max_y: cy.add(r) }
    }
}

impl Default for Circle {
    fn default() -> (c: Circle)
        ensures
            c@ == CircleView::empty(),
    {
        Circle::new()
    }
}

} // verus!
