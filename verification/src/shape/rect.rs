//! Rectangles.

use vstd::prelude::*;
use crate::dimension::{Dimension, Padding};
use crate::matrix::{BoundingBox, TransformMatrix};
use crate::scalar::Real;
use crate::shape::{clone_id, id_text, str_text};
use crate::style::{Clip, Fill, Stroke};
use crate::transform::Transform;

verus! {

/// An axis-aligned rectangle with its own style.
#[derive(Debug, PartialEq)]
pub struct Rect {
    pub id: Option<String>,
    pub x: Dimension,
    pub y: Dimension,
    pub width: Dimension,
    pub height: Dimension,
    pub padding: Padding,
    pub fill: Option<Fill>,
    pub stroke: Option<Stroke>,
    pub clip: Clip,
    pub transform: Transform,
    pub transparency: Real,
}

/// What a rectangle holds, with its text as a sequence of characters.
pub struct RectView {
    pub id: Option<Seq<char>>,
    pub x: Dimension,
    pub y: Dimension,
    pub width: Dimension,
    pub height: Dimension,
    pub padding: Padding,
    pub fill: Option<Fill>,
    pub stroke: Option<Stroke>,
    pub clip: Clip,
    pub transform: Transform,
    pub transparency: Real,
}

impl View for Rect {
    type V = RectView;

    open spec fn view(&self) -> RectView {
        RectView {
            id: id_text(self.id),
            x: self.x,
            y: self.y,
            width: self.width,
            height: self.height,
            padding: self.padding,
            fill: self.fill,
            stroke: self.stroke,
            clip: self.clip,
            transform: self.transform,
            transparency: self.transparency,
        }
    }
}

impl RectView {
    /// The rectangle at the origin with no size, no padding and no style.
    pub open spec fn empty() -> RectView {
        RectView {
            id: None,
            x: Dimension::absolute(Real::zero()),
            y: Dimension::absolute(Real::zero()),
            width: Dimension::absolute(Real::zero()),
            height: Dimension::absolute(Real::zero()),
            padding: Padding::zero(),
            fill: None,
            stroke: None,
            clip: Clip::Unset,
            transform: Transform::none(),
            transparency: Real::zero(),
        }
    }

    /// The rectangle after the top-down step under a parent with the given bound and
    /// global matrix: percentages are resolved against the parent's size, a percent
    /// position is counted from the parent's corner, and the global matrix is stored.
    pub open spec fn placed(self, parent: BoundingBox, parent_global: TransformMatrix) -> RectView {
        RectView {
            x: self.x.placed(parent.width(), parent.min_x),
            y: self.y.placed(parent.height(), parent.min_y),
            width: self.width.resolved_percent(parent.width()),
            height: self.height.resolved_percent(parent.height()),
            padding: self.padding.resolved_percent(parent.width(), parent.height()),
            clip: self.clip.resolved_percent(parent.width(), parent.height()),
            transform: self.transform.composed(parent_global),
            ..self
        }
    }

    /// The global matrix that the children are laid out under: the rectangle's own,
    /// moved by the left and top padding.
    pub open spec fn content_global(self) -> TransformMatrix {
        self.transform.global.unwrap().spec_translated(self.padding.left.value, self.padding.top.value)
    }

    /// The box from the position to the position plus the size.
    pub open spec fn bound(self) -> BoundingBox {
        BoundingBox {
            min_x: self.x.value,
            min_y: self.y.value,
            max_x: self.x.value.add(self.width.value),
            max_y: self.y.value.add(self.height.value),
        }
    }

    /// The rectangle after the bottom-up step: each automatic dimension is taken from
    /// the box of the children grown by the padding on each side.
    pub open spec fn auto_sized(self, inner: BoundingBox) -> RectView {
        let x = self.x.resolved_auto(inner.min_x.sub(self.padding.left.value));
        let y = self.y.resolved_auto(inner.min_y.sub(self.padding.top.value));
        RectView {
            x,
            y,
            width: self.width.resolved_auto(inner.max_x.add(self.padding.right.value).sub(x.value)),
            height: self.height.resolved_auto(inner.max_y.add(self.padding.bottom.value).sub(y.value)),
            ..self
        }
    }
}

impl Clone for Rect {
    fn clone(&self) -> (copy: Rect)
        ensures
            copy == *self,
    {
        Rect {
            id: clone_id(&self.id),
            x: self.x,
            y: self.y,
            width: self.width,
            height: self.height,
            padding: self.padding,
            fill: self.fill,
            stroke: self.stroke,
            clip: self.clip,
            transform: self.transform,
            transparency: self.transparency,
        }
    }
}

impl Rect {
    /// A rectangle at the origin with no size, no padding and no style.
    pub fn new() -> (r: Rect)
        ensures
            r@ == RectView::empty(),
    {
        Rect {
            id: None,
            x: Dimension::absolute(Real::zero()),
            y: Dimension::absolute(Real::zero()),
            width: Dimension::absolute(Real::zero()),
            height: Dimension::absolute(Real::zero()),
            padding: Padding::zero(),
            fill: None,
            stroke: None,
            clip: Clip::Unset,
            transform: Transform::none(),
            transparency: Real::zero(),
        }
    }

    pub fn id(&self) -> (r: Option<&str>)
        ensures
            str_text(r) == self@.id,
    {
        match &self.id {
            Some(s) => Some(s.as_str()),
            None => None,
        }
    }

    /// Stores and returns the global matrix under the given parent matrix.
    pub fn recalculate_transform(&mut self, parent_global: TransformMatrix) -> (m: TransformMatrix)
        ensures
            m == old(self).transform.global_under(parent_global),
            final(self)@ == (RectView { transform: old(self).transform.composed(parent_global), ..old(self)@ }),
    {
        self.transform.compose_global(parent_global)
    }

    /// The box from the position to the position plus the size.
    pub fn bound(&self) -> (b: BoundingBox)
        ensures
            b == self@.bound(),
            self.width.value@ >= 0 && self.height.value@ >= 0 ==> b.wf(),
    {
        BoundingBox {
            min_x: self.x.val(),
            min_y: self.y.val(),
            max_x: self.x.val().add(self.width.val()),
            max_y: self.y.val().add(self.height.val()),
        }
    }
}

impl Default for Rect {
    fn default() -> (r: Rect)
        ensures
            r@ == RectView::empty(),
    {
        Rect::new()
    }
}

} // verus!
