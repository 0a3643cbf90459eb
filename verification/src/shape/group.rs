//! Groups: shapes without geometry that hand style down to their descendants.

use vstd::prelude::*;
use crate::matrix::TransformMatrix;
use crate::scalar::Real;
use crate::shape::{clone_id, id_text, str_text};
use crate::style::{Clip, Fill, ShapeDefaults, Stroke};
use crate::transform::Transform;

verus! {

/// A group of shapes. What it sets replaces, for its descendants, what they would
/// otherwise inherit.
#[derive(Debug, PartialEq)]
pub struct Group {
    pub id: Option<String>,
    pub transparency: Option<Real>,
    pub fill: Option<Fill>,
    pub stroke: Option<Stroke>,
    pub clip: Clip,
    pub transform: Transform,
}

/// What a group holds, with its text as a sequence of characters.
pub struct GroupView {
    pub id: Option<Seq<char>>,
    pub transparency: Option<Real>,
    pub fill: Option<Fill>,
    pub stroke: Option<Stroke>,
    pub clip: Clip,
    pub transform: Transform,
}

impl View for Group {
    type V = GroupView;

    open spec fn view(&self) -> GroupView {
        GroupView {
            id: id_text(self.id),
            transparency: self.transparency,
            fill: self.fill,
            stroke: self.stroke,
            clip: self.clip,
            transform: self.transform,
        }
    }
}

impl GroupView {
    /// The group that sets nothing.
    pub open spec fn empty() -> GroupView {
        GroupView {
            id: None,
            transparency: None,
            fill: None,
            stroke: None,
            clip: Clip::Unset,
            transform: Transform::none(),
        }
    }

    /// Whether the group sets no style and declares no transform.
    pub open spec fn empty_overrides(self) -> bool {
        &&& self.transparency is None
        &&& self.fill is None
        &&& self.stroke is None
        &&& self.clip is Unset
        &&& self.transform.is_not_exist()
    }

    /// The group after the top-down step: its clip is resolved against the parent's
    /// size and the global matrix is stored.
    pub open spec fn placed(self, parent_width: Real, parent_height: Real, parent_global: TransformMatrix) -> GroupView {
        GroupView {
            clip: self.clip.resolved_percent(parent_width, parent_height),
            transform: self.transform.composed(parent_global),
            ..self
        }
    }

    /// The defaults that hold below the group.
    pub open spec fn cascade(self, inherited: ShapeDefaults) -> ShapeDefaults {
        inherited.overridden(self.transparency, self.fill, self.stroke, self.clip)
    }
}

impl Clone for Group {
    fn clone(&self) -> (copy: Group)
        ensures
            copy == *self,
    {
        Group {
            id: clone_id(&self.id),
            transparency: self.transparency,
            fill: self.fill,
            stroke: self.stroke,
            clip: self.clip,
            transform: self.transform,
        }
    }
}

impl Group {
    pub const NAME: &'static str = "group";

    /// A group that sets nothing.
    pub fn new() -> (g: Group)
        ensures
            g@ == GroupView::empty(),
    {
        Group {
            id: None,
            transparency: None,
            fill: None,
            stroke: None,
            clip: Clip::Unset,
            transform: Transform::none(),
        }
    }

    pub fn id(&self) -> (r: Option<&str>)
        ensures
            str_text(r) == self@.id,
    {
        match &self.id {
            Some(s) => Some(s.as_str()),
            None => None,
        }
    }

    /// Stores and returns the global matrix under the given parent matrix.
    pub fn recalculate_transform(&mut self, parent_global: TransformMatrix) -> (m: TransformMatrix)
        ensures
            m == old(self).transform.global_under(parent_global),
            final(self)@ == (GroupView { transform: old(self).transform.composed(parent_global), ..old(self)@ }),
    {
        self.transform.compose_global(parent_global)
    }

    /// Whether the group sets no style and declares no transform.
    pub fn empty_overrides(&self) -> (r: bool)
        ensures
            r == self@.empty_overrides(),
    {
        self.transparency.is_none() && self.fill.is_none() && self.stroke.is_none() && self.clip.is_none()
            && self.transform.is_not_exist()
    }

    /// Replaces, in the inherited defaults, each value that the group sets.
    pub fn cascade(&self, inherited: ShapeDefaults) -> (below: ShapeDefaults)
        ensures
            below == self@.cascade(inherited),
    {
        let mut below = inherited;
        below.apply_overrides(self.transparency, self.fill, self.stroke, self.clip);
        below
    }
}

impl Default for Group {
    fn default() -> (g: Group)
        ensures
            g@ == GroupView::empty(),
    {
        Group::new()
    }
}

/// A group that overrides nothing passes the inherited defaults on unchanged.
pub proof fn lemma_empty_group_is_transparent(g: GroupView, inherited: ShapeDefaults)
    requires
        g.empty_overrides(),
    ensures
        g.cascade(inherited) == inherited,
{
}

} // verus!
