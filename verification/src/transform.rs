//! The transform that a shape declares, and the global matrix computed from it.

use vstd::prelude::*;
use crate::matrix::{Point, TransformMatrix, lemma_identity_neutral};
use crate::scalar::Real;

verus! {

/// A shape's own affine map, whether it ignores the maps of its ancestors, and the
/// global matrix that the last layout pass computed for it.
#[derive(Clone, Copy, Debug, PartialEq, Eq, Structural)]
pub struct Transform {
    pub local: Option<TransformMatrix>,
    pub absolute: bool,
    pub global: Option<TransformMatrix>,
}

impl Transform {
    /// The transform that declares nothing.
    pub open spec fn spec_none() -> Transform {
        Transform { local: None, absolute: false, global: None }
    }

    pub open spec fn spec_is_not_exist(&self) -> bool {
        self.local is None && !self.absolute
    }

    pub open spec fn spec_is_absolute(&self) -> bool {
        self.absolute
    }

    /// The local matrix, the identity where none is declared.
    pub open spec fn spec_matrix(&self) -> TransformMatrix {
        match self.local {
            Some(m) => m,
            None => TransformMatrix::identity(),
        }
    }

    pub open spec fn spec_calculated_matrix(&self) -> Option<TransformMatrix> {
        self.global
    }

    /// The global matrix under a parent whose global matrix is `parent`: the local
    /// matrix alone for an absolute transform, else the parent's followed by it.
    pub open spec fn global_under(&self, parent: TransformMatrix) -> TransformMatrix {
        if self.absolute {
            self.spec_matrix()
        } else {
            parent.compose(self.spec_matrix())
        }
    }

    /// The transform with the global matrix under `parent` stored in it.
    pub open spec fn composed(self, parent: TransformMatrix) -> Transform {
        Transform { global: Some(self.global_under(parent)), ..self }
    }

    #[verifier::when_used_as_spec(spec_none)]
    pub fn none() -> (t: Transform)
        ensures
            t == Transform::spec_none(),
            t.is_not_exist(),
    {
        Transform { local: None, absolute: false, global: None }
    }

    /// A transform relative to the parent with the given local matrix.
    pub fn with_matrix(matrix: TransformMatrix) -> (t: Transform)
        ensures
            t == (Transform { local: Some(matrix), absolute: false, global: None }),
    {
        Transform { local: Some(matrix), absolute: false, global: None }
    }

    /// The same transform, marked to ignore the maps of its ancestors.
    pub fn into_absolute(self) -> (t: Transform)
        ensures
            t == (Transform { absolute: true, ..self }),
    {
        Transform { local: self.local, absolute: true, global: self.global }
    }

    /// Whether the transform declares nothing, so that it can be skipped.
    #[verifier::when_used_as_spec(spec_is_not_exist)]
    pub fn is_not_exist(&self) -> (r: bool)
        ensures
            r == self.spec_is_not_exist(),
    {
        self.local.is_none() && !self.absolute
    }

    #[verifier::when_used_as_spec(spec_is_absolute)]
    pub fn is_absolute(&self) -> (r: bool)
        ensures
            r == self.absolute,
    {
        self.absolute
    }

    #[verifier::when_used_as_spec(spec_matrix)]
    pub fn matrix(&self) -> (m: TransformMatrix)
        ensures
            m == self.spec_matrix(),
    {
        match self.local {
            Some(m) => m,
            None => TransformMatrix::identity(),
        }
    }

    /// The global matrix that the last call of `compose_global` stored, if any.
    #[verifier::when_used_as_spec(spec_calculated_matrix)]
    pub fn calculated_matrix(&self) -> (m: Option<TransformMatrix>)
        ensures
            m == self.global,
    {
        self.global
    }

    /// Computes the global matrix under a parent, stores it and returns it. A
    /// transform that declares nothing takes the parent's matrix without multiplying.
    pub fn compose_global(&mut self, parent: TransformMatrix) -> (m: TransformMatrix)
        ensures
            m == old(self).global_under(parent),
            *final(self) == old(self).composed(parent),
            old(self).is_not_exist() ==> m == parent,
    {
        let m = if self.is_not_exist() {
            proof {
                lemma_identity_neutral(parent, Point { x: Real::zero(), y: Real::zero() });
            }
            parent
        } else if self.absolute {
            self.matrix()
        } else {
            parent.compose(self.matrix())
        };
        self.global = Some(m);
        m
    }
}

impl Default for Transform {
    fn default() -> (t: Transform)
        ensures
            t == Transform::spec_none(),
    {
        Transform::none()
    }
}

/// Computing the global matrix again under the same parent changes nothing, and an
/// absolute transform does not depend on its parent.
pub proof fn lemma_compose_global_stable(t: Transform, parent: TransformMatrix, other: TransformMatrix)
    ensures
        t.composed(parent).composed(parent) == t.composed(parent),
        t.composed(parent).global == Some(t.global_under(parent)),
        t.absolute ==> t.global_under(parent) == t.global_under(other),
        t.is_not_exist() ==> t.global_under(parent) == parent,
{
    lemma_identity_neutral(parent, Point { x: Real::zero(), y: Real::zero() });
}

} // verus!
