//! Dimension values that are given outright, as a percentage of the parent, or left
//! to be derived from the children.

use vstd::prelude::*;
use crate::scalar::Real;

verus! {

/// How a dimension was declared.
#[derive(Clone, Copy, Debug, PartialEq, Eq, Structural)]
pub enum DimensionKind {
    /// The value is given outright.
    Absolute,
    /// The value is this many percent of a length of the parent.
    Percent(Real),
    /// The value is derived from the children.
    Auto,
}

/// A declared dimension together with the value it currently resolves to.
///
/// The declaration is kept when the value is resolved, so that every layout pass
/// resolves from the declaration and not from the outcome of an earlier pass.
#[derive(Clone, Copy, Debug, PartialEq, Eq, Structural)]
pub struct Dimension {
    pub kind: DimensionKind,
    pub value: Real,
}

impl Dimension {
    pub open spec fn spec_absolute(value: Real) -> Dimension {
        Dimension { kind: DimensionKind::Absolute, value }
    }

    pub open spec fn spec_percent(percent: Real) -> Dimension {
        Dimension { kind: DimensionKind::Percent(percent), value: Real::zero() }
    }

    pub open spec fn spec_auto() -> Dimension {
        Dimension { kind: DimensionKind::Auto, value: Real::zero() }
    }

    pub open spec fn spec_val(&self) -> Real {
        self.value
    }

    pub open spec fn spec_is_percent(&self) -> bool {
        self.kind is Percent
    }

    pub open spec fn spec_is_auto(&self) -> bool {
        self.kind is Auto
    }

    /// The dimension after percent resolution against `base`.
    pub open spec fn resolved_percent(self, base: Real) -> Dimension {
        match self.kind {
            DimensionKind::Percent(p) => Dimension { value: p.percent_of(base), ..self },
            _ => self,
        }
    }

    /// The dimension after automatic resolution to `value`.
    pub open spec fn resolved_auto(self, value: Real) -> Dimension {
        match self.kind {
            DimensionKind::Auto => Dimension { value, ..self },
            _ => self,
        }
    }

    /// The dimension with its value moved by `delta`.
    pub open spec fn shifted(self, delta: Real) -> Dimension {
        Dimension { value: self.value.add(delta), ..self }
    }

    /// A coordinate placed in a parent that starts at `origin` and is `extent` long:
    /// a percentage is resolved against the extent and then counted from the origin;
    /// any other coordinate stays as it is.
    pub open spec fn placed(self, extent: Real, origin: Real) -> Dimension {
        if self.kind is Percent {
            self.resolved_percent(extent).shifted(origin)
        } else {
            self
        }
    }

    #[verifier::when_used_as_spec(spec_absolute)]
    pub fn absolute(value: Real) -> (d: Dimension)
        ensures
            d == Dimension::spec_absolute(value),
    {
        Dimension { kind: DimensionKind::Absolute, value }
    }

    #[verifier::when_used_as_spec(spec_percent)]
    pub fn percent(percent: Real) -> (d: Dimension)
        ensures
            d == Dimension::spec_percent(percent),
    {
        Dimension { kind: DimensionKind::Percent(percent), value: Real::zero() }
    }

    #[verifier::when_used_as_spec(spec_auto)]
    pub fn auto() -> (d: Dimension)
        ensures
            d == Dimension::spec_auto(),
    {
        Dimension { kind: DimensionKind::Auto, value: Real::zero() }
    }

    /// The value the dimension currently resolves to.
    #[verifier::when_used_as_spec(spec_val)]
    pub fn val(&self) -> (v: Real)
        ensures
            v == self.value,
    {
        self.value
    }

    #[verifier::when_used_as_spec(spec_is_percent)]
    pub fn is_percent(&self) -> (r: bool)
        ensures
            r == (self.kind is Percent),
    {
        match self.kind {
            DimensionKind::Percent(_) => true,
            _ => false,
        }
    }

    #[verifier::when_used_as_spec(spec_is_auto)]
    pub fn is_auto(&self) -> (r: bool)
        ensures
            r == (self.kind is Auto),
    {
        match self.kind {
            DimensionKind::Auto => true,
            _ => false,
        }
    }

    /// Resolves a percentage against `base` and reports whether the dimension is one.
    /// A dimension of another kind is left alone.
    pub fn resolve_percent(&mut self, base: Real) -> (fired: bool)
        ensures
            *final(self) == old(self).resolved_percent(base),
            fired == (old(self).kind is Percent),
            old(self).kind matches DimensionKind::Percent(p) ==> final(self).value == p.percent_of(base),
            !(old(self).kind is Percent) ==> *final(self) == *old(self),
    {
        match self.kind {
            DimensionKind::Percent(p) => {
                self.value = p.percent_of(base);
                true
            },
            _ => false,
        }
    }

    /// Sets the value of an automatic dimension. A dimension of another kind is left alone.
    pub fn resolve_auto(&mut self, value: Real)
        ensures
            *final(self) == old(self).resolved_auto(value),
            old(self).kind is Auto ==> final(self).value == value,
            !(old(self).kind is Auto) ==> *final(self) == *old(self),
    {
        match self.kind {
            DimensionKind::Auto => {
                self.value = value;
            },
            _ => {},
        }
    }

    /// Places a coordinate in a parent that starts at `origin` and is `extent` long.
    pub fn place(&mut self, extent: Real, origin: Real)
        ensures
            *final(self) == old(self).placed(extent, origin),
    {
        if self.resolve_percent(extent) {
            self.value = self.value.add(origin);
        }
    }
}

impl Default for Dimension {
    fn default() -> (d: Dimension)
        ensures
            d == Dimension::absolute(Real::zero()),
    {
        Dimension::absolute(Real::zero())
    }
}

/// Space kept free between a shape's own box and the box of its children.
#[derive(Clone, Copy, Debug, PartialEq, Eq, Structural)]
pub struct Padding {
    pub left: Dimension,
    pub right: Dimension,
    pub top: Dimension,
    pub bottom: Dimension,
}

impl Padding {
    pub open spec fn spec_zero() -> Padding {
        Padding {
            left: Dimension::absolute(Real::zero()),
            right: Dimension::absolute(Real::zero()),
            top: Dimension::absolute(Real::zero()),
            bottom: Dimension::absolute(Real::zero()),
        }
    }

    pub open spec fn spec_left_and_right(&self) -> Real {
        self.left.value.add(self.right.value)
    }

    pub open spec fn spec_top_and_bottom(&self) -> Real {
        self.top.value.add(self.bottom.value)
    }

    /// The padding after percent resolution: left and right against the parent's
    /// width, top and bottom against its height.
    pub open spec fn resolved_percent(self, width: Real, height: Real) -> Padding {
        Padding {
            left: self.left.resolved_percent(width),
            right: self.right.resolved_percent(width),
            top: self.top.resolved_percent(height),
            bottom: self.bottom.resolved_percent(height),
        }
    }

    #[verifier::when_used_as_spec(spec_zero)]
    pub fn zero() -> (p: Padding)
        ensures
            p == Padding::spec_zero(),
    {
        Padding {
            left: Dimension::absolute(Real::zero()),
            right: Dimension::absolute(Real::zero()),
            top: Dimension::absolute(Real::zero()),
            bottom: Dimension::absolute(Real::zero()),
        }
    }

    /// The horizontal padding in total.
    #[verifier::when_used_as_spec(spec_left_and_right)]
    pub fn left_and_right(&self) -> (r: Real)
        ensures
            r == self.spec_left_and_right(),
    {
        self.left.val().add(self.right.val())
    }

    /// The vertical padding in total.
    #[verifier::when_used_as_spec(spec_top_and_bottom)]
    pub fn top_and_bottom(&self) -> (r: Real)
        ensures
            r == self.spec_top_and_bottom(),
    {
        self.top.val().add(self.bottom.val())
    }
}

impl Default for Padding {
    fn default() -> (p: Padding)
        ensures
            p == Padding::spec_zero(),
    {
        Padding::zero()
    }
}

/// Resolving a percentage twice against the same base gives what resolving it once
/// gives: the value is computed from the declared percentage, never from an earlier
/// outcome.
pub proof fn lemma_resolve_percent_idempotent(d: Dimension, base: Real)
    ensures
        d.resolved_percent(base).resolved_percent(base) == d.resolved_percent(base),
        d.kind matches DimensionKind::Percent(p) ==> d.resolved_percent(base).value == p.percent_of(base),
        d.resolved_percent(base).kind == d.kind,
{
}

/// A placed coordinate counts its offset once, however often it is placed.
pub proof fn lemma_place_idempotent(d: Dimension, extent: Real, origin: Real)
    ensures
        d.placed(extent, origin).placed(extent, origin) == d.placed(extent, origin),
{
}

/// Automatic resolution is idempotent, and touches neither an absolute dimension nor a
/// percentage, resolved or not.
pub proof fn lemma_resolve_auto_idempotent(d: Dimension, value: Real)
    ensures
        d.resolved_auto(value).resolved_auto(value) == d.resolved_auto(value),
        !(d.kind is Auto) ==> d.resolved_auto(value) == d,
{
}

/// Against a parent of no extent every percentage resolves to zero.
pub proof fn lemma_percent_of_nothing(d: Dimension)
    ensures
        d.kind is Percent ==> d.resolved_percent(Real::zero()).value == Real::zero(),
{
    if let DimensionKind::Percent(p) = d.kind {
        assert(p@ * 0 == 0) by (nonlinear_arith);
    }
}

} // verus!
