//! Paints, strokes, clips and the style values that cascade from groups.

use vstd::prelude::*;
use crate::dimension::Dimension;
use crate::matrix::Point;
use crate::scalar::Real;
use crate::transform::Transform;

verus! {

/// A colour with channels between zero and one.
#[derive(Clone, Copy, Debug, PartialEq, Eq, Structural)]
pub struct Color {
    pub r: Real,
    pub g: Real,
    pub b: Real,
    pub a: Real,
}

impl Color {
    /// Opaque black, the colour of text that has no colour of its own.
    pub open spec fn spec_black() -> Color {
        Color { r: Real::zero(), g: Real::zero(), b: Real::zero(), a: Real::one() }
    }

    /// The same colour with its alpha channel replaced.
    pub open spec fn spec_with_alpha(self, a: Real) -> Color {
        Color { a, ..self }
    }

    #[verifier::when_used_as_spec(spec_black)]
    pub fn black() -> (c: Color)
        ensures
            c == Color::spec_black(),
    {
        Color { r: Real::zero(), g: Real::zero(), b: Real::zero(), a: Real::one() }
    }

    /// An opaque colour from its three channels.
    pub fn rgb(r: Real, g: Real, b: Real) -> (c: Color)
        ensures
            c == (Color { r, g, b, a: Real::one() }),
    {
        Color { r, g, b, a: Real::one() }
    }

    #[verifier::when_used_as_spec(spec_with_alpha)]
    pub fn with_alpha(self, a: Real) -> (c: Color)
        ensures
            c == self.spec_with_alpha(a),
    {
        Color { r: self.r, g: self.g, b: self.b, a }
    }
}

impl Default for Color {
    fn default() -> (c: Color)
        ensures
            c == Color::spec_black(),
    {
        Color::black()
    }
}

/// A paint that blends from one colour to another.
#[derive(Clone, Copy, Debug, PartialEq, Eq, Structural)]
pub enum Gradient {
    Linear { start: Point, end: Point, start_color: Color, end_color: Color },
    Box { position: Point, size: Point, radius: Real, feather: Real, start_color: Color, end_color: Color },
    Radial { center: Point, inner_radius: Real, outer_radius: Real, start_color: Color, end_color: Color },
}

/// What an outline is filled or stroked with.
#[derive(Clone, Copy, Debug, PartialEq, Eq, Structural)]
pub enum Paint {
    Color(Color),
    Gradient(Gradient),
}

impl Paint {
    /// The colour of a plain paint, nothing for a gradient.
    pub open spec fn spec_color(self) -> Option<Color> {
        match self {
            Paint::Color(c) => Some(c),
            Paint::Gradient(_) => None,
        }
    }

    #[verifier::when_used_as_spec(spec_color)]
    pub fn color(self) -> (c: Option<Color>)
        ensures
            c == self.spec_color(),
    {
        match self {
            Paint::Color(c) => Some(c),
            Paint::Gradient(_) => None,
        }
    }
}

/// How the inside of an outline is painted.
#[derive(Clone, Copy, Debug, PartialEq, Eq, Structural)]
pub struct Fill {
    pub paint: Paint,
}

/// How the end of a stroked line is drawn.
#[derive(Clone, Copy, Debug, PartialEq, Eq, Structural)]
pub enum LineCap {
    Butt,
    Round,
    Square,
}

/// How two stroked lines are joined.
#[derive(Clone, Copy, Debug, PartialEq, Eq, Structural)]
pub enum LineJoin {
    Miter,
    Round,
    Bevel,
}

/// How an outline is stroked.
#[derive(Clone, Copy, Debug, PartialEq, Eq, Structural)]
pub struct Stroke {
    pub paint: Paint,
    pub width: Real,
    pub line_cap: LineCap,
    pub line_join: LineJoin,
    pub miter_limit: Real,
}

/// Horizontal text alignment.
#[derive(Clone, Copy, Debug, PartialEq, Eq, Structural)]
pub enum AlignHor {
    Left,
    Right,
    Center,
}

/// Vertical text alignment.
#[derive(Clone, Copy, Debug, PartialEq, Eq, Structural)]
pub enum AlignVer {
    Bottom,
    Middle,
    Baseline,
    Top,
}

/// A rectangle outside of which nothing is drawn.
#[derive(Clone, Copy, Debug, PartialEq, Eq, Structural)]
pub struct Scissor {
    pub x: Dimension,
    pub y: Dimension,
    pub width: Dimension,
    pub height: Dimension,
    pub transform: Transform,
}

impl Scissor {
    /// The scissor after percent resolution: `x` and `width` against the width of the
    /// parent, `y` and `height` against its height.
    pub open spec fn resolved_percent(self, width: Real, height: Real) -> Scissor {
        Scissor {
            x: self.x.resolved_percent(width),
            y: self.y.resolved_percent(height),
            width: self.width.resolved_percent(width),
            height: self.height.resolved_percent(height),
            ..self
        }
    }
}

/// The clip that a shape declares.
#[derive(Clone, Copy, Debug, PartialEq, Eq, Structural)]
pub enum Clip {
    /// No clip is declared.
    Unset,
    Scissor(Scissor),
}

impl Clip {
    pub open spec fn spec_is_none(&self) -> bool {
        *self is Unset
    }

    /// This clip where it declares one, else the fallback.
    pub open spec fn spec_or(self, other: Clip) -> Clip {
        if self is Unset {
            other
        } else {
            self
        }
    }

    /// The clip after percent resolution against a parent of the given size.
    pub open spec fn resolved_percent(self, width: Real, height: Real) -> Clip {
        match self {
            Clip::Unset => Clip::Unset,
            Clip::Scissor(s) => Clip::Scissor(s.resolved_percent(width, height)),
        }
    }

    #[verifier::when_used_as_spec(spec_is_none)]
    pub fn is_none(&self) -> (r: bool)
        ensures
            r == (*self is Unset),
    {
        match self {
            Clip::Unset => true,
            Clip::Scissor(_) => false,
        }
    }

    #[verifier::when_used_as_spec(spec_or)]
    pub fn or(self, other: Clip) -> (c: Clip)
        ensures
            c == self.spec_or(other),
    {
        match self {
            Clip::Unset => other,
            Clip::Scissor(_) => self,
        }
    }
}

impl Default for Clip {
    fn default() -> (c: Clip)
        ensures
            c == Clip::Unset,
    {
        Clip::Unset
    }
}

/// The style values that a shape falls back on where it declares none.
#[derive(Clone, Copy, Debug, PartialEq, Eq, Structural)]
pub struct ShapeDefaults {
    pub transparency: Real,
    pub fill: Option<Fill>,
    pub stroke: Option<Stroke>,
    pub clip: Clip,
}

impl ShapeDefaults {
    /// Nothing inherited: opaque, no fill, no stroke, no clip.
    pub open spec fn spec_initial() -> ShapeDefaults {
        ShapeDefaults { transparency: Real::zero(), fill: None, stroke: None, clip: Clip::Unset }
    }

    /// The defaults below a group: each value that the group sets replaces the
    /// inherited one, and every other value is passed on.
    pub open spec fn overridden(
        self,
        transparency: Option<Real>,
        fill: Option<Fill>,
        stroke: Option<Stroke>,
        clip: Clip,
    ) -> ShapeDefaults {
        ShapeDefaults {
            transparency: match transparency {
                Some(t) => t,
                None => self.transparency,
            },
            fill: match fill {
                Some(f) => Some(f),
                None => self.fill,
            },
            stroke: match stroke {
                Some(s) => Some(s),
                None => self.stroke,
            },
            clip: clip.spec_or(self.clip),
        }
    }

    #[verifier::when_used_as_spec(spec_initial)]
    pub fn initial() -> (d: ShapeDefaults)
        ensures
            d == ShapeDefaults::spec_initial(),
    {
        ShapeDefaults { transparency: Real::zero(), fill: None, stroke: None, clip: Clip::Unset }
    }

    /// Replaces each value that a group sets.
    pub fn apply_overrides(
        &mut self,
        transparency: Option<Real>,
        fill: Option<Fill>,
        stroke: Option<Stroke>,
        clip: Clip,
    )
        ensures
            *final(self) == old(self).overridden(transparency, fill, stroke, clip),
    {
        if let Some(t) = transparency {
            self.transparency = t;
        }
        if let Some(f) = fill {
            self.fill = Some(f);
        }
        if let Some(s) = stroke {
            self.stroke = Some(s);
        }
        if !clip.is_none() {
            self.clip = clip;
        }
    }
}

impl Default for ShapeDefaults {
    fn default() -> (d: ShapeDefaults)
        ensures
            d == ShapeDefaults::spec_initial(),
    {
        ShapeDefaults::initial()
    }
}

/// A clip falls back only where it declares nothing, and falling back is associative.
pub proof fn lemma_clip_or(a: Clip, b: Clip, c: Clip)
    ensures
        Clip::Unset.or(a) == a,
        a.or(Clip::Unset) == a,
        !(a is Unset) ==> a.or(b) == a,
        a.or(b).or(c) == a.or(b.or(c)),
{
}

/// An override replaces and never combines: of two groups in a row only the inner
/// value of each kind is left, whatever the outer one set.
pub proof fn lemma_override_replaces(
    d: ShapeDefaults,
    outer: Option<Real>,
    inner: Real,
    fill: Fill,
    stroke: Stroke,
)
    ensures
        d.overridden(outer, None, None, Clip::Unset).overridden(Some(inner), None, None, Clip::Unset).transparency
            == inner,
        d.overridden(None, Some(fill), None, Clip::Unset).fill == Some(fill),
        d.overridden(None, None, Some(stroke), Clip::Unset).stroke == Some(stroke),
        d.overridden(None, None, None, Clip::Unset) == d,
{
}

} // verus!
