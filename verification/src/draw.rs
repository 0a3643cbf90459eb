//! Resolved drawing parameters: what a renderer needs to know to draw one shape,
//! with every cascading default already applied.

use vstd::prelude::*;
use crate::matrix::TransformMatrix;
use crate::scalar::Real;
use crate::shape::text::{Align, TextView, Text};
use crate::style::{Clip, Color, Fill, LineCap, LineJoin, ShapeDefaults, Stroke};
use crate::transform::Transform;

verus! {

/// A transform as a renderer applies it.
#[derive(Clone, Copy, Debug, PartialEq, Eq, Structural)]
pub struct DrawTransform {
    pub matrix: TransformMatrix,
    pub absolute: bool,
}

/// A clip in resolved coordinates.
#[derive(Clone, Copy, Debug, PartialEq, Eq, Structural)]
pub enum DrawClip {
    Unclipped,
    Scissor { x: Real, y: Real, width: Real, height: Real, transform: Option<DrawTransform> },
}

/// How an outline is drawn as a whole.
#[derive(Clone, Copy, Debug, PartialEq, Eq, Structural)]
pub struct PathOptions {
    pub alpha: Real,
    pub clip: DrawClip,
    pub transform: Option<DrawTransform>,
}

/// How an outline is stroked.
#[derive(Clone, Copy, Debug, PartialEq, Eq, Structural)]
pub struct StrokeOptions {
    pub width: Real,
    pub line_cap: LineCap,
    pub line_join: LineJoin,
    pub miter_limit: Real,
}

/// How a text is drawn and measured.
#[derive(Clone, Copy, Debug, PartialEq, Eq, Structural)]
pub struct TextOptions {
    pub color: Color,
    pub size: Real,
    pub align: Align,
    pub clip: DrawClip,
    pub transform: Option<DrawTransform>,
}

/// The transform to draw with: none for a transform that declares nothing, else the
/// stored global matrix, or the local matrix where no global matrix was stored yet.
pub open spec fn spec_draw_transform(transform: Transform) -> Option<DrawTransform> {
    if transform.is_not_exist() {
        None
    } else {
        Some(
            DrawTransform {
                matrix: match transform.global {
                    Some(m) => m,
                    None => transform.spec_matrix(),
                },
                absolute: transform.absolute,
            },
        )
    }
}

/// The clip to draw with, in the values that its dimensions resolved to.
pub open spec fn spec_draw_clip(clip: Clip) -> DrawClip {
    match clip {
        Clip::Scissor(s) => DrawClip::Scissor {
            x: s.x.value,
            y: s.y.value,
            width: s.width.value,
            height: s.height.value,
            transform: spec_draw_transform(s.transform),
        },
        Clip::Unset => DrawClip::Unclipped,
    }
}

/// The opacity of a shape with the given transparency under the given inherited
/// transparency: the product of what each of the two lets through.
pub open spec fn spec_effective_alpha(own: Real, inherited: Real) -> Real {
    Real::one().sub(own).mul(Real::one().sub(inherited))
}

/// The paint that fills a shape: its own where it has one, else the inherited one.
pub open spec fn spec_effective_fill(own: Option<Fill>, defaults: ShapeDefaults) -> Option<Fill> {
    match own {
        Some(f) => Some(f),
        None => defaults.fill,
    }
}

/// The stroke of a shape: its own where it has one, else the inherited one.
pub open spec fn spec_effective_stroke(own: Option<Stroke>, defaults: ShapeDefaults) -> Option<Stroke> {
    match own {
        Some(s) => Some(s),
        None => defaults.stroke,
    }
}

pub open spec fn spec_path_options(
    transparency: Real,
    clip: Clip,
    transform: Transform,
    defaults: ShapeDefaults,
) -> PathOptions {
    PathOptions {
        alpha: spec_effective_alpha(transparency, defaults.transparency),
        clip: spec_draw_clip(clip.spec_or(defaults.clip)),
        transform: spec_draw_transform(transform),
    }
}

pub open spec fn spec_stroke_option(stroke: Stroke) -> StrokeOptions {
    StrokeOptions {
        width: stroke.width,
        line_cap: stroke.line_cap,
        line_join: stroke.line_join,
        miter_limit: stroke.miter_limit,
    }
}

/// The colour of a text: that of its effective fill where this is a plain colour,
/// else opaque black; its alpha is scaled by what the inherited transparency and
/// the text's own transparency let through.
pub open spec fn spec_text_color(own: Option<Fill>, transparency: Real, defaults: ShapeDefaults) -> Color {
    let base = match spec_effective_fill(own, defaults) {
        Some(fill) => match fill.paint.spec_color() {
            Some(c) => c,
            None => Color::black(),
        },
        None => Color::black(),
    };
    base.spec_with_alpha(
        base.a.mul(Real::one().sub(defaults.transparency)).mul(Real::one().sub(transparency)),
    )
}

pub open spec fn spec_text_options(text: TextView, defaults: ShapeDefaults) -> TextOptions {
    TextOptions {
        color: spec_text_color(text.fill, text.transparency, defaults),
        size: text.font_size.value,
        align: text.align,
        clip: spec_draw_clip(text.clip.spec_or(defaults.clip)),
        transform: spec_draw_transform(text.transform),
    }
}

/// The transform to draw with, none where the shape declares nothing.
#[verifier::when_used_as_spec(spec_draw_transform)]
pub fn draw_transform(transform: Transform) -> (r: Option<DrawTransform>)
    ensures
        r == spec_draw_transform(transform),
        r is None <==> transform.is_not_exist(),
{
    if transform.is_not_exist() {
        None
    } else {
        let matrix = match transform.calculated_matrix() {
            Some(m) => m,
            None => transform.matrix(),
        };
        Some(DrawTransform { matrix, absolute: transform.is_absolute() })
    }
}

/// The clip to draw with.
#[verifier::when_used_as_spec(spec_draw_clip)]
pub fn draw_clip(clip: Clip) -> (r: DrawClip)
    ensures
        r == spec_draw_clip(clip),
{
    match clip {
        Clip::Scissor(scissor) => DrawClip::Scissor {
            x: scissor.x.val(),
            y: scissor.y.val(),
            width: scissor.width.val(),
            height: scissor.height.val(),
            transform: draw_transform(scissor.transform),
        },
        Clip::Unset => DrawClip::Unclipped,
    }
}

#[verifier::when_used_as_spec(spec_effective_alpha)]
pub fn effective_alpha(own: Real, inherited: Real) -> (alpha: Real)
    ensures
        alpha == spec_effective_alpha(own, inherited),
{
    Real::one().sub(own).mul(Real::one().sub(inherited))
}

#[verifier::when_used_as_spec(spec_effective_fill)]
pub fn effective_fill(own: Option<Fill>, defaults: ShapeDefaults) -> (fill: Option<Fill>)
    ensures
        fill == spec_effective_fill(own, defaults),
{
    match own {
        Some(f) => Some(f),
        None => defaults.fill,
    }
}

#[verifier::when_used_as_spec(spec_effective_stroke)]
pub fn effective_stroke(own: Option<Stroke>, defaults: ShapeDefaults) -> (stroke: Option<Stroke>)
    ensures
        stroke == spec_effective_stroke(own, defaults),
{
    match own {
        Some(s) => Some(s),
        None => defaults.stroke,
    }
}

/// The options to draw an outline with: the effective opacity, the shape's clip or
/// else the inherited one, and the shape's transform.
#[verifier::when_used_as_spec(spec_path_options)]
pub fn path_options(transparency: Real, clip: Clip, transform: Transform, defaults: ShapeDefaults) -> (r:
    PathOptions)
    ensures
        r == spec_path_options(transparency, clip, transform, defaults),
{
    PathOptions {
        alpha: effective_alpha(transparency, defaults.transparency),
        clip: draw_clip(clip.or(defaults.clip)),
        transform: draw_transform(transform),
    }
}

/// The options to stroke an outline with.
#[verifier::when_used_as_spec(spec_stroke_option)]
pub fn stroke_option(stroke: Stroke) -> (r: StrokeOptions)
    ensures
        r == spec_stroke_option(stroke),
{
    StrokeOptions {
        width: stroke.width,
        line_cap: stroke.line_cap,
        line_join: stroke.line_join,
        miter_limit: stroke.miter_limit,
    }
}

/// The options to draw and measure a text with.
pub fn text_options(text: &Text, defaults: ShapeDefaults) -> (r: TextOptions)
    ensures
        r == spec_text_options(text@, defaults),
{
    let base = match effective_fill(text.fill, defaults) {
        Some(fill) => match fill.paint.color() {
            Some(c) => c,
            None => Color::black(),
        },
        None => Color::black(),
    };
    let alpha = base.a.mul(Real::one().sub(defaults.transparency)).mul(Real::one().sub(text.transparency));
    TextOptions {
        color: base.with_alpha(alpha),
        size: text.font_size.val(),
        align: text.align,
        clip: draw_clip(text.clip.or(defaults.clip)),
        transform: draw_transform(text.transform),
    }
}

/// A shape that is opaque under opaque defaults is drawn opaque, and a shape that
/// is fully transparent, or that inherits full transparency, is not seen.
pub proof fn lemma_alpha_extremes(t: Real)
    ensures
        effective_alpha(Real::zero(), Real::zero()) == Real::one(),
        effective_alpha(Real::one(), t) == Real::zero(),
        effective_alpha(t, Real::one()) == Real::zero(),
        effective_alpha(t, Real::zero()) == Real::one().sub(t),
        effective_alpha(Real::zero(), t) == Real::one().sub(t),
{
    crate::scalar::lemma_mul_unit(Real::one().sub(t));
    crate::scalar::lemma_mul_unit(Real::one());
}

/// The effective opacity does not depend on which of the two transparencies is the
/// shape's own.
pub proof fn lemma_alpha_symmetric(own: Real, inherited: Real)
    ensures
        effective_alpha(own, inherited) == effective_alpha(inherited, own),
{
    let a = Real::one().sub(own)@;
    let b = Real::one().sub(inherited)@;
    assert(a * b == b * a) by (nonlinear_arith);
}

} // verus!
