//! One frame: layout where it is due, then composition.
//!
//! A frame is driven from outside in steps. Each call of [`render`] takes the
//! replies of the shaping service gathered so far and returns either the next
//! request to make or the finished list of draw commands.

use vstd::prelude::*;
use crate::compose::{DrawCommand, DrawCommandView, command_views, compose, emit};
use crate::layout::{Laid, LayoutStop, LayoutStopView, laid_out, layout};
use crate::matrix::BoundingBox;
use crate::node::{Node, NodeView};
use crate::scalar::Real;
use crate::shape::{PathCommand, PathError, TextReply, TextReplyView, TextRequest, TextRequestView};
use crate::shape::text::reply_views;
use crate::style::ShapeDefaults;

verus! {

/// What the caller of a frame does next.
#[derive(Clone, Debug, PartialEq)]
pub enum RenderStep {
    /// Ask the shaping service, add its reply to the replies, and render again on an
    /// unresolved copy of the tree.
    Measure(TextRequest),
    /// Hand these commands to the renderer, in this order.
    Draw(Vec<DrawCommand>),
}

/// A step by the view of what it holds.
pub enum RenderStepView {
    Measure(TextRequestView),
    Draw(Seq<DrawCommandView>),
}

impl View for RenderStep {
    type V = RenderStepView;

    open spec fn view(&self) -> RenderStepView {
        match *self {
            RenderStep::Measure(request) => RenderStepView::Measure(request@),
            RenderStep::Draw(commands) => RenderStepView::Draw(command_views(commands@)),
        }
    }
}

/// Why a frame cannot be drawn.
#[derive(Clone, Debug, PartialEq)]
pub enum RenderError {
    /// A text names a font that the shaping service does not know.
    FontNotFound(String),
    /// A path holds a command that the interpreter has no meaning for.
    UnsupportedPathCommand(PathCommand),
}

/// An error with its string as a sequence of characters.
pub enum RenderErrorView {
    FontNotFound(Seq<char>),
    UnsupportedPathCommand(PathCommand),
}

impl View for RenderError {
    type V = RenderErrorView;

    open spec fn view(&self) -> RenderErrorView {
        match *self {
            RenderError::FontNotFound(name) => RenderErrorView::FontNotFound(name@),
            RenderError::UnsupportedPathCommand(command) => RenderErrorView::UnsupportedPathCommand(command),
        }
    }
}

/// The tree after a call of `render`, and what the call returns.
pub struct Rendered {
    pub tree: NodeView,
    pub outcome: Result<RenderStepView, RenderErrorView>,
}

/// The view of what `render` returns.
pub open spec fn step_view(r: Result<RenderStep, RenderError>) -> Result<RenderStepView, RenderErrorView> {
    match r {
        Ok(step) => Ok(step@),
        Err(e) => Err(e@),
    }
}

/// The viewport of a frame of the given size: from the origin to `(width, height)`.
pub open spec fn spec_viewport(width: Real, height: Real) -> BoundingBox {
    BoundingBox { min_x: Real::zero(), min_y: Real::zero(), max_x: width, max_y: height }
}

/// What a frame does to a tree: the tree is laid out in the viewport unless
/// `need_recalc` says that it need not be, and then composed with nothing
/// inherited. A layout that lacks a reply ends the call with the request, a missing
/// font and a path that cannot be interpreted end it with the error.
pub open spec fn rendered(
    tree: NodeView,
    width: Real,
    height: Real,
    need_recalc: Option<bool>,
    replies: Seq<TextReplyView>,
) -> Rendered {
    let laid = if need_recalc != Some(false) {
        laid_out(tree, spec_viewport(width, height), replies)
    } else {
        Laid { node: tree, outcome: Ok((spec_viewport(width, height), 0)) }
    };
    Rendered {
        tree: laid.node,
        outcome: match laid.outcome {
            Err(LayoutStopView::Measure(request)) => Ok(RenderStepView::Measure(request)),
            Err(LayoutStopView::FontNotFound(name)) => Err(RenderErrorView::FontNotFound(name)),
            Ok(_) => match emit(laid.node, ShapeDefaults::initial()).error {
                Some(PathError::UnsupportedPathCommand(command)) => Err(
                    RenderErrorView::UnsupportedPathCommand(command),
                ),
                None => Ok(RenderStepView::Draw(emit(laid.node, ShapeDefaults::initial()).commands)),
            },
        },
    }
}

#[verifier::when_used_as_spec(spec_viewport)]
pub fn viewport(width: Real, height: Real) -> (b: BoundingBox)
    ensures
        b == spec_viewport(width, height),
        width@ >= 0 && height@ >= 0 ==> b.wf(),
{
    BoundingBox { min_x: Real::zero(), min_y: Real::zero(), max_x: width, max_y: height }
}

/// One step of a frame of the given size. `need_recalc` is what the producer of the
/// tree says about whether the tree changed since it was laid out; without a word
/// from the producer the tree is laid out.
pub fn render(
    tree: &mut Node,
    width: Real,
    height: Real,
    need_recalc: Option<bool>,
    replies: &Vec<TextReply>,
) -> (r: Result<RenderStep, RenderError>)
    ensures
        final(tree)@ == rendered(old(tree)@, width, height, need_recalc, reply_views(replies@)).tree,
        step_view(r) == rendered(old(tree)@, width, height, need_recalc, reply_views(replies@)).outcome,
{
    let recalc = match need_recalc {
        Some(flag) => flag,
        None => true,
    };
    if recalc {
        match layout(tree, viewport(width, height), replies) {
            Ok(_) => {},
            Err(LayoutStop::Measure(request)) => {
                return Ok(RenderStep::Measure(request));
            },
            Err(LayoutStop::FontNotFound(name)) => {
                return Err(RenderError::FontNotFound(name));
            },
        }
    }
    match compose(tree) {
        Ok(commands) => Ok(RenderStep::Draw(commands)),
        Err(PathError::UnsupportedPathCommand(command)) => Err(RenderError::UnsupportedPathCommand(command)),
    }
}

} // verus!
