//! Text alignment in the form that the nanovg renderer takes it.
//!
//! A nanovg alignment is a set of flags behind a builder. This module turns the
//! library's own [`Align`] into one by calls of that builder. What the builder
//! does to the flags is taken on trust from its source; that the calls made here
//! end with exactly the two flags asked for is proved.

use vstd::prelude::*;
use crate::shape::text::Align;
use crate::style::{AlignHor, AlignVer};

verus! {

/// One of the flags that a nanovg alignment is made of.
#[derive(Clone, Copy, Debug, PartialEq, Eq, Structural)]
pub enum AlignFlag {
    Left,
    Center,
    Right,
    Top,
    Middle,
    Bottom,
    Baseline,
}

/// `nanovg::Alignment`, a set of alignment flags that is built by method calls and
/// read by the renderer only.
#[verifier::external_type_specification]
#[verifier::external_body]
pub struct ExAlignment(nanovg::Alignment);

/// The flags that are set in a nanovg alignment.
pub uninterp spec fn alignment_flags(alignment: nanovg::Alignment) -> Set<AlignFlag>;

/// `nanovg::Alignment::new` starts from no flags and then calls `top` and `left`:
/// exactly these two flags are set.
pub assume_specification[ nanovg::Alignment::new ]() -> (r: nanovg::Alignment)
    ensures
        alignment_flags(r) == set![AlignFlag::Top, AlignFlag::Left],
;

/// `nanovg::Alignment::left` removes the flags for right and center and inserts
/// the flag for left.
pub assume_specification[ nanovg::Alignment::left ](a: nanovg::Alignment) -> (r: nanovg::Alignment)
    ensures
        alignment_flags(r) == alignment_flags(a).remove(AlignFlag::Right).remove(AlignFlag::Center).insert(
            AlignFlag::Left,
        ),
;

/// `nanovg::Alignment::center` removes the flags for left and right and inserts
/// the flag for center.
pub assume_specification[ nanovg::Alignment::center ](a: nanovg::Alignment) -> (r: nanovg::Alignment)
    ensures
        alignment_flags(r) == alignment_flags(a).remove(AlignFlag::Left).remove(AlignFlag::Right).insert(
            AlignFlag::Center,
        ),
;

/// `nanovg::Alignment::right` removes the flags for left and center and inserts
/// the flag for right.
pub assume_specification[ nanovg::Alignment::right ](a: nanovg::Alignment) -> (r: nanovg::Alignment)
    ensures
        alignment_flags(r) == alignment_flags(a).remove(AlignFlag::Left).remove(AlignFlag::Center).insert(
            AlignFlag::Right,
        ),
;

/// `nanovg::Alignment::top` removes the flags for bottom, middle and baseline and
/// inserts the flag for top.
pub assume_specification[ nanovg::Alignment::top ](a: nanovg::Alignment) -> (r: nanovg::Alignment)
    ensures
        alignment_flags(r) == alignment_flags(a).remove(AlignFlag::Bottom).remove(AlignFlag::Middle).remove(
            AlignFlag::Baseline,
        ).insert(AlignFlag::Top),
;

/// `nanovg::Alignment::middle` removes the flags for top, bottom and baseline and
/// inserts the flag for middle.
pub assume_specification[ nanovg::Alignment::middle ](a: nanovg::Alignment) -> (r: nanovg::Alignment)
    ensures
        alignment_flags(r) == alignment_flags(a).remove(AlignFlag::Top).remove(AlignFlag::Bottom).remove(
            AlignFlag::Baseline,
        ).insert(AlignFlag::Middle),
;

/// `nanovg::Alignment::bottom` removes the flags for top, middle and baseline and
/// inserts the flag for bottom.
pub assume_specification[ nanovg::Alignment::bottom ](a: nanovg::Alignment) -> (r: nanovg::Alignment)
    ensures
        alignment_flags(r) == alignment_flags(a).remove(AlignFlag::Top).remove(AlignFlag::Middle).remove(
            AlignFlag::Baseline,
        ).insert(AlignFlag::Bottom),
;

/// `nanovg::Alignment::baseline` removes the flags for top, middle and bottom and
/// inserts the flag for baseline.
pub assume_specification[ nanovg::Alignment::baseline ](a: nanovg::Alignment) -> (r: nanovg::Alignment)
    ensures
        alignment_flags(r) == alignment_flags(a).remove(AlignFlag::Top).remove(AlignFlag::Middle).remove(
            AlignFlag::Bottom,
        ).insert(AlignFlag::Baseline),
;

/// The flag of a horizontal alignment.
pub open spec fn horizontal_flag(horizontal: AlignHor) -> AlignFlag {
    match horizontal {
        AlignHor::Left => AlignFlag::Left,
        AlignHor::Right => AlignFlag::Right,
        AlignHor::Center => AlignFlag::Center,
    }
}

/// The flag of a vertical alignment.
pub open spec fn vertical_flag(vertical: AlignVer) -> AlignFlag {
    match vertical {
        AlignVer::Bottom => AlignFlag::Bottom,
        AlignVer::Middle => AlignFlag::Middle,
        AlignVer::Baseline => AlignFlag::Baseline,
        AlignVer::Top => AlignFlag::Top,
    }
}

/// The nanovg alignment of a text alignment: the flag of its horizontal part and
/// the flag of its vertical part are set, and no other.
pub fn text_alignment(align: Align) -> (r: nanovg::Alignment)
    ensures
        alignment_flags(r) == set![horizontal_flag(align.horizontal), vertical_flag(align.vertical)],
{
    let start = nanovg::Alignment::new();
    let across = match align.horizontal {
        AlignHor::Left => start.left(),
        AlignHor::Right => start.right(),
        AlignHor::Center => start.center(),
    };
    let both = match align.vertical {
        AlignVer::Bottom => across.bottom(),
        AlignVer::Middle => across.middle(),
        AlignVer::Baseline => across.baseline(),
        AlignVer::Top => across.top(),
    };
    assert(alignment_flags(both) =~= set![horizontal_flag(align.horizontal), vertical_flag(align.vertical)]);
    both
}

} // verus!
