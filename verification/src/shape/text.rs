//! Texts, and what is exchanged with the service that shapes them.

use vstd::prelude::*;
use crate::dimension::Dimension;
use crate::draw::{TextOptions, spec_text_options};
use crate::matrix::{BoundingBox, TransformMatrix};
use crate::scalar::Real;
use crate::shape::{clone_id, id_text, str_text};
use crate::style::{AlignHor, AlignVer, Clip, Fill, ShapeDefaults};
use crate::transform::Transform;

verus! {

/// How a text is aligned to its position.
#[derive(Clone, Copy, Debug, PartialEq, Eq, Structural)]
pub struct Align {
    pub horizontal: AlignHor,
    pub vertical: AlignVer,
}

/// The vertical measures of a line of text.
#[derive(Clone, Copy, Debug, PartialEq, Eq, Structural)]
pub struct TextMetrics {
    pub ascender: Real,
    pub descender: Real,
    pub line_height: Real,
}

/// The horizontal extent of one glyph.
#[derive(Clone, Copy, Debug, PartialEq, Eq, Structural)]
pub struct GlyphPos {
    pub x: Real,
    pub min_x: Real,
    pub max_x: Real,
}

/// A line of text with its own style and, once laid out, its measures.
#[derive(Debug, PartialEq)]
pub struct Text {
    pub id: Option<String>,
    pub x: Dimension,
    pub y: Dimension,
    pub font_name: String,
    pub font_size: Dimension,
    pub align: Align,
    pub content: String,
    pub fill: Option<Fill>,
    pub clip: Clip,
    pub transform: Transform,
    pub transparency: Real,
    pub metrics: Option<TextMetrics>,
    pub glyph_positions: Vec<GlyphPos>,
}

/// What a text holds, with its strings and its glyphs as sequences.
pub struct TextView {
    pub id: Option<Seq<char>>,
    pub x: Dimension,
    pub y: Dimension,
    pub font_name: Seq<char>,
    pub font_size: Dimension,
    pub align: Align,
    pub content: Seq<char>,
    pub fill: Option<Fill>,
    pub clip: Clip,
    pub transform: Transform,
    pub transparency: Real,
    pub metrics: Option<TextMetrics>,
    pub glyph_positions: Seq<GlyphPos>,
}

impl View for Text {
    type V = TextView;

    open spec fn view(&self) -> TextView {
        TextView {
            id: id_text(self.id),
            x: self.x,
            y: self.y,
            font_name: self.font_name@,
            font_size: self.font_size,
            align: self.align,
            content: self.content@,
            fill: self.fill,
            clip: self.clip,
            transform: self.transform,
            transparency: self.transparency,
            metrics: self.metrics,
            glyph_positions: self.glyph_positions@,
        }
    }
}

/// What the shaping service is asked: to measure `content` set in the font
/// `font_name` at the position `(x, y)` with the given options.
#[derive(Clone, Debug, PartialEq)]
pub struct TextRequest {
    pub font_name: String,
    pub content: String,
    pub x: Real,
    pub y: Real,
    pub options: TextOptions,
}

/// A request with its strings as sequences of characters.
pub struct TextRequestView {
    pub font_name: Seq<char>,
    pub content: Seq<char>,
    pub x: Real,
    pub y: Real,
    pub options: TextOptions,
}

impl View for TextRequest {
    type V = TextRequestView;

    open spec fn view(&self) -> TextRequestView {
        TextRequestView {
            font_name: self.font_name@,
            content: self.content@,
            x: self.x,
            y: self.y,
            options: self.options,
        }
    }
}

/// What the shaping service answered.
#[derive(Clone, Debug, PartialEq)]
pub enum TextReply {
    /// The measures of the line and the extents of its glyphs, in the coordinates of
    /// the position that was asked for.
    Shaped { metrics: TextMetrics, glyphs: Vec<GlyphPos> },
    /// No font of the name that was asked for is registered.
    FontNotFound,
}

/// A reply with its glyphs as a sequence.
pub enum TextReplyView {
    Shaped { metrics: TextMetrics, glyphs: Seq<GlyphPos> },
    FontNotFound,
}

impl View for TextReply {
    type V = TextReplyView;

    open spec fn view(&self) -> TextReplyView {
        match *self {
            TextReply::Shaped { metrics, glyphs } => TextReplyView::Shaped { metrics, glyphs: glyphs@ },
            TextReply::FontNotFound => TextReplyView::FontNotFound,
        }
    }
}

/// The replies of a list, each by its view.
pub open spec fn reply_views(replies: Seq<TextReply>) -> Seq<TextReplyView> {
    replies.map_values(|r: TextReply| r@)
}

/// A copy of a list of glyph extents.
pub fn copy_glyphs(glyphs: &Vec<GlyphPos>) -> (copy: Vec<GlyphPos>)
    ensures
        copy@ == glyphs@,
{
    let mut copy: Vec<GlyphPos> = Vec::new();
    let mut i: usize = 0;
    while i < glyphs.len()
        invariant
            i <= glyphs.len(),
            copy@ == glyphs@.take(i as int),
        decreases glyphs.len() - i,
    {
        copy.push(glyphs[i]);
        assert(copy@ =~= glyphs@.take(i + 1));
        i += 1;
    }
    assert(copy@ =~= glyphs@);
    copy
}

impl TextView {
    /// The text after the first half of the top-down step: a percent position is
    /// resolved and counted from the parent's corner, the clip is resolved, and the
    /// global matrix is stored.
    pub open spec fn placed(self, parent: BoundingBox, parent_global: TransformMatrix) -> TextView {
        TextView {
            x: self.x.placed(parent.width(), parent.min_x),
            y: self.y.placed(parent.height(), parent.min_y),
            clip: self.clip.resolved_percent(parent.width(), parent.height()),
            transform: self.transform.composed(parent_global),
            ..self
        }
    }

    /// What the shaping service is asked for a placed text under the given defaults.
    pub open spec fn request(self, defaults: ShapeDefaults) -> TextRequestView {
        TextRequestView {
            font_name: self.font_name,
            content: self.content,
            x: self.x.value,
            y: self.y.value,
            options: spec_text_options(self, defaults),
        }
    }

    /// The text with the measures of a reply stored in it.
    pub open spec fn shaped(self, metrics: TextMetrics, glyphs: Seq<GlyphPos>) -> TextView {
        TextView { metrics: Some(metrics), glyph_positions: glyphs, ..self }
    }

    /// How far the glyphs reach to the right: the right edge of the last glyph, zero
    /// for a text without glyphs.
    pub open spec fn extent(self) -> Real {
        if self.glyph_positions.len() > 0 {
            self.glyph_positions.last().max_x
        } else {
            Real::zero()
        }
    }

    /// The height of a line, zero for a text that was not measured.
    pub open spec fn line_height(self) -> Real {
        match self.metrics {
            Some(m) => m.line_height,
            None => Real::zero(),
        }
    }

    /// The box from the position, as wide as the glyphs reach and one line high.
    pub open spec fn bound(self) -> BoundingBox {
        BoundingBox {
            min_x: self.x.value,
            min_y: self.y.value,
            max_x: self.x.value.add(self.extent()),
            max_y: self.y.value.add(self.line_height()),
        }
    }

    /// The box after the bottom-up step: the smallest box around the corners of the
    /// text's own box and of the box of its children, each mapped by the text's
    /// local matrix.
    pub open spec fn transformed_bound(self, own: BoundingBox, inner: BoundingBox) -> BoundingBox {
        let m = self.transform.spec_matrix();
        BoundingBox::spec_enclosing(m.spec_corners(own)).spec_union(BoundingBox::spec_enclosing(m.spec_corners(inner)))
    }
}

impl Clone for Text {
    fn clone(&self) -> (copy: Text)
        ensures
            copy@ == self@,
    {
        Text {
            id: clone_id(&self.id),
            x: self.x,
            y: self.y,
            font_name: self.font_name.clone(),
            font_size: self.font_size,
            align: self.align,
            content: self.content.clone(),
            fill: self.fill,
            clip: self.clip,
            transform: self.transform,
            transparency: self.transparency,
            metrics: self.metrics,
            glyph_positions: copy_glyphs(&self.glyph_positions),
        }
    }
}

impl Text {
    /// A text at the origin in the given font and size, aligned to the left of its
    /// baseline, without style and not yet measured.
    pub fn new(font_name: String, font_size: Real, content: String) -> (t: Text)
        ensures
            t@ == (TextView {
                id: None,
                x: Dimension::absolute(Real::zero()),
                y: Dimension::absolute(Real::zero()),
                font_name: font_name@,
                font_size: Dimension::absolute(font_size),
                align: Align { horizontal: AlignHor::Left, vertical: AlignVer::Baseline },
                content: content@,
                fill: None,
                clip: Clip::Unset,
                transform: Transform::none(),
                transparency: Real::zero(),
                metrics: None,
                glyph_positions: Seq::empty(),
            }),
    {
        Text {
            id: None,
            x: Dimension::absolute(Real::zero()),
            y: Dimension::absolute(Real::zero()),
            font_name,
            font_size: Dimension::absolute(font_size),
            align: Align { horizontal: AlignHor::Left, vertical: AlignVer::Baseline },
            content,
            fill: None,
            clip: Clip::Unset,
            transform: Transform::none(),
            transparency: Real::zero(),
            metrics: None,
            glyph_positions: Vec::new(),
        }
    }

    pub fn id(&self) -> (r: Option<&str>)
        ensures
            str_text(r) == self@.id,
    {
        match &self.id {
            Some(s) => Some(s.as_str()),
            None => None,
        }
    }

    /// Stores and returns the global matrix under the given parent matrix.
    pub fn recalculate_transform(&mut self, parent_global: TransformMatrix) -> (m: TransformMatrix)
        ensures
            m == old(self).transform.global_under(parent_global),
            final(self)@ == (TextView { transform: old(self).transform.composed(parent_global), ..old(self)@ }),
    {
        self.transform.compose_global(parent_global)
    }

    /// The box from the position, as wide as the glyphs reach and one line high.
    pub fn bound(&self) -> (b: BoundingBox)
        ensures
            b == self@.bound(),
    {
        let n = self.glyph_positions.len();
        let extent = if n > 0 {
            self.glyph_positions[n - 1].max_x
        } else {
            Real::zero()
        };
        let line_height = match self.metrics {
            Some(m) => m.line_height,
            None => Real::zero(),
        };
        BoundingBox {
            min_x: self.x.val(),
            min_y: self.y.val(),
            max_x: self.x.val().add(extent),
            max_y: self.y.val().add(line_height),
        }
    }

    /// The smallest box around the corners of `own` and `inner`, each mapped by the
    /// text's local matrix.
    pub fn transformed_bound(&self, own: BoundingBox, inner: BoundingBox) -> (b: BoundingBox)
        ensures
            b == self@.transformed_bound(own, inner),
            b.wf(),
    {
        let m = self.transform.matrix();
        let own_points = m.corners(own);
        let inner_points = m.corners(inner);
        BoundingBox::enclosing(&own_points).union(BoundingBox::enclosing(&inner_points))
    }
}

} // verus!
