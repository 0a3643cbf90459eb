//! The composition pass: one walk over a laid-out tree, in document order, that
//! turns every shape with geometry into a draw command with its cascading
//! defaults applied.
//!
//! The defaults are handed down by value: what a group sets holds for the shapes
//! below that group and for no others.

use vstd::prelude::*;
use crate::draw::{
    PathOptions, StrokeOptions, TextOptions, effective_fill, effective_stroke, path_options,
    spec_effective_fill, spec_effective_stroke, spec_path_options, spec_stroke_option,
    spec_text_options, stroke_option, text_options,
};
use crate::node::{Node, NodeView};
use crate::scalar::Real;
use crate::shape::{GlyphPos, PathError, PathSegment, Shape, ShapeView};
use crate::shape::path::{interpret, run};
use crate::shape::text::copy_glyphs;
use crate::style::{Fill, Paint, ShapeDefaults, Stroke};

verus! {

/// The paint and the options of a stroke.
#[derive(Clone, Copy, Debug, PartialEq, Eq, Structural)]
pub struct StrokeDraw {
    pub paint: Paint,
    pub options: StrokeOptions,
}

/// The outline that a command draws, in resolved coordinates.
#[derive(Clone, Debug, PartialEq)]
pub enum Outline {
    Rect { x: Real, y: Real, width: Real, height: Real },
    Circle { cx: Real, cy: Real, r: Real },
    Path(Vec<PathSegment>),
}

/// An outline with its segments as a sequence.
pub enum OutlineView {
    Rect { x: Real, y: Real, width: Real, height: Real },
    Circle { cx: Real, cy: Real, r: Real },
    Path(Seq<PathSegment>),
}

impl View for Outline {
    type V = OutlineView;

    open spec fn view(&self) -> OutlineView {
        match *self {
            Outline::Rect { x, y, width, height } => OutlineView::Rect { x, y, width, height },
            Outline::Circle { cx, cy, r } => OutlineView::Circle { cx, cy, r },
            Outline::Path(segments) => OutlineView::Path(segments@),
        }
    }
}

/// One instruction to a renderer.
#[derive(Clone, Debug, PartialEq)]
pub enum DrawCommand {
    /// Build the outline, fill it where a fill is given, then stroke it where a
    /// stroke is given.
    Path { outline: Outline, fill: Option<Paint>, stroke: Option<StrokeDraw>, options: PathOptions },
    /// Draw a line of text at a position.
    Text { font_name: String, x: Real, y: Real, content: String, options: TextOptions, glyphs: Vec<GlyphPos> },
}

/// A command with its strings, segments and glyphs as sequences.
pub enum DrawCommandView {
    Path { outline: OutlineView, fill: Option<Paint>, stroke: Option<StrokeDraw>, options: PathOptions },
    Text {
        font_name: Seq<char>,
        x: Real,
        y: Real,
        content: Seq<char>,
        options: TextOptions,
        glyphs: Seq<GlyphPos>,
    },
}

impl View for DrawCommand {
    type V = DrawCommandView;

    open spec fn view(&self) -> DrawCommandView {
        match *self {
            DrawCommand::Path { outline, fill, stroke, options } => DrawCommandView::Path {
                outline: outline@,
                fill,
                stroke,
                options,
            },
            DrawCommand::Text { font_name, x, y, content, options, glyphs } => DrawCommandView::Text {
                font_name: font_name@,
                x,
                y,
                content: content@,
                options,
                glyphs: glyphs@,
            },
        }
    }
}

/// The commands of a list, each by its view.
pub open spec fn command_views(commands: Seq<DrawCommand>) -> Seq<DrawCommandView> {
    commands.map_values(|c: DrawCommand| c@)
}

/// What a walk emitted: the commands in document order, and the error that stopped
/// it, if any. After an error nothing more is emitted.
pub struct Emission {
    pub commands: Seq<DrawCommandView>,
    pub error: Option<PathError>,
}

/// The paint of a fill, if there is one.
pub open spec fn spec_fill_paint(fill: Option<Fill>) -> Option<Paint> {
    match fill {
        Some(f) => Some(f.paint),
        None => None,
    }
}

/// The paint and the options of a stroke, if there is one.
pub open spec fn spec_stroke_draw(stroke: Option<Stroke>) -> Option<StrokeDraw> {
    match stroke {
        Some(s) => Some(StrokeDraw { paint: s.paint, options: spec_stroke_option(s) }),
        None => None,
    }
}

/// The command that draws an outline with the style of a shape: filled with the
/// shape's fill or else the inherited one, stroked with its stroke or else the
/// inherited one, under the effective opacity, clip and transform.
pub open spec fn outline_command(
    outline: OutlineView,
    fill: Option<Fill>,
    stroke: Option<Stroke>,
    options: PathOptions,
    defaults: ShapeDefaults,
) -> DrawCommandView {
    DrawCommandView::Path {
        outline,
        fill: spec_fill_paint(spec_effective_fill(fill, defaults)),
        stroke: spec_stroke_draw(spec_effective_stroke(stroke, defaults)),
        options,
    }
}

/// What one shape draws under the given defaults: one command for a rectangle, a
/// circle, a path or a text, and none for a group or a word. A path with a command
/// that has no meaning draws nothing and gives the error.
pub open spec fn shape_command(shape: ShapeView, defaults: ShapeDefaults) -> Result<
    Option<DrawCommandView>,
    PathError,
> {
    match shape {
        ShapeView::Rect(rect) => Ok(
            Some(
                outline_command(
                    OutlineView::Rect {
                        x: rect.x.value,
                        y: rect.y.value,
                        width: rect.width.value,
                        height: rect.height.value,
                    },
                    rect.fill,
                    rect.stroke,
                    spec_path_options(rect.transparency, rect.clip, rect.transform, defaults),
                    defaults,
                ),
            ),
        ),
        ShapeView::Circle(circle) => Ok(
            Some(
                outline_command(
                    OutlineView::Circle { cx: circle.cx.value, cy: circle.cy.value, r: circle.r.value },
                    circle.fill,
                    circle.stroke,
                    spec_path_options(circle.transparency, circle.clip, circle.transform, defaults),
                    defaults,
                ),
            ),
        ),
        ShapeView::Path(path) => match run(path.commands).error {
            Some(e) => Err(e),
            None => Ok(
                Some(
                    outline_command(
                        OutlineView::Path(run(path.commands).segments),
                        path.fill,
                        path.stroke,
                        spec_path_options(path.transparency, path.clip, path.transform, defaults),
                        defaults,
                    ),
                ),
            ),
        },
        ShapeView::Text(text) => Ok(
            Some(
                DrawCommandView::Text {
                    font_name: text.font_name,
                    x: text.x.value,
                    y: text.y.value,
                    content: text.content,
                    options: spec_text_options(text, defaults),
                    glyphs: text.glyph_positions,
                },
            ),
        ),
        ShapeView::Group(_) | ShapeView::Word(_) => Ok(None),
    }
}

/// The defaults that hold for the children of a shape: below a group, the inherited
/// ones with each value that the group sets replaced; below any other shape, the
/// inherited ones.
pub open spec fn defaults_below(shape: ShapeView, defaults: ShapeDefaults) -> ShapeDefaults {
    match shape {
        ShapeView::Group(group) => group.cascade(defaults),
        _ => defaults,
    }
}

/// What the first `k` children of a node emit, in document order, each under the
/// same defaults.
pub open spec fn emit_children(children: Seq<NodeView>, k: nat, defaults: ShapeDefaults) -> Emission
    decreases children, k,
{
    if k == 0 || k > children.len() {
        Emission { commands: Seq::empty(), error: None }
    } else {
        let before = emit_children(children, (k - 1) as nat, defaults);
        if before.error is Some {
            before
        } else {
            let child = emit(children[k - 1], defaults);
            Emission { commands: before.commands + child.commands, error: child.error }
        }
    }
}

/// What a node and everything below it emits under the given defaults: the command
/// of its own shape first, then what its children emit.
pub open spec fn emit(node: NodeView, defaults: ShapeDefaults) -> Emission
    decreases node, 0nat,
{
    match shape_command(node.shape, defaults) {
        Err(e) => Emission { commands: Seq::empty(), error: Some(e) },
        Ok(own) => {
            let below = emit_children(node.children, node.children.len(), defaults_below(node.shape, defaults));
            Emission {
                commands: match own {
                    Some(c) => seq![c] + below.commands,
                    None => below.commands,
                },
                error: below.error,
            }
        },
    }
}

fn fill_paint(fill: Option<Fill>) -> (r: Option<Paint>)
    ensures
        r == spec_fill_paint(fill),
{
    match fill {
        Some(f) => Some(f.paint),
        None => None,
    }
}

fn stroke_draw(stroke: Option<Stroke>) -> (r: Option<StrokeDraw>)
    ensures
        r == spec_stroke_draw(stroke),
{
    match stroke {
        Some(s) => Some(StrokeDraw { paint: s.paint, options: stroke_option(s) }),
        None => None,
    }
}

/// The command that one shape draws under the given defaults, if it draws any.
pub fn draw_shape(shape: &Shape, defaults: ShapeDefaults) -> (r: Result<Option<DrawCommand>, PathError>)
    ensures
        match r {
            Ok(Some(c)) => shape_command(shape@, defaults) == Ok::<Option<DrawCommandView>, PathError>(Some(c@)),
            Ok(None) => shape_command(shape@, defaults) == Ok::<Option<DrawCommandView>, PathError>(None),
            Err(e) => shape_command(shape@, defaults) == Err::<Option<DrawCommandView>, PathError>(e),
        },
{
    match shape {
        Shape::Rect(rect) => Ok(
            Some(
                DrawCommand::Path {
                    outline: Outline::Rect {
                        x: rect.x.val(),
                        y: rect.y.val(),
                        width: rect.width.val(),
                        height: rect.height.val(),
                    },
                    fill: fill_paint(effective_fill(rect.fill, defaults)),
                    stroke: stroke_draw(effective_stroke(rect.stroke, defaults)),
                    options: path_options(rect.transparency, rect.clip, rect.transform, defaults),
                },
            ),
        ),
        Shape::Circle(circle) => Ok(
            Some(
                DrawCommand::Path {
                    outline: Outline::Circle { cx: circle.cx.val(), cy: circle.cy.val(), r: circle.r.val() },
                    fill: fill_paint(effective_fill(circle.fill, defaults)),
                    stroke: stroke_draw(effective_stroke(circle.stroke, defaults)),
                    options: path_options(circle.transparency, circle.clip, circle.transform, defaults),
                },
            ),
        ),
        Shape::Path(path) => {
            let segments = match interpret(&path.commands) {
                Ok(segments) => segments,
                Err(e) => {
                    return Err(e);
                },
            };
            Ok(
                Some(
                    DrawCommand::Path {
                        outline: Outline::Path(segments),
                        fill: fill_paint(effective_fill(path.fill, defaults)),
                        stroke: stroke_draw(effective_stroke(path.stroke, defaults)),
                        options: path_options(path.transparency, path.clip, path.transform, defaults),
                    },
                ),
            )
        },
        Shape::Text(text) => Ok(
            Some(
                DrawCommand::Text {
                    font_name: text.font_name.clone(),
                    x: text.x.val(),
                    y: text.y.val(),
                    content: text.content.clone(),
                    options: text_options(text, defaults),
                    glyphs: copy_glyphs(&text.glyph_positions),
                },
            ),
        ),
        Shape::Group(_) => Ok(None),
        Shape::Word(_) => Ok(None),
    }
}

/// Once the walk over the children has stopped, it stays as it stopped.
pub proof fn lemma_emit_children_stops(children: Seq<NodeView>, k: nat, n: nat, defaults: ShapeDefaults)
    requires
        k <= n <= children.len(),
        emit_children(children, k, defaults).error is Some,
    ensures
        emit_children(children, n, defaults) == emit_children(children, k, defaults),
    decreases n - k,
{
    if k < n {
        lemma_emit_children_stops(children, k, (n - 1) as nat, defaults);
    }
}

/// What a child emits depends on the child and on the defaults below its parent,
/// and on nothing that an earlier sibling set: as long as no earlier sibling failed,
/// the walk over one more child appends what that child emits on its own.
pub proof fn lemma_sibling_emits_alone(children: Seq<NodeView>, k: nat, defaults: ShapeDefaults)
    requires
        k < children.len(),
        emit_children(children, k, defaults).error is None,
    ensures
        emit_children(children, k + 1, defaults).commands == emit_children(children, k, defaults).commands + emit(
            children[k as int],
            defaults,
        ).commands,
        emit_children(children, k + 1, defaults).error == emit(children[k as int], defaults).error,
{
}

/// What a group sets holds below the group and nowhere else: of a group and the
/// sibling that follows it, the shapes inside the group are drawn under the
/// defaults that the group overrides, and the sibling under the defaults of the
/// common parent, as if the group had set nothing.
pub proof fn lemma_cascade_is_scoped(
    group: crate::shape::GroupView,
    inside: Seq<NodeView>,
    after: NodeView,
    defaults: ShapeDefaults,
)
    requires
        emit_children(inside, inside.len(), group.cascade(defaults)).error is None,
    ensures
        ({
            let siblings = seq![NodeView { shape: ShapeView::Group(group), children: inside }, after];
            let walk = emit_children(siblings, 2, defaults);
            &&& walk.commands == emit_children(inside, inside.len(), group.cascade(defaults)).commands + emit(
                after,
                defaults,
            ).commands
            &&& walk.error == emit(after, defaults).error
        }),
{
    let first = NodeView { shape: ShapeView::Group(group), children: inside };
    let siblings = seq![first, after];
    assert(emit_children(siblings, 0, defaults).commands =~= Seq::empty());
    lemma_sibling_emits_alone(siblings, 0, defaults);
    assert(emit(first, defaults).commands =~= emit_children(inside, inside.len(), group.cascade(defaults)).commands);
    assert(emit_children(siblings, 1, defaults).commands =~= emit(first, defaults).commands);
    lemma_sibling_emits_alone(siblings, 1, defaults);
}

/// A shape that declares a fill or a stroke is drawn with it, and a shape that
/// declares none is drawn with the inherited one.
pub proof fn lemma_own_style_wins(
    outline: OutlineView,
    fill: Option<Fill>,
    stroke: Option<Stroke>,
    options: PathOptions,
    defaults: ShapeDefaults,
)
    ensures
        outline_command(outline, fill, stroke, options, defaults) matches DrawCommandView::Path {
            fill: painted,
            stroke: stroked,
            ..
        } && {
            &&& fill matches Some(f) ==> painted == Some(f.paint)
            &&& fill is None ==> painted == spec_fill_paint(defaults.fill)
            &&& stroke matches Some(s) ==> stroked == spec_stroke_draw(Some(s))
            &&& stroke is None ==> stroked == spec_stroke_draw(defaults.stroke)
        },
{
}

/// A node whose own shape cannot be drawn emits nothing, neither for itself nor
/// for anything below it.
pub proof fn lemma_failed_shape_emits_nothing(node: NodeView, defaults: ShapeDefaults)
    requires
        shape_command(node.shape, defaults) is Err,
    ensures
        emit(node, defaults).commands == Seq::<DrawCommandView>::empty(),
        emit(node, defaults).error == Some(shape_command(node.shape, defaults)->Err_0),
{
}

/// Whether a shape can be drawn: every shape but a path with a command that the
/// interpreter has no meaning for.
pub open spec fn interpretable(shape: ShapeView) -> bool {
    shape matches ShapeView::Path(path) ==> forall|i: int|
        0 <= i < path.commands.len() ==> (#[trigger] path.commands[i]).is_supported()
}

/// Whether every shape of a tree can be drawn.
pub open spec fn drawable(node: NodeView) -> bool
    decreases node, 0nat,
{
    interpretable(node.shape) && drawable_all(node.children, node.children.len())
}

/// Whether every shape of the first `k` trees of a sequence can be drawn.
pub open spec fn drawable_all(children: Seq<NodeView>, k: nat) -> bool
    decreases children, k,
{
    if k == 0 || k > children.len() {
        true
    } else {
        drawable_all(children, (k - 1) as nat) && drawable(children[k - 1])
    }
}

/// A shape gives a command or nothing exactly when it can be drawn, whatever the
/// defaults; and it gives a command exactly when it is no group and no word.
pub proof fn lemma_shape_command_succeeds(shape: ShapeView, defaults: ShapeDefaults)
    ensures
        shape_command(shape, defaults) is Ok <==> interpretable(shape),
        shape_command(shape, defaults) matches Ok(own) ==> (own is None <==> shape is Group || shape is Word),
{
    if let ShapeView::Path(path) = shape {
        crate::shape::path::lemma_run_fails_at_first_unsupported(path.commands);
    }
}

/// The walk over the first `k` children ends well exactly when all of their shapes
/// can be drawn, and then it has emitted one command for each of them that is no
/// group and no word; a walk that stops has emitted fewer.
pub proof fn lemma_emit_children_counts(children: Seq<NodeView>, k: nat, defaults: ShapeDefaults)
    requires
        k <= children.len(),
    ensures
        emit_children(children, k, defaults).error is None <==> drawable_all(children, k),
        emit_children(children, k, defaults).error is None ==> emit_children(children, k, defaults).commands.len()
            == NodeView::drawn_count_in(children, k),
        emit_children(children, k, defaults).error is Some ==> emit_children(children, k, defaults).commands.len()
            < NodeView::drawn_count_in(children, k),
    decreases children, k, 0nat,
{
    if k > 0 {
        lemma_emit_children_counts(children, (k - 1) as nat, defaults);
        lemma_emit_counts(children[k - 1], defaults);
    }
}

/// A walk over a tree ends well exactly when all of its shapes can be drawn,
/// whatever the defaults, and then it has emitted one command for each shape that
/// is no group and no word; a walk that stops has emitted fewer.
pub proof fn lemma_emit_counts(node: NodeView, defaults: ShapeDefaults)
    ensures
        emit(node, defaults).error is None <==> drawable(node),
        emit(node, defaults).error is None ==> emit(node, defaults).commands.len() == node.drawn_count(),
        emit(node, defaults).error is Some ==> emit(node, defaults).commands.len() < node.drawn_count(),
    decreases node, 0nat, 1nat,
{
    lemma_shape_command_succeeds(node.shape, defaults);
    lemma_emit_children_counts(node.children, node.children.len(), defaults_below(node.shape, defaults));
}

/// Appends to `out` what a node and everything below it emits under the given
/// defaults. Stops at the first path that cannot be interpreted: what was emitted
/// before it stays in `out`, and nothing is emitted after it.
pub fn render_composite(node: &Node, defaults: ShapeDefaults, out: &mut Vec<DrawCommand>) -> (r: Result<
    (),
    PathError,
>)
    ensures
        command_views(final(out)@) == command_views(old(out)@) + emit(node@, defaults).commands,
        match r {
            Ok(_) => emit(node@, defaults).error is None,
            Err(e) => emit(node@, defaults).error == Some(e),
        },
    decreases *node,
{
    let ghost start = command_views(out@);
    let mut below = defaults;
    match draw_shape(&node.shape, defaults) {
        Err(e) => {
            assert(command_views(out@) =~= start + emit(node@, defaults).commands);
            return Err(e);
        },
        Ok(Some(command)) => {
            out.push(command);
            assert(command_views(out@) =~= start + seq![command@]);
        },
        Ok(None) => {
            assert(command_views(out@) =~= start);
        },
    }
    if let Shape::Group(group) = &node.shape {
        below = group.cascade(defaults);
    }
    let ghost own = command_views(out@);
    let ghost kids = node@.children;
    let ghost first = match shape_command(node@.shape, defaults) {
        Ok(Some(c)) => seq![c],
        _ => Seq::empty(),
    };
    assert(own =~= start + first);
    let mut i: usize = 0;
    while i < node.children.len()
        invariant
            i <= node.children.len(),
            kids == node@.children,
            kids.len() == node.children.len(),
            below == defaults_below(node@.shape, defaults),
            start == command_views(old(out)@),
            own == start + first,
            shape_command(node@.shape, defaults) is Ok,
            first == match shape_command(node@.shape, defaults) {
                Ok(Some(c)) => seq![c],
                _ => Seq::<DrawCommandView>::empty(),
            },
            emit_children(kids, i as nat, below).error is None,
            command_views(out@) == own + emit_children(kids, i as nat, below).commands,
        decreases node.children.len() - i,
    {
        let ghost prior = command_views(out@);
        assert(kids[i as int] == node.children@[i as int]@);
        match render_composite(&node.children[i], below, out) {
            Ok(_) => {},
            Err(e) => {
                proof {
                    lemma_emit_children_stops(kids, (i + 1) as nat, kids.len(), below);
                    assert(command_views(out@) =~= own + emit_children(kids, (i + 1) as nat, below).commands);
                    assert(emit(node@, defaults).commands =~= first + emit_children(kids, kids.len(), below).commands);
                    assert(command_views(out@) =~= start + emit(node@, defaults).commands);
                }
                return Err(e);
            },
        }
        assert(command_views(out@) =~= own + emit_children(kids, (i + 1) as nat, below).commands);
        i += 1;
    }
    assert(emit(node@, defaults).commands =~= first + emit_children(kids, kids.len(), below).commands);
    assert(command_views(out@) =~= start + emit(node@, defaults).commands);
    Ok(())
}

/// The commands that draw a laid-out tree, in document order, or the error of the
/// first path that cannot be interpreted. Nothing is inherited at the root.
pub fn compose(tree: &Node) -> (r: Result<Vec<DrawCommand>, PathError>)
    ensures
        match r {
            Ok(commands) => {
                &&& emit(tree@, ShapeDefaults::initial()).error is None
                &&& command_views(commands@) == emit(tree@, ShapeDefaults::initial()).commands
            },
            Err(e) => emit(tree@, ShapeDefaults::initial()).error == Some(e),
        },
        r is Ok <==> drawable(tree@),
        r matches Ok(commands) ==> commands.len() == tree@.drawn_count(),
{
    let mut out: Vec<DrawCommand> = Vec::new();
    proof {
        lemma_emit_counts(tree@, ShapeDefaults::initial());
    }
    assert(command_views(out@) =~= Seq::empty());
    match render_composite(tree, ShapeDefaults::initial(), &mut out) {
        Ok(_) => {
            assert(command_views(out@) =~= emit(tree@, ShapeDefaults::initial()).commands);
            Ok(out)
        },
        Err(e) => Err(e),
    }
}

} // verus!
