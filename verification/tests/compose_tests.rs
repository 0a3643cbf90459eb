use exgui::compose::{compose, draw_shape, render_composite, DrawCommand, Outline, StrokeDraw};
use exgui::dimension::Dimension;
use exgui::draw::{
    draw_clip, draw_transform, effective_alpha, effective_fill, effective_stroke, path_options, stroke_option,
    text_options, DrawClip, DrawTransform, PathOptions, StrokeOptions, TextOptions,
};
use exgui::matrix::{Point, TransformMatrix};
use exgui::node::Node;
use exgui::scalar::Real;
use exgui::shape::{
    Align, Circle, GlyphPos, Group, Path, PathCommand, PathError, PathSegment, Rect, Shape, Text, Word,
};
use exgui::style::{
    AlignHor, AlignVer, Clip, Color, Fill, Gradient, LineCap, LineJoin, Paint, Scissor, ShapeDefaults, Stroke,
};
use exgui::transform::Transform;

fn r(n: i32) -> Real {
    Real::from_int(n)
}

fn half() -> Real {
    Real::from_raw(500_000)
}

fn abs(n: i32) -> Dimension {
    Dimension::absolute(r(n))
}

fn pt(x: i32, y: i32) -> Point {
    Point { x: r(x), y: r(y) }
}

fn red() -> Color {
    Color::rgb(r(1), r(0), r(0))
}

fn blue() -> Color {
    Color::rgb(r(0), r(0), r(1))
}

fn fill(c: Color) -> Fill {
    Fill { paint: Paint::Color(c) }
}

fn stroke(c: Color, width: i32) -> Stroke {
    Stroke { paint: Paint::Color(c), width: r(width), line_cap: LineCap::Round, line_join: LineJoin::Bevel, miter_limit: r(4) }
}

fn gradient() -> Gradient {
    Gradient::Linear { start: pt(0, 0), end: pt(1, 1), start_color: red(), end_color: blue() }
}

fn plain_rect(x: i32, y: i32, w: i32, h: i32) -> Rect {
    Rect { x: abs(x), y: abs(y), width: abs(w), height: abs(h), ..Rect::new() }
}

fn opaque() -> PathOptions {
    PathOptions { alpha: r(1), clip: DrawClip::Unclipped, transform: None }
}

fn scissor(x: i32, y: i32, w: i32, h: i32) -> Clip {
    Clip::Scissor(Scissor { x: abs(x), y: abs(y), width: abs(w), height: abs(h), transform: Transform::none() })
}

fn fill_of(command: &DrawCommand) -> Option<Paint> {
    match command {
        DrawCommand::Path { fill, .. } => *fill,
        DrawCommand::Text { .. } => panic!("not an outline"),
    }
}

fn options_of(command: &DrawCommand) -> PathOptions {
    match command {
        DrawCommand::Path { options, .. } => *options,
        DrawCommand::Text { .. } => panic!("not an outline"),
    }
}

#[test]
fn rect_without_style_draws_a_bare_outline() {
    let tree = Node::new(Shape::Rect(plain_rect(1, 2, 3, 4)));
    assert_eq!(
        compose(&tree),
        Ok(vec![DrawCommand::Path {
            outline: Outline::Rect { x: r(1), y: r(2), width: r(3), height: r(4) },
            fill: None,
            stroke: None,
            options: opaque(),
        }])
    );
}

#[test]
fn circle_draws_with_its_own_style() {
    let shape = Circle {
        cx: abs(5),
        cy: abs(6),
        r: abs(7),
        fill: Some(fill(red())),
        stroke: Some(stroke(blue(), 2)),
        ..Circle::new()
    };
    assert_eq!(
        compose(&Node::new(Shape::Circle(shape))),
        Ok(vec![DrawCommand::Path {
            outline: Outline::Circle { cx: r(5), cy: r(6), r: r(7) },
            fill: Some(Paint::Color(red())),
            stroke: Some(StrokeDraw {
                paint: Paint::Color(blue()),
                options: StrokeOptions {
                    width: r(2),
                    line_cap: LineCap::Round,
                    line_join: LineJoin::Bevel,
                    miter_limit: r(4),
                },
            }),
            options: opaque(),
        }])
    );
}

#[test]
fn group_fill_cascades_to_a_child_without_fill() {
    let group = Group { fill: Some(fill(red())), ..Group::new() };
    let tree = Node::with_children(Shape::Group(group), vec![Node::new(Shape::Rect(plain_rect(0, 0, 1, 1)))]);
    let commands = compose(&tree).unwrap();
    assert_eq!(commands.len(), 1);
    assert_eq!(fill_of(&commands[0]), Some(Paint::Color(red())));
}

#[test]
fn own_fill_wins_over_the_inherited_one() {
    let group = Group { fill: Some(fill(red())), stroke: Some(stroke(red(), 1)), ..Group::new() };
    let child = Rect { fill: Some(fill(blue())), ..plain_rect(0, 0, 1, 1) };
    let tree = Node::with_children(Shape::Group(group), vec![Node::new(Shape::Rect(child))]);
    let commands = compose(&tree).unwrap();
    assert_eq!(fill_of(&commands[0]), Some(Paint::Color(blue())));
    match &commands[0] {
        DrawCommand::Path { stroke, .. } => assert_eq!(stroke.unwrap().paint, Paint::Color(red())),
        _ => panic!("not an outline"),
    }
}

#[test]
fn sibling_after_a_group_does_not_inherit_from_it() {
    let group = Node::with_children(
        Shape::Group(Group { fill: Some(fill(red())), ..Group::new() }),
        vec![Node::new(Shape::Rect(plain_rect(0, 0, 1, 1)))],
    );
    let sibling = Node::new(Shape::Rect(plain_rect(5, 5, 1, 1)));
    let tree = Node::with_children(Shape::Group(Group::new()), vec![group, sibling]);
    let commands = compose(&tree).unwrap();
    assert_eq!(commands.len(), 2);
    assert_eq!(fill_of(&commands[0]), Some(Paint::Color(red())));
    assert_eq!(fill_of(&commands[1]), None);
}

#[test]
fn cascade_is_scoped_and_not_shared_between_branches() {
    let group = Node::with_children(
        Shape::Group(Group {
            fill: Some(fill(red())),
            transparency: Some(half()),
            clip: scissor(1, 1, 2, 2),
            ..Group::new()
        }),
        vec![Node::new(Shape::Rect(plain_rect(0, 0, 1, 1)))],
    );
    let sibling = Node::new(Shape::Rect(plain_rect(5, 5, 1, 1)));
    let tree = Node::with_children(Shape::Rect(plain_rect(0, 0, 9, 9)), vec![group, sibling]);
    let commands = compose(&tree).unwrap();
    assert_eq!(commands.len(), 3);
    let inside = &commands[1];
    let outside = &commands[2];
    assert_eq!(fill_of(inside), Some(Paint::Color(red())));
    assert_eq!(options_of(inside).alpha, half());
    // With one set of defaults shared by the whole walk the sibling would come out
    // red, half transparent and clipped.
    assert_ne!(fill_of(outside), Some(Paint::Color(red())));
    assert_ne!(options_of(outside).alpha, half());
    assert_ne!(options_of(outside).clip, options_of(inside).clip);
    assert_eq!(fill_of(outside), None);
    assert_eq!(options_of(outside), opaque());
}

#[test]
fn nested_groups_cascade_downwards() {
    let inner = Node::with_children(
        Shape::Group(Group { stroke: Some(stroke(blue(), 3)), ..Group::new() }),
        vec![Node::new(Shape::Rect(plain_rect(0, 0, 1, 1)))],
    );
    let tree = Node::with_children(Shape::Group(Group { fill: Some(fill(red())), ..Group::new() }), vec![inner]);
    match &compose(&tree).unwrap()[0] {
        DrawCommand::Path { fill, stroke, .. } => {
            assert_eq!(*fill, Some(Paint::Color(red())));
            assert_eq!(stroke.unwrap().options.width, r(3));
        }
        _ => panic!("not an outline"),
    }
}

#[test]
fn alpha_combines_own_and_inherited_transparency() {
    assert_eq!(effective_alpha(half(), half()), Real::from_raw(250_000));
    let group = Group { transparency: Some(half()), ..Group::new() };
    let child = Rect { transparency: half(), ..plain_rect(0, 0, 1, 1) };
    let tree = Node::with_children(Shape::Group(group), vec![Node::new(Shape::Rect(child))]);
    assert_eq!(options_of(&compose(&tree).unwrap()[0]).alpha, Real::from_raw(250_000));
}

#[test]
fn inherited_transparency_is_replaced_not_compounded() {
    let child = Node::new(Shape::Rect(Rect { transparency: half(), ..plain_rect(0, 0, 1, 1) }));
    let inner = Node::with_children(Shape::Group(Group { transparency: Some(half()), ..Group::new() }), vec![child]);
    let outer = Node::with_children(Shape::Group(Group { transparency: Some(half()), ..Group::new() }), vec![inner]);
    assert_eq!(options_of(&compose(&outer).unwrap()[0]).alpha, Real::from_raw(250_000));
}

#[test]
fn alpha_at_the_extremes() {
    assert_eq!(effective_alpha(r(0), r(0)), r(1));
    assert_eq!(effective_alpha(r(1), r(0)), r(0));
    assert_eq!(effective_alpha(r(0), r(1)), r(0));
    assert_eq!(effective_alpha(Real::from_raw(250_000), r(0)), Real::from_raw(750_000));
}

#[test]
fn own_clip_wins_and_missing_clip_falls_back() {
    let group = Group { clip: scissor(1, 2, 3, 4), ..Group::new() };
    let clipped = Rect { clip: scissor(5, 6, 7, 8), ..plain_rect(0, 0, 1, 1) };
    let tree = Node::with_children(
        Shape::Group(group),
        vec![Node::new(Shape::Rect(clipped)), Node::new(Shape::Rect(plain_rect(0, 0, 1, 1)))],
    );
    let commands = compose(&tree).unwrap();
    assert_eq!(
        options_of(&commands[0]).clip,
        DrawClip::Scissor { x: r(5), y: r(6), width: r(7), height: r(8), transform: None }
    );
    assert_eq!(
        options_of(&commands[1]).clip,
        DrawClip::Scissor { x: r(1), y: r(2), width: r(3), height: r(4), transform: None }
    );
    assert_eq!(scissor(1, 1, 1, 1).or(Clip::Unset), scissor(1, 1, 1, 1));
    assert_eq!(Clip::Unset.or(scissor(1, 1, 1, 1)), scissor(1, 1, 1, 1));
    assert_eq!(Clip::Unset.or(Clip::Unset), Clip::Unset);
    assert!(Clip::Unset.is_none());
    assert!(!scissor(1, 1, 1, 1).is_none());
}

#[test]
fn draw_clip_resolves_a_scissor() {
    let local = TransformMatrix { a: r(1), b: r(0), c: r(0), d: r(1), e: r(3), f: r(4) };
    let clip = Clip::Scissor(Scissor {
        x: abs(1),
        y: abs(2),
        width: abs(3),
        height: abs(4),
        transform: Transform::with_matrix(local),
    });
    assert_eq!(
        draw_clip(clip),
        DrawClip::Scissor {
            x: r(1),
            y: r(2),
            width: r(3),
            height: r(4),
            transform: Some(DrawTransform { matrix: local, absolute: false }),
        }
    );
    assert_eq!(draw_clip(Clip::Unset), DrawClip::Unclipped);
}

#[test]
fn draw_transform_prefers_the_global_matrix() {
    assert_eq!(draw_transform(Transform::none()), None);
    let local = TransformMatrix { a: r(2), b: r(0), c: r(0), d: r(2), e: r(0), f: r(0) };
    let parent = TransformMatrix { a: r(1), b: r(0), c: r(0), d: r(1), e: r(5), f: r(5) };
    let mut t = Transform::with_matrix(local);
    assert_eq!(draw_transform(t), Some(DrawTransform { matrix: local, absolute: false }));
    let global = t.compose_global(parent);
    assert_ne!(global, local);
    assert_eq!(draw_transform(t), Some(DrawTransform { matrix: global, absolute: false }));
    let absolute = Transform::none().into_absolute();
    assert_eq!(
        draw_transform(absolute),
        Some(DrawTransform { matrix: TransformMatrix::identity(), absolute: true })
    );
}

#[test]
fn transform_that_declares_nothing_is_skipped_even_after_layout() {
    let mut t = Transform::none();
    t.compose_global(TransformMatrix { a: r(1), b: r(0), c: r(0), d: r(1), e: r(5), f: r(5) });
    assert_eq!(draw_transform(t), None);
}

#[test]
fn path_options_put_it_together() {
    let defaults = ShapeDefaults { transparency: half(), fill: None, stroke: None, clip: scissor(1, 2, 3, 4) };
    assert_eq!(
        path_options(r(0), Clip::Unset, Transform::none(), defaults),
        PathOptions {
            alpha: half(),
            clip: DrawClip::Scissor { x: r(1), y: r(2), width: r(3), height: r(4), transform: None },
            transform: None,
        }
    );
}

#[test]
fn stroke_option_copies_the_stroke() {
    assert_eq!(
        stroke_option(stroke(red(), 5)),
        StrokeOptions { width: r(5), line_cap: LineCap::Round, line_join: LineJoin::Bevel, miter_limit: r(4) }
    );
}

#[test]
fn effective_style_falls_back() {
    let defaults = ShapeDefaults { fill: Some(fill(red())), stroke: Some(stroke(red(), 1)), ..ShapeDefaults::initial() };
    assert_eq!(effective_fill(None, defaults), Some(fill(red())));
    assert_eq!(effective_fill(Some(fill(blue())), defaults), Some(fill(blue())));
    assert_eq!(effective_stroke(None, defaults), Some(stroke(red(), 1)));
    assert_eq!(effective_stroke(Some(stroke(blue(), 2)), defaults), Some(stroke(blue(), 2)));
    assert_eq!(effective_fill(None, ShapeDefaults::initial()), None);
    assert_eq!(ShapeDefaults::default(), ShapeDefaults::initial());
}

#[test]
fn path_draws_its_segments() {
    let commands = vec![
        PathCommand::Move(pt(0, 0)),
        PathCommand::BezCtrl(pt(10, 0)),
        PathCommand::BezCtrl(pt(10, 10)),
        PathCommand::CubBezTo(pt(0, 10)),
    ];
    let shape = Path { fill: Some(fill(red())), ..Path::new(commands) };
    assert_eq!(
        compose(&Node::new(Shape::Path(shape))),
        Ok(vec![DrawCommand::Path {
            outline: Outline::Path(vec![
                PathSegment::MoveTo(pt(0, 0)),
                PathSegment::CubicBezierTo { to: pt(0, 10), control1: pt(10, 0), control2: pt(10, 10) },
            ]),
            fill: Some(Paint::Color(red())),
            stroke: None,
            options: opaque(),
        }])
    );
}

#[test]
fn unsupported_path_command_stops_the_walk() {
    let broken = Path::new(vec![PathCommand::Move(pt(0, 0)), PathCommand::BezReflectCtrl, PathCommand::Line(pt(1, 1))]);
    let tree = Node::with_children(
        Shape::Group(Group::new()),
        vec![
            Node::new(Shape::Rect(plain_rect(0, 0, 1, 1))),
            Node::with_children(Shape::Path(broken), vec![Node::new(Shape::Rect(plain_rect(1, 1, 1, 1)))]),
            Node::new(Shape::Rect(plain_rect(2, 2, 1, 1))),
        ],
    );
    assert_eq!(compose(&tree), Err(PathError::UnsupportedPathCommand(PathCommand::BezReflectCtrl)));
    let mut out = Vec::new();
    let walked = render_composite(&tree, ShapeDefaults::initial(), &mut out);
    assert_eq!(walked, Err(PathError::UnsupportedPathCommand(PathCommand::BezReflectCtrl)));
    assert_eq!(out.len(), 1);
    assert_eq!(
        out[0],
        DrawCommand::Path {
            outline: Outline::Rect { x: r(0), y: r(0), width: r(1), height: r(1) },
            fill: None,
            stroke: None,
            options: opaque(),
        }
    );
}

#[test]
fn render_composite_appends_in_document_order() {
    let tree = Node::with_children(
        Shape::Rect(plain_rect(0, 0, 9, 9)),
        vec![
            Node::with_children(Shape::Circle(Circle::new()), vec![Node::new(Shape::Rect(plain_rect(1, 1, 1, 1)))]),
            Node::new(Shape::Rect(plain_rect(2, 2, 1, 1))),
        ],
    );
    let marker = DrawCommand::Path {
        outline: Outline::Circle { cx: r(9), cy: r(9), r: r(9) },
        fill: None,
        stroke: None,
        options: opaque(),
    };
    let mut out = vec![marker.clone()];
    assert_eq!(render_composite(&tree, ShapeDefaults::initial(), &mut out), Ok(()));
    let outlines: Vec<Outline> = out
        .iter()
        .map(|c| match c {
            DrawCommand::Path { outline, .. } => outline.clone(),
            _ => panic!("not an outline"),
        })
        .collect();
    assert_eq!(
        outlines,
        vec![
            Outline::Circle { cx: r(9), cy: r(9), r: r(9) },
            Outline::Rect { x: r(0), y: r(0), width: r(9), height: r(9) },
            Outline::Circle { cx: r(0), cy: r(0), r: r(0) },
            Outline::Rect { x: r(1), y: r(1), width: r(1), height: r(1) },
            Outline::Rect { x: r(2), y: r(2), width: r(1), height: r(1) },
        ]
    );
    assert_eq!(out[0], marker);
}

#[test]
fn group_and_word_draw_nothing() {
    assert_eq!(draw_shape(&Shape::Group(Group::new()), ShapeDefaults::initial()), Ok(None));
    assert_eq!(draw_shape(&Shape::Word(Word::new("w".to_string())), ShapeDefaults::initial()), Ok(None));
    let tree = Node::with_children(Shape::Group(Group::new()), vec![Node::new(Shape::Word(Word::new("w".to_string())))]);
    assert_eq!(compose(&tree), Ok(Vec::new()));
}

#[test]
fn text_draws_with_its_glyphs() {
    let mut shape = Text::new("sans".to_string(), r(14), "hi".to_string());
    shape.x = abs(3);
    shape.y = abs(4);
    shape.align = Align { horizontal: AlignHor::Center, vertical: AlignVer::Top };
    shape.fill = Some(fill(red()));
    shape.glyph_positions = vec![GlyphPos { x: r(3), min_x: r(3), max_x: r(9) }];
    assert_eq!(
        compose(&Node::new(Shape::Text(shape))),
        Ok(vec![DrawCommand::Text {
            font_name: "sans".to_string(),
            x: r(3),
            y: r(4),
            content: "hi".to_string(),
            options: TextOptions {
                color: red(),
                size: r(14),
                align: Align { horizontal: AlignHor::Center, vertical: AlignVer::Top },
                clip: DrawClip::Unclipped,
                transform: None,
            },
            glyphs: vec![GlyphPos { x: r(3), min_x: r(3), max_x: r(9) }],
        }])
    );
}

#[test]
fn text_color_scales_its_alpha() {
    let mut shape = Text::new("sans".to_string(), r(14), "hi".to_string());
    shape.fill = Some(fill(red().with_alpha(half())));
    shape.transparency = half();
    let defaults = ShapeDefaults { transparency: half(), ..ShapeDefaults::initial() };
    assert_eq!(text_options(&shape, defaults).color, red().with_alpha(Real::from_raw(125_000)));
}

#[test]
fn text_ignores_a_gradient_fill() {
    let mut shape = Text::new("sans".to_string(), r(14), "hi".to_string());
    shape.fill = Some(Fill { paint: Paint::Gradient(gradient()) });
    assert_eq!(text_options(&shape, ShapeDefaults::initial()).color, Color::black());
    assert_eq!(Color::black(), Color { r: r(0), g: r(0), b: r(0), a: r(1) });
    assert_eq!(Color::default(), Color::black());
    let inherited = ShapeDefaults { fill: Some(Fill { paint: Paint::Gradient(gradient()) }), ..ShapeDefaults::initial() };
    shape.fill = None;
    assert_eq!(text_options(&shape, inherited).color, Color::black());
    let colored = ShapeDefaults { fill: Some(fill(blue())), ..ShapeDefaults::initial() };
    assert_eq!(text_options(&shape, colored).color, blue());
    assert_eq!(Paint::Gradient(gradient()).color(), None);
    assert_eq!(Paint::Color(blue()).color(), Some(blue()));
}

#[test]
fn gradient_fill_is_passed_on_to_an_outline() {
    let shape = Rect { fill: Some(Fill { paint: Paint::Gradient(gradient()) }), ..plain_rect(0, 0, 1, 1) };
    assert_eq!(fill_of(&compose(&Node::new(Shape::Rect(shape))).unwrap()[0]), Some(Paint::Gradient(gradient())));
}

#[test]
fn overrides_replace_what_they_set() {
    let mut defaults = ShapeDefaults::initial();
    defaults.apply_overrides(Some(half()), Some(fill(red())), None, scissor(1, 1, 1, 1));
    assert_eq!(
        defaults,
        ShapeDefaults { transparency: half(), fill: Some(fill(red())), stroke: None, clip: scissor(1, 1, 1, 1) }
    );
    defaults.apply_overrides(None, None, Some(stroke(blue(), 1)), Clip::Unset);
    assert_eq!(
        defaults,
        ShapeDefaults {
            transparency: half(),
            fill: Some(fill(red())),
            stroke: Some(stroke(blue(), 1)),
            clip: scissor(1, 1, 1, 1),
        }
    );
    defaults.apply_overrides(Some(r(0)), Some(fill(blue())), None, scissor(2, 2, 2, 2));
    assert_eq!(defaults.transparency, r(0));
    assert_eq!(defaults.fill, Some(fill(blue())));
    assert_eq!(defaults.clip, scissor(2, 2, 2, 2));
}
