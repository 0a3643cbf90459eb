use exgui::dimension::{Dimension, Padding};
use exgui::layout::{ascend, descend, shape_placed_text, text_request, Descent, LayoutStop};
use exgui::matrix::{BoundingBox, TransformMatrix};
use exgui::scalar::Real;
use exgui::shape::text::copy_glyphs;
use exgui::shape::path::copy_commands;
use exgui::shape::{
    Circle, GlyphPos, Group, Path, PathCommand, Rect, Shape, ShapeKind, Shapeable, Text, TextMetrics, TextReply, Word,
};
use exgui::style::{Color, Fill, LineCap, LineJoin, Paint, ShapeDefaults, Stroke};
use exgui::transform::Transform;

fn r(n: i32) -> Real {
    Real::from_int(n)
}

fn abs(n: i32) -> Dimension {
    Dimension::absolute(r(n))
}

fn bb(a: i32, b: i32, c: i32, d: i32) -> BoundingBox {
    BoundingBox { min_x: r(a), min_y: r(b), max_x: r(c), max_y: r(d) }
}

fn red() -> Fill {
    Fill { paint: Paint::Color(Color::rgb(r(1), r(0), r(0))) }
}

fn moved(x: i32, y: i32) -> TransformMatrix {
    let mut m = TransformMatrix::identity();
    m.translate_add(r(x), r(y));
    m
}

#[test]
fn kind_of_every_shape() {
    assert_eq!(Shape::Rect(Rect::new()).kind(), ShapeKind::Rect);
    assert_eq!(Shape::Circle(Circle::new()).kind(), ShapeKind::Circle);
    assert_eq!(Shape::Path(Path::new(Vec::new())).kind(), ShapeKind::Path);
    assert_eq!(Shape::Group(Group::new()).kind(), ShapeKind::Group);
    assert_eq!(Shape::Text(Text::new(String::new(), r(1), String::new())).kind(), ShapeKind::Text);
    assert_eq!(Shape::Word(Word::new(String::new())).kind(), ShapeKind::Word);
}

#[test]
fn setters_touch_one_field() {
    let mut shape = Shape::Rect(Rect::new());
    shape.set_id("a".to_string());
    shape.set_fill(Some(red()));
    let stroke = Stroke {
        paint: Paint::Color(Color::black()),
        width: r(2),
        line_cap: LineCap::Square,
        line_join: LineJoin::Round,
        miter_limit: r(3),
    };
    shape.set_stroke(Some(stroke));
    let t = Transform::with_matrix(moved(1, 2));
    shape.set_transform(t);
    assert_eq!(
        shape,
        Shape::Rect(Rect { id: Some("a".to_string()), fill: Some(red()), stroke: Some(stroke), transform: t, ..Rect::new() })
    );
    shape.set_fill(None);
    shape.set_stroke(None);
    assert_eq!(shape, Shape::Rect(Rect { id: Some("a".to_string()), transform: t, ..Rect::new() }));
    let mut word = Shape::Word(Word::new("w".to_string()));
    word.set_fill(Some(red()));
    word.set_stroke(Some(stroke));
    word.set_transform(t);
    assert_eq!(word, Shape::Word(Word::new("w".to_string())));
    let mut text = Shape::Text(Text::new(String::new(), r(1), String::new()));
    text.set_stroke(Some(stroke));
    assert_eq!(text, Shape::Text(Text::new(String::new(), r(1), String::new())));
}

#[test]
fn descend_on_a_rect_hands_on_its_box_and_padded_matrix() {
    let mut shape = Shape::Rect(Rect {
        x: Dimension::percent(r(10)),
        y: abs(5),
        width: Dimension::percent(r(50)),
        height: abs(20),
        padding: Padding { left: Dimension::percent(r(1)), right: abs(0), top: abs(3), bottom: abs(0) },
        ..Rect::new()
    });
    let defaults = ShapeDefaults { fill: Some(red()), ..ShapeDefaults::initial() };
    let descent = descend(&mut shape, bb(100, 0, 300, 100), moved(7, 7), defaults, &Vec::new(), 4);
    assert_eq!(
        descent,
        Ok(Descent { bound: bb(120, 5, 220, 25), global: moved(9, 10), defaults, next: 4 })
    );
    assert_eq!(shape.rect().unwrap().transform.calculated_matrix(), Some(moved(7, 7)));
    assert_eq!(shape.rect().unwrap().padding.left.val(), r(2));
}

#[test]
fn descend_on_a_group_changes_the_defaults_below() {
    let mut shape = Shape::Group(Group { fill: Some(red()), transform: Transform::with_matrix(moved(1, 1)), ..Group::new() });
    let descent = descend(&mut shape, bb(1, 2, 3, 4), moved(7, 7), ShapeDefaults::initial(), &Vec::new(), 0);
    assert_eq!(
        descent,
        Ok(Descent {
            bound: bb(1, 2, 3, 4),
            global: moved(8, 8),
            defaults: ShapeDefaults { fill: Some(red()), ..ShapeDefaults::initial() },
            next: 0,
        })
    );
}

#[test]
fn descend_on_a_word_passes_everything_on() {
    let mut shape = Shape::Word(Word::new("w".to_string()));
    let descent = descend(&mut shape, bb(1, 2, 3, 4), moved(7, 7), ShapeDefaults::initial(), &Vec::new(), 2);
    assert_eq!(
        descent,
        Ok(Descent { bound: bb(1, 2, 3, 4), global: moved(7, 7), defaults: ShapeDefaults::initial(), next: 2 })
    );
    assert_eq!(shape, Shape::Word(Word::new("w".to_string())));
}

#[test]
fn descend_on_a_text_uses_the_reply_at_its_index() {
    let replies = vec![
        TextReply::FontNotFound,
        TextReply::Shaped {
            metrics: TextMetrics { ascender: r(8), descender: r(-2), line_height: r(10) },
            glyphs: vec![GlyphPos { x: r(0), min_x: r(0), max_x: r(6) }],
        },
    ];
    let text = Text::new("sans".to_string(), r(12), "a".to_string());
    let mut shape = Shape::Text(text.clone());
    let descent = descend(&mut shape, bb(0, 0, 50, 50), moved(0, 0), ShapeDefaults::initial(), &replies, 1);
    assert_eq!(
        descent,
        Ok(Descent { bound: bb(0, 0, 6, 10), global: moved(0, 0), defaults: ShapeDefaults::initial(), next: 2 })
    );
    let mut failing = Shape::Text(text.clone());
    assert_eq!(
        descend(&mut failing, bb(0, 0, 50, 50), moved(0, 0), ShapeDefaults::initial(), &replies, 0),
        Err(LayoutStop::FontNotFound("sans".to_string()))
    );
    let mut asking = Shape::Text(text.clone());
    let stop = descend(&mut asking, bb(0, 0, 50, 50), moved(0, 0), ShapeDefaults::initial(), &replies, 2);
    assert_eq!(stop, Err(LayoutStop::Measure(text_request(&text, ShapeDefaults::initial()))));
    let mut beyond = text.clone();
    assert_eq!(
        shape_placed_text(&mut beyond, moved(0, 0), ShapeDefaults::initial(), &replies, 9),
        Err(LayoutStop::Measure(text_request(&text, ShapeDefaults::initial())))
    );
    assert_eq!(beyond, text);
}

#[test]
fn ascend_reports_by_kind() {
    let own = bb(1, 1, 2, 2);
    let inner = bb(10, 10, 90, 90);
    let mut group = Shape::Group(Group::new());
    assert_eq!(ascend(&mut group, own, inner), inner);
    let mut path = Shape::Path(Path::new(Vec::new()));
    assert_eq!(ascend(&mut path, own, inner), own);
    let mut word = Shape::Word(Word::new(String::new()));
    assert_eq!(ascend(&mut word, own, inner), own);
    let mut text = Shape::Text(Text::new(String::new(), r(1), String::new()));
    assert_eq!(ascend(&mut text, own, inner), bb(1, 1, 90, 90));
    let mut fixed = Shape::Rect(Rect { x: abs(1), y: abs(1), width: abs(1), height: abs(1), ..Rect::new() });
    assert_eq!(ascend(&mut fixed, own, inner), own);
    let mut mixed = Shape::Rect(Rect { x: abs(1), y: Dimension::auto(), width: abs(1), height: Dimension::auto(), ..Rect::new() });
    assert_eq!(ascend(&mut mixed, own, inner), bb(1, 10, 2, 90));
    let mut circle = Shape::Circle(Circle { cx: abs(0), cy: abs(0), r: Dimension::auto(), ..Circle::new() });
    assert_eq!(ascend(&mut circle, own, inner), bb(-40, -40, 40, 40));
}

#[test]
fn copies_are_equal_and_separate() {
    let glyphs = vec![GlyphPos { x: r(0), min_x: r(0), max_x: r(6) }, GlyphPos { x: r(6), min_x: r(6), max_x: r(9) }];
    let mut copy = copy_glyphs(&glyphs);
    assert_eq!(copy, glyphs);
    copy.pop();
    assert_eq!(glyphs.len(), 2);
    let commands = vec![PathCommand::Close, PathCommand::BezReflectCtrl];
    assert_eq!(copy_commands(&commands), commands);
    assert_eq!(copy_glyphs(&Vec::new()), Vec::new());
}
