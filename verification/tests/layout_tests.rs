use exgui::dimension::{Dimension, Padding};
use exgui::draw::{DrawClip, TextOptions};
use exgui::layout::{calc_inner_bound, layout, recalc_composite, set_by_pct_clip, set_by_pct_padding, LayoutStop};
use exgui::matrix::{BoundingBox, TransformMatrix};
use exgui::node::Node;
use exgui::scalar::Real;
use exgui::shape::{
    Align, Circle, GlyphPos, Group, Path, Rect, Shape, Shapeable, Text, TextMetrics, TextReply, TextRequest, Word,
};
use exgui::style::{AlignHor, AlignVer, Clip, Color, Fill, Paint, Scissor, ShapeDefaults};
use exgui::transform::Transform;

fn r(n: i32) -> Real {
    Real::from_int(n)
}

fn abs(n: i32) -> Dimension {
    Dimension::absolute(r(n))
}

fn pct(n: i32) -> Dimension {
    Dimension::percent(r(n))
}

fn bb(a: i32, b: i32, c: i32, d: i32) -> BoundingBox {
    BoundingBox { min_x: r(a), min_y: r(b), max_x: r(c), max_y: r(d) }
}

fn rect(x: Dimension, y: Dimension, width: Dimension, height: Dimension) -> Rect {
    Rect { x, y, width, height, ..Rect::new() }
}

fn rect_node(x: i32, y: i32, w: i32, h: i32) -> Node {
    Node::new(Shape::Rect(rect(abs(x), abs(y), abs(w), abs(h))))
}

fn auto_rect() -> Rect {
    rect(Dimension::auto(), Dimension::auto(), Dimension::auto(), Dimension::auto())
}

fn no_replies() -> Vec<TextReply> {
    Vec::new()
}

fn shaped(line_height: i32, edges: &[(i32, i32)]) -> TextReply {
    TextReply::Shaped {
        metrics: TextMetrics { ascender: r(line_height - 2), descender: r(-2), line_height: r(line_height) },
        glyphs: edges.iter().map(|&(a, b)| GlyphPos { x: r(a), min_x: r(a), max_x: r(b) }).collect(),
    }
}

fn text(content: &str) -> Text {
    Text::new("sans".to_string(), r(12), content.to_string())
}

#[test]
fn auto_rect_takes_the_box_of_its_children() {
    let mut tree = Node::with_children(Shape::Rect(auto_rect()), vec![rect_node(10, 10, 80, 80)]);
    let bound = layout(&mut tree, bb(0, 0, 100, 100), &no_replies());
    assert_eq!(bound, Ok(bb(10, 10, 90, 90)));
    let resolved = tree.shape.rect().unwrap();
    assert_eq!(resolved.x.val(), r(10));
    assert_eq!(resolved.y.val(), r(10));
    assert_eq!(resolved.width.val(), r(80));
    assert_eq!(resolved.height.val(), r(80));
    assert!(resolved.x.is_auto() && resolved.width.is_auto());
}

#[test]
fn auto_rect_covers_several_children() {
    let mut tree = Node::with_children(
        Shape::Rect(auto_rect()),
        vec![rect_node(10, 40, 20, 50), rect_node(60, 10, 30, 10)],
    );
    assert_eq!(layout(&mut tree, bb(0, 0, 100, 100), &no_replies()), Ok(bb(10, 10, 90, 90)));
    let resolved = tree.shape.rect().unwrap();
    assert_eq!((resolved.x.val(), resolved.y.val()), (r(10), r(10)));
    assert_eq!((resolved.width.val(), resolved.height.val()), (r(80), r(80)));
}

#[test]
fn auto_rect_grows_by_its_padding_on_each_side() {
    let mut shape = auto_rect();
    shape.padding = Padding { left: abs(1), right: abs(2), top: abs(3), bottom: abs(4) };
    let mut tree = Node::with_children(Shape::Rect(shape), vec![rect_node(10, 10, 80, 80)]);
    assert_eq!(layout(&mut tree, bb(0, 0, 100, 100), &no_replies()), Ok(bb(9, 7, 92, 94)));
    let resolved = tree.shape.rect().unwrap();
    assert_eq!((resolved.x.val(), resolved.y.val()), (r(9), r(7)));
    assert_eq!((resolved.width.val(), resolved.height.val()), (r(83), r(87)));
}

#[test]
fn auto_width_is_measured_from_a_given_position() {
    let shape = rect(abs(0), abs(5), Dimension::auto(), Dimension::auto());
    let mut tree = Node::with_children(Shape::Rect(shape), vec![rect_node(10, 10, 80, 80)]);
    assert_eq!(layout(&mut tree, bb(0, 0, 100, 100), &no_replies()), Ok(bb(0, 5, 90, 90)));
    let resolved = tree.shape.rect().unwrap();
    assert_eq!((resolved.width.val(), resolved.height.val()), (r(90), r(85)));
}

#[test]
fn auto_rect_without_children_collapses_to_the_origin() {
    let mut tree = Node::new(Shape::Rect(auto_rect()));
    assert_eq!(layout(&mut tree, bb(0, 0, 100, 100), &no_replies()), Ok(bb(0, 0, 0, 0)));
}

#[test]
fn absolute_rect_keeps_its_geometry() {
    let mut tree = Node::with_children(Shape::Rect(rect(abs(1), abs(2), abs(3), abs(4))), vec![rect_node(10, 10, 80, 80)]);
    assert_eq!(layout(&mut tree, bb(0, 0, 100, 100), &no_replies()), Ok(bb(1, 2, 4, 6)));
}

#[test]
fn circle_auto_radius_is_half_of_the_larger_extent() {
    let shape = Circle { cx: Dimension::auto(), cy: Dimension::auto(), r: Dimension::auto(), ..Circle::new() };
    let mut tree = Node::with_children(Shape::Circle(shape), vec![rect_node(0, 0, 40, 20)]);
    let bound = layout(&mut tree, bb(0, 0, 100, 100), &no_replies());
    let resolved = tree.shape.circle().unwrap();
    assert_eq!(resolved.r.val(), r(20));
    assert_eq!(resolved.cx.val(), r(20));
    assert_eq!(resolved.cy.val(), r(10));
    assert_eq!(bound, Ok(bb(0, -10, 40, 30)));
}

#[test]
fn circle_auto_radius_counts_padding() {
    let shape = Circle {
        cx: Dimension::auto(),
        cy: Dimension::auto(),
        r: Dimension::auto(),
        padding: Padding { left: abs(2), right: abs(4), top: abs(20), bottom: abs(10) },
        ..Circle::new()
    };
    let mut tree = Node::with_children(Shape::Circle(shape), vec![rect_node(10, 10, 40, 20)]);
    layout(&mut tree, bb(0, 0, 100, 100), &no_replies()).unwrap();
    let resolved = tree.shape.circle().unwrap();
    assert_eq!(resolved.r.val(), r(25));
    assert_eq!(resolved.cx.val(), r(32));
    assert_eq!(resolved.cy.val(), r(40));
}

#[test]
fn circle_percent_radius_takes_the_smaller_side() {
    let shape = Circle { cx: pct(50), cy: pct(50), r: pct(50), ..Circle::new() };
    let mut tree = Node::new(Shape::Circle(shape));
    let bound = layout(&mut tree, bb(0, 0, 200, 100), &no_replies());
    let resolved = tree.shape.circle().unwrap();
    assert_eq!(resolved.cx.val(), r(100));
    assert_eq!(resolved.cy.val(), r(50));
    assert_eq!(resolved.r.val(), r(50));
    assert_eq!(bound, Ok(bb(50, 0, 150, 100)));
}

#[test]
fn percent_rect_resolves_against_the_viewport() {
    let mut tree = Node::new(Shape::Rect(rect(pct(10), pct(50), pct(50), pct(25))));
    assert_eq!(layout(&mut tree, bb(0, 0, 200, 100), &no_replies()), Ok(bb(20, 50, 120, 75)));
}

#[test]
fn percent_position_counts_from_the_corner_of_the_parent() {
    let child = Node::new(Shape::Rect(rect(pct(10), pct(10), pct(50), pct(50))));
    let mut tree = Node::with_children(Shape::Rect(rect(abs(100), abs(100), abs(200), abs(100))), vec![child]);
    assert_eq!(layout(&mut tree, bb(0, 0, 1000, 1000), &no_replies()), Ok(bb(100, 100, 300, 200)));
    let inner = tree.children[0].shape.rect().unwrap();
    assert_eq!((inner.x.val(), inner.y.val()), (r(120), r(110)));
    assert_eq!((inner.width.val(), inner.height.val()), (r(100), r(50)));
}

#[test]
fn zero_sized_parent_gives_zero_sized_children() {
    let mut tree = Node::new(Shape::Rect(rect(pct(10), pct(50), pct(50), pct(25))));
    assert_eq!(layout(&mut tree, bb(0, 0, 0, 0), &no_replies()), Ok(bb(0, 0, 0, 0)));
}

#[test]
fn padding_percent_resolves_against_the_parent() {
    let mut padding = Padding { left: pct(10), right: pct(20), top: pct(10), bottom: abs(3) };
    set_by_pct_padding(&mut padding, &bb(0, 0, 200, 100));
    assert_eq!(padding.left.val(), r(20));
    assert_eq!(padding.right.val(), r(40));
    assert_eq!(padding.top.val(), r(10));
    assert_eq!(padding.bottom.val(), r(3));
}

#[test]
fn clip_percent_resolves_without_an_offset() {
    let mut clip = Clip::Scissor(Scissor {
        x: pct(10),
        y: pct(10),
        width: pct(50),
        height: abs(7),
        transform: Transform::none(),
    });
    set_by_pct_clip(&mut clip, &bb(100, 100, 300, 200));
    match clip {
        Clip::Scissor(s) => {
            assert_eq!(s.x.val(), r(20));
            assert_eq!(s.y.val(), r(10));
            assert_eq!(s.width.val(), r(100));
            assert_eq!(s.height.val(), r(7));
        }
        Clip::Unset => panic!("the clip was dropped"),
    }
    let mut unset = Clip::Unset;
    set_by_pct_clip(&mut unset, &bb(100, 100, 300, 200));
    assert_eq!(unset, Clip::Unset);
}

#[test]
fn children_are_laid_out_under_the_padded_matrix() {
    let mut shape = rect(abs(0), abs(0), abs(100), abs(100));
    shape.padding = Padding { left: abs(5), right: abs(0), top: abs(7), bottom: abs(0) };
    let child = Node::new(Shape::Rect(Rect {
        transform: Transform::with_matrix(TransformMatrix::identity()),
        ..rect(abs(1), abs(1), abs(2), abs(2))
    }));
    let mut tree = Node::with_children(Shape::Rect(shape), vec![child]);
    layout(&mut tree, bb(0, 0, 100, 100), &no_replies()).unwrap();
    let own = tree.shape.rect().unwrap().transform.calculated_matrix();
    assert_eq!(own, Some(TransformMatrix::identity()));
    let below = tree.children[0].shape.rect().unwrap().transform.calculated_matrix();
    let mut expected = TransformMatrix::identity();
    expected.translate_add(r(5), r(7));
    assert_eq!(below, Some(expected));
}

#[test]
fn group_reports_the_box_of_its_children() {
    let group = Node::with_children(Shape::Group(Group::new()), vec![rect_node(10, 10, 80, 80)]);
    let mut tree = Node::with_children(Shape::Rect(auto_rect()), vec![group]);
    assert_eq!(layout(&mut tree, bb(0, 0, 100, 100), &no_replies()), Ok(bb(10, 10, 90, 90)));
}

#[test]
fn empty_group_reports_the_zero_box() {
    let mut tree = Node::new(Shape::Group(Group::new()));
    assert_eq!(layout(&mut tree, bb(5, 5, 100, 100), &no_replies()), Ok(bb(0, 0, 0, 0)));
}

#[test]
fn group_hands_the_bound_of_its_parent_to_its_children() {
    let child = Node::new(Shape::Rect(rect(pct(50), pct(50), pct(10), pct(10))));
    let mut tree = Node::with_children(Shape::Group(Group::new()), vec![child]);
    assert_eq!(layout(&mut tree, bb(0, 0, 200, 100), &no_replies()), Ok(bb(100, 50, 120, 60)));
}

#[test]
fn path_and_word_report_the_bound_they_were_given() {
    let mut path = Node::with_children(Shape::Path(Path::new(Vec::new())), vec![rect_node(1, 1, 2, 2)]);
    assert_eq!(layout(&mut path, bb(5, 5, 100, 100), &no_replies()), Ok(bb(5, 5, 100, 100)));
    let mut word = Node::new(Shape::Word(Word::new("w".to_string())));
    assert_eq!(layout(&mut word, bb(5, 5, 100, 100), &no_replies()), Ok(bb(5, 5, 100, 100)));
}

#[test]
fn text_without_a_reply_asks_for_one() {
    let mut shape = text("hi");
    shape.x = pct(5);
    shape.y = abs(3);
    let mut tree = Node::new(Shape::Text(shape));
    let stop = layout(&mut tree, bb(0, 0, 200, 100), &no_replies());
    assert_eq!(
        stop,
        Err(LayoutStop::Measure(TextRequest {
            font_name: "sans".to_string(),
            content: "hi".to_string(),
            x: r(10),
            y: r(3),
            options: TextOptions {
                color: Color::black(),
                size: r(12),
                align: Align { horizontal: AlignHor::Left, vertical: AlignVer::Baseline },
                clip: DrawClip::Unclipped,
                transform: None,
            },
        }))
    );
}

#[test]
fn text_takes_the_measures_of_its_reply() {
    let mut shape = text("hi");
    shape.x = pct(5);
    let mut tree = Node::new(Shape::Text(shape));
    let replies = vec![shaped(12, &[(10, 16), (16, 22)])];
    let bound = layout(&mut tree, bb(0, 0, 200, 100), &replies);
    assert_eq!(bound, Ok(bb(0, 0, 32, 12)));
    let resolved = tree.shape.text().unwrap();
    assert_eq!(resolved.metrics, Some(TextMetrics { ascender: r(10), descender: r(-2), line_height: r(12) }));
    assert_eq!(resolved.glyph_positions.len(), 2);
    assert_eq!(resolved.glyph_positions[1], GlyphPos { x: r(16), min_x: r(16), max_x: r(22) });
    assert_eq!(resolved.bound(), bb(10, 0, 32, 12));
}

#[test]
fn text_without_glyphs_has_no_width() {
    let mut tree = Node::new(Shape::Text(Text { x: abs(4), y: abs(4), ..text("") }));
    layout(&mut tree, bb(0, 0, 200, 100), &vec![shaped(9, &[])]).unwrap();
    assert_eq!(tree.shape.text().unwrap().bound(), bb(4, 4, 4, 13));
}

#[test]
fn text_bound_goes_through_the_local_matrix() {
    let shape = Text {
        transform: Transform::with_matrix(TransformMatrix { a: r(2), b: r(0), c: r(0), d: r(2), e: r(1), f: r(1) }),
        x: abs(10),
        y: abs(10),
        ..text("hi")
    };
    let mut tree = Node::new(Shape::Text(shape));
    let bound = layout(&mut tree, bb(0, 0, 200, 100), &vec![shaped(5, &[(10, 20)])]);
    assert_eq!(bound, Ok(bb(1, 1, 61, 31)));
}

#[test]
fn missing_font_is_reported_by_name() {
    let mut tree = Node::with_children(Shape::Group(Group::new()), vec![Node::new(Shape::Text(text("hi")))]);
    let stop = layout(&mut tree, bb(0, 0, 200, 100), &vec![TextReply::FontNotFound]);
    assert_eq!(stop, Err(LayoutStop::FontNotFound("sans".to_string())));
}

#[test]
fn texts_take_their_replies_in_document_order() {
    let first = Node::new(Shape::Text(text("a")));
    let second = Node::new(Shape::Text(Text { x: abs(50), ..text("b") }));
    let mut tree = Node::with_children(Shape::Group(Group::new()), vec![first, second]);
    let one = vec![shaped(10, &[(0, 7)])];
    match layout(&mut tree.clone(), bb(0, 0, 200, 100), &one) {
        Err(LayoutStop::Measure(request)) => {
            assert_eq!(request.content, "b");
            assert_eq!(request.x, r(50));
        }
        other => panic!("expected a request, got {:?}", other),
    }
    let both = vec![shaped(10, &[(0, 7)]), shaped(20, &[(50, 58)])];
    assert_eq!(layout(&mut tree, bb(0, 0, 200, 100), &both), Ok(bb(0, 0, 108, 20)));
    assert_eq!(tree.children[0].shape.text().unwrap().glyph_positions.len(), 1);
    assert_eq!(tree.children[1].shape.text().unwrap().metrics.unwrap().line_height, r(20));
}

#[test]
fn a_stop_leaves_later_siblings_untouched() {
    let before = Node::new(Shape::Rect(rect(pct(10), abs(0), abs(1), abs(1))));
    let asking = Node::new(Shape::Text(text("a")));
    let after = Node::new(Shape::Rect(rect(pct(10), abs(0), abs(1), abs(1))));
    let mut tree = Node::with_children(Shape::Group(Group::new()), vec![before, asking, after]);
    assert!(layout(&mut tree, bb(0, 0, 200, 100), &no_replies()).is_err());
    assert_eq!(tree.children[0].shape.rect().unwrap().x.val(), r(20));
    assert_eq!(tree.children[2].shape.rect().unwrap().x.val(), r(0));
}

#[test]
fn request_carries_the_inherited_style() {
    let red = Color::rgb(r(1), r(0), r(0));
    let group = Group {
        fill: Some(Fill { paint: Paint::Color(red) }),
        transparency: Some(Real::from_raw(500_000)),
        ..Group::new()
    };
    let mut tree = Node::with_children(Shape::Group(group), vec![Node::new(Shape::Text(text("hi")))]);
    match layout(&mut tree, bb(0, 0, 200, 100), &no_replies()) {
        Err(LayoutStop::Measure(request)) => {
            assert_eq!(request.options.color, red.with_alpha(Real::from_raw(500_000)));
        }
        other => panic!("expected a request, got {:?}", other),
    }
}

#[test]
fn recalc_composite_counts_the_replies_it_used() {
    let mut tree = Node::with_children(
        Shape::Group(Group::new()),
        vec![Node::new(Shape::Text(text("a"))), rect_node(0, 0, 5, 5), Node::new(Shape::Text(text("b")))],
    );
    let replies = vec![TextReply::FontNotFound, shaped(10, &[(0, 7)]), shaped(10, &[(0, 9)])];
    let done = recalc_composite(
        &mut tree,
        bb(0, 0, 100, 100),
        TransformMatrix::identity(),
        ShapeDefaults::initial(),
        &replies,
        1,
    );
    assert_eq!(done, Ok((bb(0, 0, 9, 10), 3)));
}

#[test]
fn calc_inner_bound_unites_the_children() {
    let mut children = vec![rect_node(10, 40, 20, 50), rect_node(60, 10, 30, 10)];
    let inner = calc_inner_bound(
        &mut children,
        bb(0, 0, 100, 100),
        TransformMatrix::identity(),
        ShapeDefaults::initial(),
        &no_replies(),
        0,
    );
    assert_eq!(inner, Ok((bb(10, 10, 90, 90), 0)));
    let mut none: Vec<Node> = Vec::new();
    let empty = calc_inner_bound(
        &mut none,
        bb(0, 0, 100, 100),
        TransformMatrix::identity(),
        ShapeDefaults::initial(),
        &no_replies(),
        0,
    );
    assert_eq!(empty, Ok((bb(0, 0, 0, 0), 0)));
}

#[test]
fn layout_twice_resolves_percentages_from_their_declaration() {
    let mut tree = Node::new(Shape::Rect(rect(pct(10), pct(50), pct(50), pct(25))));
    layout(&mut tree, bb(100, 0, 300, 100), &no_replies()).unwrap();
    let first = tree.clone();
    assert_eq!(layout(&mut tree, bb(100, 0, 300, 100), &no_replies()), Ok(bb(120, 50, 220, 75)));
    assert_eq!(tree, first);
}
