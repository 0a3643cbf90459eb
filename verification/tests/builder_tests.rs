use exgui::builder::{Builder, Entity, Primitive};
use exgui::matrix::TransformMatrix;
use exgui::node::Node;
use exgui::scalar::Real;
use exgui::shape::{Circle, Group, Path, Rect, Shape, Shapeable, Text, Word};
use exgui::style::{Color, Fill, LineCap, LineJoin, Paint, Stroke};
use exgui::transform::Transform;

fn r(n: i32) -> Real {
    Real::from_int(n)
}

fn red() -> Fill {
    Fill { paint: Paint::Color(Color::rgb(r(1), r(0), r(0))) }
}

fn thin() -> Stroke {
    Stroke {
        paint: Paint::Color(Color::black()),
        width: r(1),
        line_cap: LineCap::Butt,
        line_join: LineJoin::Miter,
        miter_limit: r(10),
    }
}

fn one_of_each() -> Vec<Node> {
    vec![
        Node::new(Shape::Rect(Rect::new())),
        Node::new(Shape::Circle(Circle::new())),
        Node::new(Shape::Path(Path::new(Vec::new()))),
        Node::new(Shape::Group(Group::new())),
        Node::new(Shape::Text(Text::new("sans".to_string(), r(10), "x".to_string()))),
        Node::new(Shape::Word(Word::new("x".to_string()))),
    ]
}

#[test]
fn build_gives_the_node_itself() {
    let node = Node::new(Shape::Rect(Rect::new()));
    assert_eq!(node.clone().build(), node);
}

#[test]
fn id_is_set_on_every_kind() {
    for node in one_of_each() {
        assert_eq!(node.shape().id(), None);
        let named = node.id("n".to_string());
        assert_eq!(named.shape().id(), Some("n"));
        assert_eq!(named.id("m".to_string()).shape().id(), Some("m"));
    }
}

#[test]
fn transform_is_set_where_there_is_one() {
    let t = Transform::with_matrix(TransformMatrix { a: r(2), b: r(0), c: r(0), d: r(2), e: r(0), f: r(0) });
    let nodes: Vec<Node> = one_of_each().into_iter().map(|n| n.transform(t)).collect();
    assert_eq!(nodes[0].shape().rect().unwrap().transform, t);
    assert_eq!(nodes[1].shape().circle().unwrap().transform, t);
    assert_eq!(nodes[2].shape().path().unwrap().transform, t);
    assert_eq!(nodes[3].shape().group().unwrap().transform, t);
    assert_eq!(nodes[4].shape().text().unwrap().transform, t);
    assert_eq!(nodes[5], Node::new(Shape::Word(Word::new("x".to_string()))));
}

#[test]
fn fill_and_stroke_are_set_and_removed() {
    let styled: Vec<Node> = one_of_each().into_iter().map(|n| n.fill(red()).stroke(thin())).collect();
    assert_eq!(styled[0].shape().rect().unwrap().fill, Some(red()));
    assert_eq!(styled[0].shape().rect().unwrap().stroke, Some(thin()));
    assert_eq!(styled[1].shape().circle().unwrap().fill, Some(red()));
    assert_eq!(styled[1].shape().circle().unwrap().stroke, Some(thin()));
    assert_eq!(styled[2].shape().path().unwrap().fill, Some(red()));
    assert_eq!(styled[2].shape().path().unwrap().stroke, Some(thin()));
    assert_eq!(styled[3].shape().group().unwrap().fill, Some(red()));
    assert_eq!(styled[3].shape().group().unwrap().stroke, Some(thin()));
    assert_eq!(styled[4].shape().text().unwrap().fill, Some(red()));
    assert_eq!(styled[5], Node::new(Shape::Word(Word::new("x".to_string()))));
    let bare: Vec<Node> = styled.into_iter().map(|n| n.remove_fill().remove_stroke()).collect();
    assert_eq!(bare, one_of_each());
}

#[test]
fn children_are_added_in_order() {
    let tree = Node::new(Shape::Group(Group::new()))
        .child(Node::new(Shape::Rect(Rect::new())).id("a".to_string()))
        .children(vec![
            Node::new(Shape::Circle(Circle::new())).id("b".to_string()),
            Node::new(Shape::Rect(Rect::new())).id("c".to_string()),
        ])
        .child(Node::new(Shape::Word(Word::new("w".to_string()))).id("d".to_string()));
    let ids: Vec<&str> = Node::children(&tree).iter().map(|c| c.shape().id().unwrap()).collect();
    assert_eq!(ids, vec!["a", "b", "c", "d"]);
}
