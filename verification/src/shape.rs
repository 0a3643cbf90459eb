//! The shapes of the scene graph.

use vstd::prelude::*;

pub mod rect;
pub mod circle;
pub mod path;
pub mod group;
pub mod text;
pub mod word;

pub use self::rect::{Rect, RectView};
pub use self::circle::{Circle, CircleView};
pub use self::path::{Path, PathCommand, PathError, PathSegment, PathState, PathStep, PathView};
pub use self::group::{Group, GroupView};
pub use self::text::{Align, GlyphPos, Text, TextMetrics, TextReply, TextReplyView, TextRequest, TextRequestView, TextView};
pub use self::word::{Word, WordView};

verus! {

/// The characters of an optional owned string.
pub open spec fn id_text(id: Option<String>) -> Option<Seq<char>> {
    match id {
        Some(s) => Some(s@),
        None => None,
    }
}

/// The characters of an optional string slice.
pub open spec fn str_text(id: Option<&str>) -> Option<Seq<char>> {
    match id {
        Some(s) => Some(s@),
        None => None,
    }
}

/// A copy of an optional owned string.
pub fn clone_id(id: &Option<String>) -> (copy: Option<String>)
    ensures
        copy == *id,
{
    match id {
        Some(s) => Some(s.clone()),
        None => None,
    }
}

/// A shape of any kind.
#[derive(Debug, PartialEq)]
pub enum Shape {
    Rect(Rect),
    Circle(Circle),
    Path(Path),
    Group(Group),
    Text(Text),
    Word(Word),
}

/// A shape of any kind, by the view of what it holds.
pub enum ShapeView {
    Rect(RectView),
    Circle(CircleView),
    Path(PathView),
    Group(GroupView),
    Text(TextView),
    Word(WordView),
}

impl View for Shape {
    type V = ShapeView;

    open spec fn view(&self) -> ShapeView {
        match *self {
            Shape::Rect(r) => ShapeView::Rect(r@),
            Shape::Circle(c) => ShapeView::Circle(c@),
            Shape::Path(p) => ShapeView::Path(p@),
            Shape::Group(g) => ShapeView::Group(g@),
            Shape::Text(t) => ShapeView::Text(t@),
            Shape::Word(w) => ShapeView::Word(w@),
        }
    }
}

/// The kind of a shape.
#[derive(Clone, Copy, Debug, PartialEq, Eq, Structural)]
pub enum ShapeKind {
    Rect,
    Circle,
    Path,
    Group,
    Text,
    Word,
}

impl ShapeView {
    /// The kind of the shape.
    pub open spec fn kind(self) -> ShapeKind {
        match self {
            ShapeView::Rect(_) => ShapeKind::Rect,
            ShapeView::Circle(_) => ShapeKind::Circle,
            ShapeView::Path(_) => ShapeKind::Path,
            ShapeView::Group(_) => ShapeKind::Group,
            ShapeView::Text(_) => ShapeKind::Text,
            ShapeView::Word(_) => ShapeKind::Word,
        }
    }

    /// The transform that the shape declares; a word declares none.
    pub open spec fn transform(self) -> crate::transform::Transform {
        match self {
            ShapeView::Rect(r) => r.transform,
            ShapeView::Circle(c) => c.transform,
            ShapeView::Path(p) => p.transform,
            ShapeView::Group(g) => g.transform,
            ShapeView::Text(t) => t.transform,
            ShapeView::Word(_) => crate::transform::Transform::spec_none(),
        }
    }

    /// The id of the shape, whatever its kind.
    pub open spec fn id(self) -> Option<Seq<char>> {
        match self {
            ShapeView::Rect(r) => r.id,
            ShapeView::Circle(c) => c.id,
            ShapeView::Path(p) => p.id,
            ShapeView::Group(g) => g.id,
            ShapeView::Text(t) => t.id,
            ShapeView::Word(w) => w.id,
        }
    }
}

/// Access to a shape by its kind: each method gives the shape where it is of the
/// kind asked for, and nothing where it is of another kind.
pub trait Shapeable {
    fn rect(&self) -> Option<&Rect>;

    fn rect_mut(&mut self) -> Option<&mut Rect>;

    fn circle(&self) -> Option<&Circle>;

    fn circle_mut(&mut self) -> Option<&mut Circle>;

    fn path(&self) -> Option<&Path>;

    fn path_mut(&mut self) -> Option<&mut Path>;

    fn group(&self) -> Option<&Group>;

    fn group_mut(&mut self) -> Option<&mut Group>;

    fn text(&self) -> Option<&Text>;

    fn text_mut(&mut self) -> Option<&mut Text>;

    fn word(&self) -> Option<&Word>;

    fn word_mut(&mut self) -> Option<&mut Word>;
}

/// A shared reference to a shape.
pub struct ShapeRef<'a>(pub &'a Shape);

/// An exclusive reference to a shape.
pub struct ShapeRefMut<'a>(pub &'a mut Shape);

impl Clone for Shape {
    fn clone(&self) -> (copy: Shape)
        ensures
            copy@ == self@,
    {
        match self {
            Shape::Rect(r) => Shape::Rect(r.clone()),
            Shape::Circle(c) => Shape::Circle(c.clone()),
            Shape::Path(p) => Shape::Path(p.clone()),
            Shape::Group(g) => Shape::Group(g.clone()),
            Shape::Text(t) => Shape::Text(t.clone()),
            Shape::Word(w) => Shape::Word(w.clone()),
        }
    }
}

impl Shape {
    /// The kind of the shape.
    pub fn kind(&self) -> (k: ShapeKind)
        ensures
            k == self@.kind(),
    {
        match self {
            Shape::Rect(_) => ShapeKind::Rect,
            Shape::Circle(_) => ShapeKind::Circle,
            Shape::Path(_) => ShapeKind::Path,
            Shape::Group(_) => ShapeKind::Group,
            Shape::Text(_) => ShapeKind::Text,
            Shape::Word(_) => ShapeKind::Word,
        }
    }

    pub fn id(&self) -> (r: Option<&str>)
        ensures
            str_text(r) == self@.id(),
    {
        match self {
            Shape::Rect(r) => r.id(),
            Shape::Circle(c) => c.id(),
            Shape::Path(p) => p.id(),
            Shape::Group(g) => g.id(),
            Shape::Text(t) => t.id(),
            Shape::Word(w) => w.id(),
        }
    }

    #[inline]
    pub fn as_ref(&self) -> (r: ShapeRef<'_>)
        ensures
            *r.0 == *self,
    {
        ShapeRef(self)
    }

    #[inline]
    pub fn as_ref_mut(&mut self) -> (r: ShapeRefMut<'_>)
        ensures
            *r.0 == *old(self),
            *final(self) == *final(r.0),
    {
        ShapeRefMut(self)
    }
}

impl Shapeable for Shape {
    #[inline]
    fn rect(&self) -> (r: Option<&Rect>)
        ensures
            match r {
                Some(rect) => *self == Shape::Rect(*rect),
                None => !(*self is Rect),
            },
    {
        match self {
            Shape::Rect(rect) => Some(rect),
            _ => None,
        }
    }

    #[inline]
    fn rect_mut(&mut self) -> (r: Option<&mut Rect>)
        ensures
            match r {
                Some(rect) => *old(self) == Shape::Rect(*rect) && *final(self) == Shape::Rect(*final(rect)),
                None => !(*old(self) is Rect) && *final(self) == *old(self),
            },
    {
        match self {
            Shape::Rect(rect) => Some(rect),
            _ => None,
        }
    }

    #[inline]
    fn circle(&self) -> (r: Option<&Circle>)
        ensures
            match r {
                Some(circle) => *self == Shape::Circle(*circle),
                None => !(*self is Circle),
            },
    {
        match self {
            Shape::Circle(circle) => Some(circle),
            _ => None,
        }
    }

    #[inline]
    fn circle_mut(&mut self) -> (r: Option<&mut Circle>)
        ensures
            match r {
                Some(circle) => *old(self) == Shape::Circle(*circle) && *final(self) == Shape::Circle(*final(circle)),
                None => !(*old(self) is Circle) && *final(self) == *old(self),
            },
    {
        match self {
            Shape::Circle(circle) => Some(circle),
            _ => None,
        }
    }

    #[inline]
    fn path(&self) -> (r: Option<&Path>)
        ensures
            match r {
                Some(path) => *self == Shape::Path(*path),
                None => !(*self is Path),
            },
    {
        match self {
            Shape::Path(path) => Some(path),
            _ => None,
        }
    }

    #[inline]
    fn path_mut(&mut self) -> (r: Option<&mut Path>)
        ensures
            match r {
                Some(path) => *old(self) == Shape::Path(*path) && *final(self) == Shape::Path(*final(path)),
                None => !(*old(self) is Path) && *final(self) == *old(self),
            },
    {
        match self {
            Shape::Path(path) => Some(path),
            _ => None,
        }
    }

    #[inline]
    fn group(&self) -> (r: Option<&Group>)
        ensures
            match r {
                Some(group) => *self == Shape::Group(*group),
                None => !(*self is Group),
            },
    {
        match self {
            Shape::Group(group) => Some(group),
            _ => None,
        }
    }

    #[inline]
    fn group_mut(&mut self) -> (r: Option<&mut Group>)
        ensures
            match r {
                Some(group) => *old(self) == Shape::Group(*group) && *final(self) == Shape::Group(*final(group)),
                None => !(*old(self) is Group) && *final(self) == *old(self),
            },
    {
        match self {
            Shape::Group(group) => Some(group),
            _ => None,
        }
    }

    #[inline]
    fn text(&self) -> (r: Option<&Text>)
        ensures
            match r {
                Some(text) => *self == Shape::Text(*text),
                None => !(*self is Text),
            },
    {
        match self {
            Shape::Text(text) => Some(text),
            _ => None,
        }
    }

    #[inline]
    fn text_mut(&mut self) -> (r: Option<&mut Text>)
        ensures
            match r {
                Some(text) => *old(self) == Shape::Text(*text) && *final(self) == Shape::Text(*final(text)),
                None => !(*old(self) is Text) && *final(self) == *old(self),
            },
    {
        match self {
            Shape::Text(text) => Some(text),
            _ => None,
        }
    }

    #[inline]
    fn word(&self) -> (r: Option<&Word>)
        ensures
            match r {
                Some(word) => *self == Shape::Word(*word),
                None => !(*self is Word),
            },
    {
        match self {
            Shape::Word(word) => Some(word),
            _ => None,
        }
    }

    #[inline]
    fn word_mut(&mut self) -> (r: Option<&mut Word>)
        ensures
            match r {
                Some(word) => *old(self) == Shape::Word(*word) && *final(self) == Shape::Word(*final(word)),
                None => !(*old(self) is Word) && *final(self) == *old(self),
            },
    {
        match self {
            Shape::Word(word) => Some(word),
            _ => None,
        }
    }
}

impl<'a> ShapeRef<'a> {
    #[inline]
    pub fn rect(&self) -> (r: Option<&Rect>)
        ensures
            match r {
                Some(rect) => *self.0 == Shape::Rect(*rect),
                None => !(*self.0 is Rect),
            },
    {
        self.0.rect()
    }

    #[inline]
    pub fn circle(&self) -> (r: Option<&Circle>)
        ensures
            match r {
                Some(circle) => *self.0 == Shape::Circle(*circle),
                None => !(*self.0 is Circle),
            },
    {
        self.0.circle()
    }

    #[inline]
    pub fn path(&self) -> (r: Option<&Path>)
        ensures
            match r {
                Some(path) => *self.0 == Shape::Path(*path),
                None => !(*self.0 is Path),
            },
    {
        self.0.path()
    }

    #[inline]
    pub fn group(&self) -> (r: Option<&Group>)
        ensures
            match r {
                Some(group) => *self.0 == Shape::Group(*group),
                None => !(*self.0 is Group),
            },
    {
        self.0.group()
    }

    #[inline]
    pub fn text(&self) -> (r: Option<&Text>)
        ensures
            match r {
                Some(text) => *self.0 == Shape::Text(*text),
                None => !(*self.0 is Text),
            },
    {
        self.0.text()
    }

    #[inline]
    pub fn word(&self) -> (r: Option<&Word>)
        ensures
            match r {
                Some(word) => *self.0 == Shape::Word(*word),
                None => !(*self.0 is Word),
            },
    {
        self.0.word()
    }
}

impl<'a> ShapeRefMut<'a> {
    #[inline]
    pub fn rect(&mut self) -> (r: Option<&mut Rect>)
        ensures
            match r {
                Some(rect) => *old(self).0 == Shape::Rect(*rect) && *final(self).0 == Shape::Rect(*final(rect)),
                None => !(*old(self).0 is Rect) && *final(self).0 == *old(self).0,
            },
            *final(final(self).0) == *final(old(self).0),
    {
        self.0.rect_mut()
    }

    #[inline]
    pub fn circle(&mut self) -> (r: Option<&mut Circle>)
        ensures
            match r {
                Some(circle) => *old(self).0 == Shape::Circle(*circle) && *final(self).0 == Shape::Circle(
                    *final(circle),
                ),
                None => !(*old(self).0 is Circle) && *final(self).0 == *old(self).0,
            },
            *final(final(self).0) == *final(old(self).0),
    {
        self.0.circle_mut()
    }

    #[inline]
    pub fn path(&mut self) -> (r: Option<&mut Path>)
        ensures
            match r {
                Some(path) => *old(self).0 == Shape::Path(*path) && *final(self).0 == Shape::Path(*final(path)),
                None => !(*old(self).0 is Path) && *final(self).0 == *old(self).0,
            },
            *final(final(self).0) == *final(old(self).0),
    {
        self.0.path_mut()
    }

    #[inline]
    pub fn group(&mut self) -> (r: Option<&mut Group>)
        ensures
            match r {
                Some(group) => *old(self).0 == Shape::Group(*group) && *final(self).0 == Shape::Group(*final(group)),
                None => !(*old(self).0 is Group) && *final(self).0 == *old(self).0,
            },
            *final(final(self).0) == *final(old(self).0),
    {
        self.0.group_mut()
    }

    #[inline]
    pub fn text(&mut self) -> (r: Option<&mut Text>)
        ensures
            match r {
                Some(text) => *old(self).0 == Shape::Text(*text) && *final(self).0 == Shape::Text(*final(text)),
                None => !(*old(self).0 is Text) && *final(self).0 == *old(self).0,
            },
            *final(final(self).0) == *final(old(self).0),
    {
        self.0.text_mut()
    }

    #[inline]
    pub fn word(&mut self) -> (r: Option<&mut Word>)
        ensures
            match r {
                Some(word) => *old(self).0 == Shape::Word(*word) && *final(self).0 == Shape::Word(*final(word)),
                None => !(*old(self).0 is Word) && *final(self).0 == *old(self).0,
            },
            *final(final(self).0) == *final(old(self).0),
    {
        self.0.word_mut()
    }
}

impl From<Rect> for Shape {
    fn from(rect: Rect) -> (shape: Shape) {
        Shape::Rect(rect)
    }
}

impl vstd::std_specs::convert::FromSpecImpl<Rect> for Shape {
    open spec fn obeys_from_spec() -> bool {
        true
    }

    open spec fn from_spec(rect: Rect) -> Shape {
        Shape::Rect(rect)
    }
}

impl From<Circle> for Shape {
    fn from(circle: Circle) -> (shape: Shape) {
        Shape::Circle(circle)
    }
}

impl vstd::std_specs::convert::FromSpecImpl<Circle> for Shape {
    open spec fn obeys_from_spec() -> bool {
        true
    }

    open spec fn from_spec(circle: Circle) -> Shape {
        Shape::Circle(circle)
    }
}

impl From<Path> for Shape {
    fn from(path: Path) -> (shape: Shape) {
        Shape::Path(path)
    }
}

impl vstd::std_specs::convert::FromSpecImpl<Path> for Shape {
    open spec fn obeys_from_spec() -> bool {
        true
    }

    open spec fn from_spec(path: Path) -> Shape {
        Shape::Path(path)
    }
}

impl From<Group> for Shape {
    fn from(group: Group) -> (shape: Shape) {
        Shape::Group(group)
    }
}

impl vstd::std_specs::convert::FromSpecImpl<Group> for Shape {
    open spec fn obeys_from_spec() -> bool {
        true
    }

    open spec fn from_spec(group: Group) -> Shape {
        Shape::Group(group)
    }
}

impl From<Text> for Shape {
    fn from(text: Text) -> (shape: Shape) {
        Shape::Text(text)
    }
}

impl vstd::std_specs::convert::FromSpecImpl<Text> for Shape {
    open spec fn obeys_from_spec() -> bool {
        true
    }

    open spec fn from_spec(text: Text) -> Shape {
        Shape::Text(text)
    }
}

impl From<Word> for Shape {
    fn from(word: Word) -> (shape: Shape) {
        Shape::Word(word)
    }
}

impl vstd::std_specs::convert::FromSpecImpl<Word> for Shape {
    open spec fn obeys_from_spec() -> bool {
        true
    }

    open spec fn from_spec(word: Word) -> Shape {
        Shape::Word(word)
    }
}

impl From<String> for Shape {
    /// A word with the given text and no id.
    fn from(text: String) -> (shape: Shape) {
        Shape::Word(Word { id: None, content: text })
    }
}

impl vstd::std_specs::convert::FromSpecImpl<String> for Shape {
    open spec fn obeys_from_spec() -> bool {
        true
    }

    open spec fn from_spec(text: String) -> Shape {
        Shape::Word(Word { id: None, content: text })
    }
}

} // verus!
