//! Paths: outlines given as a list of drawing commands, and the interpreter that
//! turns the commands into absolute segments.

use vstd::prelude::*;
use crate::matrix::{Point, TransformMatrix};
use crate::scalar::Real;
use crate::shape::{clone_id, id_text, str_text};
use crate::style::{Clip, Fill, Stroke};
use crate::transform::Transform;

verus! {

/// One step of an outline. A `Rel` command counts from the last point reached.
#[derive(Clone, Copy, Debug, PartialEq, Eq, Structural)]
pub enum PathCommand {
    Move(Point),
    MoveRel(Point),
    Line(Point),
    LineRel(Point),
    LineAlongX(Real),
    LineAlongXRel(Real),
    LineAlongY(Real),
    LineAlongYRel(Real),
    Close,
    BezCtrl(Point),
    BezCtrlRel(Point),
    BezReflectCtrl,
    QuadBezTo(Point),
    QuadBezToRel(Point),
    CubBezTo(Point),
    CubBezToRel(Point),
}

/// One piece of an outline in absolute coordinates.
#[derive(Clone, Copy, Debug, PartialEq, Eq, Structural)]
pub enum PathSegment {
    MoveTo(Point),
    LineTo(Point),
    Close,
    QuadBezierTo { to: Point, control: Point },
    CubicBezierTo { to: Point, control1: Point, control2: Point },
}

/// Why a list of commands could not be interpreted.
#[derive(Clone, Copy, Debug, PartialEq, Eq, Structural)]
pub enum PathError {
    /// The interpreter has no meaning for this command.
    UnsupportedPathCommand(PathCommand),
}

/// What the interpreter remembers between commands: the last point reached and the
/// two control points declared last, the older one first.
#[derive(Clone, Copy, Debug, PartialEq, Eq, Structural)]
pub struct PathState {
    pub cursor: Point,
    pub older_control: Point,
    pub newer_control: Point,
}

/// What one command does: the state after it and the segment it draws, if any.
#[derive(Clone, Copy, Debug, PartialEq, Eq, Structural)]
pub struct PathStep {
    pub state: PathState,
    pub segment: Option<PathSegment>,
}

/// What a list of commands does: the state it ends in, the segments it draws, and
/// the error that stopped it, if any. After an error nothing more is drawn.
pub struct PathRun {
    pub state: PathState,
    pub segments: Seq<PathSegment>,
    pub error: Option<PathError>,
}

impl PathCommand {
    /// Whether the interpreter has a meaning for the command.
    pub open spec fn spec_is_supported(self) -> bool {
        !(self is BezReflectCtrl)
    }

    #[verifier::when_used_as_spec(spec_is_supported)]
    pub fn is_supported(self) -> (r: bool)
        ensures
            r == self.spec_is_supported(),
    {
        match self {
            PathCommand::BezReflectCtrl => false,
            _ => true,
        }
    }
}

/// The point `p` counted from `origin`.
pub open spec fn spec_offset(origin: Point, p: Point) -> Point {
    Point { x: origin.x.add(p.x), y: origin.y.add(p.y) }
}

fn offset(origin: Point, p: Point) -> (q: Point)
    ensures
        q == spec_offset(origin, p),
{
    Point { x: origin.x.add(p.x), y: origin.y.add(p.y) }
}

impl PathState {
    /// The state before the first command: everything at the origin.
    pub open spec fn spec_initial() -> PathState {
        let origin = Point { x: Real::zero(), y: Real::zero() };
        PathState { cursor: origin, older_control: origin, newer_control: origin }
    }

    /// The state with the cursor at `to`.
    pub open spec fn moved(self, to: Point) -> PathState {
        PathState { cursor: to, ..self }
    }

    /// The state with `control` declared as the newest control point.
    pub open spec fn controlled(self, control: Point) -> PathState {
        PathState { older_control: self.newer_control, newer_control: control, ..self }
    }

    /// The point that a command makes the cursor go to, where it names one.
    pub open spec fn target(self, command: PathCommand) -> Point {
        match command {
            PathCommand::Move(p) | PathCommand::Line(p) | PathCommand::QuadBezTo(p) | PathCommand::CubBezTo(p) => p,
            PathCommand::MoveRel(p) | PathCommand::LineRel(p) | PathCommand::QuadBezToRel(p)
            | PathCommand::CubBezToRel(p) => spec_offset(self.cursor, p),
            PathCommand::LineAlongX(x) => Point { x, ..self.cursor },
            PathCommand::LineAlongXRel(x) => Point { x: self.cursor.x.add(x), ..self.cursor },
            PathCommand::LineAlongY(y) => Point { y, ..self.cursor },
            PathCommand::LineAlongYRel(y) => Point { y: self.cursor.y.add(y), ..self.cursor },
            _ => self.cursor,
        }
    }

    /// What one command does in this state.
    pub open spec fn spec_step(self, command: PathCommand) -> Result<PathStep, PathError> {
        let to = self.target(command);
        match command {
            PathCommand::Move(_) | PathCommand::MoveRel(_) => Ok(
                PathStep { state: self.moved(to), segment: Some(PathSegment::MoveTo(to)) },
            ),
            PathCommand::Line(_) | PathCommand::LineRel(_) | PathCommand::LineAlongX(_)
            | PathCommand::LineAlongXRel(_) | PathCommand::LineAlongY(_) | PathCommand::LineAlongYRel(_) => Ok(
                PathStep { state: self.moved(to), segment: Some(PathSegment::LineTo(to)) },
            ),
            PathCommand::Close => Ok(PathStep { state: self, segment: Some(PathSegment::Close) }),
            PathCommand::BezCtrl(p) => Ok(PathStep { state: self.controlled(p), segment: None }),
            PathCommand::BezCtrlRel(p) => Ok(
                PathStep { state: self.controlled(spec_offset(self.cursor, p)), segment: None },
            ),
            PathCommand::QuadBezTo(_) | PathCommand::QuadBezToRel(_) => Ok(
                PathStep {
                    state: self.moved(to),
                    segment: Some(PathSegment::QuadBezierTo { to, control: self.newer_control }),
                },
            ),
            PathCommand::CubBezTo(_) | PathCommand::CubBezToRel(_) => Ok(
                PathStep {
                    state: self.moved(to),
                    segment: Some(
                        PathSegment::CubicBezierTo {
                            to,
                            control1: self.older_control,
                            control2: self.newer_control,
                        },
                    ),
                },
            ),
            PathCommand::BezReflectCtrl => Err(PathError::UnsupportedPathCommand(command)),
        }
    }

    #[verifier::when_used_as_spec(spec_initial)]
    pub fn initial() -> (s: PathState)
        ensures
            s == PathState::spec_initial(),
    {
        let origin = Point { x: Real::zero(), y: Real::zero() };
        PathState { cursor: origin, older_control: origin, newer_control: origin }
    }

    /// Interprets one command: the next state and the segment to draw, or the error
    /// for a command without a meaning.
    #[verifier::when_used_as_spec(spec_step)]
    pub fn step(self, command: PathCommand) -> (r: Result<PathStep, PathError>)
        ensures
            r == self.spec_step(command),
            r is Ok <==> command.is_supported(),
            r matches Err(e) ==> e == PathError::UnsupportedPathCommand(command),
    {
        let cursor = self.cursor;
        match command {
            PathCommand::Move(p) => Ok(self.go(p, PathSegment::MoveTo(p))),
            PathCommand::MoveRel(p) => {
                let to = offset(cursor, p);
                Ok(self.go(to, PathSegment::MoveTo(to)))
            },
            PathCommand::Line(p) => Ok(self.go(p, PathSegment::LineTo(p))),
            PathCommand::LineRel(p) => {
                let to = offset(cursor, p);
                Ok(self.go(to, PathSegment::LineTo(to)))
            },
            PathCommand::LineAlongX(x) => {
                let to = Point { x, y: cursor.y };
                Ok(self.go(to, PathSegment::LineTo(to)))
            },
            PathCommand::LineAlongXRel(x) => {
                let to = Point { x: cursor.x.add(x), y: cursor.y };
                Ok(self.go(to, PathSegment::LineTo(to)))
            },
            PathCommand::LineAlongY(y) => {
                let to = Point { x: cursor.x, y };
                Ok(self.go(to, PathSegment::LineTo(to)))
            },
            PathCommand::LineAlongYRel(y) => {
                let to = Point { x: cursor.x, y: cursor.y.add(y) };
                Ok(self.go(to, PathSegment::LineTo(to)))
            },
            PathCommand::Close => Ok(PathStep { state: self, segment: Some(PathSegment::Close) }),
            PathCommand::BezCtrl(p) => Ok(self.declare(p)),
            PathCommand::BezCtrlRel(p) => Ok(self.declare(offset(cursor, p))),
            PathCommand::QuadBezTo(p) => Ok(
                self.go(p, PathSegment::QuadBezierTo { to: p, control: self.newer_control }),
            ),
            PathCommand::QuadBezToRel(p) => {
                let to = offset(cursor, p);
                Ok(self.go(to, PathSegment::QuadBezierTo { to, control: self.newer_control }))
            },
            PathCommand::CubBezTo(p) => Ok(
                self.go(
                    p,
                    PathSegment::CubicBezierTo {
                        to: p,
                        control1: self.older_control,
                        control2: self.newer_control,
                    },
                ),
            ),
            PathCommand::CubBezToRel(p) => {
                let to = offset(cursor, p);
                Ok(
                    self.go(
                        to,
                        PathSegment::CubicBezierTo {
                            to,
                            control1: self.older_control,
                            control2: self.newer_control,
                        },
                    ),
                )
            },
            PathCommand::BezReflectCtrl => Err(PathError::UnsupportedPathCommand(command)),
        }
    }

    fn go(self, to: Point, segment: PathSegment) -> (r: PathStep)
        ensures
            r == (PathStep { state: self.moved(to), segment: Some(segment) }),
    {
        PathStep {
            state: PathState { cursor: to, older_control: self.older_control, newer_control: self.newer_control },
            segment: Some(segment),
        }
    }

    fn declare(self, control: Point) -> (r: PathStep)
        ensures
            r == (PathStep { state: self.controlled(control), segment: None }),
    {
        PathStep {
            state: PathState { cursor: self.cursor, older_control: self.newer_control, newer_control: control },
            segment: None,
        }
    }
}

/// What a list of commands does, read from the first command to the last.
pub open spec fn run(commands: Seq<PathCommand>) -> PathRun
    decreases commands.len(),
{
    if commands.len() == 0 {
        PathRun { state: PathState::spec_initial(), segments: Seq::empty(), error: None }
    } else {
        let before = run(commands.drop_last());
        if before.error is Some {
            before
        } else {
            match before.state.spec_step(commands.last()) {
                Ok(step) => PathRun {
                    state: step.state,
                    segments: match step.segment {
                        Some(segment) => before.segments.push(segment),
                        None => before.segments,
                    },
                    error: None,
                },
                Err(e) => PathRun { error: Some(e), ..before },
            }
        }
    }
}

/// Once a prefix of a list has failed, the rest of the list changes nothing.
pub proof fn lemma_run_stops_at_error(commands: Seq<PathCommand>, k: int)
    requires
        0 <= k <= commands.len(),
        run(commands.take(k)).error is Some,
    ensures
        run(commands) == run(commands.take(k)),
    decreases commands.len(),
{
    if k == commands.len() {
        assert(commands.take(k) =~= commands);
    } else {
        let front = commands.drop_last();
        assert(front.take(k) =~= commands.take(k));
        lemma_run_stops_at_error(front, k);
    }
}

/// A list of commands fails exactly when it holds a command without a meaning, and
/// the error then names the first such command; what was drawn before it is what
/// the commands before it draw.
pub proof fn lemma_run_fails_at_first_unsupported(commands: Seq<PathCommand>)
    ensures
        run(commands).error is None <==> forall|i: int| 0 <= i < commands.len() ==> (#[trigger] commands[i]).is_supported(),
        run(commands).error matches Some(e) ==> exists|k: int|
            {
                &&& 0 <= k < commands.len()
                &&& e == PathError::UnsupportedPathCommand(#[trigger] commands[k])
                &&& !commands[k].is_supported()
                &&& forall|i: int| 0 <= i < k ==> (#[trigger] commands[i]).is_supported()
                &&& run(commands).segments == run(commands.take(k)).segments
                &&& run(commands.take(k)).error is None
            },
    decreases commands.len(),
{
    if commands.len() > 0 {
        let front = commands.drop_last();
        let last = commands.len() - 1;
        lemma_run_fails_at_first_unsupported(front);
        assert(forall|i: int| 0 <= i < front.len() ==> front[i] == commands[i]);
        if run(front).error is Some {
            let e = run(front).error->0;
            let k = choose|k: int|
                {
                    &&& 0 <= k < front.len()
                    &&& e == PathError::UnsupportedPathCommand(#[trigger] front[k])
                    &&& !front[k].is_supported()
                    &&& forall|i: int| 0 <= i < k ==> (#[trigger] front[i]).is_supported()
                    &&& run(front).segments == run(front.take(k)).segments
                    &&& run(front.take(k)).error is None
                };
            assert(front.take(k) =~= commands.take(k));
            assert(commands[k] == front[k]);
            assert(!commands[k].is_supported());
        } else {
            assert(forall|i: int| 0 <= i < front.len() ==> (#[trigger] front[i]).is_supported());
            if !commands[last].is_supported() {
                assert(front =~= commands.take(last));
            } else {
                assert forall|i: int| 0 <= i < commands.len() implies (#[trigger] commands[i]).is_supported() by {
                    if i < last {
                        assert(front[i].is_supported());
                    }
                }
            }
        }
    }
}

/// Interprets a list of commands from the state in which everything is at the origin.
/// Returns the segments to draw, or the error for the first command without a meaning.
pub fn interpret(commands: &Vec<PathCommand>) -> (r: Result<Vec<PathSegment>, PathError>)
    ensures
        match r {
            Ok(segments) => run(commands@).error is None && segments@ == run(commands@).segments,
            Err(e) => run(commands@).error == Some(e),
        },
        r is Ok <==> forall|i: int| 0 <= i < commands.len() ==> (#[trigger] commands[i]).is_supported(),
{
    let mut state = PathState::initial();
    let mut segments: Vec<PathSegment> = Vec::new();
    let mut i: usize = 0;
    assert(commands@.take(0) =~= Seq::empty());
    proof {
        lemma_run_fails_at_first_unsupported(commands@);
    }
    while i < commands.len()
        invariant
            i <= commands.len(),
            run(commands@.take(i as int)) == (PathRun { state, segments: segments@, error: None }),
        decreases commands.len() - i,
    {
        assert(commands@.take(i + 1).drop_last() =~= commands@.take(i as int));
        assert(commands@.take(i + 1).last() == commands@[i as int]);
        match state.step(commands[i]) {
            Ok(step) => {
                state = step.state;
                if let Some(segment) = step.segment {
                    segments.push(segment);
                }
            },
            Err(e) => {
                proof {
                    lemma_run_stops_at_error(commands@, i + 1);
                }
                return Err(e);
            },
        }
        i += 1;
    }
    assert(commands@.take(commands.len() as int) =~= commands@);
    Ok(segments)
}

/// An outline with its own style.
#[derive(Debug, PartialEq)]
pub struct Path {
    pub id: Option<String>,
    pub commands: Vec<PathCommand>,
    pub fill: Option<Fill>,
    pub stroke: Option<Stroke>,
    pub clip: Clip,
    pub transform: Transform,
    pub transparency: Real,
}

/// What a path holds, with its text and its commands as sequences.
pub struct PathView {
    pub id: Option<Seq<char>>,
    pub commands: Seq<PathCommand>,
    pub fill: Option<Fill>,
    pub stroke: Option<Stroke>,
    pub clip: Clip,
    pub transform: Transform,
    pub transparency: Real,
}

impl View for Path {
    type V = PathView;

    open spec fn view(&self) -> PathView {
        PathView {
            id: id_text(self.id),
            commands: self.commands@,
            fill: self.fill,
            stroke: self.stroke,
            clip: self.clip,
            transform: self.transform,
            transparency: self.transparency,
        }
    }
}

impl PathView {
    /// The path after the top-down step: its clip is resolved against the parent's
    /// size and the global matrix is stored.
    pub open spec fn placed(self, parent_width: Real, parent_height: Real, parent_global: TransformMatrix) -> PathView {
        PathView {
            clip: self.clip.resolved_percent(parent_width, parent_height),
            transform: self.transform.composed(parent_global),
            ..self
        }
    }
}

/// A copy of a list of commands.
pub fn copy_commands(commands: &Vec<PathCommand>) -> (copy: Vec<PathCommand>)
    ensures
        copy@ == commands@,
{
    let mut copy: Vec<PathCommand> = Vec::new();
    let mut i: usize = 0;
    while i < commands.len()
        invariant
            i <= commands.len(),
            copy@ == commands@.take(i as int),
        decreases commands.len() - i,
    {
        copy.push(commands[i]);
        assert(copy@ =~= commands@.take(i + 1));
        i += 1;
    }
    assert(copy@ =~= commands@);
    copy
}

impl Clone for Path {
    fn clone(&self) -> (copy: Path)
        ensures
            copy@ == self@,
    {
        Path {
            id: clone_id(&self.id),
            commands: copy_commands(&self.commands),
            fill: self.fill,
            stroke: self.stroke,
            clip: self.clip,
            transform: self.transform,
            transparency: self.transparency,
        }
    }
}

impl Path {
    /// A path with the given commands and no style.
    pub fn new(commands: Vec<PathCommand>) -> (p: Path)
        ensures
            p@ == (PathView {
                id: None,
                commands: commands@,
                fill: None,
                stroke: None,
                clip: Clip::Unset,
                transform: Transform::none(),
                transparency: Real::zero(),
            }),
    {
        Path {
            id: None,
            commands,
            fill: None,
            stroke: None,
            clip: Clip::Unset,
            transform: Transform::none(),
            transparency: Real::zero(),
        }
    }

    pub fn id(&self) -> (r: Option<&str>)
        ensures
            str_text(r) == self@.id,
    {
        match &self.id {
            Some(s) => Some(s.as_str()),
            None => None,
        }
    }

    /// Stores and returns the global matrix under the given parent matrix.
    pub fn recalculate_transform(&mut self, parent_global: TransformMatrix) -> (m: TransformMatrix)
        ensures
            m == old(self).transform.global_under(parent_global),
            final(self)@ == (PathView { transform: old(self).transform.composed(parent_global), ..old(self)@ }),
    {
        self.transform.compose_global(parent_global)
    }
}

} // verus!
