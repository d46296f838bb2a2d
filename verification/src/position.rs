//! Pointer positions: the wide one that the device reports, the narrow one
//! that it can be sent to, and the way from one to the other.

use vstd::prelude::*;
use vstd::string::*;

use crate::pattern::Action;
use crate::text::{decimal, push_decimal};

verus! {

/// A position as the pointer device reports it.
#[derive(Clone, Copy, Debug, PartialEq, Eq, Structural)]
pub struct Point {
    pub x: i64,
    pub y: i64,
}

/// A position that the pointer can be sent to.
#[derive(Clone, Copy, Debug, PartialEq, Eq, Structural)]
pub struct MousePoint {
    pub x: i32,
    pub y: i32,
}

/// One of the two coordinates of a position.
#[derive(Clone, Copy, Debug, PartialEq, Eq, Structural)]
pub enum Axis {
    X,
    Y,
}

/// A reported coordinate that no [`MousePoint`] can hold.
#[derive(Clone, Copy, Debug, PartialEq, Eq, Structural)]
pub struct CoordinateRangeError {
    /// The coordinate that did not fit; `X` where neither did.
    pub axis: Axis,
    /// What the device reported for it.
    pub value: i64,
}

/// Whether `value` is a coordinate that the pointer can be sent to.
pub open spec fn is_coordinate(value: int) -> bool {
    i32::MIN <= value <= i32::MAX
}

/// Where one step of `step` units in the direction `action` leads from
/// `(x, y)`. The y axis points down the screen, so `Up` subtracts.
pub open spec fn shifted(x: int, y: int, action: Action, step: int) -> (int, int) {
    match action {
        Action::Stay => (x, y),
        Action::Left => (x - step, y),
        Action::Right => (x + step, y),
        Action::Up => (x, y - step),
        Action::Down => (x, y + step),
    }
}

impl View for MousePoint {
    type V = (int, int);

    open spec fn view(&self) -> (int, int) {
        (self.x as int, self.y as int)
    }
}

impl Axis {
    /// The letter of the axis.
    pub open spec fn letter(&self) -> Seq<char> {
        match self {
            Axis::X => "x"@,
            Axis::Y => "y"@,
        }
    }
}

impl CoordinateRangeError {
    /// The error in words: the coordinate, and the value that it had.
    pub open spec fn text(&self) -> Seq<char> {
        "Error converting Point."@ + self.axis.letter() + " to i32: "@ + decimal(self.value as int)
    }

    /// The error in words, as in `Error converting Point.x to i32: 4294967296`.
    pub fn message(&self) -> (message: String)
        ensures
            message@ == self.text(),
    {
        let mut message: String = String::from_str("Error converting Point.");
        match self.axis {
            Axis::X => message.append("x"),
            Axis::Y => message.append("y"),
        }
        message.append(" to i32: ");
        push_decimal(&mut message, self.value);
        message
    }
}

impl Point {
    /// The position that stands in for one that the device would not tell.
    pub open spec fn spec_origin() -> Point {
        Point { x: 0, y: 0 }
    }

    /// The position that stands in for one that the device would not tell.
    #[verifier::when_used_as_spec(spec_origin)]
    pub fn origin() -> (origin: Point)
        ensures
            origin == Point::spec_origin(),
    {
        Point { x: 0, y: 0 }
    }

    /// This position as one that the pointer can be sent to, or the first
    /// coordinate that stands in the way: `x` is looked at before `y`.
    pub open spec fn narrowed(&self) -> Result<MousePoint, CoordinateRangeError> {
        if !is_coordinate(self.x as int) {
            Err(CoordinateRangeError { axis: Axis::X, value: self.x })
        } else if !is_coordinate(self.y as int) {
            Err(CoordinateRangeError { axis: Axis::Y, value: self.y })
        } else {
            Ok(MousePoint { x: self.x as i32, y: self.y as i32 })
        }
    }

    /// Narrows a reported position to one that the pointer can be sent to.
    ///
    /// Succeeds exactly when both coordinates are within `i32`, and then
    /// with the same coordinates.
    pub fn into_mouse_point(&self) -> (narrow: Result<MousePoint, CoordinateRangeError>)
        ensures
            narrow == self.narrowed(),
            narrow is Ok <==> is_coordinate(self.x as int) && is_coordinate(self.y as int),
            narrow matches Ok(at) ==> at@ == (self.x as int, self.y as int),
    {
        if self.x < -2147483648i64 || self.x > 2147483647i64 {
            Err(CoordinateRangeError { axis: Axis::X, value: self.x })
        } else if self.y < -2147483648i64 || self.y > 2147483647i64 {
            Err(CoordinateRangeError { axis: Axis::Y, value: self.y })
        } else {
            Ok(MousePoint { x: self.x as i32, y: self.y as i32 })
        }
    }
}

impl MousePoint {
    /// Whether a step of `step` units in the direction `action` ends at a
    /// position that the pointer can be sent to.
    pub open spec fn reaches(&self, action: Action, step: i32) -> bool {
        let (x, y) = shifted(self.x as int, self.y as int, action, step as int);
        is_coordinate(x) && is_coordinate(y)
    }

    /// Whether a step of `step` units in the direction `action` ends at a
    /// position that the pointer can be sent to.
    #[verifier::when_used_as_spec(reaches)]
    pub fn can_reach(&self, action: Action, step: i32) -> (fits: bool)
        ensures
            fits == self.reaches(action, step),
    {
        let x: i64 = self.x as i64;
        let y: i64 = self.y as i64;
        let by: i64 = step as i64;
        let moved: i64 = match action {
            Action::Stay => 0i64,
            Action::Left => x - by,
            Action::Right => x + by,
            Action::Up => y - by,
            Action::Down => y + by,
        };
        -2147483648i64 <= moved && moved <= 2147483647i64
    }

    /// Where the move of one tick ends, if the tick has a move.
    pub open spec fn target(&self, action: Action, step: i32) -> Option<MousePoint> {
        let (x, y) = shifted(self.x as int, self.y as int, action, step as int);
        match action {
            Action::Stay => None,
            _ => Some(MousePoint { x: x as i32, y: y as i32 }),
        }
    }

    /// The position one step of `step` units away in the direction
    /// `action`, or `None` for `Stay`, which moves nothing.
    pub fn offset(&self, action: Action, step: i32) -> (target: Option<MousePoint>)
        requires
            self.reaches(action, step),
        ensures
            target == self.target(action, step),
            target is None <==> action == Action::Stay,
            target matches Some(to) ==> to@ == shifted(
                self.x as int,
                self.y as int,
                action,
                step as int,
            ),
    {
        match action {
            Action::Stay => None,
            Action::Left => Some(MousePoint { x: self.x - step, y: self.y }),
            Action::Right => Some(MousePoint { x: self.x + step, y: self.y }),
            Action::Up => Some(MousePoint { x: self.x, y: self.y - step }),
            Action::Down => Some(MousePoint { x: self.x, y: self.y + step }),
        }
    }
}

} // verus!
