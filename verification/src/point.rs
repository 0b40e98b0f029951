//! Reflection of a point across one of the two axes: flipping
//! horizontally negates `x`, flipping vertically negates `y`.

use vstd::prelude::*;

verus! {

/// A point on a small integer grid.
pub struct Position {
    pub x: i8,
    pub y: i8,
}

/// Which axis reflection to apply.
#[derive(Copy, Clone)]
pub enum FlipDirection {
    Horizontal,
    Vertical,
}

impl FlipDirection {
    /// The direction's display name.
    pub fn as_str(&self) -> (r: &'static str)
        ensures
            (*self is Horizontal) ==> r@ == "Horizontal"@,
            (*self is Vertical) ==> r@ == "Vertical"@,
    {
        match self {
            FlipDirection::Horizontal => "Horizontal",
            FlipDirection::Vertical => "Vertical",
        }
    }
}

/// A point together with the reflection requested for it.
pub struct InputPoint {
    pub original_position: Position,
    pub flip_direction: FlipDirection,
}

/// The result of a reflection: the input position, the direction applied,
/// and the reflected position.
pub struct OutputPoint {
    pub original_position: Position,
    pub flip_direction: FlipDirection,
    pub output_position: Position,
}

impl InputPoint {
    /// Reflects the point across the axis named by `flip_direction`.
    ///
    /// The coordinate that is negated must not be `i8::MIN`, whose
    /// negation does not fit in an `i8`.
    pub fn flip(&self) -> (r: OutputPoint)
        requires
            self.flip_direction is Horizontal ==> self.original_position.x != i8::MIN,
            self.flip_direction is Vertical ==> self.original_position.y != i8::MIN,
        ensures
            r.original_position == self.original_position,
            r.flip_direction == self.flip_direction,
            self.flip_direction is Horizontal ==> r.output_position.x == -self.original_position.x
                && r.output_position.y == self.original_position.y,
            self.flip_direction is Vertical ==> r.output_position.x == self.original_position.x
                && r.output_position.y == -self.original_position.y,
    {
        let output_position = match self.flip_direction {
            FlipDirection::Horizontal => self.flip_horizontal(),
            FlipDirection::Vertical => self.flip_vertical(),
        };
        OutputPoint {
            original_position: Position {
                x: self.original_position.x,
                y: self.original_position.y,
            },
            flip_direction: self.flip_direction,
            output_position,
        }
    }

    fn flip_horizontal(&self) -> (r: Position)
        requires
            self.original_position.x != i8::MIN,
        ensures
            r.x == -self.original_position.x,
            r.y == self.original_position.y,
    {
        Position { x: -self.original_position.x, y: self.original_position.y }
    }

    fn flip_vertical(&self) -> (r: Position)
        requires
            self.original_position.y != i8::MIN,
        ensures
            r.x == self.original_position.x,
            r.y == -self.original_position.y,
    {
        Position { x: self.original_position.x, y: -self.original_position.y }
    }
}

} // verus!
