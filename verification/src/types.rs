//! Coordinates, compass directions, line segments and styled text.

use vstd::prelude::*;

verus! {

/// A chunk's place among the chunks of a world.
#[derive(Debug, PartialEq, Eq, Structural, Hash, Clone, Copy)]
pub struct Coords4D(pub i32, pub i32, pub i32, pub i32);

/// A cell of a chunk, as `(x, y, z)`.
#[derive(Debug, PartialEq, Eq, Structural, Hash, Clone, Copy)]
pub struct Coords3D(pub i32, pub i32, pub i32);

#[derive(Debug, PartialEq, Eq, Structural, Hash, Clone, Copy)]
pub struct Coords2D(pub i32, pub i32);

/// The ten directions an entity can step in.
#[derive(Debug, PartialEq, Eq, Structural, Hash, Clone, Copy)]
pub enum Direction3D {
    North,
    Northeast,
    Northwest,
    South,
    Southeast,
    Southwest,
    East,
    West,
    Up,
    Down,
}

#[derive(Debug, PartialEq, Eq, Structural, Hash, Clone, Copy)]
pub enum Direction2D {
    North,
    South,
    East,
    West,
}

#[derive(Debug, PartialEq, Eq, Structural, Hash, Clone, Copy)]
pub enum Direction1D {
    Up,
    Down,
}

/// A text with one style.
#[derive(Debug, PartialEq, Eq)]
pub struct FormattedText<T> {
    pub s: String,
    pub style: T,
}

/// A row of texts, each with its style, and the cell it speaks of, if any.
#[derive(Debug, PartialEq, Eq)]
pub struct FormattedString<T> {
    pub texts: Vec<FormattedText<T>>,
    pub origin: Option<Coords3D>,
}

/// What the world has to say: a popup to show, or a line for the log.
#[derive(Debug, PartialEq, Eq)]
pub enum Message {
    Popup(FormattedString<crate::ui::popup_message::PopupStyle>),
    Log(FormattedString<crate::world::log::LogStyle>),
}

/// The style of text that belongs to no window.
#[derive(Debug, PartialEq, Eq, Structural, Clone, Copy)]
pub enum GenericStyle {
    Default,
}

#[derive(Debug, PartialEq, Eq, Structural, Clone, Copy)]
pub enum Color {
    White,
    Red,
    Green,
    Blue,
}

/// A straight line between two cells of a plane.
#[derive(Debug, PartialEq, Eq, Structural, Clone, Copy)]
pub struct LineSegment2D {
    pub start: Coords2D,
    pub end: Coords2D,
}

/// A straight line between two cells.
#[derive(Debug, PartialEq, Eq, Structural, Clone, Copy)]
pub struct LineSegment3D {
    pub start: Coords3D,
    pub end: Coords3D,
}

impl Default for Coords4D {
    fn default() -> (c: Self)
        ensures
            c == Coords4D(0, 0, 0, 0),
    {
        Coords4D(0, 0, 0, 0)
    }
}

impl Default for Coords3D {
    fn default() -> (c: Self)
        ensures
            c == Coords3D(0, 0, 0),
    {
        Coords3D(0, 0, 0)
    }
}

impl Default for Coords2D {
    fn default() -> (c: Self)
        ensures
            c == Coords2D(0, 0),
    {
        Coords2D(0, 0)
    }
}

impl Direction3D {
    /// The opposite direction.
    pub open spec fn spec_invert(self) -> Direction3D {
        match self {
            Direction3D::North => Direction3D::South,
            Direction3D::Northeast => Direction3D::Southwest,
            Direction3D::Northwest => Direction3D::Southeast,
            Direction3D::South => Direction3D::North,
            Direction3D::Southeast => Direction3D::Northwest,
            Direction3D::Southwest => Direction3D::Northeast,
            Direction3D::East => Direction3D::West,
            Direction3D::West => Direction3D::East,
            Direction3D::Up => Direction3D::Down,
            Direction3D::Down => Direction3D::Up,
        }
    }

    /// How far one step in this direction moves along x: east is positive.
    pub open spec fn dx(self) -> int {
        match self {
            Direction3D::East | Direction3D::Northeast | Direction3D::Southeast => 1,
            Direction3D::West | Direction3D::Northwest | Direction3D::Southwest => -1,
            _ => 0,
        }
    }

    /// How far one step in this direction moves along y: south is positive.
    pub open spec fn dy(self) -> int {
        match self {
            Direction3D::South | Direction3D::Southeast | Direction3D::Southwest => 1,
            Direction3D::North | Direction3D::Northeast | Direction3D::Northwest => -1,
            _ => 0,
        }
    }

    /// How far one step in this direction moves along z: up is positive.
    pub open spec fn dz(self) -> int {
        match self {
            Direction3D::Up => 1,
            Direction3D::Down => -1,
            _ => 0,
        }
    }

    /// Turns the direction into its opposite.
    pub fn invert(&mut self)
        ensures
            *final(self) == old(self).spec_invert(),
    {
        *self = match *self {
            Direction3D::North => Direction3D::South,
            Direction3D::Northeast => Direction3D::Southwest,
            Direction3D::Northwest => Direction3D::Southeast,
            Direction3D::South => Direction3D::North,
            Direction3D::Southeast => Direction3D::Northwest,
            Direction3D::Southwest => Direction3D::Northeast,
            Direction3D::East => Direction3D::West,
            Direction3D::West => Direction3D::East,
            Direction3D::Up => Direction3D::Down,
            Direction3D::Down => Direction3D::Up,
        };
    }
}

/// Inverting twice gives the direction back, and the opposite direction
/// steps the other way along every axis.
pub proof fn lemma_invert_involutive(d: Direction3D)
    ensures
        d.spec_invert().spec_invert() == d,
        d.spec_invert() != d,
        d.spec_invert().dx() == -d.dx(),
        d.spec_invert().dy() == -d.dy(),
        d.spec_invert().dz() == -d.dz(),
{
}

/// The absolute value of an integer.
pub open spec fn spec_abs(v: int) -> int {
    if v < 0 {
        -v
    } else {
        v
    }
}

impl Coords3D {
    /// Whether one step in `direction` stays within what a coordinate can hold.
    pub open spec fn can_step(self, direction: Direction3D) -> bool {
        &&& i32::MIN <= self.0 + direction.dx() <= i32::MAX
        &&& i32::MIN <= self.1 + direction.dy() <= i32::MAX
        &&& i32::MIN <= self.2 + direction.dz() <= i32::MAX
    }

    /// The cell one step away in `direction`.
    pub open spec fn spec_step(self, direction: Direction3D) -> Coords3D {
        Coords3D(
            (self.0 + direction.dx()) as i32,
            (self.1 + direction.dy()) as i32,
            (self.2 + direction.dz()) as i32,
        )
    }

    /// The cell one step away in `direction`, or `None` where a coordinate
    /// would leave the range of its type.
    pub fn step(&self, direction: &Direction3D) -> (cell: Option<Coords3D>)
        ensures
            self.can_step(*direction) ==> cell == Some(self.spec_step(*direction)),
            !self.can_step(*direction) ==> cell is None,
    {
        let (dx, dy, dz): (i32, i32, i32) = match direction {
            Direction3D::East => (1, 0, 0),
            Direction3D::West => (-1, 0, 0),
            Direction3D::South => (0, 1, 0),
            Direction3D::North => (0, -1, 0),
            Direction3D::Up => (0, 0, 1),
            Direction3D::Down => (0, 0, -1),
            Direction3D::Northeast => (1, -1, 0),
            Direction3D::Northwest => (-1, -1, 0),
            Direction3D::Southeast => (1, 1, 0),
            Direction3D::Southwest => (-1, 1, 0),
        };
        let x = self.0.checked_add(dx);
        let y = self.1.checked_add(dy);
        let z = self.2.checked_add(dz);
        match (x, y, z) {
            (Some(x), Some(y), Some(z)) => Some(Coords3D(x, y, z)),
            _ => None,
        }
    }

    /// Moves one step in `direction`: east and west along x, south and north
    /// along y, up and down along z, a diagonal along both x and y.
    pub fn move_in_direction(&mut self, direction: &Direction3D)
        requires
            old(self).can_step(*direction),
        ensures
            *final(self) == old(self).spec_step(*direction),
    {
        match self.step(direction) {
            Some(cell) => {
                *self = cell;
            },
            None => {},
        }
    }

    /// The compass direction that the planar offsets `dx` and `dy` point in,
    /// where they are not both zero. The axis with the larger offset gives
    /// the quadrant; y wins a tie towards the north and x wins one towards
    /// the south. Within a quadrant the direction is the cardinal one where
    /// the larger offset is more than twice the smaller (at least twice,
    /// towards the south), and else the diagonal on the side of the smaller.
    pub open spec fn spec_planar_direction(dx: int, dy: int) -> Direction3D {
        if dy > spec_abs(dx) {
            if dy >= 2 * spec_abs(dx) {
                Direction3D::South
            } else if dx > 0 {
                Direction3D::Southeast
            } else {
                Direction3D::Southwest
            }
        } else if spec_abs(dy) >= spec_abs(dx) && dy <= 0 {
            if spec_abs(dy) > 2 * spec_abs(dx) {
                Direction3D::North
            } else if dx > 0 {
                Direction3D::Northeast
            } else {
                Direction3D::Northwest
            }
        } else if dx >= 0 {
            if spec_abs(dx) > 2 * spec_abs(dy) {
                Direction3D::East
            } else if dy > 0 {
                Direction3D::Southeast
            } else {
                Direction3D::Northeast
            }
        } else {
            if spec_abs(dx) > 2 * spec_abs(dy) {
                Direction3D::West
            } else if dy > 0 {
                Direction3D::Southwest
            } else {
                Direction3D::Northwest
            }
        }
    }

    /// The direction of the offset of `self` from `coords`: up or down where
    /// the two differ in z alone, else the planar direction of the x and y
    /// offsets.
    pub open spec fn spec_direction_to(self, coords: Coords3D) -> Direction3D {
        let dx = self.0 - coords.0;
        let dy = self.1 - coords.1;
        let dz = self.2 - coords.2;
        if dx == 0 && dy == 0 && dz < 0 {
            Direction3D::Down
        } else if dx == 0 && dy == 0 && dz > 0 {
            Direction3D::Up
        } else {
            Self::spec_planar_direction(dx, dy)
        }
    }

    pub fn direction_to(&self, coords: &Coords3D) -> (direction: Direction3D)
        ensures
            direction == self.spec_direction_to(*coords),
    {
        let dx: i64 = self.0 as i64 - coords.0 as i64;
        let dy: i64 = self.1 as i64 - coords.1 as i64;
        let dz: i64 = self.2 as i64 - coords.2 as i64;
        let ax: i64 = if dx < 0 { -dx } else { dx };
        let ay: i64 = if dy < 0 { -dy } else { dy };
        if dx == 0 && dy == 0 && dz < 0 {
            Direction3D::Down
        } else if dx == 0 && dy == 0 && dz > 0 {
            Direction3D::Up
        } else if dy > ax {
            if dy >= 2 * ax {
                Direction3D::South
            } else if dx > 0 {
                Direction3D::Southeast
            } else {
                Direction3D::Southwest
            }
        } else if ay >= ax && dy <= 0 {
            if ay > 2 * ax {
                Direction3D::North
            } else if dx > 0 {
                Direction3D::Northeast
            } else {
                Direction3D::Northwest
            }
        } else if dx >= 0 {
            if ax > 2 * ay {
                Direction3D::East
            } else if dy > 0 {
                Direction3D::Southeast
            } else {
                Direction3D::Northeast
            }
        } else {
            if ax > 2 * ay {
                Direction3D::West
            } else if dy > 0 {
                Direction3D::Southwest
            } else {
                Direction3D::Northwest
            }
        }
    }
}

/// The planar direction lies in the half-planes of its offsets: it never
/// steps against a nonzero offset along x or along y, and it always steps
/// along one of the two.
pub proof fn lemma_planar_direction_sign(dx: int, dy: int)
    requires
        dx != 0 || dy != 0,
    ensures
        dx > 0 ==> Coords3D::spec_planar_direction(dx, dy).dx() >= 0,
        dx < 0 ==> Coords3D::spec_planar_direction(dx, dy).dx() <= 0,
        dy > 0 ==> Coords3D::spec_planar_direction(dx, dy).dy() >= 0,
        dy < 0 ==> Coords3D::spec_planar_direction(dx, dy).dy() <= 0,
        Coords3D::spec_planar_direction(dx, dy).dz() == 0,
        Coords3D::spec_planar_direction(dx, dy).dx() != 0 || Coords3D::spec_planar_direction(
            dx,
            dy,
        ).dy() != 0,
{
}

/// Mirroring both offsets turns the planar direction into its opposite,
/// but for the ties that the north and the south break differently.
pub proof fn lemma_planar_direction_mirror(dx: int, dy: int)
    requires
        dx != 0 || dy != 0,
        spec_abs(dx) != spec_abs(dy),
        spec_abs(dy) != 2 * spec_abs(dx),
    ensures
        Coords3D::spec_planar_direction(-dx, -dy) == Coords3D::spec_planar_direction(
            dx,
            dy,
        ).spec_invert(),
{
}

} // verus!
