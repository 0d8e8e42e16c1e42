use vstd::prelude::*;

verus! {

/// One of the four cardinal facings of a placed object. Each facing has a fixed
/// rotation about the vertical axis; the angle is never stored on its own.
#[derive(Clone, Copy, Debug, PartialEq, Eq, Structural)]
pub enum Orientation {
    North,
    East,
    South,
    West,
}

/// Position of a facing in the cycle North, East, South, West.
pub open spec fn spec_index(o: Orientation) -> nat {
    match o {
        Orientation::North => 0,
        Orientation::East => 1,
        Orientation::South => 2,
        Orientation::West => 3,
    }
}

/// The facing at position `i` of the cycle.
pub open spec fn spec_from_index(i: nat) -> Orientation
    recommends
        i < 4,
{
    if i == 0 {
        Orientation::North
    } else if i == 1 {
        Orientation::East
    } else if i == 2 {
        Orientation::South
    } else {
        Orientation::West
    }
}

/// The facing one step clockwise.
pub open spec fn spec_next(o: Orientation) -> Orientation {
    spec_from_index((spec_index(o) + 1) % 4)
}

/// The facing one step counter-clockwise.
pub open spec fn spec_previous(o: Orientation) -> Orientation {
    spec_from_index(((spec_index(o) + 3) % 4) as nat)
}

/// Rotation of a facing about the vertical axis, in degrees.
pub open spec fn spec_degrees(o: Orientation) -> nat {
    90 * spec_index(o)
}

impl Orientation {
    /// Number of facings.
    pub fn len() -> (r: usize)
        ensures
            r == 4,
    {
        4
    }

    /// The facing at position `i` of the cycle North, East, South, West.
    pub fn index(i: usize) -> (r: Orientation)
        requires
            i < 4,
        ensures
            r == spec_from_index(i as nat),
            spec_index(r) == i,
    {
        match i {
            0 => Orientation::North,
            1 => Orientation::East,
            2 => Orientation::South,
            _ => Orientation::West,
        }
    }

    /// Position of this facing in the cycle.
    pub fn get_index(&self) -> (r: usize)
        ensures
            r == spec_index(*self),
            r < 4,
    {
        match self {
            Orientation::North => 0,
            Orientation::East => 1,
            Orientation::South => 2,
            Orientation::West => 3,
        }
    }

    /// Turns one step forward, West wrapping round to North.
    pub fn next(&mut self)
        ensures
            *final(self) == spec_next(*old(self)),
    {
        let i = (self.get_index() + 1) % 4;
        *self = Orientation::index(i);
    }

    /// Turns one step back, North wrapping round to West.
    pub fn previous(&mut self)
        ensures
            *final(self) == spec_previous(*old(self)),
    {
        let mut i = self.get_index();
        if i == 0 {
            i = 4;
        }
        *self = Orientation::index(i - 1);
    }

    /// Rotation of this facing about the vertical axis, in whole degrees.
    pub fn degrees(&self) -> (r: u32)
        ensures
            r == spec_degrees(*self),
    {
        90 * (self.get_index() as u32)
    }

    /// Rotation in whole degrees of the facing at position `i`.
    pub fn get_degrees(i: usize) -> (r: u32)
        requires
            i < 4,
        ensures
            r == spec_degrees(spec_from_index(i as nat)),
    {
        Orientation::index(i).degrees()
    }
}

impl Default for Orientation {
    /// Facing towards the default camera: South.
    fn default() -> (r: Orientation)
        ensures
            r == Orientation::South,
    {
        Orientation::South
    }
}

/// Turning forward four times from any facing comes back to that facing;
/// North turns to East and West turns to North.
pub proof fn lemma_next_cycle(o: Orientation)
    ensures
        spec_next(spec_next(spec_next(spec_next(o)))) == o,
        spec_next(Orientation::North) == Orientation::East,
        spec_next(Orientation::West) == Orientation::North,
{
}

/// Turning back undoes turning forward, and the other way round.
pub proof fn lemma_previous_inverts_next(o: Orientation)
    ensures
        spec_previous(spec_next(o)) == o,
        spec_next(spec_previous(o)) == o,
{
}

} // verus!
