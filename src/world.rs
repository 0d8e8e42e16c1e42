use vstd::prelude::*;

use crate::catalog::PointType;
use crate::orientation::Orientation;

verus! {

/// Side of one grid cell, in world units.
pub const CELL_SIZE: i64 = 20;

/// A grid cell.
#[derive(Clone, Copy, Debug, Default, PartialEq, Eq, Structural)]
pub struct Position {
    pub x: i32,
    pub y: i32,
}

impl Position {
    pub fn new(x: i32, y: i32) -> (r: Position)
        ensures
            r == (Position { x, y }),
    {
        Position { x, y }
    }

    /// World coordinates of the cell's centre on the ground plane: the grid
    /// coordinates scaled by the cell size.
    pub fn world_coordinates(&self) -> (r: (i64, i64))
        ensures
            r.0 == self.x * CELL_SIZE,
            r.1 == self.y * CELL_SIZE,
    {
        (self.x as i64 * CELL_SIZE, self.y as i64 * CELL_SIZE)
    }
}

/// An object placed on the grid: which catalog entry, where, and facing which way.
#[derive(Clone, Copy, Debug, PartialEq, Eq, Structural)]
pub struct Point {
    pub has: PointType,
    pub position: Position,
    pub orientation: Orientation,
}

impl Point {
    pub fn new(has: PointType, position: Position, orientation: Orientation) -> (r: Point)
        ensures
            r == (Point { has, position, orientation }),
    {
        Point { has, position, orientation }
    }
}

/// Some object of `s` stands at `pos`.
pub open spec fn occupied(s: Seq<Point>, pos: Position) -> bool {
    exists|i: int| 0 <= i < s.len() && s[i].position == pos
}

/// No two objects of `s` share a cell.
pub open spec fn unique_positions(s: Seq<Point>) -> bool {
    forall|i: int, j: int|
        0 <= i < s.len() && 0 <= j < s.len() && i != j ==> s[i].position != s[j].position
}

/// The objects of `s` that do not stand at `pos`, in their order.
pub open spec fn without_position(s: Seq<Point>, pos: Position) -> Seq<Point> {
    s.filter(|p: Point| p.position != pos)
}

/// `s` after placing `p`: unchanged where the cell is taken, else `p` added.
pub open spec fn inserted(s: Seq<Point>, p: Point) -> Seq<Point> {
    if occupied(s, p.position) {
        s
    } else {
        s.push(p)
    }
}

/// The objects placed in the scene, at most one per cell.
#[derive(Debug)]
pub struct World {
    pub points: Vec<Point>,
}

impl World {
    /// An empty registry.
    pub fn new() -> (r: World)
        ensures
            r.points@ == Seq::<Point>::empty(),
    {
        World { points: Vec::new() }
    }

    /// Every placed object is in a cell of its own.
    pub open spec fn wf(&self) -> bool {
        unique_positions(self.points@)
    }

    /// The object at `pos`: the first such one in the registry's order.
    pub fn get_point(&self, pos: &Position) -> (r: Option<&Point>)
        ensures
            r is None <==> !occupied(self.points@, *pos),
            r matches Some(p) ==> exists|i: int|
                0 <= i < self.points@.len() && self.points@[i] == *p && p.position == *pos
                    && forall|j: int| 0 <= j < i ==> self.points@[j].position != *pos,
    {
        let mut i: usize = 0;
        while i < self.points.len()
            invariant
                i <= self.points@.len(),
                forall|j: int| 0 <= j < i ==> self.points@[j].position != *pos,
            decreases self.points@.len() - i,
        {
            if self.points[i].position == *pos {
                return Some(&self.points[i]);
            }
            i += 1;
        }
        None
    }

    /// Places `point` unless its cell is already taken; a taken cell keeps its
    /// object and the registry is left as it was.
    pub fn set_point(&mut self, point: Point)
        ensures
            final(self).points@ == inserted(old(self).points@, point),
            old(self).wf() ==> final(self).wf(),
    {
        if self.get_point(&point.position).is_some() {
            return;
        }
        self.points.push(point);
    }

    /// Deletes whatever stands at `pos`; nothing happens where the cell is empty.
    pub fn remove_point(&mut self, pos: &Position)
        ensures
            final(self).points@ == without_position(old(self).points@, *pos),
            !occupied(final(self).points@, *pos),
            !occupied(old(self).points@, *pos) ==> final(self).points@ == old(self).points@,
            old(self).wf() ==> final(self).wf(),
    {
        let ghost s = self.points@;
        let ghost f = |p: Point| p.position != *pos;
        let mut kept: Vec<Point> = Vec::new();
        let mut i: usize = 0;
        while i < self.points.len()
            invariant
                s == self.points@,
                f == (|p: Point| p.position != *pos),
                i <= s.len(),
                kept@ == s.subrange(0, i as int).filter(f),
                forall|k: int| 0 <= k < kept@.len() ==> kept@[k].position != *pos,
                forall|k: int|
                    0 <= k < kept@.len() ==> exists|j: int| 0 <= j < i && #[trigger] kept@[k] == s[j],
                unique_positions(s) ==> unique_positions(kept@),
            decreases s.len() - i,
        {
            let p = self.points[i];
            proof {
                let pre = s.subrange(0, i + 1);
                assert(pre.drop_last() == s.subrange(0, i as int));
                assert(pre.last() == p);
                reveal_with_fuel(Seq::filter, 1);
                if f(p) {
                    assert(pre.filter(f) == s.subrange(0, i as int).filter(f).push(p));
                } else {
                    assert(pre.filter(f) == s.subrange(0, i as int).filter(f));
                }
            }
            if !(p.position == *pos) {
                proof {
                    if unique_positions(s) {
                        assert forall|k: int| 0 <= k < kept@.len() implies kept@[k].position
                            != p.position by {
                            let j = choose|j: int| 0 <= j < i && kept@[k] == s[j];
                            assert(s[j].position != s[i as int].position);
                        }
                    }
                }
                kept.push(p);
                proof {
                    assert forall|k: int| 0 <= k < kept@.len() implies exists|j: int|
                        0 <= j < i + 1 && #[trigger] kept@[k] == s[j] by {
                        if k == kept@.len() - 1 {
                            assert(kept@[k] == s[i as int]);
                        } else {
                            let j = choose|j: int| 0 <= j < i && kept@[k] == s[j];
                            assert(kept@[k] == s[j]);
                        }
                    }
                }
            }
            i += 1;
        }
        proof {
            assert(s.subrange(0, s.len() as int) == s);
            if !occupied(s, *pos) {
                assert(s.filter(f) == s) by {
                    lemma_filter_keeps_all(s, f);
                }
            }
        }
        self.points = kept;
    }

    /// Discards every object and installs `points` as they are. Whether their
    /// cells are distinct is the caller's concern.
    pub fn replace_all(&mut self, points: Vec<Point>)
        ensures
            final(self).points@ == points@,
    {
        self.points = points;
    }
}

impl Default for World {
    fn default() -> (r: World)
        ensures
            r.points@ == Seq::<Point>::empty(),
    {
        World::new()
    }
}

/// Placing an object in a taken cell leaves the registry as it was; placing it
/// in a free cell adds exactly that object at the end. Either way no two
/// objects come to share a cell.
pub proof fn lemma_insert_keeps_cells_unique(s: Seq<Point>, p: Point)
    ensures
        occupied(s, p.position) ==> inserted(s, p) == s,
        !occupied(s, p.position) ==> inserted(s, p).len() == s.len() + 1
            && inserted(s, p).drop_last() == s && inserted(s, p).last() == p,
        unique_positions(s) ==> unique_positions(inserted(s, p)),
{
    if !occupied(s, p.position) {
        assert(s.push(p).drop_last() == s);
    }
}

proof fn lemma_filter_keeps_all(s: Seq<Point>, f: spec_fn(Point) -> bool)
    requires
        forall|i: int| 0 <= i < s.len() ==> f(s[i]),
    ensures
        s.filter(f) == s,
    decreases s.len(),
{
    reveal_with_fuel(Seq::filter, 1);
    if s.len() > 0 {
        lemma_filter_keeps_all(s.drop_last(), f);
        assert(s.drop_last().push(s.last()) == s);
    }
}

} // verus!
