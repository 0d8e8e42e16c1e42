use vstd::prelude::*;

use crate::catalog::{
    building_at, building_path, building_ref, floor_at, floor_path, floor_ref, BuildingModel,
    FloorModel, Meta, PointType, BUILDING_LEN, FLOOR_LEN,
};

verus! {

/// The selection: which catalog is active and which of its entries is chosen.
#[derive(Clone, Copy, Debug, PartialEq, Eq, Structural)]
pub enum ModelCursor {
    Floor(usize),
    Buildings(usize),
}

/// Length of the catalog that a cursor points into.
pub open spec fn spec_max(c: ModelCursor) -> nat {
    match c {
        ModelCursor::Floor(_) => FLOOR_LEN as nat,
        ModelCursor::Buildings(_) => BUILDING_LEN as nat,
    }
}

/// The selected index.
pub open spec fn spec_index(c: ModelCursor) -> nat {
    match c {
        ModelCursor::Floor(i) => i as nat,
        ModelCursor::Buildings(i) => i as nat,
    }
}

/// The selected index lies inside the active catalog.
pub open spec fn cursor_wf(c: ModelCursor) -> bool {
    spec_index(c) < spec_max(c)
}

/// Both cursors point into the same catalog.
pub open spec fn same_catalog(a: ModelCursor, b: ModelCursor) -> bool {
    (a is Floor && b is Floor) || (a is Buildings && b is Buildings)
}

/// The cursor in the same catalog as `c` with index `i`.
pub open spec fn with_index(c: ModelCursor, i: nat) -> ModelCursor {
    match c {
        ModelCursor::Floor(_) => ModelCursor::Floor(i as usize),
        ModelCursor::Buildings(_) => ModelCursor::Buildings(i as usize),
    }
}

/// Index reached by moving `step` forward from `i` in a catalog of `len`
/// entries: past the last entry the selection starts over at 0.
pub open spec fn advanced(i: nat, step: nat, len: nat) -> nat {
    if i + step >= len {
        0
    } else {
        i + step
    }
}

/// Index reached by moving `step` back from `i` in a catalog of `len`
/// entries: before the first entry the selection jumps to the last.
pub open spec fn retreated(i: nat, step: nat, len: nat) -> nat {
    if step > i {
        (len - 1) as nat
    } else {
        (i - step) as nat
    }
}

pub open spec fn spec_advance(c: ModelCursor, step: nat) -> ModelCursor {
    with_index(c, advanced(spec_index(c), step, spec_max(c)))
}

pub open spec fn spec_retreat(c: ModelCursor, step: nat) -> ModelCursor {
    with_index(c, retreated(spec_index(c), step, spec_max(c)))
}

/// The catalog reference that a cursor selects.
pub open spec fn spec_reference(c: ModelCursor) -> PointType {
    match c {
        ModelCursor::Floor(i) => floor_ref(floor_at(i as nat)),
        ModelCursor::Buildings(i) => building_ref(building_at(i as nat)),
    }
}

/// Asset of the entry that a cursor selects.
pub open spec fn spec_cursor_path(c: ModelCursor) -> &'static str {
    match c {
        ModelCursor::Floor(i) => floor_path(floor_at(i as nat)),
        ModelCursor::Buildings(i) => building_path(building_at(i as nat)),
    }
}

impl Default for ModelCursor {
    /// The first ground entry.
    fn default() -> (r: ModelCursor)
        ensures
            r == ModelCursor::Floor(0),
    {
        ModelCursor::Floor(0)
    }
}

impl ModelCursor {
    /// Whether `other` points into the same catalog, whatever its index.
    pub fn is(&self, other: ModelCursor) -> (r: bool)
        ensures
            r == same_catalog(*self, other),
    {
        match (self, other) {
            (ModelCursor::Floor(_), ModelCursor::Floor(_)) => true,
            (ModelCursor::Buildings(_), ModelCursor::Buildings(_)) => true,
            _ => false,
        }
    }

    /// Length of the active catalog.
    pub fn max(&self) -> (r: usize)
        ensures
            r == spec_max(*self),
    {
        match self {
            ModelCursor::Floor(_) => FloorModel::len(),
            ModelCursor::Buildings(_) => BuildingModel::len(),
        }
    }

    /// The asset of the selected entry.
    pub fn meta(&self) -> (r: Meta)
        requires
            cursor_wf(*self),
        ensures
            r.path == spec_cursor_path(*self),
    {
        match self {
            ModelCursor::Floor(i) => FloorModel::index(*i).get_meta(),
            ModelCursor::Buildings(i) => BuildingModel::index(*i).get_meta(),
        }
    }

    /// The selected index.
    pub fn index(&self) -> (r: usize)
        ensures
            r == spec_index(*self),
    {
        match self {
            ModelCursor::Floor(i) => *i,
            ModelCursor::Buildings(i) => *i,
        }
    }

    /// Selects index `c` in the active catalog.
    pub fn set(&mut self, c: usize)
        requires
            c < spec_max(*old(self)),
        ensures
            *final(self) == with_index(*old(self), c as nat),
            cursor_wf(*final(self)),
    {
        *self = match *self {
            ModelCursor::Floor(_) => ModelCursor::Floor(c),
            ModelCursor::Buildings(_) => ModelCursor::Buildings(c),
        };
    }

    /// Moves the selection `step` entries forward in the active catalog; a move
    /// past the last entry lands on the first.
    pub fn advance(&mut self, step: usize)
        requires
            cursor_wf(*old(self)),
        ensures
            *final(self) == spec_advance(*old(self), step as nat),
            cursor_wf(*final(self)),
    {
        let len = self.max();
        let i = self.index();
        if step >= len - i {
            self.set(0);
        } else {
            self.set(i + step);
        }
    }

    /// Moves the selection `step` entries back in the active catalog; a move
    /// before the first entry lands on the last.
    pub fn retreat(&mut self, step: usize)
        requires
            cursor_wf(*old(self)),
        ensures
            *final(self) == spec_retreat(*old(self), step as nat),
            cursor_wf(*final(self)),
    {
        let len = self.max();
        let i = self.index();
        if step > i {
            self.set(len - 1);
        } else {
            self.set(i - step);
        }
    }

    /// The catalog reference of the selected entry.
    pub fn current_reference(&self) -> (r: PointType)
        requires
            cursor_wf(*self),
        ensures
            r == spec_reference(*self),
    {
        match self {
            ModelCursor::Floor(i) => PointType::from(FloorModel::index(*i)),
            ModelCursor::Buildings(i) => PointType::from(BuildingModel::index(*i)),
        }
    }
}

/// Shifts the index forward by `rhs` in the same catalog, with no wrapping;
/// the result may lie outside the catalog.
impl core::ops::Add<usize> for ModelCursor {
    type Output = ModelCursor;

    fn add(self, rhs: usize) -> (r: ModelCursor) {
        match self {
            ModelCursor::Floor(c) => ModelCursor::Floor(c + rhs),
            ModelCursor::Buildings(c) => ModelCursor::Buildings(c + rhs),
        }
    }
}

impl vstd::std_specs::ops::AddSpecImpl<usize> for ModelCursor {
    open spec fn obeys_add_spec() -> bool {
        true
    }

    open spec fn add_req(self, rhs: usize) -> bool {
        spec_index(self) + rhs <= usize::MAX
    }

    open spec fn add_spec(self, rhs: usize) -> ModelCursor {
        with_index(self, (spec_index(self) + rhs) as nat)
    }
}

/// Shifts the index back by `rhs` in the same catalog, with no wrapping.
impl core::ops::Sub<usize> for ModelCursor {
    type Output = ModelCursor;

    fn sub(self, rhs: usize) -> (r: ModelCursor) {
        match self {
            ModelCursor::Floor(c) => ModelCursor::Floor(c - rhs),
            ModelCursor::Buildings(c) => ModelCursor::Buildings(c - rhs),
        }
    }
}

impl vstd::std_specs::ops::SubSpecImpl<usize> for ModelCursor {
    open spec fn obeys_sub_spec() -> bool {
        true
    }

    open spec fn sub_req(self, rhs: usize) -> bool {
        rhs <= spec_index(self)
    }

    open spec fn sub_spec(self, rhs: usize) -> ModelCursor {
        with_index(self, (spec_index(self) - rhs) as nat)
    }
}

/// Moving forward and then back by the same step returns to the start, unless
/// the forward move wrapped: then it ends on the last entry. Moving back and
/// then forward returns to the start, unless the backward move wrapped: then it
/// ends on the first entry.
pub proof fn lemma_advance_retreat(c: ModelCursor, step: nat)
    requires
        cursor_wf(c),
    ensures
        spec_index(c) + step < spec_max(c) ==> spec_retreat(spec_advance(c, step), step) == c,
        spec_index(c) + step >= spec_max(c) ==> spec_retreat(spec_advance(c, step), step)
            == with_index(c, (spec_max(c) - 1) as nat),
        step <= spec_index(c) ==> spec_advance(spec_retreat(c, step), step) == c,
        step > spec_index(c) ==> spec_advance(spec_retreat(c, step), step) == with_index(c, 0),
{
}

/// One step forward from the last entry selects the first; one step back from
/// the first selects the last.
pub proof fn lemma_wrap_endpoints(c: ModelCursor)
    requires
        cursor_wf(c),
    ensures
        spec_index(c) == spec_max(c) - 1 ==> spec_advance(c, 1) == with_index(c, 0),
        spec_index(c) == 0 ==> spec_retreat(c, 1) == with_index(c, (spec_max(c) - 1) as nat),
{
}

} // verus!
