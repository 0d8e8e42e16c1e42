use vstd::prelude::*;

use crate::cursor::{cursor_wf, spec_advance, spec_reference, spec_retreat, ModelCursor};
use crate::orientation::{spec_next, spec_previous, Orientation};
use crate::world::{inserted, occupied, without_position, Point, Position, World};

verus! {

/// Whether the preview of the selected model has to be rebuilt.
#[derive(Clone, Copy, Debug, PartialEq, Eq, Structural)]
pub enum PlaceDelta {
    /// The preview shows the current selection and facing.
    Unchanged,
    /// The selection or the facing changed since the preview was built.
    Update,
}

impl Default for PlaceDelta {
    fn default() -> (r: PlaceDelta)
        ensures
            r == PlaceDelta::Unchanged,
    {
        PlaceDelta::Unchanged
    }
}

impl PlaceDelta {
    pub fn requested_update(&self) -> (r: bool)
        ensures
            r == (*self is Update),
    {
        match self {
            PlaceDelta::Unchanged => false,
            PlaceDelta::Update => true,
        }
    }
}

/// The selection commands of one tick.
#[derive(Clone, Copy, Debug, PartialEq, Eq, Structural)]
pub struct ControlInput {
    /// The "forward" command was just given.
    pub forward: bool,
    /// The "back" command was just given.
    pub back: bool,
    /// The modifier that turns forward and back into rotations is held.
    pub rotate: bool,
    /// The hot-key for the ground catalog was just pressed.
    pub select_floor: bool,
    /// The hot-key for the structures catalog was just pressed.
    pub select_buildings: bool,
}

/// Facing after one tick of commands.
pub open spec fn orientation_after(input: ControlInput, o: Orientation) -> Orientation {
    let o1 = if input.forward && input.rotate {
        spec_next(o)
    } else {
        o
    };
    if input.back && input.rotate {
        spec_previous(o1)
    } else {
        o1
    }
}

/// Selection after one tick of commands: forward and back move it by one
/// unless the rotation modifier is held; a catalog hot-key then selects the
/// first entry of that catalog, the structures key last.
pub open spec fn cursor_after(input: ControlInput, c: ModelCursor) -> ModelCursor {
    let c1 = if input.forward && !input.rotate {
        spec_advance(c, 1)
    } else {
        c
    };
    let c2 = if input.back && !input.rotate {
        spec_retreat(c1, 1)
    } else {
        c1
    };
    let c3 = if input.select_floor {
        ModelCursor::Floor(0)
    } else {
        c2
    };
    if input.select_buildings {
        ModelCursor::Buildings(0)
    } else {
        c3
    }
}

/// Some command was given this tick.
pub open spec fn any_command(input: ControlInput) -> bool {
    input.forward || input.back || input.select_floor || input.select_buildings
}

/// Applies one tick of selection commands to the cursor and the facing, and
/// marks the preview for a rebuild when any command was given.
pub fn control_cursor(
    input: &ControlInput,
    cursor: &mut ModelCursor,
    orientation: &mut Orientation,
    delta: &mut PlaceDelta,
)
    requires
        cursor_wf(*old(cursor)),
    ensures
        *final(cursor) == cursor_after(*input, *old(cursor)),
        cursor_wf(*final(cursor)),
        *final(orientation) == orientation_after(*input, *old(orientation)),
        any_command(*input) ==> *final(delta) == PlaceDelta::Update,
        !any_command(*input) ==> *final(delta) == *old(delta),
{
    if input.forward || input.back || input.select_floor || input.select_buildings {
        *delta = PlaceDelta::Update;
    }
    if input.forward && input.rotate {
        orientation.next();
    }
    if input.back && input.rotate {
        orientation.previous();
    }
    if input.forward && !input.rotate {
        cursor.advance(1);
    }
    if input.back && !input.rotate {
        cursor.retreat(1);
    }
    if input.select_floor {
        *cursor = ModelCursor::Floor(0);
    }
    if input.select_buildings {
        *cursor = ModelCursor::Buildings(0);
    }
}

/// What a primary click does.
#[derive(Clone, Copy, Debug, PartialEq, Eq, Structural)]
pub enum ClickAction {
    Idle,
    Place,
    Remove,
}

/// A fresh primary click places, or removes while the remove modifier is held.
pub fn click_action(primary_just_pressed: bool, remove_held: bool) -> (r: ClickAction)
    ensures
        !primary_just_pressed ==> r == ClickAction::Idle,
        primary_just_pressed && !remove_held ==> r == ClickAction::Place,
        primary_just_pressed && remove_held ==> r == ClickAction::Remove,
{
    if !primary_just_pressed {
        ClickAction::Idle
    } else if remove_held {
        ClickAction::Remove
    } else {
        ClickAction::Place
    }
}

/// The object that placing with this selection and facing at `position` makes.
pub open spec fn placed_object(
    cursor: ModelCursor,
    orientation: Orientation,
    position: Position,
) -> Point {
    Point { has: spec_reference(cursor), position, orientation }
}

/// Places the selected entry with the current facing at `position`. Returns
/// the new object, or `None` where the cell was taken and nothing changed.
pub fn place_model(
    world: &mut World,
    cursor: &ModelCursor,
    orientation: &Orientation,
    position: Position,
) -> (r: Option<Point>)
    requires
        cursor_wf(*cursor),
    ensures
        final(world).points@ == inserted(
            old(world).points@,
            placed_object(*cursor, *orientation, position),
        ),
        occupied(old(world).points@, position) ==> r is None,
        !occupied(old(world).points@, position) ==> r == Some(
            placed_object(*cursor, *orientation, position),
        ),
        old(world).wf() ==> final(world).wf(),
{
    let point = Point::new(cursor.current_reference(), position, *orientation);
    if world.get_point(&position).is_some() {
        return None;
    }
    world.set_point(point);
    Some(point)
}

/// Removes whatever stands at `position`; returns whether anything did.
pub fn remove_model(world: &mut World, position: Position) -> (r: bool)
    ensures
        final(world).points@ == without_position(old(world).points@, position),
        r == occupied(old(world).points@, position),
        old(world).wf() ==> final(world).wf(),
{
    let found = world.get_point(&position).is_some();
    world.remove_point(&position);
    found
}

/// Visibility of the placement preview: hidden when the remove modifier is
/// pressed, shown again when it is released, otherwise as it was.
pub fn preview_visible(visible: bool, remove_just_pressed: bool, remove_just_released: bool) -> (r:
    bool)
    ensures
        r == (if remove_just_released {
            true
        } else if remove_just_pressed {
            false
        } else {
            visible
        }),
{
    let mut v = visible;
    if remove_just_pressed {
        v = false;
    }
    if remove_just_released {
        v = true;
    }
    v
}

} // verus!
