use vstd::prelude::*;

verus! {

/// What a catalog entry carries besides its index: the scene asset to load.
#[derive(Clone, Copy, Debug, PartialEq, Eq)]
pub struct Meta {
    pub path: &'static str,
}

impl Meta {
    pub fn new(path: &'static str) -> (r: Meta)
        ensures
            r.path == path,
    {
        Meta { path }
    }
}

/// Errors at the catalog boundary.
#[derive(Clone, Copy, Debug, PartialEq, Eq, Structural)]
pub enum CatalogError {
    /// An index at or past the end of a catalog.
    IndexOutOfRange,
    /// A reference that names no entry of the catalog asked for.
    UnresolvedCatalogReference,
}

/// The ground catalog, its variants in index order.
#[derive(Clone, Copy, Debug, PartialEq, Eq, Structural)]
pub enum FloorModel {
    Concrete,
    Grass,
    RoadStraight,
    RoadStraightWalkable,
    RoadStraightSideOpen,
    RoadEnd,
    RoadCorner,
    RoadCornerWalkable,
    RoadIntersection,
    RoadIntersectionWalkable,
}

/// The structures catalog, its variants in index order.
#[derive(Clone, Copy, Debug, PartialEq, Eq, Structural)]
pub enum BuildingModel {
    Blgd01_01,
    Blgd02_01,
}

/// A reference to one entry of either catalog: the kind of a placed object.
#[derive(Clone, Copy, Debug, PartialEq, Eq, Structural)]
pub enum PointType {
    Grass,
    Concrete,
    RoadStraight,
    RoadStraightWalkable,
    RoadEnd,
    RoadStraightSideOpen,
    RoadCorner,
    RoadCornerWalkable,
    RoadIntersection,
    RoadIntersectionWalkable,
    Blgd01_01,
    Blgd02_01,
}

pub const FLOOR_LEN: usize = 10;

pub const BUILDING_LEN: usize = 2;

/// Index of a ground entry in its catalog.
pub open spec fn floor_index(m: FloorModel) -> nat {
    match m {
        FloorModel::Concrete => 0,
        FloorModel::Grass => 1,
        FloorModel::RoadStraight => 2,
        FloorModel::RoadStraightWalkable => 3,
        FloorModel::RoadStraightSideOpen => 4,
        FloorModel::RoadEnd => 5,
        FloorModel::RoadCorner => 6,
        FloorModel::RoadCornerWalkable => 7,
        FloorModel::RoadIntersection => 8,
        FloorModel::RoadIntersectionWalkable => 9,
    }
}

/// Index of a structure entry in its catalog.
pub open spec fn building_index(m: BuildingModel) -> nat {
    match m {
        BuildingModel::Blgd01_01 => 0,
        BuildingModel::Blgd02_01 => 1,
    }
}

/// The ground entry at index `i`.
pub open spec fn floor_at(i: nat) -> FloorModel
    recommends
        i < FLOOR_LEN,
{
    if i == 0 {
        FloorModel::Concrete
    } else if i == 1 {
        FloorModel::Grass
    } else if i == 2 {
        FloorModel::RoadStraight
    } else if i == 3 {
        FloorModel::RoadStraightWalkable
    } else if i == 4 {
        FloorModel::RoadStraightSideOpen
    } else if i == 5 {
        FloorModel::RoadEnd
    } else if i == 6 {
        FloorModel::RoadCorner
    } else if i == 7 {
        FloorModel::RoadCornerWalkable
    } else if i == 8 {
        FloorModel::RoadIntersection
    } else {
        FloorModel::RoadIntersectionWalkable
    }
}

/// The structure entry at index `i`.
pub open spec fn building_at(i: nat) -> BuildingModel
    recommends
        i < BUILDING_LEN,
{
    if i == 0 {
        BuildingModel::Blgd01_01
    } else {
        BuildingModel::Blgd02_01
    }
}

/// Asset of a ground entry.
pub open spec fn floor_path(m: FloorModel) -> &'static str {
    match m {
        FloorModel::Concrete => "./models/roads/road_prop_tile_dark.glb#Scene0",
        FloorModel::Grass => "./models/grass_flat.glb#Scene0",
        FloorModel::RoadStraight => "./models/roads/road_straight.glb#Scene0",
        FloorModel::RoadStraightWalkable => "./models/roads/road_straight_walkable.glb#Scene0",
        FloorModel::RoadStraightSideOpen => "./models/roads/road_straight_side_open.glb#Scene0",
        FloorModel::RoadEnd => "./models/roads/road_end.glb#Scene0",
        FloorModel::RoadCorner => "./models/roads/road_corner.glb#Scene0",
        FloorModel::RoadCornerWalkable => "./models/roads/road_corner_walkable.glb#Scene0",
        FloorModel::RoadIntersection => "./models/roads/road_intersection.glb#Scene0",
        FloorModel::RoadIntersectionWalkable => "./models/roads/road_intersection_walkable.glb#Scene0",
    }
}

/// Asset of a structure entry.
pub open spec fn building_path(m: BuildingModel) -> &'static str {
    match m {
        BuildingModel::Blgd01_01 => "./models/bldg/bldg_01_01.glb#Scene0",
        BuildingModel::Blgd02_01 => "./models/bldg/bldg_02_01.glb#Scene0",
    }
}

/// The reference that names a ground entry.
pub open spec fn floor_ref(m: FloorModel) -> PointType {
    match m {
        FloorModel::Concrete => PointType::Concrete,
        FloorModel::Grass => PointType::Grass,
        FloorModel::RoadStraight => PointType::RoadStraight,
        FloorModel::RoadStraightWalkable => PointType::RoadStraightWalkable,
        FloorModel::RoadStraightSideOpen => PointType::RoadStraightSideOpen,
        FloorModel::RoadEnd => PointType::RoadEnd,
        FloorModel::RoadCorner => PointType::RoadCorner,
        FloorModel::RoadCornerWalkable => PointType::RoadCornerWalkable,
        FloorModel::RoadIntersection => PointType::RoadIntersection,
        FloorModel::RoadIntersectionWalkable => PointType::RoadIntersectionWalkable,
    }
}

/// The reference that names a structure entry.
pub open spec fn building_ref(m: BuildingModel) -> PointType {
    match m {
        BuildingModel::Blgd01_01 => PointType::Blgd01_01,
        BuildingModel::Blgd02_01 => PointType::Blgd02_01,
    }
}

/// Whether a reference names a structure rather than a ground entry.
pub open spec fn is_building_ref(t: PointType) -> bool {
    t is Blgd01_01 || t is Blgd02_01
}

/// The ground entry that a reference names, if it names one.
pub open spec fn floor_of(t: PointType) -> Option<FloorModel> {
    match t {
        PointType::Grass => Some(FloorModel::Grass),
        PointType::Concrete => Some(FloorModel::Concrete),
        PointType::RoadStraight => Some(FloorModel::RoadStraight),
        PointType::RoadStraightWalkable => Some(FloorModel::RoadStraightWalkable),
        PointType::RoadEnd => Some(FloorModel::RoadEnd),
        PointType::RoadStraightSideOpen => Some(FloorModel::RoadStraightSideOpen),
        PointType::RoadCorner => Some(FloorModel::RoadCorner),
        PointType::RoadCornerWalkable => Some(FloorModel::RoadCornerWalkable),
        PointType::RoadIntersection => Some(FloorModel::RoadIntersection),
        PointType::RoadIntersectionWalkable => Some(FloorModel::RoadIntersectionWalkable),
        _ => None,
    }
}

/// The structure entry that a reference names, if it names one.
pub open spec fn building_of(t: PointType) -> Option<BuildingModel> {
    match t {
        PointType::Blgd01_01 => Some(BuildingModel::Blgd01_01),
        PointType::Blgd02_01 => Some(BuildingModel::Blgd02_01),
        _ => None,
    }
}

/// Asset of the entry that a reference names.
pub open spec fn point_path(t: PointType) -> &'static str {
    if is_building_ref(t) {
        building_path(building_of(t).unwrap())
    } else {
        floor_path(floor_of(t).unwrap())
    }
}

impl FloorModel {
    /// Number of ground entries.
    pub fn len() -> (r: usize)
        ensures
            r == FLOOR_LEN,
    {
        FLOOR_LEN
    }

    /// The ground entry at `index`.
    pub fn index(index: usize) -> (r: FloorModel)
        requires
            index < FLOOR_LEN,
        ensures
            r == floor_at(index as nat),
            floor_index(r) == index,
    {
        match index {
            0 => FloorModel::Concrete,
            1 => FloorModel::Grass,
            2 => FloorModel::RoadStraight,
            3 => FloorModel::RoadStraightWalkable,
            4 => FloorModel::RoadStraightSideOpen,
            5 => FloorModel::RoadEnd,
            6 => FloorModel::RoadCorner,
            7 => FloorModel::RoadCornerWalkable,
            8 => FloorModel::RoadIntersection,
            _ => FloorModel::RoadIntersectionWalkable,
        }
    }

    /// The ground entry at `index`, or `IndexOutOfRange` past the end.
    pub fn entry(index: usize) -> (r: Result<FloorModel, CatalogError>)
        ensures
            index < FLOOR_LEN ==> r == Ok::<FloorModel, CatalogError>(floor_at(index as nat)),
            index >= FLOOR_LEN ==> r == Err::<FloorModel, CatalogError>(
                CatalogError::IndexOutOfRange,
            ),
    {
        if index < FLOOR_LEN {
            Ok(FloorModel::index(index))
        } else {
            Err(CatalogError::IndexOutOfRange)
        }
    }

    /// Index of this entry in the ground catalog.
    pub fn get_index(&self) -> (r: usize)
        ensures
            r == floor_index(*self),
            r < FLOOR_LEN,
    {
        match self {
            FloorModel::Concrete => 0,
            FloorModel::Grass => 1,
            FloorModel::RoadStraight => 2,
            FloorModel::RoadStraightWalkable => 3,
            FloorModel::RoadStraightSideOpen => 4,
            FloorModel::RoadEnd => 5,
            FloorModel::RoadCorner => 6,
            FloorModel::RoadCornerWalkable => 7,
            FloorModel::RoadIntersection => 8,
            FloorModel::RoadIntersectionWalkable => 9,
        }
    }

    /// The asset of this entry.
    pub fn get_meta(&self) -> (r: Meta)
        ensures
            r.path == floor_path(*self),
    {
        let path = match self {
            FloorModel::Concrete => "./models/roads/road_prop_tile_dark.glb#Scene0",
            FloorModel::Grass => "./models/grass_flat.glb#Scene0",
            FloorModel::RoadStraight => "./models/roads/road_straight.glb#Scene0",
            FloorModel::RoadStraightWalkable => "./models/roads/road_straight_walkable.glb#Scene0",
            FloorModel::RoadStraightSideOpen => "./models/roads/road_straight_side_open.glb#Scene0",
            FloorModel::RoadEnd => "./models/roads/road_end.glb#Scene0",
            FloorModel::RoadCorner => "./models/roads/road_corner.glb#Scene0",
            FloorModel::RoadCornerWalkable => "./models/roads/road_corner_walkable.glb#Scene0",
            FloorModel::RoadIntersection => "./models/roads/road_intersection.glb#Scene0",
            FloorModel::RoadIntersectionWalkable => "./models/roads/road_intersection_walkable.glb#Scene0",
        };
        Meta::new(path)
    }
}

impl BuildingModel {
    /// Number of structure entries.
    pub fn len() -> (r: usize)
        ensures
            r == BUILDING_LEN,
    {
        BUILDING_LEN
    }

    /// The structure entry at `index`.
    pub fn index(index: usize) -> (r: BuildingModel)
        requires
            index < BUILDING_LEN,
        ensures
            r == building_at(index as nat),
            building_index(r) == index,
    {
        if index == 0 {
            BuildingModel::Blgd01_01
        } else {
            BuildingModel::Blgd02_01
        }
    }

    /// The structure entry at `index`, or `IndexOutOfRange` past the end.
    pub fn entry(index: usize) -> (r: Result<BuildingModel, CatalogError>)
        ensures
            index < BUILDING_LEN ==> r == Ok::<BuildingModel, CatalogError>(
                building_at(index as nat),
            ),
            index >= BUILDING_LEN ==> r == Err::<BuildingModel, CatalogError>(
                CatalogError::IndexOutOfRange,
            ),
    {
        if index < BUILDING_LEN {
            Ok(BuildingModel::index(index))
        } else {
            Err(CatalogError::IndexOutOfRange)
        }
    }

    /// Index of this entry in the structures catalog.
    pub fn get_index(&self) -> (r: usize)
        ensures
            r == building_index(*self),
            r < BUILDING_LEN,
    {
        match self {
            BuildingModel::Blgd01_01 => 0,
            BuildingModel::Blgd02_01 => 1,
        }
    }

    /// The asset of this entry.
    pub fn get_meta(&self) -> (r: Meta)
        ensures
            r.path == building_path(*self),
    {
        let path = match self {
            BuildingModel::Blgd01_01 => "./models/bldg/bldg_01_01.glb#Scene0",
            BuildingModel::Blgd02_01 => "./models/bldg/bldg_02_01.glb#Scene0",
        };
        Meta::new(path)
    }
}

impl From<FloorModel> for PointType {
    fn from(value: FloorModel) -> (r: PointType) {
        match value {
            FloorModel::Concrete => PointType::Concrete,
            FloorModel::Grass => PointType::Grass,
            FloorModel::RoadStraight => PointType::RoadStraight,
            FloorModel::RoadStraightWalkable => PointType::RoadStraightWalkable,
            FloorModel::RoadStraightSideOpen => PointType::RoadStraightSideOpen,
            FloorModel::RoadEnd => PointType::RoadEnd,
            FloorModel::RoadCorner => PointType::RoadCorner,
            FloorModel::RoadCornerWalkable => PointType::RoadCornerWalkable,
            FloorModel::RoadIntersection => PointType::RoadIntersection,
            FloorModel::RoadIntersectionWalkable => PointType::RoadIntersectionWalkable,
        }
    }
}

impl vstd::std_specs::convert::FromSpecImpl<FloorModel> for PointType {
    open spec fn obeys_from_spec() -> bool {
        true
    }

    open spec fn from_spec(v: FloorModel) -> PointType {
        floor_ref(v)
    }
}

impl From<BuildingModel> for PointType {
    fn from(value: BuildingModel) -> (r: PointType) {
        match value {
            BuildingModel::Blgd01_01 => PointType::Blgd01_01,
            BuildingModel::Blgd02_01 => PointType::Blgd02_01,
        }
    }
}

impl vstd::std_specs::convert::FromSpecImpl<BuildingModel> for PointType {
    open spec fn obeys_from_spec() -> bool {
        true
    }

    open spec fn from_spec(v: BuildingModel) -> PointType {
        building_ref(v)
    }
}

impl TryFrom<PointType> for FloorModel {
    type Error = CatalogError;

    fn try_from(value: PointType) -> (r: Result<FloorModel, CatalogError>) {
        match value {
            PointType::Concrete => Ok(FloorModel::Concrete),
            PointType::Grass => Ok(FloorModel::Grass),
            PointType::RoadStraight => Ok(FloorModel::RoadStraight),
            PointType::RoadStraightWalkable => Ok(FloorModel::RoadStraightWalkable),
            PointType::RoadStraightSideOpen => Ok(FloorModel::RoadStraightSideOpen),
            PointType::RoadEnd => Ok(FloorModel::RoadEnd),
            PointType::RoadCorner => Ok(FloorModel::RoadCorner),
            PointType::RoadCornerWalkable => Ok(FloorModel::RoadCornerWalkable),
            PointType::RoadIntersection => Ok(FloorModel::RoadIntersection),
            PointType::RoadIntersectionWalkable => Ok(FloorModel::RoadIntersectionWalkable),
            _ => Err(CatalogError::UnresolvedCatalogReference),
        }
    }
}

impl vstd::std_specs::convert::TryFromSpecImpl<PointType> for FloorModel {
    open spec fn obeys_try_from_spec() -> bool {
        true
    }

    open spec fn try_from_spec(v: PointType) -> Result<FloorModel, CatalogError> {
        match floor_of(v) {
            Some(m) => Ok(m),
            None => Err(CatalogError::UnresolvedCatalogReference),
        }
    }
}

impl TryFrom<PointType> for BuildingModel {
    type Error = CatalogError;

    fn try_from(value: PointType) -> (r: Result<BuildingModel, CatalogError>) {
        match value {
            PointType::Blgd01_01 => Ok(BuildingModel::Blgd01_01),
            PointType::Blgd02_01 => Ok(BuildingModel::Blgd02_01),
            _ => Err(CatalogError::UnresolvedCatalogReference),
        }
    }
}

impl vstd::std_specs::convert::TryFromSpecImpl<PointType> for BuildingModel {
    open spec fn obeys_try_from_spec() -> bool {
        true
    }

    open spec fn try_from_spec(v: PointType) -> Result<BuildingModel, CatalogError> {
        match building_of(v) {
            Some(m) => Ok(m),
            None => Err(CatalogError::UnresolvedCatalogReference),
        }
    }
}

impl PointType {
    /// The asset of the entry that this reference names, in whichever catalog
    /// holds it.
    pub fn meta(&self) -> (r: Meta)
        ensures
            r.path == point_path(*self),
    {
        match FloorModel::try_from(*self) {
            Ok(m) => m.get_meta(),
            Err(_) => {
                let b = BuildingModel::try_from(*self);
                match b {
                    Ok(m) => m.get_meta(),
                    Err(_) => {
                        proof {
                            assert(false);
                        }
                        BuildingModel::Blgd01_01.get_meta()
                    },
                }
            },
        }
    }
}

} // verus!
