//! Placement and world-state logic for a grid-based scene builder: the model
//! catalogs, the selection cursor, the four-way orientation, the registry of
//! placed objects and the decisions that connect them to user input.

pub mod catalog;
pub mod cursor;
pub mod orientation;
pub mod persistence;
pub mod placement;
pub mod world;

pub use catalog::{BuildingModel, CatalogError, FloorModel, Meta, PointType};
pub use cursor::ModelCursor;
pub use orientation::Orientation;
pub use persistence::PersistenceError;
pub use placement::{
    click_action, control_cursor, place_model, preview_visible, remove_model, ClickAction,
    ControlInput, PlaceDelta,
};
pub use world::{Point, Position, World};
