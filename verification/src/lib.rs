pub mod geometry;
pub mod point;
pub mod tan_table;

pub use crate::geometry::squared_distance;
pub use crate::point::{
    Direction, InputPoint, Point, PointList, close_neighbours, points_from_list,
    visible_neighbour, visible_points_from_neighbours,
};
