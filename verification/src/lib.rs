//! The Indexed 3D Scene Layer (I3S) format: the schema records of a scene
//! layer, and the verified addressing of its paged node tree.

pub mod bld;
pub mod cmn;
pub mod error;
pub mod i3s;
pub mod ieee;
pub mod io;
pub mod paging;
pub mod pcl;
pub mod psl;
pub mod stream;
pub mod text;
pub mod tree;
pub mod walk;

pub use i3s::{
    get_layer_type, Building, DDDObject, I3SFormat, I3SInfo, I3SProfile, IntegratedMesh, LayerKind, Point,
    PointCloud, SceneLayer,
};
