//! Fixed-size vectors and a 3x3 matrix over `u32`, with stateless spaces
//! that add and scale them elementwise.

pub mod containers;
pub mod elementwise;
pub mod identity;
pub mod laws;
pub mod matrix_ops;
pub mod spaces;
pub mod vector;

pub use crate::containers::{Matrix3X3, Vector3, Vector4};
pub use crate::identity::{AdditiveIdentity, MultiplicativeIdentity};
pub use crate::matrix_ops::{MAdd, MAddMut};
pub use crate::spaces::{FourDimSpace, ThreeDimSpaceV2};
