//! Value types: scalars, vectors, the 4x4 matrix, and pixel rectangles.
pub mod matrix;
pub mod rectangle;
pub mod scalar;
pub mod vector;

pub use matrix::Matrix4;
pub use rectangle::Pixels;
pub use rectangle::Rectangle;
pub use rectangle::Size;
pub use scalar::Scalar;
pub use vector::Vector2;
pub use vector::Vector3;
pub use vector::Vector4;
