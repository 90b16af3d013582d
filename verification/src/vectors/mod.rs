pub mod color;
pub mod scalar;
pub mod vector;

pub use color::Color;
pub use scalar::Scalar;
pub use vector::Point;
pub use vector::Vector;
