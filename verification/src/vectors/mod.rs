//! Fixed-size vectors.

pub mod vector_four;
pub mod vector_three;
pub mod vector_three_int;
pub mod vector_two;

pub use vector_four::Vector4;
pub use vector_three::Vector3;
pub use vector_three_int::Vector3Int;
pub use vector_two::Vector2;
