//! Matrices.

pub mod matrix_four;
pub mod matrix_n_m;
pub mod matrix_three;
pub mod matrix_two;

pub use matrix_four::Matrix4;
pub use matrix_n_m::MatrixArithmeticError;
pub use matrix_n_m::MatrixIndexError;
pub use matrix_n_m::MaxtrixNM;
pub use matrix_three::Matrix3;
pub use matrix_two::Matrix2;
