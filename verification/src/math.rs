pub mod angle;
pub mod matrix;
pub mod vector;
