pub mod general;
pub mod limits;
